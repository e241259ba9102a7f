//! The directives handed to the host build: what to link, where to find it,
//! and which paths force the pipeline to run again.
use vstd::prelude::*;
use crate::layout::{lib_dir, lib_dir_of, source_dir_of, AGGREGATION_HEADER, SOURCE_ROOT};
use crate::native_build::texts;

verus! {

/// The C++ runtime link, the install's `lib` directory as a native search
/// path, the static archive by name, then the source tree and the aggregation
/// header as rebuild triggers.
pub open spec fn directives_of(install_root: Seq<char>) -> Seq<Seq<char>> {
    seq![
        "cargo:rustc-link-lib=c++"@,
        "cargo:rustc-link-search=native="@ + lib_dir_of(install_root),
        "cargo:rustc-link-lib=static=srt"@,
        "cargo:rerun-if-changed="@ + source_dir_of(SOURCE_ROOT@),
        "cargo:rerun-if-changed="@ + AGGREGATION_HEADER@,
    ]
}

/// The link plan for an install under `install_root`.
pub fn link_directives(install_root: &str) -> (r: Vec<String>)
    ensures
        texts(r@) == directives_of(install_root@),
{
    let mut search = String::from_str("cargo:rustc-link-search=native=");
    search.append(lib_dir(install_root).as_str());
    let mut source_trigger = String::from_str("cargo:rerun-if-changed=");
    source_trigger.append(crate::layout::source_dir(SOURCE_ROOT).as_str());
    let mut header_trigger = String::from_str("cargo:rerun-if-changed=");
    header_trigger.append(AGGREGATION_HEADER);
    let r = vec![
        String::from_str("cargo:rustc-link-lib=c++"),
        search,
        String::from_str("cargo:rustc-link-lib=static=srt"),
        source_trigger,
        header_trigger,
    ];
    assert(texts(r@) =~= directives_of(install_root@));
    r
}

} // verus!
