//! Where the pipeline keeps the native library's source tree and its install.
use vstd::prelude::*;

verus! {

/// Source root, relative to the build's working directory.
pub const SOURCE_ROOT: &'static str = "depends/build";

/// Install root, relative to the build's working directory.
pub const INSTALL_ROOT: &'static str = "depends/srt";

/// The pinned release archive; it alone decides what is fetched.
pub const RELEASE_URL: &'static str = "https://github.com/Haivision/srt/archive/refs/tags/v1.5.3.tar.gz";

/// The aggregation header that the interface is generated from.
pub const AGGREGATION_HEADER: &'static str = "wrapper.h";

/// `base/name`.
pub open spec fn join(base: Seq<char>, name: Seq<char>) -> Seq<char> {
    base + "/"@ + name
}

/// The unpacked release, directly under the source root.
pub open spec fn source_dir_of(source_root: Seq<char>) -> Seq<char> {
    join(source_root, "srt"@)
}

/// The transient directory that the archive is unpacked into.
pub open spec fn staging_dir_of(source_root: Seq<char>) -> Seq<char> {
    join(source_root, "temp"@)
}

/// The out-of-tree build directory inside the unpacked release.
pub open spec fn build_dir_of(source_dir: Seq<char>) -> Seq<char> {
    join(source_dir, "build"@)
}

pub open spec fn lib_dir_of(install_root: Seq<char>) -> Seq<char> {
    join(install_root, "lib"@)
}

/// The installed static archive.
pub open spec fn artifact_of(install_root: Seq<char>) -> Seq<char> {
    join(lib_dir_of(install_root), "libsrt.a"@)
}

/// The header search path of the install.
pub open spec fn header_root_of(install_root: Seq<char>) -> Seq<char> {
    join(install_root, "include"@)
}

/// The installed public header tree.
pub open spec fn header_dir_of(install_root: Seq<char>) -> Seq<char> {
    join(header_root_of(install_root), "srt"@)
}

pub fn join_path(base: &str, name: &str) -> (r: String)
    ensures
        r@ == join(base@, name@),
{
    let mut s = String::from_str(base);
    s.append("/");
    s.append(name);
    s
}

pub fn source_dir(source_root: &str) -> (r: String)
    ensures
        r@ == source_dir_of(source_root@),
{
    join_path(source_root, "srt")
}

pub fn staging_dir(source_root: &str) -> (r: String)
    ensures
        r@ == staging_dir_of(source_root@),
{
    join_path(source_root, "temp")
}

pub fn build_dir(source_dir: &str) -> (r: String)
    ensures
        r@ == build_dir_of(source_dir@),
{
    join_path(source_dir, "build")
}

pub fn lib_dir(install_root: &str) -> (r: String)
    ensures
        r@ == lib_dir_of(install_root@),
{
    join_path(install_root, "lib")
}

pub fn artifact_path(install_root: &str) -> (r: String)
    ensures
        r@ == artifact_of(install_root@),
{
    let l = lib_dir(install_root);
    join_path(l.as_str(), "libsrt.a")
}

pub fn header_root(install_root: &str) -> (r: String)
    ensures
        r@ == header_root_of(install_root@),
{
    join_path(install_root, "include")
}

pub fn header_dir(install_root: &str) -> (r: String)
    ensures
        r@ == header_dir_of(install_root@),
{
    let h = header_root(install_root);
    join_path(h.as_str(), "srt")
}

} // verus!
