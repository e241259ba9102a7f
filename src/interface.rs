//! The fixed policy by which the interface declarations are generated from
//! the aggregation header.
use vstd::prelude::*;
use crate::layout::AGGREGATION_HEADER;
use crate::native_build::texts;

verus! {

/// The one enumeration that is a set of additive flags.
pub const BITMASK_ENUM: &'static str = "SRT_EPOLL_OPT";

/// The one symbol left out, as it collides with a platform macro.
pub const EXCLUDED_SYMBOL: &'static str = "IPPORT_RESERVED";

/// How the interface declarations are generated.
#[derive(Debug)]
pub struct InterfacePolicy {
    /// The header that is parsed.
    pub header: String,
    /// Arguments for the C parser: the install's header search path.
    pub parser_args: Vec<String>,
    /// Map `size_t` to the host's pointer-sized unsigned integer.
    pub size_t_is_usize: bool,
    /// Enumerations treated as additive bitmasks.
    pub bitmask_enums: Vec<String>,
    /// Every other enumeration is open: values unknown now are no error.
    pub non_exhaustive_enums: bool,
    /// Symbols left out of the declarations.
    pub excluded: Vec<String>,
}

pub open spec fn header_search_arg_of(header_root: Seq<char>) -> Seq<char> {
    "-I"@ + header_root
}

/// The policy for headers installed under `header_root` is exactly the fixed one.
pub open spec fn is_policy_for(p: InterfacePolicy, header_root: Seq<char>) -> bool {
    &&& p.header@ == AGGREGATION_HEADER@
    &&& texts(p.parser_args@) == seq![header_search_arg_of(header_root)]
    &&& p.size_t_is_usize
    &&& texts(p.bitmask_enums@) == seq![BITMASK_ENUM@]
    &&& p.non_exhaustive_enums
    &&& texts(p.excluded@) == seq![EXCLUDED_SYMBOL@]
}

/// The generation policy for headers installed under `header_root`.
pub fn interface_policy(header_root: &str) -> (r: InterfacePolicy)
    ensures
        is_policy_for(r, header_root@),
{
    let mut search = String::from_str("-I");
    search.append(header_root);
    let r = InterfacePolicy {
        header: String::from_str(AGGREGATION_HEADER),
        parser_args: vec![search],
        size_t_is_usize: true,
        bitmask_enums: vec![String::from_str(BITMASK_ENUM)],
        non_exhaustive_enums: true,
        excluded: vec![String::from_str(EXCLUDED_SYMBOL)],
    };
    assert(texts(r.parser_args@) =~= seq![header_search_arg_of(header_root@)]);
    assert(texts(r.bitmask_enums@) =~= seq![BITMASK_ENUM@]);
    assert(texts(r.excluded@) =~= seq![EXCLUDED_SYMBOL@]);
    r
}

} // verus!
