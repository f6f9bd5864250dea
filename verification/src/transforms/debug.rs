//! The debug overlay flag.
use crate::utils::parser::{flag_spec, parse_flag};
use vstd::prelude::*;

verus! {

/// Parses the debug flag: `1`, `true`, `yes` or `on` in any ASCII case.
pub fn parse_debug(value: &str) -> (res: bool)
    ensures
        res == flag_spec(value@),
{
    parse_flag(value)
}

} // verus!
