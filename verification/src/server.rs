//! Choosing which installed server version a run uses.

use vstd::prelude::*;

verus! {

/// The version a run uses: the requested one when given, otherwise the
/// last of the installed versions, and nothing when none is installed.
pub fn select_version(requested: Option<String>, installed: &Vec<String>) -> (r: Option<String>)
    ensures
        match requested {
            Some(v) => r matches Some(rv) && rv@ == v@,
            None => {
                if installed@.len() == 0 {
                    r is None
                } else {
                    r matches Some(rv) && rv@ == installed@.last()@
                }
            },
        },
{
    match requested {
        Some(v) => Some(v),
        None => {
            if installed.len() == 0 {
                None
            } else {
                Some(installed[installed.len() - 1].clone())
            }
        },
    }
}

} // verus!
