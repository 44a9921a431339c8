//! The command line of the helper.
use vstd::prelude::*;
use vstd::string::*;
use crate::text::string_views;

verus! {

/// Whether the helper runs in simulation mode: where `--offline` is among the arguments,
/// or where the host is not Linux.
pub fn simulation_requested(args: &Vec<String>, on_linux: bool) -> (r: bool)
    ensures
        r == (string_views(args@).contains("--offline"@) || !on_linux),
{
    let flag = String::from_str("--offline");
    let n = args.len();
    for i in 0..n
        invariant
            n == args.len(),
            flag@ == "--offline"@,
            forall|j: int| 0 <= j < i ==> args@[j]@ != "--offline"@,
    {
        if args[i] == flag {
            assert(string_views(args@)[i as int] == "--offline"@);
            return true;
        }
    }
    assert(!string_views(args@).contains("--offline"@)) by {
        if string_views(args@).contains("--offline"@) {
            let j = choose|j: int|
                0 <= j < string_views(args@).len() && string_views(args@)[j] == "--offline"@;
            assert(args@[j]@ == "--offline"@);
        }
    }
    !on_linux
}

} // verus!
