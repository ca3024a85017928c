//! Launch arguments: detection of the minimized-start flag.
use vstd::prelude::*;

verus! {

/// The flag that asks for the main window to start minimized.
pub open spec fn minimized_flag() -> Seq<char> {
    "--minimized"@
}

/// Whether the argument list holds the minimized flag as one exact argument.
pub open spec fn contains_minimized_flag(args: Seq<String>) -> bool {
    exists|i: int| 0 <= i < args.len() && #[trigger] args[i]@ == minimized_flag()
}

/// True exactly when one of `args` equals the minimized flag, character for
/// character (no prefix, substring or case variant matches).
pub fn has_minimized_flag(args: &[String]) -> (r: bool)
    ensures
        r == contains_minimized_flag(args@),
{
    let flag: String = "--minimized".to_owned();
    let mut i: usize = 0;
    while i < args.len()
        invariant
            i <= args.len(),
            flag@ == minimized_flag(),
            forall|j: int| 0 <= j < i ==> #[trigger] args@[j]@ != minimized_flag(),
        decreases args.len() - i,
    {
        if args[i] == flag {
            return true;
        }
        i = i + 1;
    }
    false
}

/// The arguments that an automatic start at login passes to the program:
/// the minimized flag alone.
pub fn autostart_args() -> (r: Vec<String>)
    ensures
        r@.len() == 1,
        r@[0]@ == minimized_flag(),
{
    let mut v: Vec<String> = Vec::new();
    v.push("--minimized".to_owned());
    v
}

/// A program started at login with the arguments of `autostart_args` is
/// recognised as a minimized start.
pub proof fn lemma_autostart_args_request_minimized(args: Seq<String>)
    requires
        args.len() == 1,
        args[0]@ == minimized_flag(),
    ensures
        contains_minimized_flag(args),
{
    assert(args[0]@ == minimized_flag());
}

} // verus!
