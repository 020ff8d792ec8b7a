//! Model of the hook registration.
//!
//! The hook is a single registry value keyed by the target executable's
//! name, holding the quoted path of the launcher.  Its presence is the whole
//! "hook active" signal and its absence the whole "hook inactive" signal:
//! nothing here ever interprets the stored value beyond existence.  The
//! registry is owned by the OS and shared with other processes, so this
//! model is re-read where freshness matters and never cached across runs.

use vstd::prelude::*;
use vstd::string::*;

verus! {

/// Whether the hook registration exists right now.
pub struct HookState {
    pub present: bool,
}

/// A path wrapped in double quotes.
pub open spec fn spec_quoted(path: Seq<char>) -> Seq<char> {
    seq!['"'] + path + seq!['"']
}

/// Wraps a path in double quotes: the form the hook registration's value
/// takes, the quoted absolute path of the launcher, and the form a service
/// registration's binary path takes.
pub fn quote_path(path: &str) -> (r: String)
    ensures
        r@ == spec_quoted(path@),
{
    let mut s = String::from_str("\"");
    s.append(path);
    s.append("\"");
    proof {
        reveal_strlit("\"");
        assert("\""@ =~= seq!['"']);
        assert(s@ =~= spec_quoted(path@));
    }
    s
}

} // verus!
