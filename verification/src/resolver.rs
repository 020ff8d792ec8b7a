//! Injector resolver: where the external injection tool lives.
//!
//! An operator-supplied override path always wins, verbatim, without any
//! existence check and without fallback — an explicit choice is never
//! second-guessed.  Otherwise the canonical install path and an ordered
//! fixed list of alternate install locations are tried, and the first one
//! that exists on disk wins.  When none exists, resolution fails, which the
//! orchestrator surfaces as a terminal error for the launch without touching
//! hook or lock state.
//!
//! Reading the override variable and testing which paths exist is the
//! surrounding process's work; resolution itself decides from those plain
//! values.

use vstd::prelude::*;
use vstd::string::*;

verus! {

/// Where a resolved path came from.
#[derive(PartialEq, Eq, Structural, Clone, Copy, Debug)]
pub enum InjectorSource {
    /// The environment override, taken verbatim.
    Override,
    /// The well-known install location with this index; index 0 is the
    /// canonical default.
    WellKnown(usize),
}

/// The resolved location of the injection tool.  Resolved once per launch
/// and read-only afterwards.
pub struct InjectorLocation {
    pub path: String,
    pub source: InjectorSource,
}

/// The index of the first location that exists, scanning in order.
pub open spec fn first_existing(exists: Seq<bool>) -> Option<int>
    decreases exists.len(),
{
    if exists.len() == 0 {
        None
    } else if exists[0] {
        Some(0int)
    } else {
        match first_existing(exists.drop_first()) {
            Some(i) => Some(i + 1),
            None => None,
        }
    }
}

/// The first existing index is in range, marks an existing location, and
/// nothing before it exists; absence means nothing exists at all.
pub proof fn lemma_first_existing(exists: Seq<bool>)
    ensures
        match first_existing(exists) {
            Some(i) => 0 <= i < exists.len() && exists[i] && forall|j: int|
                0 <= j < i ==> !exists[j],
            None => forall|j: int| 0 <= j < exists.len() ==> !exists[j],
        },
    decreases exists.len(),
{
    if exists.len() > 0 && !exists[0] {
        let rest = exists.drop_first();
        lemma_first_existing(rest);
        match first_existing(rest) {
            Some(i) => {
                assert(exists[i + 1] == rest[i]);
                assert forall|j: int| 0 <= j < i + 1 implies !exists[j] by {
                    if j > 0 {
                        assert(rest[j - 1] == exists[j]);
                    }
                }
            },
            None => {
                assert forall|j: int| 0 <= j < exists.len() implies !exists[j] by {
                    if j > 0 {
                        assert(rest[j - 1] == exists[j]);
                    }
                }
            },
        }
    }
}

/// The canonical install path of the injection tool.
pub open spec fn default_injector_path() -> Seq<char> {
    "C:\\Program Files\\Revive\\Revive\\ReviveInjector.exe"@
}

/// The first alternate install location.
pub open spec fn alternate_injector_path_x64() -> Seq<char> {
    "C:\\Program Files\\Revive\\Revive\\x64\\ReviveInjector.exe"@
}

/// The second alternate install location.
pub open spec fn alternate_injector_path_flat() -> Seq<char> {
    "C:\\Program Files\\Revive\\ReviveInjector.exe"@
}

/// The ordered fixed list of well-known install locations, the canonical
/// default first.
pub fn well_known_injector_paths() -> (r: Vec<String>)
    ensures
        r.deep_view().len() == 3,
        r.deep_view()[0] == default_injector_path(),
        r.deep_view()[1] == alternate_injector_path_x64(),
        r.deep_view()[2] == alternate_injector_path_flat(),
{
    let mut r: Vec<String> = Vec::new();
    r.push(String::from_str("C:\\Program Files\\Revive\\Revive\\ReviveInjector.exe"));
    r.push(String::from_str("C:\\Program Files\\Revive\\Revive\\x64\\ReviveInjector.exe"));
    r.push(String::from_str("C:\\Program Files\\Revive\\ReviveInjector.exe"));
    r
}

/// Resolves the injector's location.  `candidates` are the well-known
/// locations in order, `exists` says for each whether it is on disk right
/// now.  An override wins verbatim, even when the path it names does not
/// exist and well-known locations do; otherwise the first existing
/// well-known location wins; otherwise resolution fails.
pub fn resolve_injector(
    override_path: Option<String>,
    candidates: &Vec<String>,
    exists: &Vec<bool>,
) -> (r: Option<InjectorLocation>)
    requires
        candidates.len() == exists.len(),
    ensures
        match override_path {
            Some(p) => r matches Some(loc) && loc.path == p && loc.source
                == InjectorSource::Override,
            None => match first_existing(exists@) {
                Some(i) => r matches Some(loc) && loc.path@ == candidates.deep_view()[i]
                    && loc.source == InjectorSource::WellKnown(i as usize),
                None => r is None,
            },
        },
{
    match &override_path {
        Some(p) => Some(InjectorLocation { path: p.clone(), source: InjectorSource::Override }),
        None => {
            let mut i: usize = 0;
            while i < exists.len()
                invariant
                    override_path is None,
                    candidates.len() == exists.len(),
                    i <= exists.len(),
                    forall|j: int| 0 <= j < i ==> !exists@[j],
                decreases exists.len() - i,
            {
                if exists[i] {
                    proof {
                        lemma_first_existing(exists@);
                        assert(exists@[i as int]);
                        if let Some(k) = first_existing(exists@) {
                            if k < i {
                                assert(!exists@[k]);
                            }
                            if i < k {
                                assert(!exists@[i as int]);
                            }
                            assert(k == i);
                        }
                        assert(candidates.deep_view()[i as int] == candidates@[i as int]@);
                    }
                    return Some(
                        InjectorLocation {
                            path: candidates[i].clone(),
                            source: InjectorSource::WellKnown(i),
                        },
                    );
                }
                i = i + 1;
            }
            proof {
                lemma_first_existing(exists@);
            }
            None
        },
    }
}

} // verus!
