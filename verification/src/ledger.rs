//! The auto-update ledger: a persisted mapping from canonical module name to
//! an "is outdated" marker.
//!
//! The store itself is opaque to the shell: it is loaded at the start of a
//! `list` or `update` command, read or mutated in memory, and saved (by the
//! caller) once at the end of `update`.  Only the get/set contract matters
//! here, so the ledger is kept as a sequence of entries whose view is the
//! mapping they denote, a later entry for a name shadowing an earlier one.

use vstd::prelude::*;

verus! {

/// The mapping denoted by a sequence of `(name, outdated)` entries: a later
/// entry for the same name wins.
pub open spec fn entries_map(s: Seq<(String, bool)>) -> Map<Seq<char>, bool>
    decreases s.len(),
{
    if s.len() == 0 {
        Map::empty()
    } else {
        entries_map(s.drop_last()).insert(s.last().0@, s.last().1)
    }
}

/// Whether the ledger mapping `m` records the name as outdated; a name the
/// ledger has never seen is not outdated.
pub open spec fn outdated_in(m: Map<Seq<char>, bool>, name: Seq<char>) -> bool {
    m.contains_key(name) && m[name]
}

/// Persisted record of which modules are currently known to be outdated,
/// keyed by canonical module name.
pub struct AutoUpdater {
    entries: Vec<(String, bool)>,
}

impl View for AutoUpdater {
    type V = Map<Seq<char>, bool>;

    closed spec fn view(&self) -> Map<Seq<char>, bool> {
        entries_map(self.entries@)
    }
}

impl AutoUpdater {
    /// A ledger that records nothing.
    pub fn new() -> (r: Self)
        ensures
            r@ == Map::<Seq<char>, bool>::empty(),
    {
        AutoUpdater { entries: Vec::new() }
    }

    /// Record the outdated marker for one canonical name, replacing whatever
    /// the ledger held for it.  Used by the loader of the persisted store and
    /// by [`AutoUpdater::updated`].
    pub fn record(&mut self, name: &String, outdated: bool)
        ensures
            final(self)@ == old(self)@.insert(name@, outdated),
    {
        let entry = (name.clone(), outdated);
        proof {
            assert(self.entries@.push(entry).drop_last() =~= self.entries@);
        }
        self.entries.push(entry);
    }

    /// Mark a module as current (no longer outdated) after it was
    /// successfully reinstalled during an update pass.
    pub fn updated(&mut self, name: &String)
        ensures
            final(self)@ == old(self)@.insert(name@, false),
    {
        self.record(name, false);
    }

    /// Whether the ledger records this canonical name as outdated.
    pub fn is_outdated(&self, name: &String) -> (r: bool)
        ensures
            r == outdated_in(self@, name@),
    {
        let mut i: usize = self.entries.len();
        proof {
            assert(self.entries@.take(i as int) =~= self.entries@);
        }
        while i > 0
            invariant
                i <= self.entries@.len(),
                outdated_in(entries_map(self.entries@), name@) == outdated_in(
                    entries_map(self.entries@.take(i as int)),
                    name@,
                ),
            decreases i,
        {
            i = i - 1;
            proof {
                assert(self.entries@.take(i + 1).drop_last() =~= self.entries@.take(i as int));
                assert(self.entries@.take(i + 1).last() == self.entries@[i as int]);
            }
            if self.entries[i].0 == *name {
                return self.entries[i].1;
            }
        }
        proof {
            assert(self.entries@.take(0) =~= Seq::<(String, bool)>::empty());
        }
        false
    }

    /// The entries the ledger holds, for the caller that persists the store;
    /// they denote exactly the ledger's mapping.
    pub fn export(&self) -> (r: &Vec<(String, bool)>)
        ensures
            entries_map(r@) == self@,
    {
        &self.entries
    }
}

} // verus!
