//! The listing view: enumerating installed modules in engine order, with an
//! optional provenance filter, an optional restriction to outdated modules,
//! and the "[outdated]" annotation taken from the auto-update ledger.
//!
//! The view is read-only: it never mutates the ledger.

use vstd::prelude::*;
use crate::args::List;
use crate::ledger::AutoUpdater;
use crate::ledger::outdated_in;
use crate::modules::Module;

verus! {

/// One rendered module: the header's parts (name, version, marker) and the
/// description line.
pub struct ListEntry {
    pub canonical: String,
    pub version: String,
    pub outdated: bool,
    pub description: String,
}

/// Whether the listing options let this module through: the provenance
/// filter is an exact match on the source tag, and with `--outdated` only
/// modules the ledger marks outdated survive.
pub open spec fn listed(m: Module, ledger: Map<Seq<char>, bool>, opts: List) -> bool {
    &&& (opts.source matches Some(s) ==> m.source@ == s@)
    &&& (opts.outdated ==> outdated_in(ledger, m.canonical@))
}

/// The entry shown for one module, annotated from the ledger.
pub open spec fn entry_of(m: Module, ledger: Map<Seq<char>, bool>) -> ListEntry {
    ListEntry {
        canonical: m.canonical,
        version: m.version,
        outdated: outdated_in(ledger, m.canonical@),
        description: m.description,
    }
}

/// Exactly the modules the options let through, in engine order, each
/// annotated from the ledger.
pub open spec fn spec_list(ms: Seq<Module>, ledger: Map<Seq<char>, bool>, opts: List) -> Seq<
    ListEntry,
>
    decreases ms.len(),
{
    if ms.len() == 0 {
        Seq::empty()
    } else if listed(ms.last(), ledger, opts) {
        spec_list(ms.drop_last(), ledger, opts).push(entry_of(ms.last(), ledger))
    } else {
        spec_list(ms.drop_last(), ledger, opts)
    }
}

/// Listing is exactly filtering: the listing view holds precisely the
/// modules the options let through — the `--source` filter, the
/// `--outdated` restriction, or both — in their original order, each mapped
/// to its annotated entry.
pub proof fn lemma_list_is_filter(ms: Seq<Module>, ledger: Map<Seq<char>, bool>, opts: List)
    ensures
        spec_list(ms, ledger, opts) =~= ms.filter(|m: Module| listed(m, ledger, opts)).map_values(
            |m: Module| entry_of(m, ledger),
        ),
    decreases ms.len(),
{
    reveal(Seq::filter);
    let pred = |m: Module| listed(m, ledger, opts);
    let f = |m: Module| entry_of(m, ledger);
    if ms.len() == 0 {
    } else {
        lemma_list_is_filter(ms.drop_last(), ledger, opts);
        if pred(ms.last()) {
            assert(ms.drop_last().filter(pred).push(ms.last()).map_values(f)
                =~= ms.drop_last().filter(pred).map_values(f).push(f(ms.last())));
        }
    }
}

/// Enumerate the installed modules under the listing options, consulting
/// the ledger read-only: the result is exactly the subsequence of `modules`
/// whose source tag matches the `--source` filter and which, under
/// `--outdated`, the ledger marks outdated, each annotated with its marker.
pub fn list(modules: &Vec<Module>, ledger: &AutoUpdater, opts: &List) -> (r: Vec<ListEntry>)
    ensures
        r@ == spec_list(modules@, ledger@, *opts),
{
    let mut out: Vec<ListEntry> = Vec::new();
    let n = modules.len();
    let mut i: usize = 0;
    proof {
        assert(modules@.take(0) =~= Seq::<Module>::empty());
    }
    while i < n
        invariant
            i <= n,
            n == modules@.len(),
            out@ == spec_list(modules@.take(i as int), ledger@, *opts),
        decreases n - i,
    {
        proof {
            assert(modules@.take(i + 1).drop_last() =~= modules@.take(i as int));
            assert(modules@.take(i + 1).last() == modules@[i as int]);
        }
        let m = &modules[i];
        let passes_source = match &opts.source {
            Some(s) => m.source_equals(s),
            None => true,
        };
        if passes_source {
            let outdated = ledger.is_outdated(&m.canonical);
            if outdated || !opts.outdated {
                let entry = ListEntry {
                    canonical: m.canonical.clone(),
                    version: m.version.clone(),
                    outdated,
                    description: m.description.clone(),
                };
                assert(entry == entry_of(modules@[i as int], ledger@));
                out.push(entry);
            }
        }
        i = i + 1;
    }
    proof {
        assert(modules@.take(n as int) =~= modules@);
    }
    out
}

} // verus!
