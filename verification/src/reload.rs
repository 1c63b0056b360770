//! The reload coordinator: surviving a wholesale replacement of the engine's
//! module set without ever leaving the shell's active selection pointing at
//! a destroyed module.
//!
//! Continuity goes through a value — the canonical name — never a live
//! handle: the name is captured before the engine rebuilds its set, and a
//! fresh module is re-resolved by that name afterwards, or the selection is
//! cleared.

use vstd::prelude::*;
use crate::modules::Module;

verus! {

/// The shell state the reload must preserve or invalidate: the active
/// module selection, and a cached projection of the module list (such as
/// completion entries for line editing).
pub struct Session {
    pub active: Option<Module>,
    pub completion_cache: Option<Vec<String>>,
}

/// The first index in `ms` of a module with this canonical name, or
/// `ms.len()` when no module has it.
pub open spec fn first_with_name(ms: Seq<Module>, name: Seq<char>) -> int
    recommends
        0 <= ms.len(),
    decreases ms.len(),
{
    if ms.len() == 0 {
        0
    } else if ms[0].canonical@ == name {
        0
    } else {
        1 + first_with_name(ms.drop_first(), name)
    }
}

/// Whether some module in `ms` carries this canonical name.
pub open spec fn has_name(ms: Seq<Module>, name: Seq<char>) -> bool {
    exists|i: int| 0 <= i < ms.len() && ms[i].canonical@ == name
}

proof fn lemma_first_with_name(ms: Seq<Module>, name: Seq<char>)
    ensures
        0 <= first_with_name(ms, name) <= ms.len(),
        has_name(ms, name) <==> first_with_name(ms, name) < ms.len(),
        first_with_name(ms, name) < ms.len() ==> ms[first_with_name(ms, name)].canonical@ == name,
        forall|j: int| 0 <= j < first_with_name(ms, name) && j < ms.len() ==> ms[j].canonical@ != name,
    decreases ms.len(),
{
    if ms.len() == 0 {
    } else if ms[0].canonical@ == name {
    } else {
        lemma_first_with_name(ms.drop_first(), name);
        assert forall|i: int| 0 <= i < ms.len() && ms[i].canonical@ == name implies has_name(
            ms.drop_first(),
            name,
        ) by {
            assert(ms.drop_first()[i - 1] == ms[i]);
        }
        assert(has_name(ms.drop_first(), name) ==> has_name(ms, name)) by {
            if has_name(ms.drop_first(), name) {
                let i = choose|i: int|
                    0 <= i < ms.drop_first().len() && ms.drop_first()[i].canonical@ == name;
                assert(ms[i + 1].canonical@ == name);
            }
        }
        assert forall|j: int|
            0 <= j < first_with_name(ms, name) && j < ms.len() implies ms[j].canonical@
            != name by {
            if j > 0 {
                assert(ms[j] == ms.drop_first()[j - 1]);
            }
        }
    }
}

/// Resolve a canonical name in the engine's module set, as `get` does: the
/// first module carrying the name, or nothing.
pub fn get_module<'a>(modules: &'a Vec<Module>, name: &String) -> (r: Option<&'a Module>)
    ensures
        match r {
            Some(m) => has_name(modules@, name@) && *m == modules@[first_with_name(
                modules@,
                name@,
            )],
            None => !has_name(modules@, name@),
        },
{
    proof {
        lemma_first_with_name(modules@, name@);
    }
    let n = modules.len();
    let mut i: usize = 0;
    while i < n
        invariant
            i <= n,
            n == modules@.len(),
            forall|j: int| 0 <= j < i ==> modules@[j].canonical@ != name@,
        decreases n - i,
    {
        if modules[i].canonical == *name {
            proof {
                lemma_first_with_name(modules@, name@);
            }
            return Some(&modules[i]);
        }
        i = i + 1;
    }
    None
}

/// Capture the canonical name of the active module as a plain value and
/// clear the selection, before the engine's module set is rebuilt.  From
/// here until the selection is re-resolved the shell holds no handle into
/// the old set, so a reload that fails midway leaves no dangling selection.
pub fn reload_capture(session: &mut Session) -> (r: Option<String>)
    ensures
        final(session).active is None,
        final(session).completion_cache == old(session).completion_cache,
        match old(session).active {
            None => r is None,
            Some(m) => r matches Some(name) && name@ == m.canonical@,
        },
{
    match session.active.take() {
        None => None,
        Some(m) => Some(m.canonical),
    }
}

/// After the engine rebuilt its module set, drop every cached projection of
/// the old set and re-resolve the captured name: the selection becomes the
/// first module of the same canonical name in the fresh set, or empty when
/// the module was renamed or removed — never a reference into the old set.
pub fn reload_apply(session: &mut Session, captured: Option<String>, modules: &Vec<Module>)
    ensures
        final(session).completion_cache is None,
        match captured {
            None => final(session).active is None,
            Some(name) => if has_name(modules@, name@) {
                final(session).active matches Some(m) && m == modules@[first_with_name(
                    modules@,
                    name@,
                )]
            } else {
                final(session).active is None
            },
        },
{
    session.completion_cache = None;
    session.active = None;
    if let Some(name) = captured {
        if let Some(m) = get_module(modules, &name) {
            session.active = Some(m.clone());
        }
    }
}

} // verus!
