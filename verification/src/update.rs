//! The update orchestrator: deciding, for one installed module, whether a
//! newer version exists, and driving the batch pass over every installed,
//! non-private module.
//!
//! The registry query, the installation and the persistence of the ledger
//! are outside work performed by the caller; the logic here turns their
//! results into decisions, ledger changes and user-visible notices.

use vstd::prelude::*;
use crate::ledger::AutoUpdater;
use crate::modules::Module;

verus! {

/// What the registry knows about a module: its latest released version, or
/// none when the registry has no released version for it at all.  Transient,
/// not persisted beyond a single update decision.
pub struct VersionQuery {
    pub latest: Option<String>,
}

/// Why updating one module failed.
#[derive(Debug)]
pub enum UpdateError {
    /// The registry query itself failed (network or registry fault); carries
    /// the collaborator's message.
    Registry { message: String },
    /// The registry has no released version for this module.  Distinct from
    /// "up to date".
    NoReleasedVersions,
    /// The installation step failed; carries the collaborator's message.
    InstallFailed { message: String },
}

/// The outcome of comparing the installed version with the latest one.
#[derive(Debug)]
pub enum UpdateDecision {
    /// Installed and latest versions are exactly equal: no action, no notice.
    UpToDate,
    /// The versions differ, so the module is reinstalled; carries the
    /// installed and the latest version for the progress label and notice.
    Install { old_version: String, new_version: String },
}

/// Decide what to do with one installed module, given the result of the
/// registry query for it.
///
/// A failed query propagates as a failure of the whole per-module update; a
/// registry with no released version is its own failure; otherwise the
/// installed version is compared to the latest by exact string equality —
/// any difference, including a "lower" remote version, asks for a
/// reinstall, and equality asks for nothing.
pub fn update(module: &Module, query: Result<VersionQuery, String>) -> (r: Result<
    UpdateDecision,
    UpdateError,
>)
    ensures
        match query {
            Err(message) => r matches Err(UpdateError::Registry { message: m }) && m == message,
            Ok(q) => match q.latest {
                None => r matches Err(UpdateError::NoReleasedVersions),
                Some(latest) => {
                    if latest@ == module.version@ {
                        r matches Ok(UpdateDecision::UpToDate)
                    } else {
                        r matches Ok(UpdateDecision::Install { old_version, new_version })
                            && old_version == module.version && new_version == latest
                    }
                },
            },
        },
{
    let query = match query {
        Ok(q) => q,
        Err(message) => {
            return Err(UpdateError::Registry { message });
        },
    };
    let latest = match query.latest {
        Some(latest) => latest,
        None => {
            return Err(UpdateError::NoReleasedVersions);
        },
    };
    if module.version == latest {
        Ok(UpdateDecision::UpToDate)
    } else {
        Ok(UpdateDecision::Install { old_version: module.version.clone(), new_version: latest })
    }
}

/// The first index at or after `i` of a non-private module, or `ms.len()`
/// when every remaining module is private.
pub open spec fn next_target(ms: Seq<Module>, i: int) -> int
    recommends
        0 <= i <= ms.len(),
    decreases ms.len() - i when 0 <= i <= ms.len()
{
    if i >= ms.len() {
        ms.len() as int
    } else if !ms[i].private {
        i
    } else {
        next_target(ms, i + 1)
    }
}

fn next_non_private(modules: &Vec<Module>, start: usize) -> (r: usize)
    requires
        start <= modules@.len(),
    ensures
        start <= r <= modules@.len(),
        r == next_target(modules@, start as int),
        r < modules@.len() ==> !modules@[r as int].private,
        forall|j: int| start <= j < r ==> modules@[j].private,
{
    let mut i: usize = start;
    while i < modules.len()
        invariant
            start <= i <= modules@.len(),
            next_target(modules@, start as int) == next_target(modules@, i as int),
            forall|j: int| start <= j < i ==> modules@[j].private,
        decreases modules@.len() - i,
    {
        if !modules[i].is_private() {
            return i;
        }
        i = i + 1;
    }
    i
}

/// Where a batch update pass stands: which response it is waiting for.
pub enum BatchPhase {
    /// Waiting for the registry query of the module at the current index.
    AwaitQuery,
    /// Waiting for the installation of the module at the current index.
    AwaitInstall { old_version: String, new_version: String },
    /// Every module has been considered; waiting for the ledger to be
    /// persisted.
    AwaitSave,
    /// The command is complete.
    Done,
}

/// The outside work the caller is asked to perform next.
#[derive(Debug)]
pub enum BatchAction {
    /// Query the registry for the latest version of this module.
    Query { module_id: String, name: String },
    /// Install the module from the registry; the versions are for the
    /// caller's progress label.
    Install { module_id: String, name: String, old_version: String, new_version: String },
    /// Persist the ledger, exactly once, after the full pass.
    SaveLedger,
    /// Nothing is left to do.
    Done,
}

/// The result of the outside work the caller was asked to perform.
pub enum BatchEvent {
    /// What the registry query returned, or the collaborator's error message.
    QueryResult { result: Result<VersionQuery, String> },
    /// Whether the installation succeeded, or its error message.
    InstallResult { result: Result<(), String> },
    /// The ledger was persisted.
    LedgerSaved,
}

/// A user-visible notice produced by one step of the batch pass.
#[derive(Debug)]
pub enum Notice {
    /// "Updated name: old -> new" after a successful reinstall.
    Updated { name: String, old_version: String, new_version: String },
    /// "Failed to update name: error" after a non-fatal per-module failure.
    UpdateFailed { name: String, error: UpdateError },
}

/// One batch update pass over the installed modules: strictly sequential,
/// tolerating per-module failure, touching the ledger only for modules that
/// were successfully reinstalled, and persisting it once at the end.
pub struct BatchUpdate {
    pub modules: Vec<Module>,
    pub idx: usize,
    pub ledger: AutoUpdater,
    pub phase: BatchPhase,
}

/// The batch at `post` has moved on from `pre` to the first non-private
/// module at or after index `from` — every module skipped on the way is
/// private — or, when none is left, to awaiting the single ledger save.
pub open spec fn proceeds_from(
    pre: BatchUpdate,
    post: BatchUpdate,
    action: BatchAction,
    from: int,
) -> bool {
    let ms = pre.modules@;
    let t = next_target(ms, from);
    &&& post.modules == pre.modules
    &&& from <= t
    &&& (forall|j: int| from <= j < t ==> ms[j].private)
    &&& if t < ms.len() {
        &&& post.phase is AwaitQuery
        &&& post.idx == t
        &&& (action matches BatchAction::Query { module_id, name } && module_id == ms[t].id
            && name == ms[t].canonical)
    } else {
        &&& post.phase is AwaitSave
        &&& post.idx == ms.len()
        &&& action is SaveLedger
    }
}

impl BatchUpdate {
    /// The control state is consistent: while a query or an installation is
    /// outstanding the batch points at an existing, non-private module, and
    /// once the save is reached every module has been considered.
    pub open spec fn wf(self) -> bool {
        match self.phase {
            BatchPhase::AwaitQuery => self.idx < self.modules@.len() && !self.modules@[self.idx as int].private,
            BatchPhase::AwaitInstall { .. } => self.idx < self.modules@.len()
                && !self.modules@[self.idx as int].private,
            BatchPhase::AwaitSave => self.idx == self.modules@.len(),
            BatchPhase::Done => self.idx == self.modules@.len(),
        }
    }

    /// What remains of the batch, counting down over the whole pass.  Every
    /// step strictly decreases it, so a driver that performs each requested
    /// action in turn always terminates; and since the save is requested
    /// only on the transition into `AwaitSave`, whose sole successor is
    /// `Done`, the ledger is persisted exactly once per pass.
    pub open spec fn remaining(self) -> int {
        3 * (self.modules@.len() - self.idx) + match self.phase {
            BatchPhase::AwaitQuery => 2int,
            BatchPhase::AwaitInstall { .. } => 1int,
            BatchPhase::AwaitSave => 1int,
            BatchPhase::Done => 0int,
        }
    }

    /// Which event the batch is able to take next: exactly the response to
    /// the action it last handed out.
    pub open spec fn accepts(self, event: BatchEvent) -> bool {
        match event {
            BatchEvent::QueryResult { .. } => self.phase is AwaitQuery,
            BatchEvent::InstallResult { .. } => self.phase is AwaitInstall,
            BatchEvent::LedgerSaved => self.phase is AwaitSave,
        }
    }

    fn advance(&mut self, from: usize) -> (r: BatchAction)
        requires
            from <= old(self).modules@.len(),
        ensures
            proceeds_from(*old(self), *final(self), r, from as int),
            final(self).ledger == old(self).ledger,
            final(self).wf(),
    {
        let t = next_non_private(&self.modules, from);
        self.idx = t;
        if t < self.modules.len() {
            self.phase = BatchPhase::AwaitQuery;
            BatchAction::Query {
                module_id: self.modules[t].id.clone(),
                name: self.modules[t].canonical.clone(),
            }
        } else {
            self.phase = BatchPhase::AwaitSave;
            BatchAction::SaveLedger
        }
    }

    /// Begin a batch pass over a snapshot of the installed modules with a
    /// freshly loaded ledger.  The returned action asks for the registry
    /// query of the first non-private module, or for the ledger save when
    /// there is none.
    pub fn new(modules: Vec<Module>, ledger: AutoUpdater) -> (r: (BatchUpdate, BatchAction))
        ensures
            r.0.wf(),
            r.0.modules == modules,
            r.0.ledger == ledger,
            proceeds_from(r.0, r.0, r.1, 0),
    {
        let mut batch = BatchUpdate { modules, idx: 0, ledger, phase: BatchPhase::Done };
        let action = batch.advance(0);
        (batch, action)
    }

    /// Take the result of the outside work last asked for, and say what to
    /// do next.
    ///
    /// One module's failure never aborts the batch: a failed query, a
    /// registry without released versions, and a failed installation each
    /// produce a notice and move on to the remaining modules.  The ledger
    /// changes exactly when an installation succeeded, marking that one
    /// module as current; a module whose installed version already equals
    /// the latest causes no install request, no notice and no ledger change.
    /// The single ledger save is asked for precisely when every module has
    /// been considered, and the only step after it finishes the batch.
    pub fn step(&mut self, event: BatchEvent) -> (r: (BatchAction, Option<Notice>))
        requires
            old(self).wf(),
            old(self).accepts(event),
        ensures
            final(self).wf(),
            final(self).modules == old(self).modules,
            final(self).remaining() < old(self).remaining(),
            (match event {
                BatchEvent::InstallResult { result } => match result {
                    Ok(_) => final(self).ledger@ == old(self).ledger@.insert(
                        old(self).modules@[old(self).idx as int].canonical@,
                        false,
                    ),
                    Err(_) => final(self).ledger == old(self).ledger,
                },
                _ => final(self).ledger == old(self).ledger,
            }),
            (match event {
                BatchEvent::QueryResult { result } => {
                    let m = old(self).modules@[old(self).idx as int];
                    match result {
                        Err(message) => {
                            &&& proceeds_from(*old(self), *final(self), r.0, old(self).idx + 1)
                            &&& (r.1 matches Some(
                                Notice::UpdateFailed {
                                    name,
                                    error: UpdateError::Registry { message: em },
                                },
                            ) && name == m.canonical && em == message)
                        },
                        Ok(q) => match q.latest {
                            None => {
                                &&& proceeds_from(*old(self), *final(self), r.0, old(self).idx + 1)
                                &&& (r.1 matches Some(
                                    Notice::UpdateFailed {
                                        name,
                                        error: UpdateError::NoReleasedVersions,
                                    },
                                ) && name == m.canonical)
                            },
                            Some(latest) => if latest@ == m.version@ {
                                &&& proceeds_from(*old(self), *final(self), r.0, old(self).idx + 1)
                                &&& r.1 is None
                            } else {
                                &&& (final(self).phase matches BatchPhase::AwaitInstall {
                                    old_version,
                                    new_version,
                                } && old_version == m.version && new_version == latest)
                                &&& final(self).idx == old(self).idx
                                &&& (r.0 matches BatchAction::Install {
                                    module_id,
                                    name,
                                    old_version,
                                    new_version,
                                } && module_id == m.id && name == m.canonical
                                    && old_version == m.version && new_version == latest)
                                &&& r.1 is None
                            },
                        },
                    }
                },
                BatchEvent::InstallResult { result } => {
                    let m = old(self).modules@[old(self).idx as int];
                    match result {
                        Ok(_) => {
                            &&& proceeds_from(*old(self), *final(self), r.0, old(self).idx + 1)
                            &&& (old(self).phase matches BatchPhase::AwaitInstall {
                                old_version,
                                new_version,
                            } ==> (r.1 matches Some(
                                Notice::Updated { name, old_version: o, new_version: n },
                            ) && name == m.canonical && o == old_version && n == new_version))
                        },
                        Err(message) => {
                            &&& proceeds_from(*old(self), *final(self), r.0, old(self).idx + 1)
                            &&& (r.1 matches Some(
                                Notice::UpdateFailed {
                                    name,
                                    error: UpdateError::InstallFailed { message: em },
                                },
                            ) && name == m.canonical && em == message)
                        },
                    }
                },
                BatchEvent::LedgerSaved => {
                    &&& final(self).phase is Done
                    &&& final(self).idx == old(self).idx
                    &&& final(self).ledger == old(self).ledger
                    &&& r.0 is Done
                    &&& r.1 is None
                },
            }),
    {
        match event {
            BatchEvent::QueryResult { result } => {
                let idx = self.idx;
                let n = self.modules.len();
                assert(idx < n);
                match update(&self.modules[idx], result) {
                    Ok(UpdateDecision::UpToDate) => {
                        let action = self.advance(idx + 1);
                        (action, None)
                    },
                    Ok(UpdateDecision::Install { old_version, new_version }) => {
                        let action = BatchAction::Install {
                            module_id: self.modules[idx].id.clone(),
                            name: self.modules[idx].canonical.clone(),
                            old_version: old_version.clone(),
                            new_version: new_version.clone(),
                        };
                        self.phase = BatchPhase::AwaitInstall { old_version, new_version };
                        (action, None)
                    },
                    Err(error) => {
                        let name = self.modules[idx].canonical.clone();
                        let action = self.advance(idx + 1);
                        (action, Some(Notice::UpdateFailed { name, error }))
                    },
                }
            },
            BatchEvent::InstallResult { result } => {
                let idx = self.idx;
                let n = self.modules.len();
                assert(idx < n);
                let name = self.modules[idx].canonical.clone();
                match result {
                    Ok(_) => {
                        let (old_version, new_version) = match &self.phase {
                            BatchPhase::AwaitInstall { old_version, new_version } => (
                                old_version.clone(),
                                new_version.clone(),
                            ),
                            _ => vstd::pervasive::unreached(),
                        };
                        self.ledger.updated(&name);
                        let action = self.advance(idx + 1);
                        (action, Some(Notice::Updated { name, old_version, new_version }))
                    },
                    Err(message) => {
                        let action = self.advance(idx + 1);
                        (
                            action,
                            Some(
                                Notice::UpdateFailed {
                                    name,
                                    error: UpdateError::InstallFailed { message },
                                },
                            ),
                        )
                    },
                }
            },
            BatchEvent::LedgerSaved => {
                self.phase = BatchPhase::Done;
                (BatchAction::Done, None)
            },
        }
    }
}

/// Private modules are never handed to the update orchestrator: whenever a
/// batch is waiting for a registry query or an installation, the module it
/// points at is non-private.
pub proof fn lemma_private_never_queried(b: BatchUpdate)
    requires
        b.wf(),
        b.phase is AwaitQuery || b.phase is AwaitInstall,
    ensures
        !b.modules@[b.idx as int].private,
{
}

} // verus!
