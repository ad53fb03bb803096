//! Shared bookkeeping of one sync run: which plugins are in flight and which
//! ended without a healthy install.
use vstd::prelude::*;
use crate::package::strs;
use crate::task::TaskType;

verus! {

/// What the ledger holds, as sequences of plugin names.
pub struct LedgerState {
    pub pending: Seq<Seq<char>>,
    pub failures: Seq<Seq<char>>,
}

/// One change made to the ledger by a worker.
pub enum LedgerEvent {
    /// A worker took the task of the named plugin.
    Started(Seq<char>),
    /// The named plugin's operation came back: whether it synced, and whether
    /// a failure keeps the plugin recorded.
    Finished(Seq<char>, bool, bool),
}

/// A finished task counts against the plugin only when it failed and the
/// failure does not keep the plugin recorded.
pub open spec fn is_failure(synced: bool, retain: bool) -> bool {
    !synced && !retain
}

/// `s` with every occurrence of `n` taken out, the rest in order.
pub open spec fn remove_all(s: Seq<Seq<char>>, n: Seq<char>) -> Seq<Seq<char>>
    decreases s.len(),
{
    if s.len() == 0 {
        s
    } else {
        let rest = remove_all(s.drop_last(), n);
        if s.last() == n {
            rest
        } else {
            rest.push(s.last())
        }
    }
}

impl LedgerState {
    pub open spec fn empty() -> LedgerState {
        LedgerState { pending: Seq::empty(), failures: Seq::empty() }
    }

    pub open spec fn started(self, n: Seq<char>) -> LedgerState {
        LedgerState { pending: self.pending.push(n), failures: self.failures }
    }

    pub open spec fn finished(self, n: Seq<char>, synced: bool, retain: bool) -> LedgerState {
        LedgerState {
            pending: remove_all(self.pending, n),
            failures: if is_failure(synced, retain) {
                self.failures.push(n)
            } else {
                self.failures
            },
        }
    }

    pub open spec fn apply(self, e: LedgerEvent) -> LedgerState {
        match e {
            LedgerEvent::Started(n) => self.started(n),
            LedgerEvent::Finished(n, synced, retain) => self.finished(n, synced, retain),
        }
    }
}

/// The state reached from `s` by the events in order.
pub open spec fn replay(s: LedgerState, events: Seq<LedgerEvent>) -> LedgerState
    decreases events.len(),
{
    if events.len() == 0 {
        s
    } else {
        replay(s, events.drop_last()).apply(events.last())
    }
}

/// The pending and failure lists of a run, guarded by the caller's lock.
pub struct SyncLedger {
    pending: Vec<String>,
    failures: Vec<String>,
}

impl View for SyncLedger {
    type V = LedgerState;

    closed spec fn view(&self) -> LedgerState {
        LedgerState { pending: strs(self.pending@), failures: strs(self.failures@) }
    }
}

impl SyncLedger {
    pub fn new() -> (r: SyncLedger)
        ensures
            r@ == LedgerState::empty(),
    {
        let r = SyncLedger { pending: Vec::new(), failures: Vec::new() };
        assert(r@.pending =~= Seq::<Seq<char>>::empty());
        assert(r@.failures =~= Seq::<Seq<char>>::empty());
        r
    }

    /// Records that a worker took the named plugin's task.
    pub fn start(&mut self, name: &String)
        ensures
            final(self)@ == old(self)@.started(name@),
    {
        self.pending.push(name.clone());
        assert(self@.pending =~= old(self)@.pending.push(name@));
    }

    /// Records that the named plugin's operation came back: it leaves the
    /// pending list, and joins the failure list when it failed without
    /// being retained.
    pub fn finish(&mut self, name: &String, synced: bool, retain: bool)
        ensures
            final(self)@ == old(self)@.finished(name@, synced, retain),
    {
        let mut kept: Vec<String> = Vec::new();
        let mut i: usize = 0;
        while i < self.pending.len()
            invariant
                i <= self.pending.len(),
                strs(kept@) == remove_all(strs(self.pending@).subrange(0, i as int), name@),
            decreases self.pending.len() - i,
        {
            let ghost before = strs(self.pending@).subrange(0, i as int);
            let ghost upto = strs(self.pending@).subrange(0, i + 1);
            assert(upto.drop_last() =~= before);
            if self.pending[i] != *name {
                kept.push(self.pending[i].clone());
                assert(strs(kept@) =~= remove_all(before, name@).push(self.pending@[i as int]@));
            }
            i = i + 1;
        }
        assert(strs(self.pending@).subrange(0, self.pending.len() as int) =~= strs(self.pending@));
        self.pending = kept;
        if !synced && !retain {
            self.failures.push(name.clone());
            assert(strs(self.failures@) =~= old(self)@.failures.push(name@));
        }
    }
}


/// The plugins whose paths a run deletes at its end: for an install, those
/// still pending, which cancellation interrupted; for an update, none.
pub open spec fn removals_of(s: LedgerState, kind: TaskType) -> Seq<Seq<char>> {
    if kind == TaskType::Install {
        s.pending
    } else {
        Seq::empty()
    }
}

/// What a run hands back once every worker has exited.
pub struct RunReport {
    /// The plugins that ended without a healthy install, for the caller to
    /// drop from the manifest.
    pub failures: Vec<String>,
    /// The plugins whose target paths are to be deleted.
    pub removals: Vec<String>,
}

impl SyncLedger {
    /// The names of the plugins in flight.
    pub fn pending(&self) -> (r: &Vec<String>)
        ensures
            strs(r@) == self@.pending,
    {
        &self.pending
    }

    /// The names of the plugins that ended without a healthy install.
    pub fn failures(&self) -> (r: &Vec<String>)
        ensures
            strs(r@) == self@.failures,
    {
        &self.failures
    }

    /// Closes the ledger of a run of `kind` tasks.
    pub fn into_report(self, kind: TaskType) -> (r: RunReport)
        ensures
            strs(r.failures@) == self@.failures,
            strs(r.removals@) == removals_of(self@, kind),
    {
        let ghost st = self@;
        let SyncLedger { pending, failures } = self;
        let removals = match kind {
            TaskType::Install => pending,
            TaskType::Update => Vec::new(),
        };
        assert(strs(removals@) =~= removals_of(st, kind));
        RunReport { failures, removals }
    }
}

/// Whether `e` finishes the task of `n` with an operation that failed.
pub open spec fn finished_unsynced(e: LedgerEvent, n: Seq<char>) -> bool {
    match e {
        LedgerEvent::Finished(m, synced, _) => m == n && !synced,
        _ => false,
    }
}

/// Whether `e` finishes the task of `n` with a failure that does not keep it.
pub open spec fn finished_unretained(e: LedgerEvent, n: Seq<char>) -> bool {
    match e {
        LedgerEvent::Finished(m, synced, retain) => m == n && !synced && !retain,
        _ => false,
    }
}

/// Whether `e` finishes the task of `n`, however it ended.
pub open spec fn finishes(e: LedgerEvent, n: Seq<char>) -> bool {
    match e {
        LedgerEvent::Finished(m, _, _) => m == n,
        _ => false,
    }
}

proof fn lemma_push_keeps(s: Seq<Seq<char>>, x: Seq<char>, n: Seq<char>)
    requires
        s.contains(n),
    ensures
        s.push(x).contains(n),
{
    let k = choose|k: int| 0 <= k < s.len() && s[k] == n;
    assert(s.push(x)[k] == n);
}

proof fn lemma_remove_all_keeps(s: Seq<Seq<char>>, m: Seq<char>, n: Seq<char>)
    requires
        s.contains(n),
        m != n,
    ensures
        remove_all(s, m).contains(n),
    decreases s.len(),
{
    if s.last() == n {
        assert(remove_all(s, m) == remove_all(s.drop_last(), m).push(n));
        assert(remove_all(s, m)[remove_all(s, m).len() - 1] == n);
    } else {
        let k = choose|k: int| 0 <= k < s.len() && s[k] == n;
        assert(s.drop_last()[k] == n);
        lemma_remove_all_keeps(s.drop_last(), m, n);
        if s.last() != m {
            lemma_push_keeps(remove_all(s.drop_last(), m), s.last(), n);
        }
    }
}

proof fn lemma_never_listed(s: LedgerState, events: Seq<LedgerEvent>, n: Seq<char>)
    requires
        !s.failures.contains(n),
        forall|i: int| 0 <= i < events.len() ==> !finished_unretained(#[trigger] events[i], n),
    ensures
        !replay(s, events).failures.contains(n),
    decreases events.len(),
{
    if events.len() > 0 {
        let pre = events.drop_last();
        assert forall|i: int| 0 <= i < pre.len() implies !finished_unretained(#[trigger] pre[i], n) by {
            assert(pre[i] == events[i]);
        }
        lemma_never_listed(s, pre, n);
        let before = replay(s, pre);
        assert(!finished_unretained(events[events.len() - 1], n));
        match events.last() {
            LedgerEvent::Started(m) => {},
            LedgerEvent::Finished(m, synced, retain) => {
                if is_failure(synced, retain) {
                    assert(m != n);
                    assert forall|k: int| 0 <= k < before.failures.push(m).len() implies before.failures.push(m)[k] != n by {
                        if k < before.failures.len() {
                            assert(before.failures[k] != n);
                        }
                    }
                }
            },
        }
    }
}

/// A plugin whose operation synced each time its task finished never enters
/// the failure list, in any interleaving of the workers' events.
pub proof fn law_synced_plugin_not_failed(s: LedgerState, events: Seq<LedgerEvent>, n: Seq<char>)
    requires
        !s.failures.contains(n),
        forall|i: int| 0 <= i < events.len() ==> !finished_unsynced(#[trigger] events[i], n),
    ensures
        !replay(s, events).failures.contains(n),
{
    assert forall|i: int| 0 <= i < events.len() implies !finished_unretained(#[trigger] events[i], n) by {
        assert(!finished_unsynced(events[i], n));
    }
    lemma_never_listed(s, events, n);
}

/// A plugin whose failures all keep it recorded never enters the failure
/// list, though each failure is reported, in any interleaving.
pub proof fn law_retained_failure_not_listed(s: LedgerState, events: Seq<LedgerEvent>, n: Seq<char>)
    requires
        !s.failures.contains(n),
        forall|i: int|
            0 <= i < events.len() && #[trigger] finishes(events[i], n) ==> events[i] matches LedgerEvent::Finished(_, _, true),
    ensures
        !replay(s, events).failures.contains(n),
{
    assert forall|i: int| 0 <= i < events.len() implies !finished_unretained(#[trigger] events[i], n) by {
        if finishes(events[i], n) {
            assert(events[i] matches LedgerEvent::Finished(_, _, true));
        }
    }
    lemma_never_listed(s, events, n);
}

/// A plugin whose task fails without being retained is in the failure list
/// at the end of the run, whatever else happens.
pub proof fn law_unretained_failure_listed(s: LedgerState, events: Seq<LedgerEvent>, n: Seq<char>, i: int)
    requires
        0 <= i < events.len(),
        events[i] == LedgerEvent::Finished(n, false, false),
    ensures
        replay(s, events).failures.contains(n),
    decreases events.len(),
{
    let pre = events.drop_last();
    let before = replay(s, pre);
    if i == events.len() - 1 {
        assert(replay(s, events).failures == before.failures.push(n));
        assert(before.failures.push(n)[before.failures.len() as int] == n);
    } else {
        assert(pre[i] == events[i]);
        law_unretained_failure_listed(s, pre, n, i);
        match events.last() {
            LedgerEvent::Started(m) => {},
            LedgerEvent::Finished(m, synced, retain) => {
                if is_failure(synced, retain) {
                    lemma_push_keeps(before.failures, m, n);
                }
            },
        }
    }
}

/// A plugin whose task started and never finished, because cancellation won
/// the race, is still pending when the run ends; an install run then deletes
/// its target path.
pub proof fn law_interrupted_stays_pending(s: LedgerState, events: Seq<LedgerEvent>, n: Seq<char>, i: int)
    requires
        0 <= i < events.len(),
        events[i] == LedgerEvent::Started(n),
        forall|j: int| i < j < events.len() ==> !finishes(#[trigger] events[j], n),
    ensures
        replay(s, events).pending.contains(n),
        removals_of(replay(s, events), TaskType::Install).contains(n),
    decreases events.len(),
{
    let pre = events.drop_last();
    let before = replay(s, pre);
    if i == events.len() - 1 {
        assert(replay(s, events).pending == before.pending.push(n));
        assert(before.pending.push(n)[before.pending.len() as int] == n);
    } else {
        assert(pre[i] == events[i]);
        assert forall|j: int| i < j < pre.len() implies !finishes(#[trigger] pre[j], n) by {
            assert(pre[j] == events[j]);
        }
        law_interrupted_stays_pending(s, pre, n, i);
        assert(!finishes(events[events.len() - 1], n));
        match events.last() {
            LedgerEvent::Started(m) => {
                lemma_push_keeps(before.pending, m, n);
            },
            LedgerEvent::Finished(m, synced, retain) => {
                lemma_remove_all_keeps(before.pending, m, n);
            },
        }
    }
}

/// An update run deletes no plugin's path, whatever state it ends in.
pub proof fn law_update_removes_nothing(s: LedgerState)
    ensures
        removals_of(s, TaskType::Update).len() == 0,
{
}

/// A run in which every finished task is retained, as `update_plugin`
/// retains a skipped local plugin, a success and any version-control error,
/// ends with an empty failure list, in any interleaving of the workers.
pub proof fn law_retained_run_has_no_failures(events: Seq<LedgerEvent>)
    requires
        forall|i: int| 0 <= i < events.len() ==> !(#[trigger] events[i] matches LedgerEvent::Finished(_, _, false)),
    ensures
        replay(LedgerState::empty(), events).failures.len() == 0,
    decreases events.len(),
{
    if events.len() > 0 {
        let pre = events.drop_last();
        assert forall|i: int| 0 <= i < pre.len() implies !(#[trigger] pre[i] matches LedgerEvent::Finished(_, _, false)) by {
            assert(pre[i] == events[i]);
        }
        law_retained_run_has_no_failures(pre);
        assert(!(events[events.len() - 1] matches LedgerEvent::Finished(_, _, false)));
    }
}

} // verus!
