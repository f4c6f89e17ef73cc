//! The poll-cycle engine as a state machine.
//!
//! The driver performs the outside work (sleeping, fetching under a timeout,
//! posting notifications and alerts) and reports each outcome as an event; the
//! monitor decides the next action. One cycle is in progress at a time.
use vstd::prelude::*;
use crate::cell::{snapshot_view, CellView, Snapshot};
use crate::diff::{changed_list, changed_rows, lemma_unchanged_source_is_quiet};
use crate::error::{CycleError, Failure};
use crate::lookup::Lookup;
use crate::message::{compose_message, message_for, row_key, well_shaped};
use crate::throttle::{after_failure, alert_due, AlertThrottle};

verus! {

/// The outcome of one fetch of the table.
#[derive(Debug)]
pub enum Fetch {
    /// The table contents.
    Rows(Snapshot),
    /// The source answered, but without any values.
    NoValues,
    /// The source reported a protocol, authentication or quota failure.
    SourceFailed,
    /// The fetch did not complete within the bounded wait.
    TimedOut,
}

/// What the driver does next.
#[derive(Debug, PartialEq, Eq)]
pub enum Action {
    /// Send this text to the notifier, then report with `on_delivery`.
    Notify(String),
    /// The cycle succeeded; the fetched snapshot is now retained.
    Done,
    /// The cycle failed with this error; when the flag is set, the driver also
    /// sends one external alert.
    Failed(CycleError, bool),
}

struct Progress {
    fetched: Snapshot,
    changed: Vec<usize>,
    next: usize,
}

/// A cycle in progress: the fetched snapshot, its changed rows, and how many of
/// them have been notified.
pub struct CycleView {
    pub fetched: Seq<Seq<CellView>>,
    pub changed: Seq<int>,
    pub next: int,
}

/// The state of a [`Monitor`]: the retained snapshot, the last alert time,
/// and the cycle in progress, if any.
pub struct MonitorView {
    pub snapshot: Seq<Seq<CellView>>,
    pub last_alert: Option<u64>,
    pub cycle: Option<CycleView>,
}

/// The engine: the retained snapshot, the alert throttle, and the cycle in
/// progress, if any.
pub struct Monitor {
    snapshot: Snapshot,
    throttle: AlertThrottle,
    progress: Option<Progress>,
}

/// The cycle that a successful fetch opens, before any notification.
pub open spec fn opened(m: MonitorView, fetched: Seq<Seq<CellView>>) -> MonitorView {
    MonitorView {
        cycle: Some(CycleView { fetched, changed: changed_list(m.snapshot, fetched), next: 0 }),
        ..m
    }
}

/// The state once the cycle ends with the fetched snapshot retained.
pub open spec fn retained(m: MonitorView, fetched: Seq<Seq<CellView>>) -> MonitorView {
    MonitorView { snapshot: fetched, last_alert: m.last_alert, cycle: None }
}

/// One move of a cycle in progress: notify the next changed row; or, when none
/// is left, retain the fetched snapshot and finish; or, when the next changed
/// row is malformed, stop the cycle there. A malformed row still counts as a
/// successful fetch: the fetched snapshot is retained.
pub open spec fn advanced(m: MonitorView, lookup: Map<Seq<char>, Seq<char>>, r: Action, post: MonitorView) -> bool {
    let c = m.cycle->Some_0;
    if c.next >= c.changed.len() {
        r is Done && post == retained(m, c.fetched)
    } else {
        let row = c.fetched[c.changed[c.next]];
        if well_shaped(row) {
            &&& r is Notify
            &&& r->Notify_0@ == message_for(lookup, row_key(row), row)
            &&& post == MonitorView { cycle: Some(CycleView { next: c.next + 1, ..c }), ..m }
        } else {
            r == Action::Failed(CycleError::Other(Failure::MalformedRow), false) && post == retained(m, c.fetched)
        }
    }
}

impl View for Monitor {
    type V = MonitorView;

    closed spec fn view(&self) -> MonitorView {
        MonitorView {
            snapshot: snapshot_view(self.snapshot@),
            last_alert: self.throttle.last_alert,
            cycle: match self.progress {
                Some(p) => Some(
                    CycleView {
                        fetched: snapshot_view(p.fetched@),
                        changed: p.changed@.map_values(|i: usize| i as int),
                        next: p.next as int,
                    },
                ),
                None => None,
            },
        }
    }
}

impl Monitor {
    /// A cycle in progress lists the changed rows of its fetch against the
    /// retained snapshot, and has not gone past them.
    pub closed spec fn wf(&self) -> bool {
        match self.progress {
            Some(p) => {
                &&& p.changed@.map_values(|i: usize| i as int) == changed_list(
                    snapshot_view(self.snapshot@),
                    snapshot_view(p.fetched@),
                )
                &&& forall|k: int| 0 <= k < p.changed.len() ==> p.changed@[k] < p.fetched.len()
                &&& p.next <= p.changed.len()
            },
            None => true,
        }
    }

    /// An idle engine that retains `initial` and has sent no alert.
    pub fn new(initial: Snapshot) -> (r: Monitor)
        ensures
            r.wf(),
            r@ == (MonitorView { snapshot: snapshot_view(initial@), last_alert: None, cycle: None }),
    {
        Monitor { snapshot: initial, throttle: AlertThrottle::new(), progress: None }
    }

    /// The retained snapshot.
    pub fn snapshot(&self) -> (r: &Snapshot)
        ensures
            snapshot_view(r@) == self@.snapshot,
    {
        &self.snapshot
    }

    /// Whether a cycle is in progress.
    pub fn in_cycle(&self) -> (r: bool)
        ensures
            r == self@.cycle is Some,
    {
        self.progress.is_some()
    }

    fn advance(&mut self, lookup: &Lookup) -> (r: Action)
        requires
            old(self).wf(),
            old(self)@.cycle is Some,
            lookup.wf(),
        ensures
            final(self).wf(),
            advanced(old(self)@, lookup@, r, final(self)@),
    {
        let progress = self.progress.take();
        match progress {
            Some(p) => {
                let Progress { fetched, changed, next } = p;
                if next >= changed.len() {
                    self.snapshot = fetched;
                    Action::Done
                } else {
                    let idx = changed[next];
                    let composed = compose_message(&fetched[idx], lookup);
                    assert(snapshot_view(fetched@)[idx as int] == crate::cell::row_view(fetched@[idx as int]@));
                    match composed {
                        Ok(text) => {
                            self.progress = Some(Progress { fetched, changed, next: next + 1 });
                            Action::Notify(text)
                        },
                        Err(e) => {
                            self.snapshot = fetched;
                            Action::Failed(CycleError::Other(e), false)
                        },
                    }
                }
            },
            // Not reached: a cycle is in progress on entry.
            None => Action::Done,
        }
    }

    /// Handles the outcome of the fetch that opens a cycle. Failures leave the
    /// retained snapshot as it was; a source failure is alerted when the
    /// throttle allows. Fetched rows open a cycle over the changed rows.
    pub fn on_fetch(&mut self, fetch: Fetch, lookup: &Lookup, now: u64) -> (r: Action)
        requires
            old(self).wf(),
            old(self)@.cycle is None,
            lookup.wf(),
        ensures
            final(self).wf(),
            match fetch {
                Fetch::TimedOut => r == Action::Failed(CycleError::Timeout, false) && final(self)@ == old(self)@,
                Fetch::NoValues => r == Action::Failed(CycleError::Other(Failure::MissingValues), false)
                    && final(self)@ == old(self)@,
                Fetch::SourceFailed => {
                    &&& r == Action::Failed(CycleError::Source, alert_due(old(self)@.last_alert, now))
                    &&& final(self)@ == (MonitorView { last_alert: after_failure(old(self)@.last_alert, now), ..old(self)@ })
                },
                Fetch::Rows(s) => advanced(opened(old(self)@, snapshot_view(s@)), lookup@, r, final(self)@),
            },
    {
        match fetch {
            Fetch::TimedOut => Action::Failed(CycleError::Timeout, false),
            Fetch::NoValues => Action::Failed(CycleError::Other(Failure::MissingValues), false),
            Fetch::SourceFailed => {
                let alert = self.throttle.on_source_failure(now);
                Action::Failed(CycleError::Source, alert)
            },
            Fetch::Rows(rows) => {
                let changed = changed_rows(&self.snapshot, &rows);
                self.progress = Some(Progress { fetched: rows, changed, next: 0 });
                assert(self@ == opened(old(self)@, snapshot_view(rows@)));
                self.advance(lookup)
            },
        }
    }

    /// Handles the outcome of sending the last notification. A failed delivery
    /// ends the cycle at once, keeping the retained snapshot; a delivered one
    /// moves on to the next changed row.
    pub fn on_delivery(&mut self, delivered: bool, lookup: &Lookup) -> (r: Action)
        requires
            old(self).wf(),
            old(self)@.cycle is Some,
            lookup.wf(),
        ensures
            final(self).wf(),
            delivered ==> advanced(old(self)@, lookup@, r, final(self)@),
            !delivered ==> r == Action::Failed(CycleError::Other(Failure::NotifyFailure), false)
                && final(self)@ == (MonitorView { cycle: None, ..old(self)@ }),
    {
        if delivered {
            self.advance(lookup)
        } else {
            self.progress = None;
            Action::Failed(CycleError::Other(Failure::NotifyFailure), false)
        }
    }
}

/// Idempotence: when a fetch returns exactly the retained snapshot (as it
/// does on the cycle after one that finished, if the source has not changed),
/// the cycle sends no notification, finishes at once, and leaves the state
/// as it was.
pub proof fn lemma_repeat_cycle_sends_nothing(
    m: MonitorView,
    lookup: Map<Seq<char>, Seq<char>>,
    r: Action,
    post: MonitorView,
)
    requires
        m.cycle is None,
        advanced(opened(m, m.snapshot), lookup, r, post),
    ensures
        r is Done,
        post == m,
{
    lemma_unchanged_source_is_quiet(m.snapshot);
}

/// A cycle that finishes retains what it fetched: the next cycle compares
/// against that snapshot.
pub proof fn lemma_finished_cycle_retains_fetch(
    m: MonitorView,
    lookup: Map<Seq<char>, Seq<char>>,
    r: Action,
    post: MonitorView,
)
    requires
        m.cycle is Some,
        advanced(m, lookup, r, post),
        r is Done,
    ensures
        post.snapshot == m.cycle->Some_0.fetched,
        post.cycle is None,
{
}

} // verus!
