//! The save scheduler: a trailing-edge debounce of layout changes, with a
//! record of the snapshot written last so that nothing is written twice.

use vstd::prelude::*;
use crate::state::{LayoutModel, LayoutState};

verus! {

/// The quiet time, in seconds, after the last change before a save is due.
pub const SAVE_DELAY_SECS: u64 = 10;

/// What a [`SaveScheduler`] stands for in contracts: the deadline of the
/// one timer that may be pending, and the snapshot written last.
pub ghost struct SchedulerModel {
    pub pending: Option<u64>,
    pub last_saved: Option<LayoutModel>,
}

/// What the caller is to do with its timers after a change: cancel the one
/// that was pending, if any, and start one that fires at `deadline`.
#[derive(Clone, Copy, Debug, PartialEq, Eq, Structural)]
pub struct TimerCommand {
    pub cancelled: Option<u64>,
    pub deadline: u64,
}

/// What the scheduler decides when a timer fires.
#[derive(Debug, PartialEq, Eq)]
pub enum SaveDecision {
    /// No timer is due: the one that fired had been replaced.
    NotDue,
    /// The snapshot is the one written last: nothing is to be written.
    Skip,
    /// The snapshot is to be written.
    Write(LayoutState),
}

/// What a [`SaveDecision`] stands for in contracts.
pub ghost enum DecisionModel {
    NotDue,
    Skip,
    Write(LayoutModel),
}

impl View for SaveDecision {
    type V = DecisionModel;

    open spec fn view(&self) -> DecisionModel {
        match self {
            SaveDecision::NotDue => DecisionModel::NotDue,
            SaveDecision::Skip => DecisionModel::Skip,
            SaveDecision::Write(s) => DecisionModel::Write(s@),
        }
    }
}

/// The time at which a save is due after a change at `now`; it stops at the
/// largest time that there is.
pub open spec fn deadline_after(now: u64) -> u64 {
    if now > u64::MAX - SAVE_DELAY_SECS {
        u64::MAX
    } else {
        (now + SAVE_DELAY_SECS) as u64
    }
}

/// The scheduler after a change at `now`: the timer that was pending is
/// replaced by one for the new deadline.
pub open spec fn notify(m: SchedulerModel, now: u64) -> SchedulerModel {
    SchedulerModel { pending: Some(deadline_after(now)), ..m }
}

/// Whether a timer is pending whose deadline has come at `now`.
pub open spec fn due(m: SchedulerModel, now: u64) -> bool {
    m.pending.is_some() && m.pending.unwrap() <= now
}

/// What the scheduler decides at `now` with `snapshot` in hand.
pub open spec fn decision(m: SchedulerModel, now: u64, snapshot: LayoutModel) -> DecisionModel {
    if !due(m, now) {
        DecisionModel::NotDue
    } else if m.last_saved == Some(snapshot) {
        DecisionModel::Skip
    } else {
        DecisionModel::Write(snapshot)
    }
}

/// The scheduler after a timer fired at `now`: a timer that was due is gone.
pub open spec fn expired(m: SchedulerModel, now: u64) -> SchedulerModel {
    if due(m, now) {
        SchedulerModel { pending: None, ..m }
    } else {
        m
    }
}

/// The scheduler after `snapshot` was written.
pub open spec fn saved(m: SchedulerModel, snapshot: LayoutModel) -> SchedulerModel {
    SchedulerModel { last_saved: Some(snapshot), ..m }
}

/// What an optional snapshot stands for in contracts.
pub open spec fn layout_model(s: Option<LayoutState>) -> Option<LayoutModel> {
    match s {
        Some(state) => Some(state@),
        None => None,
    }
}

/// Debounces the saving of a layout.
#[derive(Debug)]
pub struct SaveScheduler {
    pending: Option<u64>,
    last_saved: Option<LayoutState>,
}

impl View for SaveScheduler {
    type V = SchedulerModel;

    closed spec fn view(&self) -> SchedulerModel {
        SchedulerModel { pending: self.pending, last_saved: layout_model(self.last_saved) }
    }
}

impl SaveScheduler {
    /// A scheduler with no timer pending and nothing written yet.
    pub fn new() -> (out: SaveScheduler)
        ensures
            out@ == (SchedulerModel { pending: None, last_saved: None }),
    {
        SaveScheduler { pending: None, last_saved: None }
    }

    /// The deadline of the pending timer, if one is pending.
    pub fn pending_deadline(&self) -> (out: Option<u64>)
        ensures
            out == self@.pending,
    {
        self.pending
    }

    /// The snapshot written last, if any was.
    pub fn last_saved(&self) -> (out: &Option<LayoutState>)
        ensures
            layout_model(*out) == self@.last_saved,
    {
        &self.last_saved
    }

    /// Takes note of a change of the layout at `now`. The timer that was
    /// pending is cancelled and one is started that fires after the delay.
    pub fn on_layout_changed(&mut self, now: u64) -> (out: TimerCommand)
        ensures
            final(self)@ == notify(old(self)@, now),
            out.cancelled == old(self)@.pending,
            out.deadline == deadline_after(now),
    {
        let cancelled = self.pending;
        let deadline: u64 = now.saturating_add(SAVE_DELAY_SECS);
        self.pending = Some(deadline);
        TimerCommand { cancelled, deadline }
    }

    /// Whether a timer is pending whose deadline has come at `now`.
    pub fn is_due(&self, now: u64) -> (out: bool)
        ensures
            out == due(self@, now),
    {
        match self.pending {
            Some(deadline) => deadline <= now,
            None => false,
        }
    }

    /// Decides what to do when a timer fires at `now`, with the current
    /// `snapshot` of the layout in hand: nothing if no timer is due;
    /// nothing either if the snapshot is the one written last; else the
    /// snapshot is handed back to be written.
    pub fn on_timer_expired(&mut self, now: u64, snapshot: LayoutState) -> (out: SaveDecision)
        ensures
            out@ == decision(old(self)@, now, snapshot@),
            final(self)@ == expired(old(self)@, now),
    {
        if !self.is_due(now) {
            return SaveDecision::NotDue;
        }
        self.pending = None;
        let unchanged = match &self.last_saved {
            Some(previous) => previous.same(&snapshot),
            None => false,
        };
        if unchanged {
            SaveDecision::Skip
        } else {
            SaveDecision::Write(snapshot)
        }
    }

    /// Records that `snapshot` was written.
    pub fn record_saved(&mut self, snapshot: LayoutState)
        ensures
            final(self)@ == saved(old(self)@, snapshot@),
    {
        self.last_saved = Some(snapshot);
    }

    /// The last save before the process ends: the pending timer is dropped
    /// and the snapshot is handed back to be written, whatever was written
    /// before.
    pub fn flush(&mut self, snapshot: LayoutState) -> (out: LayoutState)
        ensures
            out == snapshot,
            final(self)@ == (SchedulerModel { pending: None, ..old(self)@ }),
    {
        self.pending = None;
        snapshot
    }
}

/// What happens to a scheduler: the layout changed at a time, or a timer
/// fired at a time with the snapshot of that moment in hand.
pub ghost enum SchedulerEvent {
    Changed(u64),
    Fired(u64, LayoutModel),
}

/// The scheduler after one event; what is handed back to be written is
/// taken as written.
pub open spec fn step(m: SchedulerModel, e: SchedulerEvent) -> SchedulerModel {
    match e {
        SchedulerEvent::Changed(now) => notify(m, now),
        SchedulerEvent::Fired(now, snapshot) => match decision(m, now, snapshot) {
            DecisionModel::Write(s) => saved(expired(m, now), s),
            _ => expired(m, now),
        },
    }
}

/// The snapshots that one event has written.
pub open spec fn written_by(m: SchedulerModel, e: SchedulerEvent) -> Seq<LayoutModel> {
    match e {
        SchedulerEvent::Changed(_) => Seq::empty(),
        SchedulerEvent::Fired(now, snapshot) => match decision(m, now, snapshot) {
            DecisionModel::Write(s) => seq![s],
            _ => Seq::empty(),
        },
    }
}

/// The scheduler after `events`, in order.
pub open spec fn run(m: SchedulerModel, events: Seq<SchedulerEvent>) -> SchedulerModel
    decreases events.len(),
{
    if events.len() == 0 {
        m
    } else {
        step(run(m, events.drop_last()), events.last())
    }
}

/// The snapshots written in the course of `events`, in order.
pub open spec fn writes(m: SchedulerModel, events: Seq<SchedulerEvent>) -> Seq<LayoutModel>
    decreases events.len(),
{
    if events.len() == 0 {
        Seq::empty()
    } else {
        writes(m, events.drop_last()) + written_by(run(m, events.drop_last()), events.last())
    }
}

/// Whether `events` all fall in the window that opens at `start`: no
/// change comes before `start`, and every timer fires before the delay
/// after `start` is over.
pub open spec fn in_window(events: Seq<SchedulerEvent>, start: u64) -> bool {
    forall|i: int|
        0 <= i < events.len() ==> match #[trigger] events[i] {
            SchedulerEvent::Changed(now) => now >= start,
            SchedulerEvent::Fired(now, _) => now < deadline_after(start),
        }
}

/// Within the window nothing is written, whatever fires and however many
/// changes there are, and the timer that is left is that of the last
/// change.
pub proof fn lemma_window_writes_nothing(
    m: SchedulerModel,
    events: Seq<SchedulerEvent>,
    start: u64,
)
    requires
        in_window(events, start),
        m.pending matches Some(d) ==> d >= deadline_after(start),
    ensures
        writes(m, events) == Seq::<LayoutModel>::empty(),
        run(m, events).last_saved == m.last_saved,
        run(m, events).pending matches Some(d) ==> d >= deadline_after(start),
        events.len() > 0 ==> (events.last() matches SchedulerEvent::Changed(now) ==> run(
            m,
            events,
        ).pending == Some(deadline_after(now))),
    decreases events.len(),
{
    if events.len() > 0 {
        let prior = events.drop_last();
        assert forall|i: int| 0 <= i < prior.len() implies match #[trigger] prior[i] {
            SchedulerEvent::Changed(now) => now >= start,
            SchedulerEvent::Fired(now, _) => now < deadline_after(start),
        } by {
            assert(prior[i] == events[i]);
        }
        lemma_window_writes_nothing(m, prior, start);
        let last = events[events.len() - 1];
        assert(last == events.last());
        assert(writes(m, prior) + Seq::<LayoutModel>::empty() =~= Seq::<LayoutModel>::empty());
    }
}

/// Any number of changes within the window give exactly one write: when
/// the timer of the last change fires, the snapshot of that moment is
/// written, if it differs from the one written last.
pub proof fn lemma_window_writes_once(
    m: SchedulerModel,
    events: Seq<SchedulerEvent>,
    start: u64,
    last_change: u64,
    now: u64,
    snapshot: LayoutModel,
)
    requires
        in_window(events, start),
        m.pending matches Some(d) ==> d >= deadline_after(start),
        events.len() > 0,
        events.last() == SchedulerEvent::Changed(last_change),
        now >= deadline_after(last_change),
        m.last_saved != Some(snapshot),
    ensures
        writes(m, events.push(SchedulerEvent::Fired(now, snapshot))) == seq![snapshot],
        run(m, events.push(SchedulerEvent::Fired(now, snapshot))) == (SchedulerModel {
            pending: None,
            last_saved: Some(snapshot),
        }),
{
    lemma_window_writes_nothing(m, events, start);
    let all = events.push(SchedulerEvent::Fired(now, snapshot));
    assert(all.drop_last() =~= events);
    assert(Seq::<LayoutModel>::empty() + seq![snapshot] =~= seq![snapshot]);
}

/// A snapshot that was written is not written again: when the timer next
/// fires with the same snapshot, the decision is to skip.
pub proof fn lemma_unchanged_snapshot_is_skipped(
    m: SchedulerModel,
    snapshot: LayoutModel,
    changed_at: u64,
    now: u64,
)
    requires
        now >= deadline_after(changed_at),
    ensures
        decision(notify(saved(m, snapshot), changed_at), now, snapshot) == DecisionModel::Skip,
        expired(notify(saved(m, snapshot), changed_at), now).last_saved == Some(snapshot),
{
}

/// Two firings with the same snapshot write it once: after a change the
/// snapshot is written, and when the timer of a later change fires with the
/// snapshot unchanged, nothing is written.
pub proof fn lemma_unchanged_snapshot_written_once(
    m: SchedulerModel,
    first_change: u64,
    first_fire: u64,
    second_change: u64,
    second_fire: u64,
    snapshot: LayoutModel,
)
    requires
        first_fire >= deadline_after(first_change),
        second_fire >= deadline_after(second_change),
        m.last_saved != Some(snapshot),
    ensures
        writes(
            m,
            seq![
                SchedulerEvent::Changed(first_change),
                SchedulerEvent::Fired(first_fire, snapshot),
                SchedulerEvent::Changed(second_change),
                SchedulerEvent::Fired(second_fire, snapshot),
            ],
        ) == seq![snapshot],
{
    let e0 = SchedulerEvent::Changed(first_change);
    let e1 = SchedulerEvent::Fired(first_fire, snapshot);
    let e2 = SchedulerEvent::Changed(second_change);
    let e3 = SchedulerEvent::Fired(second_fire, snapshot);
    let t0 = Seq::<SchedulerEvent>::empty();
    let t1 = seq![e0];
    let t2 = seq![e0, e1];
    let t3 = seq![e0, e1, e2];
    let t4 = seq![e0, e1, e2, e3];
    assert(t1.drop_last() =~= t0);
    assert(t2.drop_last() =~= t1);
    assert(t3.drop_last() =~= t2);
    assert(t4.drop_last() =~= t3);
    assert(run(m, t0) == m);
    assert(run(m, t1) == step(m, e0));
    assert(run(m, t2) == step(run(m, t1), e1));
    assert(run(m, t3) == step(run(m, t2), e2));
    assert(writes(m, t0) == Seq::<LayoutModel>::empty());
    assert(writes(m, t1) =~= Seq::<LayoutModel>::empty());
    assert(writes(m, t2) =~= seq![snapshot]);
    assert(writes(m, t3) =~= seq![snapshot]);
    assert(writes(m, t4) =~= seq![snapshot]);
}

} // verus!
