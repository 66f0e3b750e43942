//! The single-slot mailbox between the file watcher and the reload timer.
use vstd::prelude::*;

verus! {

/// How long the watcher pauses after a change before it drains more events.
pub const DEBOUNCE_MILLIS: u64 = 100;

/// How often the reload timer polls the change flag.
pub const POLL_INTERVAL_MILLIS: u64 = 500;

/// The kind of a file-system notification, as far as reloading cares.
#[derive(Clone, Copy, Debug, PartialEq, Eq, Structural)]
pub enum WatchEventKind {
    Any,
    Access,
    Create,
    Modify,
    Remove,
    Other,
}

impl WatchEventKind {
    /// Only creations and modifications of the watched file call for a reload.
    pub open spec fn spec_triggers_reload(self) -> bool {
        self is Create || self is Modify
    }

    pub fn triggers_reload(&self) -> (r: bool)
        ensures
            r == self.spec_triggers_reload(),
    {
        match self {
            WatchEventKind::Create => true,
            WatchEventKind::Modify => true,
            _ => false,
        }
    }
}

/// The flag after one notification of the given kind.
pub open spec fn flag_after(flag: bool, kind: WatchEventKind) -> bool {
    flag || kind.spec_triggers_reload()
}

/// The flag after a run of notifications, in order.
pub open spec fn flag_after_all(flag: bool, events: Seq<WatchEventKind>) -> bool
    decreases events.len(),
{
    if events.len() == 0 {
        flag
    } else {
        flag_after(flag_after_all(flag, events.drop_last()), events.last())
    }
}

/// What a poll returns, and the flag it leaves behind.
pub open spec fn polled(flag: bool) -> (bool, bool) {
    (flag, false)
}

/// Whether something changed since the consumer last looked.
pub struct ChangeFlag {
    changed: bool,
}

impl View for ChangeFlag {
    type V = bool;

    closed spec fn view(&self) -> bool {
        self.changed
    }
}

impl ChangeFlag {
    /// A flag with nothing to report.
    pub fn new() -> (r: ChangeFlag)
        ensures
            !r@,
    {
        ChangeFlag { changed: false }
    }

    /// Records one notification; returns whether it called for a reload,
    /// in which case the producer should pause before draining more.
    pub fn record(&mut self, kind: WatchEventKind) -> (triggered: bool)
        ensures
            triggered == kind.spec_triggers_reload(),
            final(self)@ == flag_after(old(self)@, kind),
    {
        let triggered = kind.triggers_reload();
        if triggered {
            self.changed = true;
        }
        triggered
    }

    /// Reads the flag and resets it: returns whether anything changed since
    /// the previous poll.
    pub fn poll_and_clear(&mut self) -> (r: bool)
        ensures
            (r, final(self)@) == polled(old(self)@),
    {
        let r = self.changed;
        self.changed = false;
        r
    }
}

proof fn lemma_trigger_sets_flag(flag: bool, events: Seq<WatchEventKind>, i: int)
    requires
        0 <= i < events.len(),
        events[i].spec_triggers_reload(),
    ensures
        flag_after_all(flag, events),
    decreases events.len(),
{
    if i < events.len() - 1 {
        lemma_trigger_sets_flag(flag, events.drop_last(), i);
    }
}

proof fn lemma_quiet_keeps_flag(flag: bool, events: Seq<WatchEventKind>)
    requires
        forall|i: int| 0 <= i < events.len() ==> !(#[trigger] events[i]).spec_triggers_reload(),
    ensures
        flag_after_all(flag, events) == flag,
    decreases events.len(),
{
    if events.len() > 0 {
        lemma_quiet_keeps_flag(flag, events.drop_last());
    }
}

/// A burst of notifications that holds at least one change, however many and
/// in whatever order, makes exactly one poll report a change: the first poll
/// after the burst returns `true` and the one right after it `false`.
pub proof fn law_burst_reported_once(start: bool, events: Seq<WatchEventKind>)
    requires
        exists|i: int| 0 <= i < events.len() && (#[trigger] events[i]).spec_triggers_reload(),
    ensures
        polled(flag_after_all(start, events)).0,
        !polled(polled(flag_after_all(start, events)).1).0,
{
    let i = choose|i: int| 0 <= i < events.len() && (#[trigger] events[i]).spec_triggers_reload();
    lemma_trigger_sets_flag(start, events, i);
}

/// A poll that follows another poll with no change in between returns
/// `false`, whatever other notifications came meanwhile.
pub proof fn law_quiet_poll_reports_nothing(start: bool, events: Seq<WatchEventKind>)
    requires
        forall|i: int| 0 <= i < events.len() ==> !(#[trigger] events[i]).spec_triggers_reload(),
    ensures
        !polled(flag_after_all(polled(start).1, events)).0,
{
    lemma_quiet_keeps_flag(polled(start).1, events);
}

/// No change is lost: a change recorded after a poll is reported by the next
/// poll, whatever notifications follow it.
pub proof fn law_change_not_lost(start: bool, kind: WatchEventKind, later: Seq<WatchEventKind>)
    requires
        kind.spec_triggers_reload(),
    ensures
        polled(flag_after_all(flag_after(polled(start).1, kind), later)).0,
{
    lemma_raised_flag_stays(later);
}

proof fn lemma_raised_flag_stays(events: Seq<WatchEventKind>)
    ensures
        flag_after_all(true, events),
    decreases events.len(),
{
    if events.len() > 0 {
        lemma_raised_flag_stays(events.drop_last());
    }
}

} // verus!
