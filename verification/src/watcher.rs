//! The consumer side of the file watcher. The watcher itself runs apart
//! from the session and only puts signals into a channel; the signals carry
//! nothing, so all that the consumer can learn of the channel is how many
//! signals it drains from it. Here a burst of signals, as an editor makes
//! when it saves in several writes, becomes one report of a change.

use vstd::prelude::*;

verus! {

/// The quiet window, in milliseconds: how long the consumer sleeps after
/// the first signal of a burst before it reports the change.
pub const QUIET_WINDOW_MS: u64 = 300;

/// What happened to a file, as far as the dashboard tells events apart.
#[derive(Debug, Clone, Copy, PartialEq, Eq, Structural)]
pub enum FsEventKind {
    /// A file or a directory was created.
    Create,
    /// The content or the metadata of a file was changed.
    Modify,
    /// A file was given another name.
    Rename,
    /// A file or a directory was removed.
    Remove,
    /// A file was opened, read or closed.
    Access,
    /// Anything else.
    Other,
}

/// Whether an event of this kind is a reason to test again: that something
/// was created or modified is, that something was removed, renamed or only
/// read is not.
pub open spec fn triggers_retest(kind: FsEventKind) -> bool {
    kind == FsEventKind::Create || kind == FsEventKind::Modify
}

/// Whether the watcher is to signal an event of this kind.
pub fn is_retest_trigger(kind: FsEventKind) -> (r: bool)
    ensures
        r == triggers_retest(kind),
{
    match kind {
        FsEventKind::Create => true,
        FsEventKind::Modify => true,
        _ => false,
    }
}

/// Where the consumer stands.
#[derive(Debug, Clone, Copy, PartialEq, Eq, Structural)]
pub enum WatchPhase {
    /// No burst is being absorbed.
    Idle,
    /// The first signals of a burst have been drained and the quiet window
    /// is running.
    Settling,
}

/// What the consumer is to do after it has looked into the channel.
#[derive(Debug, Clone, Copy, PartialEq, Eq, Structural)]
pub enum WatchStep {
    /// Nothing: no signal was there.
    Nothing,
    /// Sleep for the quiet window, then drain the channel again and tell
    /// the debouncer.
    Sleep { millis: u64 },
    /// Report one change to the session.
    Changed,
}

/// The phase after the consumer has drained `drained` signals from the
/// channel.
pub open spec fn phase_after(phase: WatchPhase, drained: nat) -> WatchPhase {
    match phase {
        WatchPhase::Idle => if drained > 0 {
            WatchPhase::Settling
        } else {
            WatchPhase::Idle
        },
        WatchPhase::Settling => WatchPhase::Idle,
    }
}

/// What the consumer is to do after it has drained `drained` signals from
/// the channel: outside a burst, signals open the quiet window; at the end
/// of the window the change is reported, whatever has arrived meanwhile.
pub open spec fn step_after(phase: WatchPhase, drained: nat) -> WatchStep {
    match phase {
        WatchPhase::Idle => if drained > 0 {
            WatchStep::Sleep { millis: QUIET_WINDOW_MS }
        } else {
            WatchStep::Nothing
        },
        WatchPhase::Settling => WatchStep::Changed,
    }
}

/// The phase after the consumer has looked into the channel several times
/// and has drained `drains[0]`, then `drains[1]`, and so on.
pub open spec fn phase_after_all(phase: WatchPhase, drains: Seq<nat>) -> WatchPhase
    decreases drains.len(),
{
    if drains.len() == 0 {
        phase
    } else {
        phase_after(phase_after_all(phase, drains.drop_last()), drains.last())
    }
}

/// How many changes the consumer reports while it looks into the channel
/// several times and drains `drains[0]`, then `drains[1]`, and so on.
pub open spec fn reports(phase: WatchPhase, drains: Seq<nat>) -> nat
    decreases drains.len(),
{
    if drains.len() == 0 {
        0
    } else {
        let before = drains.drop_last();
        reports(phase, before) + if step_after(phase_after_all(phase, before), drains.last())
            == WatchStep::Changed {
            1nat
        } else {
            0nat
        }
    }
}

/// The consumer side of the watcher's channel.
pub struct Debouncer {
    phase: WatchPhase,
}

impl Debouncer {
    /// Where the consumer stands.
    pub closed spec fn phase(&self) -> WatchPhase {
        self.phase
    }

    /// A consumer that is not absorbing a burst.
    pub fn new() -> (d: Self)
        ensures
            d.phase() == WatchPhase::Idle,
    {
        Debouncer { phase: WatchPhase::Idle }
    }

    /// Whether the quiet window is running.
    pub fn settling(&self) -> (b: bool)
        ensures
            b == (self.phase() == WatchPhase::Settling),
    {
        self.phase == WatchPhase::Settling
    }

    /// Takes in that the caller has just drained `drained` signals from the
    /// channel, and says what the caller is to do.
    pub fn observe(&mut self, drained: usize) -> (step: WatchStep)
        ensures
            step == step_after(old(self).phase(), drained as nat),
            final(self).phase() == phase_after(old(self).phase(), drained as nat),
    {
        match self.phase {
            WatchPhase::Idle => {
                if drained > 0 {
                    self.phase = WatchPhase::Settling;
                    WatchStep::Sleep { millis: QUIET_WINDOW_MS }
                } else {
                    WatchStep::Nothing
                }
            },
            WatchPhase::Settling => {
                self.phase = WatchPhase::Idle;
                WatchStep::Changed
            },
        }
    }
}

/// A burst of signals gives one report. However many signals the consumer
/// finds when it first looks, as long as there is one, and however many
/// more arrive during the quiet window, the change is reported once, and
/// the consumer is ready for the next burst.
pub proof fn lemma_burst_reports_once(first: nat, during_window: nat)
    requires
        first >= 1,
    ensures
        reports(WatchPhase::Idle, seq![first, during_window]) == 1,
        phase_after_all(WatchPhase::Idle, seq![first, during_window]) == WatchPhase::Idle,
{
    let both = seq![first, during_window];
    let one = seq![first];
    assert(both.drop_last() == one);
    assert(reports(WatchPhase::Idle, one.drop_last()) == 0);
    assert(reports(WatchPhase::Idle, one) == 0);
}

/// Looking into an empty channel outside a burst reports nothing and
/// changes nothing.
pub proof fn lemma_quiet_channel_reports_nothing(looks: nat)
    ensures
        reports(WatchPhase::Idle, Seq::new(looks, |i: int| 0nat)) == 0,
        phase_after_all(WatchPhase::Idle, Seq::new(looks, |i: int| 0nat)) == WatchPhase::Idle,
    decreases looks,
{
    let all = Seq::new(looks, |i: int| 0nat);
    if looks > 0 {
        lemma_quiet_channel_reports_nothing((looks - 1) as nat);
        assert(all.drop_last() == Seq::new((looks - 1) as nat, |i: int| 0nat));
    }
}

} // verus!
