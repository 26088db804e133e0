//! The reminder ("nag") loop's protocol: the flags it shares with the
//! presence feed and the wake command, and the decision taken on each pass.

use vstd::prelude::*;

use std::sync::atomic::{AtomicBool, Ordering};
use std::sync::Arc;

verus! {

/// Seconds between two reminders, and between two checks while the user is
/// seen offline.
pub const COOLDOWN_SECS: u64 = 5;

/// What the reminder loop does on one pass.
#[derive(Clone, Copy, Debug, PartialEq, Eq, Structural)]
pub enum NagAction {
    /// The user acknowledged waking: the episode is over.
    Stop,
    /// Send one reminder, then wait one cooldown.
    Remind,
    /// The user is seen offline: send nothing, wait one cooldown, check again.
    ///
    /// The wait is a deliberate choice: checking again at once would spin for
    /// as long as the user stays offline. Leaving the episode still takes the
    /// acknowledgment, and only that.
    Pause,
}

/// The decision on one pass, from the two flags as last read.
pub open spec fn nag_decision(wake_acknowledged: bool, awake_detected: bool) -> NagAction {
    if wake_acknowledged {
        NagAction::Stop
    } else if awake_detected {
        NagAction::Remind
    } else {
        NagAction::Pause
    }
}

/// One pass of the reminder loop: stop once the user has acknowledged
/// waking, else remind while they are seen online, else pause.
pub fn nag_step(wake_acknowledged: bool, awake_detected: bool) -> (r: NagAction)
    ensures
        r == nag_decision(wake_acknowledged, awake_detected),
        r == NagAction::Stop <==> wake_acknowledged,
{
    if wake_acknowledged {
        NagAction::Stop
    } else if awake_detected {
        NagAction::Remind
    } else {
        NagAction::Pause
    }
}

/// An episode ends only by the acknowledgment: for every reading of the
/// presence flag, the loop stops exactly when the user has acknowledged
/// waking, and reminds exactly when they have not and are seen online.
pub proof fn lemma_only_acknowledgment_stops(wake_acknowledged: bool, awake_detected: bool)
    ensures
        (nag_decision(wake_acknowledged, awake_detected) == NagAction::Stop) == wake_acknowledged,
        (nag_decision(wake_acknowledged, awake_detected) == NagAction::Remind)
            == (!wake_acknowledged && awake_detected),
{
}

/// Relies on `Arc::clone`: a second handle to the same flag.
#[verifier::external_body]
fn share_flag(flag: &Arc<AtomicBool>) -> Arc<AtomicBool> {
    Arc::clone(flag)
}

/// A user's two runtime flags, shared between the presence feed, the wake
/// command and the reminder loop. Each is one atomic word, written and read
/// independently: another context may change it at any moment, so no read
/// is promised to return the last value written here.
pub struct RuntimeFlags {
    awake: Arc<AtomicBool>,
    wake_acknowledged: Arc<AtomicBool>,
}

impl RuntimeFlags {
    /// Both flags set: seen awake, and no episode waiting for an
    /// acknowledgment.
    pub fn new() -> RuntimeFlags {
        RuntimeFlags {
            awake: Arc::new(AtomicBool::new(true)),
            wake_acknowledged: Arc::new(AtomicBool::new(true)),
        }
    }

    /// Another handle to the same two flags, for the reminder loop.
    pub fn share(&self) -> RuntimeFlags {
        RuntimeFlags { awake: share_flag(&self.awake), wake_acknowledged: share_flag(&self.wake_acknowledged) }
    }

    /// The presence feed reports the user online.
    pub fn awake(&self) {
        self.awake.store(true, Ordering::Relaxed)
    }

    /// The presence feed reports the user offline.
    pub fn asleep(&self) {
        self.awake.store(false, Ordering::Relaxed)
    }

    /// The user acknowledges waking: the current episode ends.
    pub fn allow_awake(&self) {
        self.wake_acknowledged.store(true, Ordering::Relaxed)
    }

    /// A bedtime fired: a new episode waits for an acknowledgment.
    pub fn begin_episode(&self) {
        self.wake_acknowledged.store(false, Ordering::Relaxed)
    }

    /// Whether the user was last seen online.
    pub fn is_awake(&self) -> bool {
        self.awake.load(Ordering::Relaxed)
    }

    /// Whether the user has acknowledged waking since the last bedtime.
    pub fn is_wake_acknowledged(&self) -> bool {
        self.wake_acknowledged.load(Ordering::Relaxed)
    }

    /// One pass of the reminder loop on the flags as they read now.
    pub fn next_action(&self) -> (r: NagAction)
        ensures
            exists|acknowledged: bool, awake: bool| r == nag_decision(acknowledged, awake),
    {
        let acknowledged = self.is_wake_acknowledged();
        let awake = self.is_awake();
        nag_step(acknowledged, awake)
    }
}

} // verus!
