//! The sharding controller: the main loop's decision logic.
//!
//! The controller starts with sharding disabled. Each loop iteration
//! hands it two observations — whether the one-time enable signal was
//! seen on its channel this iteration, and the current value of the
//! stop flag — and receives back what to do: possibly a steering
//! activation (exactly once per process lifetime), and whether to exit
//! the loop. Stats fetching and diffing happen unconditionally each
//! iteration and live in their own module.

use crate::codec::{KEY_LENGTH, KEY_OFFSET};
use vstd::prelude::*;

verus! {

#[derive(Clone, Copy, Debug, PartialEq, Eq, Structural)]
pub enum ShardingState {
    Disabled,
    Enabled,
}

/// The arguments of one steering activation: redistribute traffic from
/// the primary port over primary and shard targets, hashing the byte
/// range `[key_offset, key_offset + key_length)` of each payload.
#[derive(Debug, PartialEq, Eq)]
pub struct ShardPlan {
    pub primary: u16,
    pub others: Vec<u16>,
    pub key_offset: usize,
    pub key_length: usize,
}

/// What one loop iteration decided.
pub struct StepOutcome {
    /// `Some(plan)` exactly when the external activation primitive is
    /// to be invoked now.
    pub activate: Option<ShardPlan>,
    /// True exactly when the loop is to exit (clean, interrupt-driven
    /// stop).
    pub exit: bool,
}

/// The state transition of one iteration: sharding becomes enabled as
/// soon as an enable signal is observed, and never reverses.
pub open spec fn spec_ctl_step(state: ShardingState, enable_seen: bool) -> (ShardingState, bool) {
    match state {
        ShardingState::Disabled => if enable_seen {
            (ShardingState::Enabled, true)
        } else {
            (ShardingState::Disabled, false)
        },
        ShardingState::Enabled => (ShardingState::Enabled, false),
    }
}

/// The controller state after a sequence of iterations, each observing
/// the given enable signal, starting from `Disabled`.
pub open spec fn spec_ctl_run(signals: Seq<bool>) -> ShardingState
    decreases signals.len(),
{
    if signals.len() == 0 {
        ShardingState::Disabled
    } else {
        spec_ctl_step(spec_ctl_run(signals.drop_last()), signals.last()).0
    }
}

/// How many times the activation primitive is invoked over a sequence
/// of iterations starting from `Disabled`.
pub open spec fn spec_activation_count(signals: Seq<bool>) -> nat
    decreases signals.len(),
{
    if signals.len() == 0 {
        0
    } else {
        spec_activation_count(signals.drop_last()) + if spec_ctl_step(
            spec_ctl_run(signals.drop_last()),
            signals.last(),
        ).1 {
            1nat
        } else {
            0nat
        }
    }
}

pub struct ShardingController {
    pub state: ShardingState,
    pub primary: u16,
    pub others: Vec<u16>,
    pub activations: u64,
}

impl ShardingController {
    /// The controller's invariant: the activation primitive has been
    /// invoked at most once, and exactly once since sharding became
    /// enabled.
    pub open spec fn wf(self) -> bool {
        &&& self.activations <= 1
        &&& (self.state == ShardingState::Enabled <==> self.activations == 1)
    }

    /// A controller for the given port configuration: the primary port
    /// and the shard targets in configured order. Sharding starts
    /// disabled; nothing has been activated.
    pub fn new(primary: u16, others: Vec<u16>) -> (c: Self)
        ensures
            c.wf(),
            c.state == ShardingState::Disabled,
            c.primary == primary,
            c.others@ == others@,
            c.activations == 0,
    {
        ShardingController { state: ShardingState::Disabled, primary, others, activations: 0 }
    }

    /// One loop iteration. `enable_seen` says whether the one-time
    /// enable signal was present on its channel this iteration; `stop`
    /// is the current stop-flag value. An activation is requested
    /// exactly when the signal is seen while sharding is still
    /// disabled — a second enable signal is ignored because of the
    /// state guard, not because the primitive is idempotent. The stop
    /// flag is observed at every iteration boundary.
    pub fn step(&mut self, enable_seen: bool, stop: bool) -> (out: StepOutcome)
        requires
            old(self).wf(),
        ensures
            final(self).wf(),
            final(self).primary == old(self).primary,
            final(self).others@ == old(self).others@,
            out.exit == stop,
            (final(self).state, out.activate is Some) == spec_ctl_step(
                old(self).state,
                enable_seen,
            ),
            out.activate matches Some(plan) ==> {
                &&& plan.primary == old(self).primary
                &&& plan.others@ == old(self).others@
                &&& plan.key_offset == KEY_OFFSET
                &&& plan.key_length == KEY_LENGTH
            },
            final(self).activations == old(self).activations + if out.activate is Some {
                1int
            } else {
                0int
            },
            old(self).state == ShardingState::Enabled ==> final(self).state
                == ShardingState::Enabled,
    {
        let activate: Option<ShardPlan> = if enable_seen && matches!(self.state, ShardingState::Disabled) {
            self.state = ShardingState::Enabled;
            self.activations = self.activations + 1;
            Some(
                ShardPlan {
                    primary: self.primary,
                    others: self.others.clone(),
                    key_offset: KEY_OFFSET,
                    key_length: KEY_LENGTH,
                },
            )
        } else {
            None
        };
        StepOutcome { activate, exit: stop }
    }
}

/// Law: over any sequence of iterations the external activation
/// primitive is invoked at most once, however many enable signals are
/// observed; it is invoked exactly once when at least one signal is
/// observed, and never otherwise.
pub proof fn lemma_at_most_one_activation(signals: Seq<bool>)
    ensures
        spec_activation_count(signals) <= 1,
        spec_activation_count(signals) == 1 <==> (exists|i: int|
            0 <= i < signals.len() && signals[i]),
    decreases signals.len(),
{
    if signals.len() > 0 {
        lemma_at_most_one_activation(signals.drop_last());
        lemma_enabled_iff_signal_seen(signals.drop_last());
        if spec_activation_count(signals) == 1 {
            if spec_activation_count(signals.drop_last()) == 1 {
                let i = choose|i: int|
                    0 <= i < signals.len() - 1 && signals.drop_last()[i];
                assert(signals[i]);
            } else {
                assert(signals[signals.len() - 1]);
            }
        }
        if exists|i: int| 0 <= i < signals.len() && signals[i] {
            let i = choose|i: int| 0 <= i < signals.len() && signals[i];
            if i < signals.len() - 1 {
                assert(signals.drop_last()[i]);
            }
        }
    }
}

/// Law: sharding is enabled after a sequence of iterations exactly when
/// some iteration observed the enable signal; the `Disabled` →
/// `Enabled` transition never reverses.
pub proof fn lemma_enabled_iff_signal_seen(signals: Seq<bool>)
    ensures
        spec_ctl_run(signals) == ShardingState::Enabled <==> (exists|i: int|
            0 <= i < signals.len() && signals[i]),
    decreases signals.len(),
{
    if signals.len() > 0 {
        lemma_enabled_iff_signal_seen(signals.drop_last());
        if spec_ctl_run(signals) == ShardingState::Enabled {
            if spec_ctl_run(signals.drop_last()) == ShardingState::Enabled {
                let i = choose|i: int|
                    0 <= i < signals.len() - 1 && signals.drop_last()[i];
                assert(signals[i]);
            } else {
                assert(signals[signals.len() - 1]);
            }
        }
        if exists|i: int| 0 <= i < signals.len() && signals[i] {
            let i = choose|i: int| 0 <= i < signals.len() && signals[i];
            if i < signals.len() - 1 {
                assert(signals.drop_last()[i]);
            }
        }
    }
}

} // verus!
