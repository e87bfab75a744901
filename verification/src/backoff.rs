//! Reconnection / rate-limit backoff controller shared by all outbound
//! retry loops.
//!
//! The controller is a pure state machine: `BackoffState` remembers the
//! class of the last failure and how often it repeated; `sleep_msecs`
//! maps that state to a delay. The async retry loop that actually sleeps
//! lives outside the library and drives this machine through `record`
//! and `reset`.

use vstd::prelude::*;

verus! {

/// Classification of a failed outbound call.
#[derive(Debug, Copy, Clone, Eq, PartialEq, Structural)]
pub enum BackoffType {
    Ratelimit,
    Server,
    Network,
}

/// Backoff state: idle, or the class of the last failure together with
/// how many times in a row it has been recorded.
#[derive(Debug, Copy, Clone, Eq, PartialEq, Structural)]
pub enum BackoffState {
    Idle,
    Ratelimit(u32),
    Server(u32),
    Network(u32),
}

/// Counter increment that never wraps: repeated failures saturate at
/// `u32::MAX` instead of overflowing.
pub open spec fn bump(n: u32) -> u32 {
    if n == u32::MAX {
        n
    } else {
        (n + 1) as u32
    }
}

impl BackoffState {
    /// Delay in whole minutes while rate-limited: 1, 1, 2, 4, 8 minutes,
    /// then capped at 10.
    pub open spec fn ratelimit_minutes(n: u32) -> int {
        if n <= 2 {
            1
        } else if n == 3 {
            2
        } else if n == 4 {
            4
        } else if n == 5 {
            8
        } else {
            10
        }
    }

    /// Delay in whole seconds after a server error: 1, 2, 4, 8, 16, 32
    /// seconds, then capped at 60.
    pub open spec fn server_seconds(n: u32) -> int {
        if n <= 1 {
            1
        } else if n == 2 {
            2
        } else if n == 3 {
            4
        } else if n == 4 {
            8
        } else if n == 5 {
            16
        } else if n == 6 {
            32
        } else {
            60
        }
    }

    /// Delay in milliseconds after a network error: 250 ms per repeat,
    /// capped at 32 s.
    pub open spec fn network_msecs(n: u32) -> int {
        if n < 128 {
            n * 250
        } else {
            32000
        }
    }

    /// The delay, in milliseconds, that the current state asks for.
    pub open spec fn spec_sleep_msecs(self) -> int {
        match self {
            BackoffState::Idle => 0,
            BackoffState::Ratelimit(n) => Self::ratelimit_minutes(n) * 60 * 1000,
            BackoffState::Server(n) => Self::server_seconds(n) * 1000,
            BackoffState::Network(n) => Self::network_msecs(n),
        }
    }

    /// The state after one more failure of class `class`: the counter of a
    /// matching class is incremented, any other state restarts the class at 1.
    pub open spec fn spec_record(self, class: BackoffType) -> BackoffState {
        match (self, class) {
            (BackoffState::Ratelimit(n), BackoffType::Ratelimit) => BackoffState::Ratelimit(
                bump(n),
            ),
            (_, BackoffType::Ratelimit) => BackoffState::Ratelimit(1),
            (BackoffState::Server(n), BackoffType::Server) => BackoffState::Server(bump(n)),
            (_, BackoffType::Server) => BackoffState::Server(1),
            (BackoffState::Network(n), BackoffType::Network) => BackoffState::Network(bump(n)),
            (_, BackoffType::Network) => BackoffState::Network(1),
        }
    }

    /// True when the state carries failures of class `class`.
    pub open spec fn in_class(self, class: BackoffType) -> bool {
        match (self, class) {
            (BackoffState::Ratelimit(_), BackoffType::Ratelimit) => true,
            (BackoffState::Server(_), BackoffType::Server) => true,
            (BackoffState::Network(_), BackoffType::Network) => true,
            _ => false,
        }
    }

    /// The delay that the very first failure of class `class` produces.
    pub open spec fn first_delay_msecs(class: BackoffType) -> int {
        match class {
            BackoffType::Ratelimit => 60 * 1000 as int,
            BackoffType::Server => 1000 as int,
            BackoffType::Network => 250 as int,
        }
    }

    /// How long to sleep before the next attempt, in milliseconds.
    pub fn sleep_msecs(&self) -> (r: u64)
        ensures
            r as int == self.spec_sleep_msecs(),
    {
        match *self {
            BackoffState::Idle => 0,
            BackoffState::Ratelimit(n) => {
                let mins: u64 = if n < 6 {
                    let shift: u32 = if n >= 2 {
                        n - 2
                    } else {
                        0
                    };
                    assert(1u64 << 0u32 == 1 && 1u64 << 1u32 == 2 && 1u64 << 2u32 == 4 && 1u64
                        << 3u32 == 8) by (bit_vector);
                    1u64 << shift
                } else {
                    10
                };
                mins * 60 * 1000
            },
            BackoffState::Network(n) => {
                if n < 128 {
                    (n as u64) * 250
                } else {
                    32000
                }
            },
            BackoffState::Server(n) => {
                let secs: u64 = if n < 7 {
                    let shift: u32 = if n >= 1 {
                        n - 1
                    } else {
                        0
                    };
                    assert(1u64 << 0u32 == 1 && 1u64 << 1u32 == 2 && 1u64 << 2u32 == 4 && 1u64
                        << 3u32 == 8 && 1u64 << 4u32 == 16 && 1u64 << 5u32 == 32) by (bit_vector);
                    1u64 << shift
                } else {
                    60
                };
                secs * 1000
            },
        }
    }

    /// Whether the next attempt must wait at all.
    pub fn should_backoff(&self) -> (r: bool)
        ensures
            r == !(self is Idle),
    {
        !matches!(self, BackoffState::Idle)
    }

    /// Record one rate-limit failure.
    pub fn add_ratelimit(&mut self)
        ensures
            *final(self) == old(self).spec_record(BackoffType::Ratelimit),
    {
        match self {
            BackoffState::Ratelimit(n) => {
                *n = n.saturating_add(1);
            },
            _ => {
                *self = BackoffState::Ratelimit(1);
            },
        }
    }

    /// Record one network failure.
    pub fn add_network(&mut self)
        ensures
            *final(self) == old(self).spec_record(BackoffType::Network),
    {
        match self {
            BackoffState::Network(n) => {
                *n = n.saturating_add(1);
            },
            _ => {
                *self = BackoffState::Network(1);
            },
        }
    }

    /// Record one server failure.
    pub fn add_server(&mut self)
        ensures
            *final(self) == old(self).spec_record(BackoffType::Server),
    {
        match self {
            BackoffState::Server(n) => {
                *n = n.saturating_add(1);
            },
            _ => {
                *self = BackoffState::Server(1);
            },
        }
    }

    /// Record one failure of the given class.
    pub fn record(&mut self, class: BackoffType)
        ensures
            *final(self) == old(self).spec_record(class),
    {
        match class {
            BackoffType::Ratelimit => self.add_ratelimit(),
            BackoffType::Server => self.add_server(),
            BackoffType::Network => self.add_network(),
        }
    }

    /// Forget all failures after a success.
    pub fn reset(&mut self)
        ensures
            *final(self) == BackoffState::Idle,
    {
        *self = BackoffState::Idle;
    }
}

/// The state after `k` failures of class `class` in a row, starting from `s`.
pub open spec fn spec_record_n(s: BackoffState, class: BackoffType, k: nat) -> BackoffState
    decreases k,
{
    if k == 0 {
        s
    } else {
        spec_record_n(s, class, (k - 1) as nat).spec_record(class)
    }
}

/// After at least one failure of a class, the state stays in that class.
proof fn lemma_record_stays_in_class(s: BackoffState, class: BackoffType, k: nat)
    requires
        k >= 1,
    ensures
        spec_record_n(s, class, k).in_class(class),
    decreases k,
{
    if k > 1 {
        lemma_record_stays_in_class(s, class, (k - 1) as nat);
    }
}

/// One more failure of the class a state is already in never shrinks the delay.
proof fn lemma_record_step_monotone(s: BackoffState, class: BackoffType)
    requires
        s.in_class(class),
    ensures
        s.spec_record(class).spec_sleep_msecs() >= s.spec_sleep_msecs(),
{
}

/// Backoff monotonicity: along any run of failures of one class with no
/// intervening success, the delay asked for is nondecreasing.
pub proof fn lemma_backoff_monotonic(s: BackoffState, class: BackoffType, i: nat, j: nat)
    requires
        1 <= i <= j,
    ensures
        spec_record_n(s, class, i).spec_sleep_msecs() <= spec_record_n(
            s,
            class,
            j,
        ).spec_sleep_msecs(),
    decreases j,
{
    if i < j {
        lemma_backoff_monotonic(s, class, i, (j - 1) as nat);
        lemma_record_stays_in_class(s, class, (j - 1) as nat);
        lemma_record_step_monotone(spec_record_n(s, class, (j - 1) as nat), class);
    }
}

/// Backoff reset: after a success has reset the controller, the next failure
/// of any class produces exactly that class's first-attempt delay, with no
/// history accumulated.
pub proof fn lemma_backoff_reset(class: BackoffType)
    ensures
        BackoffState::Idle.spec_record(class).spec_sleep_msecs() == BackoffState::first_delay_msecs(
            class,
        ),
{
}

} // verus!
