//! Delivery of snapshots as heartbeats: what to send, when to retry, when to
//! create the bucket again, and how loudly to report a failure.
//!
//! Nothing here talks to the telemetry service. Each function takes what the
//! last attempt gave and says what to do next; the caller makes the calls and
//! waits the delays.

use vstd::arithmetic::power2::{lemma_pow2_pos, lemma_pow2_unfold, pow2};
use vstd::prelude::*;
use vstd::string::*;

use crate::config::Config;
use crate::platform::MediaData;
use crate::text::{contains, str_contains};

verus! {

/// The name under which the watcher reports.
pub const BUCKET_NAME: &'static str = "aw-watcher-media-player";

/// The kind of the events in the bucket.
pub const BUCKET_TYPE: &'static str = "currently-playing";

/// The text by which a refused local connection is known.
pub const TCP_ERROR: &'static str = "tcp connect error: Connection refused";

/// How many times the creation of the bucket is tried again.
pub const INIT_RETRIES: u32 = 3;

/// The seconds to wait before the creation of the bucket is tried again.
pub const INIT_RETRY_DELAY_SECONDS: u64 = 1;

/// The milliseconds to wait before a failed heartbeat is sent once more.
pub const SEND_RETRY_DELAY_MILLIS: u64 = 500;

/// The seconds by which a heartbeat outlasts the poll interval.
pub const PULSE_MARGIN_SECONDS: u64 = 1;

/// The failure count at whose multiples the bucket is created again.
pub const REINIT_PERIOD: u32 = 5;

/// The name of the bucket of the host `hostname`.
pub open spec fn bucket_name_of(hostname: Seq<char>) -> Seq<char> {
    BUCKET_NAME@ + "_"@ + hostname
}

/// The name of the bucket of the host `hostname`.
pub fn bucket_name(hostname: &str) -> (name: String)
    ensures
        name@ == bucket_name_of(hostname@),
{
    let mut name = BUCKET_NAME.to_owned();
    name.append("_");
    name.append(hostname);
    name
}

/// The message that reports that the bucket could not be created.
pub fn init_failure_message(bucket: &str) -> (message: String)
    ensures
        message@ == "Failed to create bucket "@ + bucket@,
{
    let mut message = "Failed to create bucket ".to_owned();
    message.append(bucket);
    message
}

/// The seconds for which a heartbeat stays open to the next one: the poll
/// interval and a margin, so that two heartbeats in a row overlap.
pub fn pulse_window(poll_interval: u64) -> (seconds: u128)
    ensures
        seconds == poll_interval + PULSE_MARGIN_SECONDS,
{
    poll_interval as u128 + PULSE_MARGIN_SECONDS as u128
}

/// What to do after an attempt to create the bucket.
#[derive(Debug, Clone, Copy, PartialEq, Eq, Structural)]
pub enum InitStep {
    /// The bucket exists.
    Done,
    /// Wait, then try again.
    Retry,
    /// Give up and report the error.
    Fail,
}

/// Whether an error looks like the service not being up yet.
pub open spec fn is_connection_refused(error: Seq<char>) -> bool {
    contains(error, TCP_ERROR@)
}

/// What follows an attempt to create the bucket, after `retries` retries:
/// success ends it; a refused connection is tried again while fewer than
/// [`INIT_RETRIES`] retries were made; any other error, or a refused
/// connection after the last retry, is given up on.
pub open spec fn init_step(retries: u32, outcome: Result<(), Seq<char>>) -> InitStep {
    match outcome {
        Ok(()) => InitStep::Done,
        Err(error) => if retries < INIT_RETRIES && is_connection_refused(error) {
            InitStep::Retry
        } else {
            InitStep::Fail
        },
    }
}

/// The view of the outcome of an attempt.
pub open spec fn outcome_view(outcome: Result<(), String>) -> Result<(), Seq<char>> {
    match outcome {
        Ok(()) => Ok(()),
        Err(error) => Err(error@),
    }
}

/// Decides what follows an attempt to create the bucket.
pub fn next_init_step(retries: u32, outcome: &Result<(), String>) -> (step: InitStep)
    ensures
        step == init_step(retries, outcome_view(*outcome)),
{
    match outcome {
        Ok(()) => InitStep::Done,
        Err(error) => {
            if retries < INIT_RETRIES && str_contains(error.as_str(), TCP_ERROR) {
                InitStep::Retry
            } else {
                InitStep::Fail
            }
        },
    }
}

/// What to do after an attempt to send a heartbeat.
#[derive(Debug, Clone, Copy, PartialEq, Eq, Structural)]
pub enum SendStep {
    /// The heartbeat was delivered.
    Delivered,
    /// Wait, then send once more.
    Retry,
    /// The send has failed.
    Failed,
}

/// What follows an attempt to send: a failed first attempt is retried once.
pub open spec fn send_step(retried: bool, delivered: bool) -> SendStep {
    if delivered {
        SendStep::Delivered
    } else if retried {
        SendStep::Failed
    } else {
        SendStep::Retry
    }
}

/// Decides what follows an attempt to send a heartbeat.
pub fn next_send_step(retried: bool, delivered: bool) -> (step: SendStep)
    ensures
        step == send_step(retried, delivered),
{
    if delivered {
        SendStep::Delivered
    } else if retried {
        SendStep::Failed
    } else {
        SendStep::Retry
    }
}

/// Whether `n` is a power of two.
pub open spec fn is_power_of_two(n: int) -> bool {
    exists|e: nat| n == #[trigger] pow2(e)
}

spec fn halves_to_one(n: int) -> bool
    decreases n,
{
    n == 1 || (n > 1 && n % 2 == 0 && halves_to_one(n / 2))
}

proof fn lemma_halving_finds_power(n: int)
    requires
        halves_to_one(n),
    ensures
        is_power_of_two(n),
    decreases n,
{
    if n == 1 {
        vstd::arithmetic::power2::lemma2_to64();
        assert(n == pow2(0));
    } else {
        lemma_halving_finds_power(n / 2);
        let e = choose|e: nat| n / 2 == #[trigger] pow2(e);
        lemma_pow2_unfold(e + 1);
        assert(n == pow2(e + 1));
    }
}

proof fn lemma_power_halves(e: nat)
    ensures
        halves_to_one(pow2(e) as int),
    decreases e,
{
    if e == 0 {
        vstd::arithmetic::power2::lemma2_to64();
    } else {
        lemma_pow2_unfold(e);
        lemma_pow2_pos((e - 1) as nat);
        lemma_power_halves((e - 1) as nat);
        assert(pow2(e) / 2 == pow2((e - 1) as nat));
    }
}

fn halves(n: u32) -> (out: bool)
    ensures
        out == halves_to_one(n as int),
{
    let mut m: u32 = n;
    while m > 1 && m % 2 == 0
        invariant
            halves_to_one(n as int) == halves_to_one(m as int),
        decreases m,
    {
        m = m / 2;
    }
    m == 1
}

/// Tells whether a failure is worth a warning: the first is, and after it
/// each one whose count is a power of two.
pub fn should_warn(failures: u32) -> (warn: bool)
    ensures
        warn == (failures == 1 || is_power_of_two(failures as int)),
{
    let out = halves(failures);
    proof {
        if out {
            lemma_halving_finds_power(failures as int);
        }
        if is_power_of_two(failures as int) {
            let e = choose|e: nat| failures as int == #[trigger] pow2(e);
            lemma_power_halves(e);
        }
    }
    out
}

/// Tells whether the bucket is to be created again after a failure: after
/// the first, and whenever the count is a multiple of [`REINIT_PERIOD`].
pub fn should_attempt_reinit(failures: u32) -> (attempt: bool)
    ensures
        attempt == (failures == 1 || failures % REINIT_PERIOD == 0),
{
    failures == 1 || failures % REINIT_PERIOD == 0
}

/// How loudly a failure is reported.
#[derive(Debug, Clone, Copy, PartialEq, Eq, Structural)]
pub enum Severity {
    Warning,
    Debug,
}

/// The counters of the poll loop.
#[derive(Debug, Clone, Copy, PartialEq, Eq, Structural)]
pub struct DeliveryState {
    /// The sends that failed since the last success.
    pub consecutive_send_failures: u32,
}

/// What the poll loop does after a failed send.
#[derive(Debug, Clone, Copy, PartialEq, Eq, Structural)]
pub struct FailureReaction {
    /// How loudly the failure is reported.
    pub severity: Severity,
    /// Whether the bucket is to be created again.
    pub reinit: bool,
}

impl DeliveryState {
    /// The state before any send.
    pub fn new() -> (state: DeliveryState)
        ensures
            state.consecutive_send_failures == 0,
    {
        DeliveryState { consecutive_send_failures: 0 }
    }

    /// Records a delivered heartbeat and tells whether this ends a run of
    /// failures.
    pub fn record_success(&mut self) -> (recovered: bool)
        ensures
            final(self).consecutive_send_failures == 0,
            recovered == (old(self).consecutive_send_failures != 0),
    {
        let recovered = self.consecutive_send_failures != 0;
        self.consecutive_send_failures = 0;
        recovered
    }

    /// Records a failed send and says how to react. The count stops at the
    /// largest number it can hold.
    pub fn record_failure(&mut self) -> (reaction: FailureReaction)
        ensures
            final(self).consecutive_send_failures == (if old(self).consecutive_send_failures
                == u32::MAX {
                u32::MAX
            } else {
                (old(self).consecutive_send_failures + 1) as u32
            }),
            reaction.severity == (if final(self).consecutive_send_failures == 1
                || is_power_of_two(final(self).consecutive_send_failures as int) {
                Severity::Warning
            } else {
                Severity::Debug
            }),
            reaction.reinit == (final(self).consecutive_send_failures == 1
                || final(self).consecutive_send_failures % REINIT_PERIOD == 0),
    {
        self.consecutive_send_failures = self.consecutive_send_failures.saturating_add(1);
        let severity = if should_warn(self.consecutive_send_failures) {
            Severity::Warning
        } else {
            Severity::Debug
        };
        FailureReaction { severity, reinit: should_attempt_reinit(self.consecutive_send_failures) }
    }

    /// Records an attempt to create the bucket again: success clears the
    /// count, failure leaves it.
    pub fn record_reinit(&mut self, created: bool)
        ensures
            final(self).consecutive_send_failures == (if created {
                0
            } else {
                old(self).consecutive_send_failures
            }),
    {
        if created {
            self.consecutive_send_failures = 0;
        }
    }
}

/// What a tick of the poll loop does with what was acquired.
#[derive(Debug, Clone, Copy, PartialEq, Eq, Structural)]
pub enum TickAction {
    /// Nothing is playing.
    Idle,
    /// The player is filtered out.
    Skip,
    /// The snapshot is to be sent.
    Send,
}

/// Decides what a tick does: nothing without a snapshot; a snapshot is sent
/// unless the filters of `config` leave its player out.
pub fn tick_action(config: &Config, snapshot: &Option<MediaData>) -> (action: TickAction)
    ensures
        action == (match snapshot {
            None => TickAction::Idle,
            Some(data) => if config.reports(data.player@) {
                TickAction::Send
            } else {
                TickAction::Skip
            },
        }),
{
    match snapshot {
        None => TickAction::Idle,
        Some(data) => {
            if config.report_player(data.player.as_str()) {
                TickAction::Send
            } else {
                TickAction::Skip
            }
        },
    }
}

} // verus!
