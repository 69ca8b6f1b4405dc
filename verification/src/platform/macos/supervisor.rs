//! Keeping the media-control helper running: which commands to try, what to
//! make of each attempt, and how long to wait before the next round.
//!
//! No process is started here. The caller starts the helper, reads its
//! lines, sleeps, and reads the environment; it hands what it saw to these
//! functions and does what they answer.

use vstd::prelude::*;
use vstd::string::*;

use crate::decimal::{decimal_text, parse_u64, parsed_u64, to_decimal};
use crate::platform::macos::{
    apply_update, applied, cell_view, parse_stream_line, update_of_line, update_view, ParsedLine,
    ParsedLineView,
};
use crate::platform::MediaData;
use crate::text::{join, joined, str_equal, trim, trimmed};

verus! {

/// The environment variable that names the helper's executable.
pub const MEDIA_CONTROL_ENV_VAR: &'static str = "AW_WATCHER_MEDIA_CONTROL_PATH";

/// The environment variable that sets the helper's debounce time.
pub const MEDIA_CONTROL_DEBOUNCE_ENV_VAR: &'static str = "AW_WATCHER_MEDIA_CONTROL_DEBOUNCE_MS";

/// The debounce time, in milliseconds, used when none is set.
pub const DEFAULT_STREAM_DEBOUNCE_MS: u64 = 200;

/// The seconds to wait while the helper's executable is not found.
pub const MISSING_BINARY_RETRY_DELAY_SECONDS: u64 = 15;

/// The seconds to wait before the helper is started again.
pub const STREAM_RESTART_DELAY_SECONDS: u64 = 2;

/// The milliseconds after which a started helper counts as running.
pub const STREAM_STARTUP_GRACE_MILLIS: u64 = 250;

/// The places where the helper is looked for, in order.
pub open spec fn fallback_commands() -> Seq<Seq<char>> {
    seq!["/opt/homebrew/bin/media-control"@, "/usr/local/bin/media-control"@, "media-control"@]
}

/// The arguments of one way to start the helper's stream.
#[derive(Debug)]
pub struct StreamCommandProfile {
    pub args: Vec<String>,
}

impl StreamCommandProfile {
    /// A profile with these arguments.
    pub fn new(args: Vec<String>) -> (profile: StreamCommandProfile)
        ensures
            profile.args == args,
    {
        StreamCommandProfile { args }
    }

    /// The arguments as one text, a space between neighbours.
    pub fn display(&self) -> (text: String)
        ensures
            text@ == joined(self.args.deep_view(), " "@),
    {
        join(&self.args, " ")
    }
}

/// The argument that sets the debounce time.
pub open spec fn debounce_argument(debounce_ms: u64) -> Seq<char> {
    "--debounce="@ + decimal_text(debounce_ms as nat)
}

/// The arguments of the profiles, the richest first: the stream without
/// diffs and with a debounce time, then without diffs, then the plain
/// stream.
pub open spec fn profile_arguments(debounce_ms: u64) -> Seq<Seq<Seq<char>>> {
    seq![
        seq!["stream"@, "--no-diff"@, debounce_argument(debounce_ms)],
        seq!["stream"@, "--no-diff"@],
        seq!["stream"@],
    ]
}

/// The arguments of a list of profiles.
pub open spec fn arguments_of(profiles: Seq<StreamCommandProfile>) -> Seq<Seq<Seq<char>>> {
    Seq::new(profiles.len(), |i: int| profiles[i].args.deep_view())
}

/// The ways to start the helper's stream, in the order in which they are
/// tried.
pub fn stream_command_profiles(debounce_ms: u64) -> (profiles: Vec<StreamCommandProfile>)
    ensures
        arguments_of(profiles@) == profile_arguments(debounce_ms),
{
    let mut debounce = "--debounce=".to_owned();
    debounce.append(to_decimal(debounce_ms).as_str());
    let mut rich: Vec<String> = Vec::new();
    rich.push("stream".to_owned());
    rich.push("--no-diff".to_owned());
    rich.push(debounce);
    let mut plain: Vec<String> = Vec::new();
    plain.push("stream".to_owned());
    plain.push("--no-diff".to_owned());
    let mut bare: Vec<String> = Vec::new();
    bare.push("stream".to_owned());
    proof {
        assert(rich.deep_view() =~= profile_arguments(debounce_ms)[0]);
        assert(plain.deep_view() =~= profile_arguments(debounce_ms)[1]);
        assert(bare.deep_view() =~= profile_arguments(debounce_ms)[2]);
    }
    let mut profiles: Vec<StreamCommandProfile> = Vec::new();
    profiles.push(StreamCommandProfile::new(rich));
    profiles.push(StreamCommandProfile::new(plain));
    profiles.push(StreamCommandProfile::new(bare));
    proof {
        assert(arguments_of(profiles@) =~= profile_arguments(debounce_ms));
    }
    profiles
}

/// What the environment holds for the debounce time.
#[derive(Debug)]
pub enum DebounceSetting {
    /// The variable is not set.
    NotPresent,
    /// The variable holds no valid text.
    NotUnicode,
    /// The variable holds this text.
    Value(String),
}

/// The number that a debounce setting holds, if it holds one.
pub open spec fn setting_number(setting: DebounceSetting) -> Option<u64> {
    match setting {
        DebounceSetting::Value(raw) => parsed_u64(trimmed(raw@)),
        _ => None,
    }
}

/// The debounce time in milliseconds: the number that the setting holds,
/// with whitespace around it set aside, else the default.
pub fn stream_debounce_ms(setting: &DebounceSetting) -> (millis: u64)
    ensures
        millis == (match setting_number(*setting) {
            Some(number) => number,
            None => DEFAULT_STREAM_DEBOUNCE_MS,
        }),
{
    match setting {
        DebounceSetting::Value(raw) => match parse_u64(trim(raw.as_str()).as_str()) {
            Some(number) => number,
            None => DEFAULT_STREAM_DEBOUNCE_MS,
        },
        _ => DEFAULT_STREAM_DEBOUNCE_MS,
    }
}

/// Tells whether a debounce setting deserves a warning: one that is set and
/// holds no number does.
pub fn debounce_setting_is_invalid(setting: &DebounceSetting) -> (invalid: bool)
    ensures
        invalid == (!(setting is NotPresent) && setting_number(*setting) is None),
{
    match setting {
        DebounceSetting::NotPresent => false,
        DebounceSetting::NotUnicode => true,
        DebounceSetting::Value(raw) => parse_u64(trim(raw.as_str()).as_str()).is_none(),
    }
}

/// `list` without the items that occurred before, the others in their order.
pub open spec fn without_repeats(list: Seq<Seq<char>>) -> Seq<Seq<char>>
    decreases list.len(),
{
    if list.len() == 0 {
        Seq::empty()
    } else if without_repeats(list.drop_last()).contains(list.last()) {
        without_repeats(list.drop_last())
    } else {
        without_repeats(list.drop_last()).push(list.last())
    }
}

/// The places to look for the helper before any repeat is left out: the
/// explicit path, if one is given and not empty, then the fallbacks.
pub open spec fn candidate_list(explicit: Option<Seq<char>>) -> Seq<Seq<char>> {
    match explicit {
        Some(path) if path.len() > 0 => seq![path] + fallback_commands(),
        _ => fallback_commands(),
    }
}

fn list_contains(list: &Vec<String>, item: &str) -> (found: bool)
    ensures
        found == list.deep_view().contains(item@),
{
    let mut i: usize = 0;
    while i < list.len()
        invariant
            i <= list.len(),
            forall|k: int| 0 <= k < i ==> list.deep_view()[k] != item@,
        decreases list.len() - i,
    {
        proof {
            assert(list.deep_view()[i as int] == list@[i as int]@);
        }
        if str_equal(list[i].as_str(), item) {
            return true;
        }
        i += 1;
    }
    false
}

fn push_unless_present(out: &mut Vec<String>, item: &str, Ghost(seen): Ghost<Seq<Seq<char>>>)
    requires
        old(out).deep_view() == without_repeats(seen),
    ensures
        final(out).deep_view() == without_repeats(seen.push(item@)),
{
    proof {
        assert(seen.push(item@).drop_last() =~= seen);
    }
    if !list_contains(out, item) {
        let ghost before = out.deep_view();
        out.push(item.to_owned());
        proof {
            assert(out.deep_view() =~= before.push(item@));
        }
    }
}

/// The places to look for the helper, in order, none of them twice.
pub fn media_control_candidates(explicit: Option<String>) -> (candidates: Vec<String>)
    ensures
        candidates.deep_view() == without_repeats(candidate_list(explicit.deep_view())),
{
    let mut out: Vec<String> = Vec::new();
    let ghost mut seen: Seq<Seq<char>> = Seq::empty();
    proof {
        assert(out.deep_view() =~= without_repeats(seen));
    }
    match &explicit {
        Some(path) => {
            if !path.as_str().is_empty() {
                push_unless_present(&mut out, path.as_str(), Ghost(seen));
                proof {
                    seen = seen.push(path@);
                }
            }
        },
        None => {},
    }
    push_unless_present(&mut out, "/opt/homebrew/bin/media-control", Ghost(seen));
    proof {
        seen = seen.push("/opt/homebrew/bin/media-control"@);
    }
    push_unless_present(&mut out, "/usr/local/bin/media-control", Ghost(seen));
    proof {
        seen = seen.push("/usr/local/bin/media-control"@);
    }
    push_unless_present(&mut out, "media-control", Ghost(seen));
    proof {
        seen = seen.push("media-control"@);
        assert(seen =~= candidate_list(explicit.deep_view()));
    }
    out
}

/// What one attempt to start the helper came to.
#[derive(Debug)]
pub enum AttemptOutcome {
    /// The helper runs.
    Started,
    /// The helper ended within the grace time, with this status.
    ExitedEarly(String),
    /// Whether the helper runs could not be told, for this reason.
    CheckFailed(String),
    /// There is no such executable.
    NotFound,
    /// The helper could not be started, for this reason.
    SpawnFailed(String),
}

/// The view of the outcome of an attempt.
pub enum AttemptOutcomeView {
    Started,
    ExitedEarly(Seq<char>),
    CheckFailed(Seq<char>),
    NotFound,
    SpawnFailed(Seq<char>),
}

impl View for AttemptOutcome {
    type V = AttemptOutcomeView;

    open spec fn view(&self) -> AttemptOutcomeView {
        match self {
            AttemptOutcome::Started => AttemptOutcomeView::Started,
            AttemptOutcome::ExitedEarly(status) => AttemptOutcomeView::ExitedEarly(status@),
            AttemptOutcome::CheckFailed(error) => AttemptOutcomeView::CheckFailed(error@),
            AttemptOutcome::NotFound => AttemptOutcomeView::NotFound,
            AttemptOutcome::SpawnFailed(error) => AttemptOutcomeView::SpawnFailed(error@),
        }
    }
}

/// Why the helper could not be started.
#[derive(Debug)]
pub enum SpawnFailure {
    /// No executable was found, and nothing else went wrong.
    NotFound,
    /// What went wrong.
    Other(String),
}

/// The view of a failure to start the helper.
pub enum SpawnFailureView {
    NotFound,
    Other(Seq<char>),
}

impl View for SpawnFailure {
    type V = SpawnFailureView;

    open spec fn view(&self) -> SpawnFailureView {
        match self {
            SpawnFailure::NotFound => SpawnFailureView::NotFound,
            SpawnFailure::Other(message) => SpawnFailureView::Other(message@),
        }
    }
}

/// The command as it is named in messages: the executable, a space, and the
/// arguments.
pub open spec fn command_text(candidate: Seq<char>, arguments: Seq<char>) -> Seq<char> {
    candidate + " "@ + arguments
}

/// The error that an attempt leaves behind, if it leaves one.
pub open spec fn attempt_error(
    candidate: Seq<char>,
    arguments: Seq<char>,
    outcome: AttemptOutcomeView,
) -> Option<Seq<char>> {
    match outcome {
        AttemptOutcomeView::ExitedEarly(status) => Some(
            command_text(candidate, arguments) + " exited before startup with status "@ + status,
        ),
        AttemptOutcomeView::CheckFailed(error) => Some(
            command_text(candidate, arguments) + " failed during startup check ("@ + error + ")"@,
        ),
        AttemptOutcomeView::SpawnFailed(error) => Some(
            command_text(candidate, arguments) + " ("@ + error + ")"@,
        ),
        _ => None,
    }
}

/// The name of a command for messages.
pub fn command_name(candidate: &str, arguments: &str) -> (name: String)
    ensures
        name@ == command_text(candidate@, arguments@),
{
    let mut name = candidate.to_owned();
    name.append(" ");
    name.append(arguments);
    name
}

/// The attempt that stands at place `step` of a round: every profile with
/// the first candidate, in the order of the profiles, then every profile
/// with the second candidate, and so on. It is given as the place of the
/// candidate and the place of the profile; behind the last attempt there
/// is none.
pub open spec fn attempt_at(candidates: nat, profiles: nat, step: nat) -> Option<(nat, nat)> {
    if profiles > 0 && step / profiles < candidates {
        Some((step / profiles, step % profiles))
    } else {
        None
    }
}

/// A round has as many attempts as there are pairs of a candidate and a
/// profile.
pub proof fn lemma_round_has_every_pair(candidates: nat, profiles: nat, step: nat)
    ensures
        attempt_at(candidates, profiles, step) is Some <==> step < candidates * profiles,
{
    if profiles > 0 {
        assert(step / profiles < candidates <==> step < candidates * profiles)
            by (nonlinear_arith)
            requires
                profiles > 0,
        ;
    } else {
        assert(candidates * profiles == 0) by (nonlinear_arith)
            requires
                profiles == 0,
        ;
    }
}

/// The attempts of a round follow each other with the profiles running
/// inside the candidates: after an attempt comes the next profile with the
/// same candidate, and after the last profile the first profile with the
/// next candidate.
pub proof fn lemma_attempts_are_in_order(candidates: nat, profiles: nat, step: nat)
    requires
        attempt_at(candidates, profiles, step) is Some,
    ensures
        attempt_at(candidates, profiles, 0) == Some((0nat, 0nat)),
        ({
            let (candidate, profile) = attempt_at(candidates, profiles, step).unwrap();
            &&& candidate < candidates
            &&& profile < profiles
            &&& attempt_at(candidates, profiles, step + 1) == (if profile + 1 < profiles {
                Some((candidate, (profile + 1) as nat))
            } else if candidate + 1 < candidates {
                Some(((candidate + 1) as nat, 0nat))
            } else {
                None
            })
        }),
{
    let c = step / profiles;
    let r = step % profiles;
    assert(step == c * profiles + r && 0 <= r < profiles) by (nonlinear_arith)
        requires
            profiles > 0,
            c == step / profiles,
            r == step % profiles,
    ;
    assert(0nat / profiles == 0 && 0nat % profiles == 0) by (nonlinear_arith)
        requires
            profiles > 0,
    ;
    if r + 1 < profiles {
        assert((step + 1) / profiles == c && (step + 1) % profiles == r + 1) by (nonlinear_arith)
            requires
                profiles > 0,
                step == c * profiles + r,
                0 <= r,
                r + 1 < profiles,
        ;
    } else {
        assert((step + 1) / profiles == c + 1 && (step + 1) % profiles == 0) by (nonlinear_arith)
            requires
                profiles > 0,
                step == c * profiles + r,
                r + 1 == profiles,
        ;
    }
}

/// What a round of attempts to start the helper has seen so far.
#[derive(Debug)]
pub struct SpawnScan {
    pub saw_not_found: bool,
    pub other_errors: Vec<String>,
    /// How many attempts were recorded.
    pub attempts: usize,
    /// Whether an attempt started the helper.
    pub started: bool,
}

/// The mathematical content of a [`SpawnScan`].
pub struct SpawnScanView {
    pub saw_not_found: bool,
    pub other_errors: Seq<Seq<char>>,
    pub attempts: nat,
    pub started: bool,
}

impl View for SpawnScan {
    type V = SpawnScanView;

    open spec fn view(&self) -> SpawnScanView {
        SpawnScanView {
            saw_not_found: self.saw_not_found,
            other_errors: self.other_errors.deep_view(),
            attempts: self.attempts as nat,
            started: self.started,
        }
    }
}

impl SpawnScanView {
    /// The scan after one more attempt.
    pub open spec fn recorded(
        self,
        candidate: Seq<char>,
        arguments: Seq<char>,
        outcome: AttemptOutcomeView,
    ) -> SpawnScanView {
        SpawnScanView {
            saw_not_found: self.saw_not_found || outcome is NotFound,
            other_errors: match attempt_error(candidate, arguments, outcome) {
                Some(error) => self.other_errors.push(error),
                None => self.other_errors,
            },
            attempts: if self.attempts >= usize::MAX {
                self.attempts
            } else {
                self.attempts + 1
            },
            started: self.started || outcome is Started,
        }
    }

    /// The attempt to make next in a round over this many candidates and
    /// profiles: the one at the place behind those recorded, and none once
    /// the helper runs.
    pub open spec fn next_attempt(self, candidates: nat, profiles: nat) -> Option<(nat, nat)> {
        if self.started {
            None
        } else {
            attempt_at(candidates, profiles, self.attempts)
        }
    }

    /// Why the round failed: the errors, if there were any; else that no
    /// executable was found, if one was missing; else that there was
    /// nothing to try.
    pub open spec fn failure(self) -> SpawnFailureView {
        if self.other_errors.len() > 0 {
            SpawnFailureView::Other(joined(self.other_errors, ", "@))
        } else if self.saw_not_found {
            SpawnFailureView::NotFound
        } else {
            SpawnFailureView::Other("No media-control command candidates available"@)
        }
    }
}

impl SpawnScan {
    /// A round in which nothing was tried yet.
    pub fn new() -> (scan: SpawnScan)
        ensures
            !scan@.saw_not_found,
            scan@.other_errors.len() == 0,
            scan@.attempts == 0,
            !scan@.started,
    {
        SpawnScan { saw_not_found: false, other_errors: Vec::new(), attempts: 0, started: false }
    }

    /// Tells which candidate to try next and with which profile, by their
    /// places in lists of these lengths, or that the round is over.
    pub fn next_attempt(&self, candidates: usize, profiles: usize) -> (out: Option<(usize, usize)>)
        ensures
            match out {
                Some((candidate, profile)) => candidate < candidates && profile < profiles
                    && self@.next_attempt(candidates as nat, profiles as nat) == Some(
                    (candidate as nat, profile as nat),
                ),
                None => self@.next_attempt(candidates as nat, profiles as nat) is None,
            },
    {
        if self.started || profiles == 0 {
            return None;
        }
        let candidate = self.attempts / profiles;
        if candidate < candidates {
            Some((candidate, self.attempts % profiles))
        } else {
            None
        }
    }

    /// Records the outcome of an attempt with this executable and these
    /// arguments, and tells whether the helper runs.
    pub fn record(&mut self, candidate: &str, arguments: &str, outcome: &AttemptOutcome) -> (started:
        bool)
        ensures
            final(self)@ == old(self)@.recorded(candidate@, arguments@, outcome@),
            started == (outcome@ is Started),
    {
        let ghost before = self.other_errors.deep_view();
        if self.attempts < usize::MAX {
            self.attempts = self.attempts + 1;
        }
        match outcome {
            AttemptOutcome::Started => {
                self.started = true;
                return true;
            },
            AttemptOutcome::NotFound => {
                self.saw_not_found = true;
            },
            AttemptOutcome::ExitedEarly(status) => {
                let mut message = command_name(candidate, arguments);
                message.append(" exited before startup with status ");
                message.append(status.as_str());
                let ghost text = message@;
                self.other_errors.push(message);
                proof {
                    assert(self.other_errors.deep_view() =~= before.push(text));
                }
            },
            AttemptOutcome::CheckFailed(error) => {
                let mut message = command_name(candidate, arguments);
                message.append(" failed during startup check (");
                message.append(error.as_str());
                message.append(")");
                let ghost text = message@;
                self.other_errors.push(message);
                proof {
                    assert(self.other_errors.deep_view() =~= before.push(text));
                }
            },
            AttemptOutcome::SpawnFailed(error) => {
                let mut message = command_name(candidate, arguments);
                message.append(" (");
                message.append(error.as_str());
                message.append(")");
                let ghost text = message@;
                self.other_errors.push(message);
                proof {
                    assert(self.other_errors.deep_view() =~= before.push(text));
                }
            },
        }
        false
    }

    /// Why the round failed, once every command was tried in vain.
    pub fn finish(&self) -> (failure: SpawnFailure)
        ensures
            failure@ == self@.failure(),
    {
        if self.other_errors.len() > 0 {
            SpawnFailure::Other(join(&self.other_errors, ", "))
        } else if self.saw_not_found {
            SpawnFailure::NotFound
        } else {
            SpawnFailure::Other("No media-control command candidates available".to_owned())
        }
    }
}

/// How a round of attempts ended, as the worker sees it.
#[derive(Debug, Clone, Copy, PartialEq, Eq, Structural)]
pub enum SpawnResult {
    /// The helper runs.
    Started,
    /// No executable was found.
    NotFound,
    /// Something else went wrong.
    Failed,
}

/// What the worker does after a round of attempts.
#[derive(Debug, Clone, Copy, PartialEq, Eq, Structural)]
pub struct WorkerStep {
    /// Whether a warning about the missing executable is on record
    /// afterwards.
    pub warned_about_missing_binary: bool,
    /// Whether to warn now.
    pub warn: bool,
    /// The seconds to wait before the next round; none while the stream is
    /// read.
    pub wait_seconds: Option<u64>,
}

/// The worker's step after a round: a running helper is read, and clears
/// the record of the warning; a missing executable is warned of once in a
/// row and waited for at length; any other failure is warned of and retried
/// soon.
pub open spec fn worker_step(warned: bool, result: SpawnResult) -> WorkerStep {
    match result {
        SpawnResult::Started => WorkerStep {
            warned_about_missing_binary: false,
            warn: false,
            wait_seconds: None,
        },
        SpawnResult::NotFound => WorkerStep {
            warned_about_missing_binary: true,
            warn: !warned,
            wait_seconds: Some(MISSING_BINARY_RETRY_DELAY_SECONDS),
        },
        SpawnResult::Failed => WorkerStep {
            warned_about_missing_binary: warned,
            warn: true,
            wait_seconds: Some(STREAM_RESTART_DELAY_SECONDS),
        },
    }
}

/// Decides the worker's step after a round of attempts.
pub fn next_worker_step(warned: bool, result: SpawnResult) -> (step: WorkerStep)
    ensures
        step == worker_step(warned, result),
{
    match result {
        SpawnResult::Started => WorkerStep {
            warned_about_missing_binary: false,
            warn: false,
            wait_seconds: None,
        },
        SpawnResult::NotFound => WorkerStep {
            warned_about_missing_binary: true,
            warn: !warned,
            wait_seconds: Some(MISSING_BINARY_RETRY_DELAY_SECONDS),
        },
        SpawnResult::Failed => WorkerStep {
            warned_about_missing_binary: warned,
            warn: true,
            wait_seconds: Some(STREAM_RESTART_DELAY_SECONDS),
        },
    }
}

/// The update that a line read from the stream gives: none for a blank
/// line, else what the line says.
pub open spec fn update_of_stream_line(line: Seq<char>) -> Option<ParsedLineView> {
    if trimmed(line).len() == 0 {
        None
    } else {
        update_of_line(line)
    }
}

/// The record after a line of the stream: a line without an update leaves
/// it; any other line applies its update.
pub open spec fn record_after_line(cell: Option<crate::platform::MediaDataView>, line: Seq<char>)
    -> Option<crate::platform::MediaDataView> {
    match update_of_stream_line(line) {
        Some(update) => applied(cell, update),
        None => cell,
    }
}

/// Reads the update that a line read from the stream gives. The record is
/// not needed for this, so a caller that shares the record can read the
/// line first and hold the record only to apply the update.
pub fn read_stream_line(line: &str) -> (out: Option<ParsedLine>)
    ensures
        update_view(out) == update_of_stream_line(line@),
{
    if trim(line).as_str().is_empty() {
        return None;
    }
    parse_stream_line(line)
}

/// Takes one line of the stream into the record and tells whether the
/// record changed.
pub fn handle_stream_line(latest: &mut Option<MediaData>, line: &str) -> (changed: bool)
    ensures
        cell_view(*final(latest)) == record_after_line(cell_view(*old(latest)), line@),
        changed == (cell_view(*final(latest)) != cell_view(*old(latest))),
{
    match read_stream_line(line) {
        Some(update) => apply_update(latest, update),
        None => false,
    }
}

} // verus!
