//! The network client: one empty `POST` per short press, with bounded retries.

use vstd::prelude::*;
use vstd::string::StringSliceAdditionalSpecFns;
use crate::bounded::{text_bytes, text_new, text_push_str, REQUEST_CAPACITY};
use crate::config::{
    NetworkConfig, API_RETRY_COUNT, API_TIMEOUT_SECS, WIFI_CONNECT_TIMEOUT_SECS,
};
use crate::tasks::button::ButtonEvent;
use crate::tasks::led::{LedCommand, StatusColor};

verus! {

/// Energy level shown after a toggle that succeeded.
pub const TOGGLE_ENERGY_LEVEL: u8 = 5;

/// Size of the buffer that drains the response.
pub const RESPONSE_BUFFER_LEN: usize = 64;

/// Longest wait for a button event, in milliseconds.
pub const BUTTON_WAIT_MS: u64 = 1000;

/// Pause between two rounds of the client, and between two looks at the
/// address, in milliseconds.
pub const CLIENT_PAUSE_MS: u64 = 100;

/// Why a toggle sequence gave up.
#[derive(Debug, Clone, Copy, PartialEq, Eq, Structural)]
pub enum ToggleError {
    /// The request does not fit in `REQUEST_CAPACITY` bytes.
    Format,
    /// Every attempt failed to connect or to write.
    AllAttemptsFailed,
}

impl ToggleError {
    /// This error in words.
    pub fn message(&self) -> (text: &'static str)
        ensures
            text@ == (match *self {
                ToggleError::Format => "format error"@,
                ToggleError::AllAttemptsFailed => "all HTTP attempts failed"@,
            }),
    {
        match self {
            ToggleError::Format => "format error",
            ToggleError::AllAttemptsFailed => "all HTTP attempts failed",
        }
    }
}

/// The bytes of the toggle request: an empty-bodied `POST` to `path` on `host`.
pub open spec fn request_bytes(path: &str, host: &str) -> Seq<u8> {
    "POST ".spec_bytes() + path.spec_bytes() + " HTTP/1.1\r\nHost: ".spec_bytes()
        + host.spec_bytes() + "\r\nContent-Length: 0\r\nConnection: close\r\n\r\n".spec_bytes()
}

/// Whether the toggle request for `path` and `host` fits in a request string.
pub open spec fn request_fits(path: &str, host: &str) -> bool {
    request_bytes(path, host).len() <= REQUEST_CAPACITY
}

/// Builds the toggle request for `cfg`, or fails if it is too long.
pub fn build_request(cfg: &NetworkConfig) -> (r: Result<
    heapless::String<REQUEST_CAPACITY>,
    ToggleError,
>)
    ensures
        r is Ok <==> request_fits(cfg.api_path, cfg.api_host),
        r matches Ok(text) ==> text_bytes(text) == request_bytes(cfg.api_path, cfg.api_host),
        r matches Err(e) ==> e == ToggleError::Format,
{
    let mut text = text_new();
    if text_push_str(&mut text, "POST ").is_err() {
        return Err(ToggleError::Format);
    }
    if text_push_str(&mut text, cfg.api_path).is_err() {
        return Err(ToggleError::Format);
    }
    if text_push_str(&mut text, " HTTP/1.1\r\nHost: ").is_err() {
        return Err(ToggleError::Format);
    }
    if text_push_str(&mut text, cfg.api_host).is_err() {
        return Err(ToggleError::Format);
    }
    if text_push_str(&mut text, "\r\nContent-Length: 0\r\nConnection: close\r\n\r\n").is_err() {
        return Err(ToggleError::Format);
    }
    Ok(text)
}

/// How an operation ended that was raced against its timeout.
#[derive(Debug, Clone, Copy, PartialEq, Eq, Structural)]
pub enum IoOutcome {
    /// It completed in time.
    Done,
    /// It returned an error in time.
    Failed,
    /// The timer fired first; the operation was abandoned.
    TimedOut,
}

/// What the runner reports to a toggle sequence.
#[derive(Debug, Clone, Copy, PartialEq, Eq, Structural)]
pub enum ToggleEvent {
    /// A short press asks for a toggle.
    Start,
    /// The connect that was asked for has ended.
    Connect(IoOutcome),
    /// The write that was asked for has ended.
    Write(IoOutcome),
    /// The read that was asked for has ended.
    Read(IoOutcome),
}

/// Where a toggle sequence stands.
#[derive(Debug, Clone, Copy, PartialEq, Eq, Structural)]
pub enum TogglePhase {
    /// Not started.
    Ready,
    /// A connect is in flight.
    Connecting,
    /// A write is in flight.
    Writing,
    /// A read is in flight.
    Reading,
    /// The request went out.
    Succeeded,
    /// The sequence gave up.
    Failed(ToggleError),
}

/// State of one toggle sequence.
#[derive(Debug, Clone, Copy, PartialEq, Eq, Structural)]
pub struct ToggleState {
    /// Number of attempts allowed.
    pub retries: u8,
    /// Number of the attempt in progress, from 1; 0 before the first.
    pub attempt: u8,
    pub phase: TogglePhase,
}

/// What the runner of a toggle sequence does next.
#[derive(Debug)]
pub enum ToggleCommand {
    /// Open a TCP connection to the API host and port, within this many
    /// seconds.
    Connect { timeout_secs: u64 },
    /// Write all of this request, within this many seconds.
    Write { request: heapless::String<REQUEST_CAPACITY>, timeout_secs: u64 },
    /// Read once, at most this many bytes and within this many seconds, and
    /// drop what was read.
    Read { max_len: usize, timeout_secs: u64 },
    /// The sequence is over, with this result.
    Finish(Result<(), ToggleError>),
    /// Nothing new: the event was not the one awaited.
    Pending,
}

/// A `ToggleCommand`, with the request as its bytes.
pub enum ToggleCommandView {
    Connect { timeout_secs: u64 },
    Write { request: Seq<u8>, timeout_secs: u64 },
    Read { max_len: usize, timeout_secs: u64 },
    Finish(Result<(), ToggleError>),
    Pending,
}

impl View for ToggleCommand {
    type V = ToggleCommandView;

    open spec fn view(&self) -> ToggleCommandView {
        match *self {
            ToggleCommand::Connect { timeout_secs } => ToggleCommandView::Connect { timeout_secs },
            ToggleCommand::Write { request, timeout_secs } => ToggleCommandView::Write {
                request: text_bytes(request),
                timeout_secs,
            },
            ToggleCommand::Read { max_len, timeout_secs } => ToggleCommandView::Read {
                max_len,
                timeout_secs,
            },
            ToggleCommand::Finish(r) => ToggleCommandView::Finish(r),
            ToggleCommand::Pending => ToggleCommandView::Pending,
        }
    }
}

/// One transition of a toggle sequence: the signals to send to the LED strip,
/// in order, and what to do next.
#[derive(Debug)]
pub struct ToggleStep {
    pub signals: Vec<LedCommand>,
    pub command: ToggleCommand,
}

/// A `ToggleStep`, with the request as its bytes.
pub struct ToggleStepView {
    pub signals: Seq<LedCommand>,
    pub command: ToggleCommandView,
}

impl View for ToggleStep {
    type V = ToggleStepView;

    open spec fn view(&self) -> ToggleStepView {
        ToggleStepView { signals: self.signals@, command: self.command@ }
    }
}

/// The signals of a toggle that succeeded.
pub open spec fn success_signals() -> Seq<LedCommand> {
    seq![
        LedCommand::SetStatus(StatusColor::Green),
        LedCommand::SetEnergyMeter(TOGGLE_ENERGY_LEVEL),
    ]
}

/// The state after an attempt of `s` has failed to connect or to write.
pub open spec fn after_failed_attempt(s: ToggleState) -> ToggleState {
    if s.attempt < s.retries {
        ToggleState { attempt: (s.attempt + 1) as u8, phase: TogglePhase::Connecting, ..s }
    } else {
        ToggleState { phase: TogglePhase::Failed(ToggleError::AllAttemptsFailed), ..s }
    }
}

/// What to do after an attempt of `s` has failed to connect or to write.
pub open spec fn retry_command(s: ToggleState) -> ToggleCommandView {
    if s.attempt < s.retries {
        ToggleCommandView::Connect { timeout_secs: API_TIMEOUT_SECS }
    } else {
        ToggleCommandView::Finish(Err(ToggleError::AllAttemptsFailed))
    }
}

/// The state of a toggle sequence after `event`, where the request for
/// `path` and `host` is what a write sends.
pub open spec fn toggle_next(s: ToggleState, path: &str, host: &str, event: ToggleEvent)
    -> ToggleState {
    match (s.phase, event) {
        (TogglePhase::Ready, ToggleEvent::Start) => after_failed_attempt(
            ToggleState { attempt: 0, ..s },
        ),
        (TogglePhase::Connecting, ToggleEvent::Connect(IoOutcome::Done)) => if request_fits(
            path,
            host,
        ) {
            ToggleState { phase: TogglePhase::Writing, ..s }
        } else {
            ToggleState { phase: TogglePhase::Failed(ToggleError::Format), ..s }
        },
        (TogglePhase::Connecting, ToggleEvent::Connect(_)) => after_failed_attempt(s),
        (TogglePhase::Writing, ToggleEvent::Write(IoOutcome::Done)) => ToggleState {
            phase: TogglePhase::Reading,
            ..s
        },
        (TogglePhase::Writing, ToggleEvent::Write(_)) => after_failed_attempt(s),
        (TogglePhase::Reading, ToggleEvent::Read(_)) => ToggleState {
            phase: TogglePhase::Succeeded,
            ..s
        },
        _ => s,
    }
}

/// The signals that a toggle sequence in state `s` sends on `event`.
pub open spec fn toggle_signals(s: ToggleState, event: ToggleEvent) -> Seq<LedCommand> {
    match (s.phase, event) {
        (TogglePhase::Ready, ToggleEvent::Start) => seq![
            LedCommand::SetStatus(StatusColor::Purple),
        ],
        (TogglePhase::Reading, ToggleEvent::Read(_)) => success_signals(),
        _ => Seq::empty(),
    }
}

/// What the runner of a toggle sequence in state `s` does after `event`.
pub open spec fn toggle_command(s: ToggleState, path: &str, host: &str, event: ToggleEvent)
    -> ToggleCommandView {
    match (s.phase, event) {
        (TogglePhase::Ready, ToggleEvent::Start) => retry_command(ToggleState { attempt: 0, ..s }),
        (TogglePhase::Connecting, ToggleEvent::Connect(IoOutcome::Done)) => if request_fits(
            path,
            host,
        ) {
            ToggleCommandView::Write {
                request: request_bytes(path, host),
                timeout_secs: API_TIMEOUT_SECS,
            }
        } else {
            ToggleCommandView::Finish(Err(ToggleError::Format))
        },
        (TogglePhase::Connecting, ToggleEvent::Connect(_)) => retry_command(s),
        (TogglePhase::Writing, ToggleEvent::Write(IoOutcome::Done)) => ToggleCommandView::Read {
            max_len: RESPONSE_BUFFER_LEN,
            timeout_secs: API_TIMEOUT_SECS,
        },
        (TogglePhase::Writing, ToggleEvent::Write(_)) => retry_command(s),
        (TogglePhase::Reading, ToggleEvent::Read(_)) => ToggleCommandView::Finish(Ok(())),
        _ => ToggleCommandView::Pending,
    }
}

impl ToggleState {
    /// A sequence that has not started and may make `retries` attempts.
    pub fn new(retries: u8) -> (s: ToggleState)
        ensures
            s == (ToggleState { retries, attempt: 0, phase: TogglePhase::Ready }),
    {
        ToggleState { retries, attempt: 0, phase: TogglePhase::Ready }
    }

    /// Ends the attempt in progress without success, and starts the next one
    /// if any is left.
    fn fail_attempt(&mut self) -> (command: ToggleCommand)
        ensures
            *final(self) == after_failed_attempt(*old(self)),
            command@ == retry_command(*old(self)),
    {
        if self.attempt < self.retries {
            self.attempt = self.attempt + 1;
            self.phase = TogglePhase::Connecting;
            ToggleCommand::Connect { timeout_secs: API_TIMEOUT_SECS }
        } else {
            self.phase = TogglePhase::Failed(ToggleError::AllAttemptsFailed);
            ToggleCommand::Finish(Err(ToggleError::AllAttemptsFailed))
        }
    }
}

/// One transition of the toggle sequence.
///
/// `Start` signals purple and opens the first attempt. An attempt connects,
/// writes the request and reads once; a connect or a write that fails or
/// times out ends the attempt, and the next one starts at once, until
/// `retries` attempts are used up. Whatever the read gives, the attempt has
/// succeeded: green and the energy level are signalled and the sequence ends.
/// A request that does not fit ends the sequence with `ToggleError::Format`.
/// An event that is not the awaited one changes nothing.
pub fn handle_clock_toggle(state: &mut ToggleState, cfg: &NetworkConfig, event: ToggleEvent) -> (step:
    ToggleStep)
    ensures
        *final(state) == toggle_next(*old(state), cfg.api_path, cfg.api_host, event),
        step@.signals == toggle_signals(*old(state), event),
        step@.command == toggle_command(*old(state), cfg.api_path, cfg.api_host, event),
{
    let mut signals: Vec<LedCommand> = Vec::new();
    let command = match (state.phase, event) {
        (TogglePhase::Ready, ToggleEvent::Start) => {
            signals.push(LedCommand::SetStatus(StatusColor::Purple));
            state.attempt = 0;
            state.fail_attempt()
        },
        (TogglePhase::Connecting, ToggleEvent::Connect(IoOutcome::Done)) => {
            match build_request(cfg) {
                Ok(request) => {
                    state.phase = TogglePhase::Writing;
                    ToggleCommand::Write { request, timeout_secs: API_TIMEOUT_SECS }
                },
                Err(e) => {
                    state.phase = TogglePhase::Failed(e);
                    ToggleCommand::Finish(Err(e))
                },
            }
        },
        (TogglePhase::Connecting, ToggleEvent::Connect(_)) => state.fail_attempt(),
        (TogglePhase::Writing, ToggleEvent::Write(IoOutcome::Done)) => {
            state.phase = TogglePhase::Reading;
            ToggleCommand::Read { max_len: RESPONSE_BUFFER_LEN, timeout_secs: API_TIMEOUT_SECS }
        },
        (TogglePhase::Writing, ToggleEvent::Write(_)) => state.fail_attempt(),
        (TogglePhase::Reading, ToggleEvent::Read(_)) => {
            signals.push(LedCommand::SetStatus(StatusColor::Green));
            signals.push(LedCommand::SetEnergyMeter(TOGGLE_ENERGY_LEVEL));
            state.phase = TogglePhase::Succeeded;
            ToggleCommand::Finish(Ok(()))
        },
        _ => ToggleCommand::Pending,
    };
    ToggleStep { signals, command }
}

/// Everything a toggle sequence has done over a run of events.
pub struct ToggleTrace {
    /// The state after the last event.
    pub state: ToggleState,
    /// All signals sent, in order.
    pub signals: Seq<LedCommand>,
    /// The command that answered each event.
    pub commands: Seq<ToggleCommandView>,
}

/// Feeds `events` to a toggle sequence in state `s`, one after the other.
pub open spec fn toggle_run(s: ToggleState, path: &str, host: &str, events: Seq<ToggleEvent>)
    -> ToggleTrace
    decreases events.len(),
{
    if events.len() == 0 {
        ToggleTrace { state: s, signals: Seq::empty(), commands: Seq::empty() }
    } else {
        let rest = toggle_run(
            toggle_next(s, path, host, events[0]),
            path,
            host,
            events.drop_first(),
        );
        ToggleTrace {
            state: rest.state,
            signals: toggle_signals(s, events[0]) + rest.signals,
            commands: seq![toggle_command(s, path, host, events[0])] + rest.commands,
        }
    }
}

/// A connect that did not complete: an error or a timeout.
pub open spec fn is_connect_failure(event: ToggleEvent) -> bool {
    event matches ToggleEvent::Connect(outcome) && outcome != IoOutcome::Done
}

/// A run over `xs + ys` is the run over `xs` followed by the run over `ys`.
proof fn lemma_run_concat(
    s: ToggleState,
    path: &str,
    host: &str,
    xs: Seq<ToggleEvent>,
    ys: Seq<ToggleEvent>,
)
    ensures
        toggle_run(s, path, host, xs + ys).state == toggle_run(
            toggle_run(s, path, host, xs).state,
            path,
            host,
            ys,
        ).state,
        toggle_run(s, path, host, xs + ys).signals == toggle_run(s, path, host, xs).signals
            + toggle_run(toggle_run(s, path, host, xs).state, path, host, ys).signals,
        toggle_run(s, path, host, xs + ys).commands == toggle_run(s, path, host, xs).commands
            + toggle_run(toggle_run(s, path, host, xs).state, path, host, ys).commands,
    decreases xs.len(),
{
    if xs.len() == 0 {
        assert(xs + ys =~= ys);
    } else {
        assert((xs + ys).drop_first() =~= xs.drop_first() + ys);
        lemma_run_concat(toggle_next(s, path, host, xs[0]), path, host, xs.drop_first(), ys);
    }
}

/// A run over one event is one transition.
proof fn lemma_run_one(s: ToggleState, path: &str, host: &str, event: ToggleEvent)
    ensures
        toggle_run(s, path, host, seq![event]).state == toggle_next(s, path, host, event),
        toggle_run(s, path, host, seq![event]).signals == toggle_signals(s, event),
        toggle_run(s, path, host, seq![event]).commands == seq![
            toggle_command(s, path, host, event),
        ],
{
    reveal_with_fuel(toggle_run, 2);
    assert(seq![event].drop_first() =~= Seq::<ToggleEvent>::empty());
    assert(toggle_run(s, path, host, seq![event]).signals =~= toggle_signals(s, event));
    assert(toggle_run(s, path, host, seq![event]).commands =~= seq![
        toggle_command(s, path, host, event),
    ]);
}

/// Connect failures that leave an attempt over only count the attempts up.
proof fn lemma_run_connect_failures(
    s: ToggleState,
    path: &str,
    host: &str,
    fails: Seq<ToggleEvent>,
)
    requires
        s.phase == TogglePhase::Connecting,
        s.attempt + fails.len() <= s.retries,
        forall|i: int| 0 <= i < fails.len() ==> is_connect_failure(#[trigger] fails[i]),
    ensures
        toggle_run(s, path, host, fails).state == (ToggleState {
            attempt: (s.attempt + fails.len()) as u8,
            ..s
        }),
        toggle_run(s, path, host, fails).signals == Seq::<LedCommand>::empty(),
        toggle_run(s, path, host, fails).commands.len() == fails.len(),
    decreases fails.len(),
{
    if fails.len() > 0 {
        assert(is_connect_failure(fails[0]));
        let rest = fails.drop_first();
        assert forall|i: int| 0 <= i < rest.len() implies is_connect_failure(
            #[trigger] rest[i],
        ) by {
            assert(rest[i] == fails[i + 1]);
        }
        lemma_run_connect_failures(toggle_next(s, path, host, fails[0]), path, host, rest);
    }
}

/// A sequence that is over ignores every further event.
proof fn lemma_run_when_over(s: ToggleState, path: &str, host: &str, events: Seq<ToggleEvent>)
    requires
        s.phase is Succeeded || s.phase is Failed,
    ensures
        toggle_run(s, path, host, events).state == s,
        toggle_run(s, path, host, events).signals == Seq::<LedCommand>::empty(),
    decreases events.len(),
{
    if events.len() > 0 {
        lemma_run_when_over(s, path, host, events.drop_first());
    }
}

/// After fewer connect failures in a row than attempts are allowed, the next
/// attempt succeeds: the sequence ends with `Ok`, on the attempt that follows
/// the failures, and has signalled purple once at its start and green and the
/// energy level once at its end, and nothing else.
pub proof fn law_toggle_succeeds_after_failures(
    retries: u8,
    path: &str,
    host: &str,
    fails: Seq<ToggleEvent>,
    read: IoOutcome,
)
    requires
        fails.len() < retries,
        forall|i: int| 0 <= i < fails.len() ==> is_connect_failure(#[trigger] fails[i]),
        request_fits(path, host),
    ensures
        ({
            let start = ToggleState { retries, attempt: 0, phase: TogglePhase::Ready };
            let events = seq![ToggleEvent::Start] + fails + seq![
                ToggleEvent::Connect(IoOutcome::Done),
                ToggleEvent::Write(IoOutcome::Done),
                ToggleEvent::Read(read),
            ];
            let trace = toggle_run(start, path, host, events);
            &&& trace.state == (ToggleState {
                retries,
                attempt: (fails.len() + 1) as u8,
                phase: TogglePhase::Succeeded,
            })
            &&& trace.signals == seq![
                LedCommand::SetStatus(StatusColor::Purple),
                LedCommand::SetStatus(StatusColor::Green),
                LedCommand::SetEnergyMeter(TOGGLE_ENERGY_LEVEL),
            ]
            &&& trace.commands.len() == events.len()
            &&& trace.commands.last() == ToggleCommandView::Finish(Ok(()))
        }),
{
    let start = ToggleState { retries, attempt: 0, phase: TogglePhase::Ready };
    let connected = ToggleEvent::Connect(IoOutcome::Done);
    let written = ToggleEvent::Write(IoOutcome::Done);
    let head = seq![ToggleEvent::Start];
    let s1 = toggle_next(start, path, host, ToggleEvent::Start);
    let s2 = ToggleState { attempt: (1 + fails.len()) as u8, ..s1 };
    let s3 = ToggleState { phase: TogglePhase::Writing, ..s2 };
    let s4 = ToggleState { phase: TogglePhase::Reading, ..s2 };

    lemma_run_one(start, path, host, ToggleEvent::Start);
    lemma_run_connect_failures(s1, path, host, fails);
    lemma_run_one(s2, path, host, connected);
    lemma_run_one(s3, path, host, written);
    lemma_run_one(s4, path, host, ToggleEvent::Read(read));

    let so_far = head + fails;
    lemma_run_concat(start, path, host, head, fails);
    lemma_run_concat(start, path, host, so_far, seq![connected]);
    let so_far = so_far + seq![connected];
    lemma_run_concat(start, path, host, so_far, seq![written]);
    let so_far = so_far + seq![written];
    lemma_run_concat(start, path, host, so_far, seq![ToggleEvent::Read(read)]);
    let events = so_far + seq![ToggleEvent::Read(read)];
    assert(events =~= head + fails + seq![connected, written, ToggleEvent::Read(read)]);
    let trace = toggle_run(start, path, host, events);
    assert(trace.signals =~= seq![
        LedCommand::SetStatus(StatusColor::Purple),
        LedCommand::SetStatus(StatusColor::Green),
        LedCommand::SetEnergyMeter(TOGGLE_ENERGY_LEVEL),
    ]);
}

/// After as many connect failures in a row as attempts are allowed, or more,
/// the sequence has failed: the command that answers the last allowed failure
/// is `Finish` with `AllAttemptsFailed`, and purple at the start is the only
/// signal ever sent.
pub proof fn law_toggle_fails_when_attempts_run_out(
    retries: u8,
    path: &str,
    host: &str,
    fails: Seq<ToggleEvent>,
)
    requires
        fails.len() >= retries,
        forall|i: int| 0 <= i < fails.len() ==> is_connect_failure(#[trigger] fails[i]),
    ensures
        ({
            let start = ToggleState { retries, attempt: 0, phase: TogglePhase::Ready };
            let trace = toggle_run(start, path, host, seq![ToggleEvent::Start] + fails);
            &&& trace.state == (ToggleState {
                retries,
                attempt: retries,
                phase: TogglePhase::Failed(ToggleError::AllAttemptsFailed),
            })
            &&& trace.signals == seq![LedCommand::SetStatus(StatusColor::Purple)]
            &&& trace.commands.len() > retries
            &&& trace.commands[retries as int] == ToggleCommandView::Finish(
                Err(ToggleError::AllAttemptsFailed),
            )
        }),
{
    let start = ToggleState { retries, attempt: 0, phase: TogglePhase::Ready };
    let head = seq![ToggleEvent::Start];
    let s1 = toggle_next(start, path, host, ToggleEvent::Start);
    let over = ToggleState {
        retries,
        attempt: retries,
        phase: TogglePhase::Failed(ToggleError::AllAttemptsFailed),
    };
    let purple = seq![LedCommand::SetStatus(StatusColor::Purple)];

    lemma_run_one(start, path, host, ToggleEvent::Start);
    lemma_run_concat(start, path, host, head, fails);
    let trace = toggle_run(start, path, host, head + fails);

    if retries == 0 {
        assert(s1 == over);
        lemma_run_when_over(s1, path, host, fails);
        assert(trace.signals =~= purple);
    } else {
        // The failures that leave an attempt over, the one that uses up the
        // last attempt, and those that nobody waits for any more.
        let early = fails.subrange(0, retries - 1);
        let last = seq![fails[retries - 1]];
        let late = fails.subrange(retries as int, fails.len() as int);
        assert(fails =~= early + last + late);
        lemma_run_connect_failures(s1, path, host, early);
        let s2 = ToggleState { attempt: retries, ..s1 };
        assert(is_connect_failure(fails[retries - 1]));
        lemma_run_one(s2, path, host, fails[retries - 1]);
        lemma_run_when_over(over, path, host, late);
        lemma_run_concat(s1, path, host, early, last);
        lemma_run_concat(s1, path, host, early + last, late);
        assert(trace.signals =~= purple);
    }
}

/// The number of connects among `commands`.
pub open spec fn connects(commands: Seq<ToggleCommandView>) -> nat
    decreases commands.len(),
{
    if commands.len() == 0 {
        0
    } else if commands[0] is Connect {
        1 + connects(commands.drop_first())
    } else {
        connects(commands.drop_first())
    }
}

/// Over a run, the connects asked for are the attempts counted, and the
/// attempts stay within what is allowed.
proof fn lemma_run_is_bounded(s: ToggleState, path: &str, host: &str, events: Seq<ToggleEvent>)
    requires
        s.attempt <= s.retries,
        s.phase is Ready ==> s.attempt == 0,
    ensures
        toggle_run(s, path, host, events).state.retries == s.retries,
        toggle_run(s, path, host, events).state.attempt <= s.retries,
        toggle_run(s, path, host, events).state.attempt == s.attempt + connects(
            toggle_run(s, path, host, events).commands,
        ),
    decreases events.len(),
{
    if events.len() > 0 {
        let first = toggle_command(s, path, host, events[0]);
        let rest = toggle_run(
            toggle_next(s, path, host, events[0]),
            path,
            host,
            events.drop_first(),
        );
        lemma_run_is_bounded(toggle_next(s, path, host, events[0]), path, host, events.drop_first());
        assert((seq![first] + rest.commands).drop_first() =~= rest.commands);
    }
}

/// Retries are bounded: whatever is reported to a toggle sequence, it asks
/// for one connect per attempt and never makes more attempts than it is
/// allowed.
pub proof fn law_attempts_are_bounded(
    retries: u8,
    path: &str,
    host: &str,
    events: Seq<ToggleEvent>,
)
    ensures
        ({
            let start = ToggleState { retries, attempt: 0, phase: TogglePhase::Ready };
            let trace = toggle_run(start, path, host, events);
            &&& connects(trace.commands) == trace.state.attempt
            &&& trace.state.attempt <= retries
        }),
{
    let start = ToggleState { retries, attempt: 0, phase: TogglePhase::Ready };
    lemma_run_is_bounded(start, path, host, events);
}

/// All that a toggle sequence has signalled by the time it is in `phase`:
/// nothing before it starts, purple from then on, and green and the energy
/// level once it has succeeded.
pub open spec fn signalled_by(phase: TogglePhase) -> Seq<LedCommand> {
    match phase {
        TogglePhase::Ready => Seq::empty(),
        TogglePhase::Succeeded => seq![LedCommand::SetStatus(StatusColor::Purple)]
            + success_signals(),
        _ => seq![LedCommand::SetStatus(StatusColor::Purple)],
    }
}

/// Over a run, the signals go from those of the first phase to those of the
/// last.
proof fn lemma_run_signals(s: ToggleState, path: &str, host: &str, events: Seq<ToggleEvent>)
    ensures
        signalled_by(s.phase) + toggle_run(s, path, host, events).signals == signalled_by(
            toggle_run(s, path, host, events).state.phase,
        ),
    decreases events.len(),
{
    if events.len() == 0 {
        assert(signalled_by(s.phase) + Seq::<LedCommand>::empty() =~= signalled_by(s.phase));
    } else {
        let next = toggle_next(s, path, host, events[0]);
        let now = toggle_signals(s, events[0]);
        let rest = toggle_run(next, path, host, events.drop_first());
        assert(signalled_by(s.phase) + now =~= signalled_by(next.phase));
        lemma_run_signals(next, path, host, events.drop_first());
        assert(signalled_by(s.phase) + (now + rest.signals) =~= (signalled_by(s.phase) + now)
            + rest.signals);
    }
}

/// Success is signalled once or never: whatever is reported to a toggle
/// sequence, and however late, all it ever signals is purple when it starts,
/// and then green and the energy level if and only if it has succeeded.
pub proof fn law_success_is_signalled_at_most_once(
    retries: u8,
    path: &str,
    host: &str,
    events: Seq<ToggleEvent>,
)
    ensures
        ({
            let start = ToggleState { retries, attempt: 0, phase: TogglePhase::Ready };
            let trace = toggle_run(start, path, host, events);
            trace.signals == signalled_by(trace.state.phase)
        }),
{
    let start = ToggleState { retries, attempt: 0, phase: TogglePhase::Ready };
    lemma_run_signals(start, path, host, events);
    let trace = toggle_run(start, path, host, events);
    assert(Seq::<LedCommand>::empty() + trace.signals =~= trace.signals);
}

/// Where the network client stands.
#[derive(Debug, Clone, Copy, PartialEq, Eq, Structural)]
pub enum WifiPhase {
    /// Not booted.
    Starting,
    /// Joining the WiFi network.
    Joining,
    /// Waiting for the link and the network stack.
    StartingStack,
    /// Asking whether the stack has its address.
    AwaitingAddress,
    /// Pausing before it asks again.
    AddressPause,
    /// Waiting for a button event.
    Listening,
    /// A toggle sequence is in progress.
    Toggling,
    /// Pausing between two rounds.
    Pausing,
    /// The network could not be joined: the task has ended.
    Stopped,
}

/// State of the network client.
#[derive(Debug, Clone, Copy, PartialEq, Eq, Structural)]
pub struct WifiState {
    pub phase: WifiPhase,
    /// The toggle sequence in progress, or the last one.
    pub toggle: ToggleState,
}

/// What the runner reports to the network client.
#[derive(Debug, Clone, Copy, PartialEq, Eq, Structural)]
pub enum WifiEvent {
    /// The task has started.
    Boot,
    /// Joining the network has ended.
    Join(IoOutcome),
    /// The link is up and the network stack runs.
    StackStarted,
    /// Whether the stack has its address.
    Address(bool),
    /// The wait for a button event has ended: with an event, or without.
    Button(Option<ButtonEvent>),
    /// A socket operation of the toggle sequence has ended.
    Socket(ToggleEvent),
    /// The pause has elapsed.
    Elapsed,
}

/// What the runner of the network client does next.
#[derive(Debug)]
pub enum WifiCommand {
    /// Join the configured WiFi network, within this many seconds.
    Join { timeout_secs: u64 },
    /// Wait for the link, then start the network stack with DHCP.
    StartStack,
    /// Ask the stack whether it has its address.
    CheckAddress,
    /// Wait for a button event, this many milliseconds at most.
    WaitButton { timeout_ms: u64 },
    /// Do this for the toggle sequence: `Connect`, `Write` or `Read`.
    Socket(ToggleCommand),
    /// Pause for this many milliseconds.
    Sleep { ms: u64 },
    /// End the task.
    Stop,
    /// Nothing new: the event was not the one awaited.
    Pending,
}

/// A `WifiCommand`, with a request as its bytes.
pub enum WifiCommandView {
    Join { timeout_secs: u64 },
    StartStack,
    CheckAddress,
    WaitButton { timeout_ms: u64 },
    Socket(ToggleCommandView),
    Sleep { ms: u64 },
    Stop,
    Pending,
}

impl View for WifiCommand {
    type V = WifiCommandView;

    open spec fn view(&self) -> WifiCommandView {
        match *self {
            WifiCommand::Join { timeout_secs } => WifiCommandView::Join { timeout_secs },
            WifiCommand::StartStack => WifiCommandView::StartStack,
            WifiCommand::CheckAddress => WifiCommandView::CheckAddress,
            WifiCommand::WaitButton { timeout_ms } => WifiCommandView::WaitButton { timeout_ms },
            WifiCommand::Socket(c) => WifiCommandView::Socket(c@),
            WifiCommand::Sleep { ms } => WifiCommandView::Sleep { ms },
            WifiCommand::Stop => WifiCommandView::Stop,
            WifiCommand::Pending => WifiCommandView::Pending,
        }
    }
}

/// One transition of the network client: the signals to send to the LED
/// strip, in order, and what to do next.
#[derive(Debug)]
pub struct WifiStep {
    pub signals: Vec<LedCommand>,
    pub command: WifiCommand,
}

/// A `WifiStep`, with a request as its bytes.
pub struct WifiStepView {
    pub signals: Seq<LedCommand>,
    pub command: WifiCommandView,
}

impl View for WifiStep {
    type V = WifiStepView;

    open spec fn view(&self) -> WifiStepView {
        WifiStepView { signals: self.signals@, command: self.command@ }
    }
}

/// The phase of the client once its toggle sequence has answered `command`.
pub open spec fn phase_after_toggle(command: ToggleCommandView) -> WifiPhase {
    if command is Finish {
        WifiPhase::Pausing
    } else {
        WifiPhase::Toggling
    }
}

/// What the client signals, beyond the signals of the toggle sequence itself,
/// once the sequence has answered `command`: yellow if it has failed.
pub open spec fn signals_after_toggle(command: ToggleCommandView) -> Seq<LedCommand> {
    match command {
        ToggleCommandView::Finish(Err(_)) => seq![LedCommand::SetStatus(StatusColor::Yellow)],
        _ => Seq::empty(),
    }
}

/// What the client does once its toggle sequence has answered `command`.
pub open spec fn command_after_toggle(command: ToggleCommandView) -> WifiCommandView {
    match command {
        ToggleCommandView::Finish(_) => WifiCommandView::Sleep { ms: CLIENT_PAUSE_MS },
        ToggleCommandView::Pending => WifiCommandView::Pending,
        _ => WifiCommandView::Socket(command),
    }
}

/// The toggle sequence that a short press starts.
pub open spec fn fresh_toggle() -> ToggleState {
    ToggleState { retries: API_RETRY_COUNT, attempt: 0, phase: TogglePhase::Ready }
}

/// The state of the network client after `event`.
pub open spec fn wifi_next(s: WifiState, path: &str, host: &str, event: WifiEvent) -> WifiState {
    match (s.phase, event) {
        (WifiPhase::Starting, WifiEvent::Boot) => WifiState { phase: WifiPhase::Joining, ..s },
        (WifiPhase::Joining, WifiEvent::Join(IoOutcome::Done)) => WifiState {
            phase: WifiPhase::StartingStack,
            ..s
        },
        (WifiPhase::Joining, WifiEvent::Join(_)) => WifiState { phase: WifiPhase::Stopped, ..s },
        (WifiPhase::StartingStack, WifiEvent::StackStarted) => WifiState {
            phase: WifiPhase::AwaitingAddress,
            ..s
        },
        (WifiPhase::AwaitingAddress, WifiEvent::Address(up)) => WifiState {
            phase: if up {
                WifiPhase::Listening
            } else {
                WifiPhase::AddressPause
            },
            ..s
        },
        (WifiPhase::AddressPause, WifiEvent::Elapsed) => WifiState {
            phase: WifiPhase::AwaitingAddress,
            ..s
        },
        (WifiPhase::Listening, WifiEvent::Button(Some(ButtonEvent::ShortPress))) => WifiState {
            phase: phase_after_toggle(
                toggle_command(fresh_toggle(), path, host, ToggleEvent::Start),
            ),
            toggle: toggle_next(fresh_toggle(), path, host, ToggleEvent::Start),
        },
        (WifiPhase::Listening, WifiEvent::Button(_)) => WifiState {
            phase: WifiPhase::Pausing,
            ..s
        },
        (WifiPhase::Toggling, WifiEvent::Socket(e)) => WifiState {
            phase: phase_after_toggle(toggle_command(s.toggle, path, host, e)),
            toggle: toggle_next(s.toggle, path, host, e),
        },
        (WifiPhase::Pausing, WifiEvent::Elapsed) => WifiState { phase: WifiPhase::Listening, ..s },
        _ => s,
    }
}

/// The signals that the network client in state `s` sends on `event`.
pub open spec fn wifi_signals(s: WifiState, path: &str, host: &str, event: WifiEvent) -> Seq<
    LedCommand,
> {
    match (s.phase, event) {
        (WifiPhase::Starting, WifiEvent::Boot) => seq![LedCommand::SetStatus(StatusColor::Blue)],
        (WifiPhase::Joining, WifiEvent::Join(IoOutcome::Done)) => seq![
            LedCommand::SetStatus(StatusColor::Green),
        ],
        (WifiPhase::Joining, WifiEvent::Join(_)) => seq![
            LedCommand::SetStatus(StatusColor::Yellow),
        ],
        (WifiPhase::Listening, WifiEvent::Button(Some(ButtonEvent::ShortPress))) => toggle_signals(
            fresh_toggle(),
            ToggleEvent::Start,
        ) + signals_after_toggle(toggle_command(fresh_toggle(), path, host, ToggleEvent::Start)),
        (WifiPhase::Listening, WifiEvent::Button(Some(ButtonEvent::LongPress))) => seq![
            LedCommand::Rainbow,
        ],
        (WifiPhase::Toggling, WifiEvent::Socket(e)) => toggle_signals(s.toggle, e)
            + signals_after_toggle(toggle_command(s.toggle, path, host, e)),
        _ => Seq::empty(),
    }
}

/// What the runner of the network client in state `s` does after `event`.
pub open spec fn wifi_command(s: WifiState, path: &str, host: &str, event: WifiEvent)
    -> WifiCommandView {
    match (s.phase, event) {
        (WifiPhase::Starting, WifiEvent::Boot) => WifiCommandView::Join {
            timeout_secs: WIFI_CONNECT_TIMEOUT_SECS,
        },
        (WifiPhase::Joining, WifiEvent::Join(IoOutcome::Done)) => WifiCommandView::StartStack,
        (WifiPhase::Joining, WifiEvent::Join(_)) => WifiCommandView::Stop,
        (WifiPhase::StartingStack, WifiEvent::StackStarted) => WifiCommandView::CheckAddress,
        (WifiPhase::AwaitingAddress, WifiEvent::Address(up)) => if up {
            WifiCommandView::WaitButton { timeout_ms: BUTTON_WAIT_MS }
        } else {
            WifiCommandView::Sleep { ms: CLIENT_PAUSE_MS }
        },
        (WifiPhase::AddressPause, WifiEvent::Elapsed) => WifiCommandView::CheckAddress,
        (WifiPhase::Listening, WifiEvent::Button(Some(ButtonEvent::ShortPress))) =>
            command_after_toggle(toggle_command(fresh_toggle(), path, host, ToggleEvent::Start)),
        (WifiPhase::Listening, WifiEvent::Button(_)) => WifiCommandView::Sleep {
            ms: CLIENT_PAUSE_MS,
        },
        (WifiPhase::Toggling, WifiEvent::Socket(e)) => command_after_toggle(
            toggle_command(s.toggle, path, host, e),
        ),
        (WifiPhase::Pausing, WifiEvent::Elapsed) => WifiCommandView::WaitButton {
            timeout_ms: BUTTON_WAIT_MS,
        },
        _ => WifiCommandView::Pending,
    }
}

impl WifiState {
    /// The client before it has booted.
    pub fn new() -> (s: WifiState)
        ensures
            s == (WifiState { phase: WifiPhase::Starting, toggle: fresh_toggle() }),
    {
        WifiState { phase: WifiPhase::Starting, toggle: ToggleState::new(API_RETRY_COUNT) }
    }

    /// Hands a step of the toggle sequence on to the runner of the client.
    fn relay(&mut self, step: ToggleStep) -> (out: WifiStep)
        ensures
            final(self).phase == phase_after_toggle(step@.command),
            final(self).toggle == old(self).toggle,
            out@.signals == step@.signals + signals_after_toggle(step@.command),
            out@.command == command_after_toggle(step@.command),
    {
        let mut signals = step.signals;
        match step.command {
            ToggleCommand::Finish(result) => {
                if result.is_err() {
                    signals.push(LedCommand::SetStatus(StatusColor::Yellow));
                }
                self.phase = WifiPhase::Pausing;
                WifiStep { signals, command: WifiCommand::Sleep { ms: CLIENT_PAUSE_MS } }
            },
            ToggleCommand::Pending => {
                self.phase = WifiPhase::Toggling;
                WifiStep { signals, command: WifiCommand::Pending }
            },
            command => {
                self.phase = WifiPhase::Toggling;
                WifiStep { signals, command: WifiCommand::Socket(command) }
            },
        }
    }
}

/// One transition of the network client.
///
/// On boot it signals blue and joins the network. If that fails or times out
/// it signals yellow and stops; else it signals green, starts the stack and
/// asks for the address every `CLIENT_PAUSE_MS` until there is one. From then
/// on it waits for button events: a short press runs a toggle sequence (see
/// `handle_clock_toggle`), after which it signals yellow if the sequence has
/// failed; a long press signals the rainbow. After each round it pauses for
/// `CLIENT_PAUSE_MS`. An event that is not the awaited one changes nothing.
pub fn wifi_task(state: &mut WifiState, cfg: &NetworkConfig, event: WifiEvent) -> (step: WifiStep)
    ensures
        *final(state) == wifi_next(*old(state), cfg.api_path, cfg.api_host, event),
        step@.signals == wifi_signals(*old(state), cfg.api_path, cfg.api_host, event),
        step@.command == wifi_command(*old(state), cfg.api_path, cfg.api_host, event),
{
    let mut signals: Vec<LedCommand> = Vec::new();
    let command = match (state.phase, event) {
        (WifiPhase::Starting, WifiEvent::Boot) => {
            signals.push(LedCommand::SetStatus(StatusColor::Blue));
            state.phase = WifiPhase::Joining;
            WifiCommand::Join { timeout_secs: WIFI_CONNECT_TIMEOUT_SECS }
        },
        (WifiPhase::Joining, WifiEvent::Join(IoOutcome::Done)) => {
            signals.push(LedCommand::SetStatus(StatusColor::Green));
            state.phase = WifiPhase::StartingStack;
            WifiCommand::StartStack
        },
        (WifiPhase::Joining, WifiEvent::Join(_)) => {
            signals.push(LedCommand::SetStatus(StatusColor::Yellow));
            state.phase = WifiPhase::Stopped;
            WifiCommand::Stop
        },
        (WifiPhase::StartingStack, WifiEvent::StackStarted) => {
            state.phase = WifiPhase::AwaitingAddress;
            WifiCommand::CheckAddress
        },
        (WifiPhase::AwaitingAddress, WifiEvent::Address(up)) => {
            if up {
                state.phase = WifiPhase::Listening;
                WifiCommand::WaitButton { timeout_ms: BUTTON_WAIT_MS }
            } else {
                state.phase = WifiPhase::AddressPause;
                WifiCommand::Sleep { ms: CLIENT_PAUSE_MS }
            }
        },
        (WifiPhase::AddressPause, WifiEvent::Elapsed) => {
            state.phase = WifiPhase::AwaitingAddress;
            WifiCommand::CheckAddress
        },
        (WifiPhase::Listening, WifiEvent::Button(Some(ButtonEvent::ShortPress))) => {
            state.toggle = ToggleState::new(API_RETRY_COUNT);
            let step = handle_clock_toggle(&mut state.toggle, cfg, ToggleEvent::Start);
            return state.relay(step);
        },
        (WifiPhase::Listening, WifiEvent::Button(pressed)) => {
            if pressed.is_some() {
                signals.push(LedCommand::Rainbow);
            }
            state.phase = WifiPhase::Pausing;
            WifiCommand::Sleep { ms: CLIENT_PAUSE_MS }
        },
        (WifiPhase::Toggling, WifiEvent::Socket(e)) => {
            let step = handle_clock_toggle(&mut state.toggle, cfg, e);
            return state.relay(step);
        },
        (WifiPhase::Pausing, WifiEvent::Elapsed) => {
            state.phase = WifiPhase::Listening;
            WifiCommand::WaitButton { timeout_ms: BUTTON_WAIT_MS }
        },
        _ => WifiCommand::Pending,
    };
    WifiStep { signals, command }
}

} // verus!
