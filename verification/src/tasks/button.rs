//! The push-button: debouncing and long-press detection.

use vstd::prelude::*;
use crate::config::{BUTTON_DEBOUNCE_MS, BUTTON_LONG_PRESS_MS, BUTTON_POLL_MS};

verus! {

/// A completed gesture on the button.
#[derive(Debug, Clone, Copy, PartialEq, Eq, Structural)]
pub enum ButtonEvent {
    ShortPress,
    LongPress,
}

/// Where the button stands.
#[derive(Debug, Clone, Copy, PartialEq, Eq, Structural)]
pub enum ButtonPhase {
    /// Not booted.
    Starting,
    /// Released; waiting for a press.
    Idle,
    /// Pressed; sampled at intervals until it is released or held long.
    Pressed,
    /// Held long; the long press has been emitted. Waiting for the release.
    Held,
}

/// State of the button. Times are in milliseconds on a clock that does not
/// run backwards.
#[derive(Debug, Clone, Copy, PartialEq, Eq, Structural)]
pub struct ButtonState {
    pub phase: ButtonPhase,
    /// When the last gesture was completed; at first, when the task booted.
    pub last_done_ms: u64,
    /// When the press in progress, or the last one, started.
    pub press_start_ms: u64,
}

/// What the runner reports to the button.
#[derive(Debug, Clone, Copy, PartialEq, Eq, Structural)]
pub enum ButtonInput {
    /// The task has started.
    Boot,
    /// The line went low: a press.
    FallingEdge,
    /// The sampling interval has elapsed, and this is the level of the line:
    /// high once the button is released.
    Poll { high: bool },
    /// The line went high: a release.
    RisingEdge,
}

/// What the runner of the button waits for next.
#[derive(Debug, Clone, Copy, PartialEq, Eq, Structural)]
pub enum ButtonWait {
    /// A falling edge.
    FallingEdge,
    /// This many milliseconds; then it samples the line.
    Poll { after_ms: u64 },
    /// A rising edge.
    RisingEdge,
    /// Nothing new: the input was not the one awaited.
    Pending,
}

/// One transition of the button: the event to signal, if any, and what to
/// wait for next.
#[derive(Debug, Clone, Copy, PartialEq, Eq)]
pub struct ButtonStep {
    pub emit: Option<ButtonEvent>,
    pub wait: ButtonWait,
}

/// The time from `since_ms` to `now_ms`; zero if `now_ms` is the earlier.
pub open spec fn elapsed_ms(now_ms: u64, since_ms: u64) -> int {
    if now_ms >= since_ms {
        now_ms - since_ms
    } else {
        0
    }
}

/// Whether a press that starts at `now_ms` counts: not if the last gesture
/// was completed less than `BUTTON_DEBOUNCE_MS` earlier.
pub open spec fn press_counts(s: ButtonState, now_ms: u64) -> bool {
    elapsed_ms(now_ms, s.last_done_ms) >= BUTTON_DEBOUNCE_MS
}

/// Whether the press in progress has lasted `BUTTON_LONG_PRESS_MS` at
/// `now_ms`.
pub open spec fn held_long(s: ButtonState, now_ms: u64) -> bool {
    elapsed_ms(now_ms, s.press_start_ms) >= BUTTON_LONG_PRESS_MS
}

/// The state of the button after `input` at `now_ms`.
pub open spec fn button_next(s: ButtonState, input: ButtonInput, now_ms: u64) -> ButtonState {
    match (s.phase, input) {
        (ButtonPhase::Starting, ButtonInput::Boot) => ButtonState {
            phase: ButtonPhase::Idle,
            last_done_ms: now_ms,
            ..s
        },
        (ButtonPhase::Idle, ButtonInput::FallingEdge) => if press_counts(s, now_ms) {
            ButtonState { phase: ButtonPhase::Pressed, press_start_ms: now_ms, ..s }
        } else {
            s
        },
        (ButtonPhase::Pressed, ButtonInput::Poll { high }) => if high {
            ButtonState { phase: ButtonPhase::Idle, last_done_ms: now_ms, ..s }
        } else if held_long(s, now_ms) {
            ButtonState { phase: ButtonPhase::Held, ..s }
        } else {
            s
        },
        (ButtonPhase::Held, ButtonInput::RisingEdge) => ButtonState {
            phase: ButtonPhase::Idle,
            last_done_ms: now_ms,
            ..s
        },
        _ => s,
    }
}

/// The event that the button in state `s` signals on `input` at `now_ms`.
pub open spec fn button_emits(s: ButtonState, input: ButtonInput, now_ms: u64) -> Option<
    ButtonEvent,
> {
    match (s.phase, input) {
        (ButtonPhase::Pressed, ButtonInput::Poll { high }) => if held_long(s, now_ms) {
            Some(ButtonEvent::LongPress)
        } else if high {
            Some(ButtonEvent::ShortPress)
        } else {
            None
        },
        _ => None,
    }
}

/// What the runner of the button in state `s` waits for after `input` at
/// `now_ms`.
pub open spec fn button_wait(s: ButtonState, input: ButtonInput, now_ms: u64) -> ButtonWait {
    match (s.phase, input) {
        (ButtonPhase::Starting, ButtonInput::Boot) => ButtonWait::FallingEdge,
        (ButtonPhase::Idle, ButtonInput::FallingEdge) => if press_counts(s, now_ms) {
            ButtonWait::Poll { after_ms: BUTTON_POLL_MS }
        } else {
            ButtonWait::FallingEdge
        },
        (ButtonPhase::Pressed, ButtonInput::Poll { high }) => if high {
            ButtonWait::FallingEdge
        } else if held_long(s, now_ms) {
            ButtonWait::RisingEdge
        } else {
            ButtonWait::Poll { after_ms: BUTTON_POLL_MS }
        },
        (ButtonPhase::Held, ButtonInput::RisingEdge) => ButtonWait::FallingEdge,
        _ => ButtonWait::Pending,
    }
}

/// The time from `since_ms` to `now_ms`.
fn elapsed(now_ms: u64, since_ms: u64) -> (ms: u64)
    ensures
        ms == elapsed_ms(now_ms, since_ms),
{
    if now_ms >= since_ms {
        now_ms - since_ms
    } else {
        0
    }
}

impl ButtonState {
    /// The button before its task has booted.
    pub fn new() -> (s: ButtonState)
        ensures
            s == (ButtonState {
                phase: ButtonPhase::Starting,
                last_done_ms: 0,
                press_start_ms: 0,
            }),
    {
        ButtonState { phase: ButtonPhase::Starting, last_done_ms: 0, press_start_ms: 0 }
    }
}

/// One transition of the button.
///
/// The boot counts as the end of a gesture. A press counts unless the last gesture was completed less than
/// `BUTTON_DEBOUNCE_MS` before it. From then on the line is sampled every
/// `BUTTON_POLL_MS`. A sample that finds the button released completes the
/// gesture: a long press if `BUTTON_LONG_PRESS_MS` have passed since the
/// press, a short press if not. A sample that finds it still pressed after
/// `BUTTON_LONG_PRESS_MS` signals the long press at once, and the gesture is
/// completed when the button is released. An input that is not the awaited
/// one changes nothing.
pub fn button_task(state: &mut ButtonState, input: ButtonInput, now_ms: u64) -> (step: ButtonStep)
    ensures
        *final(state) == button_next(*old(state), input, now_ms),
        step.emit == button_emits(*old(state), input, now_ms),
        step.wait == button_wait(*old(state), input, now_ms),
{
    match (state.phase, input) {
        (ButtonPhase::Starting, ButtonInput::Boot) => {
            state.phase = ButtonPhase::Idle;
            state.last_done_ms = now_ms;
            ButtonStep { emit: None, wait: ButtonWait::FallingEdge }
        },
        (ButtonPhase::Idle, ButtonInput::FallingEdge) => {
            if elapsed(now_ms, state.last_done_ms) < BUTTON_DEBOUNCE_MS {
                ButtonStep { emit: None, wait: ButtonWait::FallingEdge }
            } else {
                state.phase = ButtonPhase::Pressed;
                state.press_start_ms = now_ms;
                ButtonStep { emit: None, wait: ButtonWait::Poll { after_ms: BUTTON_POLL_MS } }
            }
        },
        (ButtonPhase::Pressed, ButtonInput::Poll { high }) => {
            let long = elapsed(now_ms, state.press_start_ms) >= BUTTON_LONG_PRESS_MS;
            if high {
                state.phase = ButtonPhase::Idle;
                state.last_done_ms = now_ms;
                let event = if long {
                    ButtonEvent::LongPress
                } else {
                    ButtonEvent::ShortPress
                };
                ButtonStep { emit: Some(event), wait: ButtonWait::FallingEdge }
            } else if long {
                state.phase = ButtonPhase::Held;
                ButtonStep { emit: Some(ButtonEvent::LongPress), wait: ButtonWait::RisingEdge }
            } else {
                ButtonStep { emit: None, wait: ButtonWait::Poll { after_ms: BUTTON_POLL_MS } }
            }
        },
        (ButtonPhase::Held, ButtonInput::RisingEdge) => {
            state.phase = ButtonPhase::Idle;
            state.last_done_ms = now_ms;
            ButtonStep { emit: None, wait: ButtonWait::FallingEdge }
        },
        _ => ButtonStep { emit: None, wait: ButtonWait::Pending },
    }
}

/// An input and the time at which the runner reports it.
pub struct TimedInput {
    pub input: ButtonInput,
    pub at_ms: u64,
}

/// Everything the button has done over a run of inputs.
pub struct ButtonTrace {
    /// The state after the last input.
    pub state: ButtonState,
    /// All events signalled, in order.
    pub events: Seq<ButtonEvent>,
}

/// No event, or the one event, as a sequence.
pub open spec fn as_seq(emit: Option<ButtonEvent>) -> Seq<ButtonEvent> {
    match emit {
        Some(event) => seq![event],
        None => Seq::empty(),
    }
}

/// Feeds `inputs` to the button in state `s`, one after the other.
pub open spec fn button_run(s: ButtonState, inputs: Seq<TimedInput>) -> ButtonTrace
    decreases inputs.len(),
{
    if inputs.len() == 0 {
        ButtonTrace { state: s, events: Seq::empty() }
    } else {
        let first = inputs[0];
        let rest = button_run(button_next(s, first.input, first.at_ms), inputs.drop_first());
        ButtonTrace {
            state: rest.state,
            events: as_seq(button_emits(s, first.input, first.at_ms)) + rest.events,
        }
    }
}

/// A press at `at_ms`.
pub open spec fn press(at_ms: u64) -> TimedInput {
    TimedInput { input: ButtonInput::FallingEdge, at_ms }
}

/// A sample at `at_ms` that finds the line at `high`.
pub open spec fn sample(high: bool, at_ms: u64) -> TimedInput {
    TimedInput { input: ButtonInput::Poll { high }, at_ms }
}

/// A release at `at_ms`, reported as an edge.
pub open spec fn release(at_ms: u64) -> TimedInput {
    TimedInput { input: ButtonInput::RisingEdge, at_ms }
}

/// Samples at `times` that all find the button pressed.
pub open spec fn pressed_samples(times: Seq<u64>) -> Seq<TimedInput> {
    Seq::new(times.len(), |i: int| sample(false, times[i]))
}

/// A run over `xs + ys` is the run over `xs` followed by the run over `ys`.
proof fn lemma_run_concat(s: ButtonState, xs: Seq<TimedInput>, ys: Seq<TimedInput>)
    ensures
        button_run(s, xs + ys).state == button_run(button_run(s, xs).state, ys).state,
        button_run(s, xs + ys).events == button_run(s, xs).events + button_run(
            button_run(s, xs).state,
            ys,
        ).events,
    decreases xs.len(),
{
    if xs.len() == 0 {
        assert(xs + ys =~= ys);
    } else {
        assert((xs + ys).drop_first() =~= xs.drop_first() + ys);
        lemma_run_concat(button_next(s, xs[0].input, xs[0].at_ms), xs.drop_first(), ys);
    }
}

/// A run over one input is one transition.
proof fn lemma_run_one(s: ButtonState, x: TimedInput)
    ensures
        button_run(s, seq![x]).state == button_next(s, x.input, x.at_ms),
        button_run(s, seq![x]).events == as_seq(button_emits(s, x.input, x.at_ms)),
{
    reveal_with_fuel(button_run, 2);
    assert(seq![x].drop_first() =~= Seq::<TimedInput>::empty());
}

/// Samples that find the button pressed before the long-press threshold
/// change nothing.
proof fn lemma_run_pressed_samples(s: ButtonState, times: Seq<u64>)
    requires
        s.phase == ButtonPhase::Pressed,
        forall|i: int| 0 <= i < times.len() ==> !held_long(s, #[trigger] times[i]),
    ensures
        button_run(s, pressed_samples(times)).state == s,
        button_run(s, pressed_samples(times)).events == Seq::<ButtonEvent>::empty(),
    decreases times.len(),
{
    if times.len() > 0 {
        assert(!held_long(s, times[0]));
        let rest = times.drop_first();
        assert forall|i: int| 0 <= i < rest.len() implies !held_long(s, #[trigger] rest[i]) by {
            assert(rest[i] == times[i + 1]);
        }
        assert(pressed_samples(times).drop_first() =~= pressed_samples(rest));
        lemma_run_pressed_samples(s, rest);
    }
}

/// While the button is held after its long press, only the release counts.
proof fn lemma_run_while_held(s: ButtonState, inputs: Seq<TimedInput>)
    requires
        s.phase == ButtonPhase::Held,
        forall|i: int| 0 <= i < inputs.len() ==> !((#[trigger] inputs[i]).input is RisingEdge),
    ensures
        button_run(s, inputs).state == s,
        button_run(s, inputs).events == Seq::<ButtonEvent>::empty(),
    decreases inputs.len(),
{
    if inputs.len() > 0 {
        assert(!(inputs[0].input is RisingEdge));
        let rest = inputs.drop_first();
        assert forall|i: int| 0 <= i < rest.len() implies !((#[trigger] rest[i]).input
            is RisingEdge) by {
            assert(rest[i] == inputs[i + 1]);
        }
        lemma_run_while_held(s, rest);
    }
}

/// A press that counts and is found released before the long-press threshold
/// gives exactly one event, a short press, however often it was sampled
/// before. The gesture is completed at the sample that found it released.
pub proof fn law_short_press_emits_one_short_press(
    s: ButtonState,
    start_ms: u64,
    samples: Seq<u64>,
    released_ms: u64,
)
    requires
        s.phase == ButtonPhase::Idle,
        press_counts(s, start_ms),
        forall|i: int|
            0 <= i < samples.len() ==> elapsed_ms(#[trigger] samples[i], start_ms)
                < BUTTON_LONG_PRESS_MS,
        elapsed_ms(released_ms, start_ms) < BUTTON_LONG_PRESS_MS,
    ensures
        ({
            let gesture = seq![press(start_ms)] + pressed_samples(samples) + seq![
                sample(true, released_ms),
            ];
            let trace = button_run(s, gesture);
            &&& trace.events == seq![ButtonEvent::ShortPress]
            &&& trace.state == (ButtonState {
                phase: ButtonPhase::Idle,
                last_done_ms: released_ms,
                press_start_ms: start_ms,
            })
        }),
{
    let pressed = button_next(s, ButtonInput::FallingEdge, start_ms);
    let head = seq![press(start_ms)];
    let tail = seq![sample(true, released_ms)];
    lemma_run_one(s, press(start_ms));
    assert forall|i: int| 0 <= i < samples.len() implies !held_long(
        pressed,
        #[trigger] samples[i],
    ) by {}
    lemma_run_pressed_samples(pressed, samples);
    lemma_run_one(pressed, sample(true, released_ms));
    lemma_run_concat(s, head, pressed_samples(samples));
    lemma_run_concat(s, head + pressed_samples(samples), tail);
    assert(button_run(s, head + pressed_samples(samples) + tail).events =~= seq![
        ButtonEvent::ShortPress,
    ]);
}

/// A press that counts and is still held at the long-press threshold gives
/// exactly one event, a long press, and gives it at the first sample at or
/// after the threshold, while the button is held: however long it is held
/// after that, and whatever but its release is reported meanwhile. The
/// gesture is completed at the release.
pub proof fn law_held_press_emits_one_long_press(
    s: ButtonState,
    start_ms: u64,
    samples: Seq<u64>,
    crossed_ms: u64,
    meanwhile: Seq<TimedInput>,
    released_ms: u64,
)
    requires
        s.phase == ButtonPhase::Idle,
        press_counts(s, start_ms),
        forall|i: int|
            0 <= i < samples.len() ==> elapsed_ms(#[trigger] samples[i], start_ms)
                < BUTTON_LONG_PRESS_MS,
        elapsed_ms(crossed_ms, start_ms) >= BUTTON_LONG_PRESS_MS,
        forall|i: int| 0 <= i < meanwhile.len() ==> !((#[trigger] meanwhile[i]).input is RisingEdge),
    ensures
        ({
            let held = seq![press(start_ms)] + pressed_samples(samples) + seq![
                sample(false, crossed_ms),
            ];
            let gesture = held + meanwhile + seq![release(released_ms)];
            &&& button_run(s, held).events == seq![ButtonEvent::LongPress]
            &&& button_run(s, held).state.phase == ButtonPhase::Held
            &&& button_run(s, gesture).events == seq![ButtonEvent::LongPress]
            &&& button_run(s, gesture).state == (ButtonState {
                phase: ButtonPhase::Idle,
                last_done_ms: released_ms,
                press_start_ms: start_ms,
            })
        }),
{
    let pressed = button_next(s, ButtonInput::FallingEdge, start_ms);
    let head = seq![press(start_ms)];
    let cross = seq![sample(false, crossed_ms)];
    let tail = seq![release(released_ms)];
    lemma_run_one(s, press(start_ms));
    assert forall|i: int| 0 <= i < samples.len() implies !held_long(
        pressed,
        #[trigger] samples[i],
    ) by {}
    lemma_run_pressed_samples(pressed, samples);
    lemma_run_one(pressed, sample(false, crossed_ms));
    let held_state = ButtonState { phase: ButtonPhase::Held, ..pressed };
    lemma_run_while_held(held_state, meanwhile);
    lemma_run_one(held_state, release(released_ms));
    let held = head + pressed_samples(samples) + cross;
    lemma_run_concat(s, head, pressed_samples(samples));
    lemma_run_concat(s, head + pressed_samples(samples), cross);
    assert(button_run(s, held).events =~= seq![ButtonEvent::LongPress]);
    lemma_run_concat(s, held, meanwhile);
    lemma_run_concat(s, held + meanwhile, tail);
    assert(button_run(s, held + meanwhile + tail).events =~= seq![ButtonEvent::LongPress]);
}

/// A press that counts and is first found released at or after the
/// long-press threshold gives exactly one event, a long press, at that
/// sample.
pub proof fn law_late_release_emits_one_long_press(
    s: ButtonState,
    start_ms: u64,
    samples: Seq<u64>,
    released_ms: u64,
)
    requires
        s.phase == ButtonPhase::Idle,
        press_counts(s, start_ms),
        forall|i: int|
            0 <= i < samples.len() ==> elapsed_ms(#[trigger] samples[i], start_ms)
                < BUTTON_LONG_PRESS_MS,
        elapsed_ms(released_ms, start_ms) >= BUTTON_LONG_PRESS_MS,
    ensures
        ({
            let gesture = seq![press(start_ms)] + pressed_samples(samples) + seq![
                sample(true, released_ms),
            ];
            let trace = button_run(s, gesture);
            &&& trace.events == seq![ButtonEvent::LongPress]
            &&& trace.state == (ButtonState {
                phase: ButtonPhase::Idle,
                last_done_ms: released_ms,
                press_start_ms: start_ms,
            })
        }),
{
    let pressed = button_next(s, ButtonInput::FallingEdge, start_ms);
    let head = seq![press(start_ms)];
    let tail = seq![sample(true, released_ms)];
    lemma_run_one(s, press(start_ms));
    assert forall|i: int| 0 <= i < samples.len() implies !held_long(
        pressed,
        #[trigger] samples[i],
    ) by {}
    lemma_run_pressed_samples(pressed, samples);
    lemma_run_one(pressed, sample(true, released_ms));
    lemma_run_concat(s, head, pressed_samples(samples));
    lemma_run_concat(s, head + pressed_samples(samples), tail);
    assert(button_run(s, head + pressed_samples(samples) + tail).events =~= seq![
        ButtonEvent::LongPress,
    ]);
}

/// A press that starts less than `BUTTON_DEBOUNCE_MS` after the last gesture
/// was completed is ignored: the button stays as it is, no event is
/// signalled, and the runner goes on waiting for a press.
pub proof fn law_press_within_debounce_is_ignored(s: ButtonState, at_ms: u64)
    requires
        s.phase == ButtonPhase::Idle,
        elapsed_ms(at_ms, s.last_done_ms) < BUTTON_DEBOUNCE_MS,
    ensures
        button_next(s, ButtonInput::FallingEdge, at_ms) == s,
        button_emits(s, ButtonInput::FallingEdge, at_ms) is None,
        button_wait(s, ButtonInput::FallingEdge, at_ms) == ButtonWait::FallingEdge,
        button_run(s, seq![press(at_ms)]) == (ButtonTrace { state: s, events: Seq::empty() }),
{
    lemma_run_one(s, press(at_ms));
    assert(button_run(s, seq![press(at_ms)]).events =~= Seq::<ButtonEvent>::empty());
}

/// What holds of the button from a press at `start_ms` that counted until
/// `until_ms`, less than `BUTTON_DEBOUNCE_MS` later: the gesture of that
/// press is in progress, or was completed no earlier than `start_ms`.
spec fn within_bounce(s: ButtonState, start_ms: u64, until_ms: u64) -> bool {
    &&& start_ms <= until_ms
    &&& until_ms - start_ms < BUTTON_DEBOUNCE_MS
    &&& s.phase == ButtonPhase::Idle ==> start_ms <= s.last_done_ms <= until_ms
}

/// Within the bounce interval a further press leaves no trace, whatever was
/// reported before it in that interval.
proof fn lemma_run_within_bounce(
    s: ButtonState,
    start_ms: u64,
    between: Seq<TimedInput>,
    again_ms: u64,
)
    requires
        within_bounce(s, start_ms, again_ms),
        forall|i: int|
            0 <= i < between.len() ==> start_ms <= (#[trigger] between[i]).at_ms <= again_ms,
    ensures
        button_run(s, between + seq![press(again_ms)]) == button_run(s, between),
    decreases between.len(),
{
    let last = seq![press(again_ms)];
    if between.len() == 0 {
        assert(between + last =~= last);
        lemma_run_one(s, press(again_ms));
        assert(button_run(s, last).events =~= button_run(s, between).events);
    } else {
        let first = between[0];
        let rest = between.drop_first();
        assert(start_ms <= first.at_ms <= again_ms);
        assert forall|i: int| 0 <= i < rest.len() implies start_ms <= (#[trigger] rest[i]).at_ms
            <= again_ms by {
            assert(rest[i] == between[i + 1]);
        }
        assert((between + last).drop_first() =~= rest + last);
        lemma_run_within_bounce(
            button_next(s, first.input, first.at_ms),
            start_ms,
            rest,
            again_ms,
        );
    }
}

/// Of two presses that start less than `BUTTON_DEBOUNCE_MS` apart, the
/// second is ignored: if the first one counted, then whatever is reported
/// between the two, the button is in the same state after the second press
/// as before it, and no event is signalled for it.
pub proof fn law_second_press_within_debounce_is_ignored(
    s: ButtonState,
    first_ms: u64,
    between: Seq<TimedInput>,
    second_ms: u64,
)
    requires
        s.phase == ButtonPhase::Idle,
        press_counts(s, first_ms),
        first_ms <= second_ms,
        second_ms - first_ms < BUTTON_DEBOUNCE_MS,
        forall|i: int|
            0 <= i < between.len() ==> first_ms <= (#[trigger] between[i]).at_ms <= second_ms,
    ensures
        button_run(s, seq![press(first_ms)] + between + seq![press(second_ms)]) == button_run(
            s,
            seq![press(first_ms)] + between,
        ),
{
    let head = seq![press(first_ms)];
    let last = seq![press(second_ms)];
    let pressed = button_next(s, ButtonInput::FallingEdge, first_ms);
    lemma_run_one(s, press(first_ms));
    lemma_run_within_bounce(pressed, first_ms, between, second_ms);
    lemma_run_concat(s, head, between);
    lemma_run_concat(s, head, between + last);
    assert(head + (between + last) =~= head + between + last);
}

} // verus!
