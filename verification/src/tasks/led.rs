//! The LED strip: a status pixel and a seven-pixel energy meter.

use vstd::prelude::*;
use crate::bounded::{pulse_seq, PULSE_CAPACITY};
use crate::color::{
    brightness_frame, dimmed, gamma_corrected, gamma_frame, hsv_color, hsv_to_rgb, Rgb,
};
use crate::config::{LED_BRIGHTNESS, LED_ENERGY_COUNT, LED_STATUS, NUM_LEDS};
use crate::ws2812::{encode_frame, frame_pulses, PulseCode};

verus! {

/// Colours of the status pixel.
#[derive(Debug, Clone, Copy, PartialEq, Eq, Structural)]
pub enum StatusColor {
    /// Clocked out.
    Red,
    /// Clocked in, or a request that succeeded.
    Green,
    /// Connecting.
    Blue,
    /// An error.
    Yellow,
    /// A request in flight.
    Purple,
    /// Dark.
    Off,
}

impl StatusColor {
    /// The fixed colour of each status.
    pub open spec fn rgb(self) -> Rgb {
        match self {
            StatusColor::Red => Rgb { r: 255, g: 0, b: 0 },
            StatusColor::Green => Rgb { r: 0, g: 255, b: 0 },
            StatusColor::Blue => Rgb { r: 0, g: 0, b: 255 },
            StatusColor::Yellow => Rgb { r: 255, g: 255, b: 0 },
            StatusColor::Purple => Rgb { r: 128, g: 0, b: 128 },
            StatusColor::Off => Rgb { r: 0, g: 0, b: 0 },
        }
    }

    /// The colour of this status.
    pub fn to_rgb(self) -> (c: Rgb)
        ensures
            c == self.rgb(),
    {
        match self {
            StatusColor::Red => Rgb::new(255, 0, 0),
            StatusColor::Green => Rgb::new(0, 255, 0),
            StatusColor::Blue => Rgb::new(0, 0, 255),
            StatusColor::Yellow => Rgb::new(255, 255, 0),
            StatusColor::Purple => Rgb::new(128, 0, 128),
            StatusColor::Off => Rgb::new(0, 0, 0),
        }
    }
}

/// What the strip can be told to show.
#[derive(Debug, Clone, Copy, PartialEq, Eq, Structural)]
pub enum LedCommand {
    /// Set the status pixel.
    SetStatus(StatusColor),
    /// Light this many energy pixels; more than seven counts as seven.
    SetEnergyMeter(u8),
    /// Play the rainbow animation.
    Rainbow,
}

/// Longest wait for a command, in milliseconds.
pub const COMMAND_WAIT_MS: u64 = 100;

/// Pause after each wait for a command, in milliseconds.
pub const REFRESH_PAUSE_MS: u64 = 50;

/// Time that each frame of the rainbow is held, in milliseconds.
pub const RAINBOW_FRAME_MS: u64 = 10;

/// Number of frames of the rainbow.
pub const RAINBOW_FRAMES: u16 = 256;

/// Hue of the first energy pixel, before its step is taken off.
pub const ENERGY_HUE_START: u8 = 120;

/// Step of the hue from one energy pixel to the next.
pub const ENERGY_HUE_STEP: u8 = 15;

/// Step of the hue from one pixel of the rainbow to the next.
pub const RAINBOW_HUE_STEP: u8 = 32;

/// Where the renderer stands.
#[derive(Debug, Clone, Copy, PartialEq, Eq, Structural)]
pub enum LedPhase {
    /// Not booted: the strip has not been sent anything.
    Starting,
    /// Waiting for a command.
    Listening,
    /// Pausing before it waits again.
    Resting,
    /// Playing the rainbow; `next` is the number of the frame to draw next.
    Animating { next: u16 },
}

/// What the runner reports to the renderer.
#[derive(Debug, Clone, Copy, PartialEq, Eq, Structural)]
pub enum LedEvent {
    /// The task has started.
    Boot,
    /// A command has arrived.
    Command(LedCommand),
    /// The wait for a command has timed out.
    Timeout,
    /// The pause has elapsed.
    Elapsed,
}

/// What the runner of the renderer waits for next.
#[derive(Debug, Clone, Copy, PartialEq, Eq, Structural)]
pub enum LedWait {
    /// A command, for this many milliseconds at most.
    Command { timeout_ms: u64 },
    /// This many milliseconds.
    Sleep { ms: u64 },
    /// Nothing new: the event was not the one awaited.
    Pending,
}

/// One transition of the renderer: the burst to transmit, if any, and what
/// to wait for after it.
#[derive(Debug)]
pub struct LedStep {
    pub frame: Option<heapless::Vec<PulseCode, PULSE_CAPACITY>>,
    pub wait: LedWait,
}

/// A `LedStep`, with the burst as its pulses.
pub struct LedStepView {
    pub frame: Option<Seq<PulseCode>>,
    pub wait: LedWait,
}

impl View for LedStep {
    type V = LedStepView;

    open spec fn view(&self) -> LedStepView {
        LedStepView {
            frame: match self.frame {
                Some(buf) => Some(pulse_seq(buf)),
                None => None,
            },
            wait: self.wait,
        }
    }
}

/// The renderer: the pixel buffer and what it remembers of past commands.
#[derive(Debug, Clone, Copy)]
pub struct LedState {
    pixels: [Rgb; NUM_LEDS],
    status_color: StatusColor,
    energy_level: u8,
    phase: LedPhase,
}

/// What contracts see of a `LedState`.
pub struct LedModel {
    /// The pixel buffer: the status pixel, then the seven energy pixels.
    pub pixels: Seq<Rgb>,
    /// The status that was set last.
    pub status: StatusColor,
    /// The energy level that was set last, at most seven.
    pub energy: u8,
    pub phase: LedPhase,
}

impl View for LedState {
    type V = LedModel;

    closed spec fn view(&self) -> LedModel {
        LedModel {
            pixels: self.pixels@,
            status: self.status_color,
            energy: self.energy_level,
            phase: self.phase,
        }
    }
}

/// An energy level as the meter shows it: seven at most.
pub open spec fn clamped_level(level: u8) -> u8 {
    if level > LED_ENERGY_COUNT {
        LED_ENERGY_COUNT as u8
    } else {
        level
    }
}

/// The hue of energy pixel `i`: from green towards red as `i` grows.
pub open spec fn energy_hue(i: int) -> u8 {
    (ENERGY_HUE_START - ENERGY_HUE_STEP * i) as u8
}

/// Pixel `i` of the meter at `level`: lit in its hue up to the level, dark
/// beyond it.
pub open spec fn energy_pixel(i: int, level: u8) -> Rgb {
    if i <= level {
        hsv_color(energy_hue(i), 255, LED_BRIGHTNESS)
    } else {
        Rgb::off()
    }
}

/// Pixel `i` of frame `frame` of the rainbow.
pub open spec fn rainbow_pixel(frame: int, i: int) -> Rgb {
    hsv_color(((frame + RAINBOW_HUE_STEP * i) % 256) as u8, 255, LED_BRIGHTNESS / 2)
}

/// Frame `frame` of the rainbow.
pub open spec fn rainbow_pixels(frame: int) -> Seq<Rgb> {
    Seq::new(NUM_LEDS as nat, |i: int| rainbow_pixel(frame, i))
}

/// The burst that shows `pixels`: gamma correction, then brightness, then
/// the wire format.
pub open spec fn rendered(pixels: Seq<Rgb>) -> Seq<PulseCode> {
    frame_pulses(dimmed(gamma_corrected(pixels), LED_BRIGHTNESS))
}

impl LedModel {
    /// The renderer after `SetStatus(color)`.
    pub open spec fn with_status(self, color: StatusColor) -> LedModel {
        LedModel {
            pixels: self.pixels.update(LED_STATUS as int, color.rgb()),
            status: color,
            ..self
        }
    }

    /// The renderer after `SetEnergyMeter(level)`.
    pub open spec fn with_energy(self, level: u8) -> LedModel {
        LedModel {
            pixels: Seq::new(
                NUM_LEDS as nat,
                |i: int|
                    if i == LED_STATUS {
                        self.pixels[i]
                    } else {
                        energy_pixel(i, clamped_level(level))
                    },
            ),
            energy: clamped_level(level),
            ..self
        }
    }

    /// The renderer with frame `frame` of the rainbow drawn.
    pub open spec fn with_rainbow(self, frame: int) -> LedModel {
        LedModel { pixels: rainbow_pixels(frame), ..self }
    }

    /// The renderer with the status pixel drawn again from the status that
    /// was set last.
    pub open spec fn with_status_restored(self) -> LedModel {
        LedModel { pixels: self.pixels.update(LED_STATUS as int, self.status.rgb()), ..self }
    }

    /// The renderer in another phase.
    pub open spec fn in_phase(self, phase: LedPhase) -> LedModel {
        LedModel { phase, ..self }
    }
}

/// The pixels after the status pixel is set to the colour of `color`.
fn draw_status(pixels: &[Rgb; NUM_LEDS], color: StatusColor) -> (out: [Rgb; NUM_LEDS])
    ensures
        out@ == pixels@.update(LED_STATUS as int, color.rgb()),
{
    let mut out = *pixels;
    out[LED_STATUS] = color.to_rgb();
    out
}

/// The pixels after the meter is set to `level`, which is seven at most.
fn draw_energy(pixels: &[Rgb; NUM_LEDS], level: u8) -> (out: [Rgb; NUM_LEDS])
    requires
        level <= LED_ENERGY_COUNT,
    ensures
        out@[LED_STATUS as int] == pixels@[LED_STATUS as int],
        forall|i: int| 1 <= i < NUM_LEDS ==> out@[i] == energy_pixel(i, level),
{
    let mut out = *pixels;
    let mut i: usize = 1;
    while i < NUM_LEDS
        invariant
            1 <= i <= NUM_LEDS,
            level <= LED_ENERGY_COUNT,
            out@[LED_STATUS as int] == pixels@[LED_STATUS as int],
            forall|j: int| 1 <= j < i ==> out@[j] == energy_pixel(j, level),
        decreases NUM_LEDS - i,
    {
        if i <= level as usize {
            let hue: u8 = ENERGY_HUE_START - ENERGY_HUE_STEP * (i as u8);
            out[i] = hsv_to_rgb(hue, 255, LED_BRIGHTNESS);
        } else {
            out[i] = Rgb::new(0, 0, 0);
        }
        i = i + 1;
    }
    out
}

/// Frame `frame` of the rainbow: pixel `i` has the hue `frame + 32 * i`,
/// which wraps around at 256, at full saturation and half the configured
/// brightness.
pub fn rainbow_frame(frame: u8) -> (out: [Rgb; NUM_LEDS])
    ensures
        out@ == rainbow_pixels(frame as int),
{
    let mut out = [Rgb::new(0, 0, 0); NUM_LEDS];
    let mut i: usize = 0;
    while i < NUM_LEDS
        invariant
            i <= NUM_LEDS,
            forall|j: int| 0 <= j < i ==> out@[j] == rainbow_pixel(frame as int, j),
        decreases NUM_LEDS - i,
    {
        let hue = frame.wrapping_add((i as u8) * RAINBOW_HUE_STEP);
        out[i] = hsv_to_rgb(hue, 255, LED_BRIGHTNESS / 2);
        i = i + 1;
    }
    assert(out@ =~= rainbow_pixels(frame as int));
    out
}

/// The burst that shows `pixels`: each pixel gamma-corrected, then scaled to
/// `LED_BRIGHTNESS`, then encoded.
pub fn render(pixels: &[Rgb; NUM_LEDS]) -> (buf: heapless::Vec<PulseCode, PULSE_CAPACITY>)
    ensures
        pulse_seq(buf) == rendered(pixels@),
        pulse_seq(buf).len() == 192,
{
    let corrected = gamma_frame(pixels);
    assert(corrected@ =~= gamma_corrected(pixels@));
    let adjusted = brightness_frame(corrected.as_slice(), LED_BRIGHTNESS);
    encode_frame(adjusted.as_slice())
}

impl LedState {
    /// What holds of every renderer: the energy level is seven at most, and
    /// but for the time of the rainbow the status pixel shows the status
    /// that was set last.
    #[verifier::type_invariant]
    spec fn well_formed(self) -> bool {
        &&& self.energy_level <= LED_ENERGY_COUNT
        &&& !(self.phase is Animating) ==> self.pixels@[LED_STATUS as int]
            == self.status_color.rgb()
    }

    /// The renderer at power-up: the status pixel blue for "connecting", the
    /// meter dark, not booted.
    pub fn new() -> (s: LedState)
        ensures
            s@.pixels.len() == NUM_LEDS,
            s@.pixels[LED_STATUS as int] == StatusColor::Blue.rgb(),
            forall|i: int| 1 <= i < NUM_LEDS ==> s@.pixels[i] == Rgb::off(),
            s@.status == StatusColor::Blue,
            s@.energy == 0,
            s@.phase == LedPhase::Starting,
    {
        let dark = [Rgb::new(0, 0, 0); NUM_LEDS];
        LedState {
            pixels: draw_status(&dark, StatusColor::Blue),
            status_color: StatusColor::Blue,
            energy_level: 0,
            phase: LedPhase::Starting,
        }
    }

    /// The pixel buffer: eight pixels, of which the first shows the status
    /// that was set last, but for the time of the rainbow.
    pub fn pixels(&self) -> (p: [Rgb; NUM_LEDS])
        ensures
            p@ == self@.pixels,
            p@.len() == NUM_LEDS,
            !(self@.phase is Animating) ==> p@[LED_STATUS as int] == self@.status.rgb(),
    {
        proof {
            use_type_invariant(self);
        }
        self.pixels
    }

    /// The status that was set last.
    pub fn status_color(&self) -> (c: StatusColor)
        ensures
            c == self@.status,
    {
        self.status_color
    }

    /// The energy level that was set last: seven at most.
    pub fn energy_level(&self) -> (level: u8)
        ensures
            level == self@.energy,
            level <= LED_ENERGY_COUNT,
    {
        proof {
            use_type_invariant(self);
        }
        self.energy_level
    }

    /// Where the renderer stands.
    pub fn phase(&self) -> (phase: LedPhase)
        ensures
            phase == self@.phase,
    {
        self.phase
    }

    /// Sets the status pixel to the colour of `color`, and remembers it.
    pub fn set_status(&mut self, color: StatusColor)
        ensures
            final(self)@ == old(self)@.with_status(color),
    {
        proof {
            use_type_invariant(&*self);
        }
        *self = LedState {
            pixels: draw_status(&self.pixels, color),
            status_color: color,
            energy_level: self.energy_level,
            phase: self.phase,
        };
    }

    /// Lights the first `level` energy pixels, seven at most, each in its
    /// hue, and darkens the others. The status pixel stays.
    pub fn set_energy_meter(&mut self, level: u8)
        ensures
            final(self)@ == old(self)@.with_energy(level),
    {
        proof {
            use_type_invariant(&*self);
        }
        let level: u8 = if level > 7 {
            7
        } else {
            level
        };
        *self = LedState {
            pixels: draw_energy(&self.pixels, level),
            status_color: self.status_color,
            energy_level: level,
            phase: self.phase,
        };
        assert(self@.pixels =~= old(self)@.with_energy(level).pixels);
    }

    /// The burst that shows the buffer as it is, without correction.
    pub fn raw_frame(&self) -> (buf: heapless::Vec<PulseCode, PULSE_CAPACITY>)
        ensures
            pulse_seq(buf) == frame_pulses(self@.pixels),
            pulse_seq(buf).len() == 192,
    {
        encode_frame(&self.pixels)
    }

    /// The burst that shows the buffer: each pixel gamma-corrected, then
    /// scaled to `LED_BRIGHTNESS`, then encoded.
    pub fn render(&self) -> (buf: heapless::Vec<PulseCode, PULSE_CAPACITY>)
        ensures
            pulse_seq(buf) == rendered(self@.pixels),
            pulse_seq(buf).len() == 192,
    {
        render(&self.pixels)
    }

    /// The renderer in another phase, which is not that of the rainbow.
    fn enter(&mut self, phase: LedPhase)
        requires
            !(phase is Animating),
            old(self).phase is Animating ==> old(self).pixels@[LED_STATUS as int] == old(
                self,
            ).status_color.rgb(),
        ensures
            final(self)@ == old(self)@.in_phase(phase),
    {
        proof {
            use_type_invariant(&*self);
        }
        *self = LedState {
            pixels: self.pixels,
            status_color: self.status_color,
            energy_level: self.energy_level,
            phase,
        };
    }

    /// The renderer with frame `frame` of the rainbow drawn, about to draw
    /// the frame after it.
    fn animate(&mut self, frame: u8)
        ensures
            final(self)@ == old(self)@.with_rainbow(frame as int).in_phase(
                LedPhase::Animating { next: (frame + 1) as u16 },
            ),
    {
        proof {
            use_type_invariant(&*self);
        }
        *self = LedState {
            pixels: rainbow_frame(frame),
            status_color: self.status_color,
            energy_level: self.energy_level,
            phase: LedPhase::Animating { next: frame as u16 + 1 },
        };
    }

    /// The renderer after the rainbow: the status pixel is drawn again from
    /// the status that was set last, and the renderer listens.
    fn end_rainbow(&mut self)
        ensures
            final(self)@ == old(self)@.with_status_restored().in_phase(LedPhase::Listening),
    {
        proof {
            use_type_invariant(&*self);
        }
        *self = LedState {
            pixels: draw_status(&self.pixels, self.status_color),
            status_color: self.status_color,
            energy_level: self.energy_level,
            phase: LedPhase::Listening,
        };
    }
}

/// The renderer after `event`.
pub open spec fn led_next(m: LedModel, event: LedEvent) -> LedModel {
    match (m.phase, event) {
        (LedPhase::Starting, LedEvent::Boot) => m.in_phase(LedPhase::Listening),
        (LedPhase::Listening, LedEvent::Command(LedCommand::SetStatus(color))) => m.with_status(
            color,
        ).in_phase(LedPhase::Resting),
        (LedPhase::Listening, LedEvent::Command(LedCommand::SetEnergyMeter(level))) =>
            m.with_energy(level).in_phase(LedPhase::Resting),
        (LedPhase::Listening, LedEvent::Command(LedCommand::Rainbow)) => m.with_rainbow(
            0,
        ).in_phase(LedPhase::Animating { next: 1 }),
        (LedPhase::Listening, LedEvent::Timeout) => m.in_phase(LedPhase::Resting),
        (LedPhase::Resting, LedEvent::Elapsed) => m.in_phase(LedPhase::Listening),
        (LedPhase::Animating { next }, LedEvent::Elapsed) => if next < RAINBOW_FRAMES {
            m.with_rainbow(next as int).in_phase(LedPhase::Animating { next: (next + 1) as u16 })
        } else {
            m.with_status_restored().in_phase(LedPhase::Listening)
        },
        _ => m,
    }
}

/// The burst that the renderer in state `m` transmits on `event`, if any:
/// on boot the buffer as it is, without correction; after a command that it
/// awaited, and for each frame of the rainbow, the new buffer rendered.
pub open spec fn led_frame(m: LedModel, event: LedEvent) -> Option<Seq<PulseCode>> {
    match (m.phase, event) {
        (LedPhase::Starting, LedEvent::Boot) => Some(frame_pulses(m.pixels)),
        (LedPhase::Listening, LedEvent::Command(_)) => Some(rendered(led_next(m, event).pixels)),
        (LedPhase::Animating { next }, LedEvent::Elapsed) => if next < RAINBOW_FRAMES {
            Some(rendered(led_next(m, event).pixels))
        } else {
            None
        },
        _ => None,
    }
}

/// What the runner of the renderer in state `m` waits for after `event`.
pub open spec fn led_wait(m: LedModel, event: LedEvent) -> LedWait {
    match (m.phase, event) {
        (LedPhase::Starting, LedEvent::Boot) => LedWait::Command { timeout_ms: COMMAND_WAIT_MS },
        (LedPhase::Listening, LedEvent::Command(LedCommand::Rainbow)) => LedWait::Sleep {
            ms: RAINBOW_FRAME_MS,
        },
        (LedPhase::Listening, LedEvent::Command(_)) => LedWait::Sleep { ms: REFRESH_PAUSE_MS },
        (LedPhase::Listening, LedEvent::Timeout) => LedWait::Sleep { ms: REFRESH_PAUSE_MS },
        (LedPhase::Resting, LedEvent::Elapsed) => LedWait::Command { timeout_ms: COMMAND_WAIT_MS },
        (LedPhase::Animating { next }, LedEvent::Elapsed) => if next < RAINBOW_FRAMES {
            LedWait::Sleep { ms: RAINBOW_FRAME_MS }
        } else {
            LedWait::Command { timeout_ms: COMMAND_WAIT_MS }
        },
        _ => LedWait::Pending,
    }
}

/// One transition of the renderer.
///
/// On boot the buffer is transmitted as it is, without correction. While the
/// renderer listens, `SetStatus` and `SetEnergyMeter` change the buffer, the
/// new buffer is rendered and transmitted, and the renderer pauses for
/// `REFRESH_PAUSE_MS`, as it does when no command came in time. `Rainbow`
/// draws, renders and transmits one frame every `RAINBOW_FRAME_MS`,
/// `RAINBOW_FRAMES` in all; then the status pixel is drawn again from the
/// status that was set last, the energy pixels stay as the last frame left
/// them, nothing is transmitted, and the renderer listens again at once. An
/// event that is not the awaited one changes nothing.
pub fn led_task(state: &mut LedState, event: LedEvent) -> (step: LedStep)
    ensures
        final(state)@ == led_next(old(state)@, event),
        step@.frame == led_frame(old(state)@, event),
        step@.frame matches Some(pulses) ==> pulses.len() == 192,
        step@.wait == led_wait(old(state)@, event),
{
    proof {
        use_type_invariant(&*state);
    }
    match (state.phase, event) {
        (LedPhase::Starting, LedEvent::Boot) => {
            state.enter(LedPhase::Listening);
            LedStep {
                frame: Some(state.raw_frame()),
                wait: LedWait::Command { timeout_ms: COMMAND_WAIT_MS },
            }
        },
        (LedPhase::Listening, LedEvent::Command(LedCommand::SetStatus(color))) => {
            state.set_status(color);
            state.enter(LedPhase::Resting);
            LedStep { frame: Some(state.render()), wait: LedWait::Sleep { ms: REFRESH_PAUSE_MS } }
        },
        (LedPhase::Listening, LedEvent::Command(LedCommand::SetEnergyMeter(level))) => {
            state.set_energy_meter(level);
            state.enter(LedPhase::Resting);
            LedStep { frame: Some(state.render()), wait: LedWait::Sleep { ms: REFRESH_PAUSE_MS } }
        },
        (LedPhase::Listening, LedEvent::Command(LedCommand::Rainbow)) => {
            state.animate(0);
            LedStep { frame: Some(state.render()), wait: LedWait::Sleep { ms: RAINBOW_FRAME_MS } }
        },
        (LedPhase::Listening, LedEvent::Timeout) => {
            state.enter(LedPhase::Resting);
            LedStep { frame: None, wait: LedWait::Sleep { ms: REFRESH_PAUSE_MS } }
        },
        (LedPhase::Resting, LedEvent::Elapsed) => {
            state.enter(LedPhase::Listening);
            LedStep { frame: None, wait: LedWait::Command { timeout_ms: COMMAND_WAIT_MS } }
        },
        (LedPhase::Animating { next }, LedEvent::Elapsed) => {
            if next < RAINBOW_FRAMES {
                state.animate(next as u8);
                LedStep {
                    frame: Some(state.render()),
                    wait: LedWait::Sleep { ms: RAINBOW_FRAME_MS },
                }
            } else {
                state.end_rainbow();
                LedStep { frame: None, wait: LedWait::Command { timeout_ms: COMMAND_WAIT_MS } }
            }
        },
        _ => LedStep { frame: None, wait: LedWait::Pending },
    }
}

/// An energy level above seven is shown as seven: the renderer ends in the
/// same state, transmits the same frame and waits for the same thing.
pub proof fn law_energy_level_saturates(m: LedModel, level: u8)
    requires
        level > 7,
    ensures
        m.with_energy(level) == m.with_energy(7),
        led_next(m, LedEvent::Command(LedCommand::SetEnergyMeter(level))) == led_next(
            m,
            LedEvent::Command(LedCommand::SetEnergyMeter(7)),
        ),
        led_frame(m, LedEvent::Command(LedCommand::SetEnergyMeter(level))) == led_frame(
            m,
            LedEvent::Command(LedCommand::SetEnergyMeter(7)),
        ),
        led_wait(m, LedEvent::Command(LedCommand::SetEnergyMeter(level))) == led_wait(
            m,
            LedEvent::Command(LedCommand::SetEnergyMeter(7)),
        ),
{
    assert(m.with_energy(level).pixels =~= m.with_energy(7).pixels);
}

/// At energy level zero all seven energy pixels are dark.
pub proof fn law_energy_level_zero_is_dark(m: LedModel)
    ensures
        forall|i: int| 1 <= i < NUM_LEDS ==> m.with_energy(0).pixels[i] == Rgb::off(),
{
}

/// At an energy level of seven or less, energy pixel `i` up to the level has
/// the colour of hue `120 - 15 * i` at full saturation and at the configured
/// brightness, each pixel beyond the level is dark, and the status pixel is
/// as it was.
pub proof fn law_energy_gradient(m: LedModel, level: u8, i: int)
    requires
        m.pixels.len() == NUM_LEDS,
        level <= 7,
        0 <= i < NUM_LEDS,
    ensures
        m.with_energy(level).pixels.len() == NUM_LEDS,
        i == 0 ==> m.with_energy(level).pixels[i] == m.pixels[0],
        1 <= i <= level ==> m.with_energy(level).pixels[i] == hsv_color(
            (120 - 15 * i) as u8,
            255,
            LED_BRIGHTNESS,
        ),
        i > level ==> m.with_energy(level).pixels[i] == (Rgb { r: 0, g: 0, b: 0 }),
{
}

/// The status pixel shows the status that was set last, whatever is done to
/// the energy meter.
pub proof fn law_status_survives_energy(m: LedModel, color: StatusColor, level: u8)
    requires
        m.pixels.len() == NUM_LEDS,
    ensures
        m.with_status(color).with_energy(level).pixels[LED_STATUS as int] == color.rgb(),
        m.with_status(color).with_energy(level).status == color,
{
}

/// Everything the renderer has done over a run of events.
pub struct LedTrace {
    /// The renderer after the last event.
    pub state: LedModel,
    /// All bursts transmitted, in order.
    pub frames: Seq<Seq<PulseCode>>,
}

/// No burst, or the one burst, as a sequence.
pub open spec fn as_frames(frame: Option<Seq<PulseCode>>) -> Seq<Seq<PulseCode>> {
    match frame {
        Some(pulses) => seq![pulses],
        None => Seq::empty(),
    }
}

/// Feeds `events` to the renderer in state `m`, one after the other.
pub open spec fn led_run(m: LedModel, events: Seq<LedEvent>) -> LedTrace
    decreases events.len(),
{
    if events.len() == 0 {
        LedTrace { state: m, frames: Seq::empty() }
    } else {
        let rest = led_run(led_next(m, events[0]), events.drop_first());
        LedTrace { state: rest.state, frames: as_frames(led_frame(m, events[0])) + rest.frames }
    }
}

/// `count` pauses that elapse one after the other.
pub open spec fn pauses(count: nat) -> Seq<LedEvent> {
    Seq::new(count, |i: int| LedEvent::Elapsed)
}

/// The frames of the rainbow from `first` on, rendered.
pub open spec fn rainbow_bursts(first: int) -> Seq<Seq<PulseCode>> {
    Seq::new((RAINBOW_FRAMES - first) as nat, |i: int| rendered(rainbow_pixels(first + i)))
}

/// From any frame on, the rainbow plays each remaining frame once, in order.
proof fn lemma_run_rainbow(m: LedModel, next: u16)
    requires
        1 <= next <= RAINBOW_FRAMES,
        m.phase == (LedPhase::Animating { next }),
    ensures
        led_run(m, pauses((RAINBOW_FRAMES - next) as nat)).frames == rainbow_bursts(next as int),
        led_run(m, pauses((RAINBOW_FRAMES - next) as nat)).state == (if next < RAINBOW_FRAMES {
            m.with_rainbow(RAINBOW_FRAMES - 1).in_phase(
                LedPhase::Animating { next: RAINBOW_FRAMES },
            )
        } else {
            m
        }),
    decreases RAINBOW_FRAMES - next,
{
    let left = (RAINBOW_FRAMES - next) as nat;
    if next < RAINBOW_FRAMES {
        let after = led_next(m, LedEvent::Elapsed);
        assert(pauses(left).drop_first() =~= pauses((left - 1) as nat));
        lemma_run_rainbow(after, (next + 1) as u16);
        assert(led_run(m, pauses(left)).frames =~= rainbow_bursts(next as int));
    } else {
        assert(led_run(m, pauses(left)).frames =~= rainbow_bursts(next as int));
    }
}

/// The rainbow transmits its 256 frames, each once and in order, one per
/// pause. When the pause after the last frame has elapsed, the status pixel
/// shows again the status that was set last, the energy pixels are those of
/// the last frame, nothing more is transmitted, and the renderer listens.
pub proof fn law_rainbow_plays_every_frame_once(m: LedModel)
    requires
        m.phase == LedPhase::Listening,
    ensures
        ({
            let events = seq![LedEvent::Command(LedCommand::Rainbow)] + pauses(
                RAINBOW_FRAMES as nat,
            );
            let trace = led_run(m, events);
            &&& trace.frames == rainbow_bursts(0)
            &&& trace.frames.len() == RAINBOW_FRAMES
            &&& trace.state == (LedModel {
                pixels: rainbow_pixels(RAINBOW_FRAMES - 1).update(
                    LED_STATUS as int,
                    m.status.rgb(),
                ),
                phase: LedPhase::Listening,
                ..m
            })
        }),
{
    let start = LedEvent::Command(LedCommand::Rainbow);
    let events = seq![start] + pauses(RAINBOW_FRAMES as nat);
    let first = led_next(m, start);
    let playing = pauses((RAINBOW_FRAMES - 1) as nat);
    let last = seq![LedEvent::Elapsed];
    assert(events.drop_first() =~= playing + last);
    lemma_run_rainbow(first, 1);
    reveal_with_fuel(led_run, 2);
    assert(last.drop_first() =~= Seq::<LedEvent>::empty());
    lemma_led_run_concat(first, playing, last);
    assert(led_run(m, events).frames =~= rainbow_bursts(0));
}

/// A run over `xs + ys` is the run over `xs` followed by the run over `ys`.
proof fn lemma_led_run_concat(m: LedModel, xs: Seq<LedEvent>, ys: Seq<LedEvent>)
    ensures
        led_run(m, xs + ys).state == led_run(led_run(m, xs).state, ys).state,
        led_run(m, xs + ys).frames == led_run(m, xs).frames + led_run(
            led_run(m, xs).state,
            ys,
        ).frames,
    decreases xs.len(),
{
    if xs.len() == 0 {
        assert(xs + ys =~= ys);
    } else {
        assert((xs + ys).drop_first() =~= xs.drop_first() + ys);
        lemma_led_run_concat(led_next(m, xs[0]), xs.drop_first(), ys);
    }
}

} // verus!
