use wall_clock_in::color::Rgb;
use wall_clock_in::config::{LED_BRIGHTNESS, NUM_LEDS};
use wall_clock_in::tasks::led::{
    led_task, rainbow_frame, render, LedCommand, LedEvent, LedPhase, LedState, LedWait,
    StatusColor, COMMAND_WAIT_MS, RAINBOW_FRAMES, RAINBOW_FRAME_MS, REFRESH_PAUSE_MS,
};
use wall_clock_in::ws2812::{encode_frame, pulse_for, PulseCode};

const OFF: Rgb = Rgb { r: 0, g: 0, b: 0 };

/// The seven colours of the full energy meter, first pixel first.
const GRADIENT: [Rgb; 7] = [
    Rgb { r: 0, g: 128, b: 60 },
    Rgb { r: 0, g: 128, b: 15 },
    Rgb { r: 30, g: 128, b: 0 },
    Rgb { r: 75, g: 128, b: 0 },
    Rgb { r: 120, g: 128, b: 0 },
    Rgb { r: 128, g: 90, b: 0 },
    Rgb { r: 128, g: 45, b: 0 },
];

const ONE: PulseCode = PulseCode { level1: true, length1: 32, level2: false, length2: 14 };
const ZERO: PulseCode = PulseCode { level1: true, length1: 14, level2: false, length2: 32 };

/// The pulses of `pixels`, worked out bit by bit.
fn pulses_of(pixels: &[Rgb]) -> Vec<PulseCode> {
    let mut out = Vec::new();
    for pixel in pixels {
        for byte in [pixel.g, pixel.r, pixel.b] {
            for weight in [128u8, 64, 32, 16, 8, 4, 2, 1] {
                out.push(if byte & weight != 0 { ONE } else { ZERO });
            }
        }
    }
    out
}

/// A renderer that has booted and listens.
fn booted() -> LedState {
    let mut state = LedState::new();
    let step = led_task(&mut state, LedEvent::Boot);
    assert!(step.frame.is_some());
    assert_eq!(state.phase(), LedPhase::Listening);
    state
}

/// Sends `command` to a listening renderer and lets its pause elapse.
fn send(state: &mut LedState, command: LedCommand) -> Vec<PulseCode> {
    let step = led_task(state, LedEvent::Command(command));
    assert_eq!(step.wait, LedWait::Sleep { ms: REFRESH_PAUSE_MS });
    let frame = step.frame.expect("a command is followed by a frame");
    let step = led_task(state, LedEvent::Elapsed);
    assert_eq!(step.wait, LedWait::Command { timeout_ms: COMMAND_WAIT_MS });
    assert!(step.frame.is_none());
    frame.as_slice().to_vec()
}

#[test]
fn status_colours_are_fixed() {
    assert_eq!(StatusColor::Red.to_rgb(), Rgb { r: 255, g: 0, b: 0 });
    assert_eq!(StatusColor::Green.to_rgb(), Rgb { r: 0, g: 255, b: 0 });
    assert_eq!(StatusColor::Blue.to_rgb(), Rgb { r: 0, g: 0, b: 255 });
    assert_eq!(StatusColor::Yellow.to_rgb(), Rgb { r: 255, g: 255, b: 0 });
    assert_eq!(StatusColor::Purple.to_rgb(), Rgb { r: 128, g: 0, b: 128 });
    assert_eq!(StatusColor::Off.to_rgb(), OFF);
}

#[test]
fn rgb_new_keeps_its_channels() {
    assert_eq!(Rgb::new(1, 2, 3), Rgb { r: 1, g: 2, b: 3 });
}

#[test]
fn renderer_starts_blue_and_dark() {
    let state = LedState::new();
    let pixels = state.pixels();
    assert_eq!(pixels.len(), NUM_LEDS);
    assert_eq!(pixels[0], Rgb { r: 0, g: 0, b: 255 });
    for pixel in &pixels[1..] {
        assert_eq!(*pixel, OFF);
    }
    assert_eq!(state.status_color(), StatusColor::Blue);
    assert_eq!(state.energy_level(), 0);
    assert_eq!(state.phase(), LedPhase::Starting);
}

#[test]
fn boot_sends_the_first_frame_without_correction() {
    let mut state = LedState::new();
    let step = led_task(&mut state, LedEvent::Boot);
    let frame = step.frame.expect("the strip is sent its first frame");
    let mut expected = [OFF; 8];
    expected[0] = Rgb { r: 0, g: 0, b: 255 };
    assert_eq!(frame.as_slice(), pulses_of(&expected).as_slice());
    assert_eq!(step.wait, LedWait::Command { timeout_ms: COMMAND_WAIT_MS });
    assert_eq!(state.phase(), LedPhase::Listening);
    assert_eq!(state.pixels(), expected);

    let step = led_task(&mut state, LedEvent::Boot);
    assert!(step.frame.is_none());
    assert_eq!(step.wait, LedWait::Pending);
}

#[test]
fn renderer_that_has_not_booted_takes_no_command() {
    let mut state = LedState::new();
    for event in [
        LedEvent::Command(LedCommand::SetStatus(StatusColor::Red)),
        LedEvent::Timeout,
        LedEvent::Elapsed,
    ] {
        let step = led_task(&mut state, event);
        assert!(step.frame.is_none());
        assert_eq!(step.wait, LedWait::Pending);
        assert_eq!(state.phase(), LedPhase::Starting);
        assert_eq!(state.pixels()[0], Rgb { r: 0, g: 0, b: 255 });
    }
}

#[test]
fn status_blue_then_energy_three() {
    let mut state = LedState::new();
    state.set_status(StatusColor::Blue);
    state.set_energy_meter(3);
    let pixels = state.pixels();
    assert_eq!(pixels[0], Rgb { r: 0, g: 0, b: 255 });
    assert_eq!(pixels[1], Rgb { r: 0, g: 128, b: 60 });
    assert_eq!(pixels[2], Rgb { r: 0, g: 128, b: 15 });
    assert_eq!(pixels[3], Rgb { r: 30, g: 128, b: 0 });
    for pixel in &pixels[4..] {
        assert_eq!(*pixel, OFF);
    }
    assert_eq!(state.energy_level(), 3);
}

#[test]
fn energy_pixels_follow_the_gradient_at_every_level() {
    for level in 0..=7u8 {
        let mut state = LedState::new();
        state.set_status(StatusColor::Red);
        state.set_energy_meter(level);
        let pixels = state.pixels();
        assert_eq!(pixels[0], Rgb { r: 255, g: 0, b: 0 });
        for i in 1..NUM_LEDS {
            let expected = if i <= level as usize { GRADIENT[i - 1] } else { OFF };
            assert_eq!(pixels[i], expected, "level {level}, pixel {i}");
        }
        assert_eq!(state.energy_level(), level);
    }
}

#[test]
fn energy_above_seven_is_shown_as_seven() {
    let mut seven = LedState::new();
    seven.set_energy_meter(7);
    for level in [8u8, 9, 100, 255] {
        let mut state = LedState::new();
        state.set_energy_meter(level);
        assert_eq!(state.pixels(), seven.pixels(), "level {level}");
        assert_eq!(state.energy_level(), 7);
    }
}

#[test]
fn energy_zero_darkens_the_meter() {
    let mut state = LedState::new();
    state.set_energy_meter(7);
    state.set_energy_meter(0);
    let pixels = state.pixels();
    assert_eq!(pixels[0], Rgb { r: 0, g: 0, b: 255 });
    for pixel in &pixels[1..] {
        assert_eq!(*pixel, OFF);
    }
}

#[test]
fn lowering_the_level_darkens_the_pixels_above_it() {
    let mut state = LedState::new();
    state.set_energy_meter(6);
    state.set_energy_meter(2);
    let pixels = state.pixels();
    assert_eq!(pixels[1], GRADIENT[0]);
    assert_eq!(pixels[2], GRADIENT[1]);
    for pixel in &pixels[3..] {
        assert_eq!(*pixel, OFF);
    }
}

#[test]
fn status_pixel_is_independent_of_the_meter() {
    let mut state = LedState::new();
    state.set_energy_meter(5);
    state.set_status(StatusColor::Purple);
    let pixels = state.pixels();
    assert_eq!(pixels[0], Rgb { r: 128, g: 0, b: 128 });
    assert_eq!(&pixels[1..6], &GRADIENT[..5]);
    state.set_energy_meter(1);
    assert_eq!(state.pixels()[0], Rgb { r: 128, g: 0, b: 128 });
    assert_eq!(state.status_color(), StatusColor::Purple);
}

#[test]
fn rainbow_frames_have_the_expected_colours() {
    assert_eq!(
        rainbow_frame(0),
        [
            Rgb { r: 64, g: 0, b: 0 },
            Rgb { r: 64, g: 48, b: 0 },
            Rgb { r: 31, g: 64, b: 0 },
            Rgb { r: 0, g: 64, b: 16 },
            Rgb { r: 0, g: 63, b: 64 },
            Rgb { r: 0, g: 15, b: 64 },
            Rgb { r: 33, g: 0, b: 64 },
            Rgb { r: 64, g: 0, b: 46 },
        ]
    );
    // The hue wraps around: pixel 2 of frame 200 has hue 200 + 64 - 256 = 8.
    assert_eq!(
        rainbow_frame(200),
        [
            Rgb { r: 45, g: 0, b: 64 },
            Rgb { r: 64, g: 0, b: 34 },
            Rgb { r: 64, g: 12, b: 0 },
            Rgb { r: 64, g: 60, b: 0 },
            Rgb { r: 19, g: 64, b: 0 },
            Rgb { r: 0, g: 64, b: 28 },
            Rgb { r: 0, g: 51, b: 64 },
            Rgb { r: 0, g: 3, b: 64 },
        ]
    );
    assert_eq!(LED_BRIGHTNESS / 2, 64);
}

#[test]
fn neighbouring_rainbow_frames_differ() {
    for frame in 0..=254u8 {
        assert_ne!(rainbow_frame(frame), rainbow_frame(frame + 1), "frame {frame}");
    }
    // Eight pixels of 32 steps each span the whole circle of hues.
    assert_eq!(rainbow_frame(0)[1], rainbow_frame(32)[0]);
    assert_eq!(rainbow_frame(255)[1], rainbow_frame(31)[0]);
}

#[test]
fn pulse_for_a_one_is_long_then_short() {
    assert_eq!(pulse_for(true), ONE);
    assert_eq!(pulse_for(false), ZERO);
}

#[test]
fn eight_pixels_encode_to_192_pulses() {
    let pixels = [
        Rgb { r: 0x00, g: 0xff, b: 0x0f },
        Rgb { r: 0xa5, g: 0x5a, b: 0x01 },
        Rgb { r: 0x80, g: 0x7f, b: 0xfe },
        Rgb { r: 1, g: 2, b: 4 },
        Rgb { r: 8, g: 16, b: 32 },
        Rgb { r: 64, g: 128, b: 0 },
        Rgb { r: 0x33, g: 0xcc, b: 0x55 },
        Rgb { r: 0xaa, g: 0x99, b: 0x66 },
    ];
    let pulses = encode_frame(&pixels);
    assert_eq!(pulses.len(), 192);
    assert_eq!(pulses.as_slice(), pulses_of(&pixels).as_slice());
    for pulse in pulses.as_slice() {
        assert!(*pulse == ONE || *pulse == ZERO);
    }
}

#[test]
fn one_pixel_is_sent_green_first_and_high_bit_first() {
    let pulses = encode_frame(&[Rgb { r: 0b0000_0001, g: 0b1000_0000, b: 0b0100_0010 }]);
    let bits: Vec<bool> = pulses.as_slice().iter().map(|pulse| *pulse == ONE).collect();
    let expected = [
        true, false, false, false, false, false, false, false, // green
        false, false, false, false, false, false, false, true, // red
        false, true, false, false, false, false, true, false, // blue
    ];
    assert_eq!(bits, expected);
}

#[test]
fn empty_frame_encodes_to_no_pulses() {
    assert_eq!(encode_frame(&[]).len(), 0);
}

#[test]
fn frame_longer_than_the_buffer_is_cut_at_512_pulses() {
    let pixels: Vec<Rgb> = (0..22u8).map(|i| Rgb { r: i, g: 255 - i, b: i * 7 }).collect();
    let pulses = encode_frame(&pixels);
    assert_eq!(pulses.len(), 512);
    assert_eq!(pulses.as_slice(), &pulses_of(&pixels)[..512]);
    let fits: Vec<Rgb> = pixels[..21].to_vec();
    assert_eq!(encode_frame(&fits).len(), 504);
}

#[test]
fn raw_frame_sends_the_buffer_as_it_is() {
    let state = LedState::new();
    let frame = state.raw_frame();
    assert_eq!(frame.as_slice(), pulses_of(&state.pixels()).as_slice());
    assert_eq!(frame.len(), 192);
}

#[test]
fn render_applies_gamma_and_then_brightness() {
    let mut state = LedState::new();
    state.set_status(StatusColor::Purple);
    state.set_energy_meter(3);
    let frame = state.render();
    let expected = [
        Rgb { r: 18, g: 0, b: 18 },
        Rgb { r: 0, g: 18, b: 2 },
        Rgb { r: 0, g: 18, b: 0 },
        Rgb { r: 0, g: 18, b: 0 },
        OFF,
        OFF,
        OFF,
        OFF,
    ];
    assert_eq!(frame.as_slice(), pulses_of(&expected).as_slice());
    assert_eq!(frame.len(), 192);
}

#[test]
fn render_of_a_frame_is_the_render_of_the_state_that_holds_it() {
    let mut state = LedState::new();
    state.set_status(StatusColor::Red);
    state.set_energy_meter(7);
    assert_eq!(render(&state.pixels()).as_slice(), state.render().as_slice());
    let dark = [OFF; 8];
    assert_eq!(render(&dark).as_slice(), pulses_of(&dark).as_slice());
}

#[test]
fn status_pixel_shows_the_status_whenever_no_rainbow_plays() {
    let mut state = booted();
    let commands = [
        LedCommand::SetEnergyMeter(3),
        LedCommand::SetStatus(StatusColor::Yellow),
        LedCommand::Rainbow,
        LedCommand::SetEnergyMeter(200),
        LedCommand::SetStatus(StatusColor::Off),
        LedCommand::Rainbow,
        LedCommand::SetStatus(StatusColor::Purple),
    ];
    for command in commands {
        let mut wait = led_task(&mut state, LedEvent::Command(command)).wait;
        while wait != (LedWait::Command { timeout_ms: COMMAND_WAIT_MS }) {
            wait = led_task(&mut state, LedEvent::Elapsed).wait;
        }
        assert_eq!(state.pixels()[0], state.status_color().to_rgb(), "{command:?}");
        assert!(state.energy_level() <= 7);
    }
    assert_eq!(state.status_color(), StatusColor::Purple);
    assert_eq!(state.energy_level(), 7);
}

#[test]
fn render_of_full_channels_is_half_bright() {
    let mut state = LedState::new();
    state.set_status(StatusColor::Yellow);
    let frame = state.render();
    let mut expected = [OFF; 8];
    expected[0] = Rgb { r: 128, g: 128, b: 0 };
    assert_eq!(frame.as_slice(), pulses_of(&expected).as_slice());
}

#[test]
fn command_is_rendered_and_followed_by_a_pause() {
    let mut state = booted();
    let frame = send(&mut state, LedCommand::SetStatus(StatusColor::Green));
    let mut expected = [OFF; 8];
    expected[0] = Rgb { r: 0, g: 128, b: 0 };
    assert_eq!(frame, pulses_of(&expected));
    assert_eq!(state.pixels()[0], Rgb { r: 0, g: 255, b: 0 });
    assert_eq!(state.status_color(), StatusColor::Green);

    let frame = send(&mut state, LedCommand::SetEnergyMeter(9));
    assert_eq!(frame.len(), 192);
    assert_eq!(&state.pixels()[1..], &GRADIENT[..]);
    assert_eq!(state.energy_level(), 7);
    assert_eq!(state.phase(), LedPhase::Listening);
}

#[test]
fn timeout_sends_nothing_and_pauses() {
    let mut state = booted();
    let before = state.pixels();
    let step = led_task(&mut state, LedEvent::Timeout);
    assert!(step.frame.is_none());
    assert_eq!(step.wait, LedWait::Sleep { ms: 50 });
    assert_eq!(state.phase(), LedPhase::Resting);
    let step = led_task(&mut state, LedEvent::Elapsed);
    assert!(step.frame.is_none());
    assert_eq!(step.wait, LedWait::Command { timeout_ms: 100 });
    assert_eq!(state.phase(), LedPhase::Listening);
    assert_eq!(state.pixels(), before);
}

#[test]
fn rainbow_plays_256_frames_and_restores_the_status_pixel() {
    let mut state = booted();
    send(&mut state, LedCommand::SetStatus(StatusColor::Red));
    send(&mut state, LedCommand::SetEnergyMeter(4));

    let mut frames = 0;
    let mut step = led_task(&mut state, LedEvent::Command(LedCommand::Rainbow));
    loop {
        assert_eq!(step.wait, LedWait::Sleep { ms: RAINBOW_FRAME_MS });
        let drawn = rainbow_frame(frames as u8);
        assert_eq!(state.pixels(), drawn, "frame {frames}");
        let frame = step.frame.expect("each frame is transmitted");
        assert_eq!(frame.as_slice(), render(&drawn).as_slice());
        frames += 1;
        assert_eq!(state.phase(), LedPhase::Animating { next: frames });
        step = led_task(&mut state, LedEvent::Elapsed);
        if step.wait != (LedWait::Sleep { ms: RAINBOW_FRAME_MS }) {
            break;
        }
    }
    assert_eq!(frames, RAINBOW_FRAMES);
    assert_eq!(frames, 256);
    assert!(step.frame.is_none());
    assert_eq!(step.wait, LedWait::Command { timeout_ms: COMMAND_WAIT_MS });
    assert_eq!(state.phase(), LedPhase::Listening);

    // The status pixel is back; the energy pixels are those of the last frame.
    let pixels = state.pixels();
    assert_eq!(pixels[0], Rgb { r: 255, g: 0, b: 0 });
    assert_eq!(&pixels[1..], &rainbow_frame(255)[1..]);
    assert_eq!(pixels[1], Rgb { r: 64, g: 46, b: 0 });
    assert_eq!(state.status_color(), StatusColor::Red);
    assert_eq!(state.energy_level(), 4);
}

#[test]
fn events_that_are_not_awaited_change_nothing() {
    let mut state = booted();
    let before = state.pixels();
    let step = led_task(&mut state, LedEvent::Elapsed);
    assert!(step.frame.is_none());
    assert_eq!(step.wait, LedWait::Pending);
    assert_eq!(state.phase(), LedPhase::Listening);

    led_task(&mut state, LedEvent::Timeout);
    for event in [LedEvent::Timeout, LedEvent::Command(LedCommand::SetStatus(StatusColor::Red))] {
        let step = led_task(&mut state, event);
        assert!(step.frame.is_none());
        assert_eq!(step.wait, LedWait::Pending);
        assert_eq!(state.phase(), LedPhase::Resting);
        assert_eq!(state.pixels(), before);
    }

    let mut state = booted();
    led_task(&mut state, LedEvent::Command(LedCommand::Rainbow));
    let drawn = state.pixels();
    let step = led_task(&mut state, LedEvent::Command(LedCommand::SetEnergyMeter(2)));
    assert!(step.frame.is_none());
    assert_eq!(step.wait, LedWait::Pending);
    assert_eq!(state.phase(), LedPhase::Animating { next: 1 });
    assert_eq!(state.pixels(), drawn);
}
