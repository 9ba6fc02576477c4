use wall_clock_in::channel::EventChannel;
use wall_clock_in::color::Rgb;
use wall_clock_in::config::default_network_config;
use wall_clock_in::tasks::button::{button_task, ButtonEvent, ButtonInput, ButtonState};
use wall_clock_in::tasks::led::{
    led_task, LedCommand, LedEvent, LedPhase, LedState, LedWait, StatusColor,
};
use wall_clock_in::tasks::wifi::{
    wifi_task, IoOutcome, ToggleCommand, ToggleEvent, WifiCommand, WifiEvent, WifiState,
};

/// The renderer takes what is pending on its channel, then pauses.
fn render_round(leds: &mut LedState, commands: &mut EventChannel<LedCommand>) {
    let event = match commands.try_take() {
        Some(command) => LedEvent::Command(command),
        None => LedEvent::Timeout,
    };
    let step = led_task(leds, event);
    if step.wait != (LedWait::Command { timeout_ms: 100 }) {
        let mut wait = step.wait;
        while wait != (LedWait::Command { timeout_ms: 100 }) {
            assert!(matches!(wait, LedWait::Sleep { .. }));
            wait = led_task(leds, LedEvent::Elapsed).wait;
        }
    }
    assert_eq!(leds.phase(), LedPhase::Listening);
}

/// Runs the client on `event` against a network on which every operation
/// completes, with the renderer taking each signal as it is sent.
fn client_round(
    client: &mut WifiState,
    leds: &mut LedState,
    commands: &mut EventChannel<LedCommand>,
    event: WifiEvent,
) {
    let cfg = default_network_config();
    let mut event = event;
    loop {
        let step = wifi_task(client, &cfg, event);
        for signal in step.signals {
            commands.signal(signal);
            render_round(leds, commands);
        }
        event = match step.command {
            WifiCommand::Join { .. } => WifiEvent::Join(IoOutcome::Done),
            WifiCommand::StartStack => WifiEvent::StackStarted,
            WifiCommand::CheckAddress => WifiEvent::Address(true),
            WifiCommand::Socket(ToggleCommand::Connect { .. }) => {
                WifiEvent::Socket(ToggleEvent::Connect(IoOutcome::Done))
            }
            WifiCommand::Socket(ToggleCommand::Write { .. }) => {
                WifiEvent::Socket(ToggleEvent::Write(IoOutcome::Done))
            }
            WifiCommand::Socket(ToggleCommand::Read { .. }) => {
                WifiEvent::Socket(ToggleEvent::Read(IoOutcome::Done))
            }
            WifiCommand::Sleep { .. } => WifiEvent::Elapsed,
            WifiCommand::WaitButton { .. } => return,
            other => panic!("unexpected command {other:?}"),
        };
    }
}

#[test]
fn short_press_ends_with_green_status_and_five_energy_pixels() {
    let mut button = ButtonState::new();
    button_task(&mut button, ButtonInput::Boot, 0);
    let mut events: EventChannel<ButtonEvent> = EventChannel::new();
    let mut commands: EventChannel<LedCommand> = EventChannel::new();
    let mut leds = LedState::new();
    led_task(&mut leds, LedEvent::Boot);
    let mut client = WifiState::new();
    client_round(&mut client, &mut leds, &mut commands, WifiEvent::Boot);
    assert_eq!(leds.status_color(), StatusColor::Green);

    button_task(&mut button, ButtonInput::FallingEdge, 1000);
    let step = button_task(&mut button, ButtonInput::Poll { high: true }, 1050);
    if let Some(event) = step.emit {
        events.signal(event);
    }
    let pressed = events.try_take();
    assert_eq!(pressed, Some(ButtonEvent::ShortPress));
    client_round(&mut client, &mut leds, &mut commands, WifiEvent::Button(pressed));

    assert_eq!(leds.status_color(), StatusColor::Green);
    assert_eq!(leds.energy_level(), 5);
    let pixels = leds.pixels();
    assert_eq!(pixels[0], Rgb { r: 0, g: 255, b: 0 });
    assert_eq!(pixels[5], Rgb { r: 120, g: 128, b: 0 });
    assert_eq!(pixels[6], Rgb { r: 0, g: 0, b: 0 });
}

#[test]
fn slow_renderer_sees_only_the_latest_signal() {
    let cfg = default_network_config();
    let mut commands: EventChannel<LedCommand> = EventChannel::new();
    let mut leds = LedState::new();
    led_task(&mut leds, LedEvent::Boot);
    let mut client = WifiState::new();
    for event in [
        WifiEvent::Boot,
        WifiEvent::Join(IoOutcome::Done),
        WifiEvent::StackStarted,
        WifiEvent::Address(true),
        WifiEvent::Button(Some(ButtonEvent::ShortPress)),
        WifiEvent::Socket(ToggleEvent::Connect(IoOutcome::Done)),
        WifiEvent::Socket(ToggleEvent::Write(IoOutcome::Done)),
        WifiEvent::Socket(ToggleEvent::Read(IoOutcome::Done)),
    ] {
        for signal in wifi_task(&mut client, &cfg, event).signals {
            commands.signal(signal);
        }
    }
    // Blue, green, purple, green and the energy level were signalled; the
    // renderer was never scheduled in between.
    render_round(&mut leds, &mut commands);
    assert_eq!(leds.energy_level(), 5);
    assert_eq!(leds.status_color(), StatusColor::Blue);
    assert!(!commands.signaled());
}

#[test]
fn long_press_plays_the_rainbow_and_keeps_the_status() {
    let mut button = ButtonState::new();
    button_task(&mut button, ButtonInput::Boot, 0);
    let mut commands: EventChannel<LedCommand> = EventChannel::new();
    let mut leds = LedState::new();
    led_task(&mut leds, LedEvent::Boot);
    let mut client = WifiState::new();
    client_round(&mut client, &mut leds, &mut commands, WifiEvent::Boot);

    button_task(&mut button, ButtonInput::FallingEdge, 1000);
    let step = button_task(&mut button, ButtonInput::Poll { high: false }, 3000);
    assert_eq!(step.emit, Some(ButtonEvent::LongPress));
    client_round(&mut client, &mut leds, &mut commands, WifiEvent::Button(step.emit));

    assert_eq!(leds.status_color(), StatusColor::Green);
    let pixels = leds.pixels();
    assert_eq!(pixels[0], Rgb { r: 0, g: 255, b: 0 });
    assert_eq!(pixels[7], Rgb { r: 64, g: 0, b: 48 });
}
