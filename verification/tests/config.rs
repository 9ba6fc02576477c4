use wall_clock_in::bounded::{PULSE_CAPACITY, REQUEST_CAPACITY};
use wall_clock_in::config::{
    BATTERY_ADC_PIN, BUTTON_PIN, DEEP_SLEEP_MINUTES, ENERGY_UPDATE_INTERVAL_MS, LED_BRIGHTNESS,
    LED_ENERGY_COUNT, LED_ENERGY_START, LED_PIN, LED_STATUS, NUM_LEDS, WORK_SESSION_HOURS,
};
use wall_clock_in::ws2812::{BITS_PER_PIXEL, LONG_TICKS, SHORT_TICKS, TICK_NS};

#[test]
fn strip_has_one_status_pixel_and_seven_energy_pixels() {
    assert_eq!(NUM_LEDS, 8);
    assert_eq!(LED_STATUS, 0);
    assert_eq!(LED_ENERGY_START, 1);
    assert_eq!(LED_ENERGY_COUNT, 7);
    assert_eq!(LED_ENERGY_START + LED_ENERGY_COUNT, NUM_LEDS);
    assert_eq!(LED_BRIGHTNESS, 128);
}

#[test]
fn pins_and_intervals_are_as_wired() {
    assert_eq!(BUTTON_PIN, 9);
    assert_eq!(LED_PIN, 8);
    assert_eq!(BATTERY_ADC_PIN, 4);
    assert_eq!(ENERGY_UPDATE_INTERVAL_MS, 300_000);
    assert_eq!(WORK_SESSION_HOURS, 8);
    assert_eq!(DEEP_SLEEP_MINUTES, 60);
}

#[test]
fn a_frame_fits_in_the_pulse_buffer() {
    assert_eq!(BITS_PER_PIXEL, 24);
    assert_eq!(NUM_LEDS * BITS_PER_PIXEL, 192);
    assert!(NUM_LEDS * BITS_PER_PIXEL <= PULSE_CAPACITY);
    assert_eq!(PULSE_CAPACITY, 512);
    assert_eq!(REQUEST_CAPACITY, 256);
    assert_eq!(LONG_TICKS, 32);
    assert_eq!(SHORT_TICKS, 14);
}

#[test]
fn pulse_phases_last_800_and_350_nanoseconds() {
    assert_eq!(u32::from(LONG_TICKS) * TICK_NS, 800);
    assert_eq!(u32::from(SHORT_TICKS) * TICK_NS, 350);
    // A whole frame takes 192 * 1.15 µs, far less than the pause of 50 µs
    // after which the strip latches, times a thousand.
    assert_eq!(192 * (u32::from(LONG_TICKS) + u32::from(SHORT_TICKS)) * TICK_NS, 220_800);
}
