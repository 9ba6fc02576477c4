//! The WS2812 wire format: one pulse per bit, 24 bits per pixel.

use vstd::arithmetic::div_mod::lemma_fundamental_div_mod_converse;
use vstd::prelude::*;
use crate::bounded::{pulse_seq, pulses_new, pulses_push, PULSE_CAPACITY};
use crate::color::Rgb;

verus! {

/// Length of the tick in which the phases of a pulse are counted, in
/// nanoseconds: the data line is clocked at 40 MHz.
pub const TICK_NS: u32 = 25;

/// Ticks of the long phase of a pulse: 0.8 µs.
pub const LONG_TICKS: u16 = 32;

/// Ticks of the short phase of a pulse: 0.35 µs.
pub const SHORT_TICKS: u16 = 14;

/// Pulses per pixel.
pub const BITS_PER_PIXEL: usize = 24;

/// One pulse on the data line: a level held for a number of ticks, then a
/// second level held for a number of ticks.
#[derive(Debug, Clone, Copy, PartialEq, Eq, Structural)]
pub struct PulseCode {
    pub level1: bool,
    pub length1: u16,
    pub level2: bool,
    pub length2: u16,
}

/// The pulse that carries `bit`: high then low, the long phase first for a
/// one and the short phase first for a zero.
pub open spec fn bit_pulse(bit: bool) -> PulseCode {
    if bit {
        PulseCode { level1: true, length1: LONG_TICKS, level2: false, length2: SHORT_TICKS }
    } else {
        PulseCode { level1: true, length1: SHORT_TICKS, level2: false, length2: LONG_TICKS }
    }
}

/// Bit `k` of `byte`, counted from the most significant bit.
pub open spec fn bit_at(byte: u8, k: int) -> bool {
    (byte >> ((7 - k) as u8)) & 1 == 1
}

/// Byte `c` of a pixel on the wire: green, red, blue.
pub open spec fn wire_byte(pixel: Rgb, c: int) -> u8 {
    if c == 0 {
        pixel.g
    } else if c == 1 {
        pixel.r
    } else {
        pixel.b
    }
}

/// Bit `j` of a frame on the wire.
pub open spec fn wire_bit(pixels: Seq<Rgb>, j: int) -> bool {
    bit_at(wire_byte(pixels[j / 24], (j % 24) / 8), j % 8)
}

/// The pulses of a frame: for each pixel in turn its green, red and blue
/// byte, each byte from its most significant bit down.
pub open spec fn frame_pulses(pixels: Seq<Rgb>) -> Seq<PulseCode> {
    Seq::new(BITS_PER_PIXEL as nat * pixels.len(), |j: int| bit_pulse(wire_bit(pixels, j)))
}

/// What a pulse buffer holds of `pulses`: all of them, or as many as fit.
pub open spec fn buffered(pulses: Seq<PulseCode>) -> Seq<PulseCode> {
    if pulses.len() <= PULSE_CAPACITY {
        pulses
    } else {
        pulses.take(PULSE_CAPACITY as int)
    }
}

/// The pulse for one bit.
pub fn pulse_for(bit: bool) -> (pulse: PulseCode)
    ensures
        pulse == bit_pulse(bit),
{
    if bit {
        PulseCode { level1: true, length1: LONG_TICKS, level2: false, length2: SHORT_TICKS }
    } else {
        PulseCode { level1: true, length1: SHORT_TICKS, level2: false, length2: LONG_TICKS }
    }
}

/// Where bit `k` of byte `c` of pixel `p` stands in a frame.
proof fn lemma_wire_index(p: int, c: int, k: int)
    requires
        0 <= p,
        0 <= c < 3,
        0 <= k < 8,
    ensures
        (24 * p + 8 * c + k) / 24 == p,
        ((24 * p + 8 * c + k) % 24) / 8 == c,
        (24 * p + 8 * c + k) % 8 == k,
{
    let j = 24 * p + 8 * c + k;
    lemma_fundamental_div_mod_converse(j, 24, p, 8 * c + k);
    lemma_fundamental_div_mod_converse(8 * c + k, 8, c, k);
    lemma_fundamental_div_mod_converse(j, 8, 3 * p + c, k);
}

/// The first `n` of `pulses`, as far as they fit in a pulse buffer.
spec fn kept(pulses: Seq<PulseCode>, n: int) -> Seq<PulseCode> {
    if n <= PULSE_CAPACITY {
        pulses.take(n)
    } else {
        pulses.take(PULSE_CAPACITY as int)
    }
}

/// One more pulse is kept while the buffer has room, and dropped after.
proof fn lemma_kept_next(pulses: Seq<PulseCode>, n: int)
    requires
        0 <= n < pulses.len(),
    ensures
        kept(pulses, n).len() == (if n <= PULSE_CAPACITY {
            n
        } else {
            PULSE_CAPACITY as int
        }),
        n < PULSE_CAPACITY ==> kept(pulses, n + 1) == kept(pulses, n).push(pulses[n]),
        n >= PULSE_CAPACITY ==> kept(pulses, n + 1) == kept(pulses, n),
{
    if n < PULSE_CAPACITY {
        assert(pulses.take(n + 1) =~= pulses.take(n).push(pulses[n]));
    }
}

/// Encodes a frame as one burst of pulses. Pulses beyond the capacity of the
/// buffer are dropped.
pub fn encode_frame(pixels: &[Rgb]) -> (buf: heapless::Vec<PulseCode, PULSE_CAPACITY>)
    ensures
        pulse_seq(buf) == buffered(frame_pulses(pixels@)),
{
    let ghost all = frame_pulses(pixels@);
    let mut buf = pulses_new();
    let mut p: usize = 0;
    assert(pulse_seq(buf) =~= kept(all, 0));
    while p < pixels.len()
        invariant
            p <= pixels.len(),
            all == frame_pulses(pixels@),
            pulse_seq(buf) == kept(all, 24 * p),
        decreases pixels.len() - p,
    {
        let pixel = pixels[p];
        let bytes = [pixel.g, pixel.r, pixel.b];
        let mut c: usize = 0;
        while c < 3
            invariant
                p < pixels.len(),
                c <= 3,
                all == frame_pulses(pixels@),
                bytes[0] == pixels@[p as int].g,
                bytes[1] == pixels@[p as int].r,
                bytes[2] == pixels@[p as int].b,
                pulse_seq(buf) == kept(all, 24 * p + 8 * c),
            decreases 3 - c,
        {
            let byte = bytes[c];
            let mut k: u8 = 0;
            while k < 8
                invariant
                    p < pixels.len(),
                    c < 3,
                    k <= 8,
                    all == frame_pulses(pixels@),
                    byte == wire_byte(pixels@[p as int], c as int),
                    pulse_seq(buf) == kept(all, 24 * p + 8 * c + k),
                decreases 8 - k,
            {
                let pulse = pulse_for((byte >> (7 - k)) & 1 == 1);
                proof {
                    let j = 24 * p + 8 * c + k;
                    lemma_wire_index(p as int, c as int, k as int);
                    assert(all[j] == bit_pulse(wire_bit(pixels@, j)));
                    assert(all[j] == pulse);
                    lemma_kept_next(all, j);
                }
                let _ = pulses_push(&mut buf, pulse);
                k = k + 1;
            }
            c = c + 1;
        }
        p = p + 1;
    }
    assert(pulse_seq(buf) =~= buffered(all));
    buf
}

/// A frame of eight pixels is 192 pulses and fits in a pulse buffer. Pulse
/// `j` carries bit `j` of the frame: high first, then low, with the long
/// phase first for a one and the short phase first for a zero.
pub proof fn law_one_pulse_per_bit(pixels: Seq<Rgb>)
    requires
        pixels.len() == 8,
    ensures
        frame_pulses(pixels).len() == 192,
        buffered(frame_pulses(pixels)) == frame_pulses(pixels),
        forall|j: int|
            0 <= j < 192 ==> {
                let pulse = #[trigger] frame_pulses(pixels)[j];
                &&& pulse.level1 && !pulse.level2
                &&& wire_bit(pixels, j) ==> pulse.length1 == 32 && pulse.length2 == 14
                &&& !wire_bit(pixels, j) ==> pulse.length1 == 14 && pulse.length2 == 32
            },
{
}

/// The long phase of a pulse lasts 800 ns and the short phase 350 ns.
pub proof fn law_phase_lengths()
    ensures
        LONG_TICKS * TICK_NS == 800,
        SHORT_TICKS * TICK_NS == 350,
{
}

/// Bit `j` of a frame belongs to pixel `j / 24`; within the pixel the first
/// eight bits are green, the next eight red and the last eight blue; within
/// a byte the most significant bit comes first.
pub proof fn law_wire_order(pixels: Seq<Rgb>, p: int, k: int)
    requires
        0 <= p < pixels.len(),
        0 <= k < 8,
    ensures
        wire_bit(pixels, 24 * p + k) == bit_at(pixels[p].g, k),
        wire_bit(pixels, 24 * p + 8 + k) == bit_at(pixels[p].r, k),
        wire_bit(pixels, 24 * p + 16 + k) == bit_at(pixels[p].b, k),
{
    lemma_wire_index(p, 0, k);
    lemma_wire_index(p, 1, k);
    lemma_wire_index(p, 2, k);
}

/// The weight of bit `k` of a byte, counted from the most significant bit.
pub open spec fn bit_weight(k: int) -> int {
    if k == 0 {
        128
    } else if k == 1 {
        64
    } else if k == 2 {
        32
    } else if k == 3 {
        16
    } else if k == 4 {
        8
    } else if k == 5 {
        4
    } else if k == 6 {
        2
    } else {
        1
    }
}

/// Bit `k` of a byte is its binary digit of weight `bit_weight(k)`: the
/// first bit has weight 128 and the last has weight 1.
pub proof fn law_bit_is_binary_digit(byte: u8, k: int)
    requires
        0 <= k < 8,
    ensures
        bit_at(byte, k) == ((byte as int / bit_weight(k)) % 2 == 1),
{
    assert(((byte >> 7u8) & 1 == 1) == ((byte / 128) % 2 == 1)) by (bit_vector);
    assert(((byte >> 6u8) & 1 == 1) == ((byte / 64) % 2 == 1)) by (bit_vector);
    assert(((byte >> 5u8) & 1 == 1) == ((byte / 32) % 2 == 1)) by (bit_vector);
    assert(((byte >> 4u8) & 1 == 1) == ((byte / 16) % 2 == 1)) by (bit_vector);
    assert(((byte >> 3u8) & 1 == 1) == ((byte / 8) % 2 == 1)) by (bit_vector);
    assert(((byte >> 2u8) & 1 == 1) == ((byte / 4) % 2 == 1)) by (bit_vector);
    assert(((byte >> 1u8) & 1 == 1) == ((byte / 2) % 2 == 1)) by (bit_vector);
    assert(((byte >> 0u8) & 1 == 1) == ((byte / 1) % 2 == 1)) by (bit_vector);
}

} // verus!
