//! The pulse train that carries two colors to the LEDs.
//!
//! Every data bit is one PWM period whose duty tells a one from a zero; a run
//! of idle periods after the last bit makes the LEDs latch.

use vstd::prelude::*;

use crate::color::Grb;

verus! {

/// PWM counter top: one period is one data bit.
pub const PWM_TOP: u16 = 20;

// The top bit of a PWM word is the polarity, the rest the compare value.
/// PWM word of a zero bit.
pub const W0: u16 = 0x8006;

/// PWM word of a one bit.
pub const W1: u16 = 0x800d;

/// PWM word of an idle period.
pub const WRESET: u16 = 0x8000;

/// Data bits per frame: two LEDs, three channels, eight bits.
pub const SEQ_BITS: usize = 48;

/// Idle periods at the end of a frame.
pub const SEQ_RESET: usize = 40;

/// PWM words per frame.
pub const SEQ_LEN: usize = 88;

/// The bytes of a frame in the order in which they are sent.
pub open spec fn wire_bytes(inner: Grb, outer: Grb) -> Seq<u8> {
    seq![inner.g, inner.r, inner.b, outer.g, outer.r, outer.b]
}

/// Bit `i` of `byte`, counted from the most significant one, which is sent first.
pub open spec fn wire_bit(byte: u8, i: int) -> bool {
    (byte >> ((7 - i) as u8)) & 1 == 1
}

/// The PWM word of one data bit.
pub open spec fn bit_word(one: bool) -> u16 {
    if one {
        W1
    } else {
        W0
    }
}

/// The PWM words that show `inner` and `outer`.
pub open spec fn frame_words(inner: Grb, outer: Grb) -> Seq<u16> {
    Seq::new(
        SEQ_LEN as nat,
        |k: int|
            if k < SEQ_BITS {
                bit_word(wire_bit(wire_bytes(inner, outer)[k / 8], k % 8))
            } else {
                WRESET
            },
    )
}

/// Writes the frame that shows `inner` and `outer`.
pub fn encode(buf: &mut [u16; SEQ_LEN], inner: Grb, outer: Grb)
    ensures
        final(buf)@ == frame_words(inner, outer),
{
    let bytes: [u8; 6] = [inner.g, inner.r, inner.b, outer.g, outer.r, outer.b];
    let ghost words = frame_words(inner, outer);
    assert(bytes@ =~= wire_bytes(inner, outer));
    let mut k: usize = 0;
    let mut n: usize = 0;
    while n < 6
        invariant
            n <= 6,
            k == 8 * n,
            bytes@ == wire_bytes(inner, outer),
            words == frame_words(inner, outer),
            forall|i: int| 0 <= i < k ==> buf@[i] == words[i],
        decreases 6 - n,
    {
        let byte: u8 = bytes[n];
        let mut value: u8 = byte;
        let mut j: u8 = 0;
        assert(byte << 0u8 == byte) by (bit_vector);
        while j < 8
            invariant
                n < 6,
                j <= 8,
                k == 8 * n + j,
                j < 8 ==> value == byte << j,
                byte == wire_bytes(inner, outer)[n as int],
                words == frame_words(inner, outer),
                forall|i: int| 0 <= i < k ==> buf@[i] == words[i],
            decreases 8 - j,
        {
            proof {
                let up = (7 - j) as u8;
                assert((byte << j) & 0x80 != 0 <==> (byte >> up) & 1 == 1) by (bit_vector)
                    requires
                        j < 8,
                        up == 7 - j,
                ;
                assert(j < 7 ==> (byte << j) << 1u8 == byte << ((j + 1) as u8)) by (bit_vector)
                    requires
                        j < 8,
                ;
                assert((8 * n + j) / 8 == n && (8 * n + j) % 8 == j);
            }
            buf[k] = if value & 0x80 != 0 {
                W1
            } else {
                W0
            };
            k += 1;
            value = value << 1;
            j += 1;
        }
        n += 1;
    }
    while k < SEQ_LEN
        invariant
            SEQ_BITS <= k <= SEQ_LEN,
            words == frame_words(inner, outer),
            forall|i: int| 0 <= i < k ==> buf@[i] == words[i],
        decreases SEQ_LEN - k,
    {
        buf[k] = WRESET;
        k += 1;
    }
    assert(buf@ =~= words);
}

proof fn bits_identify_byte(a: u8, b: u8)
    requires
        forall|i: int| 0 <= i < 8 ==> wire_bit(a, i) == wire_bit(b, i),
    ensures
        a == b,
{
    assert(wire_bit(a, 0) == wire_bit(b, 0));
    assert(wire_bit(a, 1) == wire_bit(b, 1));
    assert(wire_bit(a, 2) == wire_bit(b, 2));
    assert(wire_bit(a, 3) == wire_bit(b, 3));
    assert(wire_bit(a, 4) == wire_bit(b, 4));
    assert(wire_bit(a, 5) == wire_bit(b, 5));
    assert(wire_bit(a, 6) == wire_bit(b, 6));
    assert(wire_bit(a, 7) == wire_bit(b, 7));
    assert(a == b) by (bit_vector)
        requires
            ((a >> 7u8) & 1 == 1) == ((b >> 7u8) & 1 == 1),
            ((a >> 6u8) & 1 == 1) == ((b >> 6u8) & 1 == 1),
            ((a >> 5u8) & 1 == 1) == ((b >> 5u8) & 1 == 1),
            ((a >> 4u8) & 1 == 1) == ((b >> 4u8) & 1 == 1),
            ((a >> 3u8) & 1 == 1) == ((b >> 3u8) & 1 == 1),
            ((a >> 2u8) & 1 == 1) == ((b >> 2u8) & 1 == 1),
            ((a >> 1u8) & 1 == 1) == ((b >> 1u8) & 1 == 1),
            ((a >> 0u8) & 1 == 1) == ((b >> 0u8) & 1 == 1),
    ;
}

/// A frame tells its two colors apart from any others: two frames are equal
/// only if they show the same colors.
pub proof fn frame_identifies_colors(inner1: Grb, outer1: Grb, inner2: Grb, outer2: Grb)
    requires
        frame_words(inner1, outer1) == frame_words(inner2, outer2),
    ensures
        inner1 == inner2,
        outer1 == outer2,
{
    let bytes1 = wire_bytes(inner1, outer1);
    let bytes2 = wire_bytes(inner2, outer2);
    assert forall|n: int| 0 <= n < 6 implies bytes1[n] == bytes2[n] by {
        assert forall|i: int| 0 <= i < 8 implies wire_bit(bytes1[n], i) == wire_bit(
            bytes2[n],
            i,
        ) by {
            let k = 8 * n + i;
            assert(k / 8 == n && k % 8 == i);
            assert(frame_words(inner1, outer1)[k] == bit_word(wire_bit(bytes1[k / 8], k % 8)));
            assert(frame_words(inner2, outer2)[k] == bit_word(wire_bit(bytes2[k / 8], k % 8)));
        }
        bits_identify_byte(bytes1[n], bytes2[n]);
    }
    assert(bytes1[0] == bytes2[0] && bytes1[1] == bytes2[1] && bytes1[2] == bytes2[2]);
    assert(bytes1[3] == bytes2[3] && bytes1[4] == bytes2[4] && bytes1[5] == bytes2[5]);
}

/// A frame carries green, red and blue of the inner LED and then of the outer
/// one, the most significant bit of each first: a one is the word 0x800d, a
/// zero 0x8006. Forty idle words 0x8000 end it.
pub proof fn frame_carries_green_red_blue(inner: Grb, outer: Grb, i: int, idle: int)
    requires
        0 <= i < 8,
        0 <= idle < 40,
    ensures
        ({
            let words = frame_words(inner, outer);
            let shift = (7 - i) as u8;
            &&& words.len() == 88
            &&& words[i] == if (inner.g >> shift) & 1 == 1 { 0x800du16 } else { 0x8006u16 }
            &&& words[8 + i] == if (inner.r >> shift) & 1 == 1 { 0x800du16 } else { 0x8006u16 }
            &&& words[16 + i] == if (inner.b >> shift) & 1 == 1 { 0x800du16 } else { 0x8006u16 }
            &&& words[24 + i] == if (outer.g >> shift) & 1 == 1 { 0x800du16 } else { 0x8006u16 }
            &&& words[32 + i] == if (outer.r >> shift) & 1 == 1 { 0x800du16 } else { 0x8006u16 }
            &&& words[40 + i] == if (outer.b >> shift) & 1 == 1 { 0x800du16 } else { 0x8006u16 }
            &&& words[48 + idle] == 0x8000u16
        }),
{
    assert(i / 8 == 0 && i % 8 == i);
    assert((8 + i) / 8 == 1 && (8 + i) % 8 == i);
    assert((16 + i) / 8 == 2 && (16 + i) % 8 == i);
    assert((24 + i) / 8 == 3 && (24 + i) % 8 == i);
    assert((32 + i) / 8 == 4 && (32 + i) % 8 == i);
    assert((40 + i) / 8 == 5 && (40 + i) % 8 == i);
}

} // verus!
