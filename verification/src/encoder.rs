//! The RGB-to-duty-cycle encoder for the single-wire LED protocol.
//!
//! A batch of 8 RGB pixels becomes 192 PWM duty values, one per
//! protocol bit: each colour byte is emitted most-significant-bit
//! first, in Green, Red, Blue lane order, a set bit as the "high"
//! duty (7/10 of the period) and a clear bit as the "low" duty (3/10
//! of the period).  The caller streams the buffer once through
//! PWM+DMA; the reset/latch gap afterwards is the caller's business.

use vstd::prelude::*;

verus! {

/// Pixels in one batch.
pub const PIXELS_PER_BATCH: usize = 8;

/// Protocol bits, and so duty values, per pixel: 3 bytes of 8 bits.
pub const DUTIES_PER_PIXEL: usize = 24;

/// Duty values in one encoded batch.
pub const DUTIES_PER_BATCH: usize = 192;

/// Largest maximum-duty register value the encoder accepts: the timers
/// driven here have 16-bit duty registers.
pub const MAX_DUTY_LIMIT: u32 = 65535;

/// The duty value of a protocol "1" bit: 7/10 of the period.
pub open spec fn high_duty(max_duty: u32) -> u16 {
    ((max_duty * 7) / 10) as u16
}

/// The duty value of a protocol "0" bit: 3/10 of the period.
pub open spec fn low_duty(max_duty: u32) -> u16 {
    ((max_duty * 3) / 10) as u16
}

/// Whether bit `i` of a byte is set, counting from the most
/// significant bit (`i == 0`) down to the least (`i == 7`).
pub open spec fn bit_of(byte: u8, i: int) -> bool {
    (byte >> ((7 - i) as u8)) & 1 != 0
}

/// The 8 duty values of one colour byte, most significant bit first.
pub open spec fn byte_duties(byte: u8, hi: u16, lo: u16) -> Seq<u16> {
    Seq::new(8, |i: int| if bit_of(byte, i) { hi } else { lo })
}

/// The 24 duty values of one pixel: its green byte, then red, then
/// blue — the wire order of the protocol, not the order of the input
/// triplet.
pub open spec fn pixel_duties(r: u8, g: u8, b: u8, hi: u16, lo: u16) -> Seq<u16> {
    byte_duties(g, hi, lo) + byte_duties(r, hi, lo) + byte_duties(b, hi, lo)
}

/// The duty values of a whole batch: each pixel's 24 values in batch
/// order, nothing between them, no framing before or after.
pub open spec fn batch_duties(pixels: Seq<(u8, u8, u8)>, hi: u16, lo: u16) -> Seq<u16>
    decreases pixels.len(),
{
    if pixels.len() == 0 {
        Seq::empty()
    } else {
        batch_duties(pixels.drop_last(), hi, lo) + pixel_duties(
            pixels.last().0,
            pixels.last().1,
            pixels.last().2,
            hi,
            lo,
        )
    }
}

/// Shape of the encoding: a batch of `n` pixels encodes to exactly
/// `24 * n` duty values, and every one of them is either the high or
/// the low duty — nothing else ever appears in the buffer.
pub proof fn lemma_batch_duties_shape(pixels: Seq<(u8, u8, u8)>, hi: u16, lo: u16)
    ensures
        batch_duties(pixels, hi, lo).len() == 24 * pixels.len(),
        forall|i: int|
            0 <= i < batch_duties(pixels, hi, lo).len() ==> batch_duties(pixels, hi, lo)[i] == hi
                || batch_duties(pixels, hi, lo)[i] == lo,
    decreases pixels.len(),
{
    if pixels.len() > 0 {
        lemma_batch_duties_shape(pixels.drop_last(), hi, lo);
    }
}

/// Layout of the batch: pixel `i`'s 24 duty values stand at offset
/// `24 * i`, so the batch is exactly the pixels' packets in order.
pub proof fn lemma_batch_pixel_order(pixels: Seq<(u8, u8, u8)>, hi: u16, lo: u16, i: int)
    requires
        0 <= i < pixels.len(),
    ensures
        batch_duties(pixels, hi, lo).subrange(24 * i, 24 * (i + 1)) =~= pixel_duties(
            pixels[i].0,
            pixels[i].1,
            pixels[i].2,
            hi,
            lo,
        ),
    decreases pixels.len(),
{
    lemma_batch_duties_shape(pixels.drop_last(), hi, lo);
    if i == pixels.len() - 1 {
        assert(batch_duties(pixels, hi, lo).subrange(24 * i, 24 * (i + 1)) =~= pixel_duties(
            pixels[i].0,
            pixels[i].1,
            pixels[i].2,
            hi,
            lo,
        ));
    } else {
        lemma_batch_pixel_order(pixels.drop_last(), hi, lo, i);
        assert(batch_duties(pixels, hi, lo).subrange(24 * i, 24 * (i + 1)) =~= batch_duties(
            pixels.drop_last(),
            hi,
            lo,
        ).subrange(24 * i, 24 * (i + 1)));
    }
}

/// Determinism: the encoding is a pure function of the batch and the
/// duty thresholds, so any two encodings of the same input are the
/// same sequence — there is no hidden state.
pub proof fn lemma_encode_deterministic(
    first: Seq<u16>,
    second: Seq<u16>,
    pixels: Seq<(u8, u8, u8)>,
    hi: u16,
    lo: u16,
)
    requires
        first == batch_duties(pixels, hi, lo),
        second == batch_duties(pixels, hi, lo),
    ensures
        first == second,
{
}

/// Lane independence: swapping a pixel's red and blue components
/// leaves the first 8 emitted values (the green lane) unchanged, and
/// swaps the middle 8 (the red lane) with the last 8 (the blue lane).
pub proof fn lemma_swap_red_blue(r: u8, g: u8, b: u8, hi: u16, lo: u16)
    ensures
        pixel_duties(b, g, r, hi, lo).subrange(0, 8) == pixel_duties(r, g, b, hi, lo).subrange(
            0,
            8,
        ),
        pixel_duties(b, g, r, hi, lo).subrange(8, 16) == pixel_duties(r, g, b, hi, lo).subrange(
            16,
            24,
        ),
        pixel_duties(b, g, r, hi, lo).subrange(16, 24) == pixel_duties(r, g, b, hi, lo).subrange(
            8,
            16,
        ),
{
    assert(pixel_duties(b, g, r, hi, lo).subrange(0, 8) =~= byte_duties(g, hi, lo));
    assert(pixel_duties(r, g, b, hi, lo).subrange(0, 8) =~= byte_duties(g, hi, lo));
    assert(pixel_duties(b, g, r, hi, lo).subrange(8, 16) =~= byte_duties(b, hi, lo));
    assert(pixel_duties(r, g, b, hi, lo).subrange(16, 24) =~= byte_duties(b, hi, lo));
    assert(pixel_duties(b, g, r, hi, lo).subrange(16, 24) =~= byte_duties(r, hi, lo));
    assert(pixel_duties(r, g, b, hi, lo).subrange(8, 16) =~= byte_duties(r, hi, lo));
}

/// Appends the 8 duty values of one colour byte, MSB first.
fn push_byte_duties(out: &mut Vec<u16>, byte: u8, hi: u16, lo: u16)
    ensures
        final(out)@ == old(out)@ + byte_duties(byte, hi, lo),
{
    let mut k: usize = 0;
    while k < 8
        invariant
            k <= 8,
            out@ == old(out)@ + byte_duties(byte, hi, lo).take(k as int),
        decreases 8 - k,
    {
        let sh: u8 = (7 - k) as u8;
        let is_one = ((byte >> sh) & 1) != 0;
        out.push(if is_one { hi } else { lo });
        proof {
            let full = byte_duties(byte, hi, lo);
            assert(full.take(k + 1) =~= full.take(k as int).push(full[k as int]));
        }
        k += 1;
    }
    proof {
        assert(byte_duties(byte, hi, lo).take(8) =~= byte_duties(byte, hi, lo));
    }
}

/// Appends the 24 duty values of one pixel in wire order: G, R, B.
fn push_pixel_duties(out: &mut Vec<u16>, rgb: (u8, u8, u8), hi: u16, lo: u16)
    ensures
        final(out)@ == old(out)@ + pixel_duties(rgb.0, rgb.1, rgb.2, hi, lo),
{
    push_byte_duties(out, rgb.1, hi, lo);
    push_byte_duties(out, rgb.0, hi, lo);
    push_byte_duties(out, rgb.2, hi, lo);
    proof {
        assert(out@ =~= old(out)@ + pixel_duties(rgb.0, rgb.1, rgb.2, hi, lo));
    }
}

/// Encodes one `(R, G, B)` pixel into its 24 duty values, with the
/// high and low duties derived from the channel's maximum duty.
pub fn produce_duty_packet(max_duty: u32, rgb: (u8, u8, u8)) -> (r: Vec<u16>)
    requires
        max_duty <= MAX_DUTY_LIMIT,
    ensures
        r@ == pixel_duties(rgb.0, rgb.1, rgb.2, high_duty(max_duty), low_duty(max_duty)),
        r@.len() == DUTIES_PER_PIXEL,
{
    let d1: u16 = ((max_duty * 7) / 10) as u16;
    let d0: u16 = ((max_duty * 3) / 10) as u16;
    let mut result: Vec<u16> = Vec::new();
    push_pixel_duties(&mut result, rgb, d1, d0);
    result
}

/// Encodes a batch of 8 `(R, G, B)` pixels into its 192 duty values,
/// pixel 0 first, with the high and low duties derived from the
/// channel's maximum duty.
pub fn produce_duty_packet8(max_duty: u32, rgb: [(u8, u8, u8); 8]) -> (r: Vec<u16>)
    requires
        max_duty <= MAX_DUTY_LIMIT,
    ensures
        r@ == batch_duties(rgb@, high_duty(max_duty), low_duty(max_duty)),
        r@.len() == DUTIES_PER_BATCH,
{
    let d1: u16 = ((max_duty * 7) / 10) as u16;
    let d0: u16 = ((max_duty * 3) / 10) as u16;
    let mut result: Vec<u16> = Vec::new();
    let mut i: usize = 0;
    while i < 8
        invariant
            i <= 8,
            result@ == batch_duties(rgb@.take(i as int), d1, d0),
            d1 == high_duty(max_duty),
            d0 == low_duty(max_duty),
        decreases 8 - i,
    {
        push_pixel_duties(&mut result, rgb[i], d1, d0);
        proof {
            assert(rgb@.take(i + 1).drop_last() =~= rgb@.take(i as int));
            assert(rgb@.take(i + 1).last() == rgb@[i as int]);
        }
        i += 1;
    }
    proof {
        assert(rgb@.take(8) =~= rgb@);
        lemma_batch_duties_shape(rgb@, d1, d0);
    }
    result
}

} // verus!
