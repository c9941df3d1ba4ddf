//! What the checksum of a frame is good for.

use crate::command::Cmd;
use crate::data::DataView;
use crate::error::ErrorView;
use crate::exchange;
use crate::frame;
use vstd::prelude::*;

verus! {

/// One more bit keeps different checksums different.
proof fn lemma_bit_keeps_apart(a: u16, b: u16)
    requires
        frame::crc_bit(a) == frame::crc_bit(b),
    ensures
        a == b,
{
    assert((if a & 1 == 0 {
        a >> 1
    } else {
        (a >> 1) ^ 0xA001
    }) == (if b & 1 == 0 {
        b >> 1
    } else {
        (b >> 1) ^ 0xA001
    }) ==> a == b) by (bit_vector);
}

/// Eight more bits keep different checksums different.
proof fn lemma_bits_keep_apart(a: u16, b: u16)
    requires
        frame::crc_bits(a) == frame::crc_bits(b),
    ensures
        a == b,
{
    let a1 = frame::crc_bit(a);
    let b1 = frame::crc_bit(b);
    let a2 = frame::crc_bit(a1);
    let b2 = frame::crc_bit(b1);
    let a3 = frame::crc_bit(a2);
    let b3 = frame::crc_bit(b2);
    let a4 = frame::crc_bit(a3);
    let b4 = frame::crc_bit(b3);
    let a5 = frame::crc_bit(a4);
    let b5 = frame::crc_bit(b4);
    let a6 = frame::crc_bit(a5);
    let b6 = frame::crc_bit(b5);
    let a7 = frame::crc_bit(a6);
    let b7 = frame::crc_bit(b6);
    lemma_bit_keeps_apart(a7, b7);
    lemma_bit_keeps_apart(a6, b6);
    lemma_bit_keeps_apart(a5, b5);
    lemma_bit_keeps_apart(a4, b4);
    lemma_bit_keeps_apart(a3, b3);
    lemma_bit_keeps_apart(a2, b2);
    lemma_bit_keeps_apart(a1, b1);
    lemma_bit_keeps_apart(a, b);
}

/// Data that differ in exactly one byte have different checksums.
pub proof fn law_checksum_tells_one_byte(data: Seq<u8>, i: int, byte: u8)
    requires
        0 <= i < data.len(),
        byte != data[i],
    ensures
        frame::crc16(data.update(i, byte)) != frame::crc16(data),
    decreases data.len(),
{
    reveal(frame::crc16);
    let other = data.update(i, byte);
    let x = frame::crc16(data.drop_last());
    let y = frame::crc16(other.drop_last());
    let p = data.last() as u16;
    let q = other.last() as u16;
    if i == data.len() - 1 {
        assert(other.drop_last() =~= data.drop_last());
        assert(p != q ==> x ^ p != x ^ q) by (bit_vector);
    } else {
        assert(other.drop_last() =~= data.drop_last().update(i, byte));
        law_checksum_tells_one_byte(data.drop_last(), i, byte);
        assert(x != y ==> x ^ p != y ^ p) by (bit_vector);
    }
    if frame::crc_bits(x ^ p) == frame::crc_bits(y ^ q) {
        lemma_bits_keep_apart(x ^ p, y ^ q);
    }
}

/// A frame in which one byte was damaged on the line, be it data or checksum, is never taken for
/// data: the command that reads it fails, and says that the checksum is wrong.
pub proof fn law_one_damaged_byte_is_noticed(cmd: Cmd, body: Seq<u8>, i: int, byte: u8)
    requires
        !(cmd is ScanBus),
        3 <= body.len() <= 255,
        0 <= i < body.len() + 2,
        byte != frame::sealed(body)[i],
    ensures
        exchange::decoded(cmd, frame::sealed(body).update(i, byte)) == Some(
            Err::<DataView, ErrorView>(ErrorView::Parse("FrameCRCError"@)),
        ),
{
    let n = body.len() as int;
    let sound = frame::sealed(body);
    let damaged = sound.update(i, byte);
    if i < n {
        assert(frame::unsealed(damaged) =~= body.update(i, byte));
        law_checksum_tells_one_byte(body, i, byte);
    } else {
        assert(frame::unsealed(damaged) =~= body);
    }
    assert(damaged[n + 1] == if i == n + 1 {
        byte
    } else {
        frame::high(frame::crc16(body))
    });
    assert(damaged[n] == if i == n {
        byte
    } else {
        frame::low(frame::crc16(body))
    });
}

/// A checksum with one bit more.
pub open spec fn shifted(crc: u16) -> u16 {
    if crc % 2 == 0 {
        (crc / 2) as u16
    } else {
        ((crc / 2) as u16) ^ 40961
    }
}

/// A checksum with `n` bits more.
pub open spec fn shifts(crc: u16, n: nat) -> u16
    decreases n,
{
    if n == 0 {
        crc
    } else {
        shifts(shifted(crc), (n - 1) as nat)
    }
}

proof fn lemma_shifted(crc: u16)
    ensures
        frame::crc_bit(crc) == shifted(crc),
{
    assert(crc & 1 == crc % 2) by (bit_vector);
    assert(crc >> 1 == crc / 2) by (bit_vector);
}

/// The checksum starts with all bits set. Each byte is added to it, and then it is shifted down by
/// eight bits, with the polynomial added for each bit that falls out set.
pub proof fn law_checksum_byte_by_byte(data: Seq<u8>, byte: u8)
    ensures
        frame::crc16(Seq::empty()) == 65535,
        frame::crc16(data.push(byte)) == shifts(frame::crc16(data) ^ (byte as u16), 8),
{
    reveal(frame::crc16);
    reveal_with_fuel(shifts, 9);
    assert(data.push(byte).drop_last() =~= data);
    let c0 = frame::crc16(data) ^ (byte as u16);
    let c1 = shifted(c0);
    let c2 = shifted(c1);
    let c3 = shifted(c2);
    let c4 = shifted(c3);
    let c5 = shifted(c4);
    let c6 = shifted(c5);
    let c7 = shifted(c6);
    lemma_shifted(c0);
    lemma_shifted(c1);
    lemma_shifted(c2);
    lemma_shifted(c3);
    lemma_shifted(c4);
    lemma_shifted(c5);
    lemma_shifted(c6);
    lemma_shifted(c7);
}

} // verus!
