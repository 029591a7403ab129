//! Modbus RTU frames: building request frames with their CRC, and checking
//! response frames before their data is used.

use vstd::prelude::*;

use super::crc::{crc16_modbus, crc_byte, crc_shift_step, crc_shifts, spec_crc16};
use crate::utils::error::ModbusError;

verus! {

/// Function code: read discrete inputs.
pub const FN_READ_DISCRETE_INPUTS: u8 = 0x02;
/// Function code: read holding registers.
pub const FN_READ_HOLDING_REGISTERS: u8 = 0x03;
/// Function code: read input registers.
pub const FN_READ_INPUT_REGISTERS: u8 = 0x04;
/// Function code: write single coil.
pub const FN_WRITE_SINGLE_COIL: u8 = 0x05;

pub open spec fn hi_byte(v: u16) -> u8 {
    (v >> 8u16) as u8
}

pub open spec fn lo_byte(v: u16) -> u8 {
    (v & 0xFFu16) as u8
}

/// The 16-bit value of two bytes sent low byte first.
pub open spec fn le_u16(lo: u8, hi: u8) -> u16 {
    (((hi as u16) << 8u16) | (lo as u16)) as u16
}

/// `body` followed by its CRC, low byte first.
pub open spec fn with_crc(body: Seq<u8>) -> Seq<u8> {
    body + seq![lo_byte(spec_crc16(body)), hi_byte(spec_crc16(body))]
}

/// The frame of a request of `function` with two 16-bit big-endian arguments.
pub open spec fn request_frame(slave: u8, function: u8, a: u16, b: u16) -> Seq<u8> {
    with_crc(seq![slave, function, hi_byte(a), lo_byte(a), hi_byte(b), lo_byte(b)])
}

/// The value written for a coil: 0xFF00 for on, 0x0000 for off.
pub open spec fn coil_word(value: bool) -> u16 {
    if value { 0xFF00u16 } else { 0x0000u16 }
}

/// Whether the last two bytes of `r` are the CRC of the bytes before them.
pub open spec fn crc_matches(r: Seq<u8>) -> bool {
    le_u16(r[r.len() - 2], r[r.len() - 1]) == spec_crc16(r.take(r.len() - 2))
}

/// What checking a register (or discrete input) response gives: a CRC error, a
/// header mismatch, or the data bytes between the byte count and the CRC.
pub open spec fn register_response_result(r: Seq<u8>, slave: u8, function: u8) -> Result<Seq<u8>, ModbusError> {
    if !crc_matches(r) {
        Err(ModbusError::CrcError)
    } else if r[0] != slave || r[1] != function {
        Err(ModbusError::InvalidResponse)
    } else {
        Ok(r.subrange(3, r.len() - 2))
    }
}

/// Whether an executable result carries the same outcome as a specified one.
pub open spec fn same_result(res: Result<Vec<u8>, ModbusError>, spec: Result<Seq<u8>, ModbusError>) -> bool {
    match spec {
        Ok(d) => res is Ok && res->Ok_0@ == d,
        Err(e) => res == Err::<Vec<u8>, ModbusError>(e),
    }
}

/// Appends the CRC of `body` to it, low byte first.
pub fn append_crc(body: &mut Vec<u8>)
    ensures
        final(body)@ == with_crc(old(body)@),
{
    let crc = crc16_modbus(body.as_slice());
    body.push((crc & 0xFF) as u8);
    body.push((crc >> 8) as u8);
}

/// The request frame asking `slave` to run `function` (a read) from `start_addr` for `count` items.
pub fn build_read_request(slave: u8, function: u8, start_addr: u16, count: u16) -> (frame: Vec<u8>)
    ensures
        frame@ == request_frame(slave, function, start_addr, count),
{
    let mut request: Vec<u8> = Vec::new();
    request.push(slave);
    request.push(function);
    request.push((start_addr >> 8) as u8);
    request.push((start_addr & 0xFF) as u8);
    request.push((count >> 8) as u8);
    request.push((count & 0xFF) as u8);
    proof {
        assert(request@ =~= seq![slave, function, hi_byte(start_addr), lo_byte(start_addr), hi_byte(count), lo_byte(count)]);
    }
    append_crc(&mut request);
    request
}

/// The request frame setting coil `coil_addr` of `slave` on or off.
pub fn build_write_single_coil_request(slave: u8, coil_addr: u16, value: bool) -> (frame: Vec<u8>)
    ensures
        frame@ == request_frame(slave, FN_WRITE_SINGLE_COIL, coil_addr, coil_word(value)),
{
    let word: u16 = if value { 0xFF00 } else { 0x0000 };
    build_read_request(slave, FN_WRITE_SINGLE_COIL, coil_addr, word)
}

/// Length of the response to a read of `count` registers: address, function,
/// byte count, two bytes per register and the CRC.
pub fn register_response_len(count: u16) -> (n: usize)
    requires
        count <= 32767,
    ensures
        n == 5 + 2 * count,
{
    5 + (count * 2) as usize
}

/// Length of the response to a read of `count` discrete inputs (eight per byte).
pub fn discrete_response_len(count: u16) -> (n: usize)
    requires
        count <= 65528,
    ensures
        n == 5 + (count + 7) / 8,
{
    5 + ((count + 7) / 8) as usize
}

/// Checks a register or discrete-input response of `slave` to `function` and
/// gives back its data bytes.
pub fn check_register_response(response: &[u8], slave: u8, function: u8) -> (res: Result<Vec<u8>, ModbusError>)
    requires
        response@.len() >= 5,
    ensures
        same_result(res, register_response_result(response@, slave, function)),
{
    let data_len = response.len() - 2;
    let received_crc: u16 = ((response[data_len + 1] as u16) << 8) | (response[data_len] as u16);
    let calculated_crc = crc16_modbus(&response[0..data_len]);
    if received_crc != calculated_crc {
        return Err(ModbusError::CrcError);
    }
    if response[0] != slave || response[1] != function {
        return Err(ModbusError::InvalidResponse);
    }
    let mut data: Vec<u8> = Vec::new();
    let mut i: usize = 3;
    while i < data_len
        invariant
            3 <= i <= data_len,
            data_len == response@.len() - 2,
            data@ == response@.subrange(3, i as int),
        decreases data_len - i,
    {
        data.push(response[i]);
        proof {
            assert(response@.subrange(3, i + 1) =~= response@.subrange(3, i as int).push(response@[i as int]));
        }
        i += 1;
    }
    Ok(data)
}

/// What checking a write-single-coil echo gives.
pub open spec fn coil_response_result(r: Seq<u8>, slave: u8) -> Result<(), ModbusError> {
    if !crc_matches(r) || r[0] != slave || r[1] != FN_WRITE_SINGLE_COIL {
        Err(ModbusError::InvalidResponse)
    } else {
        Ok(())
    }
}

/// Checks the echo of a write-single-coil request from `slave`.
pub fn check_coil_response(response: &[u8], slave: u8) -> (res: Result<(), ModbusError>)
    requires
        response@.len() >= 2,
    ensures
        res == coil_response_result(response@, slave),
{
    let data_len = response.len() - 2;
    let received_crc: u16 = ((response[data_len + 1] as u16) << 8) | (response[data_len] as u16);
    let calculated_crc = crc16_modbus(&response[0..data_len]);
    if received_crc != calculated_crc || response[0] != slave || response[1] != FN_WRITE_SINGLE_COIL {
        return Err(ModbusError::InvalidResponse);
    }
    Ok(())
}

/// Input `i` of a discrete-input reply: bit `i % 8` of byte `i / 8`.
pub open spec fn input_bit(data: Seq<u8>, i: int) -> bool {
    data[i / 8] & (1u8 << ((i % 8) as u8)) != 0
}

/// Number of inputs a discrete-input reply yields: `count`, but no more than its bytes hold.
pub open spec fn input_count(data: Seq<u8>, count: u16) -> int {
    if (count as int) < 8 * data.len() { count as int } else { (8 * data.len()) as int }
}

/// The states of the first `count` discrete inputs packed in `data`, least significant bit first.
pub fn unpack_discrete_inputs(data: &[u8], count: u16) -> (bits: Vec<bool>)
    ensures
        bits@.len() == input_count(data@, count),
        forall|i: int| 0 <= i < bits@.len() ==> bits@[i] == input_bit(data@, i),
{
    let mut bits: Vec<bool> = Vec::new();
    let mut byte_idx: usize = 0;
    while byte_idx < data.len()
        invariant
            byte_idx <= data.len(),
            bits@.len() == (if (count as int) < 8 * byte_idx { count as int } else { 8 * byte_idx }),
            forall|i: int| 0 <= i < bits@.len() ==> bits@[i] == input_bit(data@, i),
        decreases data.len() - byte_idx,
    {
        let byte_val = data[byte_idx];
        let mut bit_idx: usize = 0;
        while bit_idx < 8
            invariant
                byte_idx < data.len(),
                byte_val == data@[byte_idx as int],
                bit_idx <= 8,
                bits@.len() == (if (count as int) < 8 * byte_idx + bit_idx { count as int } else { 8 * byte_idx + bit_idx }),
                forall|i: int| 0 <= i < bits@.len() ==> bits@[i] == input_bit(data@, i),
            ensures
                bits@.len() == (if (count as int) < 8 * byte_idx + 8 { count as int } else { 8 * byte_idx + 8 }),
                forall|i: int| 0 <= i < bits@.len() ==> bits@[i] == input_bit(data@, i),
            decreases 8 - bit_idx,
        {
            // Inputs past `count` are not reported.
            if bits.len() >= count as usize {
                break;
            }
            let ghost k: int = 8 * byte_idx + bit_idx;
            proof {
                assert(k / 8 == byte_idx as int);
                assert(k % 8 == bit_idx as int);
            }
            bits.push((byte_val & (1u8 << (bit_idx as u8))) != 0);
            bit_idx += 1;
        }
        byte_idx += 1;
    }
    bits
}

proof fn lemma_le_u16_split(c: u16)
    ensures
        le_u16(lo_byte(c), hi_byte(c)) == c,
{
    assert((((((c >> 8u16) as u8) as u16) << 8u16) | (((c & 0xFFu16) as u8) as u16)) as u16 == c) by (bit_vector);
}

/// Eight shift steps of a register whose low byte is clear only move it down
/// by a byte: no step folds in the polynomial.
proof fn lemma_shifts_of_high_byte(x: u16)
    requires
        x & 0xFFu16 == 0,
    ensures
        crc_shifts(x, 8) == x >> 8u16,
{
    assert(x >> 0u16 == x) by (bit_vector);
    assert(crc_shift_step(x >> 0u16) == x >> 1u16) by (bit_vector)
        requires
            x & 0xFFu16 == 0;
    assert(crc_shift_step(x >> 1u16) == x >> 2u16) by (bit_vector)
        requires
            x & 0xFFu16 == 0;
    assert(crc_shift_step(x >> 2u16) == x >> 3u16) by (bit_vector)
        requires
            x & 0xFFu16 == 0;
    assert(crc_shift_step(x >> 3u16) == x >> 4u16) by (bit_vector)
        requires
            x & 0xFFu16 == 0;
    assert(crc_shift_step(x >> 4u16) == x >> 5u16) by (bit_vector)
        requires
            x & 0xFFu16 == 0;
    assert(crc_shift_step(x >> 5u16) == x >> 6u16) by (bit_vector)
        requires
            x & 0xFFu16 == 0;
    assert(crc_shift_step(x >> 6u16) == x >> 7u16) by (bit_vector)
        requires
            x & 0xFFu16 == 0;
    assert(crc_shift_step(x >> 7u16) == x >> 8u16) by (bit_vector)
        requires
            x & 0xFFu16 == 0;
    reveal_with_fuel(crc_shifts, 9);
}

/// A frame followed by its CRC, low byte first, has CRC zero: the check a
/// receiver makes by folding the whole frame.
pub proof fn lemma_framed_crc_residue_zero(body: Seq<u8>)
    ensures
        spec_crc16(with_crc(body)) == 0,
{
    let c = spec_crc16(body);
    let lo = lo_byte(c);
    let hi = hi_byte(c);
    let f = with_crc(body);
    assert(f.drop_last().drop_last() =~= body);
    assert(f.drop_last().last() == lo);
    assert(f.last() == hi);
    let x = c ^ (lo as u16);
    assert(x & 0xFFu16 == 0 && x >> 8u16 == hi as u16) by (bit_vector)
        requires
            x == c ^ (lo as u16),
            lo == (c & 0xFFu16) as u8,
            hi == (c >> 8u16) as u8;
    lemma_shifts_of_high_byte(x);
    assert(spec_crc16(f.drop_last().drop_last()) == c);
    assert(spec_crc16(f.drop_last()) == crc_byte(c, lo));
    assert(crc_byte(c, lo) == hi as u16);
    assert(spec_crc16(f) == crc_byte(hi as u16, hi));
    assert((hi as u16) ^ (hi as u16) == 0u16) by (bit_vector);
    assert(crc_shift_step(0u16) == 0u16) by (bit_vector);
    reveal_with_fuel(crc_shifts, 9);
    assert(crc_shifts(0u16, 8) == 0u16);
}

/// A byte sequence followed by its CRC passes the CRC check.
pub proof fn lemma_framed_crc_matches(body: Seq<u8>)
    ensures
        crc_matches(with_crc(body)),
{
    let f = with_crc(body);
    assert(f.take(f.len() - 2) =~= body);
    lemma_le_u16_split(spec_crc16(body));
}

/// A response framed with its CRC, from the expected slave and function, is
/// accepted and yields exactly the bytes after the byte count.
pub proof fn lemma_response_roundtrip(body: Seq<u8>, slave: u8, function: u8)
    requires
        body.len() >= 3,
        body[0] == slave,
        body[1] == function,
    ensures
        register_response_result(with_crc(body), slave, function) == Ok::<Seq<u8>, ModbusError>(body.subrange(3, body.len() as int)),
{
    lemma_framed_crc_matches(body);
    let f = with_crc(body);
    assert(f.subrange(3, f.len() - 2) =~= body.subrange(3, body.len() as int));
}

/// A response whose last two bytes are altered so that they no longer carry
/// the CRC of the bytes before them is refused with a CRC error.
pub proof fn lemma_corrupted_crc_refused(body: Seq<u8>, lo: u8, hi: u8, slave: u8, function: u8)
    requires
        le_u16(lo, hi) != spec_crc16(body),
    ensures
        register_response_result(body + seq![lo, hi], slave, function) == Err::<Seq<u8>, ModbusError>(ModbusError::CrcError),
{
    let f = body + seq![lo, hi];
    assert(f.take(f.len() - 2) =~= body);
}

} // verus!
