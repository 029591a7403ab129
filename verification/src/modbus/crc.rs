use vstd::prelude::*;

verus! {

/// One shift step of the reflected Modbus CRC-16 (polynomial 0xA001).
pub open spec fn crc_shift_step(c: u16) -> u16 {
    if c & 1 != 0 {
        (c >> 1u16) ^ 0xA001u16
    } else {
        c >> 1u16
    }
}

/// `n` shift steps applied to `c`.
pub open spec fn crc_shifts(c: u16, n: nat) -> u16
    decreases n,
{
    if n == 0 {
        c
    } else {
        crc_shifts(crc_shift_step(c), (n - 1) as nat)
    }
}

/// Folding one byte into the running CRC.
pub open spec fn crc_byte(c: u16, b: u8) -> u16 {
    crc_shifts(c ^ (b as u16), 8)
}

/// The Modbus CRC-16 of a byte sequence: start at 0xFFFF and fold every byte in order.
pub open spec fn spec_crc16(data: Seq<u8>) -> u16
    decreases data.len(),
{
    if data.len() == 0 {
        0xFFFFu16
    } else {
        crc_byte(spec_crc16(data.drop_last()), data.last())
    }
}

proof fn lemma_crc_shifts_succ(c: u16, n: nat)
    ensures
        crc_shifts(c, n + 1) == crc_shift_step(crc_shifts(c, n)),
    decreases n,
{
    if n > 0 {
        lemma_crc_shifts_succ(crc_shift_step(c), (n - 1) as nat);
    } else {
        assert(crc_shifts(crc_shift_step(c), 0) == crc_shift_step(c));
    }
}

/// Modbus RTU CRC-16 of `data` (initial value 0xFFFF, reflected polynomial 0xA001).
pub fn crc16_modbus(data: &[u8]) -> (crc: u16)
    ensures
        crc == spec_crc16(data@),
{
    let mut crc: u16 = 0xFFFF;
    let poly: u16 = 0xA001;
    let mut i: usize = 0;
    while i < data.len()
        invariant
            i <= data.len(),
            poly == 0xA001u16,
            crc == spec_crc16(data@.take(i as int)),
        decreases data.len() - i,
    {
        let byte = data[i];
        let ghost start = crc ^ (byte as u16);
        crc ^= byte as u16;
        let mut k: u32 = 0;
        while k < 8
            invariant
                k <= 8,
                poly == 0xA001u16,
                crc == crc_shifts(start, k as nat),
            decreases 8 - k,
        {
            proof {
                lemma_crc_shifts_succ(start, k as nat);
            }
            if crc & 0x0001 != 0 {
                crc = (crc >> 1) ^ poly;
            } else {
                crc >>= 1;
            }
            k += 1;
        }
        proof {
            assert(data@.take(i + 1).drop_last() =~= data@.take(i as int));
        }
        i += 1;
    }
    proof {
        assert(data@.take(data.len() as int) =~= data@);
    }
    crc
}

} // verus!
