//! Register map of the device: addresses, the layout of the counter block in each mode,
//! the status registers and the instruction register, and the frames sent on the bus.
use vstd::prelude::*;

use crate::configs::{
    bit_set, ActuatorStatus, CntCfg, CntCount, CommunicationStatus, DecodificationStatus,
    ErrorStatus, FullDeviceStatus, InterfaceStatus, OverflowStatus, PinStatus, RegisterStatus,
    TouchProbeStatus, UndervoltageStatus, WarningStatus, ZeroStatus,
};
use crate::field::{
    be_int, be_int_bytes, fits_signed, lemma_be_int_round_trip, lemma_radix_small, read_be_int,
};

verus! {

/// Configuration register (write): selects the counting mode.
pub const COUNTER_CONFIGURATION: u8 = 0x00;

/// Counter block (read): the counter values of the current mode and the NWARN and NERR
/// bits.
pub const COUNTER_BLOCK: u8 = 0x08;

/// Instruction register (write only): counter resets, touch probe load and actuator pins.
pub const INSTRUCTION_BYTE: u8 = 0x30;

/// Status register 0 (read): status of counter 0 and of the reference and UPD registers.
pub const STATUS_0: u8 = 0x48;

/// Status register 1 (read): status of counter 1, external error and warning, collisions.
pub const STATUS_1: u8 = 0x49;

/// Status register 2 (read): status of counter 2 and of the SSI interface.
pub const STATUS_2: u8 = 0x4A;

/// Bit that marks a register address as a read on the bus.
pub const READ_FLAG: u8 = 0x80;

/// A write of `data` to the register at `address`.
#[derive(Debug, PartialEq, Eq)]
pub struct RegisterWrite {
    pub address: u8,
    pub data: Vec<u8>,
}

impl RegisterWrite {
    /// The byte that opens the transfer: a write names the register address as it is.
    pub fn command(&self) -> (r: u8)
        ensures
            r == self.address,
    {
        self.address
    }
}

/// A read of `len` bytes from the register at `address`.
#[derive(Debug, Clone, Copy, PartialEq, Eq)]
pub struct RegisterRead {
    pub address: u8,
    pub len: usize,
}

impl RegisterRead {
    /// The byte that opens the transfer: a read names the register address with its top bit
    /// set.
    pub fn command(&self) -> (r: u8)
        ensures
            r == self.address | READ_FLAG,
    {
        self.address | READ_FLAG
    }
}

/// Number of bytes in the counter block of a mode: the counter fields, then one status byte.
pub open spec fn counter_block_len(cfg: CntCfg) -> nat {
    match cfg {
        CntCfg::Cnt1Bit24(_) => 4,
        CntCfg::Cnt2Bit24(_, _) => 7,
        CntCfg::Cnt1Bit48(_) => 7,
        CntCfg::Cnt1Bit16(_) => 3,
        CntCfg::Cnt1Bit32(_) => 5,
        CntCfg::Cnt2Bit32Bit16(_, _) => 7,
        CntCfg::Cnt2Bit16(_, _) => 5,
        CntCfg::Cnt3Bit16(_, _, _) => 8,
    }
}

/// Counter values held by the counter block `p` of mode `cfg`, counter 0 first. Each
/// counter is a big-endian two's complement field; counter 0 ends just before the status
/// byte, and each further counter ends where the one before it starts. In the three-counter
/// mode the first byte of the block is unused.
pub open spec fn counter_block_values(cfg: CntCfg, p: Seq<u8>) -> Seq<int> {
    match cfg {
        CntCfg::Cnt1Bit24(_) => seq![be_int(p.subrange(0, 3))],
        CntCfg::Cnt2Bit24(_, _) => seq![be_int(p.subrange(3, 6)), be_int(p.subrange(0, 3))],
        CntCfg::Cnt1Bit48(_) => seq![be_int(p.subrange(0, 6))],
        CntCfg::Cnt1Bit16(_) => seq![be_int(p.subrange(0, 2))],
        CntCfg::Cnt1Bit32(_) => seq![be_int(p.subrange(0, 4))],
        CntCfg::Cnt2Bit32Bit16(_, _) => seq![be_int(p.subrange(2, 6)), be_int(p.subrange(0, 2))],
        CntCfg::Cnt2Bit16(_, _) => seq![be_int(p.subrange(2, 4)), be_int(p.subrange(0, 2))],
        CntCfg::Cnt3Bit16(_, _, _) => seq![
            be_int(p.subrange(5, 7)),
            be_int(p.subrange(3, 5)),
            be_int(p.subrange(1, 3)),
        ],
    }
}

/// The NWARN bit of a counter block: bit 6 of its last byte, set while there is no warning.
pub open spec fn block_nwarn(p: Seq<u8>) -> bool {
    bit_set(p.last(), 6)
}

/// The NERR bit of a counter block: bit 7 of its last byte, set while there is no error.
pub open spec fn block_nerr(p: Seq<u8>) -> bool {
    bit_set(p.last(), 7)
}

/// Number of bytes in the counter block of a mode.
pub fn counter_block_size(cfg: &CntCfg) -> (r: usize)
    ensures
        r == counter_block_len(*cfg),
{
    match cfg {
        CntCfg::Cnt1Bit24(_) => 4,
        CntCfg::Cnt2Bit24(_, _) => 7,
        CntCfg::Cnt1Bit48(_) => 7,
        CntCfg::Cnt1Bit16(_) => 3,
        CntCfg::Cnt1Bit32(_) => 5,
        CntCfg::Cnt2Bit32Bit16(_, _) => 7,
        CntCfg::Cnt2Bit16(_, _) => 5,
        CntCfg::Cnt3Bit16(_, _, _) => 8,
    }
}

/// Whether bit `i` of `b` is set.
pub fn bit(b: u8, i: u8) -> (r: bool)
    requires
        i < 8,
    ensures
        r == bit_set(b, i),
{
    (b >> i) & 1 == 1
}

/// Decodes the counter block of mode `cfg` into the counter values and the NWARN and NERR
/// bits, in that order.
pub fn decode_counter_block(cfg: &CntCfg, block: &[u8]) -> (r: (CntCount, bool, bool))
    requires
        block@.len() == counter_block_len(*cfg),
    ensures
        r.0.tag() == cfg.tag(),
        r.0.channels() == counter_block_values(*cfg, block@),
        r.1 == block_nwarn(block@),
        r.2 == block_nerr(block@),
{
    proof {
        lemma_radix_small();
    }
    let last = block[block.len() - 1];
    let nwarn = bit(last, 6);
    let nerr = bit(last, 7);
    let count = match cfg {
        CntCfg::Cnt1Bit24(_) => CntCount::Cnt1Bit24(read_be_int(block, 0, 3) as i32),
        CntCfg::Cnt2Bit24(_, _) => {
            let c1 = read_be_int(block, 0, 3) as i32;
            let c0 = read_be_int(block, 3, 3) as i32;
            CntCount::Cnt2Bit24(c0, c1)
        },
        CntCfg::Cnt1Bit48(_) => CntCount::Cnt1Bit48(read_be_int(block, 0, 6)),
        CntCfg::Cnt1Bit16(_) => CntCount::Cnt1Bit16(read_be_int(block, 0, 2) as i16),
        CntCfg::Cnt1Bit32(_) => CntCount::Cnt1Bit32(read_be_int(block, 0, 4) as i32),
        CntCfg::Cnt2Bit32Bit16(_, _) => {
            let c1 = read_be_int(block, 0, 2) as i16;
            let c0 = read_be_int(block, 2, 4) as i32;
            CntCount::Cnt2Bit32Bit16(c0, c1)
        },
        CntCfg::Cnt2Bit16(_, _) => {
            let c1 = read_be_int(block, 0, 2) as i16;
            let c0 = read_be_int(block, 2, 2) as i16;
            CntCount::Cnt2Bit16(c0, c1)
        },
        CntCfg::Cnt3Bit16(_, _, _) => {
            let c2 = read_be_int(block, 1, 2) as i16;
            let c1 = read_be_int(block, 3, 2) as i16;
            let c0 = read_be_int(block, 5, 2) as i16;
            CntCount::Cnt3Bit16(c0, c1, c2)
        },
    };
    (count, nwarn, nerr)
}

/// Status byte of a counter block with the given NWARN and NERR bits.
pub open spec fn block_status_byte(nwarn: bool, nerr: bool) -> u8 {
    ((if nwarn {
        64int
    } else {
        0
    }) + (if nerr {
        128int
    } else {
        0
    })) as u8
}

/// Whether every value of `count` fits the width of its counter field.
pub open spec fn fits_fields(count: CntCount) -> bool {
    match count {
        CntCount::Cnt1Bit24(a) => fits_signed(a as int, 3),
        CntCount::Cnt2Bit24(a, b) => fits_signed(a as int, 3) && fits_signed(b as int, 3),
        CntCount::Cnt1Bit48(a) => fits_signed(a as int, 6),
        _ => true,
    }
}

/// The counter block that holds the values of `count` and the given NWARN and NERR bits.
pub open spec fn counter_block_of(count: CntCount, nwarn: bool, nerr: bool) -> Seq<u8> {
    let st = seq![block_status_byte(nwarn, nerr)];
    match count {
        CntCount::Cnt1Bit24(a) => be_int_bytes(a as int, 3) + st,
        CntCount::Cnt2Bit24(a, b) => be_int_bytes(b as int, 3) + be_int_bytes(a as int, 3) + st,
        CntCount::Cnt1Bit48(a) => be_int_bytes(a as int, 6) + st,
        CntCount::Cnt1Bit16(a) => be_int_bytes(a as int, 2) + st,
        CntCount::Cnt1Bit32(a) => be_int_bytes(a as int, 4) + st,
        CntCount::Cnt2Bit32Bit16(a, b) => be_int_bytes(b as int, 2) + be_int_bytes(a as int, 4)
            + st,
        CntCount::Cnt2Bit16(a, b) => be_int_bytes(b as int, 2) + be_int_bytes(a as int, 2) + st,
        CntCount::Cnt3Bit16(a, b, c) => seq![0u8] + be_int_bytes(c as int, 2) + be_int_bytes(
            b as int,
            2,
        ) + be_int_bytes(a as int, 2) + st,
    }
}

proof fn lemma_status_byte_bits(nwarn: bool, nerr: bool)
    ensures
        bit_set(block_status_byte(nwarn, nerr), 6) == nwarn,
        bit_set(block_status_byte(nwarn, nerr), 7) == nerr,
{
    let b = block_status_byte(nwarn, nerr);
    if nwarn && nerr {
        assert(b == 192);
    } else if nwarn {
        assert(b == 64);
    } else if nerr {
        assert(b == 128);
    } else {
        assert(b == 0);
    }
    assert(bit_set(192, 6) && bit_set(192, 7)) by (bit_vector);
    assert(bit_set(64, 6) && !bit_set(64, 7)) by (bit_vector);
    assert(!bit_set(128, 6) && bit_set(128, 7)) by (bit_vector);
    assert(!bit_set(0, 6) && !bit_set(0, 7)) by (bit_vector);
}

/// Decoding a counter block gives back the counter values and the NWARN and NERR bits it
/// was made from, in every mode, negative values included.
pub proof fn lemma_counter_block_round_trip(cfg: CntCfg, count: CntCount, nwarn: bool, nerr: bool)
    requires
        count.tag() == cfg.tag(),
        fits_fields(count),
    ensures
        counter_block_of(count, nwarn, nerr).len() == counter_block_len(cfg),
        counter_block_values(cfg, counter_block_of(count, nwarn, nerr)) == count.channels(),
        block_nwarn(counter_block_of(count, nwarn, nerr)) == nwarn,
        block_nerr(counter_block_of(count, nwarn, nerr)) == nerr,
{
    lemma_radix_small();
    lemma_status_byte_bits(nwarn, nerr);
    let p = counter_block_of(count, nwarn, nerr);
    let st = seq![block_status_byte(nwarn, nerr)];
    match count {
        CntCount::Cnt1Bit24(a) => {
            lemma_be_int_round_trip(a as int, 3);
            assert(p.subrange(0, 3) =~= be_int_bytes(a as int, 3));
        },
        CntCount::Cnt2Bit24(a, b) => {
            lemma_be_int_round_trip(a as int, 3);
            lemma_be_int_round_trip(b as int, 3);
            assert(p.subrange(0, 3) =~= be_int_bytes(b as int, 3));
            assert(p.subrange(3, 6) =~= be_int_bytes(a as int, 3));
        },
        CntCount::Cnt1Bit48(a) => {
            lemma_be_int_round_trip(a as int, 6);
            assert(p.subrange(0, 6) =~= be_int_bytes(a as int, 6));
        },
        CntCount::Cnt1Bit16(a) => {
            lemma_be_int_round_trip(a as int, 2);
            assert(p.subrange(0, 2) =~= be_int_bytes(a as int, 2));
        },
        CntCount::Cnt1Bit32(a) => {
            lemma_be_int_round_trip(a as int, 4);
            assert(p.subrange(0, 4) =~= be_int_bytes(a as int, 4));
        },
        CntCount::Cnt2Bit32Bit16(a, b) => {
            lemma_be_int_round_trip(a as int, 4);
            lemma_be_int_round_trip(b as int, 2);
            assert(p.subrange(0, 2) =~= be_int_bytes(b as int, 2));
            assert(p.subrange(2, 6) =~= be_int_bytes(a as int, 4));
        },
        CntCount::Cnt2Bit16(a, b) => {
            lemma_be_int_round_trip(a as int, 2);
            lemma_be_int_round_trip(b as int, 2);
            assert(p.subrange(0, 2) =~= be_int_bytes(b as int, 2));
            assert(p.subrange(2, 4) =~= be_int_bytes(a as int, 2));
        },
        CntCount::Cnt3Bit16(a, b, c) => {
            lemma_be_int_round_trip(a as int, 2);
            lemma_be_int_round_trip(b as int, 2);
            lemma_be_int_round_trip(c as int, 2);
            assert(p.subrange(1, 3) =~= be_int_bytes(c as int, 2));
            assert(p.subrange(3, 5) =~= be_int_bytes(b as int, 2));
            assert(p.subrange(5, 7) =~= be_int_bytes(a as int, 2));
        },
    }
    assert(p.last() == block_status_byte(nwarn, nerr));
    assert(counter_block_values(cfg, p) =~= count.channels());
}

/// Whether `st` is the full device status held by status registers 0, 1 and 2. Each field
/// is one bit of one register; a set bit means the named condition, but for the register
/// status, where a set bit means that the register is valid.
pub open spec fn is_full_status(st: FullDeviceStatus, s0: u8, s1: u8, s2: u8) -> bool {
    &&& st.cnt0_overflow == if bit_set(s0, 6) {
        OverflowStatus::Overflow
    } else {
        OverflowStatus::NoOverflow
    }
    &&& st.cnt0_aberr == if bit_set(s0, 7) {
        DecodificationStatus::DecodificationError
    } else {
        DecodificationStatus::NoError
    }
    &&& st.cnt0_zero == if bit_set(s0, 5) {
        ZeroStatus::Zero
    } else {
        ZeroStatus::NotZero
    }
    &&& st.cnt1_overflow == if bit_set(s1, 6) {
        OverflowStatus::Overflow
    } else {
        OverflowStatus::NoOverflow
    }
    &&& st.cnt1_aberr == if bit_set(s1, 7) {
        DecodificationStatus::DecodificationError
    } else {
        DecodificationStatus::NoError
    }
    &&& st.cnt1_zero == if bit_set(s1, 5) {
        ZeroStatus::Zero
    } else {
        ZeroStatus::NotZero
    }
    &&& st.cnt2_overflow == if bit_set(s2, 6) {
        OverflowStatus::Overflow
    } else {
        OverflowStatus::NoOverflow
    }
    &&& st.cnt2_aberr == if bit_set(s2, 7) {
        DecodificationStatus::DecodificationError
    } else {
        DecodificationStatus::NoError
    }
    &&& st.cnt2_zero == if bit_set(s2, 5) {
        ZeroStatus::Zero
    } else {
        ZeroStatus::NotZero
    }
    &&& st.power_status == if bit_set(s0, 4) {
        UndervoltageStatus::Undervoltage
    } else {
        UndervoltageStatus::NoUndervoltage
    }
    &&& st.ref_reg_status == if bit_set(s0, 3) {
        RegisterStatus::Valid
    } else {
        RegisterStatus::Invalid
    }
    &&& st.upd_reg_status == if bit_set(s0, 2) {
        RegisterStatus::Valid
    } else {
        RegisterStatus::Invalid
    }
    &&& st.ref_cnt_status == if bit_set(s0, 1) {
        OverflowStatus::Overflow
    } else {
        OverflowStatus::NoOverflow
    }
    &&& st.ext_err_status == if bit_set(s1, 3) {
        ErrorStatus::Error
    } else {
        ErrorStatus::NoError
    }
    &&& st.ext_warn_status == if bit_set(s1, 2) {
        WarningStatus::Warning
    } else {
        WarningStatus::NoWarning
    }
    &&& st.comm_status == if bit_set(s1, 1) {
        CommunicationStatus::Collision
    } else {
        CommunicationStatus::NoCollision
    }
    &&& st.tp_status == if bit_set(s0, 0) {
        TouchProbeStatus::Updated
    } else {
        TouchProbeStatus::NotUpdated
    }
    &&& st.tpi_status == if bit_set(s1, 0) {
        PinStatus::High
    } else {
        PinStatus::Low
    }
    &&& st.ssi_enabled == if bit_set(s2, 0) {
        InterfaceStatus::Enabled
    } else {
        InterfaceStatus::Disabled
    }
}

/// Decodes the values of status registers 0, 1 and 2.
pub fn decode_full_status(status0: u8, status1: u8, status2: u8) -> (r: FullDeviceStatus)
    ensures
        is_full_status(r, status0, status1, status2),
{
    let cnt0_overflow = OverflowStatus::from(bit(status0, 6));
    let cnt0_aberr = DecodificationStatus::from(bit(status0, 7));
    let cnt0_zero = ZeroStatus::from(bit(status0, 5));
    let cnt1_overflow = OverflowStatus::from(bit(status1, 6));
    let cnt1_aberr = DecodificationStatus::from(bit(status1, 7));
    let cnt1_zero = ZeroStatus::from(bit(status1, 5));
    let cnt2_overflow = OverflowStatus::from(bit(status2, 6));
    let cnt2_aberr = DecodificationStatus::from(bit(status2, 7));
    let cnt2_zero = ZeroStatus::from(bit(status2, 5));
    let power_status = UndervoltageStatus::from(bit(status0, 4));
    let ref_reg_status = RegisterStatus::from(bit(status0, 3));
    let upd_reg_status = RegisterStatus::from(bit(status0, 2));
    let ref_cnt_status = OverflowStatus::from(bit(status0, 1));
    let ext_err_status = ErrorStatus::from(bit(status1, 3));
    let ext_warn_status = WarningStatus::from(bit(status1, 2));
    let comm_status = CommunicationStatus::from(bit(status1, 1));
    let tp_status = TouchProbeStatus::from(bit(status0, 0));
    let tpi_status = PinStatus::from(bit(status1, 0));
    let ssi_enabled = InterfaceStatus::from(bit(status2, 0));
    FullDeviceStatus {
        cnt0_overflow,
        cnt0_aberr,
        cnt0_zero,
        cnt1_overflow,
        cnt1_aberr,
        cnt1_zero,
        cnt2_overflow,
        cnt2_aberr,
        cnt2_zero,
        power_status,
        ref_reg_status,
        upd_reg_status,
        ref_cnt_status,
        ext_err_status,
        ext_warn_status,
        comm_status,
        tp_status,
        tpi_status,
        ssi_enabled,
    }
}

/// Wire bit of a pin level: 1 for `High`.
pub open spec fn pin_bit(p: PinStatus) -> u8 {
    match p {
        PinStatus::Low => 0,
        PinStatus::High => 1,
    }
}

/// Wire bit of a flag.
pub open spec fn flag_bit(b: bool) -> u8 {
    if b {
        1
    } else {
        0
    }
}

/// Instruction register value: counter resets in bits 0, 1 and 2, the touch probe load in
/// bit 4, and the levels of actuator pins ACT0 and ACT1 in bits 5 and 6.
pub open spec fn instruction_byte(
    reset0: bool,
    reset1: bool,
    reset2: bool,
    touch_probe: bool,
    act: ActuatorStatus,
) -> u8 {
    (flag_bit(reset0) + 2 * flag_bit(reset1) + 4 * flag_bit(reset2) + 16 * flag_bit(touch_probe)
        + 32 * pin_bit(act.act0) + 64 * pin_bit(act.act1)) as u8
}

proof fn lemma_pack_instruction(r0: u8, r1: u8, r2: u8, tp: u8, a0: u8, a1: u8)
    requires
        r0 < 2,
        r1 < 2,
        r2 < 2,
        tp < 2,
        a0 < 2,
        a1 < 2,
    ensures
        r0 | (r1 << 1u8) | (r2 << 2u8) | (tp << 4u8) | (a0 << 5u8) | (a1 << 6u8) == (r0 + 2 * r1
            + 4 * r2 + 16 * tp + 32 * a0 + 64 * a1) as u8,
        ({
            let b = (r0 + 2 * r1 + 4 * r2 + 16 * tp + 32 * a0 + 64 * a1) as u8;
            &&& bit_set(b, 0) == (r0 == 1)
            &&& bit_set(b, 1) == (r1 == 1)
            &&& bit_set(b, 2) == (r2 == 1)
            &&& !bit_set(b, 3)
            &&& bit_set(b, 4) == (tp == 1)
            &&& bit_set(b, 5) == (a0 == 1)
            &&& bit_set(b, 6) == (a1 == 1)
            &&& !bit_set(b, 7)
        }),
{
    assert(r0 | (r1 << 1u8) | (r2 << 2u8) | (tp << 4u8) | (a0 << 5u8) | (a1 << 6u8) == (r0 + 2
        * r1 + 4 * r2 + 16 * tp + 32 * a0 + 64 * a1) as u8) by (bit_vector)
        requires
            r0 < 2,
            r1 < 2,
            r2 < 2,
            tp < 2,
            a0 < 2,
            a1 < 2,
    ;
    let b = (r0 + 2 * r1 + 4 * r2 + 16 * tp + 32 * a0 + 64 * a1) as u8;
    assert({
        &&& ((b >> 0u8) & 1 == 1) == (r0 == 1)
        &&& ((b >> 1u8) & 1 == 1) == (r1 == 1)
        &&& ((b >> 2u8) & 1 == 1) == (r2 == 1)
        &&& (b >> 3u8) & 1 != 1
        &&& ((b >> 4u8) & 1 == 1) == (tp == 1)
        &&& ((b >> 5u8) & 1 == 1) == (a0 == 1)
        &&& ((b >> 6u8) & 1 == 1) == (a1 == 1)
        &&& (b >> 7u8) & 1 != 1
    }) by (bit_vector)
        requires
            b == (r0 + 2 * r1 + 4 * r2 + 16 * tp + 32 * a0 + 64 * a1) as u8,
            r0 < 2,
            r1 < 2,
            r2 < 2,
            tp < 2,
            a0 < 2,
            a1 < 2,
    ;
}

/// Layout of the instruction byte: each bit holds exactly the flag or pin level it is
/// assigned to, and bits 3 and 7 stay clear.
pub proof fn lemma_instruction_byte_layout(
    reset0: bool,
    reset1: bool,
    reset2: bool,
    touch_probe: bool,
    act: ActuatorStatus,
)
    ensures
        bit_set(instruction_byte(reset0, reset1, reset2, touch_probe, act), 0) == reset0,
        bit_set(instruction_byte(reset0, reset1, reset2, touch_probe, act), 1) == reset1,
        bit_set(instruction_byte(reset0, reset1, reset2, touch_probe, act), 2) == reset2,
        !bit_set(instruction_byte(reset0, reset1, reset2, touch_probe, act), 3),
        bit_set(instruction_byte(reset0, reset1, reset2, touch_probe, act), 4) == touch_probe,
        bit_set(instruction_byte(reset0, reset1, reset2, touch_probe, act), 5) == (act.act0
            == PinStatus::High),
        bit_set(instruction_byte(reset0, reset1, reset2, touch_probe, act), 6) == (act.act1
            == PinStatus::High),
        !bit_set(instruction_byte(reset0, reset1, reset2, touch_probe, act), 7),
{
    lemma_pack_instruction(
        flag_bit(reset0),
        flag_bit(reset1),
        flag_bit(reset2),
        flag_bit(touch_probe),
        pin_bit(act.act0),
        pin_bit(act.act1),
    );
}

fn flag(b: bool) -> (r: u8)
    ensures
        r == flag_bit(b),
{
    if b {
        1
    } else {
        0
    }
}

/// Encodes an instruction byte; the actuator pins take the levels in `act`.
pub fn encode_instruction(
    reset0: bool,
    reset1: bool,
    reset2: bool,
    touch_probe: bool,
    act: &ActuatorStatus,
) -> (r: u8)
    ensures
        r == instruction_byte(reset0, reset1, reset2, touch_probe, *act),
{
    let a0 = flag(bool::from(&act.act0));
    let a1 = flag(bool::from(&act.act1));
    let (r0, r1, r2, tp): (u8, u8, u8, u8) = (flag(reset0), flag(reset1), flag(reset2), flag(touch_probe));
    proof {
        lemma_pack_instruction(r0, r1, r2, tp, a0, a1);
    }
    r0 | (r1 << 1u8) | (r2 << 2u8) | (tp << 4u8) | (a0 << 5u8) | (a1 << 6u8)
}

/// Error of a bus transfer, as the bus reported it.
#[derive(Debug, Clone, Copy, PartialEq, Eq, PartialOrd, Ord)]
pub struct DeviceError<E>(pub E);

impl<E> From<E> for DeviceError<E> {
    fn from(value: E) -> (r: Self) {
        DeviceError(value)
    }
}

impl<E> vstd::std_specs::convert::FromSpecImpl<E> for DeviceError<E> {
    open spec fn obeys_from_spec() -> bool {
        true
    }

    open spec fn from_spec(v: E) -> DeviceError<E> {
        DeviceError(v)
    }
}

/// The bus over which the device is reached.
#[derive(Debug)]
pub struct DeviceInterface<Spi> {
    /// The SPI device that carries the transfers.
    pub spi: Spi,
}

impl<Spi> DeviceInterface<Spi> {
    /// Wraps an SPI device (SPI mode 0, at most 10 MHz).
    pub fn new(spi: Spi) -> (r: Self)
        ensures
            r.spi == spi,
    {
        Self { spi }
    }
}

} // verus!
