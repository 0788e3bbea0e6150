//! Configuration and status types of the device.
use vstd::prelude::*;

verus! {

/// Direction in which a counter counts positive.
#[derive(Debug, Clone, Copy, PartialEq, Eq, Structural)]
pub enum CntDirection {
    CW,
    CCW,
}

/// Polarity of the Z (index) signal of a counter.
#[derive(Debug, Clone, Copy, PartialEq, Eq, Structural)]
pub enum CntZSignal {
    Normal,
    Inverted,
}

/// Wire bit of a counting direction.
pub open spec fn direction_bit(d: CntDirection) -> u8 {
    match d {
        CntDirection::CW => 0,
        CntDirection::CCW => 1,
    }
}

/// Wire bit of a Z signal polarity.
pub open spec fn z_signal_bit(z: CntZSignal) -> u8 {
    match z {
        CntZSignal::Normal => 0,
        CntZSignal::Inverted => 1,
    }
}

impl From<CntDirection> for u8 {
    fn from(val: CntDirection) -> (r: u8) {
        match val {
            CntDirection::CW => 0,
            CntDirection::CCW => 1,
        }
    }
}

impl vstd::std_specs::convert::FromSpecImpl<CntDirection> for u8 {
    open spec fn obeys_from_spec() -> bool {
        true
    }

    open spec fn from_spec(v: CntDirection) -> u8 {
        direction_bit(v)
    }
}


impl From<CntZSignal> for u8 {
    fn from(val: CntZSignal) -> (r: u8) {
        match val {
            CntZSignal::Normal => 0,
            CntZSignal::Inverted => 1,
        }
    }
}

impl vstd::std_specs::convert::FromSpecImpl<CntZSignal> for u8 {
    open spec fn obeys_from_spec() -> bool {
        true
    }

    open spec fn from_spec(v: CntZSignal) -> u8 {
        z_signal_bit(v)
    }
}

/// Setup of one counter: its counting direction and the polarity of its Z signal.
#[derive(Debug, Clone, Copy, PartialEq, Eq, Structural)]
pub struct CntSetup {
    pub count_direction: CntDirection,
    pub z_signal: CntZSignal,
}

impl CntSetup {
    /// A counter setup with the given direction and Z signal.
    pub fn new(count_direction: CntDirection, z_signal: CntZSignal) -> (r: Self)
        ensures
            r.count_direction == count_direction,
            r.z_signal == z_signal,
    {
        Self { count_direction, z_signal }
    }
}

impl Default for CntSetup {
    /// Clockwise counting with a normal Z signal.
    fn default() -> (r: Self)
        ensures
            r.count_direction == CntDirection::CW,
            r.z_signal == CntZSignal::Normal,
    {
        Self { count_direction: CntDirection::CW, z_signal: CntZSignal::Normal }
    }
}

/// Counter configuration: one of the eight counting modes of the device, with the setup of
/// each counter that the mode defines. Counters are listed in the order 0, 1, 2.
///
/// The three-counter mode has no Z signal inputs: the Z polarity of its setups is ignored.
#[derive(Debug, Clone, Copy, PartialEq, Eq, Structural)]
pub enum CntCfg {
    /// Counter 0 = 24 bit.
    Cnt1Bit24(CntSetup),
    /// Counter 0 = 24 bit and counter 1 = 24 bit.
    Cnt2Bit24(CntSetup, CntSetup),
    /// Counter 0 = 48 bit.
    Cnt1Bit48(CntSetup),
    /// Counter 0 = 16 bit.
    Cnt1Bit16(CntSetup),
    /// Counter 0 = 32 bit.
    Cnt1Bit32(CntSetup),
    /// Counter 0 = 32 bit and counter 1 = 16 bit.
    Cnt2Bit32Bit16(CntSetup, CntSetup),
    /// Counter 0 = 16 bit and counter 1 = 16 bit.
    Cnt2Bit16(CntSetup, CntSetup),
    /// Counter 0, counter 1 and counter 2 = 16 bit each.
    Cnt3Bit16(CntSetup, CntSetup, CntSetup),
}

impl CntCfg {
    /// Mode selector: the position of the variant in the list above.
    pub open spec fn tag(self) -> u8 {
        match self {
            CntCfg::Cnt1Bit24(_) => 0,
            CntCfg::Cnt2Bit24(_, _) => 1,
            CntCfg::Cnt1Bit48(_) => 2,
            CntCfg::Cnt1Bit16(_) => 3,
            CntCfg::Cnt1Bit32(_) => 4,
            CntCfg::Cnt2Bit32Bit16(_, _) => 5,
            CntCfg::Cnt2Bit16(_, _) => 6,
            CntCfg::Cnt3Bit16(_, _, _) => 7,
        }
    }

    /// The setups of the counters of the mode, counter 0 first.
    pub open spec fn setups(self) -> Seq<CntSetup> {
        match self {
            CntCfg::Cnt1Bit24(a) => seq![a],
            CntCfg::Cnt2Bit24(a, b) => seq![a, b],
            CntCfg::Cnt1Bit48(a) => seq![a],
            CntCfg::Cnt1Bit16(a) => seq![a],
            CntCfg::Cnt1Bit32(a) => seq![a],
            CntCfg::Cnt2Bit32Bit16(a, b) => seq![a, b],
            CntCfg::Cnt2Bit16(a, b) => seq![a, b],
            CntCfg::Cnt3Bit16(a, b, c) => seq![a, b, c],
        }
    }

    /// Direction bit of counter `k`, 0 where the mode has no such counter.
    pub open spec fn direction_bit_of(self, k: int) -> u8 {
        if 0 <= k < self.setups().len() {
            direction_bit(self.setups()[k].count_direction)
        } else {
            0
        }
    }

    /// Z polarity bit of counter `k`, 0 where the mode has no such counter or no Z inputs.
    pub open spec fn z_signal_bit_of(self, k: int) -> u8 {
        if 0 <= k < self.setups().len() && self.setups().len() < 3 {
            z_signal_bit(self.setups()[k].z_signal)
        } else {
            0
        }
    }
}

/// Configuration register value from its fields: the mode selector in bits 0-2, the
/// direction bits of counters 0, 1 and 2 in bits 3, 4 and 5, and the Z polarity bits of
/// counters 0 and 1 in bits 6 and 7.
pub open spec fn pack_config(mode: u8, d0: u8, d1: u8, d2: u8, z0: u8, z1: u8) -> u8 {
    (mode + 8 * d0 + 16 * d1 + 32 * d2 + 64 * z0 + 128 * z1) as u8
}

/// The configuration register value of a mode.
pub open spec fn config_byte(cfg: CntCfg) -> u8 {
    pack_config(
        cfg.tag(),
        cfg.direction_bit_of(0),
        cfg.direction_bit_of(1),
        cfg.direction_bit_of(2),
        cfg.z_signal_bit_of(0),
        cfg.z_signal_bit_of(1),
    )
}

/// Whether bit `i` of `b` is set.
pub open spec fn bit_set(b: u8, i: u8) -> bool {
    (b >> i) & 1 == 1
}

proof fn lemma_pack_config(mode: u8, d0: u8, d1: u8, d2: u8, z0: u8, z1: u8)
    requires
        mode < 8,
        d0 < 2,
        d1 < 2,
        d2 < 2,
        z0 < 2,
        z1 < 2,
    ensures
        mode | (d0 << 3u8) | (d1 << 4u8) | (d2 << 5u8) | (z0 << 6u8) | (z1 << 7u8) == pack_config(
            mode,
            d0,
            d1,
            d2,
            z0,
            z1,
        ),
{
    assert(mode | (d0 << 3u8) | (d1 << 4u8) | (d2 << 5u8) | (z0 << 6u8) | (z1 << 7u8) == (mode + 8
        * d0 + 16 * d1 + 32 * d2 + 64 * z0 + 128 * z1) as u8) by (bit_vector)
        requires
            mode < 8,
            d0 < 2,
            d1 < 2,
            d2 < 2,
            z0 < 2,
            z1 < 2,
    ;
}

proof fn lemma_unpack_config(mode: u8, d0: u8, d1: u8, d2: u8, z0: u8, z1: u8)
    requires
        mode < 8,
        d0 < 2,
        d1 < 2,
        d2 < 2,
        z0 < 2,
        z1 < 2,
    ensures
        pack_config(mode, d0, d1, d2, z0, z1) & 7 == mode,
        bit_set(pack_config(mode, d0, d1, d2, z0, z1), 3) == (d0 == 1),
        bit_set(pack_config(mode, d0, d1, d2, z0, z1), 4) == (d1 == 1),
        bit_set(pack_config(mode, d0, d1, d2, z0, z1), 5) == (d2 == 1),
        bit_set(pack_config(mode, d0, d1, d2, z0, z1), 6) == (z0 == 1),
        bit_set(pack_config(mode, d0, d1, d2, z0, z1), 7) == (z1 == 1),
{
    let b = pack_config(mode, d0, d1, d2, z0, z1);
    assert(b == (mode + 8 * d0 + 16 * d1 + 32 * d2 + 64 * z0 + 128 * z1) as u8);
    assert({
        &&& b & 7 == mode
        &&& ((b >> 3u8) & 1 == 1) == (d0 == 1)
        &&& ((b >> 4u8) & 1 == 1) == (d1 == 1)
        &&& ((b >> 5u8) & 1 == 1) == (d2 == 1)
        &&& ((b >> 6u8) & 1 == 1) == (z0 == 1)
        &&& ((b >> 7u8) & 1 == 1) == (z1 == 1)
    }) by (bit_vector)
        requires
            b == (mode + 8 * d0 + 16 * d1 + 32 * d2 + 64 * z0 + 128 * z1) as u8,
            mode < 8,
            d0 < 2,
            d1 < 2,
            d2 < 2,
            z0 < 2,
            z1 < 2,
    ;
}

/// Layout of the configuration byte, the same in every mode: bits 0-2 hold the mode
/// selector, bits 3, 4 and 5 the direction of counters 0, 1 and 2, and bits 6 and 7 the Z
/// polarity of counters 0 and 1. A bit whose counter the mode lacks (or, for the Z
/// polarity, in the three-counter mode) is clear.
pub proof fn lemma_config_byte_layout(cfg: CntCfg)
    ensures
        config_byte(cfg) & 7 == cfg.tag(),
        bit_set(config_byte(cfg), 3) == (cfg.direction_bit_of(0) == 1),
        bit_set(config_byte(cfg), 4) == (cfg.direction_bit_of(1) == 1),
        bit_set(config_byte(cfg), 5) == (cfg.direction_bit_of(2) == 1),
        bit_set(config_byte(cfg), 6) == (cfg.z_signal_bit_of(0) == 1),
        bit_set(config_byte(cfg), 7) == (cfg.z_signal_bit_of(1) == 1),
        cfg.setups().len() == 1 ==> !bit_set(config_byte(cfg), 4) && !bit_set(config_byte(cfg), 7),
        cfg.setups().len() < 3 ==> !bit_set(config_byte(cfg), 5),
        cfg.setups().len() == 3 ==> !bit_set(config_byte(cfg), 6) && !bit_set(config_byte(cfg), 7),
        cfg.setups().len() > 0 ==> bit_set(config_byte(cfg), 3) == (cfg.setups()[0].count_direction
            == CntDirection::CCW),
        cfg.setups().len() > 1 ==> bit_set(config_byte(cfg), 4) == (cfg.setups()[1].count_direction
            == CntDirection::CCW),
        cfg.setups().len() > 2 ==> bit_set(config_byte(cfg), 5) == (cfg.setups()[2].count_direction
            == CntDirection::CCW),
        cfg.setups().len() < 3 ==> bit_set(config_byte(cfg), 6) == (cfg.setups()[0].z_signal
            == CntZSignal::Inverted),
        cfg.setups().len() == 2 ==> bit_set(config_byte(cfg), 7) == (cfg.setups()[1].z_signal
            == CntZSignal::Inverted),
{
    lemma_unpack_config(
        cfg.tag(),
        cfg.direction_bit_of(0),
        cfg.direction_bit_of(1),
        cfg.direction_bit_of(2),
        cfg.z_signal_bit_of(0),
        cfg.z_signal_bit_of(1),
    );
}

/// The mode selector tells the modes apart: two configurations have the same selector bits
/// exactly when they select the same mode.
pub proof fn lemma_config_mode_injective(a: CntCfg, b: CntCfg)
    ensures
        (config_byte(a) & 7 == config_byte(b) & 7) == (a.tag() == b.tag()),
{
    lemma_config_byte_layout(a);
    lemma_config_byte_layout(b);
}

/// The fields of the configuration byte of a mode: selector, direction bits of counters
/// 0, 1, 2 and Z polarity bits of counters 0, 1.
fn config_fields(val: CntCfg) -> (r: (u8, u8, u8, u8, u8, u8))
    ensures
        r.0 == val.tag(),
        r.1 == val.direction_bit_of(0),
        r.2 == val.direction_bit_of(1),
        r.3 == val.direction_bit_of(2),
        r.4 == val.z_signal_bit_of(0),
        r.5 == val.z_signal_bit_of(1),
{
    match val {
        CntCfg::Cnt1Bit24(i) => (0, u8::from(i.count_direction), 0, 0, u8::from(i.z_signal), 0),
        CntCfg::Cnt2Bit24(i, j) => (
            1,
            u8::from(i.count_direction),
            u8::from(j.count_direction),
            0,
            u8::from(i.z_signal),
            u8::from(j.z_signal),
        ),
        CntCfg::Cnt1Bit48(i) => (2, u8::from(i.count_direction), 0, 0, u8::from(i.z_signal), 0),
        CntCfg::Cnt1Bit16(i) => (3, u8::from(i.count_direction), 0, 0, u8::from(i.z_signal), 0),
        CntCfg::Cnt1Bit32(i) => (4, u8::from(i.count_direction), 0, 0, u8::from(i.z_signal), 0),
        CntCfg::Cnt2Bit32Bit16(i, j) => (
            5,
            u8::from(i.count_direction),
            u8::from(j.count_direction),
            0,
            u8::from(i.z_signal),
            u8::from(j.z_signal),
        ),
        CntCfg::Cnt2Bit16(i, j) => (
            6,
            u8::from(i.count_direction),
            u8::from(j.count_direction),
            0,
            u8::from(i.z_signal),
            u8::from(j.z_signal),
        ),
        // no Z inputs exist in this mode: their polarity is not encoded
        CntCfg::Cnt3Bit16(i, j, k) => (
            7,
            u8::from(i.count_direction),
            u8::from(j.count_direction),
            u8::from(k.count_direction),
            0,
            0,
        ),
    }
}

impl From<CntCfg> for u8 {
    /// The configuration register value of a mode.
    fn from(val: CntCfg) -> (r: u8)
        ensures
            r == config_byte(val),
    {
        let (mode, d0, d1, d2, z0, z1): (u8, u8, u8, u8, u8, u8) = config_fields(val);
        proof {
            lemma_pack_config(mode, d0, d1, d2, z0, z1);
        }
        mode | (d0 << 3u8) | (d1 << 4u8) | (d2 << 5u8) | (z0 << 6u8) | (z1 << 7u8)
    }
}

impl vstd::std_specs::convert::FromSpecImpl<CntCfg> for u8 {
    open spec fn obeys_from_spec() -> bool {
        true
    }

    open spec fn from_spec(v: CntCfg) -> u8 {
        config_byte(v)
    }
}

/// Counter values read from the device, in the shape of the counting mode. Where a mode
/// has several counters, the values are in the order counter 0, counter 1, counter 2. Each
/// value is held in the smallest signed type that holds the counter's width.
#[derive(Debug, Clone, Copy, PartialEq, Eq, Structural)]
pub enum CntCount {
    Cnt1Bit24(i32),
    Cnt2Bit24(i32, i32),
    Cnt1Bit48(i64),
    Cnt1Bit16(i16),
    Cnt1Bit32(i32),
    Cnt2Bit32Bit16(i32, i16),
    Cnt2Bit16(i16, i16),
    Cnt3Bit16(i16, i16, i16),
}

impl CntCount {
    /// The mode selector of the mode whose shape the values have (see `CntCfg::tag`).
    pub open spec fn tag(self) -> u8 {
        match self {
            CntCount::Cnt1Bit24(_) => 0,
            CntCount::Cnt2Bit24(_, _) => 1,
            CntCount::Cnt1Bit48(_) => 2,
            CntCount::Cnt1Bit16(_) => 3,
            CntCount::Cnt1Bit32(_) => 4,
            CntCount::Cnt2Bit32Bit16(_, _) => 5,
            CntCount::Cnt2Bit16(_, _) => 6,
            CntCount::Cnt3Bit16(_, _, _) => 7,
        }
    }

    /// The counter values, counter 0 first.
    pub open spec fn channels(self) -> Seq<int> {
        match self {
            CntCount::Cnt1Bit24(a) => seq![a as int],
            CntCount::Cnt2Bit24(a, b) => seq![a as int, b as int],
            CntCount::Cnt1Bit48(a) => seq![a as int],
            CntCount::Cnt1Bit16(a) => seq![a as int],
            CntCount::Cnt1Bit32(a) => seq![a as int],
            CntCount::Cnt2Bit32Bit16(a, b) => seq![a as int, b as int],
            CntCount::Cnt2Bit16(a, b) => seq![a as int, b as int],
            CntCount::Cnt3Bit16(a, b, c) => seq![a as int, b as int, c as int],
        }
    }

    /// Value of counter 0, which every mode has.
    pub fn get_cnt0(&self) -> (r: Option<i64>)
        ensures
            r == Some(self.channels()[0] as i64),
    {
        match self {
            CntCount::Cnt1Bit24(val) => Some(*val as i64),
            CntCount::Cnt2Bit24(val, _) => Some(*val as i64),
            CntCount::Cnt1Bit48(val) => Some(*val),
            CntCount::Cnt1Bit16(val) => Some(*val as i64),
            CntCount::Cnt1Bit32(val) => Some(*val as i64),
            CntCount::Cnt2Bit32Bit16(val, _) => Some(*val as i64),
            CntCount::Cnt2Bit16(val, _) => Some(*val as i64),
            CntCount::Cnt3Bit16(val, _, _) => Some(*val as i64),
        }
    }

    /// Value of counter 1, if the mode has it.
    pub fn get_cnt1(&self) -> (r: Option<i64>)
        ensures
            self.channels().len() > 1 ==> r == Some(self.channels()[1] as i64),
            self.channels().len() <= 1 ==> r is None,
    {
        match self {
            CntCount::Cnt2Bit24(_, val) => Some(*val as i64),
            CntCount::Cnt2Bit32Bit16(_, val) => Some(*val as i64),
            CntCount::Cnt2Bit16(_, val) => Some(*val as i64),
            CntCount::Cnt3Bit16(_, val, _) => Some(*val as i64),
            _ => None,
        }
    }

    /// Value of counter 2, if the mode has it.
    pub fn get_cnt2(&self) -> (r: Option<i64>)
        ensures
            self.channels().len() > 2 ==> r == Some(self.channels()[2] as i64),
            self.channels().len() <= 2 ==> r is None,
    {
        match self {
            CntCount::Cnt3Bit16(_, _, val) => Some(*val as i64),
            _ => None,
        }
    }
}

/// Warning status: whether a warning has occurred.
#[derive(Debug, Default, Clone, Copy, PartialEq, Eq, Structural)]
pub enum WarningStatus {
    #[default]
    NoWarning,
    Warning,
}

impl From<bool> for WarningStatus {
    fn from(val: bool) -> (r: Self) {
        match val {
            true => WarningStatus::Warning,
            false => WarningStatus::NoWarning,
        }
    }
}

impl vstd::std_specs::convert::FromSpecImpl<bool> for WarningStatus {
    open spec fn obeys_from_spec() -> bool {
        true
    }

    open spec fn from_spec(v: bool) -> WarningStatus {
        if v {
            WarningStatus::Warning
        } else {
            WarningStatus::NoWarning
        }
    }
}

/// Error status: whether an error has occurred.
#[derive(Debug, Default, Clone, Copy, PartialEq, Eq, Structural)]
pub enum ErrorStatus {
    #[default]
    NoError,
    Error,
}

impl From<bool> for ErrorStatus {
    fn from(val: bool) -> (r: Self) {
        match val {
            true => ErrorStatus::Error,
            false => ErrorStatus::NoError,
        }
    }
}

impl vstd::std_specs::convert::FromSpecImpl<bool> for ErrorStatus {
    open spec fn obeys_from_spec() -> bool {
        true
    }

    open spec fn from_spec(v: bool) -> ErrorStatus {
        if v {
            ErrorStatus::Error
        } else {
            ErrorStatus::NoError
        }
    }
}

/// Decodification status of the AB inputs of a counter. An error means that the
/// counting frequency is too high or that two incremental edges are too close together.
#[derive(Debug, Default, Clone, Copy, PartialEq, Eq, Structural)]
pub enum DecodificationStatus {
    #[default]
    NoError,
    DecodificationError,
}

impl From<bool> for DecodificationStatus {
    fn from(val: bool) -> (r: Self) {
        match val {
            true => DecodificationStatus::DecodificationError,
            false => DecodificationStatus::NoError,
        }
    }
}

impl vstd::std_specs::convert::FromSpecImpl<bool> for DecodificationStatus {
    open spec fn obeys_from_spec() -> bool {
        true
    }

    open spec fn from_spec(v: bool) -> DecodificationStatus {
        if v {
            DecodificationStatus::DecodificationError
        } else {
            DecodificationStatus::NoError
        }
    }
}

/// Overflow status of a counter.
#[derive(Debug, Default, Clone, Copy, PartialEq, Eq, Structural)]
pub enum OverflowStatus {
    #[default]
    NoOverflow,
    Overflow,
}

impl From<bool> for OverflowStatus {
    fn from(val: bool) -> (r: Self) {
        match val {
            true => OverflowStatus::Overflow,
            false => OverflowStatus::NoOverflow,
        }
    }
}

impl vstd::std_specs::convert::FromSpecImpl<bool> for OverflowStatus {
    open spec fn obeys_from_spec() -> bool {
        true
    }

    open spec fn from_spec(v: bool) -> OverflowStatus {
        if v {
            OverflowStatus::Overflow
        } else {
            OverflowStatus::NoOverflow
        }
    }
}

/// Whether a counter has reached the zero value.
#[derive(Debug, Default, Clone, Copy, PartialEq, Eq, Structural)]
pub enum ZeroStatus {
    #[default]
    NotZero,
    Zero,
}

impl From<bool> for ZeroStatus {
    fn from(val: bool) -> (r: Self) {
        match val {
            true => ZeroStatus::Zero,
            false => ZeroStatus::NotZero,
        }
    }
}

impl vstd::std_specs::convert::FromSpecImpl<bool> for ZeroStatus {
    open spec fn obeys_from_spec() -> bool {
        true
    }

    open spec fn from_spec(v: bool) -> ZeroStatus {
        if v {
            ZeroStatus::Zero
        } else {
            ZeroStatus::NotZero
        }
    }
}

/// Power status: whether the device was reset because its supply fell below the power
/// off level, which also sets its RAM back to the default values.
#[derive(Debug, Default, Clone, Copy, PartialEq, Eq, Structural)]
pub enum UndervoltageStatus {
    #[default]
    NoUndervoltage,
    Undervoltage,
}

impl From<bool> for UndervoltageStatus {
    fn from(val: bool) -> (r: Self) {
        match val {
            true => UndervoltageStatus::Undervoltage,
            false => UndervoltageStatus::NoUndervoltage,
        }
    }
}

impl vstd::std_specs::convert::FromSpecImpl<bool> for UndervoltageStatus {
    open spec fn obeys_from_spec() -> bool {
        true
    }

    open spec fn from_spec(v: bool) -> UndervoltageStatus {
        if v {
            UndervoltageStatus::Undervoltage
        } else {
            UndervoltageStatus::NoUndervoltage
        }
    }
}

/// Whether a register holds a valid value. The status bit is set while the register is
/// valid.
#[derive(Debug, Default, Clone, Copy, PartialEq, Eq, Structural)]
pub enum RegisterStatus {
    #[default]
    Valid,
    Invalid,
}

impl From<bool> for RegisterStatus {
    fn from(val: bool) -> (r: Self) {
        match val {
            true => RegisterStatus::Valid,
            false => RegisterStatus::Invalid,
        }
    }
}

impl vstd::std_specs::convert::FromSpecImpl<bool> for RegisterStatus {
    open spec fn obeys_from_spec() -> bool {
        true
    }

    open spec fn from_spec(v: bool) -> RegisterStatus {
        if v {
            RegisterStatus::Valid
        } else {
            RegisterStatus::Invalid
        }
    }
}

/// Whether new values were loaded into the touch probe registers.
#[derive(Debug, Default, Clone, Copy, PartialEq, Eq, Structural)]
pub enum TouchProbeStatus {
    #[default]
    NotUpdated,
    Updated,
}

impl From<bool> for TouchProbeStatus {
    fn from(val: bool) -> (r: Self) {
        match val {
            true => TouchProbeStatus::Updated,
            false => TouchProbeStatus::NotUpdated,
        }
    }
}

impl vstd::std_specs::convert::FromSpecImpl<bool> for TouchProbeStatus {
    open spec fn obeys_from_spec() -> bool {
        true
    }

    open spec fn from_spec(v: bool) -> TouchProbeStatus {
        if v {
            TouchProbeStatus::Updated
        } else {
            TouchProbeStatus::NotUpdated
        }
    }
}

/// Whether a communication collision has taken place.
#[derive(Debug, Default, Clone, Copy, PartialEq, Eq, Structural)]
pub enum CommunicationStatus {
    #[default]
    NoCollision,
    Collision,
}

impl From<bool> for CommunicationStatus {
    fn from(val: bool) -> (r: Self) {
        match val {
            true => CommunicationStatus::Collision,
            false => CommunicationStatus::NoCollision,
        }
    }
}

impl vstd::std_specs::convert::FromSpecImpl<bool> for CommunicationStatus {
    open spec fn obeys_from_spec() -> bool {
        true
    }

    open spec fn from_spec(v: bool) -> CommunicationStatus {
        if v {
            CommunicationStatus::Collision
        } else {
            CommunicationStatus::NoCollision
        }
    }
}

/// Whether an interface is enabled.
#[derive(Debug, Default, Clone, Copy, PartialEq, Eq, Structural)]
pub enum InterfaceStatus {
    #[default]
    Disabled,
    Enabled,
}

impl From<bool> for InterfaceStatus {
    fn from(val: bool) -> (r: Self) {
        match val {
            true => InterfaceStatus::Enabled,
            false => InterfaceStatus::Disabled,
        }
    }
}

impl vstd::std_specs::convert::FromSpecImpl<bool> for InterfaceStatus {
    open spec fn obeys_from_spec() -> bool {
        true
    }

    open spec fn from_spec(v: bool) -> InterfaceStatus {
        if v {
            InterfaceStatus::Enabled
        } else {
            InterfaceStatus::Disabled
        }
    }
}

/// Level of a pin: `High` is VDD, `Low` is GND.
#[derive(Debug, Default, Clone, Copy, PartialEq, Eq, Structural)]
pub enum PinStatus {
    #[default]
    Low,
    High,
}

impl From<bool> for PinStatus {
    fn from(val: bool) -> (r: Self) {
        match val {
            true => PinStatus::High,
            false => PinStatus::Low,
        }
    }
}

impl vstd::std_specs::convert::FromSpecImpl<bool> for PinStatus {
    open spec fn obeys_from_spec() -> bool {
        true
    }

    open spec fn from_spec(v: bool) -> PinStatus {
        if v {
            PinStatus::High
        } else {
            PinStatus::Low
        }
    }
}

impl From<&PinStatus> for bool {
    fn from(val: &PinStatus) -> (r: bool) {
        match val {
            PinStatus::High => true,
            PinStatus::Low => false,
        }
    }
}

impl vstd::std_specs::convert::FromSpecImpl<&PinStatus> for bool {
    open spec fn obeys_from_spec() -> bool {
        true
    }

    open spec fn from_spec(v: &PinStatus) -> bool {
        *v == PinStatus::High
    }
}

/// Device status: the warning and error flags that come with every counter read.
#[derive(Debug, Default, Clone, Copy, PartialEq, Eq, Structural)]
pub struct DeviceStatus {
    pub warning: WarningStatus,
    pub error: ErrorStatus,
}

impl DeviceStatus {
    /// Whether the device reports neither a warning nor an error.
    pub fn is_ok(&self) -> (r: bool)
        ensures
            r == (self.warning == WarningStatus::NoWarning && self.error == ErrorStatus::NoError),
    {
        self.warning == WarningStatus::NoWarning && self.error == ErrorStatus::NoError
    }

    /// The warning flag.
    pub fn get_warning(&self) -> (r: WarningStatus)
        ensures
            r == self.warning,
    {
        self.warning
    }

    /// The error flag.
    pub fn get_error(&self) -> (r: ErrorStatus)
        ensures
            r == self.error,
    {
        self.error
    }
}

/// Full device status, as held by the three status registers. The status of every counter
/// is reported, also of counters that the current mode does not use.
#[derive(Debug, Default, Clone, Copy, PartialEq, Eq, Structural)]
pub struct FullDeviceStatus {
    /// Overflow of counter 0.
    pub cnt0_overflow: OverflowStatus,
    /// Decodification error of the AB inputs of counter 0.
    pub cnt0_aberr: DecodificationStatus,
    /// Zero status of counter 0.
    pub cnt0_zero: ZeroStatus,
    /// Overflow of counter 1.
    pub cnt1_overflow: OverflowStatus,
    /// Decodification error of the AB inputs of counter 1.
    pub cnt1_aberr: DecodificationStatus,
    /// Zero status of counter 1.
    pub cnt1_zero: ZeroStatus,
    /// Overflow of counter 2.
    pub cnt2_overflow: OverflowStatus,
    /// Decodification error of the AB inputs of counter 2.
    pub cnt2_aberr: DecodificationStatus,
    /// Zero status of counter 2.
    pub cnt2_zero: ZeroStatus,
    /// Whether an undervoltage reset has occurred.
    pub power_status: UndervoltageStatus,
    /// Whether the reference register is valid.
    pub ref_reg_status: RegisterStatus,
    /// Whether the UPD register is valid.
    pub upd_reg_status: RegisterStatus,
    /// Overflow of the reference counter.
    pub ref_cnt_status: OverflowStatus,
    /// Whether an external error has occurred.
    pub ext_err_status: ErrorStatus,
    /// Whether an external warning has occurred.
    pub ext_warn_status: WarningStatus,
    /// Whether a communication collision has occurred.
    pub comm_status: CommunicationStatus,
    /// Whether the touch probe registers were updated.
    pub tp_status: TouchProbeStatus,
    /// Level of the TPI pin.
    pub tpi_status: PinStatus,
    /// Whether the SSI interface is enabled.
    pub ssi_enabled: InterfaceStatus,
}

/// Levels last commanded to the actuator pins ACT0 and ACT1. The device cannot report them,
/// so this record is the only account of them; both start `Low`.
#[derive(Debug, Default, Clone, Copy, PartialEq, Eq, Structural)]
pub struct ActuatorStatus {
    pub act0: PinStatus,
    pub act1: PinStatus,
}

} // verus!
