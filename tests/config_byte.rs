use ic_md::{CntCfg, CntDirection, CntSetup, CntZSignal};

fn setup(dir: CntDirection, z: CntZSignal) -> CntSetup {
    CntSetup::new(dir, z)
}

fn all_modes(s: CntSetup) -> Vec<CntCfg> {
    vec![
        CntCfg::Cnt1Bit24(s),
        CntCfg::Cnt2Bit24(s, s),
        CntCfg::Cnt1Bit48(s),
        CntCfg::Cnt1Bit16(s),
        CntCfg::Cnt1Bit32(s),
        CntCfg::Cnt2Bit32Bit16(s, s),
        CntCfg::Cnt2Bit16(s, s),
        CntCfg::Cnt3Bit16(s, s, s),
    ]
}

#[test]
fn mode_selector_is_the_mode_position() {
    for (k, cfg) in all_modes(CntSetup::default()).into_iter().enumerate() {
        assert_eq!(u8::from(cfg), k as u8);
    }
}

#[test]
fn mode_selectors_are_distinct_whatever_the_setups() {
    let ccw = setup(CntDirection::CCW, CntZSignal::Inverted);
    let mut seen: Vec<u8> = all_modes(ccw).into_iter().map(|c| u8::from(c) & 7).collect();
    seen.sort();
    seen.dedup();
    assert_eq!(seen.len(), 8);
}

#[test]
fn direction_and_z_bits_one_counter() {
    let s = setup(CntDirection::CCW, CntZSignal::Inverted);
    assert_eq!(u8::from(CntCfg::Cnt1Bit24(s)), 0b0100_1000);
    assert_eq!(u8::from(CntCfg::Cnt1Bit48(s)), 0b0100_1010);
    assert_eq!(u8::from(CntCfg::Cnt1Bit16(s)), 0b0100_1011);
    assert_eq!(u8::from(CntCfg::Cnt1Bit32(s)), 0b0100_1100);
    let only_z = setup(CntDirection::CW, CntZSignal::Inverted);
    assert_eq!(u8::from(CntCfg::Cnt1Bit48(only_z)), 0b0100_0010);
}

#[test]
fn direction_and_z_bits_two_counters() {
    let a = setup(CntDirection::CCW, CntZSignal::Normal);
    let b = setup(CntDirection::CW, CntZSignal::Inverted);
    // counter 0 direction in bit 3, counter 1 Z polarity in bit 7
    assert_eq!(u8::from(CntCfg::Cnt2Bit24(a, b)), 0b1000_1001);
    // counter 1 direction in bit 4, counter 0 Z polarity in bit 6
    assert_eq!(u8::from(CntCfg::Cnt2Bit16(b, a)), 0b0101_0110);
    assert_eq!(u8::from(CntCfg::Cnt2Bit32Bit16(a, a)), 0b0001_1101);
}

#[test]
fn three_counters_ignore_z_signal() {
    let inverted = setup(CntDirection::CW, CntZSignal::Inverted);
    assert_eq!(u8::from(CntCfg::Cnt3Bit16(inverted, inverted, inverted)), 0b0000_0111);
    let ccw = setup(CntDirection::CCW, CntZSignal::Inverted);
    let cw = setup(CntDirection::CW, CntZSignal::Normal);
    assert_eq!(u8::from(CntCfg::Cnt3Bit16(cw, cw, ccw)), 0b0010_0111);
    assert_eq!(u8::from(CntCfg::Cnt3Bit16(cw, ccw, cw)), 0b0001_0111);
    assert_eq!(u8::from(CntCfg::Cnt3Bit16(ccw, cw, cw)), 0b0000_1111);
}

#[test]
fn setup_parts_to_bits() {
    assert_eq!(u8::from(CntDirection::CW), 0);
    assert_eq!(u8::from(CntDirection::CCW), 1);
    assert_eq!(u8::from(CntZSignal::Normal), 0);
    assert_eq!(u8::from(CntZSignal::Inverted), 1);
    let d = CntSetup::default();
    assert_eq!(d.count_direction, CntDirection::CW);
    assert_eq!(d.z_signal, CntZSignal::Normal);
}
