use ic_md::dd::DeviceError;
use ic_md::{
    CntCfg, CntCount, CntDirection, CntSetup, CntZSignal, ErrorStatus, IcMd, PinStatus,
    WarningStatus,
};

#[derive(Debug, Clone, Copy, PartialEq, Eq)]
struct BusFault(u8);

#[test]
fn scenario_default_mode_reads_42() {
    let mut icmd = IcMd::new();
    let c = icmd
        .read_counter::<BusFault>(Ok(vec![0x00, 0x00, 0x00, 0x00, 0x00, 0x2A, 0xC0]))
        .unwrap();
    assert_eq!(c, CntCount::Cnt1Bit48(42));
    let st = icmd.get_device_status();
    assert_eq!(st.get_warning(), WarningStatus::NoWarning);
    assert_eq!(st.get_error(), ErrorStatus::NoError);
}

#[test]
fn scenario_two_16_bit_counters() {
    let mut icmd = IcMd::new();
    icmd.set_counter_config(CntCfg::Cnt2Bit16(
        CntSetup::new(CntDirection::CCW, CntZSignal::Inverted),
        CntSetup::new(CntDirection::CW, CntZSignal::Normal),
    ));
    let c = icmd
        .read_counter::<BusFault>(Ok(vec![0x00, 0x2A, 0x00, 0x0D, 0xC0]))
        .unwrap();
    assert_eq!(c, CntCount::Cnt2Bit16(13, 42));
}

#[test]
fn scenario_negative_values() {
    let mut icmd = IcMd::new();
    let c = icmd
        .read_counter::<BusFault>(Ok(vec![0xFF, 0xFF, 0xFF, 0xFF, 0xFF, 0xFF, 0xC0]))
        .unwrap();
    assert_eq!(c.get_cnt0(), Some(-1));
    icmd.set_counter_config(CntCfg::Cnt2Bit24(CntSetup::default(), CntSetup::default()));
    assert_eq!(icmd.counter_read().len, 7);
    let c = icmd
        .read_counter::<BusFault>(Ok(vec![0xFF, 0xFF, 0xFF, 0xFF, 0xFF, 0xFD, 0xC0]))
        .unwrap();
    assert_eq!(c, CntCount::Cnt2Bit24(-3, -1));
}

#[test]
fn warning_and_error_flags_are_active_low() {
    let mut icmd = IcMd::new();
    icmd.set_counter_config(CntCfg::Cnt1Bit16(CntSetup::default()));
    icmd.read_counter::<BusFault>(Ok(vec![0x00, 0x00, 0x00])).unwrap();
    let st = icmd.get_device_status();
    assert_eq!(st.get_warning(), WarningStatus::Warning);
    assert_eq!(st.get_error(), ErrorStatus::Error);
    assert!(!st.is_ok());
    icmd.read_counter::<BusFault>(Ok(vec![0x00, 0x00, 0x80])).unwrap();
    let st = icmd.get_device_status();
    assert_eq!(st.get_warning(), WarningStatus::Warning);
    assert_eq!(st.get_error(), ErrorStatus::NoError);
    icmd.read_counter::<BusFault>(Ok(vec![0x00, 0x00, 0xC0])).unwrap();
    assert!(icmd.get_device_status().is_ok());
}

#[test]
fn failed_counter_read_changes_nothing() {
    let mut icmd = IcMd::new();
    icmd.set_counter_config(CntCfg::Cnt1Bit16(CntSetup::default()));
    icmd.read_counter::<BusFault>(Ok(vec![0x00, 0x00, 0x40])).unwrap();
    let before = icmd.get_device_status();
    let r = icmd.read_counter::<BusFault>(Err(BusFault(7)));
    assert_eq!(r, Err(DeviceError(BusFault(7))));
    assert_eq!(icmd.get_device_status(), before);
    assert_eq!(icmd.counter_read().len, 3);
}

#[test]
fn reset_carries_default_pin_levels() {
    let icmd = IcMd::new();
    let w = icmd.reset_counters(true, false, true);
    assert_eq!(w.command(), 0x30);
    assert_eq!(w.data, vec![0b0000_0101]);
    assert_eq!(icmd.reset_all_counters().data, vec![0b0000_0111]);
}

#[test]
fn reset_carries_commanded_pin_levels() {
    let mut icmd = IcMd::new();
    let w = IcMd::actuator_pins_write(&PinStatus::High, &PinStatus::Low);
    assert_eq!(w.command(), 0x30);
    assert_eq!(w.data, vec![0b0010_0000]);
    icmd.configure_actuator_pins::<BusFault>(&PinStatus::High, &PinStatus::Low, Ok(()))
        .unwrap();
    assert_eq!(icmd.reset_counters(false, true, false).data, vec![0b0010_0010]);

    icmd.configure_actuator_pins::<BusFault>(&PinStatus::Low, &PinStatus::High, Ok(()))
        .unwrap();
    assert_eq!(icmd.reset_all_counters().data, vec![0b0100_0111]);
    assert_eq!(icmd.touch_probe_instruction().data, vec![0b0101_0000]);
}

#[test]
fn failed_pin_write_is_not_recorded() {
    let mut icmd = IcMd::new();
    icmd.configure_actuator_pins::<BusFault>(&PinStatus::High, &PinStatus::High, Ok(()))
        .unwrap();
    let r = icmd.configure_actuator_pins(&PinStatus::Low, &PinStatus::Low, Err(BusFault(1)));
    assert_eq!(r, Err(DeviceError(BusFault(1))));
    assert_eq!(icmd.reset_counters(false, false, false).data, vec![0b0110_0000]);
}

#[test]
fn touch_probe_with_default_pins() {
    let icmd = IcMd::new();
    let w = icmd.touch_probe_instruction();
    assert_eq!(w.command(), 0x30);
    assert_eq!(w.data, vec![0b0001_0000]);
}

#[test]
fn full_status_replaces_cached_status() {
    let mut icmd = IcMd::new();
    // external warning in status register 1
    let full = icmd.get_full_device_status::<BusFault>(Ok((0x00, 0x04, 0x00))).unwrap();
    assert_eq!(full.ext_warn_status, WarningStatus::Warning);
    assert_eq!(icmd.get_device_status().get_warning(), WarningStatus::Warning);
    assert_eq!(icmd.get_device_status().get_error(), ErrorStatus::NoError);
    // external error only
    icmd.get_full_device_status::<BusFault>(Ok((0x00, 0x08, 0x00))).unwrap();
    assert_eq!(icmd.get_device_status().get_warning(), WarningStatus::NoWarning);
    assert_eq!(icmd.get_device_status().get_error(), ErrorStatus::Error);
}

#[test]
fn failed_full_status_changes_nothing() {
    let mut icmd = IcMd::new();
    icmd.read_counter::<BusFault>(Ok(vec![0, 0, 0, 0, 0, 0, 0x80])).unwrap();
    let before = icmd.get_device_status();
    let r = icmd.get_full_device_status(Err(BusFault(3)));
    assert_eq!(r, Err(DeviceError(BusFault(3))));
    assert_eq!(icmd.get_device_status(), before);
}

#[test]
fn init_follows_selected_mode() {
    let mut icmd = IcMd::new();
    icmd.set_counter_config(CntCfg::Cnt3Bit16(
        CntSetup::new(CntDirection::CCW, CntZSignal::Inverted),
        CntSetup::default(),
        CntSetup::default(),
    ));
    assert_eq!(icmd.init().data, vec![0b0000_1111]);
    assert_eq!(icmd.counter_read().len, 8);
}

#[test]
fn device_error_from_bus_error() {
    let e: DeviceError<BusFault> = DeviceError::from(BusFault(9));
    assert_eq!(e.0, BusFault(9));
}
