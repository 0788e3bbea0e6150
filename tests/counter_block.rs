use ic_md::dd::{counter_block_size, decode_counter_block};
use ic_md::field::read_be_int;
use ic_md::{CntCfg, CntCount, CntSetup};

fn d() -> CntSetup {
    CntSetup::default()
}

fn status(nwarn: bool, nerr: bool) -> u8 {
    (if nwarn { 0x40 } else { 0 }) | (if nerr { 0x80 } else { 0 })
}

fn be(v: i64, n: usize) -> Vec<u8> {
    v.to_be_bytes()[8 - n..].to_vec()
}

#[test]
fn block_sizes() {
    assert_eq!(counter_block_size(&CntCfg::Cnt1Bit24(d())), 4);
    assert_eq!(counter_block_size(&CntCfg::Cnt2Bit24(d(), d())), 7);
    assert_eq!(counter_block_size(&CntCfg::Cnt1Bit48(d())), 7);
    assert_eq!(counter_block_size(&CntCfg::Cnt1Bit16(d())), 3);
    assert_eq!(counter_block_size(&CntCfg::Cnt1Bit32(d())), 5);
    assert_eq!(counter_block_size(&CntCfg::Cnt2Bit32Bit16(d(), d())), 7);
    assert_eq!(counter_block_size(&CntCfg::Cnt2Bit16(d(), d())), 5);
    assert_eq!(counter_block_size(&CntCfg::Cnt3Bit16(d(), d(), d())), 8);
}

#[test]
fn sign_extension_of_fields() {
    assert_eq!(read_be_int(&[0xFF, 0xFF], 0, 2), -1);
    assert_eq!(read_be_int(&[0xFF, 0xFF, 0xFF], 0, 3), -1);
    assert_eq!(read_be_int(&[0xFF; 6], 0, 6), -1);
    assert_eq!(read_be_int(&[0xFF, 0xFF, 0xFD], 0, 3), -3);
    assert_eq!(read_be_int(&[0x80, 0x00], 0, 2), -32768);
    assert_eq!(read_be_int(&[0x7F, 0xFF], 0, 2), 32767);
    assert_eq!(read_be_int(&[0x00, 0x12, 0x34, 0x56], 1, 3), 0x123456);
}

#[test]
fn sign_extension_in_blocks() {
    let (c, _, _) = decode_counter_block(&CntCfg::Cnt1Bit16(d()), &[0xFF, 0xFF, 0xC0]);
    assert_eq!(c, CntCount::Cnt1Bit16(-1));
    let (c, _, _) = decode_counter_block(&CntCfg::Cnt1Bit24(d()), &[0xFF, 0xFF, 0xFF, 0xC0]);
    assert_eq!(c, CntCount::Cnt1Bit24(-1));
    let (c, _, _) = decode_counter_block(&CntCfg::Cnt1Bit24(d()), &[0xFF, 0xFF, 0xFD, 0xC0]);
    assert_eq!(c, CntCount::Cnt1Bit24(-3));
    let (c, _, _) = decode_counter_block(&CntCfg::Cnt1Bit48(d()), &[0xFF, 0xFF, 0xFF, 0xFF, 0xFF, 0xFF, 0xC0]);
    assert_eq!(c, CntCount::Cnt1Bit48(-1));
}

#[test]
fn status_bits_of_blocks() {
    let cfg = CntCfg::Cnt1Bit16(d());
    for (nwarn, nerr) in [(false, false), (true, false), (false, true), (true, true)] {
        let (_, w, e) = decode_counter_block(&cfg, &[0x00, 0x01, status(nwarn, nerr)]);
        assert_eq!((w, e), (nwarn, nerr));
    }
    // the low six bits of the status byte are not flags
    let (_, w, e) = decode_counter_block(&cfg, &[0x00, 0x01, 0x3F]);
    assert_eq!((w, e), (false, false));
}

#[test]
fn round_trip_every_mode() {
    let cases: Vec<(CntCfg, CntCount, Vec<u8>)> = vec![
        (CntCfg::Cnt1Bit24(d()), CntCount::Cnt1Bit24(-8_388_608), be(-8_388_608, 3)),
        (
            CntCfg::Cnt2Bit24(d(), d()),
            CntCount::Cnt2Bit24(8_388_607, -77),
            [be(-77, 3), be(8_388_607, 3)].concat(),
        ),
        (CntCfg::Cnt1Bit48(d()), CntCount::Cnt1Bit48(-140_737_488_355_328), be(-140_737_488_355_328, 6)),
        (CntCfg::Cnt1Bit16(d()), CntCount::Cnt1Bit16(-300), be(-300, 2)),
        (CntCfg::Cnt1Bit32(d()), CntCount::Cnt1Bit32(i32::MIN), be(i32::MIN as i64, 4)),
        (
            CntCfg::Cnt2Bit32Bit16(d(), d()),
            CntCount::Cnt2Bit32Bit16(-100_000, 1234),
            [be(1234, 2), be(-100_000, 4)].concat(),
        ),
        (
            CntCfg::Cnt2Bit16(d(), d()),
            CntCount::Cnt2Bit16(i16::MAX, i16::MIN),
            [be(i16::MIN as i64, 2), be(i16::MAX as i64, 2)].concat(),
        ),
        (
            CntCfg::Cnt3Bit16(d(), d(), d()),
            CntCount::Cnt3Bit16(1, -2, 3),
            [vec![0x00], be(3, 2), be(-2, 2), be(1, 2)].concat(),
        ),
    ];
    for (cfg, count, fields) in cases {
        for (nwarn, nerr) in [(false, true), (true, false)] {
            let mut block = fields.clone();
            block.push(status(nwarn, nerr));
            assert_eq!(block.len(), counter_block_size(&cfg));
            assert_eq!(decode_counter_block(&cfg, &block), (count, nwarn, nerr));
        }
    }
}

#[test]
fn three_counter_layout() {
    let block = [0xAA, 0x00, 0x03, 0x00, 0x02, 0x00, 0x01, 0xC0];
    let (c, _, _) = decode_counter_block(&CntCfg::Cnt3Bit16(d(), d(), d()), &block);
    assert_eq!(c.get_cnt0(), Some(1));
    assert_eq!(c.get_cnt1(), Some(2));
    assert_eq!(c.get_cnt2(), Some(3));
}

#[test]
fn counter_getters() {
    assert_eq!(CntCount::Cnt1Bit24(5).get_cnt0(), Some(5));
    assert_eq!(CntCount::Cnt1Bit24(5).get_cnt1(), None);
    assert_eq!(CntCount::Cnt1Bit24(5).get_cnt2(), None);
    assert_eq!(CntCount::Cnt1Bit48(-(1 << 40)).get_cnt0(), Some(-(1 << 40)));
    assert_eq!(CntCount::Cnt2Bit32Bit16(-7, 9).get_cnt0(), Some(-7));
    assert_eq!(CntCount::Cnt2Bit32Bit16(-7, 9).get_cnt1(), Some(9));
    assert_eq!(CntCount::Cnt2Bit32Bit16(-7, 9).get_cnt2(), None);
    assert_eq!(CntCount::Cnt3Bit16(4, 5, 6).get_cnt2(), Some(6));
}
