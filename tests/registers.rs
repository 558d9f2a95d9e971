use gbcpu::Registers;

#[test]
fn pair_set_then_get_round_trips_for_every_value() {
    let mut r = Registers::default();
    for v in 0..=0xFFFFu32 {
        let v = v as u16;
        r.set_bc(v);
        assert_eq!(r.get_bc(), v);
        r.set_de(v);
        assert_eq!(r.get_de(), v);
        r.set_hl(v);
        assert_eq!(r.get_hl(), v);
    }
}

#[test]
fn pair_is_high_byte_then_low_byte() {
    let mut r = Registers::new();
    r.b = 0x12;
    r.c = 0x34;
    assert_eq!(r.get_bc(), 0x1234);
    r.set_hl(0xABCD);
    assert_eq!(r.h, 0xAB);
    assert_eq!(r.l, 0xCD);
    r.set_de(0x00FF);
    assert_eq!(r.d, 0x00);
    assert_eq!(r.e, 0xFF);
}

#[test]
fn setting_a_pair_leaves_other_cells_alone() {
    let mut r = Registers::new();
    r.a = 1;
    r.b = 2;
    r.c = 3;
    r.set_hl(0x5566);
    assert_eq!((r.a, r.b, r.c, r.d, r.e), (1, 2, 3, 0, 0));
}
