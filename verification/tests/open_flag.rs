use devkit::data::OpenFlag;

fn options(f: &OpenFlag) -> [bool; 8] {
    [
        f.get_only(),
        f.get_read_int(),
        f.get_write_int(),
        f.get_read_block(),
        f.get_write_block(),
        f.get_read_c_type(),
        f.get_read_async(),
        f.get_write_async(),
    ]
}

#[test]
fn zero_has_every_option_off() {
    let f = OpenFlag::zero();
    assert_eq!(options(&f), [false; 8]);
}

#[test]
fn each_setter_sets_only_its_own_bit() {
    for i in 0..8usize {
        let mut f = OpenFlag::zero();
        match i {
            0 => { f.set_only(true); }
            1 => { f.set_read_int(true); }
            2 => { f.set_write_int(true); }
            3 => { f.set_read_block(true); }
            4 => { f.set_write_block(true); }
            5 => { f.set_read_c_type(true); }
            6 => { f.set_read_async(true); }
            7 => { f.set_write_async(true); }
            _ => unreachable!(),
        }
        let opts = options(&f);
        for j in 0..8usize {
            assert_eq!(opts[j], i == j);
        }
    }
}

#[test]
fn toggling_one_bit_never_changes_another() {
    let mut f = OpenFlag::zero();
    f.set_read_int(true);
    f.set_write_block(true);
    let before = options(&f);
    f.set_read_async(true);
    f.set_read_async(false);
    let after = options(&f);
    assert_eq!(before, after);
}

#[test]
fn clearing_a_set_bit_restores_zero() {
    let mut f = OpenFlag::zero();
    f.set_only(true);
    assert!(f.get_only());
    f.set_only(false);
    assert_eq!(options(&f), [false; 8]);
}
