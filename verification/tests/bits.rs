use pockystation::bits::{
    arithmetic_shift_right, count_ones, extend_byte, extend_halfword, is_negative, rotate_right,
    test_bit,
};

#[test]
fn rotate_right_matches_the_standard_rotation() {
    for x in [0u32, 1, 0x8000_0000, 0x1234_5678, 0xFFFF_FFFF, 0xDEAD_BEEF] {
        for n in 0..70 {
            assert_eq!(rotate_right(x, n), x.rotate_right(n));
        }
    }
    assert_eq!(rotate_right(0x1234_5678, 4), 0x8123_4567);
    assert_eq!(rotate_right(0xAABB_CCDD, 24), 0xBBCC_DDAA);
}

#[test]
fn arithmetic_shift_right_matches_the_signed_shift() {
    for x in [0u32, 1, 0x8000_0000, 0x1234_5678, 0xFFFF_FFFF, 0xDEAD_BEEF, 0x7FFF_FFFF] {
        for n in 0..32 {
            assert_eq!(arithmetic_shift_right(x, n), ((x as i32) >> n) as u32);
        }
    }
    assert_eq!(arithmetic_shift_right(0x8000_0000, 31), 0xFFFF_FFFF);
    assert_eq!(arithmetic_shift_right(0x8000_0000, 4), 0xF800_0000);
}

#[test]
fn count_ones_matches_the_standard_count() {
    for x in [0u32, 1, 0x8000_0000, 0x1234_5678, 0xFFFF_FFFF, 0xDEAD_BEEF, 0x000F, 0xFFFF] {
        assert_eq!(count_ones(x), x.count_ones());
    }
    assert_eq!(count_ones(0x000F), 4);
}

#[test]
fn sign_extension() {
    assert_eq!(extend_byte(0x7f), 0x7f);
    assert_eq!(extend_byte(0x80), 0xFFFF_FF80);
    assert_eq!(extend_byte(0xff), 0xFFFF_FFFF);
    assert_eq!(extend_byte(0x1234_5680), 0xFFFF_FF80);
    assert_eq!(extend_byte(0x1234_5600), 0);
    assert_eq!(extend_halfword(0x7fff), 0x7fff);
    assert_eq!(extend_halfword(0x8000), 0xFFFF_8000);
    assert_eq!(extend_halfword(0x1234_8765), 0xFFFF_8765);
    assert_eq!(extend_halfword(0xFFFF_0001), 1);
    for x in [0u32, 0x7f, 0x80, 0xff, 0x100, 0x8000, 0xffff, 0x1_0000, 0xDEAD_BEEF] {
        assert_eq!(extend_byte(x), x as u8 as i8 as u32);
        assert_eq!(extend_halfword(x), x as u16 as i16 as u32);
    }
}

#[test]
fn bit_tests() {
    assert!(is_negative(0x8000_0000));
    assert!(is_negative(0xFFFF_FFFF));
    assert!(!is_negative(0x7FFF_FFFF));
    assert!(!is_negative(0));
    assert!(test_bit(0x8000_0001, 0));
    assert!(!test_bit(0x8000_0001, 1));
    assert!(test_bit(0x8000_0001, 31));
    assert!(!test_bit(0x7FFF_FFFF, 31));
}
