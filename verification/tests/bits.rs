//! The rotations against the machine's own.
use numcore::bits::{rotate_left_32, rotate_left_64};

#[test]
fn rotate_32_moves_the_top_bits_to_the_bottom() {
    assert_eq!(rotate_left_32(0x8000_0001, 1), 0x0000_0003);
    assert_eq!(rotate_left_32(0x1234_5678, 4), 0x2345_6781);
    assert_eq!(rotate_left_32(0x1234_5678, 16), 0x5678_1234);
    assert_eq!(rotate_left_32(0x1234_5678, 28), 0x8123_4567);
    assert_eq!(rotate_left_32(0xffff_ffff, 13), 0xffff_ffff);
    assert_eq!(rotate_left_32(0, 17), 0);
}

#[test]
fn rotate_64_moves_the_top_bits_to_the_bottom() {
    assert_eq!(rotate_left_64(0x8000_0000_0000_0001, 1), 0x0000_0000_0000_0003);
    assert_eq!(rotate_left_64(0x0123_4567_89ab_cdef, 8), 0x2345_6789_abcd_ef01);
    assert_eq!(rotate_left_64(0x0123_4567_89ab_cdef, 32), 0x89ab_cdef_0123_4567);
    assert_eq!(rotate_left_64(0x0123_4567_89ab_cdef, 60), 0xf012_3456_789a_bcde);
    assert_eq!(rotate_left_64(u64::MAX, 31), u64::MAX);
}

#[test]
fn rotating_by_a_whole_word_changes_nothing() {
    assert_eq!(rotate_left_32(0xdead_beef, 0), 0xdead_beef);
    assert_eq!(rotate_left_32(0xdead_beef, 32), 0xdead_beef);
    assert_eq!(rotate_left_32(0xdead_beef, 36), 0xeadb_eefd);
    assert_eq!(rotate_left_64(0x0123_4567_89ab_cdef, 0), 0x0123_4567_89ab_cdef);
    assert_eq!(rotate_left_64(0x0123_4567_89ab_cdef, 64), 0x0123_4567_89ab_cdef);
    assert_eq!(rotate_left_64(0x0123_4567_89ab_cdef, 72), 0x2345_6789_abcd_ef01);
}

#[test]
fn rotations_agree_with_the_machine_for_every_amount() {
    let words = [0u64, 1, 0xdead_beef, 0x0123_4567_89ab_cdef, 0x8000_0000_0000_0000, u64::MAX];
    for w in words {
        for n in 0..200 {
            assert_eq!(rotate_left_32(w as u32, n), (w as u32).rotate_left(n));
            assert_eq!(rotate_left_64(w, n), w.rotate_left(n));
        }
        assert_eq!(rotate_left_32(w as u32, u32::MAX), (w as u32).rotate_left(u32::MAX));
        assert_eq!(rotate_left_64(w, u32::MAX), w.rotate_left(u32::MAX));
    }
}

#[test]
fn rotating_back_by_the_rest_restores_the_word() {
    for n in 1..32 {
        assert_eq!(rotate_left_32(rotate_left_32(0xdead_beef, n), 32 - n), 0xdead_beef);
    }
    for n in 1..64 {
        let w = 0x0123_4567_89ab_cdef;
        assert_eq!(rotate_left_64(rotate_left_64(w, n), 64 - n), w);
    }
}
