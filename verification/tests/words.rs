use polydraw::words::{LParam, GET_X_LPARAM, GET_Y_LPARAM, HIWORD, LOWORD};

#[test]
fn hiword_takes_the_high_half() {
    assert_eq!(HIWORD(0x1234_5678), 0x1234);
    assert_eq!(HIWORD(0), 0);
    assert_eq!(HIWORD(0xffff_ffff), 0xffff);
}

#[test]
fn loword_takes_the_low_half() {
    assert_eq!(LOWORD(0x1234_5678), 0x5678);
    assert_eq!(LOWORD(0xffff_0000), 0);
    assert_eq!(LOWORD(0xffff_ffff), 0xffff);
}

#[test]
fn words_recompose_to_the_double_word() {
    for l in [0u32, 1, 0xffff, 0x1_0000, 0x8000_8000, 0xdead_beef, u32::MAX] {
        assert_eq!(((HIWORD(l) as u32) << 16) | LOWORD(l) as u32, l);
    }
}

#[test]
fn coordinates_are_signed_words() {
    let lp = LParam(0x0032_0014);
    assert_eq!(GET_X_LPARAM(lp), 20);
    assert_eq!(GET_Y_LPARAM(lp), 50);
    let lp = LParam(0xfffe_ffff);
    assert_eq!(GET_X_LPARAM(lp), -1);
    assert_eq!(GET_Y_LPARAM(lp), -2);
    let lp = LParam(0x8000_7fff);
    assert_eq!(GET_X_LPARAM(lp), 32767);
    assert_eq!(GET_Y_LPARAM(lp), -32768);
}

#[test]
fn coordinates_round_trip_through_an_lparam() {
    for (x, y) in [(0i16, 0i16), (-1, 5), (639, 479), (i16::MIN, i16::MAX), (-300, -200)] {
        let packed = ((y as u16 as u32) << 16) | (x as u16 as u32);
        let lp = LParam(packed as i32 as isize);
        assert_eq!(GET_X_LPARAM(lp), x as i32);
        assert_eq!(GET_Y_LPARAM(lp), y as i32);
    }
}

#[test]
fn coordinates_ignore_bits_above_the_low_double_word() {
    let lp = LParam(-1);
    assert_eq!(GET_X_LPARAM(lp), -1);
    assert_eq!(GET_Y_LPARAM(lp), -1);
    if isize::BITS == 64 {
        let lp = LParam((0x7777_0000_0000_0000u64 | 0x0002_0001) as isize);
        assert_eq!(GET_X_LPARAM(lp), 1);
        assert_eq!(GET_Y_LPARAM(lp), 2);
    }
}
