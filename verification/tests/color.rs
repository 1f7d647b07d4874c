use polydraw::color::{Color, BLACK, RED};

#[test]
fn color_gives_back_its_argb_value() {
    for c in [0u32, 1, BLACK, RED, 0x12_34_56_78, u32::MAX] {
        assert_eq!(Color::from(c).argb(), c);
    }
}

#[test]
fn named_colors_have_their_argb_values() {
    assert_eq!(RED, 0xffff_0000);
    assert_eq!(BLACK, 0xff00_0000);
    let red: Color = RED.into();
    assert_eq!(red.argb(), 0xffff_0000);
}
