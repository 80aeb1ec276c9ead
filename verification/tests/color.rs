use color_utilities::utils::color::{
    alpha_from_argb, argb_from_rgb, blue_from_argb, green_from_argb, is_opaque, red_from_argb,
};

#[test]
fn packs_three_channels_under_full_alpha() {
    assert_eq!(argb_from_rgb(255, 0, 0), 0xFFFF0000);
    assert_eq!(argb_from_rgb(0, 255, 0), 0xFF00FF00);
    assert_eq!(argb_from_rgb(0, 0, 255), 0xFF0000FF);
    assert_eq!(argb_from_rgb(0x67, 0x50, 0xA4), 0xFF6750A4);
    assert_eq!(argb_from_rgb(0, 0, 0), 0xFF000000);
    assert_eq!(argb_from_rgb(255, 255, 255), 0xFFFFFFFF);
}

#[test]
fn packing_keeps_the_low_eight_bits_of_a_channel() {
    assert_eq!(argb_from_rgb(256, 0, 0), 0xFF000000);
    assert_eq!(argb_from_rgb(0x1FF, 0x203, 0x304), 0xFFFF0304);
    assert_eq!(argb_from_rgb(u32::MAX, u32::MAX, u32::MAX), 0xFFFFFFFF);
    assert_eq!(argb_from_rgb(0xFFFFFF01, 0xABCDEF02, 0x12345603), 0xFF010203);
}

#[test]
fn reads_each_channel() {
    let argb = 0x80123456;
    assert_eq!(alpha_from_argb(argb), 0x80);
    assert_eq!(red_from_argb(argb), 0x12);
    assert_eq!(green_from_argb(argb), 0x34);
    assert_eq!(blue_from_argb(argb), 0x56);

    assert_eq!(alpha_from_argb(0), 0);
    assert_eq!(red_from_argb(0), 0);
    assert_eq!(alpha_from_argb(u32::MAX), 255);
    assert_eq!(red_from_argb(u32::MAX), 255);
    assert_eq!(green_from_argb(u32::MAX), 255);
    assert_eq!(blue_from_argb(u32::MAX), 255);
}

#[test]
fn channels_of_a_packed_colour_are_the_channels_given() {
    for red in (0..=255).step_by(17) {
        for green in (0..=255).step_by(51) {
            for blue in (0..=255).step_by(85) {
                let argb = argb_from_rgb(red, green, blue);
                assert_eq!(alpha_from_argb(argb), 255);
                assert_eq!(red_from_argb(argb), red);
                assert_eq!(green_from_argb(argb), green);
                assert_eq!(blue_from_argb(argb), blue);
            }
        }
    }
}

#[test]
fn repacking_an_opaque_colour_gives_it_back() {
    for argb in [0xFF000000u32, 0xFFFFFFFF, 0xFF6750A4, 0xFF0001AC, 0xFFFA2BEC] {
        assert!(is_opaque(argb));
        let again = argb_from_rgb(red_from_argb(argb), green_from_argb(argb), blue_from_argb(argb));
        assert_eq!(again, argb);
    }
}

#[test]
fn repacking_a_translucent_colour_changes_only_its_alpha() {
    let argb = 0x406750A4;
    let again = argb_from_rgb(red_from_argb(argb), green_from_argb(argb), blue_from_argb(argb));
    assert_eq!(again, 0xFF6750A4);
}

#[test]
fn only_full_alpha_is_opaque() {
    assert!(is_opaque(0xFF000000));
    assert!(is_opaque(0xFFFFFFFF));
    assert!(!is_opaque(0xFEFFFFFF));
    assert!(!is_opaque(0x00FFFFFF));
    assert!(!is_opaque(0));
}
