use waveshare28_panel::fbdev::{check_fb, parse_sysfs_u32, parse_virtual_size, pixel_offset, FbError};
use waveshare28_panel::ui::Layout;

#[test]
fn parse_virtual_size_accepts_the_sysfs_form() {
    assert_eq!(parse_virtual_size("320,240\n"), Some((320, 240)));
    assert_eq!(parse_virtual_size("240,320"), Some((240, 320)));
    assert_eq!(parse_virtual_size("nope"), None);
}

#[test]
fn virtual_size_sides_are_trimmed_and_must_be_numbers() {
    assert_eq!(parse_virtual_size(" 240 , 320 "), Some((240, 320)));
    assert_eq!(parse_virtual_size("240,"), None);
    assert_eq!(parse_virtual_size("240,320,1"), None);
    assert_eq!(parse_virtual_size("99999999999,1"), None);
}

#[test]
fn sysfs_numbers_are_trimmed() {
    assert_eq!(parse_sysfs_u32("16\n"), Some(16));
    assert_eq!(parse_sysfs_u32("x"), None);
}

#[test]
fn the_framebuffer_must_match_the_layout() {
    let l = Layout::for_rotation(0);
    let ok = check_fb(240, 320, 16, 480, &l).unwrap();
    assert_eq!(ok.map_len, 480 * 320);
    assert!(matches!(check_fb(240, 320, 32, 960, &l), Err(FbError::Depth { bits: 32 })));
    assert!(matches!(check_fb(240, 320, 16, 100, &l), Err(FbError::Stride { stride: 100, needed: 480 })));
    let l90 = Layout::for_rotation(90);
    match check_fb(240, 320, 16, 480, &l90) {
        Err(FbError::Size { rotation, fbtft_rotate, .. }) => {
            assert_eq!(rotation, 90);
            assert_eq!(fbtft_rotate, 270);
        }
        other => panic!("{other:?}"),
    }
    assert_eq!(pixel_offset(3, 2, 480), 966);
}
