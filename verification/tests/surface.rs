use waveshare28_panel::geom::Point;
use waveshare28_panel::surface::{
    controls_bands, controls_seek_slot, hit, hold_secs, thirds_wide, volume_at, volume_chrome,
    volume_facts, volume_trough, SurfHit, Surface,
};
use waveshare28_panel::ui::{wrap, Face, Layout};

#[test]
fn header_and_artwork_close() {
    let l = Layout::for_rotation(0);
    assert_eq!(hit(&l, Surface::Controls, Point::new(10, 10)), SurfHit::Close);
    assert_eq!(hit(&l, Surface::Artwork, Point::new(120, 160)), SurfHit::Close);
}

#[test]
fn volume_surface_hits_stepper_and_speaker() {
    let l = Layout::for_rotation(0);
    let v = volume_chrome(&l);
    assert_eq!(hit(&l, Surface::Volume, v.up.center()), SurfHit::VolUp);
    assert_eq!(hit(&l, Surface::Volume, volume_facts(v).center()), SurfHit::Speaker);
    assert_eq!(hit(&l, Surface::Volume, v.slider.center()), SurfHit::VolSlider);
    assert_eq!(hit(&l, Surface::Volume, v.down.center()), SurfHit::VolDown);
}

#[test]
fn volume_plus_and_minus_are_equal() {
    for rot in [0, 270] {
        let l = Layout::for_rotation(rot);
        let v = volume_chrome(&l);
        assert_eq!(v.up.size.height, v.down.size.height, "rot {rot}");
        assert_eq!(v.up.size.width, v.down.size.width);
        assert_eq!(v.up.center().x, v.down.center().x);
        assert!(v.slider.size.height >= 44);
        assert!(
            v.slider.top_left.y + v.slider.size.height as i32 <= v.down.top_left.y,
            "slider must not sit in minus"
        );
        assert_eq!(hit(&l, Surface::Volume, v.slider.center()), SurfHit::VolSlider);
        assert_eq!(hit(&l, Surface::Volume, v.down.center()), SurfHit::VolDown);
    }
}

#[test]
fn volume_slider_maps_the_trough() {
    let layout = Layout::for_rotation(270);
    let trough = volume_trough(volume_chrome(&layout).slider);
    assert_eq!(volume_at(&layout, trough.top_left), 0);
    assert_eq!(
        volume_at(
            &layout,
            Point::new(trough.top_left.x + trough.size.width as i32, trough.center().y)
        ),
        100
    );
}

#[test]
fn controls_seek_slot_is_the_middle_band() {
    let l = Layout::for_rotation(0);
    let slot = controls_seek_slot(&l);
    assert!(slot.top_left.y > 28);
    assert_eq!(slot.size.height, 40);
    assert_eq!(slot.size.width, 240);
    let rows = controls_bands(&l);
    assert!(
        slot.top_left.y + slot.size.height as i32 <= rows[2].top_left.y,
        "seek sits above the modes, not in them"
    );
}

#[test]
fn controls_modes_are_equal_thirds() {
    for rot in [0, 270] {
        let l = Layout::for_rotation(rot);
        let modes = thirds_wide(controls_bands(&l)[2], false);
        assert_eq!(modes[0].size.width, modes[2].size.width);
        assert_eq!(modes[0].center().y, modes[1].center().y);
        assert_eq!(modes[1].center().y, modes[2].center().y);
        assert_eq!(hit(&l, Surface::Controls, modes[0].center()), SurfHit::Shuffle);
        assert_eq!(hit(&l, Surface::Controls, modes[1].center()), SurfHit::Repeat);
    }
}

#[test]
fn controls_surface_hits_play_and_modes() {
    let l = Layout::for_rotation(0);
    assert_eq!(hit(&l, Surface::Controls, Point::new(120, 80)), SurfHit::PlayPause);
    assert_eq!(hit(&l, Surface::Controls, Point::new(40, 300)), SurfHit::Shuffle);
    assert_eq!(hit(&l, Surface::Controls, Point::new(160, 300)), SurfHit::Repeat);
    assert_eq!(hit(&l, Surface::Controls, Point::new(220, 300)), SurfHit::Repeat);
}

#[test]
fn metadata_album_wraps_to_the_column() {
    let l = Layout::for_rotation(270);
    let width = l.frame.size.width.saturating_sub(24);
    let album = "A Very Long Album Title That Would Drive Into The Neighbour Driveway";
    let parts = wrap(album, width, Face::Meta);
    assert!(parts.len() >= 2, "{parts:?}");
    let cols = (width / Face::Meta.char_w()) as usize;
    assert!(parts.iter().all(|p| p.chars().count() <= cols));
}

#[test]
fn landscape_controls_modes_are_the_bottom_band() {
    let l = Layout::for_rotation(270);
    assert_eq!(hit(&l, Surface::Controls, Point::new(40, 220)), SurfHit::Shuffle);
    assert_eq!(hit(&l, Surface::Controls, Point::new(240, 220)), SurfHit::Repeat);
}

#[test]
fn transport_thirds_give_play_the_wide_middle() {
    let l = Layout::for_rotation(0);
    let t = thirds_wide(controls_bands(&l)[0], true);
    assert_eq!((t[0].size.width, t[1].size.width, t[2].size.width), (72, 96, 72));
    assert_eq!(hit(&l, Surface::Controls, t[0].center()), SurfHit::Prev);
    assert_eq!(hit(&l, Surface::Controls, t[2].center()), SurfHit::Next);
    assert_eq!(hit(&l, Surface::Controls, controls_seek_slot(&l).center()), SurfHit::Seek);
}

#[test]
fn metadata_and_status_close_on_any_tap() {
    let l = Layout::for_rotation(0);
    assert_eq!(hit(&l, Surface::Metadata, Point::new(120, 200)), SurfHit::Close);
    assert_eq!(hit(&l, Surface::Status, Point::new(120, 200)), SurfHit::Close);
    assert_eq!(hit(&l, Surface::Volume, Point::new(-1, 200)), SurfHit::Close);
}

#[test]
fn labels_and_countdown() {
    assert_eq!(Surface::Metadata.label(), "TRACK");
    assert_eq!(Surface::Controls.label(), "CONTROLS");
    assert_eq!(hold_secs(10_000), 10);
    assert_eq!(hold_secs(9_001), 10);
    assert_eq!(hold_secs(9_000), 9);
    assert_eq!(hold_secs(0), 0);
}
