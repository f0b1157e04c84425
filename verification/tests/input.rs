use waveshare28_panel::canvas::{quarter_turn, Quarter, RowBuf};
use waveshare28_panel::geom::Point;
use waveshare28_panel::input::Tracker;
use waveshare28_panel::touch::{Cst328, TouchError};
use waveshare28_panel::ui::TouchEv;

#[test]
fn presses_moves_and_releases() {
    let mut t = Tracker::new();
    let p = Point::new(10, 10);
    assert_eq!(t.on_read(Some(p), 1000, 50), Some(TouchEv::Down(p)));
    assert_eq!(t.on_read(Some(Point::new(11, 10)), 1020, 50), None);
    assert_eq!(t.on_read(Some(Point::new(12, 10)), 1040, 50), Some(TouchEv::Move(Point::new(12, 10))));
    assert_eq!(t.on_read(None, 1050, 50), Some(TouchEv::Up(Point::new(12, 10))));
    assert_eq!(t.on_read(None, 1060, 50), None);
    assert_eq!(t.on_read(Some(p), 1045, 50), None, "inside the debounce");
    assert_eq!(t.on_read(Some(p), 1050, 50), Some(TouchEv::Down(p)));
}

fn report(status: u8, x: u16, y: u16) -> [u8; 28] {
    let mut b = [0u8; 28];
    b[0] = status;
    b[1] = (x >> 4) as u8;
    b[2] = (y >> 4) as u8;
    b[3] = (((x & 0xf) << 4) | (y & 0xf)) as u8;
    b[4] = 30;
    b[5] = 0x81;
    b[6] = 0xAB;
    b
}

#[test]
fn touch_reports_decode() {
    let c = Cst328::new((), 0x1a);
    assert_eq!(c.addr(), 0x1a);
    let t = c.read(Ok(report(0x06, 0x123, 0x0ab))).unwrap().unwrap();
    assert_eq!((t.x, t.y, t.pressure, t.fingers), (0x123, 0x0ab, 30, 1));
    assert_eq!(c.read(Ok(report(0x00, 1, 1))).unwrap(), None);
    let mut bad = report(0x06, 1, 1);
    bad[6] = 0;
    assert_eq!(c.read(Ok(bad)), Err(TouchError::BadMarker));
    assert_eq!(c.read(Err(())), Err(TouchError::Bus));
}

#[test]
fn canvas_drops_pixels_off_the_edge() {
    let mut b = RowBuf::new(3, 2, 7);
    b.put(2, 1, 9);
    b.put(3, 0, 9);
    b.put(-1, 0, 9);
    assert_eq!(b.pixels_ref(), &vec![7, 7, 7, 7, 7, 9]);
    assert_eq!(quarter_turn(270), Some(Quarter::Deg270));
    assert_eq!(quarter_turn(45), None);
}
