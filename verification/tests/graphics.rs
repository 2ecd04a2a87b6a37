use ruwm::battery::BatteryState;
use ruwm::framebuffer::{bits_per_pixel, buffer_size, PackedFramebuffer, Pixel};
use ruwm::geometry::{div_toward_zero, half, rotated_bounding_box, scale, Point, Rectangle, RotateAngle, Size};
use ruwm::keepalive::RemainingTime;
use ruwm::pages::{with_title, Battery as BatteryPage, Summary};
use ruwm::shapes::{
    character_size, clear, clear_cropped, cropped_bbox, fill, frame_ops, text, Color, DrawOp, Font, Frame,
    Shape, TextPlacement,
};
use ruwm::valve::ValveState;
use ruwm::water_meter::WaterMeterState;
use ruwm::widgets::{Battery, BatteryChargedText, Textbox, Valve, WaterMeterClassic, WaterMeterFract, Wifi};

fn rect(x: i32, y: i32, w: u32, h: u32) -> Rectangle {
    Rectangle { top_left: Point { x, y }, size: Size { width: w, height: h } }
}

fn texts(ops: &[DrawOp]) -> Vec<Vec<u8>> {
    let mut r = Vec::new();
    for op in ops {
        if let Shape::Text(_, t, _, _, _) = &op.shape {
            r.push(t.clone());
        }
    }
    r
}

#[test]
fn rectangles_and_rotation() {
    let r = Rectangle::with_corners(Point { x: 5, y: 1 }, Point { x: 2, y: 3 });
    assert!(r == rect(2, 1, 4, 3));
    assert!(rect(1, 2, 3, 4).bottom_right() == Some(Point { x: 3, y: 5 }));
    assert!(rect(1, 2, 0, 4).bottom_right().is_none());
    let p = RotateAngle::Degrees180.transform(Point { x: 0, y: 0 }, &rect(0, 0, 10, 20));
    assert!(p == Point { x: 10, y: 20 });
    assert!(rotated_bounding_box(RotateAngle::Degrees90, rect(1, 2, 3, 4)) == rect(2, 1, 4, 3));
    assert!(rotated_bounding_box(RotateAngle::Degrees180, rect(1, 2, 3, 4)) == rect(1, 2, 3, 4));
    assert_eq!(half(5), 2);
    assert_eq!(half(-5), -2);
    assert_eq!(half(i32::MIN), -1073741824);
    assert_eq!(div_toward_zero(-7, 2), -3);
    assert!(scale(Point { x: 5, y: 5 }, Size { width: 20, height: 20 }, &rect(0, 0, 10, 10)) == Point { x: 10, y: 10 });
}

#[test]
fn framebuffer_packs_pixels() {
    assert_eq!(bits_per_pixel(1), 1);
    assert_eq!(bits_per_pixel(2), 2);
    assert_eq!(bits_per_pixel(3), 4);
    assert_eq!(bits_per_pixel(5), 8);
    assert_eq!(buffer_size(4, 4, 4), 8);
    let mut fb = PackedFramebuffer::new(vec![0u8; 8], 4, 4, 4);
    assert!(fb.is_covering());
    assert!(fb.bounding_box() == rect(0, 0, 4, 4));
    fb.draw_iter(&[Pixel { point: Point { x: 1, y: 0 }, color: 5 }, Pixel { point: Point { x: 9, y: 9 }, color: 1 }]);
    assert_eq!(fb.get_pixel(1, 0), 5);
    assert_eq!(fb.get_pixel(0, 0), 0);
    let buf = fb.into_buffer();
    assert_eq!(buf[0], 0x50);
}

#[test]
fn framebuffer_fill_clear_apply() {
    let mut fb = PackedFramebuffer::new(vec![0u8; 8], 4, 4, 4);
    fb.fill_solid(&rect(0, 0, 3, 3), 1);
    assert_eq!(fb.get_pixel(0, 0), 1);
    assert_eq!(fb.get_pixel(3, 3), 0);
    fb.clear(0);
    assert_eq!(fb.get_pixel(0, 0), 0);
    let mut next = PackedFramebuffer::new(vec![0u8; 8], 4, 4, 4);
    next.draw_iter(&[Pixel { point: Point { x: 2, y: 3 }, color: 7 }]);
    let changes = fb.apply(&next);
    assert_eq!(changes.len(), 1);
    assert!(changes[0] == Pixel { point: Point { x: 2, y: 3 }, color: 7 });
    assert_eq!(fb.get_pixel(2, 3), 7);
    assert!(fb.apply(&next).is_empty());
}

#[test]
fn colors() {
    assert!(Color::from_raw(3) == Color::LightBlue);
    assert!(Color::from_raw(200) == Color::White);
    assert_eq!(Color::White.raw(), 8);
    assert!(Color::from_raw(Color::Gray.raw()) == Color::Gray);
    assert!(Color::Black.is_off() && Color::Gray.is_off() && !Color::Red.is_off());
    assert!(!Color::Gray.into_binary());
    assert!(Color::Yellow.into_binary());
}

#[test]
fn font_sizes_come_from_the_font_crate() {
    assert!(character_size(Font::Profont10) == Size { width: 6, height: 12 });
    assert!(character_size(Font::Profont24) == Size { width: 16, height: 29 });
    let mut t = Textbox::new();
    t.text = b"ab".to_vec();
    t.font = Font::Profont10;
    t.padding = 1;
    assert!(t.size() == Size { width: 14, height: 14 });
}

#[test]
fn crops_take_the_intersection() {
    assert!(cropped_bbox(&rect(0, 0, 10, 10), &rect(5, 5, 10, 10)) == rect(0, 0, 5, 5));
    assert!(cropped_bbox(&rect(0, 0, 10, 10), &rect(2, 3, 4, 4)) == rect(0, 0, 4, 4));
    assert!(cropped_bbox(&rect(0, 0, 10, 10), &rect(20, 20, 5, 5)) == rect(0, 0, 0, 0));
    let (op, area) = clear_cropped(&rect(0, 0, 20, 10), 2);
    assert!(area == rect(2, 2, 16, 6));
    assert!(op.frames.is_empty());
    assert!(matches!(op.shape, Shape::Fill(r, Color::Black) if r == rect(0, 0, 20, 10)));
}

#[test]
fn primitive_operations() {
    assert!(matches!(clear(&rect(1, 1, 2, 2)).shape, Shape::Fill(_, Color::Black)));
    assert!(matches!(fill(&rect(1, 1, 2, 2), Color::Red).shape, Shape::Fill(_, Color::Red)));
    let t = text(Font::Profont12, Point { x: 3, y: 4 }, b"hi", Color::Green, None);
    assert!(matches!(&t.shape, Shape::Text(p, s, Color::Green, Font::Profont12, TextPlacement::TopLeft) if *p == Point { x: 3, y: 4 } && s == b"hi"));
    let framed = frame_ops(Frame::Clip(rect(0, 0, 1, 1)), vec![t]);
    assert!(framed[0].frames == vec![Frame::Clip(rect(0, 0, 1, 1))]);
    let twice = frame_ops(Frame::Rotate(RotateAngle::Degrees270), framed);
    assert!(twice[0].frames == vec![Frame::Rotate(RotateAngle::Degrees270), Frame::Clip(rect(0, 0, 1, 1))]);
}

#[test]
fn textbox_draws_cleared_and_cropped() {
    let mut t = Textbox::new();
    t.text = b"ab".to_vec();
    t.font = Font::Profont10;
    t.padding = 1;
    let ops = t.draw(&rect(0, 0, 100, 50));
    assert_eq!(ops.len(), 2);
    assert!(matches!(ops[0].shape, Shape::Fill(r, Color::Black) if r == rect(0, 0, 14, 14)));
    assert!(ops[1].frames == vec![Frame::Crop(rect(1, 1, 12, 12))]);
    assert_eq!(texts(&ops), vec![b"ab".to_vec()]);
    t.strikethrough = true;
    let ops = t.draw(&rect(0, 0, 100, 50));
    assert_eq!(ops.len(), 4);
    assert!(matches!(ops[1].shape, Shape::Stroke(r, Color::Yellow, 2) if r == rect(0, 0, 12, 12)));
    assert!(matches!(ops[3].shape, Shape::Line(a, b, Color::White, 2) if a == Point { x: 0, y: 0 } && b == Point { x: 11, y: 11 }));
}

#[test]
fn wifi_arcs_follow_strength() {
    let w = Wifi::new();
    let ops = w.draw(&rect(0, 0, 40, 40));
    assert_eq!(ops.len(), 5);
    let center = Point { x: 10, y: 16 };
    assert!(matches!(ops[1].shape, Shape::Arc(c, 32, Color::White, 4) if c == center));
    assert!(matches!(ops[2].shape, Shape::Arc(_, 21, Color::White, 4)));
    assert!(matches!(ops[3].shape, Shape::Arc(_, 10, Color::White, 4)));
    assert!(matches!(ops[4].shape, Shape::Disc(_, 8, Color::White)));
    let unknown = Wifi { strength: None, ..Wifi::new() };
    let ops = unknown.draw(&rect(0, 0, 40, 40));
    assert_eq!(ops.len(), 6);
    assert!(matches!(ops[1].shape, Shape::Arc(_, _, Color::Gray, _)));
    assert!(matches!(ops[5].shape, Shape::Line(_, _, Color::White, 4)));
    let weak = Wifi { strength: Some(30), ..Wifi::new() };
    let ops = weak.draw(&rect(0, 0, 40, 40));
    assert!(matches!(ops[2].shape, Shape::Arc(_, _, Color::Gray, _)));
    assert!(matches!(ops[3].shape, Shape::Arc(_, _, Color::White, _)));
}

#[test]
fn battery_fill_and_percentage() {
    let mut b = Battery::new();
    b.charged_percentage = Some(50);
    let ops = b.draw(&rect(0, 0, 100, 200));
    assert_eq!(ops.len(), 14);
    assert!(matches!(ops[0].shape, Shape::Fill(r, Color::Black) if r == rect(0, 0, 100, 200)));
    assert!(matches!(ops[1].shape, Shape::Fill(r, Color::Green) if r == rect(0, 90, 80, 90)));
    assert!(ops[1].frames == vec![Frame::Crop(rect(10, 10, 80, 180))]);
    assert_eq!(texts(&ops), vec![b"50%".to_vec(), b"50%".to_vec()]);
    assert!(ops[12].frames == vec![Frame::Crop(rect(10, 10, 80, 180)), Frame::Clip(rect(0, 0, 80, 90))]);
    assert!(matches!(ops[12].shape, Shape::Text(p, _, Color::White, Font::Profont24, TextPlacement::MiddleCenter) if p == Point { x: 40, y: 90 }));
    assert!(matches!(ops[13].shape, Shape::Text(_, _, Color::Black, _, _)));
    b.charged_percentage = None;
    b.text = BatteryChargedText::Outline;
    let ops = b.draw(&rect(0, 0, 100, 200));
    assert_eq!(ops.len(), 13);
    assert!(matches!(ops[1].shape, Shape::Fill(r, Color::Yellow) if r == rect(0, 180, 80, 0)));
    assert_eq!(texts(&ops), vec![b"?".to_vec()]);
    b.text = BatteryChargedText::No;
    assert_eq!(b.draw(&rect(0, 0, 100, 200)).len(), 12);
}

#[test]
fn valve_bubbles_and_unknown_state() {
    let v = Valve::new();
    let ops = v.draw(&rect(0, 0, 60, 60));
    assert_eq!(ops.len(), 63);
    assert!(matches!(ops[1].shape, Shape::Fill(r, Color::LightBlue) if r == rect(0, 0, 40, 40)));
    assert!(matches!(ops[2].shape, Shape::Fill(r, Color::White) if r == rect(0, 0, 1, 1)));
    assert!(matches!(ops[9].shape, Shape::Fill(r, Color::White) if r == rect(3, 6, 1, 1)));
    let closing = Valve { open_percentage: Some(25), ..Valve::new() };
    let ops = closing.draw(&rect(0, 0, 60, 60));
    assert!(matches!(ops[51].shape, Shape::Fill(r, Color::Black) if r == rect(20, 0, 21, 30)));
    assert!(matches!(ops[52].shape, Shape::Fill(r, Color::LightGray) if r == rect(18, 0, 4, 30)));
    let unknown = Valve { open_percentage: None, ..Valve::new() };
    let ops = unknown.draw(&rect(0, 0, 60, 60));
    assert_eq!(ops.len(), 12);
    assert!(matches!(&ops[1].shape, Shape::Text(p, t, Color::White, Font::Profont18, TextPlacement::TopLeft) if *p == Point { x: 14, y: 14 } && t == b"?"));
}

#[test]
fn meters_show_padded_readings() {
    let mut m = WaterMeterClassic::<8>::new();
    m.edges_count = Some(1234);
    assert!(m.preferred_size() == Size { width: 100, height: 26 });
    let ops = m.draw(&rect(0, 0, 100, 26));
    assert_eq!(ops.len(), 4);
    assert!(matches!(ops[1].shape, Shape::Stroke(r, Color::Red, 2) if r == rect(0, 0, 96, 22)));
    assert!(matches!(ops[2].shape, Shape::Fill(r, Color::Red) if r == rect(60, 0, 36, 22)));
    assert_eq!(texts(&ops), vec![b"00001234".to_vec()]);
    m.divider = 10;
    assert_eq!(texts(&m.draw(&rect(0, 0, 100, 26))), vec![b"00000123".to_vec()]);
    m.edges_count = None;
    assert_eq!(texts(&m.draw(&rect(0, 0, 100, 26))), vec![b"????????".to_vec()]);
    let mut f = WaterMeterFract::<4>::new();
    f.edges_count = Some(7);
    let ops = f.draw(&rect(0, 0, 52, 26));
    assert_eq!(ops.len(), 2);
    assert_eq!(texts(&ops), vec![b"0007".to_vec()]);
}

#[test]
fn titles_and_pages() {
    let (ops, area) = with_title(&rect(0, 0, 128, 64), true, b"Battery");
    assert_eq!(ops.len(), 2);
    assert!(ops[0].frames == vec![Frame::Crop(rect(2, 2, 124, 17))]);
    assert!(area == rect(2, 19, 124, 43));
    let (ops, area2) = with_title(&rect(0, 0, 128, 64), false, b"Battery");
    assert!(ops.is_empty());
    assert!(area2 == area);
    let state = BatteryState { voltage: Some(2900), powered: Some(true) };
    let ops = BatteryPage::draw(&rect(0, 0, 128, 240), true, Some(state));
    assert_eq!(texts(&ops), vec![b"Battery".to_vec(), b"50%".to_vec(), b"50%".to_vec()]);
    let ops = BatteryPage::draw(&rect(0, 0, 128, 240), false, None);
    assert!(ops.is_empty());
}

#[test]
fn summary_page() {
    let wm = WaterMeterState { edges_count: 1234, armed: false, leaking: false };
    let battery = BatteryState { voltage: Some(2900), powered: Some(true) };
    let ops = Summary::draw(
        &rect(0, 0, 128, 160),
        Some(Some(ValveState::Open)),
        Some(wm),
        Some(battery),
        Some(RemainingTime::Duration(5000)),
    );
    assert!(ops[0].frames[0] == Frame::Crop(rect(0, 0, 9, 12)));
    let t = texts(&ops);
    assert_eq!(t, vec![b"MQTT".to_vec(), b"PWR".to_vec(), b"Sleep in 5s".to_vec(), b"00001234".to_vec()]);
    let rotated = ops.iter().any(|op| op.frames.len() > 1 && op.frames[1] == Frame::Rotate(RotateAngle::Degrees270));
    assert!(rotated);
    let quiet = Summary::draw(&rect(0, 0, 128, 160), None, None, None, None);
    assert_eq!(texts(&quiet), vec![b"MQTT".to_vec()]);
    let long = Summary::draw(&rect(0, 0, 128, 160), None, None, None, Some(RemainingTime::Duration(500000)));
    assert_eq!(texts(&long)[1], b"Sleep in 99s".to_vec());
    let blank = Summary::draw(&rect(0, 0, 128, 160), None, None, None, Some(RemainingTime::Indefinite));
    assert_eq!(texts(&blank)[1], b"            ".to_vec());
}

#[test]
fn apply_twice_keeps_the_buffer() {
    let mut shown = PackedFramebuffer::new(vec![0, 0, 0, 0, 0, 0, 0, 0, 0xab, 0xcd], 4, 4, 4);
    let mut drawn = PackedFramebuffer::new(vec![0u8; 10], 4, 4, 4);
    drawn.draw_iter(&[Pixel { point: Point { x: 0, y: 1 }, color: 3 }]);
    assert_eq!(shown.apply(&drawn).len(), 1);
    assert!(shown.apply(&drawn).is_empty());
    let buf = shown.into_buffer();
    assert_eq!(buf, vec![0, 0, 0x03, 0, 0, 0, 0, 0, 0xab, 0xcd]);
}

#[test]
fn sized_buffer_covers() {
    let n = buffer_size(8, 2, 1);
    assert_eq!(n, 2);
    assert!(PackedFramebuffer::new(vec![0u8; n], 8, 2, 1).is_covering());
    assert!(!PackedFramebuffer::new(vec![0u8; 1], 8, 2, 1).is_covering());
}

#[test]
fn fills_reach_the_last_column_and_row() {
    let mut fb = PackedFramebuffer::new(vec![0u8; 1], 2, 1, 4);
    fb.fill_solid(&rect(0, 0, 2, 1), 1);
    assert_eq!((fb.get_pixel(0, 0), fb.get_pixel(1, 0)), (1, 1));
    let mut fb = PackedFramebuffer::new(vec![0u8; 8], 4, 4, 4);
    fb.fill_solid(&rect(-2, 2, 10, 10), 6);
    assert_eq!(fb.get_pixel(3, 3), 6);
    assert_eq!(fb.get_pixel(0, 2), 6);
    assert_eq!(fb.get_pixel(3, 1), 0);
    fb.clear(9);
    for y in 0..4 {
        for x in 0..4 {
            assert_eq!(fb.get_pixel(x, y), 9);
        }
    }
    let mut fb = PackedFramebuffer::new(vec![0u8; 8], 4, 4, 4);
    fb.fill_contiguous(&rect(2, 2, 2, 2), &[1, 2, 3, 4]);
    assert_eq!((fb.get_pixel(2, 2), fb.get_pixel(3, 2), fb.get_pixel(2, 3), fb.get_pixel(3, 3)), (1, 2, 3, 4));
}
