use vstd::prelude::*;

use crate::battery::{charge_percentage, BatteryState};
use crate::geometry::{can_offset, rotated_bounding_box, spec_rotated_bbox, Point, Rectangle, RotateAngle, Size};
use crate::keepalive::RemainingTime;
use crate::shapes::{
    append_ops, corners_fit, cropped_bbox, frame_ops, framed, is_empty, op_views, spec_bottom_right,
    spec_character_size, spec_cropped_bbox, DrawOp, Font, Frame, OpView,
};
use crate::text::decimal_digits;
use crate::valve::{spec_open_percentage, state_valid, ValveState};
use crate::screen::{DataSource, Page, ScreenState};
use crate::water_meter::WaterMeterState;
use crate::widgets;
use crate::widgets::{
    battery_fits, meter_fits, spec_battery_draw, spec_meter_draw, spec_meter_size,
    spec_textbox_draw, spec_textbox_size, spec_valve_draw, spec_wifi_draw, textbox_fits,
    textbox_size_fits, valve_fits, wifi_fits, BatteryChargedText, Textbox, TextboxView, Valve,
    WaterMeterClassic, Wifi,
};

verus! {

/// The charge of a battery in percent, where its voltage is known.
pub open spec fn state_percentage(s: BatteryState) -> Option<u8> {
    match s.voltage {
        Some(v) => Some(charge_percentage(v) as u8),
        None => None,
    }
}

/// A text box of the status lines and titles: no outline, a padding of 1.
pub open spec fn label(text: Seq<u8>, color: crate::shapes::Color, font: Font) -> TextboxView {
    TextboxView { text, color, divider: 1, padding: 1, outline: 0, strikethrough: false, font }
}

fn make_label(text: Vec<u8>, color: crate::shapes::Color, font: Font) -> (t: Textbox)
    ensures
        t@ == label(text@, color, font),
{
    Textbox { text, color, divider: 1, padding: 1, outline: 0, strikethrough: false, font }
}

/// The font of page titles: the small one on narrow screens.
pub open spec fn title_font(width: u32) -> Font {
    if width <= 128 {
        Font::Profont12
    } else {
        Font::Profont18
    }
}

/// The area of a page title on a target with box `bbox`.
pub open spec fn title_area(bbox: Rectangle, title: TextboxView) -> Rectangle {
    Rectangle {
        top_left: Point { x: (bbox.top_left.x + 2) as i32, y: (bbox.top_left.y + 2) as i32 },
        size: Size { width: (bbox.size.width - 4) as u32, height: spec_textbox_size(title).height },
    }
}

/// The area below a page title on a target with box `bbox`.
pub open spec fn below_title(bbox: Rectangle, title: TextboxView) -> Rectangle {
    let h = spec_textbox_size(title).height;
    Rectangle {
        top_left: Point { x: (bbox.top_left.x + 2) as i32, y: (bbox.top_left.y + 2 + h) as i32 },
        size: Size {
            width: (bbox.size.width - 4) as u32,
            height: (bbox.size.height - 4 - h) as u32,
        },
    }
}

/// Whether a page with a title can be drawn on a target with box `bbox`
/// without overflow.
pub open spec fn with_title_fits(bbox: Rectangle, page_changed: bool, title: Seq<u8>) -> bool {
    let t = label(title, crate::shapes::Color::Yellow, title_font(bbox.size.width));
    let h = spec_textbox_size(t).height;
    &&& textbox_size_fits(t)
    &&& can_offset(bbox.top_left, Size { width: 2, height: (2 + h) as u32 })
    &&& 2 + h <= u32::MAX
    &&& 4 <= bbox.size.width
    &&& 4 + h <= bbox.size.height
    &&& page_changed ==> {
        &&& corners_fit(bbox)
        &&& corners_fit(title_area(bbox, t))
        &&& textbox_fits(t, spec_cropped_bbox(bbox, title_area(bbox, t)))
    }
}

/// What a page title draws on a target with box `bbox`: the title, in the
/// area below the top edge, where the page changed; nothing otherwise.
pub open spec fn spec_title(bbox: Rectangle, page_changed: bool, title: Seq<u8>) -> Seq<OpView> {
    let t = label(title, crate::shapes::Color::Yellow, title_font(bbox.size.width));
    if page_changed {
        framed(
            Frame::Crop(title_area(bbox, t)),
            spec_textbox_draw(t, spec_cropped_bbox(bbox, title_area(bbox, t))),
        )
    } else {
        Seq::empty()
    }
}

/// The area below the title of a page on a target with box `bbox`.
pub open spec fn spec_page_area(bbox: Rectangle, title: Seq<u8>) -> Rectangle {
    below_title(bbox, label(title, crate::shapes::Color::Yellow, title_font(bbox.size.width)))
}

/// Draws the title of a page where the page changed, and gives the area
/// below it, within a padding of 2, that the page is then cropped to.
pub fn with_title(bbox: &Rectangle, page_changed: bool, title: &[u8]) -> (r: (Vec<DrawOp>, Rectangle))
    requires
        with_title_fits(*bbox, page_changed, title@),
    ensures
        op_views(r.0@) == spec_title(*bbox, page_changed, title@),
        r.1 == spec_page_area(*bbox, title@),
{
    let padding: u32 = 2;
    let width = bbox.size.width;
    let main_font = if width <= 128 {
        Font::Profont12
    } else {
        Font::Profont18
    };
    let title_shape = make_label(
        crate::mqtt_publish::bytes_to_vec(title),
        crate::shapes::Color::Yellow,
        main_font,
    );
    let title_height = title_shape.size().height;
    let mut ops: Vec<DrawOp> = Vec::new();
    if page_changed {
        let area = Rectangle {
            top_left: Point {
                x: bbox.top_left.x + padding as i32,
                y: bbox.top_left.y + padding as i32,
            },
            size: Size { width: bbox.size.width - padding * 2, height: title_height },
        };
        let inner = cropped_bbox(bbox, &area);
        ops = frame_ops(Frame::Crop(area), title_shape.draw(&inner));
    }
    let area = Rectangle {
        top_left: Point {
            x: bbox.top_left.x + 2,
            y: bbox.top_left.y + 2 + title_height as i32,
        },
        size: Size {
            width: bbox.size.width - 4,
            height: bbox.size.height - 4 - title_height,
        },
    };
    proof {
        assert(op_views(ops@) =~= spec_title(*bbox, page_changed, title@));
    }
    (ops, area)
}

/// The battery page.
pub struct Battery;

/// The text "Battery".
pub open spec fn battery_title() -> Seq<u8> {
    seq![66u8, 97u8, 116u8, 116u8, 101u8, 114u8, 121u8]
}

/// The battery icon of the battery page: the default one with the charge
/// of the state.
pub open spec fn page_battery_icon(state: BatteryState) -> widgets::Battery {
    widgets::Battery {
        size: Size { width: 100, height: 200 },
        padding: 10,
        outline: 2,
        distinct_outline: true,
        cathode: Size { width: 40, height: 10 },
        percentage_threhsold: 0,
        text: BatteryChargedText::Xor,
        font: Font::Profont24,
        charged_percentage: state_percentage(state),
    }
}

/// Whether the battery page can be drawn on a target with box `bbox`
/// without overflow.
pub open spec fn battery_page_fits(bbox: Rectangle, page_changed: bool, state: Option<BatteryState>) -> bool {
    let area = spec_page_area(bbox, battery_title());
    &&& with_title_fits(bbox, page_changed, battery_title())
    &&& state matches Some(s) ==> {
        &&& corners_fit(bbox)
        &&& corners_fit(area)
        &&& battery_fits(&page_battery_icon(s), spec_cropped_bbox(bbox, area))
    }
}

/// What the battery page draws on a target with box `bbox`: its title, then
/// where the state is known the battery icon below it.
pub open spec fn spec_battery_page(bbox: Rectangle, page_changed: bool, state: Option<BatteryState>) -> Seq<OpView> {
    let area = spec_page_area(bbox, battery_title());
    spec_title(bbox, page_changed, battery_title()) + match state {
        Some(s) => framed(
            Frame::Crop(area),
            spec_battery_draw(&page_battery_icon(s), spec_cropped_bbox(bbox, area)),
        ),
        None => Seq::empty(),
    }
}

impl Battery {
    /// The operations that draw the battery page on a target with box `bbox`.
    pub fn draw(bbox: &Rectangle, page_changed: bool, state: Option<BatteryState>) -> (ops: Vec<DrawOp>)
        requires
            battery_page_fits(*bbox, page_changed, state),
        ensures
            op_views(ops@) == spec_battery_page(*bbox, page_changed, state),
    {
        let title: Vec<u8> = vec![66u8, 97u8, 116u8, 116u8, 101u8, 114u8, 121u8];
        assert(title@ =~= battery_title());
        let (mut ops, area) = with_title(bbox, page_changed, title.as_slice());
        match state {
            Some(s) => {
                let mut icon = widgets::Battery::new();
                icon.charged_percentage = s.percentage();
                let inner = cropped_bbox(bbox, &area);
                append_ops(&mut ops, frame_ops(Frame::Crop(area), icon.draw(&inner)));
            },
            None => {},
        }
        proof {
            assert(op_views(ops@) =~= spec_battery_page(*bbox, page_changed, state));
        }
        ops
    }
}

/// The summary page: the status lines at top and bottom and the meter and
/// valve between them.
pub struct Summary;

/// The font of the status lines: the smallest on narrow screens.
pub open spec fn status_font(width: u32) -> Font {
    if width <= 128 {
        Font::Profont10
    } else {
        Font::Profont14
    }
}

/// The height of a status line.
pub open spec fn status_height(width: u32) -> u32 {
    if width <= 128 {
        12
    } else {
        20
    }
}

/// The gap between the items of the top status line.
pub open spec fn status_padding(width: u32) -> u32 {
    if width <= 128 {
        5
    } else {
        2
    }
}

/// The text "MQTT".
pub open spec fn mqtt_text() -> Seq<u8> {
    seq![77u8, 81u8, 84u8, 84u8]
}

/// "PWR" where external power is present, three spaces otherwise.
pub open spec fn power_text(powered: bool) -> Seq<u8> {
    if powered {
        seq![80u8, 87u8, 82u8]
    } else {
        seq![32u8, 32u8, 32u8]
    }
}

/// Twelve spaces, the width of the remaining time text.
pub open spec fn blank_text() -> Seq<u8> {
    Seq::new(12, |i: int| 32u8)
}

/// The remaining time text: blank when indefinite, otherwise "Sleep in Ns"
/// with the whole seconds left, at most 99.
pub open spec fn remaining_text(rt: RemainingTime) -> Seq<u8> {
    match rt {
        RemainingTime::Indefinite => blank_text(),
        RemainingTime::Duration(ms) => {
            let secs = ms / 1000;
            seq![83u8, 108u8, 101u8, 101u8, 112u8, 32u8, 105u8, 110u8, 32u8] + decimal_digits(
                (if secs <= 99 {
                    secs
                } else {
                    99
                }) as nat,
            ) + seq![115u8]
        },
    }
}

/// Whether external power is known to be present.
pub open spec fn is_powered(battery: Option<BatteryState>) -> bool {
    battery matches Some(b) && b.powered == Some(true)
}

/// The wifi icon of the top status line: no padding, a thin outline and an
/// unknown strength.
pub open spec fn status_wifi() -> Wifi {
    Wifi { padding: 1, outline: 1, strength: None }
}

/// The battery icon of the top status line, with the charge of the state.
pub open spec fn status_battery(width: u32, battery: Option<BatteryState>) -> widgets::Battery {
    let h = status_height(width);
    widgets::Battery {
        size: Size { width: 100, height: 200 },
        padding: 1,
        outline: 1,
        distinct_outline: false,
        cathode: Size { width: h / 2, height: h / 4 },
        percentage_threhsold: 0,
        text: BatteryChargedText::No,
        font: Font::Profont24,
        charged_percentage: match battery {
            Some(b) => state_percentage(b),
            None => None,
        },
    }
}

/// The areas of the top status line on a target with box `bbox`: the wifi
/// icon and "MQTT" from the left, the battery icon and the power text from
/// the right.
pub open spec fn status_areas(bbox: Rectangle, battery: Option<BatteryState>) -> (Rectangle, Rectangle, Rectangle, Rectangle) {
    let w = bbox.size.width;
    let h = status_height(w);
    let p = status_padding(w);
    let y = bbox.top_left.y;
    let wifi_size = Size { width: (h * 3 / 4) as u32, height: h };
    let x1 = bbox.top_left.x + wifi_size.width + p;
    let mqtt = label(mqtt_text(), crate::shapes::Color::Yellow, status_font(w));
    let power = label(power_text(is_powered(battery)), crate::shapes::Color::Green, status_font(w));
    let xr1 = spec_bottom_right(bbox).0 - h * 2;
    let xr3 = xr1 - p - spec_textbox_size(power).width;
    (
        Rectangle { top_left: bbox.top_left, size: wifi_size },
        Rectangle { top_left: Point { x: x1 as i32, y }, size: spec_textbox_size(mqtt) },
        Rectangle { top_left: Point { x: xr1 as i32, y }, size: Size { width: (h * 2) as u32, height: h } },
        Rectangle { top_left: Point { x: xr3 as i32, y }, size: spec_textbox_size(power) },
    )
}

/// Whether the top status line can be drawn on a target with box `bbox`
/// without overflow.
pub open spec fn top_status_fits(bbox: Rectangle, battery: Option<BatteryState>) -> bool {
    let w = bbox.size.width;
    let h = status_height(w);
    let p = status_padding(w);
    let mqtt = label(mqtt_text(), crate::shapes::Color::Yellow, status_font(w));
    let power = label(power_text(is_powered(battery)), crate::shapes::Color::Green, status_font(w));
    let (wifi_area, mqtt_area, battery_area, power_area) = status_areas(bbox, battery);
    let xr1 = spec_bottom_right(bbox).0 - h * 2;
    &&& !is_empty(bbox)
    &&& can_offset(bbox.top_left, bbox.size)
    &&& i32::MIN <= bbox.top_left.x + h * 3 / 4 + p <= i32::MAX
    &&& i32::MIN <= xr1
    &&& i32::MIN <= xr1 - p - spec_textbox_size(power).width
    &&& corners_fit(wifi_area)
    &&& wifi_fits(&status_wifi(), spec_cropped_bbox(bbox, wifi_area))
    &&& textbox_size_fits(mqtt)
    &&& corners_fit(mqtt_area)
    &&& textbox_fits(mqtt, spec_cropped_bbox(bbox, mqtt_area))
    &&& textbox_size_fits(power)
    &&& spec_textbox_size(power).width <= i32::MAX
    &&& battery is Some ==> {
        &&& corners_fit(battery_area)
        &&& corners_fit(spec_rotated_bbox(RotateAngle::Degrees270, spec_cropped_bbox(bbox, battery_area)))
        &&& battery_fits(
            &status_battery(w, battery),
            spec_rotated_bbox(RotateAngle::Degrees270, spec_cropped_bbox(bbox, battery_area)),
        )
        &&& corners_fit(power_area)
        &&& textbox_fits(power, spec_cropped_bbox(bbox, power_area))
    }
}

/// What the top status line draws on a target with box `bbox`: the wifi icon
/// and "MQTT" at the left; where the battery state is known, its icon turned
/// upright at the right and the power text left of it.
pub open spec fn spec_top_status(bbox: Rectangle, battery: Option<BatteryState>) -> Seq<OpView> {
    let w = bbox.size.width;
    let mqtt = label(mqtt_text(), crate::shapes::Color::Yellow, status_font(w));
    let power = label(power_text(is_powered(battery)), crate::shapes::Color::Green, status_font(w));
    let (wifi_area, mqtt_area, battery_area, power_area) = status_areas(bbox, battery);
    framed(Frame::Crop(wifi_area), spec_wifi_draw(&status_wifi(), spec_cropped_bbox(bbox, wifi_area)))
        + framed(Frame::Crop(mqtt_area), spec_textbox_draw(mqtt, spec_cropped_bbox(bbox, mqtt_area)))
        + if battery is Some {
        framed(
            Frame::Crop(battery_area),
            framed(
                Frame::Rotate(RotateAngle::Degrees270),
                spec_battery_draw(
                    &status_battery(w, battery),
                    spec_rotated_bbox(RotateAngle::Degrees270, spec_cropped_bbox(bbox, battery_area)),
                ),
            ),
        ) + framed(Frame::Crop(power_area), spec_textbox_draw(power, spec_cropped_bbox(bbox, power_area)))
    } else {
        Seq::empty()
    }
}

/// The remaining time box of the bottom status line.
pub open spec fn remaining_box(width: u32, rt: RemainingTime) -> TextboxView {
    label(remaining_text(rt), crate::shapes::Color::Yellow, status_font(width))
}

/// The area of the remaining time at the bottom left of a target with box
/// `bbox`, as large as twelve characters.
pub open spec fn remaining_area(bbox: Rectangle) -> Rectangle {
    let size = spec_textbox_size(label(blank_text(), crate::shapes::Color::Yellow, status_font(bbox.size.width)));
    Rectangle {
        top_left: Point {
            x: bbox.top_left.x,
            y: (bbox.top_left.y + bbox.size.height - size.height) as i32,
        },
        size,
    }
}

/// Whether the bottom status line can be drawn on a target with box `bbox`
/// without overflow.
pub open spec fn bottom_status_fits(bbox: Rectangle, rt: Option<RemainingTime>) -> bool {
    let size = spec_textbox_size(label(blank_text(), crate::shapes::Color::Yellow, status_font(bbox.size.width)));
    rt matches Some(r) ==> {
        &&& size.height <= bbox.size.height
        &&& can_offset(bbox.top_left, Size { width: 0, height: (bbox.size.height - size.height) as u32 })
        &&& corners_fit(bbox)
        &&& corners_fit(remaining_area(bbox))
        &&& textbox_fits(remaining_box(bbox.size.width, r), spec_cropped_bbox(bbox, remaining_area(bbox)))
    }
}

/// What the bottom status line draws on a target with box `bbox`: where the
/// remaining time is known, its text at the bottom left.
pub open spec fn spec_bottom_status(bbox: Rectangle, rt: Option<RemainingTime>) -> Seq<OpView> {
    match rt {
        Some(r) => framed(
            Frame::Crop(remaining_area(bbox)),
            spec_textbox_draw(remaining_box(bbox.size.width, r), spec_cropped_bbox(bbox, remaining_area(bbox))),
        ),
        None => Seq::empty(),
    }
}

/// The font of the summary's meter and valve: the middle one on narrow screens.
pub open spec fn content_font(width: u32) -> Font {
    if width <= 128 {
        Font::Profont18
    } else {
        Font::Profont24
    }
}

/// How far open the valve shows: unknown where its state is.
pub open spec fn shown_percentage(valve: Option<Option<ValveState>>) -> Option<u8> {
    match valve {
        Some(Some(v)) => Some(spec_open_percentage(v) as u8),
        _ => None,
    }
}

/// The valve icon of the summary.
pub open spec fn summary_valve(width: u32, valve: Option<Option<ValveState>>) -> Valve {
    Valve {
        font: content_font(width),
        padding: 10,
        outline: 4,
        handle_area: Size { width: 20, height: 10 },
        open_percentage: shown_percentage(valve),
    }
}

/// The area of the meter on a target with box `bbox`: centered horizontally
/// from the origin's column, at the top.
pub open spec fn meter_area(bbox: Rectangle) -> Rectangle {
    let size = spec_meter_size(content_font(bbox.size.width), 8, 2);
    Rectangle {
        top_left: Point { x: ((bbox.size.width - size.width) / 2) as u32 as i32, y: bbox.top_left.y },
        size,
    }
}

/// The top of the valve: five below the meter's preferred height.
pub open spec fn valve_top(bbox: Rectangle) -> int {
    bbox.top_left.y + spec_meter_size(content_font(bbox.size.width), 8, 2).height + 5
}

/// The area of the valve on a target with box `bbox`: a square from the
/// left edge below the meter, as large as the right edge's column less its
/// top.
pub open spec fn valve_area(bbox: Rectangle) -> Rectangle {
    let side = (spec_bottom_right(bbox).0 - valve_top(bbox)) as i32 as u32;
    Rectangle {
        top_left: Point { x: bbox.top_left.x, y: valve_top(bbox) as i32 },
        size: Size { width: side, height: side },
    }
}

/// Whether the summary's content can be drawn on a target with box `bbox`
/// without overflow.
pub open spec fn content_fits(
    bbox: Rectangle,
    valve: Option<Option<ValveState>>,
    wm: Option<WaterMeterState>,
) -> bool {
    let font = content_font(bbox.size.width);
    let size = spec_meter_size(font, 8, 2);
    &&& crate::widgets::meter_size_fits(font, 8, 2)
    &&& i32::MIN <= valve_top(bbox) <= i32::MAX
    &&& size.height + 5 <= u32::MAX
    &&& wm matches Some(m) ==> {
        &&& size.width <= bbox.size.width
        &&& corners_fit(bbox)
        &&& corners_fit(meter_area(bbox))
        &&& meter_fits(Some(m.edges_count), 1, font, 8, 2, spec_cropped_bbox(bbox, meter_area(bbox)))
    }
    &&& valve matches Some(v) ==> {
        &&& state_valid(v)
        &&& !is_empty(bbox)
        &&& can_offset(bbox.top_left, bbox.size)
        &&& i32::MIN <= spec_bottom_right(bbox).0 - valve_top(bbox) <= i32::MAX
        &&& corners_fit(bbox)
        &&& corners_fit(valve_area(bbox))
        &&& valve_fits(&summary_valve(bbox.size.width, valve), spec_cropped_bbox(bbox, valve_area(bbox)))
    }
}

/// What the summary's content draws on a target with box `bbox`: where the
/// meter state is known, the reading; where the valve state is, the valve
/// below it.
pub open spec fn spec_content(
    bbox: Rectangle,
    valve: Option<Option<ValveState>>,
    wm: Option<WaterMeterState>,
) -> Seq<OpView> {
    let font = content_font(bbox.size.width);
    (match wm {
        Some(m) => framed(
            Frame::Crop(meter_area(bbox)),
            spec_meter_draw(Some(m.edges_count), 1, font, 8, 2, true, 2, spec_cropped_bbox(bbox, meter_area(bbox))),
        ),
        None => Seq::empty(),
    }) + if valve is Some {
        framed(
            Frame::Crop(valve_area(bbox)),
            spec_valve_draw(&summary_valve(bbox.size.width, valve), spec_cropped_bbox(bbox, valve_area(bbox))),
        )
    } else {
        Seq::empty()
    }
}

/// The area between the status lines on a target with box `bbox`.
pub open spec fn content_area(bbox: Rectangle) -> Rectangle {
    let h = status_height(bbox.size.width);
    Rectangle {
        top_left: Point { x: bbox.top_left.x, y: (bbox.top_left.y + h + 5) as i32 },
        size: Size { width: bbox.size.width, height: (bbox.size.height - (h + h + 5)) as u32 },
    }
}

/// Whether the summary can be drawn on a target with box `bbox` without overflow.
pub open spec fn summary_fits(
    bbox: Rectangle,
    valve: Option<Option<ValveState>>,
    wm: Option<WaterMeterState>,
    battery: Option<BatteryState>,
    rt: Option<RemainingTime>,
) -> bool {
    let h = status_height(bbox.size.width);
    &&& top_status_fits(bbox, battery)
    &&& bottom_status_fits(bbox, rt)
    &&& can_offset(bbox.top_left, Size { width: 0, height: (h + 5) as u32 })
    &&& h + h + 5 <= bbox.size.height
    &&& corners_fit(bbox)
    &&& corners_fit(content_area(bbox))
    &&& content_fits(spec_cropped_bbox(bbox, content_area(bbox)), valve, wm)
}

/// What the summary draws on a target with box `bbox`: the top and bottom
/// status lines, then the content cropped to the area between them.
pub open spec fn spec_summary(
    bbox: Rectangle,
    valve: Option<Option<ValveState>>,
    wm: Option<WaterMeterState>,
    battery: Option<BatteryState>,
    rt: Option<RemainingTime>,
) -> Seq<OpView> {
    spec_top_status(bbox, battery) + spec_bottom_status(bbox, rt) + framed(
        Frame::Crop(content_area(bbox)),
        spec_content(spec_cropped_bbox(bbox, content_area(bbox)), valve, wm),
    )
}

impl Summary {
    /// The operations that draw the summary on a target with box `bbox`.
    pub fn draw(
        bbox: &Rectangle,
        valve_state: Option<Option<ValveState>>,
        wm_state: Option<WaterMeterState>,
        battery_state: Option<BatteryState>,
        remaining_time_state: Option<RemainingTime>,
    ) -> (ops: Vec<DrawOp>)
        requires
            summary_fits(*bbox, valve_state, wm_state, battery_state, remaining_time_state),
        ensures
            op_views(ops@) == spec_summary(*bbox, valve_state, wm_state, battery_state, remaining_time_state),
    {
        let (mut ops, top_height) = Self::draw_top_status_line(bbox, battery_state);
        let (bottom, bottom_height) = Self::draw_bottom_status_line(bbox, remaining_time_state);
        append_ops(&mut ops, bottom);
        let content_rect = Rectangle {
            top_left: Point { x: bbox.top_left.x, y: bbox.top_left.y + (top_height + 5) as i32 },
            size: Size {
                width: bbox.size.width,
                height: bbox.size.height - (top_height + bottom_height + 5),
            },
        };
        let inner = cropped_bbox(bbox, &content_rect);
        let content = Self::draw_content(&inner, valve_state, wm_state);
        append_ops(&mut ops, frame_ops(Frame::Crop(content_rect), content));
        proof {
            assert(op_views(ops@) =~= spec_summary(
                *bbox,
                valve_state,
                wm_state,
                battery_state,
                remaining_time_state,
            ));
        }
        ops
    }

    fn status_style(width: u32) -> (r: (Font, u32, u32))
        ensures
            r == (status_font(width), status_height(width), status_padding(width)),
    {
        if width <= 128 {
            (Font::Profont10, 12, 5)
        } else {
            (Font::Profont14, 20, 2)
        }
    }

    fn draw_top_status_line(bbox: &Rectangle, battery_state: Option<BatteryState>) -> (r: (Vec<DrawOp>, u32))
        requires
            top_status_fits(*bbox, battery_state),
        ensures
            op_views(r.0@) == spec_top_status(*bbox, battery_state),
            r.1 == status_height(bbox.size.width),
    {
        let width = bbox.size.width;
        let (status_font, status_height, status_padding) = Self::status_style(width);
        let mut x_offs = bbox.top_left.x;
        let mut x_right_offs = bbox.bottom_right().unwrap().x;
        let y_offs = bbox.top_left.y;
        let status_wifi_size = Size { width: status_height * 3 / 4, height: status_height };
        let status_wifi = Wifi { padding: 1, outline: 1, strength: None };
        let wifi_area = Rectangle { top_left: Point { x: x_offs, y: y_offs }, size: status_wifi_size };
        let inner = cropped_bbox(bbox, &wifi_area);
        let mut ops = frame_ops(Frame::Crop(wifi_area), status_wifi.draw(&inner));
        x_offs = x_offs + (status_wifi_size.width + status_padding) as i32;
        let status_mqtt = make_label(vec![77u8, 81u8, 84u8, 84u8], crate::shapes::Color::Yellow, status_font);
        assert(status_mqtt@ == label(mqtt_text(), crate::shapes::Color::Yellow, status_font));
        let mqtt_area = Rectangle {
            top_left: Point { x: x_offs, y: y_offs },
            size: status_mqtt.size(),
        };
        let inner = cropped_bbox(bbox, &mqtt_area);
        append_ops(&mut ops, frame_ops(Frame::Crop(mqtt_area), status_mqtt.draw(&inner)));
        let status_battery_size = Size { width: status_height * 2, height: status_height };
        let mut status_battery = widgets::Battery::new();
        status_battery.charged_percentage = match battery_state {
            Some(b) => b.percentage(),
            None => None,
        };
        status_battery.text = BatteryChargedText::No;
        status_battery.cathode = Size { width: status_height / 2, height: status_height / 4 };
        status_battery.padding = 1;
        status_battery.outline = 1;
        status_battery.distinct_outline = false;
        x_right_offs = x_right_offs - status_battery_size.width as i32;
        if battery_state.is_some() {
            let battery_area = Rectangle {
                top_left: Point { x: x_right_offs, y: y_offs },
                size: status_battery_size,
            };
            let inner = cropped_bbox(bbox, &battery_area);
            let rotated = rotated_bounding_box(RotateAngle::Degrees270, inner);
            let drawn = frame_ops(Frame::Rotate(RotateAngle::Degrees270), status_battery.draw(&rotated));
            append_ops(&mut ops, frame_ops(Frame::Crop(battery_area), drawn));
        }
        x_right_offs = x_right_offs - status_padding as i32;
        let powered = match battery_state {
            Some(b) => match b.powered {
                Some(p) => p,
                None => false,
            },
            None => false,
        };
        let power_text: Vec<u8> = if powered {
            vec![80u8, 87u8, 82u8]
        } else {
            vec![32u8, 32u8, 32u8]
        };
        let status_power = make_label(power_text, crate::shapes::Color::Green, status_font);
        assert(status_power@ == label(
            crate::pages::power_text(is_powered(battery_state)),
            crate::shapes::Color::Green,
            status_font,
        ));
        let power_size = status_power.size();
        x_right_offs = x_right_offs - power_size.width as i32;
        if battery_state.is_some() {
            let power_area = Rectangle {
                top_left: Point { x: x_right_offs, y: y_offs },
                size: power_size,
            };
            let inner = cropped_bbox(bbox, &power_area);
            append_ops(&mut ops, frame_ops(Frame::Crop(power_area), status_power.draw(&inner)));
        }
        proof {
            assert(op_views(ops@) =~= spec_top_status(*bbox, battery_state));
        }
        (ops, status_height)
    }

    fn draw_content(
        bbox: &Rectangle,
        valve_state: Option<Option<ValveState>>,
        wm_state: Option<WaterMeterState>,
    ) -> (ops: Vec<DrawOp>)
        requires
            content_fits(*bbox, valve_state, wm_state),
        ensures
            op_views(ops@) == spec_content(*bbox, valve_state, wm_state),
    {
        let width = bbox.size.width;
        let main_font = if width <= 128 {
            Font::Profont18
        } else {
            Font::Profont24
        };
        let mut y_offs = bbox.top_left.y;
        let mut wm_shape = WaterMeterClassic::<8>::new();
        wm_shape.edges_count = match wm_state {
            Some(m) => Some(m.edges_count),
            None => None,
        };
        wm_shape.font = main_font;
        let preferred = wm_shape.preferred_size();
        let mut ops: Vec<DrawOp> = Vec::new();
        if wm_state.is_some() {
            let area = Rectangle {
                top_left: Point { x: ((width - preferred.width) / 2) as i32, y: y_offs },
                size: preferred,
            };
            let inner = cropped_bbox(bbox, &area);
            ops = frame_ops(Frame::Crop(area), wm_shape.draw(&inner));
        }
        y_offs = y_offs + (preferred.height + 5) as i32;
        match valve_state {
            Some(v) => {
                let main_height = bbox.bottom_right().unwrap().x - y_offs;
                let valve_shape_size = Size { width: main_height as u32, height: main_height as u32 };
                let mut valve_shape = Valve::new();
                valve_shape.open_percentage = match v {
                    Some(state) => Some(state.open_percentage()),
                    None => None,
                };
                valve_shape.font = main_font;
                let area = Rectangle {
                    top_left: Point { x: bbox.top_left.x, y: y_offs },
                    size: valve_shape_size,
                };
                let inner = cropped_bbox(bbox, &area);
                append_ops(&mut ops, frame_ops(Frame::Crop(area), valve_shape.draw(&inner)));
            },
            None => {},
        }
        proof {
            assert(op_views(ops@) =~= spec_content(*bbox, valve_state, wm_state));
        }
        ops
    }

    fn draw_bottom_status_line(bbox: &Rectangle, remaining_time: Option<RemainingTime>) -> (r: (Vec<DrawOp>, u32))
        requires
            bottom_status_fits(*bbox, remaining_time),
        ensures
            op_views(r.0@) == spec_bottom_status(*bbox, remaining_time),
            r.1 == status_height(bbox.size.width),
    {
        let width = bbox.size.width;
        let (status_font, status_height, _status_padding) = Self::status_style(width);
        let mut ops: Vec<DrawOp> = Vec::new();
        match remaining_time {
            Some(rt) => {
                let blank: Vec<u8> = vec![32u8, 32u8, 32u8, 32u8, 32u8, 32u8, 32u8, 32u8, 32u8, 32u8, 32u8, 32u8];
                assert(blank@ =~= blank_text());
                let mut status_rt = make_label(blank, crate::shapes::Color::Yellow, status_font);
                assert(status_rt@.text.len() == 12);
                assert(status_font == Font::Profont10 || status_font == Font::Profont14);
                let ghost cw = spec_character_size(status_font).width;
                let ghost n = status_rt@.text.len() as u32;
                assert(n == 12u32);
                assert(cw <= 16);
                assert(cw * n + 2 <= u32::MAX) by (nonlinear_arith)
                    requires
                        cw <= 16,
                        n == 12u32,
                ;
                assert(textbox_size_fits(status_rt@));
                let status_rt_size = status_rt.size();
                status_rt.text = Self::remaining_text(rt);
                let area = Rectangle {
                    top_left: Point {
                        x: bbox.top_left.x,
                        y: bbox.top_left.y + (bbox.size.height - status_rt_size.height) as i32,
                    },
                    size: status_rt_size,
                };
                let inner = cropped_bbox(bbox, &area);
                ops = frame_ops(Frame::Crop(area), status_rt.draw(&inner));
            },
            None => {},
        }
        proof {
            assert(op_views(ops@) =~= spec_bottom_status(*bbox, remaining_time));
        }
        (ops, status_height)
    }

    fn remaining_text(rt: RemainingTime) -> (t: Vec<u8>)
        ensures
            t@ == remaining_text(rt),
    {
        match rt {
            RemainingTime::Indefinite => {
                let blank: Vec<u8> = vec![32u8, 32u8, 32u8, 32u8, 32u8, 32u8, 32u8, 32u8, 32u8, 32u8, 32u8, 32u8];
                assert(blank@ =~= blank_text());
                blank
            },
            RemainingTime::Duration(ms) => {
                let secs = ms / 1000;
                let shown: u64 = if secs <= 99 {
                    secs
                } else {
                    99
                };
                let mut t: Vec<u8> = vec![83u8, 108u8, 101u8, 101u8, 112u8, 32u8, 105u8, 110u8, 32u8];
                let digits = crate::text::decimal_text(shown);
                let mut digits = digits;
                t.append(&mut digits);
                t.push(115u8);
                assert(t@ =~= remaining_text(rt));
                t
            },
        }
    }
}

/// What a screen state shows of a data source: its value where it changed
/// since the last draw.
pub open spec fn changed<T>(state: ScreenState, source: DataSource, value: T) -> Option<T> {
    if state.changeset.has(source) {
        Some(value)
    } else {
        None
    }
}

/// The remaining time that a screen state shows: known and changed.
pub open spec fn shown_remaining_time(state: ScreenState) -> Option<RemainingTime> {
    if state.changeset.has(DataSource::RemainingTime) {
        state.remaining_time
    } else {
        None
    }
}

/// Whether the active page of a screen state can be drawn on a display with
/// box `bbox` without overflow.
pub open spec fn screen_fits(state: ScreenState, bbox: Rectangle) -> bool {
    match state.active_page {
        Page::Summary => summary_fits(
            bbox,
            changed(state, DataSource::Valve, state.valve),
            changed(state, DataSource::WM, state.wm),
            changed(state, DataSource::Battery, state.battery),
            shown_remaining_time(state),
        ),
        Page::Battery => battery_page_fits(
            bbox,
            state.changeset.has(DataSource::Page),
            changed(state, DataSource::Battery, state.battery),
        ),
    }
}

/// What the display shows of a screen state: its active page, with the data
/// that changed since the last draw; the battery page redraws its title when
/// the page changed.
pub open spec fn spec_screen(state: ScreenState, bbox: Rectangle) -> Seq<OpView> {
    match state.active_page {
        Page::Summary => spec_summary(
            bbox,
            changed(state, DataSource::Valve, state.valve),
            changed(state, DataSource::WM, state.wm),
            changed(state, DataSource::Battery, state.battery),
            shown_remaining_time(state),
        ),
        Page::Battery => spec_battery_page(
            bbox,
            state.changeset.has(DataSource::Page),
            changed(state, DataSource::Battery, state.battery),
        ),
    }
}

/// The operations that draw a screen state on a display with box `bbox`.
pub fn draw(screen_state: &ScreenState, bbox: &Rectangle) -> (ops: Vec<DrawOp>)
    requires
        screen_fits(*screen_state, *bbox),
    ensures
        op_views(ops@) == spec_screen(*screen_state, *bbox),
{
    let valve = match screen_state.valve() {
        Some(v) => Some(*v),
        None => None,
    };
    let wm = match screen_state.wm() {
        Some(w) => Some(*w),
        None => None,
    };
    let battery = match screen_state.battery() {
        Some(b) => Some(*b),
        None => None,
    };
    let remaining_time = match screen_state.remaining_time() {
        Some(r) => *r,
        None => None,
    };
    match screen_state.active_page {
        Page::Summary => Summary::draw(bbox, valve, wm, battery, remaining_time),
        Page::Battery => {
            let page_changed = screen_state.changeset.contains(DataSource::Page);
            Battery::draw(bbox, page_changed, battery)
        },
    }
}

/// Whether a display box is one the pages are laid out for: at the origin,
/// 100 to 128 or 132 to 4096 pixels wide and 160 to 4096 high. (Between 129
/// and 131 pixels the large font leaves no room for the meter.)
pub open spec fn supported_display(bbox: Rectangle) -> bool {
    &&& bbox.top_left == (Point { x: 0, y: 0 })
    &&& (100 <= bbox.size.width <= 128 || 132 <= bbox.size.width <= 4096)
    &&& 160 <= bbox.size.height <= 4096
}

/// Whether the data of a screen state can be shown: the valve progress is a
/// percentage, and the meter count has at most eight digits.
pub open spec fn shown_data_fits(state: ScreenState) -> bool {
    &&& state_valid(state.valve)
    &&& state.wm.edges_count < 100_000_000
}

proof fn lemma_top_status_fits(bbox: Rectangle, battery: Option<BatteryState>)
    requires
        supported_display(bbox),
    ensures
        top_status_fits(bbox, battery),
{
    let w = bbox.size.width;
    let h = status_height(w);
    let power = label(power_text(is_powered(battery)), crate::shapes::Color::Green, status_font(w));
    let mqtt = label(mqtt_text(), crate::shapes::Color::Yellow, status_font(w));
    assert(power.text.len() == 3);
    assert(mqtt.text.len() == 4);
    assert((power.text.len() as u32) == 3u32);
    assert((mqtt.text.len() as u32) == 4u32);
    if w <= 128 {
        assert(status_font(w) == Font::Profont10);
        assert(spec_textbox_size(power) == Size { width: 20, height: 14 });
        assert(spec_textbox_size(mqtt) == Size { width: 26, height: 14 });
    } else {
        assert(status_font(w) == Font::Profont14);
        assert(spec_textbox_size(power) == Size { width: 32, height: 19 });
        assert(spec_textbox_size(mqtt) == Size { width: 42, height: 19 });
    }
    let (wifi_area, mqtt_area, battery_area, power_area) = status_areas(bbox, battery);
    assert(!is_empty(bbox));
    assert(can_offset(bbox.top_left, bbox.size));
    assert(corners_fit(wifi_area));
    assert(wifi_fits(&status_wifi(), spec_cropped_bbox(bbox, wifi_area)));
    assert(textbox_size_fits(mqtt));
    assert(corners_fit(mqtt_area));
    assert(textbox_fits(mqtt, spec_cropped_bbox(bbox, mqtt_area)));
    assert(textbox_size_fits(power));
    if battery is Some {
        assert(corners_fit(battery_area));
        assert(corners_fit(spec_rotated_bbox(RotateAngle::Degrees270, spec_cropped_bbox(bbox, battery_area))));
        let b = status_battery(w, battery);
        assert(spec_cropped_bbox(bbox, battery_area) == Rectangle {
            top_left: Point { x: 0, y: 0 },
            size: Size { width: (2 * h) as u32, height: h },
        });
        let r = spec_rotated_bbox(RotateAngle::Degrees270, spec_cropped_bbox(bbox, battery_area));
        assert(r == Rectangle {
            top_left: Point { x: 0, y: 0 },
            size: Size { width: h, height: (2 * h) as u32 },
        });
        assert(crate::widgets::spec_battery_area(&b) == Rectangle {
            top_left: Point { x: 1, y: 1 },
            size: Size { width: 98, height: 198 },
        });
        assert(spec_cropped_bbox(r, crate::widgets::spec_battery_area(&b)).size == Size {
            width: (h - 1) as u32,
            height: (2 * h - 1) as u32,
        });
        let pct = crate::widgets::battery_percentage(&b) as int;
        let hh = 2 * h - 1;
        assert(pct < 100 ==> hh * (100 - pct) <= u32::MAX) by (nonlinear_arith)
            requires
                0 <= hh <= 39,
                0 <= pct,
        ;
        assert(crate::widgets::battery_shape_fits(&b, Size { width: (h - 1) as u32, height: (2 * h - 1) as u32 }));
        assert(battery_fits(&b, r));
        assert(corners_fit(power_area));
        assert(textbox_fits(power, spec_cropped_bbox(bbox, power_area)));
    }
}

proof fn lemma_bottom_status_fits(bbox: Rectangle, rt: Option<RemainingTime>)
    requires
        supported_display(bbox),
    ensures
        bottom_status_fits(bbox, rt),
{
    let w = bbox.size.width;
    let blank = label(blank_text(), crate::shapes::Color::Yellow, status_font(w));
    assert(blank.text.len() == 12);
    if w <= 128 {
        assert(spec_textbox_size(blank) == Size { width: 74, height: 14 });
    } else {
        assert(spec_textbox_size(blank) == Size { width: 122, height: 19 });
    }
    match rt {
        Some(r) => {
            let t = remaining_box(w, r);
            match r {
                RemainingTime::Indefinite => {},
                RemainingTime::Duration(ms) => {
                    let secs = ms / 1000;
                    let shown = if secs <= 99 { secs } else { 99 };
                    reveal_with_fuel(crate::text::pow10, 3);
                    crate::text::lemma_decimal_digits_len(shown as nat, 2);
                    crate::text::lemma_decimal_digits(shown as nat);
                },
            }
            assert(1 <= t.text.len() <= 12);
        },
        None => {},
    }
}

proof fn lemma_content_fits(
    bbox: Rectangle,
    valve: Option<Option<ValveState>>,
    wm: Option<WaterMeterState>,
)
    requires
        bbox.top_left == (Point { x: 0, y: 0 }),
        100 <= bbox.size.width <= 128 || 132 <= bbox.size.width <= 4096,
        115 <= bbox.size.height <= 4096,
        valve matches Some(v) ==> state_valid(v),
        wm matches Some(m) ==> m.edges_count < 100_000_000,
    ensures
        content_fits(bbox, valve, wm),
{
    let w = bbox.size.width;
    let font = content_font(w);
    let size = spec_meter_size(font, 8, 2);
    assert((8nat as u32) == 8u32);
    if w <= 128 {
        assert(font == Font::Profont18);
        assert(size == Size { width: 100, height: 26 });
    } else {
        assert(font == Font::Profont24);
        assert(size == Size { width: 132, height: 33 });
    }
    assert(crate::widgets::meter_size_fits(font, 8, 2));
    match wm {
        Some(m) => {
            reveal_with_fuel(crate::text::pow10, 9);
            crate::text::lemma_decimal_digits_len(m.edges_count as nat, 8);
            assert(m.edges_count / (1u32 as u64) == m.edges_count);
            let area = meter_area(bbox);
            assert(spec_cropped_bbox(bbox, area) == Rectangle { top_left: Point { x: 0, y: 0 }, size });
            assert(meter_fits(Some(m.edges_count), 1, font, 8, 2, spec_cropped_bbox(bbox, area)));
        },
        None => {},
    }
    match valve {
        Some(v) => {
            let top = valve_top(bbox);
            let side = (w - 1 - top) as u32;
            let area = valve_area(bbox);
            assert(area == Rectangle {
                top_left: Point { x: 0, y: top as i32 },
                size: Size { width: side, height: side },
            });
            let hv = if side <= bbox.size.height - top {
                side
            } else {
                (bbox.size.height - top) as u32
            };
            let inner = spec_cropped_bbox(bbox, area);
            assert(inner == Rectangle {
                top_left: Point { x: 0, y: 0 },
                size: Size { width: side, height: hv },
            });
            let sv = summary_valve(w, valve);
            let padded = crate::shapes::spec_padded_area(inner, 10);
            assert(padded == Rectangle {
                top_left: Point { x: 10, y: 10 },
                size: Size { width: (side - 20) as u32, height: (hv - 20) as u32 },
            });
            let shape_size = Size { width: (side - 20) as u32, height: (hv - 20) as u32 };
            assert(spec_cropped_bbox(inner, padded).size == shape_size);
            match shown_percentage(valve) {
                Some(p) => {
                    let hs = shape_size.height as int;
                    assert(p < 100 ==> hs * (100 - p) <= u32::MAX) by (nonlinear_arith)
                        requires
                            0 <= hs <= 4096,
                    ;
                },
                None => {},
            }
            assert(crate::widgets::valve_shape_fits(&sv, shape_size));
            assert(valve_fits(&sv, inner));
        },
        None => {},
    }
}

proof fn lemma_summary_fits(
    bbox: Rectangle,
    valve: Option<Option<ValveState>>,
    wm: Option<WaterMeterState>,
    battery: Option<BatteryState>,
    rt: Option<RemainingTime>,
)
    requires
        supported_display(bbox),
        valve matches Some(v) ==> state_valid(v),
        wm matches Some(m) ==> m.edges_count < 100_000_000,
    ensures
        summary_fits(bbox, valve, wm, battery, rt),
{
    lemma_top_status_fits(bbox, battery);
    lemma_bottom_status_fits(bbox, rt);
    lemma_content_fits(spec_cropped_bbox(bbox, content_area(bbox)), valve, wm);
}

proof fn lemma_battery_page_fits(bbox: Rectangle, page_changed: bool, state: Option<BatteryState>)
    requires
        supported_display(bbox),
    ensures
        battery_page_fits(bbox, page_changed, state),
{
    let w = bbox.size.width;
    let t = label(battery_title(), crate::shapes::Color::Yellow, title_font(w));
    assert(t.text.len() == 7);
    assert((t.text.len() as u32) == 7u32);
    let th: u32 = if w <= 128 {
        assert(title_font(w) == Font::Profont12);
        assert(spec_textbox_size(t) == Size { width: 51, height: 17 });
        17
    } else {
        assert(title_font(w) == Font::Profont18);
        assert(spec_textbox_size(t) == Size { width: 86, height: 24 });
        24
    };
    assert(with_title_fits(bbox, page_changed, battery_title()));
    match state {
        Some(s) => {
            let area = spec_page_area(bbox, battery_title());
            assert(area == Rectangle {
                top_left: Point { x: 2, y: (2 + th) as i32 },
                size: Size { width: (w - 4) as u32, height: (bbox.size.height - 4 - th) as u32 },
            });
            let inner = spec_cropped_bbox(bbox, area);
            assert(inner == Rectangle {
                top_left: Point { x: 0, y: 0 },
                size: Size { width: (w - 4) as u32, height: (bbox.size.height - 4 - th) as u32 },
            });
            let icon = page_battery_icon(s);
            let hb = if 180 <= bbox.size.height - 14 - th {
                180
            } else {
                bbox.size.height - 14 - th
            };
            assert(spec_cropped_bbox(inner, crate::widgets::spec_battery_area(&icon)).size == Size {
                width: 80,
                height: hb as u32,
            });
            let pct = crate::widgets::battery_percentage(&icon) as int;
            assert(pct < 100 ==> hb * (100 - pct) <= u32::MAX) by (nonlinear_arith)
                requires
                    0 <= hb <= 180,
                    0 <= pct,
            ;
            assert(crate::widgets::battery_shape_fits(&icon, Size { width: 80, height: hb as u32 }));
            assert(battery_fits(&icon, inner));
        },
        None => {},
    }
}

/// Law: on a supported display, every screen state whose data can be shown
/// can be drawn.
pub proof fn law_supported_displays_draw(state: ScreenState, bbox: Rectangle)
    requires
        supported_display(bbox),
        shown_data_fits(state),
    ensures
        screen_fits(state, bbox),
{
    match state.active_page {
        Page::Summary => lemma_summary_fits(
            bbox,
            changed(state, DataSource::Valve, state.valve),
            changed(state, DataSource::WM, state.wm),
            changed(state, DataSource::Battery, state.battery),
            shown_remaining_time(state),
        ),
        Page::Battery => lemma_battery_page_fits(
            bbox,
            state.changeset.has(DataSource::Page),
            changed(state, DataSource::Battery, state.battery),
        ),
    }
}

/// Whether a screen state can be drawn on a display with box `bbox` by the
/// checks that `law_supported_displays_draw` asks for.
pub fn drawable(screen_state: &ScreenState, bbox: &Rectangle) -> (b: bool)
    ensures
        b == (supported_display(*bbox) && shown_data_fits(*screen_state)),
        b ==> screen_fits(*screen_state, *bbox),
{
    let w = bbox.size.width;
    let h = bbox.size.height;
    let display_ok = bbox.top_left.x == 0 && bbox.top_left.y == 0 && ((100 <= w && w <= 128) || (132 <= w
        && w <= 4096)) && 160 <= h && h <= 4096;
    let valve_ok = match screen_state.valve {
        Some(ValveState::Opening(p)) => p <= 100,
        Some(ValveState::Closing(p)) => p <= 100,
        _ => true,
    };
    let b = display_ok && valve_ok && screen_state.wm.edges_count < 100_000_000;
    proof {
        if b {
            law_supported_displays_draw(*screen_state, *bbox);
        }
    }
    b
}

} // verus!
