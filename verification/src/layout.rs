//! The two-column block that shows the readings: a right-aligned column of
//! labels beside a left-aligned column of values, centred on the screen.

use crate::text::{decimal_text, text_of, u16_to_string};
use embedded_graphics::geometry::{Point, Size};
use embedded_graphics::mono_font::MonoTextStyle;
use embedded_graphics::pixelcolor::{Rgb565, WebColors};
use embedded_graphics::primitives::Rectangle;
use embedded_graphics::text::Text;
use embedded_layout::align::{horizontal, vertical, Align};
use embedded_layout::layout::linear::LinearLayout;
use embedded_layout::object_chain::Chain;
use embedded_layout::View as LayoutView;
use profont::PROFONT_18_POINT;
use vstd::prelude::*;

verus! {

/// A point of `embedded-graphics`: two public coordinates.
#[verifier::external_type_specification]
pub struct ExPoint(Point);

/// A size of `embedded-graphics`: a public width and height.
#[verifier::external_type_specification]
pub struct ExSize(Size);

/// A rectangle of `embedded-graphics`: a public corner and size.
#[verifier::external_type_specification]
pub struct ExRectangle(Rectangle);

/// The rectangle with the given corner and size.
pub open spec fn rect(x: i32, y: i32, width: u32, height: u32) -> Rectangle {
    Rectangle { top_left: Point { x, y }, size: Size { width, height } }
}

/// The empty rectangle at the origin: what is on a screen that shows no block.
pub open spec fn zero_rect() -> Rectangle {
    rect(0, 0, 0, 0)
}

/// The empty rectangle at the origin.
pub fn zero_rectangle() -> (r: Rectangle)
    ensures
        r == zero_rect(),
{
    Rectangle { top_left: Point { x: 0, y: 0 }, size: Size { width: 0, height: 0 } }
}

/// Label of the light row.
pub const LIGHT_LABEL: &'static str = "light: ";

/// Label of the moisture row.
pub const MOISTURE_LABEL: &'static str = "moisture: ";

/// Longest label that the arrangement is asked to measure.
pub const LABEL_MAX: usize = 16;

/// The bounding rectangle that `embedded-layout` gives the block of two labels
/// and two values, set in ProFont 18 point and centred on a screen of the
/// given size.
pub uninterp spec fn table_bounds(
    light_label: Seq<char>,
    moisture_label: Seq<char>,
    light: Seq<char>,
    moisture: Seq<char>,
    width: u16,
    height: u16,
) -> Rectangle;

/// Arranges the block with `embedded-layout` and measures it: two vertical
/// `LinearLayout`s, the labels aligned right and the values aligned left, side
/// by side in a horizontal `LinearLayout` that `align_to` centres on the
/// screen; `bounds` of the result is returned. The result depends on the four
/// texts and the screen size alone.
#[verifier::external_body]
fn arrange_table(
    light_label: &str,
    moisture_label: &str,
    light: &heapless::String<5>,
    moisture: &heapless::String<5>,
    width: u16,
    height: u16,
) -> (bounds: Rectangle)
    requires
        light_label@.len() <= LABEL_MAX,
        moisture_label@.len() <= LABEL_MAX,
    ensures
        bounds == table_bounds(
            light_label@,
            moisture_label@,
            text_of(*light),
            text_of(*moisture),
            width,
            height,
        ),
{
    let style = MonoTextStyle::new(&PROFONT_18_POINT, Rgb565::CSS_WHITE);
    let origin = Point::zero();
    let labels = LinearLayout::vertical(
        Chain::new(Text::new(light_label, origin, style))
            .append(Text::new(moisture_label, origin, style)),
    ).with_alignment(horizontal::Right).arrange();
    let values = LinearLayout::vertical(
        Chain::new(Text::new(light.as_str(), origin, style))
            .append(Text::new(moisture.as_str(), origin, style)),
    ).with_alignment(horizontal::Left).arrange();
    let screen = Rectangle::new(origin, Size::new(width.into(), height.into()));
    LinearLayout::horizontal(Chain::new(labels).append(values)).arrange()
        .align_to(&screen, horizontal::Center, vertical::Center).bounds()
}

/// One rendering of a pair of readings: the two values and the rectangle that
/// their block covers on the screen.
#[derive(Clone, Copy, Debug, PartialEq, Eq)]
pub struct Frame {
    pub light: u16,
    pub moisture: u16,
    pub bounds: Rectangle,
}

/// The frame of a pair of readings on a screen of the given size.
pub open spec fn planned_frame(light: u16, moisture: u16, width: u16, height: u16) -> Frame {
    Frame {
        light,
        moisture,
        bounds: table_bounds(
            LIGHT_LABEL@,
            MOISTURE_LABEL@,
            decimal_text(light as nat),
            decimal_text(moisture as nat),
            width,
            height,
        ),
    }
}

impl Frame {
    /// The text of the light value.
    pub fn light_text(&self) -> (text: heapless::String<5>)
        ensures
            text_of(text) == decimal_text(self.light as nat),
    {
        u16_to_string(self.light)
    }

    /// The text of the moisture value.
    pub fn moisture_text(&self) -> (text: heapless::String<5>)
        ensures
            text_of(text) == decimal_text(self.moisture as nat),
    {
        u16_to_string(self.moisture)
    }
}

/// Renders both readings as text and arranges the block on the screen.
pub fn plan_frame(light: u16, moisture: u16, width: u16, height: u16) -> (frame: Frame)
    ensures
        frame == planned_frame(light, moisture, width, height),
{
    let light_text = u16_to_string(light);
    let moisture_text = u16_to_string(moisture);
    proof {
        reveal_strlit("light: ");
        reveal_strlit("moisture: ");
    }
    let bounds = arrange_table(
        LIGHT_LABEL,
        MOISTURE_LABEL,
        &light_text,
        &moisture_text,
        width,
        height,
    );
    Frame { light, moisture, bounds }
}

} // verus!
