use embedded_graphics::geometry::{Point, Size};
use embedded_graphics::primitives::Rectangle;
use plant_monitor::layout::{plan_frame, zero_rectangle, LIGHT_LABEL, MOISTURE_LABEL};

#[test]
fn block_is_centred_on_the_screen() {
    let frame = plan_frame(1234, 56, 320, 240);
    assert_eq!(frame.light, 1234);
    assert_eq!(frame.moisture, 56);
    assert_eq!(frame.light_text().as_str(), "1234");
    assert_eq!(frame.moisture_text().as_str(), "56");
    assert_eq!(
        frame.bounds,
        Rectangle::new(Point::new(76, 98), Size::new(168, 44))
    );
}

#[test]
fn block_grows_with_the_widest_value() {
    assert_eq!(
        plan_frame(0, 0, 320, 240).bounds,
        Rectangle::new(Point::new(94, 98), Size::new(132, 44))
    );
    assert_eq!(
        plan_frame(7, 65535, 320, 240).bounds,
        Rectangle::new(Point::new(70, 98), Size::new(180, 44))
    );
}

#[test]
fn block_follows_the_screen_size() {
    assert_eq!(
        plan_frame(1234, 56, 240, 320).bounds,
        Rectangle::new(Point::new(36, 138), Size::new(168, 44))
    );
}

#[test]
fn labels() {
    assert_eq!(LIGHT_LABEL, "light: ");
    assert_eq!(MOISTURE_LABEL, "moisture: ");
}

#[test]
fn zero_rectangle_is_empty() {
    assert_eq!(zero_rectangle(), Rectangle::zero());
}
