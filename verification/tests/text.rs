use plant_monitor::text::u16_to_string;

#[test]
fn light_reading_is_truncated_not_rounded() {
    let light: f32 = 1234.7;
    assert_eq!(u16_to_string(light as u16).as_str(), "1234");
}

#[test]
fn decimal_text_of_edge_values() {
    assert_eq!(u16_to_string(0).as_str(), "0");
    assert_eq!(u16_to_string(9).as_str(), "9");
    assert_eq!(u16_to_string(10).as_str(), "10");
    assert_eq!(u16_to_string(100).as_str(), "100");
    assert_eq!(u16_to_string(1005).as_str(), "1005");
    assert_eq!(u16_to_string(40960).as_str(), "40960");
    assert_eq!(u16_to_string(u16::MAX).as_str(), "65535");
}

#[test]
fn decimal_text_agrees_with_formatting() {
    for n in 0..=u16::MAX {
        assert_eq!(u16_to_string(n).as_str(), format!("{}", n));
    }
}
