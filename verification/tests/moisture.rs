use plant_monitor::moisture_sensor::{
    classify, MoistureAction, MoistureDriver, MoistureEvent, MoisturePhase, SoilBand,
    MOISTURE_DRY_MAX, MOISTURE_SUB_MAX, MOISTURE_WET_MAX,
};
use plant_monitor::COOLDOWN_MS;

#[test]
fn classify_boundaries() {
    assert_eq!(classify(0).label(), "dry soil");
    assert_eq!(classify(300).label(), "dry soil");
    assert_eq!(classify(301).label(), "wet soil");
    assert_eq!(classify(700).label(), "wet soil");
    assert_eq!(classify(701).label(), "submerged");
    assert_eq!(classify(950).label(), "submerged");
    assert_eq!(classify(951).label(), "unknown");
    assert_eq!(classify(u16::MAX).label(), "unknown");
}

#[test]
fn classify_bands() {
    assert_eq!(classify(0), SoilBand::Dry);
    assert_eq!(classify(300), SoilBand::Dry);
    assert_eq!(classify(301), SoilBand::Wet);
    assert_eq!(classify(700), SoilBand::Wet);
    assert_eq!(classify(701), SoilBand::Submerged);
    assert_eq!(classify(950), SoilBand::Submerged);
    assert_eq!(classify(951), SoilBand::Unknown);
}

#[test]
fn thresholds_are_the_documented_ones() {
    assert_eq!(MOISTURE_DRY_MAX, 300);
    assert_eq!(MOISTURE_WET_MAX, 700);
    assert_eq!(MOISTURE_SUB_MAX, 950);
    assert_eq!(COOLDOWN_MS, 1000);
}

#[test]
fn moisture_cycle_publishes_then_cools_down() {
    let mut driver = MoistureDriver::new();
    assert_eq!(driver.phase, MoisturePhase::Idle);
    assert_eq!(driver.step(MoistureEvent::Ready), Some(MoistureAction::Convert));
    assert_eq!(
        driver.step(MoistureEvent::Converted(512)),
        Some(MoistureAction::Publish { value: 512, band: SoilBand::Wet })
    );
    assert_eq!(driver.step(MoistureEvent::Ready), Some(MoistureAction::Wait(1000)));
    assert_eq!(driver.step(MoistureEvent::Ready), Some(MoistureAction::Convert));
    assert_eq!(driver.phase, MoisturePhase::Reading);
}

#[test]
fn out_of_range_reading_is_still_published() {
    let mut driver = MoistureDriver::new();
    driver.step(MoistureEvent::Ready);
    assert_eq!(
        driver.step(MoistureEvent::Converted(4095)),
        Some(MoistureAction::Publish { value: 4095, band: SoilBand::Unknown })
    );
}

#[test]
fn failed_conversion_publishes_nothing() {
    let mut driver = MoistureDriver::new();
    driver.step(MoistureEvent::Ready);
    assert_eq!(driver.step(MoistureEvent::Faulted), Some(MoistureAction::Wait(1000)));
    assert_eq!(driver.phase, MoisturePhase::Cooldown);
    assert_eq!(driver.step(MoistureEvent::Ready), Some(MoistureAction::Convert));
}

#[test]
fn moisture_cycle_ignores_events_it_does_not_await() {
    let mut driver = MoistureDriver::new();
    assert_eq!(driver.step(MoistureEvent::Converted(1)), None);
    assert_eq!(driver.step(MoistureEvent::Faulted), None);
    assert_eq!(driver.phase, MoisturePhase::Idle);
    driver.step(MoistureEvent::Ready);
    assert_eq!(driver.step(MoistureEvent::Ready), None);
    assert_eq!(driver.phase, MoisturePhase::Reading);
}
