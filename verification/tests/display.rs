use embedded_graphics::geometry::{Point, Size};
use embedded_graphics::primitives::Rectangle;
use plant_monitor::display::{
    DisplayAction, DisplayDriver, DisplayEvent, DisplayInput, DisplayPhase,
    DISPLAY_RETRY_DELAY_MS, UPDATE_DELAY_MS,
};
use plant_monitor::layout::{plan_frame, Frame};

/// A stand-in for the display and the channels: performs each action by
/// writing it down, and answers with the outcome scripted for it.
struct Recorder {
    calls: Vec<DisplayAction>,
    readings: Vec<(u16, u16)>,
    fail_draw_at: Option<usize>,
    draws: usize,
}

impl Recorder {
    fn new(readings: Vec<(u16, u16)>, fail_draw_at: Option<usize>) -> Recorder {
        Recorder { calls: Vec::new(), readings, fail_draw_at, draws: 0 }
    }

    fn perform(&mut self, action: DisplayAction) -> Option<DisplayEvent> {
        self.calls.push(action);
        match action {
            DisplayAction::AwaitReadings => {
                if self.readings.is_empty() {
                    None
                } else {
                    let (light, moisture) = self.readings.remove(0);
                    Some(DisplayEvent::Readings { light, moisture })
                }
            }
            DisplayAction::Draw(_) => {
                self.draws += 1;
                if self.fail_draw_at == Some(self.draws) {
                    Some(DisplayEvent::Faulted)
                } else {
                    Some(DisplayEvent::Ready)
                }
            }
            _ => Some(DisplayEvent::Ready),
        }
    }

    fn run(&mut self, driver: &mut DisplayDriver) {
        let mut event = DisplayEvent::Ready;
        loop {
            let action = driver.step(event).unwrap();
            match self.perform(action) {
                Some(next) => event = next,
                None => break,
            }
        }
    }
}

fn rect(x: i32, y: i32, width: u32, height: u32) -> Rectangle {
    Rectangle::new(Point::new(x, y), Size::new(width, height))
}

#[test]
fn display_constants() {
    assert_eq!(DISPLAY_RETRY_DELAY_MS, 1000);
    assert_eq!(UPDATE_DELAY_MS, 1000);
}

#[test]
fn session_starts_with_wake_and_clear() {
    let mut driver = DisplayDriver::new(320, 240);
    assert_eq!(driver.phase, DisplayPhase::Idle);
    assert_eq!(driver.last_bounds, Rectangle::zero());
    assert_eq!(driver.step(DisplayEvent::Ready), Some(DisplayAction::Wake));
    assert_eq!(driver.step(DisplayEvent::Ready), Some(DisplayAction::Clear));
    assert_eq!(driver.step(DisplayEvent::Ready), Some(DisplayAction::AwaitReadings));
    assert_eq!(driver.phase, DisplayPhase::Waiting);
}

#[test]
fn redraw_erases_the_previous_block_first() {
    let mut driver = DisplayDriver::new(320, 240);
    let mut recorder = Recorder::new(vec![(1234, 56), (0, 0), (7, 65535)], None);
    recorder.run(&mut driver);

    let first = Frame { light: 1234, moisture: 56, bounds: rect(76, 98, 168, 44) };
    let second = Frame { light: 0, moisture: 0, bounds: rect(94, 98, 132, 44) };
    let third = Frame { light: 7, moisture: 65535, bounds: rect(70, 98, 180, 44) };
    assert_eq!(
        recorder.calls,
        vec![
            DisplayAction::Wake,
            DisplayAction::Clear,
            DisplayAction::AwaitReadings,
            DisplayAction::Fill(Rectangle::zero()),
            DisplayAction::Draw(first),
            DisplayAction::Wait(1000),
            DisplayAction::AwaitReadings,
            DisplayAction::Fill(first.bounds),
            DisplayAction::Draw(second),
            DisplayAction::Wait(1000),
            DisplayAction::AwaitReadings,
            DisplayAction::Fill(second.bounds),
            DisplayAction::Draw(third),
            DisplayAction::Wait(1000),
            DisplayAction::AwaitReadings,
        ]
    );
    assert_eq!(driver.last_bounds, third.bounds);
}

#[test]
fn every_draw_follows_the_fill_of_the_block_before_it() {
    let mut driver = DisplayDriver::new(240, 320);
    let readings: Vec<(u16, u16)> = (0..50u16).map(|i| (i * 1311, 65535 - i * 977)).collect();
    let mut recorder = Recorder::new(readings, None);
    recorder.run(&mut driver);

    let mut previous = Rectangle::zero();
    let mut draws = 0;
    for (i, call) in recorder.calls.iter().enumerate() {
        if let DisplayAction::Draw(frame) = call {
            assert_eq!(recorder.calls[i - 1], DisplayAction::Fill(previous));
            previous = frame.bounds;
            draws += 1;
        }
    }
    assert_eq!(draws, 50);
}

#[test]
fn draw_fault_restarts_with_wake_and_clear() {
    let mut driver = DisplayDriver::new(320, 240);
    let mut recorder = Recorder::new(vec![(1, 2), (3, 4), (5, 6)], Some(2));
    recorder.run(&mut driver);

    let first = plan_frame(1, 2, 320, 240);
    let second = plan_frame(3, 4, 320, 240);
    let third = plan_frame(5, 6, 320, 240);
    assert_eq!(
        recorder.calls,
        vec![
            DisplayAction::Wake,
            DisplayAction::Clear,
            DisplayAction::AwaitReadings,
            DisplayAction::Fill(Rectangle::zero()),
            DisplayAction::Draw(first),
            DisplayAction::Wait(UPDATE_DELAY_MS),
            DisplayAction::AwaitReadings,
            DisplayAction::Fill(first.bounds),
            DisplayAction::Draw(second),
            DisplayAction::Wait(DISPLAY_RETRY_DELAY_MS),
            DisplayAction::Wake,
            DisplayAction::Clear,
            DisplayAction::AwaitReadings,
            DisplayAction::Fill(Rectangle::zero()),
            DisplayAction::Draw(third),
            DisplayAction::Wait(UPDATE_DELAY_MS),
            DisplayAction::AwaitReadings,
        ]
    );
}

#[test]
fn fault_in_any_display_operation_is_recovered() {
    let frame = plan_frame(10, 20, 320, 240);
    for reached in 1..=5 {
        let mut driver = DisplayDriver::new(320, 240);
        let inputs = [
            DisplayInput::Ready,
            DisplayInput::Ready,
            DisplayInput::Ready,
            DisplayInput::Planned(frame),
            DisplayInput::Ready,
        ];
        for input in inputs.iter().take(reached) {
            driver.advance(*input).unwrap();
        }
        if driver.phase == DisplayPhase::Waiting {
            assert_eq!(driver.advance(DisplayInput::Faulted), None);
            continue;
        }
        assert_eq!(driver.advance(DisplayInput::Faulted), Some(DisplayAction::Wait(1000)));
        assert_eq!(driver.phase, DisplayPhase::Recovering);
        assert_eq!(driver.last_bounds, Rectangle::zero());
        assert_eq!(driver.advance(DisplayInput::Ready), Some(DisplayAction::Wake));
        assert_eq!(driver.advance(DisplayInput::Ready), Some(DisplayAction::Clear));
        assert_eq!(driver.advance(DisplayInput::Ready), Some(DisplayAction::AwaitReadings));
    }
}

#[test]
fn advance_takes_any_planned_frame() {
    let mut driver = DisplayDriver::new(320, 240);
    for _ in 0..3 {
        driver.advance(DisplayInput::Ready);
    }
    let frame = Frame { light: 1, moisture: 2, bounds: rect(-5, 7, 11, 13) };
    assert_eq!(
        driver.advance(DisplayInput::Planned(frame)),
        Some(DisplayAction::Fill(Rectangle::zero()))
    );
    assert_eq!(driver.phase, DisplayPhase::Erasing { frame });
    assert_eq!(driver.advance(DisplayInput::Ready), Some(DisplayAction::Draw(frame)));
    assert_eq!(driver.phase, DisplayPhase::Drawing { bounds: frame.bounds });
    assert_eq!(driver.advance(DisplayInput::Ready), Some(DisplayAction::Wait(1000)));
    assert_eq!(driver.last_bounds, rect(-5, 7, 11, 13));
}

#[test]
fn display_cycle_ignores_events_it_does_not_await() {
    let mut driver = DisplayDriver::new(320, 240);
    assert_eq!(driver.step(DisplayEvent::Faulted), None);
    assert_eq!(driver.step(DisplayEvent::Readings { light: 1, moisture: 2 }), None);
    assert_eq!(driver, DisplayDriver::new(320, 240));
    for _ in 0..3 {
        driver.step(DisplayEvent::Ready);
    }
    assert_eq!(driver.step(DisplayEvent::Ready), None);
    assert_eq!(driver.phase, DisplayPhase::Waiting);
}
