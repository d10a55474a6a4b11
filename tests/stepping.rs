use ping_viewer_next::continuous::SoftwareSweep;
use ping_viewer_next::properties::Ping360Config;
use ping_viewer_next::stepping::{calculate_next_angle, is_full_circle};

#[test]
fn full_circle_wraps_at_four_hundred() {
    let mut dir: i16 = 1;
    assert_eq!(calculate_next_angle(399, 1, true, &mut dir, 0, 399), 0);
    assert_eq!(calculate_next_angle(398, 3, true, &mut dir, 0, 399), 0);
    assert_eq!(calculate_next_angle(10, 3, true, &mut dir, 0, 399), 13);
    assert_eq!(dir, 1);
}

#[test]
fn sector_bounces_at_the_boundaries() {
    let mut dir: i16 = 1;
    assert_eq!(calculate_next_angle(190, 30, false, &mut dir, 100, 200), 200);
    assert_eq!(dir, -1);
    assert_eq!(calculate_next_angle(200, 30, false, &mut dir, 100, 200), 170);
    assert_eq!(dir, -1);
    assert_eq!(calculate_next_angle(120, 30, false, &mut dir, 100, 200), 100);
    assert_eq!(dir, 1);
    assert_eq!(calculate_next_angle(100, 30, false, &mut dir, 100, 200), 130);
    assert_eq!(dir, 1);
}

#[test]
fn full_circle_returns_to_zero_after_ceiling_steps() {
    for step in 1u16..=255 {
        let mut dir: i16 = 1;
        let mut angle = 0u16;
        let n = (400 + step - 1) / step;
        for k in 1..=n {
            angle = calculate_next_angle(angle, step, true, &mut dir, 0, 399);
            assert!(angle <= 399);
            if k < n {
                assert_ne!(angle, 0);
            }
        }
        assert_eq!(angle, 0);
    }
}

#[test]
fn sector_sweep_stays_inside() {
    let mut dir: i16 = 1;
    let mut angle = 100u16;
    for _ in 0..1000 {
        let before = dir;
        angle = calculate_next_angle(angle, 7, false, &mut dir, 100, 200);
        assert!((100..=200).contains(&angle));
        if dir != before {
            assert!(angle == 100 || angle == 200);
        }
    }
}

#[test]
fn full_circle_is_zero_to_399() {
    assert!(is_full_circle(0, 399));
    assert!(!is_full_circle(0, 398));
    assert!(!is_full_circle(1, 399));
}

fn config(start: u16, stop: u16, steps: u8) -> Ping360Config {
    Ping360Config {
        mode: 1,
        gain_setting: 2,
        transmit_duration: 3,
        sample_period: 4,
        transmit_frequency: 5,
        number_of_samples: 6,
        start_angle: start,
        stop_angle: stop,
        num_steps: steps,
        delay: 0,
    }
}

#[test]
fn software_sweep_sends_shots_at_stepped_angles() {
    let mut sweep = SoftwareSweep::new(config(100, 200, 30));
    let shot = sweep.transducer_request();
    assert_eq!(shot.angle, 100);
    assert_eq!(shot.transmit, 1);
    assert_eq!(shot.reserved, 0);
    assert_eq!(shot.number_of_samples, 6);
    sweep.advance();
    assert_eq!(sweep.angle, 130);
    sweep.advance();
    sweep.advance();
    assert_eq!(sweep.angle, 190);
    sweep.advance();
    assert_eq!(sweep.angle, 200);
    assert_eq!(sweep.direction, -1);
    sweep.advance();
    assert_eq!(sweep.angle, 170);
}

#[test]
fn software_sweep_on_the_full_circle_wraps() {
    let mut sweep = SoftwareSweep::new(config(0, 399, 200));
    sweep.advance();
    assert_eq!(sweep.angle, 200);
    sweep.advance();
    assert_eq!(sweep.angle, 0);
}

#[test]
fn largest_angles_and_steps_do_not_overflow() {
    let mut dir: i16 = 1;
    assert_eq!(calculate_next_angle(u16::MAX, u16::MAX, true, &mut dir, 0, 399), 0);
    assert_eq!(calculate_next_angle(u16::MAX, u16::MAX, false, &mut dir, 0, u16::MAX), u16::MAX);
    assert_eq!(dir, -1);
    assert_eq!(calculate_next_angle(5, u16::MAX, false, &mut dir, 0, 399), 0);
    assert_eq!(dir, 1);
}
