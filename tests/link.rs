use fc_link::input::ControllerInput;
use fc_link::link::{
    link_score, update_connected, AckAction, AckWait, LinkConfig, LinkScore, RadioLink, RadioState, RadioStatus,
};
use fc_link::moving_sum::MovingSum;

fn config() -> LinkConfig {
    LinkConfig { quality_update_period: 5, max_expected_retries: 15, failures_before_disconnect: 3 }
}

fn input(buttons: u8) -> ControllerInput {
    ControllerInput {
        left_stick_x: 10,
        left_stick_y: 20,
        right_stick_x: 30,
        right_stick_y: 40,
        left_trigger: 50,
        right_trigger: 60,
        buttons,
    }
}

fn score_value(s: LinkScore) -> f32 {
    s.numerator as f32 / s.denominator as f32
}

#[test]
fn latched_button_survives_a_timeout() {
    let mut link = RadioLink::new(config());
    let first = link.sample(&input(0b0000_0001));
    assert_eq!(first[6], 0b0000_0001);
    assert_eq!(link.on_write_done(0), None);
    assert_eq!(link.on_ack_wait(AckWait::TimedOut), AckAction::ResetStatus);
    let second = link.sample(&input(0));
    assert_eq!(second[6] & 0b0000_0001, 0b0000_0001);
    assert_eq!(second, vec![10, 20, 30, 40, 50, 60, 1]);
}

#[test]
fn latch_survives_max_retries_and_clears_on_delivery() {
    let mut link = RadioLink::new(config());
    link.sample(&input(0b100));
    assert_eq!(
        link.on_ack_wait(AckWait::Interrupt { max_retries_exceeded: true, data_ready: false }),
        AckAction::FlushTx
    );
    assert_eq!(link.sample(&input(0b010))[6], 0b110);
    assert_eq!(
        link.on_ack_wait(AckWait::Interrupt { max_retries_exceeded: false, data_ready: false }),
        AckAction::Delivered
    );
    assert_eq!(link.sample(&input(0))[6], 0);
}

#[test]
fn oversized_ack_is_discarded() {
    let mut link = RadioLink::new(config());
    link.sample(&input(0));
    assert_eq!(
        link.on_ack_wait(AckWait::Interrupt { max_retries_exceeded: false, data_ready: true }),
        AckAction::ReadAck
    );
    assert_eq!(link.on_ack_payload(&[1, 2, 3, 4, 5]), None);
    assert_eq!(link.total_failures(), 1);
}

#[test]
fn ack_of_status_size_is_decoded() {
    let mut link = RadioLink::new(config());
    let status = link.on_ack_payload(&[80, 12, 0]).unwrap();
    assert_eq!(status.battery_level, 80);
    assert_eq!(status.altitude, 12);
    assert_eq!(status.temp, 0);
    assert_eq!(link.total_failures(), 0);
}

#[test]
fn link_score_of_no_retries_is_one() {
    let mut window: MovingSum<5> = MovingSum::new();
    for _ in 0..5 {
        window.push(0);
    }
    let score = link_score(&window, 15);
    assert_eq!(score, LinkScore { numerator: 75, denominator: 75 });
    assert_eq!(score_value(score), 1.0);
}

#[test]
fn link_score_of_max_retries_is_zero() {
    let mut window: MovingSum<5> = MovingSum::new();
    for _ in 0..5 {
        window.push(15);
    }
    let score = link_score(&window, 15);
    assert_eq!(score.numerator, 0);
    assert_eq!(score_value(score), 0.0);
}

#[test]
fn link_score_in_between_and_above_the_maximum() {
    let mut window: MovingSum<4> = MovingSum::new();
    for v in [0u8, 3, 6, 3] {
        window.push(v);
    }
    assert_eq!(link_score(&window, 15), LinkScore { numerator: 48, denominator: 60 });
    let mut noisy: MovingSum<2> = MovingSum::new();
    noisy.push(40);
    noisy.push(40);
    assert_eq!(link_score(&noisy, 15), LinkScore { numerator: 0, denominator: 30 });
    let empty: MovingSum<3> = MovingSum::new();
    assert_eq!(link_score(&empty, 15), LinkScore { numerator: 1, denominator: 1 });
}

#[test]
fn score_is_published_every_fifth_write() {
    let mut link = RadioLink::new(config());
    for _ in 0..4 {
        assert_eq!(link.on_write_done(3), None);
    }
    let score = link.on_write_done(3).unwrap();
    assert_eq!(score, LinkScore { numerator: 60, denominator: 75 });
    for _ in 0..4 {
        assert_eq!(link.on_write_done(0), None);
    }
    assert_eq!(link.on_write_done(0), Some(LinkScore { numerator: 135, denominator: 150 }));
}

#[test]
fn link_lost_after_consecutive_failures_only() {
    let mut link = RadioLink::new(config());
    link.record_failure();
    link.on_ack_wait(AckWait::TimedOut);
    assert!(!link.connection_lost());
    link.on_ack_wait(AckWait::Interrupt { max_retries_exceeded: false, data_ready: false });
    assert!(!link.connection_lost());
    link.record_failure();
    link.record_failure();
    assert!(!link.connection_lost());
    link.on_ack_wait(AckWait::TimedOut);
    assert!(link.connection_lost());
    assert_eq!(link.total_failures(), 5);
}

#[test]
fn link_never_lost_with_zero_threshold() {
    let mut link = RadioLink::new(LinkConfig {
        quality_update_period: 5,
        max_expected_retries: 15,
        failures_before_disconnect: 0,
    });
    for _ in 0..10 {
        link.record_failure();
    }
    assert!(!link.connection_lost());
}

#[test]
fn radio_state_and_status() {
    let mut state = RadioState { connected: false };
    update_connected(&mut state, true);
    assert!(state.connected);
    assert!(!RadioStatus::default().connected);
}
