use chrono::Timelike;
use bookkar::booking::TrainClass;
use bookkar::timer::{
    clock_for_window, clock_reading, countdown_in, countdown_pause_ms, countdown_text, is_tatkal_window_open,
    tatkal_window_label, time_until_tatkal, wait_plan, window_open_at_hour, window_open_in, window_reached,
    ClockReading, Countdown, TimeLeft, WaitPlan,
};

#[test]
fn countdown_texts() {
    assert_eq!(countdown_text(TimeLeft { millis: 0, seconds: 0, minutes: 0, subsec_nanos: 0 }), "NOW (window is open)");
    assert_eq!(countdown_text(TimeLeft { millis: -5000, seconds: -5, minutes: 0, subsec_nanos: 0 }), "NOW (window is open)");
    assert_eq!(countdown_text(TimeLeft { millis: 125_400, seconds: 125, minutes: 2, subsec_nanos: 400_000_000 }), "2 min 5 sec");
    assert_eq!(countdown_text(TimeLeft { millis: 3_600_000, seconds: 3600, minutes: 60, subsec_nanos: 0 }), "60 min 0 sec");
    assert_eq!(countdown_text(TimeLeft { millis: 999, seconds: 0, minutes: 0, subsec_nanos: 999_000_000 }), "0 min 0 sec");
}

#[test]
fn wait_plans() {
    assert_eq!(wait_plan(0), WaitPlan::AlreadyOpen);
    assert_eq!(wait_plan(-10), WaitPlan::AlreadyOpen);
    assert_eq!(wait_plan(300), WaitPlan::SpinOnly);
    assert_eq!(wait_plan(500), WaitPlan::SpinOnly);
    assert_eq!(wait_plan(501), WaitPlan::CoarseThenSpin { coarse_ms: 1 });
    assert_eq!(wait_plan(90_000), WaitPlan::CoarseThenSpin { coarse_ms: 89_500 });
}

#[test]
fn countdown_pauses() {
    assert_eq!(countdown_pause_ms(3600), Some(30_000));
    assert_eq!(countdown_pause_ms(61), Some(30_000));
    assert_eq!(countdown_pause_ms(60), Some(5_000));
    assert_eq!(countdown_pause_ms(11), Some(5_000));
    assert_eq!(countdown_pause_ms(10), Some(1_000));
    assert_eq!(countdown_pause_ms(2), Some(1_000));
    assert_eq!(countdown_pause_ms(1), None);
    assert_eq!(countdown_pause_ms(-3), None);
}

#[test]
fn window_labels() {
    assert_eq!(tatkal_window_label(&TrainClass::FirstAC), "10:00:00");
    assert_eq!(tatkal_window_label(&TrainClass::Sleeper), "11:00:00");
}

#[test]
fn window_opening_by_hour() {
    assert!(!window_open_at_hour(&TrainClass::ThirdAC, 9));
    assert!(window_open_at_hour(&TrainClass::ThirdAC, 10));
    assert!(!window_open_at_hour(&TrainClass::Sleeper, 10));
    assert!(window_open_at_hour(&TrainClass::Sleeper, 11));
    assert!(window_open_at_hour(&TrainClass::SecondSitting, 23));
}

#[test]
fn clock_readings() {
    let hour = chrono::Local::now().hour();
    let open = is_tatkal_window_open(&TrainClass::ChairCar);
    let hour_after = chrono::Local::now().hour();
    if hour == hour_after {
        assert_eq!(open, hour >= 10);
    }
    let late = is_tatkal_window_open(&TrainClass::Sleeper);
    if hour == chrono::Local::now().hour() {
        assert_eq!(late, hour >= 11);
    }
    if let Some(text) = time_until_tatkal(&TrainClass::Sleeper) {
        assert!(text == "NOW (window is open)" || text.ends_with(" sec"));
    }
}

#[test]
fn reaching_the_opening_instant() {
    let t = |seconds: i64, subsec_nanos: i32| TimeLeft {
        millis: seconds * 1000 + (subsec_nanos / 1_000_000) as i64,
        seconds,
        minutes: seconds / 60,
        subsec_nanos,
    };
    assert!(window_reached(&t(0, 0)));
    assert!(window_reached(&t(-3, -5)));
    assert!(window_reached(&t(0, -1)));
    // Less than a millisecond left is still time left.
    assert!(!window_reached(&t(0, 1)));
    assert!(!window_reached(&t(0, 999_999)));
    assert!(!window_reached(&t(1, 0)));
}

#[test]
fn clock_readings_agree_with_themselves() {
    let c = clock_for_window(&TrainClass::Sleeper);
    assert!(c.hour < 24 && c.minute < 60 && c.second < 60 && c.nanos < 1_000_000_000);
    if let Some(u) = c.until {
        let t = u.left;
        assert_eq!(t.minutes, t.seconds / 60);
        assert_eq!(t.millis, t.seconds * 1000 + (t.subsec_nanos / 1_000_000) as i64);
        assert!(t.subsec_nanos.abs() < 1_000_000_000);
        let wall = (11 * 3600 - (c.hour * 3600 + c.minute * 60 + c.second) as i64 - u.target_offset_secs as i64
            + c.offset_secs as i64) as i128
            * 1_000_000_000
            - c.nanos as i128;
        assert_eq!(t.seconds as i128 * 1_000_000_000 + t.subsec_nanos as i128, wall);
    }
    let midnight = clock_reading(0);
    assert!(midnight.hour < 24);
}

fn reading(hour: u32, minute: u32, second: u32, nanos: u32, target_hour: i64) -> ClockReading {
    let total: i64 = (target_hour * 3600 - (hour * 3600 + minute * 60 + second) as i64) * 1_000_000_000 - nanos as i64;
    let seconds = total / 1_000_000_000;
    let subsec_nanos = (total % 1_000_000_000) as i32;
    let left = TimeLeft { millis: total / 1_000_000, seconds, minutes: seconds / 60, subsec_nanos };
    ClockReading {
        hour,
        minute,
        second,
        nanos,
        offset_secs: 19800,
        until: Some(Countdown { left, target_offset_secs: 19800 }),
    }
}

#[test]
fn window_open_agrees_with_countdown_on_one_reading() {
    // At 10:30 the AC window (10:00) is open and the sleeper window (11:00) is not.
    let ac = reading(10, 30, 0, 0, 10);
    assert!(window_open_in(&TrainClass::ThirdAC, &ac));
    assert_eq!(countdown_in(&ac), Some("NOW (window is open)".to_string()));
    let sl = reading(10, 30, 0, 0, 11);
    assert!(!window_open_in(&TrainClass::Sleeper, &sl));
    assert_eq!(countdown_in(&sl), Some("30 min 0 sec".to_string()));
    // Exactly at the opening instant.
    let at = reading(11, 0, 0, 0, 11);
    assert!(window_open_in(&TrainClass::Sleeper, &at));
    assert!(window_reached(&at.until.unwrap().left));
    // Within the last millisecond the text already reads NOW while the hour
    // is still the one before.
    let last = reading(10, 59, 59, 999_500_000, 11);
    assert!(!window_open_in(&TrainClass::Sleeper, &last));
    assert!(!window_reached(&last.until.unwrap().left));
    assert_eq!(countdown_in(&last), Some("NOW (window is open)".to_string()));
    let none = ClockReading { until: None, ..ac };
    assert_eq!(countdown_in(&none), None);
}
