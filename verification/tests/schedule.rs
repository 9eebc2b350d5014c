use chill::schedule::{
    LocalDateTime, ScheduleDecision, SchedulePolicy, Threshold, Weekday, LAST_HOUR, MAX_VOLUME,
};

const WEEK: [Weekday; 7] = [
    Weekday::Mon,
    Weekday::Tue,
    Weekday::Wed,
    Weekday::Thu,
    Weekday::Fri,
    Weekday::Sat,
    Weekday::Sun,
];

fn at(weekday: Weekday, hour: u8) -> LocalDateTime {
    LocalDateTime { weekday, hour }
}

fn morning_policy() -> SchedulePolicy {
    SchedulePolicy::new(
        Weekday::Fri,
        Weekday::Sat,
        Threshold { hour: 9, level: 90 },
        Threshold { hour: 10, level: 75 },
        Threshold { hour: 11, level: 50 },
    )
    .expect("ascending thresholds and percentages")
}

#[test]
fn rest_days_skip_at_every_hour() {
    let policy = SchedulePolicy::evening();
    for hour in 0..=u8::MAX {
        assert_eq!(policy.decide(at(Weekday::Fri, hour)), ScheduleDecision::Skip);
        assert_eq!(policy.decide(at(Weekday::Sat, hour)), ScheduleDecision::Skip);
    }
}

#[test]
fn rest_days_are_the_configured_ones() {
    let policy = SchedulePolicy::new(
        Weekday::Mon,
        Weekday::Wed,
        Threshold { hour: 1, level: 1 },
        Threshold { hour: 2, level: 2 },
        Threshold { hour: 3, level: 3 },
    )
    .unwrap();
    for day in WEEK {
        let rest = day == Weekday::Mon || day == Weekday::Wed;
        assert_eq!(policy.rests_on(day), rest);
        assert_eq!(policy.decide(at(day, 12)) == ScheduleDecision::Skip, rest);
    }
}

#[test]
fn working_days_depend_on_the_hour_only() {
    let policy = SchedulePolicy::evening();
    for hour in 0..=u8::MAX {
        let monday = policy.decide(at(Weekday::Mon, hour));
        assert_ne!(monday, ScheduleDecision::Skip);
        for day in [Weekday::Tue, Weekday::Wed, Weekday::Thu, Weekday::Sun] {
            assert_eq!(policy.decide(at(day, hour)), monday);
        }
    }
}

#[test]
fn decide_gives_the_same_answer_twice() {
    let policy = morning_policy();
    for day in WEEK {
        for hour in 0..24u8 {
            assert_eq!(policy.decide(at(day, hour)), policy.decide(at(day, hour)));
        }
    }
}

#[test]
fn latest_threshold_wins() {
    let policy = morning_policy();
    assert_eq!(policy.decide(at(Weekday::Tue, 8)), ScheduleDecision::NoAction);
    assert_eq!(policy.decide(at(Weekday::Tue, 9)), ScheduleDecision::SetVolume(90));
    assert_eq!(policy.decide(at(Weekday::Tue, 10)), ScheduleDecision::SetVolume(75));
    assert_eq!(policy.decide(at(Weekday::Tue, 11)), ScheduleDecision::SetVolume(50));
    assert_eq!(policy.decide(at(Weekday::Tue, 22)), ScheduleDecision::SetVolume(50));
    assert_eq!(policy.decide(at(Weekday::Tue, 23)), ScheduleDecision::SetVolume(50));
}

#[test]
fn evening_policy_bands() {
    let policy = SchedulePolicy::evening();
    assert_eq!(policy.first_rest_day, Weekday::Fri);
    assert_eq!(policy.second_rest_day, Weekday::Sat);
    for hour in 0..21u8 {
        assert_eq!(policy.decide(at(Weekday::Mon, hour)), ScheduleDecision::NoAction);
    }
    assert_eq!(policy.decide(at(Weekday::Mon, 21)), ScheduleDecision::SetVolume(90));
    assert_eq!(policy.decide(at(Weekday::Mon, 22)), ScheduleDecision::SetVolume(75));
    assert_eq!(policy.decide(at(Weekday::Mon, 23)), ScheduleDecision::SetVolume(50));
}

#[test]
fn before_the_first_threshold_is_no_action_and_not_skip() {
    let policy = SchedulePolicy::evening();
    let early = policy.decide(at(Weekday::Thu, 0));
    let rest = policy.decide(at(Weekday::Fri, 0));
    assert_eq!(early, ScheduleDecision::NoAction);
    assert_eq!(rest, ScheduleDecision::Skip);
    assert_ne!(early, rest);
}

#[test]
fn levels_need_not_be_ordered() {
    let policy = SchedulePolicy::new(
        Weekday::Fri,
        Weekday::Sat,
        Threshold { hour: 6, level: 10 },
        Threshold { hour: 12, level: 100 },
        Threshold { hour: 18, level: 0 },
    )
    .unwrap();
    assert_eq!(policy.decide(at(Weekday::Sun, 6)), ScheduleDecision::SetVolume(10));
    assert_eq!(policy.decide(at(Weekday::Sun, 17)), ScheduleDecision::SetVolume(100));
    assert_eq!(policy.decide(at(Weekday::Sun, 18)), ScheduleDecision::SetVolume(0));
}

#[test]
fn thresholds_are_tried_from_the_latest_down() {
    // Built field by field, the thresholds need not ascend. The late
    // threshold is still tried first, then the middle one, then the early one.
    let policy = SchedulePolicy {
        first_rest_day: Weekday::Fri,
        second_rest_day: Weekday::Sat,
        early: Threshold { hour: 20, level: 1 },
        middle: Threshold { hour: 5, level: 2 },
        late: Threshold { hour: 10, level: 3 },
    };
    assert_eq!(policy.decide(at(Weekday::Mon, 4)), ScheduleDecision::NoAction);
    assert_eq!(policy.decide(at(Weekday::Mon, 7)), ScheduleDecision::SetVolume(2));
    assert_eq!(policy.decide(at(Weekday::Mon, 10)), ScheduleDecision::SetVolume(3));
    assert_eq!(policy.decide(at(Weekday::Mon, 21)), ScheduleDecision::SetVolume(3));
}

#[test]
fn new_rejects_thresholds_that_do_not_ascend() {
    let t = |hour: u8| Threshold { hour, level: 50 };
    assert!(SchedulePolicy::new(Weekday::Fri, Weekday::Sat, t(9), t(9), t(11)).is_none());
    assert!(SchedulePolicy::new(Weekday::Fri, Weekday::Sat, t(9), t(11), t(11)).is_none());
    assert!(SchedulePolicy::new(Weekday::Fri, Weekday::Sat, t(11), t(10), t(9)).is_none());
    assert!(SchedulePolicy::new(Weekday::Fri, Weekday::Sat, t(9), t(10), t(11)).is_some());
}

#[test]
fn new_rejects_hours_past_the_end_of_the_day() {
    let t = |hour: u8| Threshold { hour, level: 50 };
    assert_eq!(LAST_HOUR, 23);
    assert!(SchedulePolicy::new(Weekday::Fri, Weekday::Sat, t(21), t(22), t(23)).is_some());
    assert!(SchedulePolicy::new(Weekday::Fri, Weekday::Sat, t(21), t(22), t(24)).is_none());
}

#[test]
fn new_rejects_levels_above_one_hundred() {
    let t = |hour: u8, level: u8| Threshold { hour, level };
    assert_eq!(MAX_VOLUME, 100);
    assert!(
        SchedulePolicy::new(Weekday::Fri, Weekday::Sat, t(1, 100), t(2, 100), t(3, 100)).is_some()
    );
    assert!(
        SchedulePolicy::new(Weekday::Fri, Weekday::Sat, t(1, 101), t(2, 0), t(3, 0)).is_none()
    );
    assert!(
        SchedulePolicy::new(Weekday::Fri, Weekday::Sat, t(1, 0), t(2, 101), t(3, 0)).is_none()
    );
    assert!(
        SchedulePolicy::new(Weekday::Fri, Weekday::Sat, t(1, 0), t(2, 0), t(3, 255)).is_none()
    );
}

#[test]
fn a_policy_put_together_by_hand_can_be_checked() {
    assert!(SchedulePolicy::evening().is_well_formed());
    assert!(morning_policy().is_well_formed());
    let mut policy = SchedulePolicy::evening();
    policy.late.level = 101;
    assert!(!policy.is_well_formed());
    let mut policy = SchedulePolicy::evening();
    policy.early.hour = 22;
    assert!(!policy.is_well_formed());
    let mut policy = SchedulePolicy::evening();
    policy.late.hour = 24;
    assert!(!policy.is_well_formed());
}

#[test]
fn new_keeps_what_it_was_given() {
    let policy = morning_policy();
    assert_eq!(
        policy,
        SchedulePolicy {
            first_rest_day: Weekday::Fri,
            second_rest_day: Weekday::Sat,
            early: Threshold { hour: 9, level: 90 },
            middle: Threshold { hour: 10, level: 75 },
            late: Threshold { hour: 11, level: 50 },
        }
    );
}

#[test]
fn weekdays_count_from_monday() {
    for (days, day) in WEEK.iter().enumerate() {
        assert_eq!(Weekday::from_days_after_monday(days as u8), Some(*day));
    }
    assert_eq!(Weekday::from_days_after_monday(7), None);
    assert_eq!(Weekday::from_days_after_monday(255), None);
}
