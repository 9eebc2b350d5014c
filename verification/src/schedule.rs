//! The volume schedule: which level, if any, a moment of the week calls for.

use vstd::prelude::*;

verus! {

/// A day of the week.
#[derive(Clone, Copy, Debug, PartialEq, Eq, Structural)]
pub enum Weekday {
    Mon,
    Tue,
    Wed,
    Thu,
    Fri,
    Sat,
    Sun,
}

impl Weekday {
    /// The day that lies `days` days after Monday, for `days` in `0..7`.
    pub open spec fn after_monday(days: int) -> Option<Weekday> {
        if days == 0 {
            Some(Weekday::Mon)
        } else if days == 1 {
            Some(Weekday::Tue)
        } else if days == 2 {
            Some(Weekday::Wed)
        } else if days == 3 {
            Some(Weekday::Thu)
        } else if days == 4 {
            Some(Weekday::Fri)
        } else if days == 5 {
            Some(Weekday::Sat)
        } else if days == 6 {
            Some(Weekday::Sun)
        } else {
            None
        }
    }

    /// Maps a count of days since Monday to the weekday, `None` from 7 on.
    pub fn from_days_after_monday(days: u8) -> (day: Option<Weekday>)
        ensures
            day == Weekday::after_monday(days as int),
    {
        match days {
            0 => Some(Weekday::Mon),
            1 => Some(Weekday::Tue),
            2 => Some(Weekday::Wed),
            3 => Some(Weekday::Thu),
            4 => Some(Weekday::Fri),
            5 => Some(Weekday::Sat),
            6 => Some(Weekday::Sun),
            _ => None,
        }
    }
}

/// What the schedule reads of a local date and time: the weekday and the hour
/// of the day on a 24-hour clock.
#[derive(Clone, Copy, Debug, PartialEq, Eq, Structural)]
pub struct LocalDateTime {
    pub weekday: Weekday,
    pub hour: u8,
}

/// The outcome of the schedule for one moment.
#[derive(Clone, Copy, Debug, PartialEq, Eq, Structural)]
pub enum ScheduleDecision {
    /// A rest day: the run ends at once and touches nothing.
    Skip,
    /// A working day, but no threshold has been reached yet.
    NoAction,
    /// The device is to be set to this volume, in percent.
    SetVolume(u8),
}

/// An hour of the day from which a volume level applies.
#[derive(Clone, Copy, Debug, PartialEq, Eq, Structural)]
pub struct Threshold {
    pub hour: u8,
    pub level: u8,
}

/// Two rest days and three thresholds, named by their position in the day.
#[derive(Clone, Copy, Debug, PartialEq, Eq, Structural)]
pub struct SchedulePolicy {
    pub first_rest_day: Weekday,
    pub second_rest_day: Weekday,
    pub early: Threshold,
    pub middle: Threshold,
    pub late: Threshold,
}

/// The largest hour of a 24-hour clock.
pub const LAST_HOUR: u8 = 23;

/// The largest volume, in percent, that a device accepts.
pub const MAX_VOLUME: u8 = 100;

impl SchedulePolicy {
    /// The thresholds ascend strictly within one day and every level is a
    /// percentage.
    pub open spec fn wf(self) -> bool {
        &&& self.early.hour < self.middle.hour
        &&& self.middle.hour < self.late.hour
        &&& self.late.hour <= LAST_HOUR
        &&& self.early.level <= MAX_VOLUME
        &&& self.middle.level <= MAX_VOLUME
        &&& self.late.level <= MAX_VOLUME
    }

    pub open spec fn is_rest_day(self, day: Weekday) -> bool {
        day == self.first_rest_day || day == self.second_rest_day
    }

    /// The rule itself. Rest days are skipped. On any other day the thresholds
    /// are tried from the latest to the earliest and the first one that the
    /// hour has reached gives the level.
    pub open spec fn decision(self, now: LocalDateTime) -> ScheduleDecision {
        if self.is_rest_day(now.weekday) {
            ScheduleDecision::Skip
        } else if now.hour >= self.late.hour {
            ScheduleDecision::SetVolume(self.late.level)
        } else if now.hour >= self.middle.hour {
            ScheduleDecision::SetVolume(self.middle.level)
        } else if now.hour >= self.early.hour {
            ScheduleDecision::SetVolume(self.early.level)
        } else {
            ScheduleDecision::NoAction
        }
    }

    /// Builds a policy, or `None` when the thresholds do not ascend within a
    /// day or a level is above 100 percent.
    pub fn new(
        first_rest_day: Weekday,
        second_rest_day: Weekday,
        early: Threshold,
        middle: Threshold,
        late: Threshold,
    ) -> (policy: Option<SchedulePolicy>)
        ensures
            policy == (if (SchedulePolicy { first_rest_day, second_rest_day, early, middle, late }).wf() {
                Some(SchedulePolicy { first_rest_day, second_rest_day, early, middle, late })
            } else {
                None
            }),
    {
        let policy = SchedulePolicy { first_rest_day, second_rest_day, early, middle, late };
        if policy.is_well_formed() {
            Some(policy)
        } else {
            None
        }
    }

    /// Whether the thresholds ascend within a day and every level is a
    /// percentage. A policy put together field by field may fail this.
    pub fn is_well_formed(&self) -> (well_formed: bool)
        ensures
            well_formed == self.wf(),
    {
        let ascending = self.early.hour < self.middle.hour && self.middle.hour < self.late.hour
            && self.late.hour <= LAST_HOUR;
        let percentages = self.early.level <= MAX_VOLUME && self.middle.level <= MAX_VOLUME
            && self.late.level <= MAX_VOLUME;
        ascending && percentages
    }

    /// The evening wind-down: Friday and Saturday rest; from 21:00 the volume
    /// is 90, from 22:00 it is 75 and from 23:00 it is 50.
    pub fn evening() -> (policy: SchedulePolicy)
        ensures
            policy.wf(),
            policy == (SchedulePolicy {
                first_rest_day: Weekday::Fri,
                second_rest_day: Weekday::Sat,
                early: Threshold { hour: 21, level: 90 },
                middle: Threshold { hour: 22, level: 75 },
                late: Threshold { hour: 23, level: 50 },
            }),
    {
        SchedulePolicy {
            first_rest_day: Weekday::Fri,
            second_rest_day: Weekday::Sat,
            early: Threshold { hour: 21, level: 90 },
            middle: Threshold { hour: 22, level: 75 },
            late: Threshold { hour: 23, level: 50 },
        }
    }

    /// Whether `day` is one of the two rest days.
    pub fn rests_on(&self, day: Weekday) -> (rest: bool)
        ensures
            rest == self.is_rest_day(day),
    {
        day == self.first_rest_day || day == self.second_rest_day
    }

    /// Decides what the given local moment calls for.
    pub fn decide(&self, now: LocalDateTime) -> (decision: ScheduleDecision)
        ensures
            decision == self.decision(now),
            self.is_rest_day(now.weekday) <==> decision == ScheduleDecision::Skip,
            self.wf() ==> (forall|level: u8|
                decision == ScheduleDecision::SetVolume(level) ==> level <= MAX_VOLUME),
    {
        if self.rests_on(now.weekday) {
            return ScheduleDecision::Skip;
        }
        let ladder = [self.late, self.middle, self.early];
        let mut rung: usize = 0;
        while rung < 3
            invariant
                rung <= 3,
                !self.is_rest_day(now.weekday),
                ladder@ == seq![self.late, self.middle, self.early],
                forall|earlier: int| 0 <= earlier < rung ==> now.hour < ladder@[earlier].hour,
            decreases 3 - rung,
        {
            if now.hour >= ladder[rung].hour {
                return ScheduleDecision::SetVolume(ladder[rung].level);
            }
            rung = rung + 1;
        }
        ScheduleDecision::NoAction
    }
}

/// On a rest day the decision is `Skip`, whatever the hour.
pub proof fn lemma_rest_day_skips(policy: SchedulePolicy, now: LocalDateTime)
    requires
        policy.is_rest_day(now.weekday),
    ensures
        policy.decision(now) == ScheduleDecision::Skip,
{
}

/// Off the rest days the decision depends on the hour alone: two working days
/// at the same hour get the same decision, and it is never `Skip`.
pub proof fn lemma_working_days_differ_by_hour_only(
    policy: SchedulePolicy,
    one: LocalDateTime,
    other: LocalDateTime,
)
    requires
        !policy.is_rest_day(one.weekday),
        !policy.is_rest_day(other.weekday),
        one.hour == other.hour,
    ensures
        policy.decision(one) == policy.decision(other),
        policy.decision(one) != ScheduleDecision::Skip,
{
}

/// With ascending thresholds the day of a working day falls into four bands:
/// nothing before the early threshold, then the early, the middle and the late
/// level, each from its own hour up to the next threshold.
pub proof fn lemma_threshold_bands(policy: SchedulePolicy, now: LocalDateTime)
    requires
        policy.early.hour < policy.middle.hour < policy.late.hour,
        !policy.is_rest_day(now.weekday),
    ensures
        now.hour < policy.early.hour ==> policy.decision(now) == ScheduleDecision::NoAction,
        policy.early.hour <= now.hour < policy.middle.hour ==> policy.decision(now)
            == ScheduleDecision::SetVolume(policy.early.level),
        policy.middle.hour <= now.hour < policy.late.hour ==> policy.decision(now)
            == ScheduleDecision::SetVolume(policy.middle.level),
        policy.late.hour <= now.hour ==> policy.decision(now) == ScheduleDecision::SetVolume(
            policy.late.level,
        ),
{
}

/// The latest threshold that the hour has reached wins, in whatever order the
/// thresholds were configured.
pub proof fn lemma_latest_reached_threshold_wins(policy: SchedulePolicy, now: LocalDateTime)
    requires
        !policy.is_rest_day(now.weekday),
    ensures
        now.hour >= policy.late.hour ==> policy.decision(now) == ScheduleDecision::SetVolume(
            policy.late.level,
        ),
        now.hour < policy.late.hour && now.hour >= policy.middle.hour ==> policy.decision(now)
            == ScheduleDecision::SetVolume(policy.middle.level),
        (policy.decision(now) == ScheduleDecision::NoAction) <==> (now.hour < policy.late.hour
            && now.hour < policy.middle.hour && now.hour < policy.early.hour),
{
}

} // verus!
