use vstd::prelude::*;

verus! {

/// A day of the week.
#[derive(PartialEq, Eq, Structural, Clone, Copy, Debug, Hash)]
pub enum Day {
    Mon,
    Tue,
    Wed,
    Thu,
    Fri,
    Sat,
    Sun,
}

/// Position of a day in the week, Monday first.
pub open spec fn day_index(d: Day) -> nat {
    match d {
        Day::Mon => 0,
        Day::Tue => 1,
        Day::Wed => 2,
        Day::Thu => 3,
        Day::Fri => 4,
        Day::Sat => 5,
        Day::Sun => 6,
    }
}

/// The day with the given position in the week, Monday first.
pub open spec fn day_at(i: nat) -> Day
    recommends
        i < 7,
{
    if i == 0 {
        Day::Mon
    } else if i == 1 {
        Day::Tue
    } else if i == 2 {
        Day::Wed
    } else if i == 3 {
        Day::Thu
    } else if i == 4 {
        Day::Fri
    } else if i == 5 {
        Day::Sat
    } else {
        Day::Sun
    }
}

/// The weekday of a day counted from the Unix epoch, given that day's
/// remainder modulo seven: the epoch fell on a Thursday.
pub open spec fn weekday_of_epoch_offset(d: nat) -> Day
    recommends
        d < 7,
{
    day_at((d + 3) % 7)
}

/// Maps a day number modulo seven, counted from the Unix epoch, to its weekday.
pub fn get_day(day_of_week: u64) -> (r: Day)
    requires
        day_of_week < 7,
    ensures
        r == weekday_of_epoch_offset(day_of_week as nat),
{
    match day_of_week {
        0 => Day::Thu,
        1 => Day::Fri,
        2 => Day::Sat,
        3 => Day::Sun,
        4 => Day::Mon,
        5 => Day::Tue,
        _ => Day::Wed,
    }
}

/// Number of seconds in a day.
pub const SECONDS_PER_DAY: u64 = 86400;

/// The weekday, on UTC day boundaries, of an instant given as whole seconds
/// since the Unix epoch.
pub fn day_of_unix_secs(secs: u64) -> (r: Day)
    ensures
        r == weekday_of_epoch_offset(((secs / SECONDS_PER_DAY) % 7) as nat),
{
    get_day((secs / SECONDS_PER_DAY) % 7)
}

/// Day numbers modulo seven, counted from the Unix epoch, name the weekdays
/// from Thursday on (0 is Thursday, 1 Friday, up to 6 for Wednesday), and this
/// naming is a bijection between the seven remainders and the seven days.
pub proof fn lemma_epoch_offset_bijection()
    ensures
        weekday_of_epoch_offset(0) == Day::Thu,
        weekday_of_epoch_offset(1) == Day::Fri,
        weekday_of_epoch_offset(2) == Day::Sat,
        weekday_of_epoch_offset(3) == Day::Sun,
        weekday_of_epoch_offset(4) == Day::Mon,
        weekday_of_epoch_offset(5) == Day::Tue,
        weekday_of_epoch_offset(6) == Day::Wed,
        forall|a: nat, b: nat|
            a < 7 && b < 7 && #[trigger] weekday_of_epoch_offset(a)
                == #[trigger] weekday_of_epoch_offset(b) ==> a == b,
        forall|d: Day|
            #![trigger day_index(d)]
            weekday_of_epoch_offset(((day_index(d) + 4) % 7) as nat) == d,
{
}

} // verus!
