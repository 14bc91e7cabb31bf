use vstd::prelude::*;

use crate::answer::{answer_mark_of, marks_from_answers};
use crate::day::Day;
use crate::state::State;

verus! {

/// What a run does on a given day.
#[derive(PartialEq, Eq, Structural, Clone, Copy, Debug)]
pub enum Step {
    /// Today's marks were recorded already: stop without asking again.
    AlreadyRecorded,
    /// Monday: start a new week from a fresh task list, then record today.
    StartWeek,
    /// Tuesday to Saturday: record today's marks in the stored week.
    RecordDay,
    /// Sunday: record today's marks and show the week's table.
    CloseWeek,
}

/// Decides what a run does, from today and the day on which the week was
/// last recorded (`None` where nothing was recorded yet).
pub fn next_step(today: Day, last_recorded: Option<Day>) -> (r: Step)
    ensures
        r == Step::AlreadyRecorded <==> last_recorded == Some(today),
        r == Step::StartWeek <==> last_recorded != Some(today) && today == Day::Mon,
        r == Step::CloseWeek <==> last_recorded != Some(today) && today == Day::Sun,
        r == Step::RecordDay <==> last_recorded != Some(today) && today != Day::Mon && today
            != Day::Sun,
{
    match last_recorded {
        Some(d) if d == today => Step::AlreadyRecorded,
        _ => match today {
            Day::Mon => Step::StartWeek,
            Day::Sun => Step::CloseWeek,
            _ => Step::RecordDay,
        },
    }
}

/// The text shown when today's marks were recorded already.
pub fn already_recorded_message() -> (r: &'static str)
    ensures
        r@ == "Already entered completion info for today, see you tomorrow."@,
{
    "Already entered completion info for today, see you tomorrow."
}

impl State {
    /// Records the answers given today, one line per task in order, as
    /// today's marks; the tasks and the other days stay as they were.
    pub fn record_answers(&mut self, today: Day, answers: &Vec<String>)
        ensures
            final(self).marks(today).len() == answers@.len(),
            forall|i: int|
                0 <= i < answers@.len() ==> #[trigger] final(self).marks(today)[i]
                    == answer_mark_of(answers@[i]@),
            forall|d: Day| d != today ==> #[trigger] final(self).marks(d) == old(self).marks(d),
            final(self).tasks() == old(self).tasks(),
    {
        let v = marks_from_answers(answers);
        self.save_completion_info(today, v);
    }
}

} // verus!
