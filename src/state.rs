use vstd::prelude::*;

use crate::day::Day;

verus! {

/// The mark for a task that was done on a day.
pub const DONE: char = 'Y';

/// The mark for a task that was not done on a day.
pub const NOT_DONE: char = 'X';

/// What a table shows for a day that holds no mark for a task.
pub const UNSET: char = '?';

/// The path of the state file, named `TODO`, inside the given base data
/// directory.
pub fn state_file_path(base: &str) -> (r: String)
    ensures
        r@ == base@ + "/TODO"@,
{
    String::from_str(base).concat("/TODO")
}

/// One week's record: the tasks planned for the week, in order, and for each
/// day the marks given to them, one per task.
pub struct State {
    pub todos: Vec<String>,
    pub mon: Vec<char>,
    pub tue: Vec<char>,
    pub wed: Vec<char>,
    pub thu: Vec<char>,
    pub fri: Vec<char>,
    pub sat: Vec<char>,
    pub sun: Vec<char>,
}

impl State {
    /// The task names, as character sequences.
    pub open spec fn tasks(&self) -> Seq<Seq<char>> {
        self.todos@.map_values(|t: String| t@)
    }

    /// The marks recorded for the given day.
    pub open spec fn marks(&self, d: Day) -> Seq<char> {
        match d {
            Day::Mon => self.mon@,
            Day::Tue => self.tue@,
            Day::Wed => self.wed@,
            Day::Thu => self.thu@,
            Day::Fri => self.fri@,
            Day::Sat => self.sat@,
            Day::Sun => self.sun@,
        }
    }

    /// The mark of task `i` on day `d`, or `UNSET` where that day holds none.
    pub open spec fn mark_at(&self, d: Day, i: int) -> char {
        if 0 <= i < self.marks(d).len() {
            self.marks(d)[i]
        } else {
            UNSET
        }
    }

    /// A week with no tasks and no marks.
    pub fn new() -> (r: State)
        ensures
            r.tasks() == Seq::<Seq<char>>::empty(),
            forall|d: Day| #[trigger] r.marks(d) == Seq::<char>::empty(),
    {
        let r = State {
            todos: Vec::new(),
            mon: Vec::new(),
            tue: Vec::new(),
            wed: Vec::new(),
            thu: Vec::new(),
            fri: Vec::new(),
            sat: Vec::new(),
            sun: Vec::new(),
        };
        assert(r.tasks() =~= Seq::<Seq<char>>::empty());
        r
    }

    /// Appends a task to the week's list.
    pub fn add_todo(&mut self, todo: &str)
        ensures
            final(self).tasks() == old(self).tasks().push(todo@),
            forall|d: Day| #[trigger] final(self).marks(d) == old(self).marks(d),
    {
        self.todos.push(todo.to_owned());
        assert(self.tasks() =~= old(self).tasks().push(todo@));
    }

    /// Replaces the marks of the given day, leaving the tasks and the other
    /// days as they were.
    pub fn save_completion_info(&mut self, today: Day, v: Vec<char>)
        ensures
            final(self).marks(today) == v@,
            forall|d: Day| d != today ==> #[trigger] final(self).marks(d) == old(self).marks(d),
            final(self).todos@ == old(self).todos@,
            final(self).tasks() == old(self).tasks(),
    {
        match today {
            Day::Mon => self.mon = v,
            Day::Tue => self.tue = v,
            Day::Wed => self.wed = v,
            Day::Thu => self.thu = v,
            Day::Fri => self.fri = v,
            Day::Sat => self.sat = v,
            Day::Sun => self.sun = v,
        }
    }
}

} // verus!
