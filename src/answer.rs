use vstd::prelude::*;

use crate::state::{DONE, NOT_DONE};
use crate::tasks::{line_body, strip_line_end};

verus! {

/// What `str::trim` leaves of a string: leading and trailing whitespace
/// removed.
pub uninterp spec fn trimmed(s: Seq<char>) -> Seq<char>;

/// Relies on `str::trim`: the string without its leading and trailing
/// whitespace; the result depends on the characters alone.
#[verifier::external_body]
fn trim_str(s: &str) -> (r: &str)
    ensures
        r@ == trimmed(s@),
{
    s.trim()
}

/// The mark that an answer gives, once its line end is dropped and it is
/// trimmed: more than one character is a verbose answer and counts as not
/// done, nothing at all (a bare Enter) is done, and a single character is done
/// when it is `Y` or `y` and not done otherwise.
pub open spec fn mark_of_trimmed_spec(t: Seq<char>) -> char {
    if t.len() > 1 {
        NOT_DONE
    } else if t.len() == 0 {
        DONE
    } else if t[0] == 'Y' || t[0] == 'y' {
        DONE
    } else {
        NOT_DONE
    }
}

/// The mark that an answer line gives, the line being read with its line end
/// where it has one.
pub open spec fn answer_mark_of(line: Seq<char>) -> char {
    mark_of_trimmed_spec(trimmed(strip_line_end(line)))
}

/// Decides the mark for an answer already freed of its line end and trimmed.
pub fn mark_of_trimmed(t: &str) -> (r: char)
    ensures
        r == mark_of_trimmed_spec(t@),
{
    let n = t.unicode_len();
    if n > 1 {
        NOT_DONE
    } else if n == 0 {
        DONE
    } else {
        let c = t.get_char(0);
        if c == 'Y' || c == 'y' {
            DONE
        } else {
            NOT_DONE
        }
    }
}

/// Decides the mark for one answer line.
pub fn answer_mark(input: &str) -> (r: char)
    ensures
        r == answer_mark_of(input@),
{
    mark_of_trimmed(trim_str(line_body(input)))
}

/// Decides the marks for the answer lines given to the tasks, in order.
pub fn marks_from_answers(answers: &Vec<String>) -> (r: Vec<char>)
    ensures
        r@.len() == answers@.len(),
        forall|i: int| 0 <= i < answers@.len() ==> #[trigger] r@[i] == answer_mark_of(answers@[i]@),
{
    let mut r: Vec<char> = Vec::new();
    let mut i: usize = 0;
    while i < answers.len()
        invariant
            i <= answers@.len(),
            r@.len() == i,
            forall|j: int| 0 <= j < i ==> #[trigger] r@[j] == answer_mark_of(answers@[j]@),
        decreases answers@.len() - i,
    {
        let m = answer_mark(answers[i].as_str());
        r.push(m);
        i = i + 1;
    }
    r
}

/// The cue shown before reading the answer for a task.
pub fn prompt_line(task: &String) -> (r: String)
    ensures
        r@ == task@ + " (Y/n) "@,
{
    task.clone().concat(" (Y/n) ")
}

} // verus!
