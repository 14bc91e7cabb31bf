use vstd::prelude::*;

use crate::day::Day;
use crate::state::State;
use crate::text::{chars_of, string_of_chars};

verus! {

/// A line as read from the console, without its line end (`\n` or `\r\n`).
pub open spec fn strip_line_end(s: Seq<char>) -> Seq<char> {
    if s.len() > 0 && s.last() == '\n' {
        let t = s.drop_last();
        if t.len() > 0 && t.last() == '\r' {
            t.drop_last()
        } else {
            t
        }
    } else {
        s
    }
}

/// The pieces of `s` between commas, in order; there is always one more
/// piece than there are commas.
pub open spec fn split_commas(s: Seq<char>) -> Seq<Seq<char>>
    decreases s.len(),
{
    if s.len() == 0 {
        seq![Seq::<char>::empty()]
    } else {
        let p = split_commas(s.drop_last());
        if s.last() == ',' {
            p.push(Seq::<char>::empty())
        } else {
            p.update(p.len() - 1, p.last().push(s.last()))
        }
    }
}

proof fn lemma_split_commas_nonempty(s: Seq<char>)
    ensures
        split_commas(s).len() >= 1,
    decreases s.len(),
{
    if s.len() > 0 {
        lemma_split_commas_nonempty(s.drop_last());
    }
}

/// The task names in a comma separated line as read from the console.
pub open spec fn tasks_of_line(line: Seq<char>) -> Seq<Seq<char>> {
    split_commas(strip_line_end(line))
}

/// The line without its line end (`\n` or `\r\n`), where it has one.
pub fn line_body(line: &str) -> (r: &str)
    ensures
        r@ == strip_line_end(line@),
{
    let n = line.unicode_len();
    let mut end: usize = n;
    if end > 0 && line.get_char(end - 1) == '\n' {
        end = end - 1;
        if end > 0 && line.get_char(end - 1) == '\r' {
            end = end - 1;
        }
    }
    let r = line.substring_char(0, end);
    assert(r@ =~= strip_line_end(line@));
    r
}

/// Splits a comma separated line, as read from the console, into task names.
pub fn split_task_line(line: &str) -> (r: Vec<String>)
    ensures
        r@.map_values(|t: String| t@) == tasks_of_line(line@),
{
    let cs = chars_of(line_body(line));
    let end: usize = cs.len();
    let ghost t = strip_line_end(line@);
    assert(t =~= cs@.subrange(0, end as int));
    let mut pieces: Vec<String> = Vec::new();
    let mut cur: Vec<char> = Vec::new();
    let mut i: usize = 0;
    proof {
        assert(t.subrange(0, 0) =~= Seq::<char>::empty());
        assert(pieces@.map_values(|p: String| p@).push(cur@) =~= split_commas(t.subrange(0, 0)));
    }
    while i < end
        invariant
            end <= cs@.len(),
            t == cs@.subrange(0, end as int),
            i <= end,
            pieces@.map_values(|p: String| p@).push(cur@) == split_commas(t.subrange(0, i as int)),
        decreases end - i,
    {
        let c = cs[i];
        let ghost prev = t.subrange(0, i as int);
        let ghost next = t.subrange(0, i + 1);
        proof {
            assert(next.drop_last() =~= prev);
            assert(next.last() == c);
            lemma_split_commas_nonempty(prev);
        }
        if c == ',' {
            let s = string_of_chars(&cur);
            pieces.push(s);
            cur = Vec::new();
            assert(pieces@.map_values(|p: String| p@).push(cur@) =~= split_commas(next));
        } else {
            cur.push(c);
            assert(pieces@.map_values(|p: String| p@).push(cur@) =~= split_commas(next));
        }
        i = i + 1;
    }
    let s = string_of_chars(&cur);
    pieces.push(s);
    assert(t.subrange(0, end as int) =~= t);
    assert(pieces@.map_values(|p: String| p@) =~= split_commas(t));
    pieces
}

impl State {
    /// A new week whose tasks are those of a comma separated line, as read
    /// from the console, with no marks yet.
    pub fn from_task_line(line: &str) -> (r: State)
        ensures
            r.tasks() == tasks_of_line(line@),
            forall|d: Day| #[trigger] r.marks(d) == Seq::<char>::empty(),
    {
        let parts = split_task_line(line);
        let mut st = State::new();
        let mut i: usize = 0;
        while i < parts.len()
            invariant
                i <= parts@.len(),
                parts@.map_values(|p: String| p@) == tasks_of_line(line@),
                st.tasks() == parts@.map_values(|p: String| p@).subrange(0, i as int),
                forall|d: Day| #[trigger] st.marks(d) == Seq::<char>::empty(),
            decreases parts@.len() - i,
        {
            st.add_todo(parts[i].as_str());
            assert(st.tasks() =~= parts@.map_values(|p: String| p@).subrange(0, i + 1));
            i = i + 1;
        }
        assert(parts@.map_values(|p: String| p@).subrange(0, i as int) =~= tasks_of_line(line@));
        st
    }
}

} // verus!
