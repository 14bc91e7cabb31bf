use vstd::prelude::*;
use vstd::utf8::encode_utf8;

use crate::day::Day;
use crate::state::{State, UNSET};
use crate::text::{chars_of, string_of_chars};

verus! {

/// `n` copies of `c`.
pub open spec fn repeat_char(c: char, n: nat) -> Seq<char> {
    Seq::new(n, |_i: int| c)
}

/// `s` followed by spaces up to `w` characters; `s` itself where it is that
/// long already.
pub open spec fn pad_right(s: Seq<char>, w: nat) -> Seq<char> {
    if s.len() < w {
        s + repeat_char(' ', (w - s.len()) as nat)
    } else {
        s
    }
}

/// The width of the task column: the largest UTF-8 byte length of a task
/// name, 0 when there are none.
pub open spec fn task_width(tasks: Seq<Seq<char>>) -> nat
    decreases tasks.len(),
{
    if tasks.len() == 0 {
        0
    } else {
        let rest = task_width(tasks.drop_last());
        let last = encode_utf8(tasks.last()).len();
        if last > rest {
            last
        } else {
            rest
        }
    }
}

/// The number of fill characters of the task column in the borders and the
/// heading: the column width, and at least one.
pub open spec fn rule_width(w: nat) -> nat {
    if w == 0 {
        1
    } else {
        w
    }
}

/// The title and the bordered heading of the table, each line ending in `\n`.
pub open spec fn header_text(w: nat) -> Seq<char> {
    "Weekly Stuff:\n┏━"@ + repeat_char('━', rule_width(w))
        + "━┳━━━━━┳━━━━━┳━━━━━┳━━━━━┳━━━━━┳━━━━━┳━━━━━┓\n┃ "@ + repeat_char(' ', rule_width(w))
        + " ┃ Mon ┃ Tue ┃ Wed ┃ Thu ┃ Fri ┃ Sat ┃ Sun ┃\n┣━"@ + repeat_char('━', rule_width(w))
        + "━╋━━━━━╋━━━━━╋━━━━━╋━━━━━╋━━━━━╋━━━━━╋━━━━━┫\n"@
}

/// The bottom border of the table, ending in `\n`.
pub open spec fn footer_text(w: nat) -> Seq<char> {
    "┗━"@ + repeat_char('━', rule_width(w)) + "━┻━━━━━┻━━━━━┻━━━━━┻━━━━━┻━━━━━┻━━━━━┻━━━━━┛\n"@
}

/// The cell of a mark in the columns Monday to Saturday.
pub open spec fn cell_text(m: char) -> Seq<char> {
    " ┃  "@ + seq![m] + " "@
}

/// The cell of a mark in the Sunday column, closing the row.
pub open spec fn last_cell_text(m: char) -> Seq<char> {
    " ┃  "@ + seq![m] + "  ┃\n"@
}

/// The row of task `i`: its name padded to the column width, then its mark
/// on each day from Monday to Sunday.
pub open spec fn row_text(st: State, i: int, w: nat) -> Seq<char> {
    "┃ "@ + pad_right(st.tasks()[i], w) + cell_text(st.mark_at(Day::Mon, i)) + cell_text(
        st.mark_at(Day::Tue, i),
    ) + cell_text(st.mark_at(Day::Wed, i)) + cell_text(st.mark_at(Day::Thu, i)) + cell_text(
        st.mark_at(Day::Fri, i),
    ) + cell_text(st.mark_at(Day::Sat, i)) + last_cell_text(st.mark_at(Day::Sun, i))
}

/// The rows of the first `n` tasks.
pub open spec fn rows_text(st: State, n: nat, w: nat) -> Seq<char>
    decreases n,
{
    if n == 0 {
        Seq::<char>::empty()
    } else {
        rows_text(st, (n - 1) as nat, w) + row_text(st, n - 1, w)
    }
}

/// The week's table: heading, one row per task, bottom border.
pub open spec fn table_text(st: State) -> Seq<char> {
    let w = task_width(st.tasks());
    header_text(w) + rows_text(st, st.tasks().len(), w) + footer_text(w)
}

fn push_str(out: &mut Vec<char>, s: &str)
    ensures
        final(out)@ == old(out)@ + s@,
{
    let cs = chars_of(s);
    let mut i: usize = 0;
    while i < cs.len()
        invariant
            i <= cs@.len(),
            cs@ == s@,
            out@ == old(out)@ + cs@.subrange(0, i as int),
        decreases cs@.len() - i,
    {
        out.push(cs[i]);
        i = i + 1;
        assert(out@ =~= old(out)@ + cs@.subrange(0, i as int));
    }
    assert(cs@.subrange(0, i as int) =~= s@);
}

fn push_repeat(out: &mut Vec<char>, c: char, n: usize)
    ensures
        final(out)@ == old(out)@ + repeat_char(c, n as nat),
{
    let mut i: usize = 0;
    while i < n
        invariant
            i <= n,
            out@ == old(out)@ + repeat_char(c, i as nat),
        decreases n - i,
    {
        out.push(c);
        i = i + 1;
        assert(out@ =~= old(out)@ + repeat_char(c, i as nat));
    }
}

fn mark_or_unset(marks: &Vec<char>, i: usize) -> (r: char)
    ensures
        r == (if i < marks@.len() {
            marks@[i as int]
        } else {
            UNSET
        }),
{
    if i < marks.len() {
        marks[i]
    } else {
        UNSET
    }
}

fn push_cell(out: &mut Vec<char>, m: char)
    ensures
        final(out)@ == old(out)@ + cell_text(m),
{
    push_str(out, " ┃  ");
    out.push(m);
    push_str(out, " ");
    assert(out@ =~= old(out)@ + cell_text(m));
}

fn push_last_cell(out: &mut Vec<char>, m: char)
    ensures
        final(out)@ == old(out)@ + last_cell_text(m),
{
    push_str(out, " ┃  ");
    out.push(m);
    push_str(out, "  ┃\n");
    assert(out@ =~= old(out)@ + last_cell_text(m));
}

fn push_header(out: &mut Vec<char>, w: usize)
    ensures
        final(out)@ == old(out)@ + header_text(w as nat),
{
    let rw: usize = if w == 0 {
        1
    } else {
        w
    };
    push_str(out, "Weekly Stuff:\n┏━");
    push_repeat(out, '━', rw);
    push_str(out, "━┳━━━━━┳━━━━━┳━━━━━┳━━━━━┳━━━━━┳━━━━━┳━━━━━┓\n┃ ");
    push_repeat(out, ' ', rw);
    push_str(out, " ┃ Mon ┃ Tue ┃ Wed ┃ Thu ┃ Fri ┃ Sat ┃ Sun ┃\n┣━");
    push_repeat(out, '━', rw);
    push_str(out, "━╋━━━━━╋━━━━━╋━━━━━╋━━━━━╋━━━━━╋━━━━━╋━━━━━┫\n");
    assert(out@ =~= old(out)@ + header_text(w as nat));
}

fn push_footer(out: &mut Vec<char>, w: usize)
    ensures
        final(out)@ == old(out)@ + footer_text(w as nat),
{
    let rw: usize = if w == 0 {
        1
    } else {
        w
    };
    push_str(out, "┗━");
    push_repeat(out, '━', rw);
    push_str(out, "━┻━━━━━┻━━━━━┻━━━━━┻━━━━━┻━━━━━┻━━━━━┻━━━━━┛\n");
    assert(out@ =~= old(out)@ + footer_text(w as nat));
}

impl State {
    /// The width of the task column.
    pub fn task_width(&self) -> (r: usize)
        ensures
            r as nat == task_width(self.tasks()),
    {
        let mut w: usize = 0;
        let mut i: usize = 0;
        while i < self.todos.len()
            invariant
                i <= self.todos@.len(),
                w as nat == task_width(self.tasks().subrange(0, i as int)),
            decreases self.todos@.len() - i,
        {
            let b = self.todos[i].as_str().as_bytes().len();
            proof {
                let ts = self.tasks().subrange(0, i + 1);
                assert(ts.drop_last() =~= self.tasks().subrange(0, i as int));
                assert(ts.last() == self.todos@[i as int]@);
            }
            if b > w {
                w = b;
            }
            i = i + 1;
        }
        assert(self.tasks().subrange(0, i as int) =~= self.tasks());
        w
    }

    fn push_row(&self, out: &mut Vec<char>, i: usize, w: usize)
        requires
            i < self.todos@.len(),
        ensures
            final(out)@ == old(out)@ + row_text(*self, i as int, w as nat),
    {
        push_str(out, "┃ ");
        let name = chars_of(self.todos[i].as_str());
        let ghost before_name = out@;
        let mut k: usize = 0;
        while k < name.len()
            invariant
                k <= name@.len(),
                out@ == before_name + name@.subrange(0, k as int),
            decreases name@.len() - k,
        {
            out.push(name[k]);
            k = k + 1;
            assert(out@ =~= before_name + name@.subrange(0, k as int));
        }
        assert(name@.subrange(0, k as int) =~= name@);
        if name.len() < w {
            push_repeat(out, ' ', w - name.len());
        }
        assert(out@ =~= before_name + pad_right(self.tasks()[i as int], w as nat));
        push_cell(out, mark_or_unset(&self.mon, i));
        push_cell(out, mark_or_unset(&self.tue, i));
        push_cell(out, mark_or_unset(&self.wed, i));
        push_cell(out, mark_or_unset(&self.thu, i));
        push_cell(out, mark_or_unset(&self.fri, i));
        push_cell(out, mark_or_unset(&self.sat, i));
        push_last_cell(out, mark_or_unset(&self.sun, i));
        assert(out@ =~= old(out)@ + row_text(*self, i as int, w as nat));
    }

    /// The week's table, as text ready to print: a title line, a bordered
    /// heading with the columns Mon to Sun, one row per task with that day's
    /// mark or `?`, and a bottom border.
    pub fn render_table(&self) -> (r: String)
        ensures
            r@ == table_text(*self),
    {
        let w = self.task_width();
        let mut out: Vec<char> = Vec::new();
        push_header(&mut out, w);
        let ghost head = out@;
        let mut i: usize = 0;
        while i < self.todos.len()
            invariant
                i <= self.todos@.len(),
                out@ == head + rows_text(*self, i as nat, w as nat),
            decreases self.todos@.len() - i,
        {
            self.push_row(&mut out, i, w);
            i = i + 1;
            assert(out@ =~= head + rows_text(*self, i as nat, w as nat));
        }
        push_footer(&mut out, w);
        assert(out@ =~= table_text(*self));
        string_of_chars(&out)
    }
}

} // verus!
