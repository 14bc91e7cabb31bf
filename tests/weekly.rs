use weekly_todo::answer::{answer_mark, mark_of_trimmed, marks_from_answers, prompt_line};
use weekly_todo::day::{day_of_unix_secs, get_day, Day};
use weekly_todo::state::{state_file_path, State};
use weekly_todo::tasks::{line_body, split_task_line};
use weekly_todo::week::{already_recorded_message, next_step, Step};

fn strings(v: &[&str]) -> Vec<String> {
    v.iter().map(|s| s.to_string()).collect()
}

fn expected_table(rows: &[(&str, [char; 7])]) -> String {
    let w = rows.iter().map(|r| r.0.len()).max().unwrap_or(0);
    let mut s = String::new();
    s.push_str(&format!(
        "Weekly Stuff:\n\
        ┏━{:━>w$}━┳━━━━━┳━━━━━┳━━━━━┳━━━━━┳━━━━━┳━━━━━┳━━━━━┓\n\
        ┃ {: >w$} ┃ Mon ┃ Tue ┃ Wed ┃ Thu ┃ Fri ┃ Sat ┃ Sun ┃\n\
        ┣━{:━>w$}━╋━━━━━╋━━━━━╋━━━━━╋━━━━━╋━━━━━╋━━━━━╋━━━━━┫\n",
        "━", " ", "━"
    ));
    for (name, m) in rows {
        s.push_str(&format!(
            "┃ {: <w$} ┃  {}  ┃  {}  ┃  {}  ┃  {}  ┃  {}  ┃  {}  ┃  {}  ┃\n",
            name, m[0], m[1], m[2], m[3], m[4], m[5], m[6]
        ));
    }
    s.push_str(&format!(
        "┗━{:━>w$}━┻━━━━━┻━━━━━┻━━━━━┻━━━━━┻━━━━━┻━━━━━┻━━━━━┛\n",
        "━"
    ));
    s
}

#[test]
fn epoch_offsets_name_weekdays_from_thursday() {
    assert_eq!(get_day(0), Day::Thu);
    assert_eq!(get_day(1), Day::Fri);
    assert_eq!(get_day(2), Day::Sat);
    assert_eq!(get_day(3), Day::Sun);
    assert_eq!(get_day(4), Day::Mon);
    assert_eq!(get_day(5), Day::Tue);
    assert_eq!(get_day(6), Day::Wed);
    let mut seen: Vec<Day> = Vec::new();
    for d in 0..7u64 {
        let day = get_day(d);
        assert!(!seen.contains(&day));
        seen.push(day);
    }
    assert_eq!(seen.len(), 7);
}

#[test]
fn unix_seconds_give_utc_weekday() {
    assert_eq!(day_of_unix_secs(0), Day::Thu);
    assert_eq!(day_of_unix_secs(86399), Day::Thu);
    assert_eq!(day_of_unix_secs(86400), Day::Fri);
    assert_eq!(day_of_unix_secs(4 * 86400), Day::Mon);
    // 2024-01-01T12:00:00Z was a Monday.
    assert_eq!(day_of_unix_secs(1_704_110_400), Day::Mon);
    // 2026-10-18T00:00:00Z is a Sunday.
    assert_eq!(day_of_unix_secs(1_792_281_600), Day::Sun);
    assert_eq!(day_of_unix_secs(u64::MAX), get_day((u64::MAX / 86400) % 7));
}

#[test]
fn answers_yes_and_upper_yes_are_done() {
    assert_eq!(answer_mark("y\n"), 'Y');
    assert_eq!(answer_mark("Y\n"), 'Y');
}

#[test]
fn answers_no_and_other_letters_are_not_done() {
    assert_eq!(answer_mark("n\n"), 'X');
    assert_eq!(answer_mark("x\n"), 'X');
}

#[test]
fn bare_enter_is_done() {
    assert_eq!(answer_mark("\n"), 'Y');
    assert_eq!(answer_mark(""), 'Y');
}

#[test]
fn verbose_answers_are_not_done() {
    assert_eq!(answer_mark("yes\n"), 'X');
    assert_eq!(answer_mark("ny\n"), 'X');
    assert_eq!(answer_mark("y y\n"), 'X');
}

#[test]
fn answers_are_trimmed_before_deciding() {
    assert_eq!(answer_mark("y\r\n"), 'Y');
    assert_eq!(answer_mark(" y\n"), 'Y');
    assert_eq!(answer_mark("\tY  \n"), 'Y');
    assert_eq!(answer_mark(" n \n"), 'X');
    assert_eq!(answer_mark("   \n"), 'Y');
    assert_eq!(answer_mark("é\n"), 'X');
}

#[test]
fn answer_without_line_end_keeps_its_last_character() {
    assert_eq!(answer_mark("y"), 'Y');
    assert_eq!(answer_mark("n"), 'X');
    assert_eq!(answer_mark("yn"), 'X');
    assert_eq!(answer_mark("ny"), 'X');
}

#[test]
fn trimmed_answer_decides_mark() {
    assert_eq!(mark_of_trimmed("y"), 'Y');
    assert_eq!(mark_of_trimmed("Y"), 'Y');
    assert_eq!(mark_of_trimmed(""), 'Y');
    assert_eq!(mark_of_trimmed("n"), 'X');
    assert_eq!(mark_of_trimmed("yes"), 'X');
    assert_eq!(mark_of_trimmed(" y"), 'X');
}

#[test]
fn line_body_drops_only_a_line_end() {
    assert_eq!(line_body("abc\n"), "abc");
    assert_eq!(line_body("abc\r\n"), "abc");
    assert_eq!(line_body("abc"), "abc");
    assert_eq!(line_body("abc\r"), "abc\r");
    assert_eq!(line_body("\n"), "");
    assert_eq!(line_body(""), "");
}

#[test]
fn state_file_lies_in_base_directory() {
    assert_eq!(state_file_path("/home/me/.local/share"), "/home/me/.local/share/TODO");
    assert_eq!(state_file_path(""), "/TODO");
}

#[test]
fn marks_follow_answers_in_order() {
    let answers = strings(&["y\n", "\n", "no\n", "n\n", " Y\r\n"]);
    assert_eq!(marks_from_answers(&answers), vec!['Y', 'Y', 'X', 'X', 'Y']);
    assert_eq!(marks_from_answers(&Vec::new()), Vec::<char>::new());
}

#[test]
fn prompt_shows_task_and_cue() {
    assert_eq!(prompt_line(&"Clean".to_string()), "Clean (Y/n) ");
    assert_eq!(prompt_line(&String::new()), " (Y/n) ");
}

#[test]
fn task_line_splits_on_commas_without_line_end() {
    assert_eq!(split_task_line("Clean,Write\n"), strings(&["Clean", "Write"]));
    assert_eq!(split_task_line("Clean,Write\r\n"), strings(&["Clean", "Write"]));
    assert_eq!(split_task_line("a,,b"), strings(&["a", "", "b"]));
    assert_eq!(split_task_line("run, read\n"), strings(&["run", " read"]));
    assert_eq!(split_task_line("\n"), strings(&[""]));
    assert_eq!(split_task_line(""), strings(&[""]));
    assert_eq!(split_task_line(",\n"), strings(&["", ""]));
    assert_eq!(split_task_line("a\nb\n"), strings(&["a\nb"]));
}

#[test]
fn new_state_is_empty() {
    let s = State::new();
    assert!(s.todos.is_empty());
    assert!(s.mon.is_empty() && s.tue.is_empty() && s.wed.is_empty());
    assert!(s.thu.is_empty() && s.fri.is_empty() && s.sat.is_empty() && s.sun.is_empty());
}

#[test]
fn add_todo_appends_in_order() {
    let mut s = State::new();
    s.add_todo("Run");
    s.add_todo("Run");
    s.add_todo("Read");
    assert_eq!(s.todos, strings(&["Run", "Run", "Read"]));
    assert!(s.mon.is_empty());
}

#[test]
fn saving_a_day_replaces_only_that_day() {
    let mut s = State::new();
    s.add_todo("Run");
    s.save_completion_info(Day::Wed, vec!['Y']);
    s.save_completion_info(Day::Sun, vec!['X']);
    s.save_completion_info(Day::Wed, vec!['X']);
    assert_eq!(s.wed, vec!['X']);
    assert_eq!(s.sun, vec!['X']);
    assert!(s.mon.is_empty() && s.tue.is_empty() && s.thu.is_empty());
    assert!(s.fri.is_empty() && s.sat.is_empty());
    assert_eq!(s.todos, strings(&["Run"]));
}

#[test]
fn record_answers_sets_todays_marks() {
    let mut s = State::from_task_line("a,b,c\n");
    s.record_answers(Day::Tue, &strings(&["y\n", "nope\n", "\n"]));
    assert_eq!(s.tue, vec!['Y', 'X', 'Y']);
    assert!(s.mon.is_empty() && s.sun.is_empty());
    assert_eq!(s.todos, strings(&["a", "b", "c"]));
}

#[test]
fn monday_scenario_records_new_week() {
    assert_eq!(next_step(Day::Mon, Some(Day::Sun)), Step::StartWeek);
    let mut s = State::from_task_line("Clean,Write\n");
    assert_eq!(s.todos, strings(&["Clean", "Write"]));
    assert_eq!(prompt_line(&s.todos[0]), "Clean (Y/n) ");
    assert_eq!(prompt_line(&s.todos[1]), "Write (Y/n) ");
    s.record_answers(Day::Mon, &strings(&["y\n", "\n"]));
    assert_eq!(s.mon, vec!['Y', 'Y']);
    assert!(s.tue.is_empty() && s.sun.is_empty());
}

#[test]
fn repeat_run_on_same_day_is_refused() {
    for d in [Day::Mon, Day::Tue, Day::Wed, Day::Thu, Day::Fri, Day::Sat, Day::Sun] {
        assert_eq!(next_step(d, Some(d)), Step::AlreadyRecorded);
    }
    assert_eq!(
        already_recorded_message(),
        "Already entered completion info for today, see you tomorrow."
    );
    assert!(already_recorded_message().starts_with("Already entered completion info for today"));
}

#[test]
fn steps_follow_the_week() {
    assert_eq!(next_step(Day::Mon, None), Step::StartWeek);
    assert_eq!(next_step(Day::Tue, Some(Day::Mon)), Step::RecordDay);
    assert_eq!(next_step(Day::Sat, None), Step::RecordDay);
    assert_eq!(next_step(Day::Sun, Some(Day::Sat)), Step::CloseWeek);
    assert_eq!(next_step(Day::Sun, Some(Day::Mon)), Step::CloseWeek);
}

#[test]
fn table_shows_monday_marks_and_unset_elsewhere() {
    let mut s = State::new();
    s.add_todo("Run");
    s.add_todo("Read");
    s.save_completion_info(Day::Mon, vec!['Y', 'X']);
    let text = s.render_table();
    let lines: Vec<&str> = text.lines().collect();
    assert_eq!(lines.len(), 7);
    assert_eq!(lines[4], "┃ Run  ┃  Y  ┃  ?  ┃  ?  ┃  ?  ┃  ?  ┃  ?  ┃  ?  ┃");
    assert_eq!(lines[5], "┃ Read ┃  X  ┃  ?  ┃  ?  ┃  ?  ┃  ?  ┃  ?  ┃  ?  ┃");
    assert_eq!(text, expected_table(&[("Run", ['Y', '?', '?', '?', '?', '?', '?']), ("Read", ['X', '?', '?', '?', '?', '?', '?'])]));
}

#[test]
fn table_of_full_week() {
    let mut s = State::from_task_line("Run,Read,Code\n");
    s.save_completion_info(Day::Mon, vec!['Y', 'X', 'Y']);
    s.save_completion_info(Day::Tue, vec!['Y', 'Y']);
    s.save_completion_info(Day::Sun, vec!['X', 'X', 'X', 'Y']);
    assert_eq!(
        s.render_table(),
        expected_table(&[
            ("Run", ['Y', 'Y', '?', '?', '?', '?', 'X']),
            ("Read", ['X', 'Y', '?', '?', '?', '?', 'X']),
            ("Code", ['Y', '?', '?', '?', '?', '?', 'X']),
        ])
    );
}

#[test]
fn table_with_no_tasks_keeps_one_fill_character() {
    let s = State::new();
    let text = s.render_table();
    assert_eq!(text, expected_table(&[]));
    assert!(text.contains("┏━━━┳"));
    assert_eq!(s.task_width(), 0);
}

#[test]
fn table_width_counts_bytes() {
    let mut s = State::new();
    s.add_todo("ab");
    s.add_todo("é");
    assert_eq!(s.task_width(), 2);
    s.add_todo("ééé");
    assert_eq!(s.task_width(), 6);
    assert_eq!(
        s.render_table(),
        expected_table(&[
            ("ab", ['?'; 7]),
            ("é", ['?'; 7]),
            ("ééé", ['?'; 7]),
        ])
    );
}
