//! A weekly to-do tracker: the week's tasks with a mark per task and day,
//! the rule that turns a console answer into a mark, the weekday arithmetic
//! that decides what a run does, and the table that closes the week.

pub mod answer;
pub mod day;
pub mod state;
pub mod table;
pub mod tasks;
pub mod week;
mod text;
