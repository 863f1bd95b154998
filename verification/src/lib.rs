//! TaskFlow: the rules of a task-progress manager (daily, weekly, monthly and
//! yearly tasks with due dates, sub-tasks, completion history, statistics and
//! JSON import/export), verified with Verus.
//!
//! The library decides every SQL statement and its parameters, how due dates
//! are derived, how pages are cut and how query results become tasks; the
//! application around it performs the database and clock I/O.
pub mod calendar;
pub mod due;
pub mod laws;
pub mod model;
pub mod paging;
pub mod query;
pub mod records;
mod text;
