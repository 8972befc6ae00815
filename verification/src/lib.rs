//! Task bookkeeping for a small desktop task manager: the task records, the
//! SQL statements that store and change them, the decisions that the
//! background checker and the calendar import take, and the paths of the
//! files that the program keeps under the user's home directory.

pub mod decimal;
pub mod task;
pub mod clock;
pub mod query;
pub mod paths;
pub mod calendar;
pub mod schedule;
pub mod reply;
pub mod laws;
