//! Where the program keeps its files under the user's home directory.

use vstd::prelude::*;
use crate::decimal::{append_i64, dec_int};
use crate::task::Task;

verus! {

/// The program's directory: `<home>\tm_db`.
pub open spec fn data_dir_path(home: Seq<char>) -> Seq<char> {
    home + "\\tm_db"@
}

/// The database file: `<home>\tm_db\task_data.db`.
pub open spec fn db_file_path(home: Seq<char>) -> Seq<char> {
    data_dir_path(home) + "\\task_data.db"@
}

/// The saved calendar token: `<home>\tm_db./token.json`.
pub open spec fn token_file_path(home: Seq<char>) -> Seq<char> {
    data_dir_path(home) + "./token.json"@
}

/// The log of the tasks deleted for day `day0`: `<home>\tm_db\db_log\<day0>.txt`.
pub open spec fn purge_log_path(home: Seq<char>, day0: int) -> Seq<char> {
    data_dir_path(home) + "\\db_log\\"@ + dec_int(day0) + ".txt"@
}

/// The record of a deleted task: `<name>:<type>:<start>:<end>`.
pub open spec fn purge_log_line(name: Seq<char>, task_type: Seq<char>, start: int, end: int) -> Seq<char> {
    name + ":"@ + task_type + ":"@ + dec_int(start) + ":"@ + dec_int(end)
}

/// The program's directory under `home`.
pub fn data_dir(home: &str) -> (p: String)
    ensures
        p@ == data_dir_path(home@),
{
    let mut p = String::from_str(home);
    p.append("\\tm_db");
    p
}

/// The database file under `home`.
pub fn db_path(home: &str) -> (p: String)
    ensures
        p@ == db_file_path(home@),
{
    let mut p = data_dir(home);
    p.append("\\task_data.db");
    p
}

/// The saved calendar token under `home`.
pub fn token_path(home: &str) -> (p: String)
    ensures
        p@ == token_file_path(home@),
{
    let mut p = data_dir(home);
    p.append("./token.json");
    p
}

/// The log file for the tasks deleted for day `day0`.
pub fn purge_log_file(home: &str, day0: u32) -> (p: String)
    ensures
        p@ == purge_log_path(home@, day0 as int),
{
    let mut p = data_dir(home);
    p.append("\\db_log\\");
    append_i64(&mut p, day0 as i64);
    p.append(".txt");
    p
}

/// The log record of a deleted task.
pub fn purge_log_record(task: &Task) -> (l: String)
    ensures
        l@ == purge_log_line(task.name@, task.task_type@, task.start_time as int, task.end_time as int),
{
    let mut l = String::from_str(task.name.as_str());
    l.append(":");
    l.append(task.task_type.as_str());
    l.append(":");
    append_i64(&mut l, task.start_time);
    l.append(":");
    append_i64(&mut l, task.end_time);
    l
}

} // verus!
