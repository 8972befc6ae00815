# backend

A small desktop task manager: a web service over a SQLite table of tasks,
a background check that shuts the machine down while a task is going on,
and an import of the day's events from Google Calendar.

- `src/` is the verified library (Verus): the task records, the SQL
  statements, the file paths, the decimal text of numbers, the decisions of
  the background work and the answers of the web service, with their
  contracts; `src/laws.rs` holds the properties proved across them. The
  calendar fields of timestamps come from chrono through the trusted items
  in `src/clock.rs`.
- `app/` is the program around it: the ntex web endpoints, the SQLite
  connection, the Google Calendar client, the loops of the background work,
  and `init`, which creates a fresh database.
- `tests/` runs the library on concrete values.
