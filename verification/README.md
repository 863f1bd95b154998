# TaskFlow

The verified core of TaskFlow, a desktop manager for daily, weekly, monthly
and yearly tasks with due dates, sub-tasks, completion history, statistics and
JSON import/export. The library is written in Verus; every function in `src/`
is proved against its contract.

- `src/model.rs`: the records (tasks, filters, pages, exports, SQL statements)
  and their mathematical models.
- `src/calendar.rs`: dates and clock readings as plain values, with chrono's
  date arithmetic, formatting and clock behind small trusted wrappers.
- `src/due.rs`: how a task's due date is kept or derived.
- `src/paging.rs`: page numbers, page sizes, offsets and page counts.
- `src/query.rs`: every SQL statement and the values bound to it.
- `src/records.rs`: planning inserts (single, batch, import, sub-task),
  exports and counts.
- `src/laws.rs`: properties across functions (placeholders, paging, due
  dates, counts, export/import).
- `app/`: the Tauri commands, SQLite access and serde types around the library.
