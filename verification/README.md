# Schließfach-Manager

A terminal application for managing the lockers of a school: lockers in several
buildings, rentals to students and teachers, deposits and extensions, overdue debts
(10 € per started year of 365.25 days), a dashboard, exports and imports, and a
screensaver.

The library in `src/` holds the logic, verified with Verus:

- `models`, `model`: lockers, rentals, payments, locations and their rules (debt,
  expiry, search, height categories, text forms of the enumerations).
- `calendar`, `text`: dates, timestamps and the number and text formatting the
  screens use; chrono, unicode-width and std string functions are called behind
  trusted wrappers whose results are named.
- `db`: the aggregations over query results (payment summary, outstanding debt,
  debtors grouped per tenant and sorted by debt) and the sample data.
- `import`, `export`: reading lockers and rentals from the bytes of a CSV file and
  writing the export's CSV files (the `csv` crate's reader and writer are called
  behind wrappers whose results are named), the bookkeeping of restoring a backup,
  and the rows and report of an export.
- `app`, `ui`, `screensaver`: navigation between screens as a state machine
  (keys, the triple Escape, the window switcher, inactivity and the screensaver),
  the widgets' state and the texts the screens show, and animation playback.

The binary in `app/` opens the SQLite database, runs the terminal loop with
crossterm, draws with ratatui, reads and writes the export files, and hands plain
values to the library; what a completed wizard of the rental management asks for
it carries out with the library's rental plan.
