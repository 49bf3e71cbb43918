# langkeeper

Keeps track of the time each user spends on each programming language: editor plugins
ping the service with the extension of the file being edited, and the service adds up
the time between pings, answers with per-language statistics, and mails a weekly report.

- `src/` is the verified library (Verus): the report-week boundary, the ping rules, the
  hours/minutes/seconds breakdown, the registration and login checks (garde, bcrypt), the
  session-token decision, the HTML of the statistics table and of the emails (maud's
  escaping), the command line, the `.env` secret rewrite, log lines and the seed data.
- `app/` is the program around it: the actix-web server, the diesel/SQLite queries, the
  session cookie, JSON web tokens, mail delivery, the scheduler and the file and terminal
  output.
- `tests/` exercises the library.
