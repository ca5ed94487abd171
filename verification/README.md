# pick_play

The logic of a prediction-game web site, verified with Verus.

- `src/` is the verified library: HTTP status codes, error replies with a
  user message and a backtrace of log messages (`resp_err`), the table of
  tracing levels by status code, the site's errors and notifications, the
  access rules of books and chapters, the scoring of a chapter's picks, what
  the pages show, and the decisions of the sign-up and login handlers.
- `app/` is the web side: routing, the database queries, sessions, the robot
  check, the Google login and the markup. It acts on the library's decisions.
- `tests/` exercises the library on concrete values.
