# crowdfund

The verified core of a small crowdfunding web application where creators sign
in with Google.

- `src/` is the library, verified with Verus:
  - `config` — the configuration read from four environment variables;
  - `error` — the application error, its HTTP status and JSON body;
  - `session` — instants and login sessions that last 24 hours;
  - `google` — the Google sign-in requests (consent screen, code exchange,
    oauth2 authorization URL);
  - `user` — users and the search for a free username on sign-up;
  - `pages` — the welcome page and the dashboard's choice of user;
  - `text` — string helpers (decimal notation, concatenation).
- `app/` is the web server around it: routing, database queries, HTTP
  requests to Google and template rendering.
- `tests/` exercises the library on concrete values.
