# be

The back end of a school app: accounts for teachers, students and
administrators, login with bcrypt-checked passwords and HS256 access tokens,
a profile endpoint, avatar upload (with a face-vector refresh for students)
and an internal endpoint that lists face vectors.

* `src/` is the verified library (Verus). It holds the data model, the
  configuration, the response envelope, the bearer-token checks, password and
  token handling, and the login, registration, profile and avatar flows as
  step functions: each takes what the last database or HTTP call returned and
  says what to do next.
* `app/` is the server (axum, sqlx, reqwest): it reads the environment, runs
  the queries and outbound requests the flows ask for, and serialises replies.
* `tests/` exercises the library on concrete values.
