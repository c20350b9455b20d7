# ksyup

A small user service over HTTP: users register, log in with a password to get
a bearer token, and use the token to reach the user routes.

- `src/` is the library, verified with Verus: the errors and their JSON
  answers, the JSON error bodies, what each user route answers given what the
  database and the token issuer reported, the steps of bearer-token
  authentication (CORS preflight requests pass at once), and the request-id and processing-time headers.
- `app/` is the server around it: `ntex` middlewares and routes, the database
  pool, CORS, static files and JSON serialisation. The answers it sends, and
  which requests pass authentication, are the library's.
- `tests/` runs the library on concrete inputs.
