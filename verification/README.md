# encurtador

A url shortener that counts the visits of each short url, as a verified library.

- `src/code.rs`: short codes, the first seven base62 digits of a url's random id, with the
  proof that every generated code has exactly seven characters of the base62 alphabet.
- `src/models.rs`: the stored records (a url with its code, a visit counter).
- `src/error.rs`: the errors a request ends in, their HTTP status, and how database failures
  map to them.
- `src/resources.rs`: the `urls` resource: creating a short url, and searching one as a small
  state machine that issues the database statements one by one and decides the answer.
- `src/config.rs`: the listening address and the API url from the environment's values.
- `app/`: the server (gotham, diesel on PostgreSQL) that runs these decisions.
