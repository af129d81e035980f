# immortal_blog

The logic of a blog backend as a verified library: answer envelopes and status codes, service
errors and the HTTP status each is answered with, login tokens (signed with `jsonwebtoken`),
cache keys, random file names (`uuid`), permission levels and the checks that admit or refuse a
request, the cross-origin headers, the login check, and the decisions that the request handlers
make between their database and cache calls.

- `src/` is the library. Verus proves the contract of every function in it but the few that
  call `jsonwebtoken`, `uuid` and `chrono`: those are marked `#[verifier::external_body]`, and
  their contracts, which say what the outside call returns, are believed rather than proved.
  - `common`: claims, errors, envelopes, tokens, keys, cross-origin headers, query data.
  - `commons`: the account services: claims with a nickname and their tokens, identity, payloads, privileges key, middlewares.
  - `backend`: status codes, models, permission checks and the levels each service requires,
    cache commands and cached data, middlewares, handler decisions, and the order of the calls
    that the account activation handlers make (as steps from an outcome to the next action).
  - `permission_levels`: the map from permission names to levels. It stands where a
    `HashMap<String, i32>` would: a vector of (name, level) pairs whose names are kept distinct,
    since the map's contents can then be stated and proved.
  - `token`: the `jsonwebtoken` calls that sign and read tokens; `decimal`: decimal text of integers.
- `tests/` runs the library on concrete values.
- `app/` is the HTTP server around the library (actix-web).
