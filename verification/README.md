# leitsys

The web client of Leitsys, a spaced-repetition (Ebbinghaus method)
learning service: questions climb a ladder of review steps spaced further and
further apart, and fall back to the first step on a wrong answer.

The crate is split in two:

- `src/` is a library verified with Verus. It holds the client's logic with
  contracts and proofs:
  - `calendar`: dates, months, Julian day numbers, the six-week month grid of
    the home page and the reading of the backend's RFC 3339 timestamps
    (calendar arithmetic itself is delegated to the `time` crate);
  - `text`: splitting, integer parsing with the semantics of std's `FromStr`,
    trimming, substring search and decimal formatting;
  - `password`: the password rules shown while signing up;
  - `session`: the access token held in memory, the silent refresh, the
    route guards and the login page's form switching;
  - `api`: the backend's endpoints as data (method, URL, token) and the
    reading of its `{ success, data, message }` replies, plus the decoding of
    the access token's payload (through the `base64` crate);
  - `forms`, `agenda`, `review`, `steps`: what the pages check and compute
    (required fields, spacing days, due counts, the review queue, the stable
    ordering of steps).
- `app/` is the Dioxus front end: pages, the HTTP calls (reqwest), JSON
  (serde) and timers. It calls the library for every decision.

`tests/` exercises the library on concrete values, with the real outside
crates linked.
