# qiniu_sdk

The logic of a Qiniu cloud storage SDK, verified with Verus: signing of
requests and download URLs (V1 and V2), credentials and their providers,
upload policies and tokens, endpoints and regions, the retry decisions, the
subnet IP chooser, timeouts of domain resolution, the JSON and form bodies
of the storage API calls, the parts and records of resumable uploads, and
the tasks that feed uploads from a reader.

- `src/` is the library. Each public function states what it returns in its
  `ensures`; the properties that relate several functions are public proof
  functions. Hashing (HMAC-SHA1), URL and form encoding, JSON text and
  random choices are done by outside crates behind small trusted functions
  whose contracts say what their documentation promises.
- `tests/` holds the tests of the library.
- `app/` holds what the library leaves to its caller: global and
  environment credentials, reading request bodies, clocks, threads and
  timers, IP address parsing, JSON text, media of resumable records, c-ares
  lookups, and the `Display` forms of errors.
