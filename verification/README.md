# nowpayments

A client for the NOWPayments API whose decisions are verified with Verus.

- `src/` is the verified library: currencies and their codes, payment states,
  points in time and their day arithmetic, the paths and bodies of requests,
  the session state (base URL, credentials, JWT), error replies, and the reading
  of the API's payment replies into the library's types.
- `app/` sends the requests with `reqwest`, reads the environment with `dotenvy`
  and decodes JSON with `serde`, handing plain values to the library.
- `tests/` runs the library against concrete values.
