# uprimerpay

The UprimerPay payment connector as a verified library.

- `src/` holds the connector's logic, proved with Verus: status mappings,
  webhook classification and MD5 signature checks, payment and refund
  request construction, reply interpretation, error bodies, headers and
  URLs of each call, and the connector's declared capabilities.
  `src/laws.rs`, `src/webhook.rs` and `src/signature.rs` hold the proof
  functions that tie several calls together.
- `app/` is the JSON edge: wire forms of the gateway's messages with
  serde, and functions that parse raw bytes, call the library and
  serialize its results.
- `tests/` exercises the library on concrete values, including the
  notification table of the gateway's webhook documentation.

Notes on a few choices:

- Request and webhook signatures use the `md5` crate: the MD5 helper the
  connector's signing is written against computes its digest with that
  crate, so the library calls it directly.
- A redirect form's fields are a `Vec` of key/value pairs holding each key
  once, with the last value the URL's query gives it. This is the content of
  a map built from the query; a `Vec` is used because Verus specifies maps
  keyed by `String` too weakly to prove that content.
