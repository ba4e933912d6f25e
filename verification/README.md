# rrpc

gRPC without `.proto` files: a method is a Rust type that implements
`Method` (its ID, whether requests and responses are streamed, and its
message types), and messages travel as JSON.

- `src/` is the verified library (Verus): the `Method` trait and its
  type-level booleans, the JSON codec's handling of what serde returns,
  the status a failed call carries, the services' handler bookkeeping, and
  the example `GetRandomNumber` API with its handler.
- `app/` is the transport around it: tonic codecs, clients and services,
  serde copies of the example messages, and the example server and client.
- `tests/` runs the library on concrete values.
