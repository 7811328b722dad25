# tower_web_protobuf

Protobuf middleware and friends for tower-web, with a verified core.

- `src/` is the library, verified with Verus: how the `Content-Type` and
  `Accept` headers of a request select the parse and encode strategies
  (`headers`, `service`, `middleware`), the strategies and their codecs
  (`extensions`), the extraction state of a message (`extractors`), the
  deserialization error and its response (`errors`), the response body
  stream (`response`), the message wrapper (`types`) and text decoding
  (`text`).
- `app/` holds the tower-web side: the framework's traits (`Extract`,
  `ExtractFuture`, `Response`, `BufStream`, `Catch`, `Middleware`,
  `Service`) implemented for the crate's types, calling the codecs (prost,
  serde_json, serde_plain) that are generic over the user's message type.
- `tests/` exercises the library.
