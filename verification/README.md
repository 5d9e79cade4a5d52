# vk_api

A client for the VK API whose library code carries proved contracts.

- `src/json.rs`: the JSON documents the server sends (`JsonValue`), their
  model (`Json`), their compact text, and the ways to look into them.
- `src/response/`: `Response`, a document of the server, read as text,
  integers, booleans and lists; the errors of reading answers.
- `src/lib.rs`: query parameters (`PutInAStrings`), the client's requests
  (`VK`) and the reading of a reply (`read_reply`).
- `src/long_polling.rs`: a long polling session and what each answer does to it.
- `src/laws.rs`: properties that relate the readings to each other.
- `app/`: HTTP through `reqwest`, conversion from `serde_json`, the `par!`
  macro, the polling loops and the `Display` of errors.
