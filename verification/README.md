# armature-azure-functions

A runtime adapter that runs an HTTP handler as an Azure Functions custom handler. What the
adapter decides and computes is written in [Verus](https://github.com/verus-lang/verus) and
proved against its contracts.

## Layout

- `src/` is the verified library.
  - `runtime` decides, step by step, how an invocation goes: refuse or read the body, refuse or
    run the handler, and by when. One deadline, set on arrival, covers both.
  - `wire` reads request heads and puts responses on the wire.
  - `request`, `response`, `config`, `environment` and `error` hold the types that handlers and
    programs work with.
  - `query`, `fields`, `text`, `text_map` and `number` hold query strings, header lists, and the
    text and number handling below them.
  - `payload`, `body_serde`, `json` and `protocol` are where the `bytes`, `base64`, `serde_json`
    and `http` crates come in. `query` calls `urlencoding`. Each function that calls into one of
    these crates is marked `external_body`, or is given its contract by `assume_specification`,
    and its comment says what is taken on trust.
- `app/` is ordinary Rust around it: the server, the clock, the process environment, the
  `RequestHandler` trait with `impl_azure_function_handler!`, logging, and the JSON forms of
  requests and responses.
- `tests/` exercises the library from outside.

## Headers and query parameters

Request headers, response headers and query parameters are all `Vec<(String, String)>` rather
than maps, so repeated names survive in wire order. In particular a handler can emit more than
one `Set-Cookie`:

```rust
FunctionResponse::ok()
    .header("set-cookie", "session=abc; HttpOnly")
    .header("set-cookie", "csrf=xyz");
```

`header(..)` appends; use `set_header(..)` to replace lines with the same name. Read them back
with `header_value(..)` / `header_values(..)` and `query_param(..)` / `query_params(..)`.

A query pair with no `=` keeps its key with an empty value (`?flag`), and a component whose
percent-escapes do not decode is passed through verbatim.

## Configuration

`FunctionConfig` (populated from the environment by `FunctionConfig::from_env`) controls the base
path to strip, the maximum request body size, and the request timeout. `timeout_seconds` is a
single budget covering both reading the request body and running the handler; `0` disables it.

## License

MIT OR Apache-2.0
