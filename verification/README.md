# prism

Value types and decision logic for the Prism bindings (the Platform-agnostic
Reader Interface for Speech and Messages), proved with Verus.

- `src/` — the verified library:
  - `error_code`, `error` — raw `PrismError` codes and the `Error` type, with
    the code mapping in both directions, messages and display text, and the
    laws that relate them;
  - `backend_code`, `backend_id` — raw backend tags and `BackendId`;
  - `feature_bits`, `features` — capability bits and the `BackendFeatures` set;
  - `log_level` — `LogLevel` and its raw values and order;
  - `version` — the targeted ABI versions and the packed version decoding;
  - `context` — `ContextBuilder` and the configuration it yields;
  - `bridge` — the conversions the native bridge performs around each call
    (status codes, out-values, C text arguments);
  - `text` — decimal and hexadecimal rendering used by the display texts.
- `tests/` — tests of the library.
- `app/` — the safe wrapper over the native C library (`Context`, `Backend`,
  `Registry`, `RegistryBuilder`, `CustomBackend`, logging), which makes the
  native calls and hands their plain results to the library.
