# DeepSeek status widget

A widget that sits next to the Codex window and shows the balance, the tokens and
the cost of a DeepSeek account. The rules of the program are a library verified
with Verus; a thin program around it talks to Windows, the network and the files
of the user.

- `src/text.rs`, `src/utf16.rs`: text, decimal notation and UTF-16.
- `src/json.rs`: JSON documents. They are read by `serde_json`.
- `src/http.rs`: requests, and what is made of replies.
- `src/deepseek.rs`: the login, the bill of the platform and the balance.
- `src/credentials.rs`, `src/autostart.rs`: what is kept in the credential store
  and in the registry.
- `src/usage.rs`: dates and the totals of recorded usage.
- `src/codex.rs`: recognising the Codex window.
- `src/follow.rs`: following it, and remembering drags.
- `src/prefs.rs`: the preferences of the user.
- `app/`: the program. It adds the amounts of the bill and scales distances, both
  in floating point, and does all input and output.

What is not proved is marked `external_body` or `assume_specification`: the
functions of `serde_json` that read a document, and `String::push`,
`char::from_u32`, `str::to_lowercase` and `Path::file_stem` of the standard
library.
