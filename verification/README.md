# mindlink

MindLink is a desktop tray application that signs in to ChatGPT, serves an
OpenAI-compatible API on the local machine, can expose it through a
Cloudflare tunnel, and runs the Bifrost LLM router and a small dashboard
beside it.

## Layout

- `src/` is the library, written in Verus.  Every executable function
  there carries a contract, except one trusted converter that turns a
  `serde_json::Value` into the library's JSON model; the decisions of the
  application live there: the error
  model, error reporting and retries, log lines and log rotation, the
  process monitor's bookkeeping, configuration validation and migration,
  the OAuth2 PKCE sign-in values and the token lifetimes, request
  translation for the local API, the search for binaries, the tunnel's
  output parsing, and the answers of the desktop commands.
  - `src/laws.rs` states properties that span several operations.
  - Calls into outside crates (chrono, uuid, sha2, base64, rand, url,
    regex, jsonwebtoken, serde_json, anyhow) and the system clock stand
    behind small trusted wrappers, each documented with what its contract
    claims.  Where the clock or the random source can fail, the functions
    that use them say so in their result.
- `tests/` exercises the library from outside.
- `app/` is the application around the library: the Tauri commands and
  tray, the HTTP servers, file and network I/O, child processes, and the
  serde copies of the library's types.  It hands the library plain values
  and acts on what comes back.
