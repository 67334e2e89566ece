# transportx

A driver-independent transport boundary for HTTP and WebSocket clients, verified with
[Verus](https://github.com/verus-lang/verus).

`src/` is the verified library: it decides, and does no I/O. `app/` is ordinary Rust around
it: the `async` traits and the drivers that open sockets, read files and hand every result
back to the library. `tests/` runs the library with the real outside crates.

| Module | What it holds |
| --- | --- |
| `error`, `io` | `TransportError`, its messages, what it keeps of an I/O error, and which failures may pass |
| `message`, `redact`, `url` | requests and responses, and what may be shown of them |
| `retry_after`, `time` | `Retry-After` values, durations, points in time |
| `http`, `tls`, `proxy` | how an HTTP driver is built, and which failure of its client is which |
| `exchange` | the request that goes out; the reply that comes in, chunk by chunk |
| `ws` | connecting, sending and reading frames on a WebSocket |
| `pool` | a bounded pool of clients |
| `mock` | a transport that answers from memory |
| `text`, `payload`, `client`, `socket` | strings, buffers, and what is trusted of `reqwest` and `tungstenite` |

## Limits

| What | Default | How to lift it |
| --- | --- | --- |
| HTTP exchange | 30 s | `with_timeout(None)` |
| HTTP request and response body | 16 MiB each | `with_limits(.., 0, 0)` |
| WebSocket connect | 30 s | `TungsteniteWsConnector::with_limits` |
| WebSocket frame and message | 4 MiB | a frame limit of zero |

What is over a limit is refused whole with `TransportError::PayloadTooLarge`; nothing is ever
cut short.

## What is proved

Each function states what it returns for every input. The functions named `law_…` state what
holds across functions: that redacted text never depends on a secret, that a body within its
limit is delivered whole and the first chunk over it ends the exchange, that status 429 alone is
a rate limit, that control messages are invisible to readers of frames, that a pool never
outgrows its bounds and a failed checkout leaves no trace, that the mock returns what was last
set.

What is trusted of outside crates stands in `client`, `socket`, `payload`, `url`, `io`,
`retry_after`, `time` and `text`, each with a comment that names the outside function.
