# imbh_c

The logic of a panic-safe C ABI over the IMBH observability database, written in Verus.

A C or C++ host opens a database, ingests OTLP, and runs SQL, typed queries, PromQL, LogQL or
TraceQL; results come back as an Arrow C stream or as Arrow-IPC bytes. Every call returns a code, and
every failure leaves a message.

## Layout

| Path | What |
|------|------|
| `src/` | the library: argument reading, options, query builders, result batches, error reporting, and one function per entry point |
| `app/` | the `extern "C"` surface: raw pointers, the thread-local message, the panic guard, and the calls into the engine |
| `tests/` | the library driven over a small in-memory engine, with the real Arrow linked |

## How it is put together

- A pointer that may be null is an `Option`; a C string is the bytes before its NUL; an out-parameter
  is an `Option<&mut _>`.
- What the engine does in a call comes in as a closure. The contract of an entry point says what the
  closure is handed and what is reported for each of its replies.
- `error.rs` maps every outcome to a code and a message; `guard` adds panics.
- `columnar.rs` and `arrow_stream.rs` hold the only calls into Arrow, each behind a small function
  whose contract is stated over named columns and cells. `db.rs` holds the one call into Tokio.
- Properties that span several functions are public proof functions at the end of the module that
  they speak of.
