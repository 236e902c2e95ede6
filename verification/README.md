# builder_api_client

`AllowStdIo<T>` lets a blocking `std::io` object stand where an asynchronous
reader or writer is expected.

- `src/wrapper.rs`: the wrapper, its constructor and accessors, with contracts
  over `inner()`/`wrapping()` and the round-trip laws.
- `src/retry.rs`: what polling does after one attempt of a blocking call
  (retry an interrupted call, report anything else unchanged), and the laws
  over a run of attempts.
- `src/io_error.rs`: the same decision on `std::io::Result`, with the one
  trusted call to `std::io::Error::kind`.
- `app/lib.rs`: the `std::io`, `futures` and `tokio` trait impls, which make
  the blocking calls and drive the retry loop with the verified decision.
