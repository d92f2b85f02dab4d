# k4rust

A kdb+ (`k.h`) binding for Rust, in two parts.

- `src/` is the verified library (Verus): the type codes and sentinel values
  of the q data model (`types`), decimal text (`decimal`), the null-safe
  reading, `Debug` text and deep-copy plan of a q object read as plain values
  (`object`), the interned error texts behind `krr` (`errors`), and the
  decisions of the IPC client: accepting a connect handle, routing a query
  by arity, closing on drop (`ipc`). `std_text` holds the two calls into std
  whose contracts are trusted.
- `app/` is ordinary Rust around it: the `extern "C"` bindings to the kdb+ C
  library, the owned handle `K` with its reference counting and raw slices,
  the C-style free functions, the RAII `IpcClient` and the `k4rust_api!`
  export macro. Real and float values are handled there too.
