# swdk

A Rust layer over the Windows Driver Framework (KMDF): typed handles to
framework objects, builders of the framework's descriptors, the values that
the framework exchanges, and the helpers that drivers use for status codes,
hexadecimal parsing and timestamped logging.

## Layout

- `src/` is the library, verified with Verus. It runs on its own runtime
  (`rt::wdk_sys`), a model of the WDF bindings in which addresses are plain
  integers (`Addr`) and framework objects are opaque values. Every function
  there states what it returns in its contract:
  - `rt::utils`, `rt::logging`: hexadecimal parsing, status conversion,
    source-location trimming, and the conversion of a kernel system time to
    a UTC date, with the calendar laws it rests on.
  - `wdf::builders`, `wdf::descriptors`, `wdf::ioctl`: configurations and
    buffers, and the framework descriptors that they build.
  - `wdf::values`: the framework's enumerations and their numeric values.
  - `wdf::handle`: handles, the emulated framework operations, and the
    decisions that the kernel calls lead to (what a creation call ends in,
    whether an I/O target takes an IOCTL, what a failed IOCTL reports).
- `app/` is the kernel side, ordinary Rust: the calls into KMDF through
  `wdk-sys`, conversions between the library's descriptors and the native
  ones, raw-pointer views of buffers, reading the system clock, and the
  logging and status macros.
- `tests/` runs the library on concrete values.
