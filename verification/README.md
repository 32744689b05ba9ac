# bass_rs

Rust bindings to the [BASS](https://un4seen.com/bass.html) audio library, over
`bass-sys`, with the library's own logic verified by Verus.

- `src/` is the verified library: BASS error codes and their round trips, channel
  states and attributes, the packing of 16-bit halves, the decoding of the raw
  answers of BASS calls into `Result`s, the arguments handed to BASS (flags, BOOLs,
  configuration lists, nul-terminated UTF-16 paths and plugin names), the steps of
  freeing every device, the channel operations, the peak levels and the channel
  lists that BASS answers with, the effect each equaliser band is set through,
  and the handle types (streams, samples, music, plugins, syncs, DSP functions)
  with their `free`/`remove` methods. `src/sys.rs`
  holds the calls into `bass-sys` that the verified code makes.
- `app/` holds what hands BASS raw pointers or floating-point values, or keeps Rust
  closures alive behind C callbacks: initialisation, loading files and memory,
  attributes, levels, syncs, DSP functions, download functions and the equaliser.
  Each of its functions makes its call and hands the raw answer to `src/`.
  `app::owned::Owned` frees a handle when it is dropped.
- `tests/` runs the verified logic on concrete values. BASS itself is not loaded
  there, so no test makes a BASS call.
