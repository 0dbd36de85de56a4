# omni-sense-core

Core shared types of the OMNI-SENSE sensor stack.

- `src/` is the verified library (Verus): dual timestamps and their
  arithmetic, alignment and order, the monotonic clock they are read from, and
  the laws that relate them (`timestamp.rs`, `ordering.rs`); the modality,
  health and error types, with the error messages (`error.rs`); and the
  plain-valued sensor records (`traits/`).
- `app/` is ordinary Rust around it: the types that hold floating-point data
  (poses, detection events, range/velocity/IMU/acoustic/environmental records
  and the sensor traits), the process-wide clock behind `now()`, and
  serializable copies of the library's plain types with conversions both ways.
- `tests/` exercises the library on concrete values.
