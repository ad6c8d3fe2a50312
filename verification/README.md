# omwei

A verified library for two parts of the OMWEI platform:

- **The execution integrity boundary** (`src/boundary/`): claims to change a
  system state are evaluated by a typed predicate over a deterministic
  observation closure, routed by the verification path bit of the claim's
  primary atom, and either rejected with the state untouched or applied with
  a hash-identified accountability record. Contracts describe every answer
  of `process_transition` and the resulting state; `laws.rs` proves the
  properties of the boundary as a whole (decisions determined by the closure,
  the closure hash independent of the evaluation time, state changes only on
  approval, extended-path claims deferred).
- **The semantic engine and its hardware drivers**: 256-bit atoms, triple
  stores and the predicate search split over worker harts
  (`src/semantic/`), the register plans of the interrupt controller, the
  random number generator, the comparator and the UARTs (`src/registers/`,
  `src/interrupts/`, `src/crypto/`, `src/uart.rs`), a spinlock and counter
  (`src/sync.rs`) and the kernel's decisions (`src/kernel.rs`).

Drivers do not touch memory-mapped registers themselves: they return the
writes to perform (`RegWrite`) and take the values read as arguments, so
that their behaviour is stated exactly. `app/` performs the accesses, runs
the demonstration of the boundary and holds the kernel loop.

Three functions are trusted rather than proved; each is a single call:

- `hashing::sha256`: SHA-256 from the `sha2` crate, named `sha256_spec`;
- `boundary::model::string_debug_text`: `format!("{:?}")` of a `String`
  (quoting and escaping), named `str_debug`; the rest of the `Debug`
  rendering of transitions is verified;
- `text::push_char`: `String::push`.

The observation closure encoding frames every string with its length and
every list with its count, so that it determines the closure it encodes:
its hash therefore differs from a hash of the bare concatenated fields, and `boundary::laws::law_closure_encoding_injective` proves that
equal closure encodings mean equal observations. Maps are kept in key
order, so the state hash depends only on the state's content
(`law_state_hash_canonical`).
