# c_ward

The computations behind a C library written in Rust, proved with Verus.

- `src/` is the verified library. Each module states its functions over a
  mathematical model (sequences of bytes, integers) and proves
  them: memory and string routines (`mem`), character classes (`ctype`), the
  environment (`env`), `fork` handlers (`fork`), byte-string splitting and
  number parsing (`text`), the `passwd`/`group` records that `getent` prints
  (`nss`), time conversions over the `tz` crate (`time`), error messages
  (`errno`), system queries (`sys`), file-system requests and replies
  (`files`), `getaddrinfo` (`resolve`), random numbers (`rand48`), text that
  is printed or copied out (`cformat`) and the `utmpx` searches (`utmp`).
  Calls into outside crates stand behind small trusted functions whose
  contracts say what the crates document.
- `app/` holds the C entry points: they read C arguments, make the system
  calls and hand plain values to the library.
- `tests/` runs the library on concrete values.
