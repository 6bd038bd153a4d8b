# seccomp

Building and enforcing SECCOMP filters with libseccomp, with the logic proved
in Verus.

- `src/` is the verified library: action codes (`action`), filter attributes
  (`attribute`), the values exchanged with libseccomp (`raw`), syscalls and
  their resolution (`syscall`), the filter's operations (`filter`) and decimal
  rendering (`text`). An operation that makes one libseccomp call takes it as
  a closure, hands it exactly the values libseccomp is to receive, and its
  contract says what comes back for whatever the call answers. Where calls
  and decisions alternate (resolving a name, the notifier's setup, loading),
  the library gives the next step and takes each answer in turn.
- `app/` links libseccomp: the FFI declarations, the closures that make the
  calls, the loops that run the steps, the `Notifier` trait, and the standard traits (`Display`, `Error`)
  of the types users see.
- `tests/` runs the library with stand-ins for libseccomp.
