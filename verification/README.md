# libcitadel

The system library of the Citadel desktop: kernel command line and
os-release variables, signed resource and RealmFS images, root filesystem
partitions, realms (their configuration, networking, systemd units and
start order), RealmFS activation and resizing, the sealed keyring, and
terminal colour schemes.

- `src/` is the library, written in Verus. Its own functions carry
  contracts that Verus proves, and the laws that relate functions are
  proof functions named `law_*`. The calls into outside crates (ring,
  sodiumoxide, rustc-serialize, hex, byteorder) and two `String` methods
  go through small wrappers marked `#[verifier::external_body]`, whose
  contracts are believed rather than proved; each says in its doc comment
  what it claims of the function it calls.
- `tests/` runs the library on concrete values.
- `app/` holds what the library leaves to its caller: reading and writing
  files, running programs, terminals, kernel keys and the realm event
  thread.
