# heed

LMDB environments: opening them once per path, sharing their handles, typing their databases,
measuring them and closing them in two phases.

- `src/` decides. It holds the list of opened environments, the plan of LMDB calls that opens
  one, the types of the opened databases, the walk that measures an environment and the other
  operations of an environment, each with a contract. `src/laws.rs`, `src/walks.rs` and
  the functions named `law_..` elsewhere state what holds over several calls.
- `app/` acts. It makes the calls into LMDB and the operating system that `src/` asks for, and
  hands the replies back.
- `tests/` runs `src/` against an LMDB that lives in memory.

An operation that needs LMDB comes in two halves: a method that says which call to make, and a
method of what it returns that takes the call's return code and says what came of it.
