# presage

The logic of a Signal client, written in Verus: what every function does is stated in its
contract and proved.

- `src/` is the library. It holds the model of contacts, groups, calls and chat folders
  (`model`), the rules by which a client receives, saves and sends messages and keeps its
  storage records in step with its other devices (`manager`), the conversion of backups
  (`backup`), the byte-exact editing of storage records (`storage_record` over `wire`), and
  what a store computes (`store`, `sqlite`).
- `tests/` runs the library on concrete values.
- `app/` is ordinary Rust around it: the connections to the Signal service, the traits that a
  store implements, and the conversions between libsignal's types and the library's.

The library does no input or output. Where an operation alternates between decisions and outside
work, it is a state machine here: `manager::storage::UpdateState`, `manager::receive::ReceiveState`
and `manager::import::ImportState` say what to do next, and `app/` does it.

Proof functions whose names begin with `law_` state what holds of several operations together.
