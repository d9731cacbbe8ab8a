# parachains_runtime

A verified core of two relay-chain runtime components:

- `src/initializer.rs` — the parachains initializer: the order in which the
  parachains modules are initialized and finalized, buffering of session
  changes until the end of the block (the genesis session is applied at once),
  the random seed and configurations handed to the modules at a session
  change, and the forced-approval call.
- `src/xcm_weights.rs` — weighing of XCM instructions on Westend: assets are
  classified as the native currency or unknown, and instruction weights are
  saturating sums of per-asset benchmark weights.
- `src/primitives.rs` — the plain types they share.

`app/` holds the runtime glue that Verus does not check: the storage encoding
of buffered session changes and a driver that calls the other parachains
modules in the order the library decides.
