# poe_node

A proof-of-existence registry: accounts record the digest of a document (a claim), revoke it,
or hand it on to another account. The registry and the start-up decisions of the node that
hosts it are verified with Verus.

- `src/claim.rs`: claims, held in `frame_support`'s `BoundedVec` (at most `MAX_CLAIM_LENGTH` bytes).
- `src/store.rs`: the records, a map from the bytes of a claim to its owner and block.
- `src/pallet.rs`: the dispatchable calls `create_claim`, `revoke_claim`, `transfer_claim`, the
  effects (record change and event) that each decides on, their
  decisions, errors and events.
- `src/laws.rs`: properties of the registry and of the node's start-up, proved.
- `src/service.rs`: which services the node starts, decided from its configuration.
- `app/`: the FRAME pallet that keeps the records in runtime storage, and the node service that
  builds and spawns the Substrate components; both take their decisions from the library.
