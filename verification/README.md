# peaq-pallet-did

A verified registry of DID attributes. An account adds named attributes to a
DID account; each attribute is stored under the BLAKE2-256 digest of the DID
account's SCALE encoding followed by the attribute name, together with its
value, the last block at which it is valid and its creation time. Adding an
attribute makes the signer an owner of the DID; owners may update and remove
its attributes.

Layout:

- `src/types.rs` – accounts, origins, attributes, events, errors and the
  mapping of registry failures to call errors.
- `src/hashing.rs` – storage keys and owner ids, over `sp_core::blake2_256`
  and SCALE encoding.
- `src/table.rs` – a finite map with distinct keys, used for both stores.
- `src/pallet.rs` – the model `PalletView`, its operations, and the
  executable `Pallet` whose every call is specified by the model.
- `src/laws.rs` – properties of the model that span calls.
- `tests/` – scenarios on concrete values.
