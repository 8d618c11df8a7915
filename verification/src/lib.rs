//! A registry of decentralised-identifier (DID) attributes.
//!
//! Every DID account carries named attributes. Each attribute is stored under
//! the BLAKE2-256 digest of the SCALE encoding of the DID account followed by
//! the attribute's name, and records its value, the last block at which it is
//! valid and the moment it was created. Whoever adds an attribute to a DID
//! becomes an owner of that DID and may then update or remove its attributes.
//!
//! The registry is verified against the mathematical model in [`PalletView`]:
//! each operation is specified by the model operation of the same name.

pub mod types;
pub mod hashing;
pub mod table;
pub mod pallet;
pub mod laws;

pub use types::{
    AccountId, Attribute, AttributeView, BlockNumber, DidError, DispatchError, Environment, Error,
    Event, EventView, Moment, Origin, MAX_NAME_LEN, ensure_signed,
};
pub use hashing::{get_hashed_key_for_attr, get_owner_id};
pub use pallet::{Pallet, PalletView};
