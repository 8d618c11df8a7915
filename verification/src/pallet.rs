use vstd::prelude::*;
use crate::types::{
    AccountId, Attribute, AttributeView, BlockNumber, Moment, DidError, DispatchError, Environment,
    Error, Event, EventView, Origin, MAX_NAME_LEN, copy_bytes, copy_attribute, ensure_signed,
    error_of,
};
use crate::hashing::{attr_key, owner_id, get_hashed_key_for_attr, get_owner_id};
use crate::table::Table;

verus! {

/// The validity of an attribute: the block `valid_for` blocks after
/// `current_block`, or the last block number when no period is given.
pub open spec fn validity(valid_for: Option<BlockNumber>, current_block: BlockNumber) -> Result<
    BlockNumber,
    DidError,
> {
    match valid_for {
        None => Ok(BlockNumber::MAX),
        Some(blocks) => if current_block + blocks <= BlockNumber::MAX {
            Ok((current_block + blocks) as BlockNumber)
        } else {
            Err(DidError::MaxBlockNumberExceeded)
        },
    }
}

/// The registry's storage as mathematical maps.
#[verifier::ext_equal]
pub struct PalletView {
    /// The attribute store: storage key to attribute.
    pub attributes: Map<Seq<u8>, AttributeView>,
    /// The owner store: (owner, owner id) to DID account.
    pub owners: Map<(Seq<u8>, Seq<u8>), Seq<u8>>,
}

impl PalletView {
    /// The registry with no attributes and no owners.
    pub open spec fn empty() -> PalletView {
        PalletView { attributes: Map::empty(), owners: Map::empty() }
    }

    /// The owner store holds `owner` under the owner id `id`.
    pub open spec fn owns(self, owner: Seq<u8>, id: Seq<u8>) -> bool {
        self.owners.contains_key((owner, id))
    }

    /// `owner` owns `did_account`.
    pub open spec fn is_owner(self, owner: Seq<u8>, did_account: Seq<u8>) -> bool {
        self.owns(owner, owner_id(owner, did_account))
    }

    /// The attribute stored under `key`.
    pub open spec fn lookup(self, key: Seq<u8>) -> Option<AttributeView> {
        if self.attributes.contains_key(key) {
            Some(self.attributes[key])
        } else {
            None
        }
    }

    /// The attribute `name` of `did_account`.
    pub open spec fn read(self, did_account: Seq<u8>, name: Seq<u8>) -> Option<AttributeView> {
        self.lookup(attr_key(did_account, name))
    }

    /// Creating an attribute under the storage key `key`, with `id` the owner
    /// id of `owner` and `did_account`.
    pub open spec fn create_keyed(
        self,
        key: Seq<u8>,
        id: Seq<u8>,
        owner: Seq<u8>,
        did_account: Seq<u8>,
        name: Seq<u8>,
        value: Seq<u8>,
        valid_for: Option<BlockNumber>,
        env: Environment,
    ) -> Result<PalletView, DidError> {
        if self.attributes.contains_key(key) {
            Err(DidError::AlreadyExist)
        } else {
            match validity(valid_for, env.block_number) {
                Ok(v) => Ok(
                    PalletView {
                        attributes: self.attributes.insert(
                            key,
                            AttributeView { name, value, validity: v, created: env.now },
                        ),
                        owners: self.owners.insert((owner, id), did_account),
                    },
                ),
                Err(e) => Err(e),
            }
        }
    }

    /// `owner` creating the attribute `name` of `did_account`.
    pub open spec fn create(
        self,
        owner: Seq<u8>,
        did_account: Seq<u8>,
        name: Seq<u8>,
        value: Seq<u8>,
        valid_for: Option<BlockNumber>,
        env: Environment,
    ) -> Result<PalletView, DidError> {
        self.create_keyed(
            attr_key(did_account, name),
            owner_id(owner, did_account),
            owner,
            did_account,
            name,
            value,
            valid_for,
            env,
        )
    }

    /// Updating the attribute under `key`, with `id` the owner id of `owner`
    /// and the DID account.
    pub open spec fn update_keyed(
        self,
        key: Seq<u8>,
        id: Seq<u8>,
        owner: Seq<u8>,
        value: Seq<u8>,
        valid_for: Option<BlockNumber>,
        env: Environment,
    ) -> Result<PalletView, DidError> {
        if !self.owns(owner, id) {
            Err(DidError::AuthorizationFailed)
        } else {
            match validity(valid_for, env.block_number) {
                Err(e) => Err(e),
                Ok(v) => if self.attributes.contains_key(key) {
                    Ok(
                        PalletView {
                            attributes: self.attributes.insert(
                                key,
                                AttributeView { value, validity: v, ..self.attributes[key] },
                            ),
                            owners: self.owners,
                        },
                    )
                } else {
                    Err(DidError::NotFound)
                },
            }
        }
    }

    /// `owner` updating the attribute `name` of `did_account`.
    pub open spec fn update(
        self,
        owner: Seq<u8>,
        did_account: Seq<u8>,
        name: Seq<u8>,
        value: Seq<u8>,
        valid_for: Option<BlockNumber>,
        env: Environment,
    ) -> Result<PalletView, DidError> {
        self.update_keyed(
            attr_key(did_account, name),
            owner_id(owner, did_account),
            owner,
            value,
            valid_for,
            env,
        )
    }

    /// Deleting the attribute under `key`, with `id` the owner id of `owner`
    /// and the DID account.
    pub open spec fn delete_keyed(self, key: Seq<u8>, id: Seq<u8>, owner: Seq<u8>) -> Result<
        PalletView,
        DidError,
    > {
        if !self.owns(owner, id) {
            Err(DidError::AuthorizationFailed)
        } else if !self.attributes.contains_key(key) {
            Err(DidError::NotFound)
        } else {
            Ok(PalletView { attributes: self.attributes.remove(key), owners: self.owners })
        }
    }

    /// `owner` deleting the attribute `name` of `did_account`.
    pub open spec fn delete(self, owner: Seq<u8>, did_account: Seq<u8>, name: Seq<u8>) -> Result<
        PalletView,
        DidError,
    > {
        self.delete_keyed(attr_key(did_account, name), owner_id(owner, did_account), owner)
    }

    /// The call `add_attribute`: the new registry and the event it reports.
    pub open spec fn add_attribute(
        self,
        origin: Origin,
        env: Environment,
        did_account: Seq<u8>,
        name: Seq<u8>,
        value: Seq<u8>,
        valid_for: Option<BlockNumber>,
    ) -> Result<(PalletView, EventView), DispatchError> {
        match origin {
            Origin::Signed(sender) => if name.len() > MAX_NAME_LEN {
                Err(DispatchError::Module(Error::AttributeNameExceedMax64))
            } else {
                match self.create(sender@, did_account, name, value, valid_for, env) {
                    Ok(p) => Ok(
                        (p, EventView::AttributeAdded(sender@, did_account, name, value, valid_for)),
                    ),
                    Err(e) => Err(DispatchError::Module(error_of(e))),
                }
            },
            _ => Err(DispatchError::BadOrigin),
        }
    }

    /// The call `update_attribute`: the new registry and the event it reports.
    pub open spec fn update_attribute(
        self,
        origin: Origin,
        env: Environment,
        did_account: Seq<u8>,
        name: Seq<u8>,
        value: Seq<u8>,
        valid_for: Option<BlockNumber>,
    ) -> Result<(PalletView, EventView), DispatchError> {
        match origin {
            Origin::Signed(sender) => if name.len() > MAX_NAME_LEN {
                Err(DispatchError::Module(Error::AttributeNameExceedMax64))
            } else {
                match self.update(sender@, did_account, name, value, valid_for, env) {
                    Ok(p) => Ok(
                        (
                            p,
                            EventView::AttributeUpdated(
                                sender@,
                                did_account,
                                name,
                                value,
                                valid_for,
                            ),
                        ),
                    ),
                    Err(e) => Err(DispatchError::Module(error_of(e))),
                }
            },
            _ => Err(DispatchError::BadOrigin),
        }
    }

    /// The call `read_attribute`: the event it reports.
    pub open spec fn read_attribute(self, origin: Origin, did_account: Seq<u8>, name: Seq<u8>) -> Result<
        EventView,
        DispatchError,
    > {
        match origin {
            Origin::Signed(_) => match self.read(did_account, name) {
                Some(a) => Ok(EventView::AttributeRead(a)),
                None => Err(DispatchError::Module(Error::AttributeNotFound)),
            },
            _ => Err(DispatchError::BadOrigin),
        }
    }

    /// The call `remove_attribute`: the new registry and the event it reports.
    pub open spec fn remove_attribute(
        self,
        origin: Origin,
        did_account: Seq<u8>,
        name: Seq<u8>,
    ) -> Result<(PalletView, EventView), DispatchError> {
        match origin {
            Origin::Signed(sender) => if name.len() > MAX_NAME_LEN {
                Err(DispatchError::Module(Error::AttributeNameExceedMax64))
            } else {
                match self.delete(sender@, did_account, name) {
                    Ok(p) => Ok((p, EventView::AttributeRemoved(sender@, did_account, name))),
                    Err(e) => Err(DispatchError::Module(error_of(e))),
                }
            },
            _ => Err(DispatchError::BadOrigin),
        }
    }
}

/// The registry: its attribute store and its owner store.
pub struct Pallet {
    attribute_store: Table<[u8; 32], Attribute>,
    owner_store: Table<(AccountId, [u8; 32]), AccountId>,
}

impl View for Pallet {
    type V = PalletView;

    closed spec fn view(&self) -> PalletView {
        PalletView { attributes: self.attribute_store@, owners: self.owner_store@ }
    }
}

impl Pallet {
    /// An empty registry.
    pub fn new() -> (p: Pallet)
        ensures
            p@ == PalletView::empty(),
    {
        Pallet { attribute_store: Table::new(), owner_store: Table::new() }
    }

    /// The last block at which an attribute is valid: `valid_for` blocks after
    /// `current_block`, or the last block number when `valid_for` is `None`;
    /// `MaxBlockNumberExceeded` when that block is past the last block number.
    pub fn validate_block_number(valid_for: Option<BlockNumber>, current_block: BlockNumber) -> (r:
        Result<BlockNumber, DidError>)
        ensures
            r == validity(valid_for, current_block),
            valid_for is None ==> r == Ok::<BlockNumber, DidError>(BlockNumber::MAX),
            valid_for matches Some(b) ==> (if current_block + b <= BlockNumber::MAX {
                r is Ok && r->Ok_0 == current_block + b
            } else {
                r == Err::<BlockNumber, DidError>(DidError::MaxBlockNumberExceeded)
            }),
    {
        let max_block: BlockNumber = BlockNumber::MAX;
        let validity: BlockNumber = match valid_for {
            Some(blocks) => {
                let new_added_validity = current_block.checked_add(blocks);
                match new_added_validity {
                    Some(v) => v,
                    None => return Err(DidError::MaxBlockNumberExceeded),
                }
            },
            None => max_block,
        };
        Ok(validity)
    }

    /// `Ok` when the owner store holds `owner` under the owner id `id`,
    /// `AuthorizationFailed` otherwise.
    pub fn is_owner_with_id(&self, owner: &AccountId, id: &[u8; 32]) -> (r: Result<(), DidError>)
        ensures
            r == (if self@.owns(owner@, id@) {
                Ok::<(), DidError>(())
            } else {
                Err(DidError::AuthorizationFailed)
            }),
    {
        if !self.owner_store.contains_key(&(*owner, *id)) {
            return Err(DidError::AuthorizationFailed);
        }
        Ok(())
    }

    /// `Ok` when `owner` owns `did_account`, `AuthorizationFailed` otherwise.
    pub fn is_owner(&self, owner: &AccountId, did_account: &AccountId) -> (r: Result<(), DidError>)
        ensures
            r == (if self@.is_owner(owner@, did_account@) {
                Ok::<(), DidError>(())
            } else {
                Err(DidError::AuthorizationFailed)
            }),
    {
        let id = get_owner_id(owner, did_account);
        self.is_owner_with_id(owner, &id)
    }

    /// The attribute stored under `key`.
    pub fn read_with_key(&self, key: &[u8; 32]) -> (r: Option<Attribute>)
        ensures
            match r {
                Some(a) => self@.lookup(key@) == Some(a@),
                None => self@.lookup(key@) is None,
            },
    {
        match self.attribute_store.get(key) {
            Some(a) => Some(copy_attribute(a)),
            None => None,
        }
    }

    /// The attribute `name` of `did_account`.
    pub fn read(&self, did_account: &AccountId, name: &[u8]) -> (r: Option<Attribute>)
        ensures
            match r {
                Some(a) => self@.read(did_account@, name@) == Some(a@),
                None => self@.read(did_account@, name@) is None,
            },
    {
        let id = get_hashed_key_for_attr(did_account, name);
        self.read_with_key(&id)
    }

    /// Creates an attribute under the storage key `key`, with `id` the owner
    /// id of `owner` and `did_account`.
    pub fn create_with_keys(
        &mut self,
        key: [u8; 32],
        id: [u8; 32],
        owner: &AccountId,
        did_account: &AccountId,
        name: &[u8],
        value: &[u8],
        valid_for: Option<BlockNumber>,
        env: Environment,
    ) -> (r: Result<(), DidError>)
        ensures
            match old(self)@.create_keyed(
                key@,
                id@,
                owner@,
                did_account@,
                name@,
                value@,
                valid_for,
                env,
            ) {
                Ok(p) => r is Ok && final(self)@ == p,
                Err(e) => r == Err::<(), DidError>(e) && final(self)@ == old(self)@,
            },
    {
        if self.attribute_store.contains_key(&key) {
            return Err(DidError::AlreadyExist);
        }
        let now_timestamp: Moment = env.now;
        let validity: BlockNumber = match Self::validate_block_number(valid_for, env.block_number) {
            Ok(validity) => validity,
            Err(e) => return Err(e),
        };
        let new_attribute = Attribute {
            name: copy_bytes(name),
            value: copy_bytes(value),
            validity,
            created: now_timestamp,
        };
        self.attribute_store.insert(key, new_attribute);
        self.owner_store.insert((*owner, id), *did_account);
        Ok(())
    }

    /// `owner` creates the attribute `name` of `did_account`, and becomes an
    /// owner of `did_account`.
    pub fn create(
        &mut self,
        owner: &AccountId,
        did_account: &AccountId,
        name: &[u8],
        value: &[u8],
        valid_for: Option<BlockNumber>,
        env: Environment,
    ) -> (r: Result<(), DidError>)
        ensures
            match old(self)@.create(owner@, did_account@, name@, value@, valid_for, env) {
                Ok(p) => r is Ok && final(self)@ == p,
                Err(e) => r == Err::<(), DidError>(e) && final(self)@ == old(self)@,
            },
    {
        let key = get_hashed_key_for_attr(did_account, name);
        let id = get_owner_id(owner, did_account);
        self.create_with_keys(key, id, owner, did_account, name, value, valid_for, env)
    }

    /// Updates the value and validity of the attribute under `key`, with `id`
    /// the owner id of `owner` and the DID account.
    pub fn update_with_keys(
        &mut self,
        key: [u8; 32],
        id: [u8; 32],
        owner: &AccountId,
        value: &[u8],
        valid_for: Option<BlockNumber>,
        env: Environment,
    ) -> (r: Result<(), DidError>)
        ensures
            match old(self)@.update_keyed(key@, id@, owner@, value@, valid_for, env) {
                Ok(p) => r is Ok && final(self)@ == p,
                Err(e) => r == Err::<(), DidError>(e) && final(self)@ == old(self)@,
            },
    {
        match self.is_owner_with_id(owner, &id) {
            Ok(()) => {},
            Err(e) => return Err(e),
        }
        let validity: BlockNumber = match Self::validate_block_number(valid_for, env.block_number) {
            Ok(validity) => validity,
            Err(e) => return Err(e),
        };
        let attribute = self.read_with_key(&key);
        match attribute {
            Some(mut attr) => {
                attr.value = copy_bytes(value);
                attr.validity = validity;
                self.attribute_store.insert(key, attr);
                Ok(())
            },
            None => Err(DidError::NotFound),
        }
    }

    /// `owner` updates the value and validity of the attribute `name` of
    /// `did_account`.
    pub fn update(
        &mut self,
        owner: &AccountId,
        did_account: &AccountId,
        name: &[u8],
        value: &[u8],
        valid_for: Option<BlockNumber>,
        env: Environment,
    ) -> (r: Result<(), DidError>)
        ensures
            match old(self)@.update(owner@, did_account@, name@, value@, valid_for, env) {
                Ok(p) => r is Ok && final(self)@ == p,
                Err(e) => r == Err::<(), DidError>(e) && final(self)@ == old(self)@,
            },
    {
        let id = get_owner_id(owner, did_account);
        let key = get_hashed_key_for_attr(did_account, name);
        self.update_with_keys(key, id, owner, value, valid_for, env)
    }

    /// Deletes the attribute under `key`, with `id` the owner id of `owner`
    /// and the DID account.
    pub fn delete_with_keys(&mut self, key: [u8; 32], id: [u8; 32], owner: &AccountId) -> (r:
        Result<(), DidError>)
        ensures
            match old(self)@.delete_keyed(key@, id@, owner@) {
                Ok(p) => r is Ok && final(self)@ == p,
                Err(e) => r == Err::<(), DidError>(e) && final(self)@ == old(self)@,
            },
    {
        match self.is_owner_with_id(owner, &id) {
            Ok(()) => {},
            Err(e) => return Err(e),
        }
        if !self.attribute_store.contains_key(&key) {
            return Err(DidError::NotFound);
        }
        self.attribute_store.remove(&key);
        Ok(())
    }

    /// `owner` deletes the attribute `name` of `did_account`.
    pub fn delete(&mut self, owner: &AccountId, did_account: &AccountId, name: &[u8]) -> (r: Result<
        (),
        DidError,
    >)
        ensures
            match old(self)@.delete(owner@, did_account@, name@) {
                Ok(p) => r is Ok && final(self)@ == p,
                Err(e) => r == Err::<(), DidError>(e) && final(self)@ == old(self)@,
            },
    {
        let id = get_owner_id(owner, did_account);
        let key = get_hashed_key_for_attr(did_account, name);
        self.delete_with_keys(key, id, owner)
    }

    /// Adds the attribute `name` with `value` to `did_account`, valid for
    /// `valid_for` blocks from now (or for ever), on behalf of the signer.
    pub fn add_attribute(
        &mut self,
        origin: Origin,
        env: Environment,
        did_account: AccountId,
        name: Vec<u8>,
        value: Vec<u8>,
        valid_for: Option<BlockNumber>,
    ) -> (r: Result<Event, DispatchError>)
        ensures
            match old(self)@.add_attribute(origin, env, did_account@, name@, value@, valid_for) {
                Ok((p, ev)) => r matches Ok(e) && e@ == ev && final(self)@ == p,
                Err(err) => r == Err::<Event, DispatchError>(err) && final(self)@ == old(self)@,
            },
    {
        let sender = match ensure_signed(origin) {
            Ok(sender) => sender,
            Err(e) => return Err(e),
        };
        if !(name.len() <= MAX_NAME_LEN) {
            return Err(DispatchError::Module(Error::AttributeNameExceedMax64));
        }
        match self.create(&sender, &did_account, name.as_slice(), value.as_slice(), valid_for, env) {
            Ok(()) => Ok(Event::AttributeAdded(sender, did_account, name, value, valid_for)),
            Err(e) => Err(Error::dispatch_error(e)),
        }
    }

    /// Updates the value and validity of the attribute `name` of
    /// `did_account`, on behalf of the signer.
    pub fn update_attribute(
        &mut self,
        origin: Origin,
        env: Environment,
        did_account: AccountId,
        name: Vec<u8>,
        value: Vec<u8>,
        valid_for: Option<BlockNumber>,
    ) -> (r: Result<Event, DispatchError>)
        ensures
            match old(self)@.update_attribute(origin, env, did_account@, name@, value@, valid_for) {
                Ok((p, ev)) => r matches Ok(e) && e@ == ev && final(self)@ == p,
                Err(err) => r == Err::<Event, DispatchError>(err) && final(self)@ == old(self)@,
            },
    {
        let sender = match ensure_signed(origin) {
            Ok(sender) => sender,
            Err(e) => return Err(e),
        };
        if !(name.len() <= MAX_NAME_LEN) {
            return Err(DispatchError::Module(Error::AttributeNameExceedMax64));
        }
        match self.update(&sender, &did_account, name.as_slice(), value.as_slice(), valid_for, env) {
            Ok(()) => Ok(Event::AttributeUpdated(sender, did_account, name, value, valid_for)),
            Err(e) => Err(Error::dispatch_error(e)),
        }
    }

    /// Reads the attribute `name` of `did_account` for a signed caller.
    pub fn read_attribute(&self, origin: Origin, did_account: AccountId, name: Vec<u8>) -> (r:
        Result<Event, DispatchError>)
        ensures
            match self@.read_attribute(origin, did_account@, name@) {
                Ok(ev) => r matches Ok(e) && e@ == ev,
                Err(err) => r == Err::<Event, DispatchError>(err),
            },
    {
        match ensure_signed(origin) {
            Ok(_) => {},
            Err(e) => return Err(e),
        }
        let attribute = self.read(&did_account, name.as_slice());
        match attribute {
            Some(attribute) => Ok(Event::AttributeRead(attribute)),
            None => Err(DispatchError::Module(Error::AttributeNotFound)),
        }
    }

    /// Removes the attribute `name` of `did_account` on behalf of the signer.
    pub fn remove_attribute(&mut self, origin: Origin, did_account: AccountId, name: Vec<u8>) -> (r:
        Result<Event, DispatchError>)
        ensures
            match old(self)@.remove_attribute(origin, did_account@, name@) {
                Ok((p, ev)) => r matches Ok(e) && e@ == ev && final(self)@ == p,
                Err(err) => r == Err::<Event, DispatchError>(err) && final(self)@ == old(self)@,
            },
    {
        let sender = match ensure_signed(origin) {
            Ok(sender) => sender,
            Err(e) => return Err(e),
        };
        if !(name.len() <= MAX_NAME_LEN) {
            return Err(DispatchError::Module(Error::AttributeNameExceedMax64));
        }
        match self.delete(&sender, &did_account, name.as_slice()) {
            Ok(()) => Ok(Event::AttributeRemoved(sender, did_account, name)),
            Err(e) => Err(Error::dispatch_error(e)),
        }
    }
}

} // verus!
