//! Laws of the registry, stated over its model [`PalletView`].
use vstd::prelude::*;
use crate::types::{
    AccountId, AttributeView, BlockNumber, DidError, DispatchError, Environment, Error, EventView, Origin,
    MAX_NAME_LEN,
};
use crate::hashing::{attr_key, owner_id, blake2_256_digest};
use crate::pallet::{PalletView, validity};

verus! {

/// Adding an attribute succeeds exactly when the call is signed, the name is
/// at most 64 bytes long, the DID has no attribute of that name yet and the
/// validity period ends by the last block number; it then reports
/// `AttributeAdded` with the call's arguments.
pub proof fn lemma_add_succeeds_iff(
    p: PalletView,
    origin: Origin,
    env: Environment,
    did_account: Seq<u8>,
    name: Seq<u8>,
    value: Seq<u8>,
    valid_for: Option<BlockNumber>,
)
    ensures
        p.add_attribute(origin, env, did_account, name, value, valid_for) is Ok <==> {
            &&& origin is Signed
            &&& name.len() <= MAX_NAME_LEN
            &&& p.read(did_account, name) is None
            &&& validity(valid_for, env.block_number) is Ok
        },
        p.add_attribute(origin, env, did_account, name, value, valid_for) matches Ok((_, ev))
            ==> origin matches Origin::Signed(sender) && ev == EventView::AttributeAdded(
            sender@,
            did_account,
            name,
            value,
            valid_for,
        ),
{
}

/// What a successful `add_attribute` wrote is what `read` gives back: the
/// name, the value, the validity computed from the current block and the
/// current moment as creation time.
pub proof fn lemma_read_after_add(
    p: PalletView,
    sender: AccountId,
    env: Environment,
    did_account: Seq<u8>,
    name: Seq<u8>,
    value: Seq<u8>,
    valid_for: Option<BlockNumber>,
)
    ensures
        p.add_attribute(Origin::Signed(sender), env, did_account, name, value, valid_for) matches Ok(
            (q, _),
        ) ==> validity(valid_for, env.block_number) matches Ok(v) && q.read(did_account, name)
            == Some(AttributeView { name, value, validity: v, created: env.now }),
{
}

/// Once an attribute has been added, adding it again fails with
/// `AttributeAlreadyExist`, whoever signs and whatever the value.
pub proof fn lemma_add_twice_fails(
    p: PalletView,
    sender: AccountId,
    env: Environment,
    did_account: Seq<u8>,
    name: Seq<u8>,
    value: Seq<u8>,
    valid_for: Option<BlockNumber>,
    other: AccountId,
    env2: Environment,
    value2: Seq<u8>,
    valid_for2: Option<BlockNumber>,
)
    ensures
        p.add_attribute(Origin::Signed(sender), env, did_account, name, value, valid_for) matches Ok(
            (q, _),
        ) ==> q.add_attribute(Origin::Signed(other), env2, did_account, name, value2, valid_for2)
            == Err::<(PalletView, EventView), DispatchError>(
            DispatchError::Module(Error::AttributeAlreadyExist),
        ),
{
}

/// The signer of a successful `add_attribute` owns the DID afterwards.
pub proof fn lemma_add_makes_owner(
    p: PalletView,
    sender: AccountId,
    env: Environment,
    did_account: Seq<u8>,
    name: Seq<u8>,
    value: Seq<u8>,
    valid_for: Option<BlockNumber>,
)
    ensures
        p.add_attribute(Origin::Signed(sender), env, did_account, name, value, valid_for) matches Ok(
            (q, _),
        ) ==> q.is_owner(sender@, did_account),
{
}

/// An owner's update of an existing attribute succeeds exactly when the new
/// validity period ends by the last block number; `read` then gives the new
/// value and validity, with the name and the creation time unchanged.
pub proof fn lemma_update_effect(
    p: PalletView,
    sender: AccountId,
    env: Environment,
    did_account: Seq<u8>,
    name: Seq<u8>,
    value: Seq<u8>,
    valid_for: Option<BlockNumber>,
)
    requires
        p.is_owner(sender@, did_account),
        p.read(did_account, name) is Some,
        name.len() <= MAX_NAME_LEN,
    ensures
        p.update_attribute(Origin::Signed(sender), env, did_account, name, value, valid_for) is Ok
            <==> validity(valid_for, env.block_number) is Ok,
        p.update_attribute(Origin::Signed(sender), env, did_account, name, value, valid_for) matches Ok(
            (q, ev),
        ) ==> {
            &&& validity(valid_for, env.block_number) matches Ok(v)
            &&& q.read(did_account, name) == Some(
                AttributeView { value, validity: v, ..p.read(did_account, name)->0 },
            )
            &&& ev == EventView::AttributeUpdated(sender@, did_account, name, value, valid_for)
        },
{
}

/// After a successful `add_attribute`, its signer can update the attribute
/// and then reads the new value, with the name and creation time of the add.
pub proof fn lemma_update_after_add(
    p: PalletView,
    sender: AccountId,
    env: Environment,
    did_account: Seq<u8>,
    name: Seq<u8>,
    value: Seq<u8>,
    valid_for: Option<BlockNumber>,
    env2: Environment,
    value2: Seq<u8>,
    valid_for2: Option<BlockNumber>,
)
    ensures
        p.add_attribute(Origin::Signed(sender), env, did_account, name, value, valid_for) matches Ok(
            (q, _),
        ) ==> {
            &&& q.update_attribute(
                Origin::Signed(sender),
                env2,
                did_account,
                name,
                value2,
                valid_for2,
            ) is Ok <==> validity(valid_for2, env2.block_number) is Ok
            &&& q.update_attribute(
                Origin::Signed(sender),
                env2,
                did_account,
                name,
                value2,
                valid_for2,
            ) matches Ok((r, _)) ==> validity(valid_for2, env2.block_number) matches Ok(v)
                && r.read(did_account, name) == Some(
                AttributeView { name, value: value2, validity: v, created: env.now },
            )
        },
{
}

/// After a successful `add_attribute`, its signer can remove the attribute,
/// and `read` then finds nothing.
pub proof fn lemma_remove_after_add(
    p: PalletView,
    sender: AccountId,
    env: Environment,
    did_account: Seq<u8>,
    name: Seq<u8>,
    value: Seq<u8>,
    valid_for: Option<BlockNumber>,
)
    ensures
        p.add_attribute(Origin::Signed(sender), env, did_account, name, value, valid_for) matches Ok(
            (q, _),
        ) ==> q.remove_attribute(Origin::Signed(sender), did_account, name) matches Ok((r, ev))
            && r.read(did_account, name) is None && ev == EventView::AttributeRemoved(
            sender@,
            did_account,
            name,
        ),
{
}

/// A successful `add_attribute`, `update_attribute` or `remove_attribute`
/// leaves every attribute stored under another key as it was.
pub proof fn lemma_other_keys_unchanged(
    p: PalletView,
    origin: Origin,
    env: Environment,
    did_account: Seq<u8>,
    name: Seq<u8>,
    value: Seq<u8>,
    valid_for: Option<BlockNumber>,
    key: Seq<u8>,
)
    requires
        key != attr_key(did_account, name),
    ensures
        p.add_attribute(origin, env, did_account, name, value, valid_for) matches Ok((q, _))
            ==> q.lookup(key) == p.lookup(key),
        p.update_attribute(origin, env, did_account, name, value, valid_for) matches Ok((q, _))
            ==> q.lookup(key) == p.lookup(key),
        p.remove_attribute(origin, did_account, name) matches Ok((q, _)) ==> q.lookup(key)
            == p.lookup(key),
{
}

/// Updating or removing an attribute never changes who owns which DID.
pub proof fn lemma_update_remove_keep_owners(
    p: PalletView,
    origin: Origin,
    env: Environment,
    did_account: Seq<u8>,
    name: Seq<u8>,
    value: Seq<u8>,
    valid_for: Option<BlockNumber>,
)
    ensures
        p.update_attribute(origin, env, did_account, name, value, valid_for) matches Ok((q, _))
            ==> q.owners == p.owners,
        p.remove_attribute(origin, did_account, name) matches Ok((q, _)) ==> q.owners
            == p.owners,
{
}

/// A call that no account signed is refused with `BadOrigin`.
pub proof fn lemma_unsigned_refused(
    p: PalletView,
    origin: Origin,
    env: Environment,
    did_account: Seq<u8>,
    name: Seq<u8>,
    value: Seq<u8>,
    valid_for: Option<BlockNumber>,
)
    requires
        !(origin is Signed),
    ensures
        p.add_attribute(origin, env, did_account, name, value, valid_for) == Err::<
            (PalletView, EventView),
            DispatchError,
        >(DispatchError::BadOrigin),
        p.update_attribute(origin, env, did_account, name, value, valid_for) == Err::<
            (PalletView, EventView),
            DispatchError,
        >(DispatchError::BadOrigin),
        p.read_attribute(origin, did_account, name) == Err::<EventView, DispatchError>(
            DispatchError::BadOrigin,
        ),
        p.remove_attribute(origin, did_account, name) == Err::<
            (PalletView, EventView),
            DispatchError,
        >(DispatchError::BadOrigin),
{
}

/// A signed call that names an attribute longer than 64 bytes is refused
/// with `AttributeNameExceedMax64` by `add_attribute`, `update_attribute`
/// and `remove_attribute`.
pub proof fn lemma_long_name_refused(
    p: PalletView,
    sender: AccountId,
    env: Environment,
    did_account: Seq<u8>,
    name: Seq<u8>,
    value: Seq<u8>,
    valid_for: Option<BlockNumber>,
)
    requires
        name.len() > MAX_NAME_LEN,
    ensures
        p.add_attribute(Origin::Signed(sender), env, did_account, name, value, valid_for) == Err::<
            (PalletView, EventView),
            DispatchError,
        >(DispatchError::Module(Error::AttributeNameExceedMax64)),
        p.update_attribute(Origin::Signed(sender), env, did_account, name, value, valid_for)
            == Err::<(PalletView, EventView), DispatchError>(
            DispatchError::Module(Error::AttributeNameExceedMax64),
        ),
        p.remove_attribute(Origin::Signed(sender), did_account, name) == Err::<
            (PalletView, EventView),
            DispatchError,
        >(DispatchError::Module(Error::AttributeNameExceedMax64)),
{
}

/// A signed account that does not own the DID can neither update nor remove
/// its attributes: both are refused with `AttributeAuthorizationFailed`.
pub proof fn lemma_non_owner_refused(
    p: PalletView,
    sender: AccountId,
    env: Environment,
    did_account: Seq<u8>,
    name: Seq<u8>,
    value: Seq<u8>,
    valid_for: Option<BlockNumber>,
)
    requires
        !p.is_owner(sender@, did_account),
        name.len() <= MAX_NAME_LEN,
    ensures
        p.update_attribute(Origin::Signed(sender), env, did_account, name, value, valid_for)
            == Err::<(PalletView, EventView), DispatchError>(
            DispatchError::Module(Error::AttributeAuthorizationFailed),
        ),
        p.remove_attribute(Origin::Signed(sender), did_account, name) == Err::<
            (PalletView, EventView),
            DispatchError,
        >(DispatchError::Module(Error::AttributeAuthorizationFailed)),
{
}

/// Reading succeeds exactly for a signed call on an attribute that exists,
/// and reports that attribute.
pub proof fn lemma_read_attribute_iff(
    p: PalletView,
    origin: Origin,
    did_account: Seq<u8>,
    name: Seq<u8>,
)
    ensures
        p.read_attribute(origin, did_account, name) is Ok <==> origin is Signed && p.read(
            did_account,
            name,
        ) is Some,
        p.read_attribute(origin, did_account, name) matches Ok(ev) ==> ev
            == EventView::AttributeRead(p.read(did_account, name)->0),
{
}

} // verus!

verus! {

/// The storage key of an attribute is the digest of the whole DID account
/// followed by the whole name, and the owner id of an owner and a DID is the
/// digest of the owner followed by the DID account.
pub proof fn lemma_keys_are_digests(owner: Seq<u8>, did_account: Seq<u8>, name: Seq<u8>)
    ensures
        attr_key(did_account, name) == blake2_256_digest(did_account + name),
        owner_id(owner, did_account) == blake2_256_digest(owner + did_account),
{
}

/// Reading the attribute `name` of a DID looks in the attribute store under
/// the digest of the DID followed by the whole name, and nowhere else.
pub proof fn lemma_read_uses_full_name(p: PalletView, did_account: Seq<u8>, name: Seq<u8>)
    ensures
        p.read(did_account, name) is Some <==> p.attributes.contains_key(
            blake2_256_digest(did_account + name),
        ),
        p.read(did_account, name) matches Some(a) ==> a == p.attributes[blake2_256_digest(
            did_account + name,
        )],
        p.is_owner(name, did_account) <==> p.owners.contains_key(
            (name, blake2_256_digest(name + did_account)),
        ),
{
}

/// The validity of an attribute is the current block plus the period when
/// that sum fits a block number, the last block number when no period is
/// given, and `MaxBlockNumberExceeded` otherwise.
pub proof fn lemma_validity_is_sum(valid_for: Option<BlockNumber>, current_block: BlockNumber)
    ensures
        valid_for is None ==> validity(valid_for, current_block) == Ok::<BlockNumber, DidError>(
            BlockNumber::MAX,
        ),
        valid_for matches Some(b) ==> (current_block + b <= BlockNumber::MAX <==> validity(
            valid_for,
            current_block,
        ) is Ok),
        valid_for matches Some(b) ==> (validity(valid_for, current_block) matches Ok(v) ==> v
            == current_block + b),
        valid_for matches Some(b) ==> (current_block + b > BlockNumber::MAX ==> validity(
            valid_for,
            current_block,
        ) == Err::<BlockNumber, DidError>(DidError::MaxBlockNumberExceeded)),
{
}

/// A successful `add_attribute` stores exactly one new attribute, under the
/// digest of the DID followed by the whole name, valid until the current
/// block plus the period (or the last block), and adds exactly the owner
/// entry of the signer for that DID: every other attribute and every owner
/// entry that was there before stays.
pub proof fn lemma_add_stores(
    p: PalletView,
    sender: AccountId,
    env: Environment,
    did_account: Seq<u8>,
    name: Seq<u8>,
    value: Seq<u8>,
    valid_for: Option<BlockNumber>,
)
    ensures
        p.add_attribute(Origin::Signed(sender), env, did_account, name, value, valid_for) matches Ok(
            (q, _),
        ) ==> {
            let key = blake2_256_digest(did_account + name);
            &&& !p.attributes.contains_key(key)
            &&& q.attributes.contains_key(key)
            &&& q.attributes[key].name == name
            &&& q.attributes[key].value == value
            &&& q.attributes[key].created == env.now
            &&& (valid_for is None ==> q.attributes[key].validity == BlockNumber::MAX)
            &&& (valid_for matches Some(b) ==> q.attributes[key].validity == env.block_number + b)
            &&& forall|k: Seq<u8>|
                k != key ==> (#[trigger] q.attributes.contains_key(k) == p.attributes.contains_key(
                    k,
                ) && (p.attributes.contains_key(k) ==> q.attributes[k] == p.attributes[k]))
            &&& forall|o: (Seq<u8>, Seq<u8>)| #[trigger]
                p.owners.contains_key(o) ==> q.owners.contains_key(o)
            &&& q.owners == p.owners.insert(
                (sender@, blake2_256_digest(sender@ + did_account)),
                did_account,
            )
        },
        p.add_attribute(Origin::Signed(sender), env, did_account, name, value, valid_for)
            == Err::<(PalletView, EventView), DispatchError>(
            DispatchError::Module(Error::AttributeAlreadyExist),
        ) <==> (name.len() <= MAX_NAME_LEN && p.attributes.contains_key(
            blake2_256_digest(did_account + name),
        )),
{
}

/// A successful `update_attribute` requires that the attribute existed
/// before the call; an owner's update of an attribute that does not exist
/// is refused, with `AttributeNotFound` when the new period fits.
pub proof fn lemma_update_needs_existing(
    p: PalletView,
    sender: AccountId,
    env: Environment,
    did_account: Seq<u8>,
    name: Seq<u8>,
    value: Seq<u8>,
    valid_for: Option<BlockNumber>,
)
    ensures
        p.update_attribute(Origin::Signed(sender), env, did_account, name, value, valid_for) matches Ok(
            (q, _),
        ) ==> {
            let key = blake2_256_digest(did_account + name);
            &&& p.attributes.contains_key(key)
            &&& p.owners.contains_key((sender@, blake2_256_digest(sender@ + did_account)))
            &&& q.owners == p.owners
            &&& q.attributes.contains_key(key)
            &&& q.attributes[key].value == value
            &&& q.attributes[key].name == p.attributes[key].name
            &&& q.attributes[key].created == p.attributes[key].created
            &&& (valid_for is None ==> q.attributes[key].validity == BlockNumber::MAX)
            &&& (valid_for matches Some(b) ==> q.attributes[key].validity == env.block_number + b)
            &&& q.attributes.remove(key) == p.attributes.remove(key)
        },
        (name.len() <= MAX_NAME_LEN && !p.attributes.contains_key(
            blake2_256_digest(did_account + name),
        )) ==> p.update_attribute(Origin::Signed(sender), env, did_account, name, value, valid_for)
            is Err,
        (name.len() <= MAX_NAME_LEN && p.owners.contains_key(
            (sender@, blake2_256_digest(sender@ + did_account)),
        ) && !p.attributes.contains_key(blake2_256_digest(did_account + name)) && (valid_for is None
            || (valid_for matches Some(b) && env.block_number + b <= BlockNumber::MAX)))
            ==> p.update_attribute(Origin::Signed(sender), env, did_account, name, value, valid_for)
            == Err::<(PalletView, EventView), DispatchError>(
            DispatchError::Module(Error::AttributeNotFound),
        ),
{
}

/// A successful `remove_attribute` requires that the attribute existed and
/// removes exactly it; an owner's removal of an attribute that does not
/// exist is refused with `AttributeNotFound`.
pub proof fn lemma_remove_needs_existing(
    p: PalletView,
    sender: AccountId,
    did_account: Seq<u8>,
    name: Seq<u8>,
)
    ensures
        p.remove_attribute(Origin::Signed(sender), did_account, name) matches Ok((q, _)) ==> {
            let key = blake2_256_digest(did_account + name);
            &&& p.attributes.contains_key(key)
            &&& p.owners.contains_key((sender@, blake2_256_digest(sender@ + did_account)))
            &&& q.attributes == p.attributes.remove(key)
            &&& q.owners == p.owners
        },
        (name.len() <= MAX_NAME_LEN && p.owners.contains_key(
            (sender@, blake2_256_digest(sender@ + did_account)),
        ) && !p.attributes.contains_key(blake2_256_digest(did_account + name)))
            ==> p.remove_attribute(Origin::Signed(sender), did_account, name) == Err::<
            (PalletView, EventView),
            DispatchError,
        >(DispatchError::Module(Error::AttributeNotFound)),
        (name.len() <= MAX_NAME_LEN && !p.attributes.contains_key(
            blake2_256_digest(did_account + name),
        )) ==> p.remove_attribute(Origin::Signed(sender), did_account, name) is Err,
{
}

} // verus!
