use vstd::prelude::*;

verus! {

/// An account, given by its 32 public-key bytes.
pub type AccountId = [u8; 32];

/// A block number.
pub type BlockNumber = u32;

/// A moment on the chain's clock.
pub type Moment = u64;

/// The longest attribute name that the dispatchable calls accept.
pub const MAX_NAME_LEN: usize = 64;

/// What the chain reports to a call: the current block number and the
/// current moment.
#[derive(Clone, Copy, PartialEq, Eq, Structural, Debug)]
pub struct Environment {
    pub block_number: BlockNumber,
    pub now: Moment,
}

/// Who dispatched a call.
#[derive(Clone, Copy, Debug)]
pub enum Origin {
    /// The root origin.
    Root,
    /// A call signed by the given account.
    Signed(AccountId),
    /// A call that nobody signed.
    Unsigned,
}

/// An attribute of a DID.
#[derive(Debug, PartialEq, Eq)]
pub struct Attribute {
    pub name: Vec<u8>,
    pub value: Vec<u8>,
    /// The last block at which the attribute is valid.
    pub validity: BlockNumber,
    /// The moment at which the attribute was created.
    pub created: Moment,
}

/// The mathematical value of an [`Attribute`].
#[verifier::ext_equal]
pub struct AttributeView {
    pub name: Seq<u8>,
    pub value: Seq<u8>,
    pub validity: BlockNumber,
    pub created: Moment,
}

impl View for Attribute {
    type V = AttributeView;

    open spec fn view(&self) -> AttributeView {
        AttributeView {
            name: self.name@,
            value: self.value@,
            validity: self.validity,
            created: self.created,
        }
    }
}

/// Failures of the registry's own operations.
#[derive(Clone, Copy, PartialEq, Eq, Structural, Debug)]
pub enum DidError {
    NotFound,
    AlreadyExist,
    NameExceedMaxChar,
    FailedCreate,
    FailedUpdate,
    AuthorizationFailed,
    MaxBlockNumberExceeded,
}

/// The errors that the dispatchable calls report.
#[derive(Clone, Copy, PartialEq, Eq, Structural, Debug)]
pub enum Error {
    /// The attribute name is longer than 64 bytes.
    AttributeNameExceedMax64,
    /// The attribute already exists.
    AttributeAlreadyExist,
    /// The attribute could not be created.
    AttributeCreationFailed,
    /// The attribute could not be updated.
    AttributeUpdateFailed,
    /// The attribute was not found.
    AttributeNotFound,
    /// The caller does not own the DID.
    AttributeAuthorizationFailed,
    /// The validity period runs past the last block number.
    MaxBlockNumberExceeded,
    InvalidSuppliedValue,
    ParseError,
}

/// Why a dispatchable call failed.
#[derive(Clone, Copy, PartialEq, Eq, Structural, Debug)]
pub enum DispatchError {
    /// The call was not signed.
    BadOrigin,
    /// The registry refused the call.
    Module(Error),
}

/// The error that a dispatchable call reports for a failure of the registry.
pub open spec fn error_of(err: DidError) -> Error {
    match err {
        DidError::NotFound => Error::AttributeNotFound,
        DidError::AlreadyExist => Error::AttributeAlreadyExist,
        DidError::NameExceedMaxChar => Error::AttributeNameExceedMax64,
        DidError::FailedCreate => Error::AttributeCreationFailed,
        DidError::FailedUpdate => Error::AttributeCreationFailed,
        DidError::AuthorizationFailed => Error::AttributeAuthorizationFailed,
        DidError::MaxBlockNumberExceeded => Error::MaxBlockNumberExceeded,
    }
}

impl Error {
    /// Turns a failure of the registry into the error of a dispatchable call.
    pub fn dispatch_error(err: DidError) -> (r: DispatchError)
        ensures
            r == DispatchError::Module(error_of(err)),
    {
        match err {
            DidError::NotFound => DispatchError::Module(Error::AttributeNotFound),
            DidError::AlreadyExist => DispatchError::Module(Error::AttributeAlreadyExist),
            DidError::NameExceedMaxChar => DispatchError::Module(Error::AttributeNameExceedMax64),
            DidError::FailedCreate => DispatchError::Module(Error::AttributeCreationFailed),
            DidError::FailedUpdate => DispatchError::Module(Error::AttributeCreationFailed),
            DidError::AuthorizationFailed => DispatchError::Module(
                Error::AttributeAuthorizationFailed,
            ),
            DidError::MaxBlockNumberExceeded => DispatchError::Module(
                Error::MaxBlockNumberExceeded,
            ),
        }
    }
}

/// The signer of a call.
pub open spec fn signer_of(origin: Origin) -> Result<AccountId, DispatchError> {
    match origin {
        Origin::Signed(who) => Ok(who),
        _ => Err(DispatchError::BadOrigin),
    }
}

/// Returns the account that signed the call, and `BadOrigin` for a call that
/// no account signed.
pub fn ensure_signed(origin: Origin) -> (r: Result<AccountId, DispatchError>)
    ensures
        r == signer_of(origin),
{
    match origin {
        Origin::Signed(who) => Ok(who),
        _ => Err(DispatchError::BadOrigin),
    }
}

/// An event that a successful dispatchable call reports.
#[derive(Debug, PartialEq, Eq)]
pub enum Event {
    /// `(sender, did_account, name, value, valid_for)`
    AttributeAdded(AccountId, AccountId, Vec<u8>, Vec<u8>, Option<BlockNumber>),
    /// The attribute that was read.
    AttributeRead(Attribute),
    /// `(sender, did_account, name, value, valid_for)`
    AttributeUpdated(AccountId, AccountId, Vec<u8>, Vec<u8>, Option<BlockNumber>),
    /// `(sender, did_account, name)`
    AttributeRemoved(AccountId, AccountId, Vec<u8>),
}

/// The mathematical value of an [`Event`].
pub enum EventView {
    AttributeAdded(Seq<u8>, Seq<u8>, Seq<u8>, Seq<u8>, Option<BlockNumber>),
    AttributeRead(AttributeView),
    AttributeUpdated(Seq<u8>, Seq<u8>, Seq<u8>, Seq<u8>, Option<BlockNumber>),
    AttributeRemoved(Seq<u8>, Seq<u8>, Seq<u8>),
}

impl View for Event {
    type V = EventView;

    open spec fn view(&self) -> EventView {
        match self {
            Event::AttributeAdded(s, d, n, v, f) => EventView::AttributeAdded(s@, d@, n@, v@, *f),
            Event::AttributeRead(a) => EventView::AttributeRead(a@),
            Event::AttributeUpdated(s, d, n, v, f) => EventView::AttributeUpdated(
                s@,
                d@,
                n@,
                v@,
                *f,
            ),
            Event::AttributeRemoved(s, d, n) => EventView::AttributeRemoved(s@, d@, n@),
        }
    }
}

/// Copies a byte slice into a new vector.
pub fn copy_bytes(bytes: &[u8]) -> (r: Vec<u8>)
    ensures
        r@ == bytes@,
{
    let mut r: Vec<u8> = Vec::new();
    let mut i: usize = 0;
    while i < bytes.len()
        invariant
            i <= bytes@.len(),
            r@ == bytes@.subrange(0, i as int),
        decreases bytes@.len() - i,
    {
        r.push(bytes[i]);
        i = i + 1;
    }
    assert(bytes@.subrange(0, bytes@.len() as int) =~= bytes@);
    r
}

/// Copies an attribute.
pub fn copy_attribute(a: &Attribute) -> (r: Attribute)
    ensures
        r@ == a@,
{
    Attribute {
        name: copy_bytes(a.name.as_slice()),
        value: copy_bytes(a.value.as_slice()),
        validity: a.validity,
        created: a.created,
    }
}

} // verus!
