//! What a token contract and its mix-ins for ownership and pausing share:
//! their errors, their stored switches and the checks that guard their
//! entry points.

use vstd::prelude::*;
use crate::codec::{key_to_bytes, spec_key_bytes};
use crate::collections::{spec_read_host, spec_read_outcome, TypedURef};
use crate::error::ApiError;
use crate::host::Host;
use crate::named_key::{get_dict_host, get_dict_outcome, NamedKey};
use crate::types::{Addr, Key};
use crate::utils::get_immediate_account;
use base64::Engine;

verus! {

/// The errors of a token contract. Each is reported as the user error with
/// the variant's number.
#[derive(Clone, Copy, PartialEq, Eq, Structural, Debug)]
pub enum Cep18Error {
    /// CEP-18 contract called from within an invalid context.
    InvalidContext,
    /// Spender does not have enough balance.
    InsufficientBalance,
    /// Spender does not have enough allowance approved.
    InsufficientAllowance,
    /// Operation would cause an integer overflow.
    Overflow,
    /// A required package hash was not specified.
    PackageHashMissing,
    /// The package hash specified does not represent a package.
    PackageHashNotPackage,
    /// An invalid event mode was specified.
    InvalidEventsMode,
    /// The event mode required was not specified.
    MissingEventsMode,
    /// An unknown error occurred.
    Phantom,
    /// Failed to read the runtime arguments provided.
    FailedToGetArgBytes,
    /// The caller does not have sufficient security access.
    InsufficientRights,
    /// The list of Admin accounts provided is invalid.
    InvalidAdminList,
    /// The list of accounts that can mint tokens is invalid.
    InvalidMinterList,
    /// The list of accounts with no access rights is invalid.
    InvalidNoneList,
    /// The flag to enable the mint and burn mode is invalid.
    InvalidEnableMBFlag,
    /// This contract instance cannot be initialized again.
    AlreadyInitialized,
    /// The mint and burn mode is disabled.
    MintBurnDisabled,
    /// The target user cannot be the sender.
    CannotTargetSelfUser,
    /// The burn operation was attempted on an invalid target.
    InvalidBurnTarget,
    /// A required package hash for contract upgrade is missing.
    MissingPackageHashForUpgrade,
    /// A required contract hash for contract upgrade is missing.
    MissingContractHashForUpgrade,
    /// The provided key type is invalid.
    InvalidKeyType,
    /// Failed to convert data to JSON format.
    FailedToConvertToJson,
    /// Failed to return the expected entry point result.
    FailedToReturnEntryPointResult,
    /// Failed to create a new dictionary in storage.
    FailedToCreateDictionary,
    /// Failed to convert bytes to the expected type.
    FailedToConvertBytes,
    /// Failed to update the total supply of tokens.
    FailedToChangeTotalSupply,
    /// Failed to read data from storage.
    FailedToReadFromStorage,
    /// Failed to retrieve a key from storage.
    FailedToGetKey,
    /// Failed to disable a specific contract version.
    FailedToDisableContractVersion,
    /// Failed to insert an entry into the security list.
    FailedToInsertToSecurityList,
    /// The specified URef was not found.
    UrefNotFound,
    /// Failed to retrieve the old contract hash key.
    FailedToGetOldContractHashKey,
    /// Failed to retrieve the old package key.
    FailedToGetOldPackageKey,
    /// Failed to retrieve the package key.
    FailedToGetPackageKey,
    /// A required storage URef is missing.
    MissingStorageUref,
    /// The provided storage URef is invalid.
    InvalidStorageUref,
    /// Unable to retrieve the version contract hash key.
    MissingVersionContractKey,
    /// The provided version contract key is invalid.
    InvalidVersionContractKey,
}

impl Cep18Error {
    /// The number of the error.
    pub open spec fn spec_code(self) -> u16 {
        match self {
            Cep18Error::InvalidContext => 60000,
            Cep18Error::InsufficientBalance => 60001,
            Cep18Error::InsufficientAllowance => 60002,
            Cep18Error::Overflow => 60003,
            Cep18Error::PackageHashMissing => 60004,
            Cep18Error::PackageHashNotPackage => 60005,
            Cep18Error::InvalidEventsMode => 60006,
            Cep18Error::MissingEventsMode => 60007,
            Cep18Error::Phantom => 60008,
            Cep18Error::FailedToGetArgBytes => 60009,
            Cep18Error::InsufficientRights => 60010,
            Cep18Error::InvalidAdminList => 60011,
            Cep18Error::InvalidMinterList => 60012,
            Cep18Error::InvalidNoneList => 60013,
            Cep18Error::InvalidEnableMBFlag => 60014,
            Cep18Error::AlreadyInitialized => 60015,
            Cep18Error::MintBurnDisabled => 60016,
            Cep18Error::CannotTargetSelfUser => 60017,
            Cep18Error::InvalidBurnTarget => 60018,
            Cep18Error::MissingPackageHashForUpgrade => 60019,
            Cep18Error::MissingContractHashForUpgrade => 60020,
            Cep18Error::InvalidKeyType => 60021,
            Cep18Error::FailedToConvertToJson => 60022,
            Cep18Error::FailedToReturnEntryPointResult => 60023,
            Cep18Error::FailedToCreateDictionary => 60024,
            Cep18Error::FailedToConvertBytes => 60025,
            Cep18Error::FailedToChangeTotalSupply => 60026,
            Cep18Error::FailedToReadFromStorage => 60027,
            Cep18Error::FailedToGetKey => 60028,
            Cep18Error::FailedToDisableContractVersion => 60029,
            Cep18Error::FailedToInsertToSecurityList => 60030,
            Cep18Error::UrefNotFound => 60031,
            Cep18Error::FailedToGetOldContractHashKey => 60032,
            Cep18Error::FailedToGetOldPackageKey => 60033,
            Cep18Error::FailedToGetPackageKey => 60034,
            Cep18Error::MissingStorageUref => 60035,
            Cep18Error::InvalidStorageUref => 60036,
            Cep18Error::MissingVersionContractKey => 60037,
            Cep18Error::InvalidVersionContractKey => 60038,
        }
    }

    /// The number of the error.
    pub fn code(self) -> (c: u16)
        ensures
            c == self.spec_code(),
    {
        match self {
            Cep18Error::InvalidContext => 60000,
            Cep18Error::InsufficientBalance => 60001,
            Cep18Error::InsufficientAllowance => 60002,
            Cep18Error::Overflow => 60003,
            Cep18Error::PackageHashMissing => 60004,
            Cep18Error::PackageHashNotPackage => 60005,
            Cep18Error::InvalidEventsMode => 60006,
            Cep18Error::MissingEventsMode => 60007,
            Cep18Error::Phantom => 60008,
            Cep18Error::FailedToGetArgBytes => 60009,
            Cep18Error::InsufficientRights => 60010,
            Cep18Error::InvalidAdminList => 60011,
            Cep18Error::InvalidMinterList => 60012,
            Cep18Error::InvalidNoneList => 60013,
            Cep18Error::InvalidEnableMBFlag => 60014,
            Cep18Error::AlreadyInitialized => 60015,
            Cep18Error::MintBurnDisabled => 60016,
            Cep18Error::CannotTargetSelfUser => 60017,
            Cep18Error::InvalidBurnTarget => 60018,
            Cep18Error::MissingPackageHashForUpgrade => 60019,
            Cep18Error::MissingContractHashForUpgrade => 60020,
            Cep18Error::InvalidKeyType => 60021,
            Cep18Error::FailedToConvertToJson => 60022,
            Cep18Error::FailedToReturnEntryPointResult => 60023,
            Cep18Error::FailedToCreateDictionary => 60024,
            Cep18Error::FailedToConvertBytes => 60025,
            Cep18Error::FailedToChangeTotalSupply => 60026,
            Cep18Error::FailedToReadFromStorage => 60027,
            Cep18Error::FailedToGetKey => 60028,
            Cep18Error::FailedToDisableContractVersion => 60029,
            Cep18Error::FailedToInsertToSecurityList => 60030,
            Cep18Error::UrefNotFound => 60031,
            Cep18Error::FailedToGetOldContractHashKey => 60032,
            Cep18Error::FailedToGetOldPackageKey => 60033,
            Cep18Error::FailedToGetPackageKey => 60034,
            Cep18Error::MissingStorageUref => 60035,
            Cep18Error::InvalidStorageUref => 60036,
            Cep18Error::MissingVersionContractKey => 60037,
            Cep18Error::InvalidVersionContractKey => 60038,
        }
    }

    /// The error of the boundary that this error is reported as.
    pub fn into_api_error(self) -> (e: ApiError)
        ensures
            e == ApiError::User(self.spec_code()),
    {
        ApiError::User(self.code())
    }
}


/// The errors of the ownership mix-in.
#[derive(Debug, Clone, Copy, PartialEq, Eq, Structural)]
pub enum OwnableError {
    Unauthorized,
    OwnerMissing,
    AlreadyPaused,
    NotPaused,
    ContractPaused,
}

impl OwnableError {
    /// The number of the error.
    pub open spec fn spec_code(self) -> u16 {
        match self {
            OwnableError::Unauthorized => 62000,
            OwnableError::OwnerMissing => 62001,
            OwnableError::AlreadyPaused => 62002,
            OwnableError::NotPaused => 62003,
            OwnableError::ContractPaused => 62004,
        }
    }

    /// The number of the error.
    pub fn code(self) -> (c: u16)
        ensures
            c == self.spec_code(),
    {
        match self {
            OwnableError::Unauthorized => 62000,
            OwnableError::OwnerMissing => 62001,
            OwnableError::AlreadyPaused => 62002,
            OwnableError::NotPaused => 62003,
            OwnableError::ContractPaused => 62004,
        }
    }

    /// The error of the boundary that this error is reported as.
    pub fn into_api_error(self) -> (e: ApiError)
        ensures
            e == ApiError::User(self.spec_code()),
    {
        ApiError::User(self.code())
    }
}

/// The errors of the pausing mix-in.
#[derive(Debug, Clone, Copy, PartialEq, Eq, Structural)]
pub enum PausableError {
    NotPaused,
    AlreadyPaused,
    ContractPaused,
}

impl PausableError {
    /// The number of the error.
    pub open spec fn spec_code(self) -> u16 {
        match self {
            PausableError::NotPaused => 41000,
            PausableError::AlreadyPaused => 41001,
            PausableError::ContractPaused => 41002,
        }
    }

    /// The number of the error.
    pub fn code(self) -> (c: u16)
        ensures
            c == self.spec_code(),
    {
        match self {
            PausableError::NotPaused => 41000,
            PausableError::AlreadyPaused => 41001,
            PausableError::ContractPaused => 41002,
        }
    }

    /// The error of the boundary that this error is reported as.
    pub fn into_api_error(self) -> (e: ApiError)
        ensures
            e == ApiError::User(self.spec_code()),
    {
        ApiError::User(self.code())
    }
}

/// What an account may do with a token contract.
#[derive(Clone, Copy, PartialEq, Eq, Structural, Debug)]
pub enum SecurityBadge {
    Admin,
    Minter,
    NoAccess,
}

impl SecurityBadge {
    /// The byte that a badge is stored as.
    pub open spec fn spec_code(self) -> u8 {
        match self {
            SecurityBadge::Admin => 0,
            SecurityBadge::Minter => 1,
            SecurityBadge::NoAccess => 2,
        }
    }

    /// The badge that stored bytes stand for: their first byte decides, and
    /// without a first byte there is no badge.
    pub open spec fn spec_from_bytes(bytes: Seq<u8>) -> Result<SecurityBadge, ApiError> {
        if bytes.len() == 0 {
            Err(ApiError::EarlyEndOfStream)
        } else if bytes[0] == 0 {
            Ok(SecurityBadge::Admin)
        } else if bytes[0] == 1 {
            Ok(SecurityBadge::Minter)
        } else if bytes[0] == 2 {
            Ok(SecurityBadge::NoAccess)
        } else {
            Err(ApiError::LeftOverBytes)
        }
    }

    /// The stored form of a badge: one byte.
    pub fn to_bytes(&self) -> (r: Vec<u8>)
        ensures
            r@ == seq![self.spec_code()],
    {
        let mut out: Vec<u8> = Vec::new();
        out.push(
            match self {
                SecurityBadge::Admin => 0,
                SecurityBadge::Minter => 1,
                SecurityBadge::NoAccess => 2,
            },
        );
        out
    }

    /// The length of the stored form of a badge.
    pub fn serialized_length(&self) -> (r: usize)
        ensures
            r == 1,
    {
        1
    }

    /// The badge that stored bytes stand for.
    pub fn from_bytes(bytes: &[u8]) -> (r: Result<SecurityBadge, ApiError>)
        ensures
            r == SecurityBadge::spec_from_bytes(bytes@),
    {
        if bytes.len() == 0 {
            return Err(ApiError::EarlyEndOfStream);
        }
        match bytes[0] {
            0 => Ok(SecurityBadge::Admin),
            1 => Ok(SecurityBadge::Minter),
            2 => Ok(SecurityBadge::NoAccess),
            _ => Err(ApiError::LeftOverBytes),
        }
    }

    /// Whether two badges are the same.
    pub fn same(&self, other: &SecurityBadge) -> (r: bool)
        ensures
            r == (*self == *other),
    {
        match (self, other) {
            (SecurityBadge::Admin, SecurityBadge::Admin) => true,
            (SecurityBadge::Minter, SecurityBadge::Minter) => true,
            (SecurityBadge::NoAccess, SecurityBadge::NoAccess) => true,
            _ => false,
        }
    }
}

/// The event that reports a change of the events mode.
#[derive(Debug, Clone, Copy, PartialEq, Eq, Structural)]
pub struct ChangeEventsMode {
    pub events_mode: u8,
}

/// The text that stands for bytes in base 64.
pub uninterp spec fn base64_text(data: Seq<u8>) -> Seq<char>;

/// The length of the base-64 text of `n` bytes, with padding: four
/// characters for every three bytes, and four more for what is left over.
pub open spec fn spec_base64_len(n: nat) -> nat {
    (n / 3) * 4 + if n % 3 > 0 {
        4nat
    } else {
        0nat
    }
}

/// Whether the base-64 text of `n` bytes can be made: the encoder
/// allocates the whole text at once, and no allocation is larger than
/// `isize::MAX` bytes.
pub open spec fn base64_fits(n: nat) -> bool {
    spec_base64_len(n) <= isize::MAX
}

/// Calls `base64::Engine::encode` on the engine
/// `base64::engine::general_purpose::STANDARD`: the base-64 text of the
/// bytes, in the standard alphabet and with padding, of the length that
/// `base64::encoded_len` gives.
#[verifier::external_body]
pub(crate) fn base64_standard(data: &[u8]) -> (r: String)
    requires
        base64_fits(data@.len()),
    ensures
        r@ == base64_text(data@),
        r@.len() == spec_base64_len(data@.len()),
{
    base64::engine::general_purpose::STANDARD.encode(data)
}

/// The base-64 text of bytes.
pub fn base64_encode(data: &Vec<u8>) -> (r: String)
    requires
        base64_fits(data@.len()),
    ensures
        r@ == base64_text(data@),
        r@.len() == spec_base64_len(data@.len()),
{
    base64_standard(data.as_slice())
}

/// The truth value that stored bytes encode, or why they encode none.
pub open spec fn spec_bool_of(bytes: Seq<u8>) -> Result<bool, ApiError> {
    if bytes.len() == 0 {
        Err(ApiError::EarlyEndOfStream)
    } else if bytes[0] != 0 && bytes[0] != 1 {
        Err(ApiError::Formatting)
    } else if bytes.len() > 1 {
        Err(ApiError::LeftOverBytes)
    } else {
        Ok(bytes[0] == 1)
    }
}

/// The truth value that stored bytes encode, or why they encode none.
pub fn bool_of(bytes: &Vec<u8>) -> (r: Result<bool, ApiError>)
    ensures
        r == spec_bool_of(bytes@),
{
    if bytes.len() == 0 {
        Err(ApiError::EarlyEndOfStream)
    } else if bytes[0] != 0 && bytes[0] != 1 {
        Err(ApiError::Formatting)
    } else if bytes.len() > 1 {
        Err(ApiError::LeftOverBytes)
    } else {
        Ok(bytes[0] == 1)
    }
}

/// The byte that stored bytes encode, or why they encode none.
pub open spec fn spec_u8_of(bytes: Seq<u8>) -> Result<u8, ApiError> {
    if bytes.len() == 0 {
        Err(ApiError::EarlyEndOfStream)
    } else if bytes.len() > 1 {
        Err(ApiError::LeftOverBytes)
    } else {
        Ok(bytes[0])
    }
}

/// The byte that stored bytes encode, or why they encode none.
pub fn u8_of(bytes: &Vec<u8>) -> (r: Result<u8, ApiError>)
    ensures
        r == spec_u8_of(bytes@),
{
    if bytes.len() == 0 {
        Err(ApiError::EarlyEndOfStream)
    } else if bytes.len() > 1 {
        Err(ApiError::LeftOverBytes)
    } else {
        Ok(bytes[0])
    }
}

/// Whether a contract is paused, going by what was read of its switch: a
/// switch that was never written counts as off.
pub open spec fn spec_paused(read: Result<Option<Seq<u8>>, ApiError>) -> Result<bool, ApiError> {
    match read {
        Err(e) => Err(e),
        Ok(None) => Ok(false),
        Ok(Some(bytes)) => spec_bool_of(bytes),
    }
}

/// What the check that a contract is not paused answers.
pub open spec fn spec_require_unpaused(read: Result<Option<Seq<u8>>, ApiError>) -> Result<
    (),
    ApiError,
> {
    match spec_paused(read) {
        Err(e) => Err(e),
        Ok(true) => Err(ApiError::User(41002)),
        Ok(false) => Ok(()),
    }
}

/// Checks that the contract is not paused: reads the switch behind
/// `paused` and answers with the error of a paused contract where it is on.
pub fn require_unpaused(host: &mut Host, paused: &mut TypedURef) -> (r: Result<(), ApiError>)
    requires
        old(host)@.active(),
        old(paused)@.target(old(host)@.top()) is Ok ==> old(host)@.top().can_read(
            old(paused)@.target(old(host)@.top()).unwrap(),
        ),
    ensures
        final(paused)@ == old(paused)@.resolved(old(host)@.top()),
        final(host)@ == spec_read_host(old(paused)@, old(host)@),
        r == spec_require_unpaused(spec_read_outcome(old(paused)@, old(host)@)),
{
    let flag = match paused.read(host) {
        Err(e) => {
            return Err(e);
        },
        Ok(None) => false,
        Ok(Some(bytes)) => match bool_of(&bytes) {
            Ok(b) => b,
            Err(e) => {
                return Err(e);
            },
        },
    };
    if flag {
        Err(PausableError::ContractPaused.into_api_error())
    } else {
        Ok(())
    }
}

/// What the check that minting and burning are switched on answers, going by
/// what was read of the switch: a switch that was never written counts as
/// off, and a switch that cannot be read as a failure of the storage.
pub open spec fn spec_mint_burn_enabled(read: Result<Option<Seq<u8>>, ApiError>) -> Result<
    (),
    Cep18Error,
> {
    match read {
        Err(_) => Err(Cep18Error::FailedToReadFromStorage),
        Ok(None) => Err(Cep18Error::MintBurnDisabled),
        Ok(Some(bytes)) => match spec_u8_of(bytes) {
            Err(_) => Err(Cep18Error::FailedToReadFromStorage),
            Ok(flag) => if flag == 0 {
                Err(Cep18Error::MintBurnDisabled)
            } else {
                Ok(())
            },
        },
    }
}

/// Checks that minting and burning are switched on: reads the switch
/// behind `flag`.
pub fn ensure_mint_burn_enabled(host: &mut Host, flag: &mut TypedURef) -> (r: Result<
    (),
    Cep18Error,
>)
    requires
        old(host)@.active(),
        old(flag)@.target(old(host)@.top()) is Ok ==> old(host)@.top().can_read(
            old(flag)@.target(old(host)@.top()).unwrap(),
        ),
    ensures
        final(flag)@ == old(flag)@.resolved(old(host)@.top()),
        final(host)@ == spec_read_host(old(flag)@, old(host)@),
        r == spec_mint_burn_enabled(spec_read_outcome(old(flag)@, old(host)@)),
{
    let value = match flag.read(host) {
        Err(_) => {
            return Err(Cep18Error::FailedToReadFromStorage);
        },
        Ok(None) => 0,
        Ok(Some(bytes)) => match u8_of(&bytes) {
            Ok(b) => b,
            Err(_) => {
                return Err(Cep18Error::FailedToReadFromStorage);
            },
        },
    };
    if value == 0 {
        return Err(Cep18Error::MintBurnDisabled);
    }
    Ok(())
}

/// The item key under which the badge of a caller is kept.
pub open spec fn spec_badge_key(caller: Key) -> Seq<char> {
    base64_text(spec_key_bytes(caller))
}

/// Whether one of the allowed badges is `badge`.
pub open spec fn spec_allows(allowed: Seq<SecurityBadge>, badge: SecurityBadge) -> bool {
    exists|i: int| 0 <= i < allowed.len() && allowed[i] == badge
}

/// What the security check answers, going by what was read of the caller's
/// badge: a caller without a badge, or with a badge that is not allowed,
/// has no right; a badge that cannot be read is a failure of the storage.
pub open spec fn spec_sec_check(
    read: Result<Option<Seq<u8>>, ApiError>,
    allowed: Seq<SecurityBadge>,
) -> Result<(), Cep18Error> {
    match read {
        Err(_) => Err(Cep18Error::FailedToReadFromStorage),
        Ok(None) => Err(Cep18Error::InsufficientRights),
        Ok(Some(bytes)) => match SecurityBadge::spec_from_bytes(bytes) {
            Err(_) => Err(Cep18Error::FailedToReadFromStorage),
            Ok(badge) => if spec_allows(allowed, badge) {
                Ok(())
            } else {
                Err(Cep18Error::InsufficientRights)
            },
        },
    }
}

/// Checks that `caller` holds one of the allowed badges: looks the caller
/// up in the dictionary behind `badges`. The badge is handed over through
/// the host buffer, which must be free.
pub fn sec_check(
    host: &mut Host,
    badges: &mut NamedKey,
    caller: &Key,
    allowed_badge_list: &Vec<SecurityBadge>,
) -> (r: Result<(), Cep18Error>)
    requires
        old(host)@.active(),
        old(host)@.top().host_buffer is None,
    ensures
        final(badges)@ == old(badges)@.resolved(old(host)@.top()),
        final(host)@ == get_dict_host(old(badges)@, old(host)@, spec_badge_key(*caller)),
        r == spec_sec_check(
            get_dict_outcome(old(badges)@, old(host)@, spec_badge_key(*caller)),
            allowed_badge_list@,
        ),
{
    let caller_bytes = key_to_bytes(caller);
    let item_key = base64_encode(&caller_bytes);
    let bytes = match badges.get_dict(host, item_key.as_str()) {
        Err(_) => {
            return Err(Cep18Error::FailedToReadFromStorage);
        },
        Ok(None) => {
            return Err(Cep18Error::InsufficientRights);
        },
        Ok(Some(b)) => b,
    };
    let badge = match SecurityBadge::from_bytes(bytes.as_slice()) {
        Ok(b) => b,
        Err(_) => {
            return Err(Cep18Error::FailedToReadFromStorage);
        },
    };
    if allows(allowed_badge_list, badge) {
        Ok(())
    } else {
        Err(Cep18Error::InsufficientRights)
    }
}

/// Whether one of the allowed badges is `badge`.
pub fn allows(allowed: &Vec<SecurityBadge>, badge: SecurityBadge) -> (r: bool)
    ensures
        r == spec_allows(allowed@, badge),
{
    let mut i: usize = 0;
    while i < allowed.len()
        invariant
            i <= allowed.len(),
            forall|j: int| 0 <= j < i ==> allowed@[j] != badge,
        decreases allowed.len() - i,
    {
        if allowed[i].same(&badge) {
            return true;
        }
        i += 1;
    }
    false
}

/// The owner that a lookup of the owner's name stands for: an account, or
/// nobody where the name has no key.
pub open spec fn spec_owner_of(resolution: Result<Option<Key>, ApiError>) -> Result<
    Option<Addr>,
    ApiError,
> {
    match resolution {
        Ok(Some(Key::Account(account))) => Ok(Some(account)),
        Ok(Some(_)) => Err(ApiError::UnexpectedKeyVariant),
        Ok(None) => Ok(None),
        Err(ApiError::MissingKey) => Ok(None),
        Err(e) => Err(e),
    }
}

/// The owner of a contract: the account under the name behind `owner`.
pub fn get_current_owner(host: &mut Host, owner: &mut NamedKey) -> (r: Result<
    Option<Addr>,
    ApiError,
>)
    requires
        old(host)@.active(),
    ensures
        final(owner)@ == old(owner)@.resolved(old(host)@.top()),
        final(host)@ == old(host)@.with_top(old(owner)@.env_after_resolve(old(host)@.top())),
        r == spec_owner_of(old(owner)@.resolution(old(host)@.top())),
{
    match owner.get(host) {
        Ok(Some(Key::Account(account))) => Ok(Some(account)),
        Ok(Some(_)) => Err(ApiError::UnexpectedKeyVariant),
        Ok(None) => Ok(None),
        Err(ApiError::MissingKey) => Ok(None),
        Err(e) => Err(e),
    }
}

/// What the check that `caller` owns the contract answers, for the owner
/// that was found.
pub open spec fn spec_ensure_owner(caller: Addr, owner: Result<Option<Addr>, ApiError>) -> Result<
    Addr,
    ApiError,
> {
    match owner {
        Err(e) => Err(e),
        Ok(Some(account)) => if account == caller {
            Ok(account)
        } else {
            Err(ApiError::User(62000))
        },
        Ok(None) => Err(ApiError::User(62001)),
    }
}

/// Checks that `caller` owns the contract.
pub fn ensure_owner_is(host: &mut Host, owner: &mut NamedKey, caller: &Addr) -> (r: Result<
    Addr,
    ApiError,
>)
    requires
        old(host)@.active(),
    ensures
        final(owner)@ == old(owner)@.resolved(old(host)@.top()),
        final(host)@ == old(host)@.with_top(old(owner)@.env_after_resolve(old(host)@.top())),
        r == spec_ensure_owner(*caller, spec_owner_of(old(owner)@.resolution(old(host)@.top()))),
{
    match get_current_owner(host, owner) {
        Err(e) => Err(e),
        Ok(Some(account)) => {
            if crate::types::addr_eq(&account, caller) {
                Ok(account)
            } else {
                Err(OwnableError::Unauthorized.into_api_error())
            }
        },
        Ok(None) => Err(OwnableError::OwnerMissing.into_api_error()),
    }
}

/// Checks that the immediate caller owns the contract. A host that names no
/// caller lets nobody pass: the answer is the error of an invalid context,
/// and the owner is not even asked for.
pub fn ensure_owner(host: &mut Host, owner: &mut NamedKey) -> (r: Result<Addr, ApiError>)
    requires
        old(host)@.active(),
    ensures
        final(owner)@ == old(owner)@,
        final(host)@ == old(host)@,
        r == Err::<Addr, ApiError>(ApiError::User(56901)),
{
    let caller = match get_immediate_account(host) {
        Ok(c) => c,
        Err(e) => {
            return Err(e);
        },
    };
    ensure_owner_is(host, owner, &caller)
}

/// Whether the contract is paused: what its switch reads, off where it was
/// never written.
pub fn is_paused(host: &mut Host, paused: &mut TypedURef) -> (r: Result<bool, ApiError>)
    requires
        old(host)@.active(),
        old(paused)@.target(old(host)@.top()) is Ok ==> old(host)@.top().can_read(
            old(paused)@.target(old(host)@.top()).unwrap(),
        ),
    ensures
        final(paused)@ == old(paused)@.resolved(old(host)@.top()),
        final(host)@ == spec_read_host(old(paused)@, old(host)@),
        r == spec_paused(spec_read_outcome(old(paused)@, old(host)@)),
{
    match paused.read(host) {
        Err(e) => Err(e),
        Ok(None) => Ok(false),
        Ok(Some(bytes)) => bool_of(&bytes),
    }
}

} // verus!
