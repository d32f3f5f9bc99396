//! The values that cross the boundary between a guest and its host: keys,
//! capability addresses and typed values.

use vstd::prelude::*;
use crate::assoc::MapKey;
use crate::codec::{cl_value_wf, encode_uref, is_cl_type, spec_uref_bytes};

verus! {

broadcast use vstd::array::group_array_axioms;

/// A fixed-width address.
pub type Addr = [u8; 32];

/// The rights mask that lets its holder read, add to and write a location.
pub const READ_ADD_WRITE: u8 = 7;

/// The longest item key that a dictionary takes, in bytes.
pub const DICTIONARY_ITEM_KEY_MAX_LENGTH: usize = 128;

/// Whether two addresses are the same.
pub fn addr_eq(a: &Addr, b: &Addr) -> (r: bool)
    ensures
        r == (*a == *b),
        r == (a@ == b@),
{
    let mut i: usize = 0;
    while i < 32
        invariant
            i <= 32,
            forall|j: int| 0 <= j < i ==> a[j] == b[j],
        decreases 32 - i,
    {
        if a[i] != b[i] {
            return false;
        }
        i += 1;
    }
    assert(*a =~= *b);
    true
}

/// Every sequence of 32 bytes is the view of an address.
pub proof fn lemma_some_addr(s: Seq<u8>)
    requires
        s.len() == 32,
    ensures
        exists|a: Addr| a@ == s,
{
    let a: Addr = [
        s[0], s[1], s[2], s[3], s[4], s[5], s[6], s[7],
        s[8], s[9], s[10], s[11], s[12], s[13], s[14], s[15],
        s[16], s[17], s[18], s[19], s[20], s[21], s[22], s[23],
        s[24], s[25], s[26], s[27], s[28], s[29], s[30], s[31],
    ];
    assert(a@ =~= s);
}

/// The bytes of an address, as a vector.
pub fn addr_to_vec(a: &Addr) -> (r: Vec<u8>)
    ensures
        r@ == a@,
{
    let mut out: Vec<u8> = Vec::new();
    let mut i: usize = 0;
    while i < 32
        invariant
            i <= 32,
            out@ == a@.take(i as int),
        decreases 32 - i,
    {
        out.push(a[i]);
        assert(a@.take(i + 1) == a@.take(i as int).push(a@[i as int]));
        i += 1;
    }
    assert(a@.take(32) == a@);
    out
}

impl MapKey for Addr {
    fn same(&self, other: &Self) -> (r: bool) {
        addr_eq(self, other)
    }
}

/// A capability address: an address together with a rights mask.
#[derive(Clone, Copy, Debug, PartialEq, Eq)]
pub struct URef {
    pub(crate) addr: Addr,
    pub(crate) rights: u8,
}

impl URef {
    /// The address without the rights.
    pub closed spec fn spec_addr(self) -> Addr {
        self.addr
    }

    /// The rights mask.
    pub closed spec fn spec_rights(self) -> u8 {
        self.rights
    }

    /// A rights mask uses the three lowest bits only.
    #[verifier::type_invariant]
    pub open spec fn wf(self) -> bool {
        self.spec_rights() <= 7
    }

    /// Two capability addresses with the same address and the same rights
    /// are the same.
    pub proof fn lemma_same_parts(a: URef, b: URef)
        requires
            a.spec_addr() == b.spec_addr(),
            a.spec_rights() == b.spec_rights(),
        ensures
            a == b,
    {
    }

    /// There is a capability address for every address and every rights
    /// mask.
    pub proof fn lemma_exists(addr: Seq<u8>, rights: u8)
        requires
            addr.len() == 32,
        ensures
            exists|u: URef| u.spec_addr()@ == addr && u.spec_rights() == rights,
    {
        let a = choose|a: Addr| a@ == addr;
        lemma_some_addr(addr);
        let u = URef { addr: a, rights };
        assert(u.spec_addr()@ == addr && u.spec_rights() == rights);
    }

    /// A capability address with the given rights, or `None` where `rights`
    /// is no rights mask.
    pub fn new(addr: Addr, rights: u8) -> (r: Option<URef>)
        ensures
            r is Some <==> rights <= 7,
            r is Some ==> r.unwrap().spec_addr() == addr && r.unwrap().spec_rights() == rights,
    {
        if rights <= 7 {
            Some(URef { addr, rights })
        } else {
            None
        }
    }

    /// A capability address with every right.
    pub fn with_all_rights(addr: Addr) -> (r: URef)
        ensures
            r.spec_addr() == addr,
            r.spec_rights() == READ_ADD_WRITE,
    {
        URef { addr, rights: READ_ADD_WRITE }
    }

    /// The address without the rights.
    pub fn addr(&self) -> (r: Addr)
        ensures
            r == self.spec_addr(),
    {
        self.addr
    }

    /// The rights mask.
    pub fn access_rights(&self) -> (r: u8)
        ensures
            r == self.spec_rights(),
            r <= 7,
    {
        proof {
            use_type_invariant(self);
        }
        self.rights
    }

    /// Whether two capability addresses are the same.
    pub fn same(&self, other: &URef) -> (r: bool)
        ensures
            r == (*self == *other),
    {
        self.rights == other.rights && addr_eq(&self.addr, &other.addr)
    }
}

/// The address of an entity: of the system, of an account or of a smart
/// contract.
#[derive(Debug, Clone, Copy, PartialEq, Eq)]
pub enum EntityAddr {
    System(Addr),
    Account(Addr),
    SmartContract(Addr),
}

impl EntityAddr {
    /// Whether two entity addresses are the same.
    pub fn same(&self, other: &EntityAddr) -> (r: bool)
        ensures
            r == (*self == *other),
    {
        match (self, other) {
            (EntityAddr::System(a), EntityAddr::System(b)) => addr_eq(a, b),
            (EntityAddr::Account(a), EntityAddr::Account(b)) => addr_eq(a, b),
            (EntityAddr::SmartContract(a), EntityAddr::SmartContract(b)) => addr_eq(a, b),
            _ => false,
        }
    }
}

/// A tagged address into the global state.
#[derive(Clone, Copy, Debug, PartialEq, Eq)]
pub enum Key {
    /// An account, by its hash.
    Account(Addr),
    /// A stored record, by the hash of its content.
    Hash(Addr),
    /// A location named by a capability address.
    URef(URef),
    /// The balance that belongs to a purse address.
    Balance(Addr),
    /// A contract package.
    SmartContract(Addr),
    /// An addressable entity.
    AddressableEntity(EntityAddr),
}

impl View for Key {
    type V = Key;

    open spec fn view(&self) -> Key {
        *self
    }
}

impl Key {
    /// A key is well formed when the capability address inside it, if any, is.
    pub open spec fn wf(self) -> bool {
        match self {
            Key::URef(u) => u.wf(),
            _ => true,
        }
    }

    /// The capability address that a key names, if it names one.
    pub open spec fn spec_into_uref(self) -> Option<URef> {
        match self {
            Key::URef(u) => Some(u),
            _ => None,
        }
    }

    /// Every key in hand is well formed.
    pub fn check(&self)
        ensures
            self.wf(),
    {
        match self {
            Key::URef(u) => {
                proof {
                    use_type_invariant(u);
                }
            },
            _ => {},
        }
    }

    /// The capability address that a key names, if it names one.
    pub fn into_uref(self) -> (r: Option<URef>)
        ensures
            r == self.spec_into_uref(),
    {
        match self {
            Key::URef(u) => Some(u),
            _ => None,
        }
    }

    /// Whether two keys are the same.
    pub fn same(&self, other: &Key) -> (r: bool)
        ensures
            r == (*self == *other),
    {
        match (self, other) {
            (Key::Account(a), Key::Account(b)) => addr_eq(a, b),
            (Key::Hash(a), Key::Hash(b)) => addr_eq(a, b),
            (Key::URef(a), Key::URef(b)) => a.same(b),
            (Key::Balance(a), Key::Balance(b)) => addr_eq(a, b),
            (Key::SmartContract(a), Key::SmartContract(b)) => addr_eq(a, b),
            (Key::AddressableEntity(a), Key::AddressableEntity(b)) => a.same(b),
            _ => false,
        }
    }
}

impl MapKey for Key {
    fn same(&self, other: &Self) -> (r: bool) {
        Key::same(self, other)
    }
}

impl MapKey for String {
    fn same(&self, other: &Self) -> (r: bool) {
        *self == *other
    }
}

/// The unit value.
pub open spec fn spec_unit_value() -> CLValueView {
    CLValueView { cl_type: seq![9u8], bytes: Seq::empty() }
}

/// The balance of a new purse: zero, as a 512-bit number.
pub open spec fn spec_zero_balance() -> CLValueView {
    CLValueView { cl_type: seq![8u8], bytes: seq![0u8] }
}

/// A capability address as a typed value.
pub open spec fn spec_uref_value(u: URef) -> CLValueView {
    CLValueView { cl_type: seq![12u8], bytes: spec_uref_bytes(u) }
}

/// A 64-bit number as a typed value.
pub open spec fn spec_u64_value(x: u64) -> CLValueView {
    CLValueView { cl_type: seq![5u8], bytes: vstd::bytes::spec_u64_to_le_bytes(x) }
}

/// A byte as a typed value.
pub open spec fn spec_u8_value(x: u8) -> CLValueView {
    CLValueView { cl_type: seq![3u8], bytes: seq![x] }
}

/// A truth value as a typed value.
pub open spec fn spec_bool_value(x: bool) -> CLValueView {
    CLValueView { cl_type: seq![0u8], bytes: seq![if x { 1u8 } else { 0u8 }] }
}

/// What a typed value is, seen from a contract: the encoding of its type and
/// the encoding of the value itself.
pub struct CLValueView {
    pub cl_type: Seq<u8>,
    pub bytes: Seq<u8>,
}

/// A typed, serialized value.
#[derive(Debug, PartialEq, Eq)]
pub struct CLValue {
    pub(crate) cl_type: Vec<u8>,
    pub(crate) bytes: Vec<u8>,
}

impl View for CLValue {
    type V = CLValueView;

    closed spec fn view(&self) -> CLValueView {
        CLValueView { cl_type: self.cl_type@, bytes: self.bytes@ }
    }
}

/// A copy of a byte vector.
pub fn copy_bytes(v: &Vec<u8>) -> (r: Vec<u8>)
    ensures
        r@ == v@,
{
    let mut out: Vec<u8> = Vec::new();
    let mut i: usize = 0;
    while i < v.len()
        invariant
            i <= v.len(),
            out@ == v@.take(i as int),
        decreases v.len() - i,
    {
        out.push(v[i]);
        assert(v@.take(i + 1) == v@.take(i as int).push(v@[i as int]));
        i += 1;
    }
    assert(v@.take(v.len() as int) == v@);
    out
}

/// Whether two byte vectors hold the same bytes.
pub fn bytes_eq(a: &Vec<u8>, b: &Vec<u8>) -> (r: bool)
    ensures
        r == (a@ == b@),
{
    if a.len() != b.len() {
        return false;
    }
    let mut i: usize = 0;
    while i < a.len()
        invariant
            i <= a.len(),
            a.len() == b.len(),
            forall|j: int| 0 <= j < i ==> a[j] == b[j],
        decreases a.len() - i,
    {
        if a[i] != b[i] {
            return false;
        }
        i += 1;
    }
    assert(a@ =~= b@);
    true
}

impl CLValue {
    /// Every typed value can be encoded: its type is the encoding of a value
    /// type, and its length fits in four bytes.
    #[verifier::type_invariant]
    pub open spec fn inv(&self) -> bool {
        cl_value_wf(self@)
    }

    /// A typed value of the given type, or `None` where `cl_type` is not the
    /// encoding of a value type or `bytes` is too long to be encoded.
    pub fn new(cl_type: Vec<u8>, bytes: Vec<u8>) -> (r: Option<CLValue>)
        ensures
            r is Some <==> cl_value_wf(CLValueView { cl_type: cl_type@, bytes: bytes@ }),
            r is Some ==> r.unwrap()@ == (CLValueView { cl_type: cl_type@, bytes: bytes@ }),
    {
        if bytes.len() > 0xffff_ffff {
            return None;
        }
        if is_cl_type(cl_type.as_slice()) {
            Some(CLValue { cl_type, bytes })
        } else {
            None
        }
    }

    /// The unit value.
    pub fn unit() -> (r: CLValue)
        ensures
            r@ == spec_unit_value(),
    {
        let mut cl_type: Vec<u8> = Vec::new();
        cl_type.push(9);
        let known = is_cl_type(cl_type.as_slice());
        assert(known);
        CLValue { cl_type, bytes: Vec::new() }
    }

    /// The balance of a new purse.
    pub fn zero_balance() -> (r: CLValue)
        ensures
            r@ == spec_zero_balance(),
    {
        let mut cl_type: Vec<u8> = Vec::new();
        cl_type.push(8);
        let known = is_cl_type(cl_type.as_slice());
        assert(known);
        let mut bytes: Vec<u8> = Vec::new();
        bytes.push(0);
        CLValue { cl_type, bytes }
    }

    /// A capability address as a typed value.
    pub fn from_uref(uref: &URef) -> (r: CLValue)
        requires
            uref.wf(),
        ensures
            r@ == spec_uref_value(*uref),
    {
        let mut cl_type: Vec<u8> = Vec::new();
        cl_type.push(12);
        let known = is_cl_type(cl_type.as_slice());
        assert(known);
        CLValue { cl_type, bytes: encode_uref(uref) }
    }

    /// A 64-bit number as a typed value.
    pub fn from_u64(x: u64) -> (r: CLValue)
        ensures
            r@ == spec_u64_value(x),
    {
        let mut cl_type: Vec<u8> = Vec::new();
        cl_type.push(5);
        let known = is_cl_type(cl_type.as_slice());
        assert(known);
        let bytes = vstd::bytes::u64_to_le_bytes(x);
        CLValue { cl_type, bytes }
    }

    /// A byte as a typed value.
    pub fn from_u8(x: u8) -> (r: CLValue)
        ensures
            r@ == spec_u8_value(x),
    {
        let mut cl_type: Vec<u8> = Vec::new();
        cl_type.push(3);
        let known = is_cl_type(cl_type.as_slice());
        assert(known);
        let mut bytes: Vec<u8> = Vec::new();
        bytes.push(x);
        CLValue { cl_type, bytes }
    }

    /// A truth value as a typed value.
    pub fn from_bool(x: bool) -> (r: CLValue)
        ensures
            r@ == spec_bool_value(x),
    {
        let mut cl_type: Vec<u8> = Vec::new();
        cl_type.push(0);
        let known = is_cl_type(cl_type.as_slice());
        assert(known);
        let mut bytes: Vec<u8> = Vec::new();
        bytes.push(if x {
            1
        } else {
            0
        });
        CLValue { cl_type, bytes }
    }

    /// The length of the value's bytes.
    pub fn len(&self) -> (n: usize)
        ensures
            n == self@.bytes.len(),
    {
        self.bytes.len()
    }

    /// Hands out the value's bytes.
    pub fn into_bytes(self) -> (r: Vec<u8>)
        ensures
            r@ == self@.bytes,
    {
        self.bytes
    }

    /// The encoding of the value, without its type.
    pub fn inner_bytes(&self) -> (r: &Vec<u8>)
        ensures
            r@ == self@.bytes,
    {
        &self.bytes
    }

    /// The encoding of the value's type.
    pub fn cl_type(&self) -> (r: &Vec<u8>)
        ensures
            r@ == self@.cl_type,
    {
        &self.cl_type
    }

    /// A copy of the value.
    pub fn duplicate(&self) -> (r: CLValue)
        ensures
            r@ == self@,
    {
        proof {
            use_type_invariant(self);
        }
        CLValue { cl_type: copy_bytes(&self.cl_type), bytes: copy_bytes(&self.bytes) }
    }

    /// Whether two values have the same type and the same bytes.
    pub fn same(&self, other: &CLValue) -> (r: bool)
        ensures
            r == (self@ == other@),
    {
        bytes_eq(&self.cl_type, &other.cl_type) && bytes_eq(&self.bytes, &other.bytes)
    }
}

/// What a stored value is, seen from a contract.
pub enum StoredValueView {
    CLValue(CLValueView),
    Record(Seq<u8>),
}

/// What the global state holds under a key.
#[derive(Debug, PartialEq, Eq)]
pub enum StoredValue {
    /// A typed value: the common case.
    CLValue(CLValue),
    /// Any other record, in its stored form.
    Record(Vec<u8>),
}

impl View for StoredValue {
    type V = StoredValueView;

    open spec fn view(&self) -> StoredValueView {
        match self {
            StoredValue::CLValue(v) => StoredValueView::CLValue(v@),
            StoredValue::Record(b) => StoredValueView::Record(b@),
        }
    }
}

impl StoredValue {
    /// A copy of the stored value.
    pub fn duplicate(&self) -> (r: StoredValue)
        ensures
            r@ == self@,
    {
        match self {
            StoredValue::CLValue(v) => StoredValue::CLValue(v.duplicate()),
            StoredValue::Record(b) => StoredValue::Record(copy_bytes(b)),
        }
    }

    /// The typed value inside, if the stored value is one.
    pub fn as_cl_value(&self) -> (r: Option<&CLValue>)
        ensures
            match self@ {
                StoredValueView::CLValue(v) => r is Some && r.unwrap()@ == v,
                StoredValueView::Record(_) => r is None,
            },
    {
        match self {
            StoredValue::CLValue(v) => Some(v),
            StoredValue::Record(_) => None,
        }
    }
}

} // verus!
