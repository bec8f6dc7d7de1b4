//! Device addresses.
//!
//! A device is identified by a 48-bit device address together with its
//! type, public or random. Addresses are written as a number, most
//! significant byte first, and travel on air least significant byte first.
//! Comparing two addresses includes comparing their types.

use vstd::prelude::*;

verus! {

/// Whether a device address is public or random.
#[derive(Debug, Clone, Copy, PartialEq, Eq, Structural)]
pub enum AddressType {
    Public,
    Random,
}

/// What an address stands for: its six bytes as sent on air, least
/// significant first, and its type.
pub struct AddressView {
    pub bytes: Seq<u8>,
    pub kind: AddressType,
}

/// The six bytes of the low 48 bits of a number, least significant first.
pub open spec fn spec_u64_to_le(address: u64) -> Seq<u8> {
    seq![
        (address % 0x100) as u8,
        (address / 0x100 % 0x100) as u8,
        (address / 0x1_0000 % 0x100) as u8,
        (address / 0x100_0000 % 0x100) as u8,
        (address / 0x1_0000_0000 % 0x100) as u8,
        (address / 0x100_0000_0000 % 0x100) as u8,
    ]
}

/// The number whose six bytes, least significant first, are `bytes`.
pub open spec fn spec_le_to_u64(bytes: Seq<u8>) -> int
    recommends
        bytes.len() == 6,
{
    bytes[0] + bytes[1] * 0x100 + bytes[2] * 0x1_0000 + bytes[3] * 0x100_0000 + bytes[4]
        * 0x1_0000_0000 + bytes[5] * 0x100_0000_0000
}

impl AddressView {
    /// The address written as the number `address`, of which the low 48 bits
    /// count.
    pub open spec fn from_u64(address: u64, kind: AddressType) -> AddressView {
        AddressView { bytes: spec_u64_to_le(address), kind }
    }

    /// The address written as six bytes, most significant first.
    pub open spec fn from_be_bytes(address_be: Seq<u8>, kind: AddressType) -> AddressView {
        AddressView { bytes: address_be.reverse(), kind }
    }
}

/// A device address.
#[derive(Debug, Clone, Copy)]
pub struct Address {
    // Little endian address
    address_le: [u8; 6],
    kind: AddressType,
}

impl View for Address {
    type V = AddressView;

    closed spec fn view(&self) -> AddressView {
        AddressView { bytes: self.address_le@, kind: self.kind }
    }
}

impl PartialEq for Address {
    /// Two addresses are equal when both their bytes and their types are.
    fn eq(&self, other: &Address) -> (equal: bool) {
        let same_kind = match (self.kind, other.kind) {
            (AddressType::Public, AddressType::Public) => true,
            (AddressType::Random, AddressType::Random) => true,
            _ => false,
        };
        let same_bytes = self.address_le[0] == other.address_le[0] && self.address_le[1]
            == other.address_le[1] && self.address_le[2] == other.address_le[2]
            && self.address_le[3] == other.address_le[3] && self.address_le[4]
            == other.address_le[4] && self.address_le[5] == other.address_le[5];
        proof {
            if same_bytes {
                assert(self.address_le@ =~= other.address_le@);
            }
        }
        same_kind && same_bytes
    }
}

impl vstd::std_specs::cmp::PartialEqSpecImpl for Address {
    open spec fn obeys_eq_spec() -> bool {
        true
    }

    open spec fn eq_spec(&self, other: &Address) -> bool {
        self@ == other@
    }
}

impl Eq for Address {}

impl Address {
    /// Every address has six bytes, and an address is what its view says.
    pub proof fn lemma_view(self, other: Address)
        ensures
            self@.bytes.len() == 6,
            self@ == other@ <==> self == other,
    {
        if self@ == other@ {
            assert(self.address_le =~= other.address_le);
        }
    }

    /// From the six bytes as sent on air, least significant first.
    pub fn new_le(address_le: [u8; 6], address_type: AddressType) -> (address: Self)
        ensures
            address@ == (AddressView { bytes: address_le@, kind: address_type }),
    {
        Address { address_le, kind: address_type }
    }

    /// From six bytes, most significant first.
    pub fn new_be(address_be: [u8; 6], address_type: AddressType) -> (address: Self)
        ensures
            address@ == AddressView::from_be_bytes(address_be@, address_type),
    {
        let address_le = [
            address_be[5],
            address_be[4],
            address_be[3],
            address_be[2],
            address_be[1],
            address_be[0],
        ];
        assert(address_le@ =~= address_be@.reverse());
        Self::new_le(address_le, address_type)
    }

    /// The six low bytes of a number, least significant first.
    pub fn u64_to_le(address: u64) -> (bytes: [u8; 6])
        ensures
            bytes@ == spec_u64_to_le(address),
    {
        let bytes = [
            (address & 0xff) as u8,
            ((address >> 8) & 0xff) as u8,
            ((address >> 16) & 0xff) as u8,
            ((address >> 24) & 0xff) as u8,
            ((address >> 32) & 0xff) as u8,
            ((address >> 40) & 0xff) as u8,
        ];
        proof {
            assert(address & 0xff == address % 0x100) by (bit_vector);
            assert((address >> 8) & 0xff == address / 0x100 % 0x100) by (bit_vector);
            assert((address >> 16) & 0xff == address / 0x1_0000 % 0x100) by (bit_vector);
            assert((address >> 24) & 0xff == address / 0x100_0000 % 0x100) by (bit_vector);
            assert((address >> 32) & 0xff == address / 0x1_0000_0000 % 0x100) by (bit_vector);
            assert((address >> 40) & 0xff == address / 0x100_0000_0000 % 0x100) by (bit_vector);
            assert(bytes@ =~= spec_u64_to_le(address));
        }
        bytes
    }

    /// A public address from its number, of which the low 48 bits count.
    pub fn new_public(address: u64) -> (public: Self)
        ensures
            public@ == AddressView::from_u64(address, AddressType::Public),
    {
        Self::new_le(Self::u64_to_le(address), AddressType::Public)
    }

    /// A random address from its number, of which the low 48 bits count.
    pub fn new_random(address: u64) -> (random: Self)
        ensures
            random@ == AddressView::from_u64(address, AddressType::Random),
    {
        Self::new_le(Self::u64_to_le(address), AddressType::Random)
    }

    /// Whether the address is public or random.
    pub fn kind(&self) -> (kind: AddressType)
        ensures
            kind == self@.kind,
    {
        self.kind
    }

    /// The address as sent on air: least significant byte first.
    pub fn bytes(&self) -> (wire: [u8; 6])
        ensures
            wire@ == self@.bytes,
    {
        self.address_le
    }

    /// The address as it is transmitted: the same as `bytes`.
    pub fn transmission_bytes(&self) -> (wire: [u8; 6])
        ensures
            wire@ == self@.bytes,
    {
        self.address_le
    }

    /// The address as a number.
    pub fn u64_address(&self) -> (address: u64)
        ensures
            address == spec_le_to_u64(self@.bytes),
            address < 0x1_0000_0000_0000,
    {
        let b0: u64 = self.address_le[0] as u64;
        let b1: u64 = self.address_le[1] as u64;
        let b2: u64 = self.address_le[2] as u64;
        let b3: u64 = self.address_le[3] as u64;
        let b4: u64 = self.address_le[4] as u64;
        let b5: u64 = self.address_le[5] as u64;
        b0 + b1 * 0x100 + b2 * 0x1_0000 + b3 * 0x100_0000 + b4 * 0x1_0000_0000 + b5
            * 0x100_0000_0000
    }
}

/// A public and a random address are never equal, whatever their bytes.
pub proof fn lemma_kinds_differ(a: Address, b: Address)
    requires
        a@.kind != b@.kind,
    ensures
        a != b,
        a@ != b@,
{
    a.lemma_view(b);
}

/// The same number gives different addresses as a random and as a public
/// address.
pub proof fn lemma_random_is_not_public(address: u64)
    ensures
        AddressView::from_u64(address, AddressType::Random) != AddressView::from_u64(
            address,
            AddressType::Public,
        ),
{
}

/// Six bytes put together as a number, least significant first, lie below
/// 2^48, and taking that number apart gives the six bytes again.
proof fn lemma_join_split(b0: u8, b1: u8, b2: u8, b3: u8, b4: u8, b5: u8)
    ensures
        ({
            let n = b0 + b1 * 0x100 + b2 * 0x1_0000 + b3 * 0x100_0000 + b4 * 0x1_0000_0000 + b5
                * 0x100_0000_0000;
            &&& 0 <= n < 0x1_0000_0000_0000
            &&& n % 0x100 == b0
            &&& n / 0x100 % 0x100 == b1
            &&& n / 0x1_0000 % 0x100 == b2
            &&& n / 0x100_0000 % 0x100 == b3
            &&& n / 0x1_0000_0000 % 0x100 == b4
            &&& n / 0x100_0000_0000 % 0x100 == b5
        }),
{
    let n = b0 + b1 * 0x100 + b2 * 0x1_0000 + b3 * 0x100_0000 + b4 * 0x1_0000_0000 + b5
        * 0x100_0000_0000;
    let n1 = b1 + b2 * 0x100 + b3 * 0x1_0000 + b4 * 0x100_0000 + b5 * 0x1_0000_0000;
    let n2 = b2 + b3 * 0x100 + b4 * 0x1_0000 + b5 * 0x100_0000;
    let n3 = b3 + b4 * 0x100 + b5 * 0x1_0000;
    let n4 = b4 + b5 * 0x100;
    assert(n == b0 + n1 * 0x100);
    assert(n1 == b1 + n2 * 0x100);
    assert(n2 == b2 + n3 * 0x100);
    assert(n3 == b3 + n4 * 0x100);
    assert(n / 0x100 == n1 && n % 0x100 == b0);
    assert(n1 / 0x100 == n2 && n1 % 0x100 == b1);
    assert(n2 / 0x100 == n3 && n2 % 0x100 == b2);
    assert(n3 / 0x100 == n4 && n3 % 0x100 == b3);
    assert(n4 / 0x100 == b5 && n4 % 0x100 == b4);
    assert(n / 0x1_0000 == n2);
    assert(n / 0x100_0000 == n3);
    assert(n / 0x1_0000_0000 == n4);
    assert(n / 0x100_0000_0000 == b5);
}

/// An address written as a number and the same address written as six
/// bytes, most significant first, are one address.
pub proof fn lemma_construction_paths_agree(address: u64, address_be: Seq<u8>, kind: AddressType)
    requires
        address_be.len() == 6,
        address == address_be[0] * 0x100_0000_0000 + address_be[1] * 0x1_0000_0000 + address_be[2]
            * 0x100_0000 + address_be[3] * 0x1_0000 + address_be[4] * 0x100 + address_be[5],
    ensures
        AddressView::from_u64(address, kind) == AddressView::from_be_bytes(address_be, kind),
{
    lemma_join_split(
        address_be[5],
        address_be[4],
        address_be[3],
        address_be[2],
        address_be[1],
        address_be[0],
    );
    assert(spec_u64_to_le(address) =~= address_be.reverse());
}

/// Reading an address back as a number gives the low 48 bits of the number
/// it was made from, and the bytes of that number are the address again.
pub proof fn lemma_u64_round_trip(address: u64, bytes: Seq<u8>)
    ensures
        spec_le_to_u64(spec_u64_to_le(address)) == address % 0x1_0000_0000_0000,
        bytes.len() == 6 ==> 0 <= spec_le_to_u64(bytes) < 0x1_0000_0000_0000 && spec_u64_to_le(
            spec_le_to_u64(bytes) as u64,
        ) == bytes,
{
    assert((address % 0x100) + (address / 0x100 % 0x100) * 0x100 + (address / 0x1_0000 % 0x100)
        * 0x1_0000 + (address / 0x100_0000 % 0x100) * 0x100_0000 + (address / 0x1_0000_0000
        % 0x100) * 0x1_0000_0000 + (address / 0x100_0000_0000 % 0x100) * 0x100_0000_0000 == address
        % 0x1_0000_0000_0000) by (bit_vector);
    if bytes.len() == 6 {
        lemma_join_split(bytes[0], bytes[1], bytes[2], bytes[3], bytes[4], bytes[5]);
        assert(spec_u64_to_le(spec_le_to_u64(bytes) as u64) =~= bytes);
    }
}

} // verus!
