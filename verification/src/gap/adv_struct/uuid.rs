//! Service UUIDs and lists of them.
//!
//! A UUID of 16, 32 or 128 bits is sent most significant byte first. In a
//! list, every UUID follows an AD type of its own: the last one the type of
//! a complete list, the others the type of an incomplete list.

use vstd::prelude::*;
use crate::buffer::spec_write_at;
use crate::gap::adv_struct::DecodeError;

verus! {

pub type Uuid16 = u16;

pub type Uuid32 = u32;

pub type Uuid128 = u128;

/// The `len` low bytes of a number, most significant first.
pub open spec fn spec_be_bytes(value: nat, len: nat) -> Seq<u8>
    decreases len,
{
    if len == 0 {
        Seq::empty()
    } else {
        spec_be_bytes(value / 256, (len - 1) as nat).push((value % 256) as u8)
    }
}

/// The number that bytes spell, most significant first.
pub open spec fn spec_be_value(bytes: Seq<u8>) -> nat
    decreases bytes.len(),
{
    if bytes.len() == 0 {
        0
    } else {
        spec_be_value(bytes.drop_last()) * 256 + bytes.last() as nat
    }
}

/// 256 to the power of `len`.
pub open spec fn spec_pow256(len: nat) -> nat
    decreases len,
{
    if len == 0 {
        1
    } else {
        256 * spec_pow256((len - 1) as nat)
    }
}

/// A number has as many bytes as were asked for.
pub proof fn lemma_be_bytes_len(value: nat, len: nat)
    ensures
        spec_be_bytes(value, len).len() == len,
    decreases len,
{
    if len > 0 {
        lemma_be_bytes_len(value / 256, (len - 1) as nat);
    }
}

/// Every power of 256 is positive.
pub proof fn lemma_pow256_positive(len: nat)
    ensures
        spec_pow256(len) > 0,
    decreases len,
{
    if len > 0 {
        lemma_pow256_positive((len - 1) as nat);
    }
}

/// The bytes of a number spell the number again, as far as it fits into
/// them.
pub proof fn lemma_be_value_of_bytes(value: nat, len: nat)
    ensures
        spec_be_value(spec_be_bytes(value, len)) == value % spec_pow256(len),
    decreases len,
{
    lemma_be_bytes_len(value, len);
    if len > 0 {
        let rest = (len - 1) as nat;
        lemma_be_value_of_bytes(value / 256, rest);
        lemma_be_bytes_len(value / 256, rest);
        let all = spec_be_bytes(value, len);
        assert(all.drop_last() =~= spec_be_bytes(value / 256, rest));
        lemma_pow256_positive(rest);
        lemma_mod_step(value, spec_pow256(rest));
    }
}

/// What bytes spell fits into as many bytes, and has these bytes.
pub proof fn lemma_be_bytes_of_value(bytes: Seq<u8>)
    ensures
        spec_be_value(bytes) < spec_pow256(bytes.len()),
        spec_be_bytes(spec_be_value(bytes), bytes.len()) == bytes,
    decreases bytes.len(),
{
    if bytes.len() > 0 {
        lemma_be_bytes_of_value(bytes.drop_last());
        let high = spec_be_value(bytes.drop_last());
        let low = bytes.last() as nat;
        let rest = (bytes.len() - 1) as nat;
        assert(high * 256 + low < 256 * spec_pow256(rest)) by (nonlinear_arith)
            requires
                high < spec_pow256(rest),
                low < 256,
        ;
        assert((high * 256 + low) / 256 == high && (high * 256 + low) % 256 == low);
        assert(spec_be_bytes(spec_be_value(bytes), bytes.len()) =~= bytes);
    } else {
        assert(spec_be_bytes(spec_be_value(bytes), bytes.len()) =~= bytes);
    }
}

/// The remainder by 256 times a modulus, from the remainder of the
/// quotient by 256.
proof fn lemma_mod_step(value: nat, modulus: nat)
    requires
        modulus > 0,
    ensures
        (value / 256 % modulus) * 256 + value % 256 == value % (256 * modulus),
{
    let q = value / 256;
    let r = value % 256;
    let qq = q / modulus;
    let qr = q % modulus;
    assert(q == qq * modulus + qr) by (nonlinear_arith)
        requires
            qq == q / modulus,
            qr == q % modulus,
            modulus > 0,
    ;
    assert(value == qq * (256 * modulus) + (qr * 256 + r)) by (nonlinear_arith)
        requires
            value == q * 256 + r,
            q == qq * modulus + qr,
    ;
    assert(0 <= qr * 256 + r < 256 * modulus) by (nonlinear_arith)
        requires
            0 <= qr < modulus,
            0 <= r < 256,
    ;
    vstd::arithmetic::div_mod::lemma_fundamental_div_mod_converse(
        value as int,
        (256 * modulus) as int,
        qq as int,
        (qr * 256 + r) as int,
    );
}

/// Powers of 256 grow with the exponent, and the sixteenth is 2^128.
pub proof fn lemma_pow256_bound(len: nat)
    requires
        len <= 16,
    ensures
        spec_pow256(len) <= 0x1_0000_0000_0000_0000_0000_0000_0000_0000,
        spec_pow256(2) == 0x1_0000,
        spec_pow256(4) == 0x1_0000_0000,
        spec_pow256(16) == 0x1_0000_0000_0000_0000_0000_0000_0000_0000,
{
    reveal_with_fuel(spec_pow256, 17);
}

/// Writes a number into the whole of `dest`, most significant byte first.
fn write_be(value: u128, dest: &mut [u8])
    requires
        old(dest)@.len() <= 16,
    ensures
        final(dest)@ == spec_be_bytes(value as nat, old(dest)@.len()),
{
    let len: usize = dest.len();
    let mut rest: u128 = value;
    let mut i: usize = len;
    assert(dest@.subrange(len as int, len as int) =~= Seq::<u8>::empty());
    while i > 0
        invariant
            i <= len,
            len == dest@.len(),
            spec_be_bytes(value as nat, len as nat) == spec_be_bytes(rest as nat, i as nat)
                + dest@.subrange(i as int, len as int),
        decreases i,
    {
        let ghost before = dest@;
        i -= 1;
        dest[i] = (rest % 256) as u8;
        proof {
            lemma_be_bytes_len(rest as nat / 256, i as nat);
            assert(dest@.subrange(i as int, len as int) =~= seq![(rest % 256) as u8]
                + before.subrange(i + 1, len as int));
            assert(spec_be_bytes(rest as nat, (i + 1) as nat) + before.subrange(i + 1, len as int)
                =~= spec_be_bytes(rest as nat / 256, i as nat) + dest@.subrange(
                i as int,
                len as int,
            ));
        }
        rest = rest / 256;
    }
    assert(dest@ =~= spec_be_bytes(value as nat, len as nat));
}

/// Reads the number that the first `len` bytes spell, most significant byte
/// first.
fn read_be(bytes: &[u8], len: usize) -> (value: u128)
    requires
        len <= 16,
        len <= bytes@.len(),
    ensures
        value == spec_be_value(bytes@.subrange(0, len as int)),
        value < spec_pow256(len as nat),
{
    let mut value: u128 = 0;
    let mut i: usize = 0;
    while i < len
        invariant
            i <= len,
            len <= 16,
            len <= bytes@.len(),
            value == spec_be_value(bytes@.subrange(0, i as int)),
            value < spec_pow256(i as nat),
        decreases len - i,
    {
        proof {
            lemma_pow256_bound((i + 1) as nat);
            let next = bytes@.subrange(0, i + 1);
            assert(next.drop_last() =~= bytes@.subrange(0, i as int));
            assert(value * 256 + bytes@[i as int] < 256 * spec_pow256(i as nat))
                by (nonlinear_arith)
                requires
                    value < spec_pow256(i as nat),
                    bytes@[i as int] < 256,
            ;
        }
        value = value * 256 + bytes[i] as u128;
        i += 1;
    }
    value
}

/// A service UUID of one of the three sizes.
pub trait Uuid: Sized + Copy + Default + PartialEq + Eq {
    /// The AD type before every UUID of a list but the last.
    const INCOMPLETE_AD_TYPE: u8;

    /// The AD type before the last UUID of a list.
    const COMPLETE_AD_TYPE: u8;

    /// The value of `INCOMPLETE_AD_TYPE`.
    spec fn spec_incomplete_ad_type() -> u8;

    /// The value of `COMPLETE_AD_TYPE`.
    spec fn spec_complete_ad_type() -> u8;

    /// The number of bytes of a UUID.
    spec fn spec_size() -> nat;

    /// The UUID as sent, most significant byte first.
    spec fn spec_bytes(&self) -> Seq<u8>;

    /// The UUID that bytes spell.
    spec fn spec_parse(bytes: Seq<u8>) -> Self;

    /// The two AD types differ, and a UUID has between 1 and 16 bytes.
    proof fn lemma_ad_types()
        ensures
            Self::INCOMPLETE_AD_TYPE == Self::spec_incomplete_ad_type(),
            Self::COMPLETE_AD_TYPE == Self::spec_complete_ad_type(),
            Self::spec_incomplete_ad_type() != Self::spec_complete_ad_type(),
            1 <= Self::spec_size() <= 16,
    ;

    /// A UUID and its bytes stand for each other.
    proof fn lemma_uuid(uuid: Self, bytes: Seq<u8>)
        ensures
            uuid.spec_bytes().len() == Self::spec_size(),
            Self::spec_parse(uuid.spec_bytes()) == uuid,
            bytes.len() == Self::spec_size() ==> Self::spec_parse(bytes).spec_bytes() == bytes,
    ;

    /// The number of bytes of a UUID.
    fn size() -> (size: usize)
        ensures
            size == Self::spec_size(),
    ;

    /// Writes the UUID into `dest`, which has just the room for it.
    fn bytes(&self, dest: &mut [u8]) -> (len: usize)
        requires
            old(dest)@.len() == Self::spec_size(),
        ensures
            len == Self::spec_size(),
            final(dest)@ == self.spec_bytes(),
    ;

    /// Reads the UUID at the start of `bytes`.
    fn parse(bytes: &[u8]) -> (uuid: Self)
        requires
            bytes@.len() >= Self::spec_size(),
        ensures
            uuid == Self::spec_parse(bytes@.subrange(0, Self::spec_size() as int)),
    ;
}

impl Uuid for Uuid16 {
    const INCOMPLETE_AD_TYPE: u8 = 0x02;

    const COMPLETE_AD_TYPE: u8 = 0x03;

    open spec fn spec_incomplete_ad_type() -> u8 {
        0x02
    }

    open spec fn spec_complete_ad_type() -> u8 {
        0x03
    }

    open spec fn spec_size() -> nat {
        2
    }

    open spec fn spec_bytes(&self) -> Seq<u8> {
        spec_be_bytes(*self as nat, 2)
    }

    open spec fn spec_parse(bytes: Seq<u8>) -> Self {
        spec_be_value(bytes) as u16
    }

    proof fn lemma_ad_types() {
        assert(Self::INCOMPLETE_AD_TYPE == 0x02);
        assert(Self::COMPLETE_AD_TYPE == 0x03);
    }

    proof fn lemma_uuid(uuid: Self, bytes: Seq<u8>) {
        lemma_pow256_bound(2);
        lemma_be_bytes_len(uuid as nat, 2);
        lemma_be_value_of_bytes(uuid as nat, 2);
        lemma_be_bytes_of_value(bytes);
    }

    fn size() -> (size: usize) {
        2
    }

    fn bytes(&self, dest: &mut [u8]) -> (len: usize) {
        write_be(*self as u128, dest);
        2
    }

    fn parse(bytes: &[u8]) -> (uuid: Self) {
        proof {
            lemma_pow256_bound(2);
        }
        read_be(bytes, 2) as u16
    }
}

impl Uuid for Uuid32 {
    const INCOMPLETE_AD_TYPE: u8 = 0x04;

    const COMPLETE_AD_TYPE: u8 = 0x05;

    open spec fn spec_incomplete_ad_type() -> u8 {
        0x04
    }

    open spec fn spec_complete_ad_type() -> u8 {
        0x05
    }

    open spec fn spec_size() -> nat {
        4
    }

    open spec fn spec_bytes(&self) -> Seq<u8> {
        spec_be_bytes(*self as nat, 4)
    }

    open spec fn spec_parse(bytes: Seq<u8>) -> Self {
        spec_be_value(bytes) as u32
    }

    proof fn lemma_ad_types() {
        assert(Self::INCOMPLETE_AD_TYPE == 0x04);
        assert(Self::COMPLETE_AD_TYPE == 0x05);
    }

    proof fn lemma_uuid(uuid: Self, bytes: Seq<u8>) {
        lemma_pow256_bound(4);
        lemma_be_bytes_len(uuid as nat, 4);
        lemma_be_value_of_bytes(uuid as nat, 4);
        lemma_be_bytes_of_value(bytes);
    }

    fn size() -> (size: usize) {
        4
    }

    fn bytes(&self, dest: &mut [u8]) -> (len: usize) {
        write_be(*self as u128, dest);
        4
    }

    fn parse(bytes: &[u8]) -> (uuid: Self) {
        proof {
            lemma_pow256_bound(4);
        }
        read_be(bytes, 4) as u32
    }
}

impl Uuid for Uuid128 {
    const INCOMPLETE_AD_TYPE: u8 = 0x06;

    const COMPLETE_AD_TYPE: u8 = 0x07;

    open spec fn spec_incomplete_ad_type() -> u8 {
        0x06
    }

    open spec fn spec_complete_ad_type() -> u8 {
        0x07
    }

    open spec fn spec_size() -> nat {
        16
    }

    open spec fn spec_bytes(&self) -> Seq<u8> {
        spec_be_bytes(*self as nat, 16)
    }

    open spec fn spec_parse(bytes: Seq<u8>) -> Self {
        spec_be_value(bytes) as u128
    }

    proof fn lemma_ad_types() {
        assert(Self::INCOMPLETE_AD_TYPE == 0x06);
        assert(Self::COMPLETE_AD_TYPE == 0x07);
    }

    proof fn lemma_uuid(uuid: Self, bytes: Seq<u8>) {
        lemma_pow256_bound(16);
        lemma_be_bytes_len(uuid as nat, 16);
        lemma_be_value_of_bytes(uuid as nat, 16);
        lemma_be_bytes_of_value(bytes);
    }

    fn size() -> (size: usize) {
        16
    }

    fn bytes(&self, dest: &mut [u8]) -> (len: usize) {
        write_be(*self, dest);
        16
    }

    fn parse(bytes: &[u8]) -> (uuid: Self) {
        proof {
            lemma_pow256_bound(16);
        }
        read_be(bytes, 16)
    }
}

/// A list of service UUIDs of one size.
#[derive(Debug, Clone, Copy, PartialEq, Eq)]
pub struct List<'a, T: Uuid>(pub &'a [T]);

/// One UUID of a list as sent: its AD type, then its bytes.
pub open spec fn spec_block<T: Uuid>(ad_type: u8, uuid: T) -> Seq<u8> {
    seq![ad_type] + uuid.spec_bytes()
}

/// The UUIDs of a list that are not its last, as sent: each after the AD
/// type of an incomplete list.
pub open spec fn spec_incomplete_blocks<T: Uuid>(uuids: Seq<T>) -> Seq<u8>
    decreases uuids.len(),
{
    if uuids.len() == 0 {
        Seq::empty()
    } else {
        spec_incomplete_blocks(uuids.drop_last()) + spec_block(
            T::spec_incomplete_ad_type(),
            uuids.last(),
        )
    }
}

/// A list as sent: every UUID after the AD type of an incomplete list, but
/// the last after that of a complete list. An empty list has no bytes.
pub open spec fn spec_list_bytes<T: Uuid>(uuids: Seq<T>) -> Seq<u8> {
    if uuids.len() == 0 {
        Seq::empty()
    } else {
        spec_incomplete_blocks(uuids.drop_last()) + spec_block(
            T::spec_complete_ad_type(),
            uuids.last(),
        )
    }
}

/// The UUIDs that bytes hold: one per block up to and with the first block
/// that has the AD type of a complete list. What follows that block is not
/// looked at.
pub open spec fn spec_parse_blocks<T: Uuid>(bytes: Seq<u8>) -> Result<Seq<T>, DecodeError>
    decreases bytes.len(),
{
    let block_size = 1 + T::spec_size();
    if bytes.len() < block_size {
        Err(DecodeError::InvalidLength)
    } else {
        let uuid = T::spec_parse(bytes.subrange(1, block_size as int));
        if bytes[0] == T::spec_complete_ad_type() {
            Ok(seq![uuid])
        } else {
            match spec_parse_blocks::<T>(bytes.skip(block_size as int)) {
                Ok(rest) => Ok(seq![uuid] + rest),
                Err(error) => Err(error),
            }
        }
    }
}

/// The list that bytes hold. No bytes hold the empty list.
pub open spec fn spec_parse_list<T: Uuid>(bytes: Seq<u8>) -> Result<Seq<T>, DecodeError> {
    if bytes.len() == 0 {
        Ok(Seq::empty())
    } else {
        spec_parse_blocks::<T>(bytes)
    }
}

/// A list takes one byte more than a UUID for each of its UUIDs.
pub proof fn lemma_list_bytes_len<T: Uuid>(uuids: Seq<T>)
    ensures
        spec_incomplete_blocks(uuids).len() == uuids.len() * (1 + T::spec_size()),
        spec_list_bytes(uuids).len() == uuids.len() * (1 + T::spec_size()),
    decreases uuids.len(),
{
    let block_size = 1 + T::spec_size();
    if uuids.len() > 0 {
        let front = uuids.drop_last();
        lemma_list_bytes_len(front);
        T::lemma_uuid(uuids.last(), Seq::empty());
        assert(spec_block(T::spec_incomplete_ad_type(), uuids.last()).len() == block_size);
        assert(spec_block(T::spec_complete_ad_type(), uuids.last()).len() == block_size);
        assert(front.len() * block_size + block_size == uuids.len() * block_size)
            by (nonlinear_arith)
            requires
                front.len() + 1 == uuids.len(),
        ;
    } else {
        assert(uuids.len() * block_size == 0) by (nonlinear_arith)
            requires
                uuids.len() == 0,
        ;
    }
}

impl<'a, T> List<'a, T> where T: Uuid {
    /// Write the list of UUIDs to the start of the given buffer, which must
    /// be large enough to hold all of them, and return the number of bytes
    /// written. The rest of the buffer stays as it is.
    pub fn bytes(&self, dest: &mut [u8]) -> (len: usize)
        requires
            self.0@.len() * (1 + T::spec_size()) <= old(dest)@.len(),
        ensures
            len == self.0@.len() * (1 + T::spec_size()),
            final(dest)@ == spec_write_at(old(dest)@, 0, spec_list_bytes(self.0@)),
    {
        proof {
            T::lemma_ad_types();
            lemma_list_bytes_len(self.0@);
        }
        // 1 byte for the AD type and N bytes for the UUID
        let block_size: usize = 1 + T::size();
        let count: usize = self.0.len();
        let capacity: usize = dest.len();
        if count == 0 {
            assert(dest@ =~= spec_write_at(old(dest)@, 0, spec_list_bytes(self.0@)));
            return 0;
        }
        assert(self.0@.subrange(0, 0) =~= Seq::<T>::empty());
        assert(dest@.subrange(0, 0) =~= Seq::<u8>::empty());

        let mut start: usize = 0;
        let mut end: usize = 0;
        let mut i: usize = 0;
        while i < count
            invariant
                i <= count,
                count == self.0@.len(),
                count > 0,
                block_size == 1 + T::spec_size(),
                capacity == dest@.len(),
                dest@.len() == old(dest)@.len(),
                count * block_size <= capacity,
                end == i * block_size,
                end <= capacity,
                i > 0 ==> start + block_size == end,
                dest@.subrange(0, end as int) == spec_incomplete_blocks(
                    self.0@.subrange(0, i as int),
                ),
                forall|j: int| end <= j < capacity ==> dest@[j] == old(dest)@[j],
            decreases count - i,
        {
            proof {
                assert((i + 1) * block_size <= count * block_size) by (nonlinear_arith)
                    requires
                        i + 1 <= count,
                ;
                assert((i + 1) * block_size == i * block_size + block_size) by (nonlinear_arith);
            }
            let ghost before = dest@;
            start = end;
            end = start + block_size;

            dest[start] = T::INCOMPLETE_AD_TYPE;
            let ghost typed = dest@;
            let (_, tail) = dest.split_at_mut(start + 1);
            let (block, _) = tail.split_at_mut(block_size - 1);
            self.0[i].bytes(block);
            proof {
                let uuid = self.0@[i as int];
                T::lemma_ad_types();
                T::lemma_uuid(uuid, Seq::empty());
                let done = self.0@.subrange(0, i + 1);
                assert(done.drop_last() =~= self.0@.subrange(0, i as int));
                assert(done.last() == uuid);
                assert(dest@ =~= typed.subrange(0, start + 1) + uuid.spec_bytes() + typed.subrange(
                    end as int,
                    capacity as int,
                ));
                assert(dest@.subrange(0, end as int) =~= before.subrange(0, start as int)
                    + spec_block(T::spec_incomplete_ad_type(), uuid));
            }
            i += 1;
        }
        // Set the last AD type to indicate the end of the list
        let ghost before = dest@;
        dest[start] = T::COMPLETE_AD_TYPE;
        proof {
            let last = self.0@.last();
            let front = self.0@.drop_last();
            T::lemma_uuid(last, Seq::empty());
            lemma_list_bytes_len(front);
            assert(self.0@.subrange(0, count as int) =~= self.0@);
            assert((count - 1) * block_size + block_size == count * block_size)
                by (nonlinear_arith);
            let blocks = spec_incomplete_blocks(self.0@);
            assert(blocks == spec_incomplete_blocks(front) + spec_block(
                T::spec_incomplete_ad_type(),
                last,
            ));
            assert(dest@.subrange(0, end as int) =~= blocks.update(
                start as int,
                T::spec_complete_ad_type(),
            ));
            assert(blocks.update(start as int, T::spec_complete_ad_type()) =~= spec_list_bytes(
                self.0@,
            ));
            assert(dest@ =~= spec_write_at(old(dest)@, 0, spec_list_bytes(self.0@)));
        }

        end
    }

    /// Parse the list of UUIDs at the start of the given bytes into `dest`,
    /// which must be large enough to hold all of them. The list that comes
    /// back is the part of `dest` that was filled.
    pub fn parse(bytes: &[u8], dest: &'a mut [T]) -> (list: Result<Self, DecodeError>)
        ensures
            match spec_parse_list::<T>(bytes@) {
                Ok(uuids) => if uuids.len() <= old(dest)@.len() {
                    list matches Ok(parsed) && parsed.0@ == uuids
                } else {
                    list matches Err(error) && error == DecodeError::InvalidLength
                },
                Err(error) => list matches Err(found) && found == error,
            },
    {
        let capacity: usize = dest.len();
        if bytes.is_empty() {
            let filled: &'a [T] = dest;
            let none = &filled[0..0];
            assert(none@ =~= Seq::<T>::empty());
            return Ok(List(none));
        }
        proof {
            T::lemma_ad_types();
            assert(bytes@.skip(0) =~= bytes@);
            assert(dest@.subrange(0, 0) =~= Seq::<T>::empty());
        }
        let block_size: usize = 1 + T::size();

        let mut offset: usize = 0;
        let mut i: usize = 0;
        loop
            invariant_except_break
                spec_parse_blocks::<T>(bytes@) == match spec_parse_blocks::<T>(
                    bytes@.skip(offset as int),
                ) {
                    Ok(rest) => Ok(dest@.subrange(0, i as int) + rest),
                    Err(error) => Err(error),
                },
            invariant
                block_size == 1 + T::spec_size(),
                capacity == dest@.len(),
                capacity == old(dest)@.len(),
                offset <= bytes@.len(),
                bytes@.len() > 0,
                i <= capacity,
            ensures
                spec_parse_blocks::<T>(bytes@) == Ok::<Seq<T>, DecodeError>(
                    dest@.subrange(0, i as int),
                ),
            decreases bytes@.len() - offset,
        {
            proof {
                T::lemma_ad_types();
                lemma_parse_blocks::<T>(bytes@.skip(offset as int));
            }
            if bytes.len() - offset < block_size {
                return Err(DecodeError::InvalidLength);
            }
            if i >= capacity {
                assert(dest@.subrange(0, i as int).len() == capacity);
                return Err(DecodeError::InvalidLength);
            }
            let ghost rest = bytes@.skip(offset as int);
            let ghost parsed = dest@.subrange(0, i as int);
            let ad_type = bytes[offset];
            let data = &bytes[(offset + 1)..(offset + block_size)];
            assert(data@ =~= rest.subrange(1, block_size as int));
            assert(data@.subrange(0, T::spec_size() as int) =~= data@);
            dest[i] = T::parse(data);

            proof {
                assert(rest.skip(block_size as int) =~= bytes@.skip(offset + block_size));
                assert(dest@.subrange(0, i + 1) =~= parsed + seq![dest@[i as int]]);
                assert(forall|more: Seq<T>|
                    parsed + (seq![dest@[i as int]] + more) =~= dest@.subrange(0, i + 1) + more);
            }
            i += 1;
            offset += block_size;
            if ad_type == T::COMPLETE_AD_TYPE {
                break ;
            }
        }

        let filled: &'a [T] = dest;
        Ok(List(&filled[0..i]))
    }
}

/// Where bytes hold a list at all, it has at least one UUID; and the one
/// thing that can be wrong with them is that they end too early.
pub proof fn lemma_parse_blocks<T: Uuid>(bytes: Seq<u8>)
    ensures
        match spec_parse_blocks::<T>(bytes) {
            Ok(uuids) => uuids.len() >= 1,
            Err(error) => error == DecodeError::InvalidLength,
        },
    decreases bytes.len(),
{
    let block_size = 1 + T::spec_size();
    if bytes.len() >= block_size && bytes[0] != T::spec_complete_ad_type() {
        lemma_parse_blocks::<T>(bytes.skip(block_size as int));
    }
}

/// Reading a list from its bytes gives the list back, whatever bytes follow
/// it.
pub proof fn lemma_list_round_trip<T: Uuid>(uuids: Seq<T>, rest: Seq<u8>)
    requires
        uuids.len() > 0,
    ensures
        spec_parse_blocks::<T>(spec_list_bytes(uuids) + rest) == Ok::<Seq<T>, DecodeError>(uuids),
        rest.len() == 0 ==> spec_parse_list::<T>(spec_list_bytes(uuids)) == Ok::<
            Seq<T>,
            DecodeError,
        >(uuids),
    decreases uuids.len(),
{
    T::lemma_ad_types();
    let block_size = 1 + T::spec_size();
    let last = spec_block(T::spec_complete_ad_type(), uuids.last());
    lemma_parse_incomplete_blocks(uuids.drop_last(), last + rest);
    T::lemma_uuid(uuids.last(), Seq::empty());
    let tail = last + rest;
    assert(tail.subrange(1, block_size as int) =~= uuids.last().spec_bytes());
    assert(spec_parse_blocks::<T>(tail) == Ok::<Seq<T>, DecodeError>(seq![uuids.last()]));
    assert(uuids.drop_last() + seq![uuids.last()] =~= uuids);
    assert(spec_list_bytes(uuids) + rest =~= spec_incomplete_blocks(uuids.drop_last()) + tail);
    lemma_list_bytes_len(uuids);
    if rest.len() == 0 {
        assert(spec_list_bytes(uuids) + rest =~= spec_list_bytes(uuids));
        assert(uuids.len() * block_size >= block_size) by (nonlinear_arith)
            requires
                uuids.len() >= 1,
                block_size >= 0,
        ;
    }
}

/// UUIDs sent as not the last of a list are read, one by one, before what
/// follows them.
proof fn lemma_parse_incomplete_blocks<T: Uuid>(uuids: Seq<T>, tail: Seq<u8>)
    ensures
        spec_parse_blocks::<T>(spec_incomplete_blocks(uuids) + tail) == match spec_parse_blocks::<
            T,
        >(tail) {
            Ok(rest) => Ok(uuids + rest),
            Err(error) => Err(error),
        },
    decreases uuids.len(),
{
    T::lemma_ad_types();
    let block_size = 1 + T::spec_size();
    if uuids.len() == 0 {
        assert(spec_incomplete_blocks(uuids) + tail =~= tail);
        match spec_parse_blocks::<T>(tail) {
            Ok(rest) => {
                assert(uuids + rest =~= rest);
            },
            Err(_) => {},
        }
    } else {
        let front = uuids.drop_last();
        let block = spec_block(T::spec_incomplete_ad_type(), uuids.last());
        T::lemma_uuid(uuids.last(), Seq::empty());
        lemma_parse_incomplete_blocks(front, block + tail);
        assert(spec_incomplete_blocks(uuids) + tail =~= spec_incomplete_blocks(front) + (block
            + tail));
        let more = block + tail;
        assert(more.subrange(1, block_size as int) =~= uuids.last().spec_bytes());
        assert(more.skip(block_size as int) =~= tail);
        match spec_parse_blocks::<T>(tail) {
            Ok(rest) => {
                assert(front + (seq![uuids.last()] + rest) =~= uuids + rest);
            },
            Err(_) => {},
        }
    }
}

/// One 16-bit service UUID of an incomplete list.
#[derive(Debug, Clone, Copy, PartialEq, Eq, Structural)]
pub struct IncompleteListOf16BitServiceUuids(pub Uuid16);

impl IncompleteListOf16BitServiceUuids {
    /// The AD type of this structure.
    pub const AD_TYPE: u8 = 0x02;

    /// The UUID as sent, most significant byte first.
    pub fn bytes(&self) -> (bytes: [u8; 2])
        ensures
            bytes@ == self.0.spec_bytes(),
    {
        let mut bytes = [0u8; 2];
        self.0.bytes(&mut bytes);
        bytes
    }

    /// The UUID that the bytes spell.
    pub fn parse(bytes: &[u8; 2]) -> (uuid: Self)
        ensures
            uuid.0 == Uuid16::spec_parse(bytes@),
    {
        assert(bytes@.subrange(0, 2) =~= bytes@);
        Self(Uuid16::parse(bytes.as_slice()))
    }
}

/// One 16-bit service UUID of a complete list.
#[derive(Debug, Clone, Copy, PartialEq, Eq, Structural)]
pub struct CompleteListOf16BitServiceUuids(pub Uuid16);

impl CompleteListOf16BitServiceUuids {
    /// The AD type of this structure.
    pub const AD_TYPE: u8 = 0x03;

    /// The UUID as sent, most significant byte first.
    pub fn bytes(&self) -> (bytes: [u8; 2])
        ensures
            bytes@ == self.0.spec_bytes(),
    {
        let mut bytes = [0u8; 2];
        self.0.bytes(&mut bytes);
        bytes
    }

    /// The UUID that the bytes spell.
    pub fn parse(bytes: &[u8; 2]) -> (uuid: Self)
        ensures
            uuid.0 == Uuid16::spec_parse(bytes@),
    {
        assert(bytes@.subrange(0, 2) =~= bytes@);
        Self(Uuid16::parse(bytes.as_slice()))
    }
}

/// One 32-bit service UUID of an incomplete list.
#[derive(Debug, Clone, Copy, PartialEq, Eq, Structural)]
pub struct IncompleteListOf32BitServiceUuids(pub Uuid32);

impl IncompleteListOf32BitServiceUuids {
    /// The AD type of this structure.
    pub const AD_TYPE: u8 = 0x04;

    /// The UUID as sent, most significant byte first.
    pub fn bytes(&self) -> (bytes: [u8; 4])
        ensures
            bytes@ == self.0.spec_bytes(),
    {
        let mut bytes = [0u8; 4];
        self.0.bytes(&mut bytes);
        bytes
    }

    /// The UUID that the bytes spell.
    pub fn parse(bytes: &[u8; 4]) -> (uuid: Self)
        ensures
            uuid.0 == Uuid32::spec_parse(bytes@),
    {
        assert(bytes@.subrange(0, 4) =~= bytes@);
        Self(Uuid32::parse(bytes.as_slice()))
    }
}

/// One 32-bit service UUID of a complete list.
#[derive(Debug, Clone, Copy, PartialEq, Eq, Structural)]
pub struct CompleteListOf32BitServiceUuids(pub Uuid32);

impl CompleteListOf32BitServiceUuids {
    /// The AD type of this structure.
    pub const AD_TYPE: u8 = 0x05;

    /// The UUID as sent, most significant byte first.
    pub fn bytes(&self) -> (bytes: [u8; 4])
        ensures
            bytes@ == self.0.spec_bytes(),
    {
        let mut bytes = [0u8; 4];
        self.0.bytes(&mut bytes);
        bytes
    }

    /// The UUID that the bytes spell.
    pub fn parse(bytes: &[u8; 4]) -> (uuid: Self)
        ensures
            uuid.0 == Uuid32::spec_parse(bytes@),
    {
        assert(bytes@.subrange(0, 4) =~= bytes@);
        Self(Uuid32::parse(bytes.as_slice()))
    }
}

/// One 128-bit service UUID of an incomplete list.
#[derive(Debug, Clone, Copy, PartialEq, Eq, Structural)]
pub struct IncompleteListOf128BitServiceUuids(pub Uuid128);

impl IncompleteListOf128BitServiceUuids {
    /// The AD type of this structure.
    pub const AD_TYPE: u8 = 0x06;

    /// The UUID as sent, most significant byte first.
    pub fn bytes(&self) -> (bytes: [u8; 16])
        ensures
            bytes@ == self.0.spec_bytes(),
    {
        let mut bytes = [0u8; 16];
        self.0.bytes(&mut bytes);
        bytes
    }

    /// The UUID that the bytes spell.
    pub fn parse(bytes: &[u8; 16]) -> (uuid: Self)
        ensures
            uuid.0 == Uuid128::spec_parse(bytes@),
    {
        assert(bytes@.subrange(0, 16) =~= bytes@);
        Self(Uuid128::parse(bytes.as_slice()))
    }
}

/// One 128-bit service UUID of a complete list.
#[derive(Debug, Clone, Copy, PartialEq, Eq, Structural)]
pub struct CompleteListOf128BitServiceUuids(pub Uuid128);

impl CompleteListOf128BitServiceUuids {
    /// The AD type of this structure.
    pub const AD_TYPE: u8 = 0x07;

    /// The UUID as sent, most significant byte first.
    pub fn bytes(&self) -> (bytes: [u8; 16])
        ensures
            bytes@ == self.0.spec_bytes(),
    {
        let mut bytes = [0u8; 16];
        self.0.bytes(&mut bytes);
        bytes
    }

    /// The UUID that the bytes spell.
    pub fn parse(bytes: &[u8; 16]) -> (uuid: Self)
        ensures
            uuid.0 == Uuid128::spec_parse(bytes@),
    {
        assert(bytes@.subrange(0, 16) =~= bytes@);
        Self(Uuid128::parse(bytes.as_slice()))
    }
}

} // verus!
