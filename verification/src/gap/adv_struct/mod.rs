//! Advertising and scan response data format.
//!
//! The data is a sequence of AD structures. Each starts with one byte that
//! counts the bytes after it; these begin with the AD type, one byte, and go
//! on with the data of that type.

pub mod flags;
pub mod local_name;
pub mod uuid;

use vstd::prelude::*;
use vstd::string::StringSliceAdditionalSpecFns;
use crate::buffer::spec_write_at;
use crate::gap::adv_struct::flags::Flags;
use crate::gap::adv_struct::local_name::{spec_name_bytes, LocalName, LocalNameType};
use crate::gap::adv_struct::uuid::{
    lemma_list_bytes_len, spec_list_bytes, List, Uuid, Uuid128, Uuid16, Uuid32,
};

verus! {

/// Why some bytes are not the AD structure that was asked for.
#[derive(Debug, Clone, Copy, PartialEq, Eq, Structural)]
pub enum DecodeError {
    /// The AD type is not the one that was expected.
    InvalidType,
    /// There are too few bytes, or too little room for what they hold.
    InvalidLength,
    /// A name is not valid UTF-8.
    InvalidUtf8,
}

/// The most bytes that the length byte of an AD structure can count.
pub const MAX_STRUCTURE_LENGTH: usize = 255;

/// Advertising data: the AD structures that a device sends, each at most
/// once.
#[derive(Debug, Clone, Copy, PartialEq, Eq)]
#[non_exhaustive]
pub struct AdvData<'a> {
    flags: Option<Flags>,
    // Each list is an AD structure of its own
    uuids16: Option<List<'a, Uuid16>>,
    uuids32: Option<List<'a, Uuid32>>,
    uuids128: Option<List<'a, Uuid128>>,
    local_name: Option<LocalName<'a>>,
}

/// What advertising data holds.
pub struct AdvDataView {
    pub flags: Option<Flags>,
    pub uuids16: Option<Seq<Uuid16>>,
    pub uuids32: Option<Seq<Uuid32>>,
    pub uuids128: Option<Seq<Uuid128>>,
    pub local_name: Option<(Seq<u8>, LocalNameType)>,
}

/// An AD structure as sent: the number of the bytes that follow, then these
/// bytes.
pub open spec fn spec_structure(content: Seq<u8>) -> Seq<u8> {
    seq![content.len() as u8] + content
}

/// An AD structure that may be absent: where it is, it is sent; where it is
/// not, nothing is.
pub open spec fn spec_optional_structure(content: Option<Seq<u8>>) -> Seq<u8> {
    match content {
        Some(content) => spec_structure(content),
        None => Seq::empty(),
    }
}

impl AdvDataView {
    /// Advertising data without any AD structure.
    pub open spec fn empty() -> AdvDataView {
        AdvDataView { flags: None, uuids16: None, uuids32: None, uuids128: None, local_name: None }
    }

    /// What follows the length byte of the Flags structure.
    pub open spec fn flags_content(self) -> Option<Seq<u8>> {
        match self.flags {
            Some(flags) => Some(flags.spec_bytes()),
            None => None,
        }
    }

    /// What follows the length byte of the list of 16-bit UUIDs.
    pub open spec fn uuids16_content(self) -> Option<Seq<u8>> {
        match self.uuids16 {
            Some(uuids) => Some(spec_list_bytes(uuids)),
            None => None,
        }
    }

    /// What follows the length byte of the list of 32-bit UUIDs.
    pub open spec fn uuids32_content(self) -> Option<Seq<u8>> {
        match self.uuids32 {
            Some(uuids) => Some(spec_list_bytes(uuids)),
            None => None,
        }
    }

    /// What follows the length byte of the list of 128-bit UUIDs.
    pub open spec fn uuids128_content(self) -> Option<Seq<u8>> {
        match self.uuids128 {
            Some(uuids) => Some(spec_list_bytes(uuids)),
            None => None,
        }
    }

    /// What follows the length byte of the local name.
    pub open spec fn local_name_content(self) -> Option<Seq<u8>> {
        match self.local_name {
            Some((name, kind)) => Some(spec_name_bytes(name, kind)),
            None => None,
        }
    }

    /// The data as sent: the structures that are there, one after the other:
    /// the flags, the lists of UUIDs of 16, of 32 and of 128 bits, and the
    /// local name.
    pub open spec fn spec_bytes(self) -> Seq<u8> {
        spec_optional_structure(self.flags_content()) + spec_optional_structure(
            self.uuids16_content(),
        ) + spec_optional_structure(self.uuids32_content()) + spec_optional_structure(
            self.uuids128_content(),
        ) + spec_optional_structure(self.local_name_content())
    }

    /// Whether the length byte of a structure can count its bytes.
    pub open spec fn fits(content: Option<Seq<u8>>) -> bool {
        match content {
            Some(content) => content.len() <= MAX_STRUCTURE_LENGTH,
            None => true,
        }
    }

    /// Whether the data can be sent: no structure is longer than its length
    /// byte can tell.
    pub open spec fn encodable(self) -> bool {
        &&& Self::fits(self.flags_content())
        &&& Self::fits(self.uuids16_content())
        &&& Self::fits(self.uuids32_content())
        &&& Self::fits(self.uuids128_content())
        &&& Self::fits(self.local_name_content())
    }
}

impl<'a> View for AdvData<'a> {
    type V = AdvDataView;

    closed spec fn view(&self) -> AdvDataView {
        AdvDataView {
            flags: self.flags,
            uuids16: match self.uuids16 {
                Some(list) => Some(list.0@),
                None => None,
            },
            uuids32: match self.uuids32 {
                Some(list) => Some(list.0@),
                None => None,
            },
            uuids128: match self.uuids128 {
                Some(list) => Some(list.0@),
                None => None,
            },
            local_name: match self.local_name {
                Some(name) => Some((name.name@, name.kind)),
                None => None,
            },
        }
    }
}

impl<'a> Default for AdvData<'a> {
    fn default() -> (data: Self)
        ensures
            data@ == AdvDataView::empty(),
    {
        AdvData { flags: None, uuids16: None, uuids32: None, uuids128: None, local_name: None }
    }
}

// Builder
impl<'a> AdvData<'a> {
    /// Advertising data without any AD structure.
    pub fn empty() -> (data: Self)
        ensures
            data@ == AdvDataView::empty(),
    {
        AdvData { flags: None, uuids16: None, uuids32: None, uuids128: None, local_name: None }
    }

    /// The same data with these flags.
    pub fn set_flags(self, flags: Flags) -> (data: Self)
        ensures
            data@ == (AdvDataView { flags: Some(flags), ..self@ }),
    {
        let mut data = self;
        data.flags = Some(flags);
        data
    }

    /// The same data with this name as the complete local name.
    pub fn set_complete_local_name(self, local_name: &'a str) -> (data: Self)
        ensures
            data@ == (AdvDataView {
                local_name: Some((local_name.spec_bytes(), LocalNameType::Complete)),
                ..self@
            }),
    {
        let mut data = self;
        data.local_name = Some(
            LocalName { name: local_name.as_bytes(), kind: LocalNameType::Complete },
        );
        data
    }

    /// The same data with this name as the shortened local name.
    pub fn set_shortened_local_name(self, local_name: &'a str) -> (data: Self)
        ensures
            data@ == (AdvDataView {
                local_name: Some((local_name.spec_bytes(), LocalNameType::Shortened)),
                ..self@
            }),
    {
        let mut data = self;
        data.local_name = Some(
            LocalName { name: local_name.as_bytes(), kind: LocalNameType::Shortened },
        );
        data
    }

    /// The same data with this list of 16-bit service UUIDs.
    pub fn set_uuids16(self, uuids: &'a [Uuid16]) -> (data: Self)
        ensures
            data@ == (AdvDataView { uuids16: Some(uuids@), ..self@ }),
    {
        let mut data = self;
        data.uuids16 = Some(List(uuids));
        data
    }

    /// The same data with this list of 32-bit service UUIDs.
    pub fn set_uuids32(self, uuids: &'a [Uuid32]) -> (data: Self)
        ensures
            data@ == (AdvDataView { uuids32: Some(uuids@), ..self@ }),
    {
        let mut data = self;
        data.uuids32 = Some(List(uuids));
        data
    }

    /// The same data with this list of 128-bit service UUIDs.
    pub fn set_uuids128(self, uuids: &'a [Uuid128]) -> (data: Self)
        ensures
            data@ == (AdvDataView { uuids128: Some(uuids@), ..self@ }),
    {
        let mut data = self;
        data.uuids128 = Some(List(uuids));
        data
    }
}

impl AdvDataView {
    /// The first `count` of the five structures as sent.
    pub open spec fn spec_bytes_up_to(self, count: nat) -> Seq<u8>
        decreases count,
    {
        if count == 0 {
            Seq::empty()
        } else {
            self.spec_bytes_up_to((count - 1) as nat) + spec_optional_structure(
                self.content((count - 1) as nat),
            )
        }
    }

    /// What follows the length byte of the structure at `index`, in the
    /// order in which the structures are sent.
    pub open spec fn content(self, index: nat) -> Option<Seq<u8>> {
        if index == 0 {
            self.flags_content()
        } else if index == 1 {
            self.uuids16_content()
        } else if index == 2 {
            self.uuids32_content()
        } else if index == 3 {
            self.uuids128_content()
        } else {
            self.local_name_content()
        }
    }

    /// The number of bytes that a structure takes when sent.
    pub open spec fn structure_len(content: Option<Seq<u8>>) -> nat {
        match content {
            Some(content) => 1 + content.len(),
            None => 0,
        }
    }

    /// The data as sent is its five structures one after the other, and it
    /// takes as many bytes as they take together.
    pub proof fn lemma_spec_bytes(self)
        ensures
            self.spec_bytes() == self.spec_bytes_up_to(5),
            self.spec_bytes_up_to(0).len() == 0,
            self.spec_bytes_up_to(1).len() == Self::structure_len(self.content(0)),
            self.spec_bytes_up_to(2).len() == self.spec_bytes_up_to(1).len() + Self::structure_len(
                self.content(1),
            ),
            self.spec_bytes_up_to(3).len() == self.spec_bytes_up_to(2).len() + Self::structure_len(
                self.content(2),
            ),
            self.spec_bytes_up_to(4).len() == self.spec_bytes_up_to(3).len() + Self::structure_len(
                self.content(3),
            ),
            self.spec_bytes_up_to(5).len() == self.spec_bytes_up_to(4).len() + Self::structure_len(
                self.content(4),
            ),
    {
        reveal_with_fuel(AdvDataView::spec_bytes_up_to, 6);
        assert(self.spec_bytes() =~= self.spec_bytes_up_to(5));
    }
}

/// Writes the Flags structure, with its length byte, into `dest` from
/// `start` on, and returns where it ends.
fn put_flags(flags: &Flags, dest: &mut [u8], start: usize) -> (end: usize)
    requires
        start + 3 <= old(dest)@.len(),
    ensures
        end == start + 3,
        final(dest)@ == spec_write_at(old(dest)@, start as int, spec_structure(flags.spec_bytes())),
{
    let capacity: usize = dest.len();
    let (_, tail) = dest.split_at_mut(start + 1);
    let len = flags.bytes(tail);
    dest[start] = len as u8;
    assert(dest@ =~= spec_write_at(old(dest)@, start as int, spec_structure(flags.spec_bytes())));
    start + 1 + len
}

/// Writes a list of UUIDs, with its length byte, into `dest` from `start`
/// on, and returns where it ends.
fn put_list<T: Uuid>(list: &List<'_, T>, dest: &mut [u8], start: usize) -> (end: usize)
    requires
        spec_list_bytes(list.0@).len() <= MAX_STRUCTURE_LENGTH,
        start + 1 + spec_list_bytes(list.0@).len() <= old(dest)@.len(),
    ensures
        end == start + 1 + spec_list_bytes(list.0@).len(),
        final(dest)@ == spec_write_at(
            old(dest)@,
            start as int,
            spec_structure(spec_list_bytes(list.0@)),
        ),
{
    proof {
        lemma_list_bytes_len(list.0@);
    }
    let capacity: usize = dest.len();
    let (_, tail) = dest.split_at_mut(start + 1);
    let len = list.bytes(tail);
    dest[start] = len as u8;
    assert(dest@ =~= spec_write_at(
        old(dest)@,
        start as int,
        spec_structure(spec_list_bytes(list.0@)),
    ));
    start + 1 + len
}

/// Writes a local name, with its length byte, into `dest` from `start` on,
/// and returns where it ends.
fn put_name(name: &LocalName<'_>, dest: &mut [u8], start: usize) -> (end: usize)
    requires
        1 + name.name@.len() <= MAX_STRUCTURE_LENGTH,
        start + 2 + name.name@.len() <= old(dest)@.len(),
    ensures
        end == start + 2 + name.name@.len(),
        final(dest)@ == spec_write_at(
            old(dest)@,
            start as int,
            spec_structure(spec_name_bytes(name.name@, name.kind)),
        ),
{
    let capacity: usize = dest.len();
    let (_, tail) = dest.split_at_mut(start + 1);
    let len = name.bytes(tail);
    dest[start] = len as u8;
    assert(dest@ =~= spec_write_at(
        old(dest)@,
        start as int,
        spec_structure(spec_name_bytes(name.name@, name.kind)),
    ));
    start + 1 + len
}

/// Writing one structure after those that are written is writing one
/// structure more; and writing no structure changes nothing.
proof fn lemma_write_next(
    data: AdvDataView,
    count: nat,
    dest: Seq<u8>,
    before: Seq<u8>,
    after: Seq<u8>,
)
    requires
        count < 5,
        before == spec_write_at(dest, 0, data.spec_bytes_up_to(count)),
        data.spec_bytes_up_to(count).len() + AdvDataView::structure_len(data.content(count))
            <= dest.len(),
        match data.content(count) {
            Some(content) => after == spec_write_at(
                before,
                data.spec_bytes_up_to(count).len() as int,
                spec_structure(content),
            ),
            None => after == before,
        },
    ensures
        after == spec_write_at(dest, 0, data.spec_bytes_up_to(count + 1)),
{
    reveal_with_fuel(AdvDataView::spec_bytes_up_to, 2);
    let written = data.spec_bytes_up_to(count);
    let next = spec_optional_structure(data.content(count));
    assert(data.spec_bytes_up_to(count + 1) == written + next);
    assert(after =~= spec_write_at(dest, 0, written + next));
}

/// The number of bytes that a list of `count` UUIDs of `size` bytes takes
/// with its length byte, where the length byte can tell it.
fn list_len(count: usize, size: usize) -> (len: Option<usize>)
    requires
        1 <= size <= 16,
    ensures
        count * (1 + size) <= MAX_STRUCTURE_LENGTH ==> len == Some(
            (1 + count * (1 + size)) as usize,
        ),
        count * (1 + size) > MAX_STRUCTURE_LENGTH ==> len is None,
{
    let block_size: usize = 1 + size;
    if count > MAX_STRUCTURE_LENGTH / block_size {
        assert(count * block_size > MAX_STRUCTURE_LENGTH) by (nonlinear_arith)
            requires
                count > MAX_STRUCTURE_LENGTH / block_size,
                block_size > 0,
        ;
        None
    } else {
        assert(count * block_size <= MAX_STRUCTURE_LENGTH) by (nonlinear_arith)
            requires
                count <= MAX_STRUCTURE_LENGTH / block_size,
                block_size > 0,
        ;
        Some(1 + count * block_size)
    }
}

impl<'a> AdvData<'a> {
    /// The number of bytes that the data takes when sent, where it can be
    /// sent: it cannot where a structure is longer than the 255 bytes that
    /// its length byte can tell.
    pub fn serialized_len(&self) -> (len: Option<usize>)
        ensures
            self@.encodable() ==> len == Some(self@.spec_bytes().len() as usize),
            self@.encodable() ==> self@.spec_bytes().len() <= 5 * (1 + MAX_STRUCTURE_LENGTH),
            !self@.encodable() ==> len is None,
    {
        proof {
            self@.lemma_spec_bytes();
        }
        let flags_len: usize = match &self.flags {
            Some(_) => 3,
            None => 0,
        };
        let uuids16_len: usize = match &self.uuids16 {
            Some(uuids) => {
                proof {
                    lemma_list_bytes_len(uuids.0@);
                }
                match list_len(uuids.0.len(), 2) {
                    Some(len) => len,
                    None => {
                        return None;
                    },
                }
            },
            None => 0,
        };
        let uuids32_len: usize = match &self.uuids32 {
            Some(uuids) => {
                proof {
                    lemma_list_bytes_len(uuids.0@);
                }
                match list_len(uuids.0.len(), 4) {
                    Some(len) => len,
                    None => {
                        return None;
                    },
                }
            },
            None => 0,
        };
        let uuids128_len: usize = match &self.uuids128 {
            Some(uuids) => {
                proof {
                    lemma_list_bytes_len(uuids.0@);
                }
                match list_len(uuids.0.len(), 16) {
                    Some(len) => len,
                    None => {
                        return None;
                    },
                }
            },
            None => 0,
        };
        let local_name_len: usize = match &self.local_name {
            Some(local_name) => {
                if local_name.name.len() > MAX_STRUCTURE_LENGTH - 1 {
                    return None;
                }
                2 + local_name.name.len()
            },
            None => 0,
        };
        Some(flags_len + uuids16_len + uuids32_len + uuids128_len + local_name_len)
    }

    /// Writes the data to the start of `dest` and returns the number of
    /// bytes written. The rest of `dest` stays as it is.
    pub fn bytes(&self, dest: &mut [u8]) -> (len: usize)
        requires
            self@.encodable(),
            self@.spec_bytes().len() <= old(dest)@.len(),
        ensures
            len == self@.spec_bytes().len(),
            final(dest)@ == spec_write_at(old(dest)@, 0, self@.spec_bytes()),
    {
        proof {
            self@.lemma_spec_bytes();
            assert(dest@ =~= spec_write_at(old(dest)@, 0, self@.spec_bytes_up_to(0)));
        }
        let mut start: usize = 0;

        let ghost before = dest@;
        if let Some(flags) = &self.flags {
            start = put_flags(flags, dest, start);
        }
        proof {
            lemma_write_next(self@, 0, old(dest)@, before, dest@);
        }

        let ghost before = dest@;
        if let Some(uuids16) = &self.uuids16 {
            start = put_list(uuids16, dest, start);
        }
        proof {
            lemma_write_next(self@, 1, old(dest)@, before, dest@);
        }

        let ghost before = dest@;
        if let Some(uuids32) = &self.uuids32 {
            start = put_list(uuids32, dest, start);
        }
        proof {
            lemma_write_next(self@, 2, old(dest)@, before, dest@);
        }

        let ghost before = dest@;
        if let Some(uuids128) = &self.uuids128 {
            start = put_list(uuids128, dest, start);
        }
        proof {
            lemma_write_next(self@, 3, old(dest)@, before, dest@);
        }

        let ghost before = dest@;
        if let Some(local_name) = &self.local_name {
            start = put_name(local_name, dest, start);
        }
        proof {
            lemma_write_next(self@, 4, old(dest)@, before, dest@);
        }
        start
    }
}

} // verus!
