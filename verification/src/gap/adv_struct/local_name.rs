//! The local name of a device, complete or shortened.

use vstd::prelude::*;
use vstd::string::StringSliceAdditionalSpecFns;
use vstd::utf8::valid_utf8;
use crate::buffer::{spec_write_at, write_at};
use crate::gap::adv_struct::DecodeError;

verus! {

/// Whether a name is the whole local name of the device or the start of it.
#[derive(Debug, Clone, Copy, PartialEq, Eq, Structural)]
pub enum LocalNameType {
    Shortened,
    Complete,
}

/// A local name as it stands in advertising data.
#[derive(Debug, Clone, Copy, PartialEq, Eq)]
pub struct LocalName<'a> {
    pub name: &'a [u8],
    pub kind: LocalNameType,
}

/// The AD type of a shortened local name.
pub const SHORTENED_LOCAL_NAME: u8 = 0x08;

/// The AD type of a complete local name.
pub const COMPLETE_LOCAL_NAME: u8 = 0x09;

/// The AD type that stands for a kind of name.
pub open spec fn spec_name_ad_type(kind: LocalNameType) -> u8 {
    match kind {
        LocalNameType::Shortened => SHORTENED_LOCAL_NAME,
        LocalNameType::Complete => COMPLETE_LOCAL_NAME,
    }
}

/// A name as sent: its AD type, then its bytes.
pub open spec fn spec_name_bytes(name: Seq<u8>, kind: LocalNameType) -> Seq<u8> {
    seq![spec_name_ad_type(kind)] + name
}

/// The name that bytes hold: they start with the AD type of a shortened or
/// a complete name and go on with a name in UTF-8.
pub open spec fn spec_parse_name(bytes: Seq<u8>) -> Result<(Seq<u8>, LocalNameType), DecodeError> {
    if bytes.len() == 0 {
        Err(DecodeError::InvalidLength)
    } else if bytes[0] != SHORTENED_LOCAL_NAME && bytes[0] != COMPLETE_LOCAL_NAME {
        Err(DecodeError::InvalidType)
    } else if !valid_utf8(bytes.skip(1)) {
        Err(DecodeError::InvalidUtf8)
    } else if bytes[0] == SHORTENED_LOCAL_NAME {
        Ok((bytes.skip(1), LocalNameType::Shortened))
    } else {
        Ok((bytes.skip(1), LocalNameType::Complete))
    }
}

/// `core::str::from_utf8`: the bytes as a string where they are valid
/// UTF-8, and nothing where they are not. The string has just these bytes.
#[verifier::external_body]
fn str_from_utf8<'a>(bytes: &'a [u8]) -> (text: Option<&'a str>)
    ensures
        text is Some <==> valid_utf8(bytes@),
        text matches Some(s) ==> s.spec_bytes() == bytes@,
{
    match core::str::from_utf8(bytes) {
        Ok(text) => Some(text),
        Err(_) => None,
    }
}

impl<'a> LocalName<'a> {
    /// The AD type of a shortened local name.
    pub const SHORTENETD_AD_TYPE: u8 = 0x08;

    /// The AD type of a complete local name.
    pub const COMPLETE_AD_TYPE: u8 = 0x09;

    /// Writes the AD type and the name to the start of `dest` and returns
    /// the number of bytes written. The rest of `dest` stays as it is.
    pub fn bytes(&self, dest: &mut [u8]) -> (len: usize)
        requires
            1 + self.name@.len() <= old(dest)@.len(),
        ensures
            len == 1 + self.name@.len(),
            final(dest)@ == spec_write_at(old(dest)@, 0, spec_name_bytes(self.name@, self.kind)),
    {
        let len: usize = 1 + self.name.len();
        dest[0] = match self.kind {
            LocalNameType::Shortened => Self::SHORTENETD_AD_TYPE,
            LocalNameType::Complete => Self::COMPLETE_AD_TYPE,
        };
        write_at(dest, 1, self.name);
        assert(dest@ =~= spec_write_at(old(dest)@, 0, spec_name_bytes(self.name@, self.kind)));

        len
    }

    /// Reads an AD type and a name. All the bytes after the AD type are the
    /// name.
    pub fn parse(bytes: &'a [u8]) -> (name: Result<Self, DecodeError>)
        ensures
            match spec_parse_name(bytes@) {
                Ok((text, kind)) => name matches Ok(parsed) && parsed.name@ == text && parsed.kind
                    == kind,
                Err(error) => name matches Err(found) && found == error,
            },
    {
        if bytes.len() == 0 {
            return Err(DecodeError::InvalidLength);
        }
        let kind = if bytes[0] == Self::SHORTENETD_AD_TYPE {
            LocalNameType::Shortened
        } else if bytes[0] == Self::COMPLETE_AD_TYPE {
            LocalNameType::Complete
        } else {
            return Err(DecodeError::InvalidType);
        };
        let name = &bytes[1..bytes.len()];
        assert(name@ =~= bytes@.skip(1));
        if str_from_utf8(name).is_none() {
            return Err(DecodeError::InvalidUtf8);
        }
        Ok(Self { name, kind })
    }

    /// The name as text, where it is valid UTF-8.
    pub fn to_str(&self) -> (text: Result<&str, DecodeError>)
        ensures
            if valid_utf8(self.name@) {
                text matches Ok(s) && s.spec_bytes() == self.name@
            } else {
                text matches Err(error) && error == DecodeError::InvalidUtf8
            },
    {
        match str_from_utf8(self.name) {
            Some(text) => Ok(text),
            None => Err(DecodeError::InvalidUtf8),
        }
    }
}

/// A shortened local name.
#[derive(Debug, Clone, Copy, PartialEq, Eq)]
pub struct ShortenedLocalName<'a>(pub &'a str);

impl<'a> ShortenedLocalName<'a> {
    /// The AD type of this structure.
    pub const AD_TYPE: u8 = 0x08;

    /// The name in UTF-8.
    pub fn bytes(&self) -> (bytes: &[u8])
        ensures
            bytes@ == self.0.spec_bytes(),
    {
        self.0.as_bytes()
    }

    /// The name that bytes spell, where they are valid UTF-8.
    pub fn parse(bytes: &'a [u8]) -> (name: Result<Self, DecodeError>)
        ensures
            if valid_utf8(bytes@) {
                name matches Ok(parsed) && parsed.0.spec_bytes() == bytes@
            } else {
                name matches Err(error) && error == DecodeError::InvalidUtf8
            },
    {
        match str_from_utf8(bytes) {
            Some(text) => Ok(Self(text)),
            None => Err(DecodeError::InvalidUtf8),
        }
    }
}

/// A complete local name.
#[derive(Debug, Clone, Copy, PartialEq, Eq)]
pub struct CompleteLocalName<'a>(pub &'a str);

impl<'a> CompleteLocalName<'a> {
    /// The AD type of this structure.
    pub const AD_TYPE: u8 = 0x09;

    /// The name in UTF-8.
    pub fn bytes(&self) -> (bytes: &[u8])
        ensures
            bytes@ == self.0.spec_bytes(),
    {
        self.0.as_bytes()
    }

    /// The name that bytes spell, where they are valid UTF-8.
    pub fn parse(bytes: &'a [u8]) -> (name: Result<Self, DecodeError>)
        ensures
            if valid_utf8(bytes@) {
                name matches Ok(parsed) && parsed.0.spec_bytes() == bytes@
            } else {
                name matches Err(error) && error == DecodeError::InvalidUtf8
            },
    {
        match str_from_utf8(bytes) {
            Some(text) => Ok(Self(text)),
            None => Err(DecodeError::InvalidUtf8),
        }
    }
}

/// Reading a name that is valid UTF-8 from its bytes gives the name back.
pub proof fn lemma_name_round_trip(name: Seq<u8>, kind: LocalNameType)
    requires
        valid_utf8(name),
    ensures
        spec_parse_name(spec_name_bytes(name, kind)) == Ok::<
            (Seq<u8>, LocalNameType),
            DecodeError,
        >((name, kind)),
{
    assert(spec_name_bytes(name, kind).skip(1) =~= name);
}

} // verus!
