//! The 128-bit identifier, the fields that are read out of it, and its
//! textual form.

use vstd::prelude::*;

verus! {

/// A 128-bit identifier, held as its sixteen bytes in network order: the
/// order in which the textual form shows them.
///
/// The view of an identifier is the sequence of its sixteen bytes, and two
/// identifiers with the same view are the same identifier.
#[derive(Copy, Clone, Debug, Hash, PartialEq, Eq, PartialOrd, Ord)]
pub struct Uuid {
    bytes: [u8; 16],
}

/// The version number that marks an identifier derived from a name by hashing.
pub const VERSION_NAME_HASH: u8 = 3;

/// The version number that marks an identifier drawn at random, as the
/// directory service issues them.
pub const VERSION_RANDOM: u8 = 4;

/// The variant number of the RFC 4122 layout: the two bits `10`.
pub const VARIANT_RFC4122: u8 = 2;

/// The version field of an identifier: the high four bits of byte 6.
pub open spec fn version_field(bytes: Seq<u8>) -> u8 {
    bytes[6] >> 4
}

/// The variant field of an identifier: the high two bits of byte 8.
pub open spec fn variant_field(bytes: Seq<u8>) -> u8 {
    bytes[8] >> 6
}

/// The lower-case hexadecimal digit for a value below sixteen.
pub open spec fn hex_digit(nibble: u8) -> char {
    if nibble < 10 {
        (48 + nibble) as char
    } else {
        (87 + nibble) as char
    }
}

/// The character at place `i` of the grouped textual form of `bytes`: a
/// hyphen after the 8th, 12th, 16th and 20th digit, and elsewhere the next
/// hexadecimal digit, the high half of each byte before its low half.
pub open spec fn hyphenated_char(bytes: Seq<u8>, i: int) -> char {
    if i == 8 || i == 13 || i == 18 || i == 23 {
        '-'
    } else {
        let digit = if i < 8 {
            i
        } else if i < 13 {
            i - 1
        } else if i < 18 {
            i - 2
        } else if i < 23 {
            i - 3
        } else {
            i - 4
        };
        if digit % 2 == 0 {
            hex_digit(bytes[digit / 2] >> 4)
        } else {
            hex_digit(bytes[digit / 2] & 0x0f)
        }
    }
}

/// The grouped textual form of sixteen bytes: 32 lower-case hexadecimal
/// digits in groups of 8, 4, 4, 4 and 12, with a hyphen between the groups.
pub open spec fn hyphenated_text(bytes: Seq<u8>) -> Seq<char> {
    Seq::new(36, |i: int| hyphenated_char(bytes, i))
}

impl View for Uuid {
    type V = Seq<u8>;

    closed spec fn view(&self) -> Seq<u8> {
        self.bytes@
    }
}

impl Uuid {
    /// The identifier whose bytes are the first sixteen of `bytes`.
    pub closed spec fn of_bytes(bytes: Seq<u8>) -> Uuid {
        Uuid {
            bytes: [
                bytes[0],
                bytes[1],
                bytes[2],
                bytes[3],
                bytes[4],
                bytes[5],
                bytes[6],
                bytes[7],
                bytes[8],
                bytes[9],
                bytes[10],
                bytes[11],
                bytes[12],
                bytes[13],
                bytes[14],
                bytes[15],
            ],
        }
    }

    /// The version field of this identifier.
    pub open spec fn version(&self) -> u8 {
        version_field(self@)
    }

    /// The variant field of this identifier.
    pub open spec fn variant(&self) -> u8 {
        variant_field(self@)
    }

    /// An identifier has sixteen bytes.
    pub broadcast proof fn lemma_view_len(self)
        ensures
            #[trigger] self@.len() == 16,
    {
    }

    /// `of_bytes` gives back the identifier with exactly the bytes it was
    /// made of.
    pub broadcast proof fn lemma_of_bytes_view(bytes: Seq<u8>)
        requires
            bytes.len() == 16,
        ensures
            #[trigger] Self::of_bytes(bytes)@ == bytes,
    {
    }

    /// Two identifiers with the same bytes are equal, and an identifier is
    /// the one made of its own bytes.
    pub proof fn lemma_eq_by_view(self, other: Uuid)
        ensures
            self@ == other@ <==> self == other,
            Self::of_bytes(self@) == self,
    {
        if self@ == other@ {
            assert(self.bytes =~= other.bytes);
        }
        assert(Self::of_bytes(self@).bytes =~= self.bytes);
    }

    /// The identifier made of `bytes`.
    pub fn from_bytes(bytes: [u8; 16]) -> (id: Uuid)
        ensures
            id@ == bytes@,
            id == Self::of_bytes(bytes@),
    {
        let id = Uuid { bytes };
        proof {
            id.lemma_eq_by_view(Self::of_bytes(bytes@));
        }
        id
    }

    /// The sixteen bytes of the identifier, in network order.
    pub fn as_bytes(&self) -> (bytes: &[u8; 16])
        ensures
            bytes@ == self@,
    {
        &self.bytes
    }

    /// The version number of the identifier, between 0 and 15.
    pub fn get_version_num(&self) -> (version: u8)
        ensures
            version == self.version(),
            version < 16,
    {
        let n = version_number(&self.bytes);
        let ghost b: u8 = self.bytes@[6];
        assert(b >> 4 < 16) by (bit_vector);
        n as u8
    }

    /// The grouped textual form of the identifier, 36 characters long.
    pub fn hyphenated(&self) -> (text: String)
        ensures
            text@ == hyphenated_text(self@),
    {
        hyphenated_string(&self.bytes)
    }
}

/// Calls `uuid::Uuid::get_version_num` on the identifier that
/// `uuid::Uuid::from_bytes` makes of `bytes`. Taken on trust: the number
/// returned is byte 6 shifted right by four bits.
#[verifier::external_body]
fn version_number(bytes: &[u8; 16]) -> (n: usize)
    ensures
        n == version_field(bytes@),
{
    uuid::Uuid::from_bytes(*bytes).get_version_num()
}

/// Formats the identifier that `uuid::Uuid::from_bytes` makes of `bytes`
/// through its `Display` impl. Taken on trust: the text is the lower-case
/// grouped form, digit for digit as `hyphenated_text` spells it out.
#[verifier::external_body]
fn hyphenated_string(bytes: &[u8; 16]) -> (text: String)
    ensures
        text@ == hyphenated_text(bytes@),
{
    uuid::Uuid::from_bytes(*bytes).to_string()
}

} // verus!
