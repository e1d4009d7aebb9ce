//! Identities of stored records: 128-bit values in the shape of a UUID.

use vstd::prelude::*;

verus! {

/// The identity of a stored record.
#[derive(Clone, Copy, Debug, PartialEq, Eq, Structural)]
pub struct Identity {
    pub value: u128,
}

/// What `uuid::Uuid::parse_str` reads from a text: the 128 bits of the identity, or
/// `None` where the text is no well-formed identity.
pub uninterp spec fn parsed_identity(s: Seq<char>) -> Option<u128>;

/// The version and variant bits of a randomly generated identity: version 4 in
/// bits 76 to 79, and the two bits `10` in bits 62 and 63.
pub open spec fn is_random_identity(value: u128) -> bool {
    (value >> 76u128) & 0xfu128 == 4u128 && (value >> 62u128) & 0x3u128 == 2u128
}

/// `uuid::Uuid::parse_str`, the identity taken as its 128 bits and the error dropped.
/// The contract names the result.
#[verifier::external_body]
fn uuid_parse(s: &str) -> (r: Option<u128>)
    ensures
        r == parsed_identity(s@),
{
    match uuid::Uuid::parse_str(s) {
        Ok(id) => Some(id.as_u128()),
        Err(_) => None,
    }
}

/// `uuid::Uuid::new_v4`, taken as its 128 bits: random bits but for the version and
/// the variant, which the generator sets.
#[verifier::external_body]
fn uuid_fresh() -> (r: u128)
    ensures
        is_random_identity(r),
{
    uuid::Uuid::new_v4().as_u128()
}

impl Identity {
    /// The identity that a parser's answer stands for, if it stands for one.
    pub fn from_parsed(parsed: Option<u128>) -> (r: Option<Identity>)
        ensures
            r == match parsed {
                Some(value) => Some(Identity { value }),
                None => None,
            },
    {
        match parsed {
            Some(value) => Some(Identity { value }),
            None => None,
        }
    }

    /// Reads an identity from its text form. A malformed text gives `None`.
    pub fn parse(s: &str) -> (r: Option<Identity>)
        ensures
            r == match parsed_identity(s@) {
                Some(value) => Some(Identity { value }),
                None => None,
            },
    {
        Identity::from_parsed(uuid_parse(s))
    }

    /// A freshly generated random identity.
    pub fn generate() -> (r: Identity)
        ensures
            is_random_identity(r.value),
    {
        Identity { value: uuid_fresh() }
    }

    /// Whether the identity carries the version and variant bits of a random one.
    pub fn is_random(&self) -> (r: bool)
        ensures
            r == is_random_identity(self.value),
    {
        (self.value >> 76u128) & 0xfu128 == 4u128 && (self.value >> 62u128) & 0x3u128 == 2u128
    }
}

} // verus!
