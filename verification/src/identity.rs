//! Identities of the parties: payer, recipient, ledger, facilitator.

use vstd::prelude::*;
use vstd::utf8::encode_utf8;

verus! {

/// No identity is longer than this many bytes.
pub const MAX_IDENTITY_LEN: usize = 29;

/// No textual form of an identity is longer than this many bytes: the
/// longest has fifty-three characters and ten dashes between them.
pub const MAX_IDENTITY_TEXT_LEN: usize = 63;

/// An opaque identifier of a party: a byte string of at most
/// `MAX_IDENTITY_LEN` bytes. Its view is that byte string.
#[derive(Debug, PartialEq, Eq)]
pub struct Identity {
    bytes: Vec<u8>,
}

impl View for Identity {
    type V = Seq<u8>;

    closed spec fn view(&self) -> Seq<u8> {
        self.bytes@
    }
}

/// The bytes of the principal whose textual form is `text`, where `text` is
/// such a form.
pub uninterp spec fn principal_from_text(text: Seq<char>) -> Option<Seq<u8>>;

/// The textual form of the principal with these bytes.
pub uninterp spec fn principal_to_text(bytes: Seq<u8>) -> Seq<char>;

/// The identity that `text` spells: the bytes of the principal whose
/// textual form it is. Text of more than `MAX_IDENTITY_TEXT_LEN` bytes
/// spells none.
pub open spec fn identity_of_text(text: Seq<char>) -> Option<Seq<u8>> {
    if encode_utf8(text).len() <= MAX_IDENTITY_TEXT_LEN {
        principal_from_text(text)
    } else {
        None
    }
}

/// Calls `candid::Principal::from_text` and hands out the principal's bytes
/// (`as_slice`). The call decodes the text whole before it looks at its
/// length, and the decoder panics on text near the size of the address
/// space, so only text of at most `MAX_IDENTITY_TEXT_LEN` bytes is handed
/// to it. The contract claims that the outcome is a function of the text
/// alone, and that a principal has at most `MAX_IDENTITY_LEN` bytes.
#[verifier::external_body]
fn parse_principal(text: &str) -> (bytes: Option<Vec<u8>>)
    requires
        encode_utf8(text@).len() <= MAX_IDENTITY_TEXT_LEN,
    ensures
        match bytes {
            Some(b) => principal_from_text(text@) == Some(b@) && b@.len() <= MAX_IDENTITY_LEN,
            None => principal_from_text(text@) is None,
        },
{
    match candid::Principal::from_text(text) {
        Ok(principal) => Some(principal.as_slice().to_vec()),
        Err(_) => None,
    }
}

/// Calls `candid::Principal::to_text` on the principal made of `bytes`
/// (`from_slice`, which takes at most `MAX_IDENTITY_LEN` bytes). The contract
/// claims that the text is a function of the bytes alone, and that it has
/// at most `MAX_IDENTITY_TEXT_LEN` bytes: the base32 characters of a
/// checksum of four bytes and the principal's bytes, in groups of five
/// with a dash between them.
#[verifier::external_body]
fn print_principal(bytes: &Vec<u8>) -> (text: String)
    requires
        bytes@.len() <= MAX_IDENTITY_LEN,
    ensures
        text@ == principal_to_text(bytes@),
        encode_utf8(text@).len() <= MAX_IDENTITY_TEXT_LEN,
{
    candid::Principal::from_slice(bytes.as_slice()).to_text()
}

impl Identity {
    #[verifier::type_invariant]
    spec fn within_limit(self) -> bool {
        self.bytes@.len() <= MAX_IDENTITY_LEN
    }

    /// The identity with these bytes, unless there are too many of them.
    pub fn from_bytes(bytes: Vec<u8>) -> (id: Option<Identity>)
        ensures
            match id {
                Some(i) => i@ == bytes@ && bytes@.len() <= MAX_IDENTITY_LEN,
                None => bytes@.len() > MAX_IDENTITY_LEN,
            },
    {
        if bytes.len() <= MAX_IDENTITY_LEN {
            Some(Identity { bytes })
        } else {
            None
        }
    }

    /// The identity that `parsed` stands for, where `parsed` is what
    /// parsing a textual form gave.
    pub fn from_parsed(parsed: Option<Vec<u8>>) -> (id: Option<Identity>)
        ensures
            match id {
                Some(i) => parsed matches Some(b) && i@ == b@ && b@.len() <= MAX_IDENTITY_LEN,
                None => parsed matches Some(b) ==> b@.len() > MAX_IDENTITY_LEN,
            },
    {
        match parsed {
            Some(bytes) => Identity::from_bytes(bytes),
            None => None,
        }
    }

    /// Parses the textual form of a principal. There is no identity where
    /// the text has more than `MAX_IDENTITY_TEXT_LEN` bytes, nor where it
    /// is not the textual form of a principal.
    pub fn from_text(text: &str) -> (id: Option<Identity>)
        ensures
            match id {
                Some(i) => encode_utf8(text@).len() <= MAX_IDENTITY_TEXT_LEN && principal_from_text(
                    text@,
                ) == Some(i@),
                None => encode_utf8(text@).len() > MAX_IDENTITY_TEXT_LEN || principal_from_text(
                    text@,
                ) is None,
            },
    {
        if text.as_bytes().len() > MAX_IDENTITY_TEXT_LEN {
            return None;
        }
        Identity::from_parsed(parse_principal(text))
    }

    /// The textual form of this identity.
    pub fn to_text(&self) -> (text: String)
        ensures
            text@ == principal_to_text(self@),
            encode_utf8(text@).len() <= MAX_IDENTITY_TEXT_LEN,
    {
        proof {
            use_type_invariant(self);
        }
        print_principal(&self.bytes)
    }

    /// The bytes of this identity.
    pub fn as_bytes(&self) -> (bytes: &Vec<u8>)
        ensures
            bytes@ == self@,
            bytes@.len() <= MAX_IDENTITY_LEN,
    {
        proof {
            use_type_invariant(self);
        }
        &self.bytes
    }

    /// Whether both identities have the same bytes.
    pub fn same_as(&self, other: &Identity) -> (same: bool)
        ensures
            same == (self@ == other@),
    {
        if self.bytes.len() != other.bytes.len() {
            return false;
        }
        let mut i: usize = 0;
        while i < self.bytes.len()
            invariant
                i <= self.bytes@.len(),
                self.bytes@.len() == other.bytes@.len(),
                forall|j: int| 0 <= j < i ==> self.bytes@[j] == other.bytes@[j],
            decreases self.bytes@.len() - i,
        {
            if self.bytes[i] != other.bytes[i] {
                return false;
            }
            i += 1;
        }
        assert(self.bytes@ =~= other.bytes@);
        true
    }
}

impl Clone for Identity {
    fn clone(&self) -> (copy: Identity)
        ensures
            copy@ == self@,
    {
        proof {
            use_type_invariant(self);
        }
        let mut bytes: Vec<u8> = Vec::new();
        let mut i: usize = 0;
        while i < self.bytes.len()
            invariant
                i <= self.bytes@.len(),
                bytes@ == self.bytes@.subrange(0, i as int),
            decreases self.bytes@.len() - i,
        {
            bytes.push(self.bytes[i]);
            i += 1;
        }
        Identity { bytes }
    }
}

} // verus!
