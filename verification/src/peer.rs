//! Peer identities: the 32 bytes of a public key and their textual form.

use vstd::prelude::*;

verus! {

/// The key bytes that `iroh::PublicKey` reads out of `text`, or `None` where
/// it rejects the text.
///
/// A text of 64 bytes is read as lower-case hex, any other as unpadded
/// base32 in either case; what comes out must be 32 bytes that are a valid
/// key of the signature scheme.
pub uninterp spec fn public_key_bytes(text: Seq<char>) -> Option<Seq<u8>>;

/// Calls `<iroh::PublicKey as FromStr>::from_str` on `text`.
///
/// Believed, not proved: the call never panics, and what it returns depends
/// on `text` alone. The contract only gives that result its name; the key is
/// handed on as its 32 bytes, a rejection of any kind as `None`.
#[verifier::external_body]
fn parse_public_key(text: &str) -> (key: Option<[u8; 32]>)
    ensures
        key matches Some(bytes) ==> public_key_bytes(text@) == Some(bytes@),
        key is None ==> public_key_bytes(text@) is None,
{
    match text.parse::<iroh::PublicKey>() {
        Ok(key) => Some(*key.as_bytes()),
        Err(_) => None,
    }
}

/// The sixteen digits of lower-case hex.
pub open spec fn hex_digit(nibble: int) -> char {
    seq![
        '0', '1', '2', '3', '4', '5', '6', '7', '8', '9', 'a', 'b', 'c', 'd', 'e', 'f',
    ][nibble]
}

/// Lower-case hex of `bytes`: two digits per byte, the high half first.
pub open spec fn hex_lower(bytes: Seq<u8>) -> Seq<char> {
    Seq::new(
        2 * bytes.len(),
        |i: int|
            hex_digit(
                if i % 2 == 0 {
                    bytes[i / 2] as int / 16
                } else {
                    bytes[i / 2] as int % 16
                },
            ),
    )
}

/// One hex digit as a one-character string.
fn digit_text(nibble: u8) -> (text: &'static str)
    requires
        nibble < 16,
    ensures
        text@ == seq![hex_digit(nibble as int)],
{
    proof {
        reveal_strlit("0");
        reveal_strlit("1");
        reveal_strlit("2");
        reveal_strlit("3");
        reveal_strlit("4");
        reveal_strlit("5");
        reveal_strlit("6");
        reveal_strlit("7");
        reveal_strlit("8");
        reveal_strlit("9");
        reveal_strlit("a");
        reveal_strlit("b");
        reveal_strlit("c");
        reveal_strlit("d");
        reveal_strlit("e");
        reveal_strlit("f");
    }
    let text = match nibble {
        0 => "0",
        1 => "1",
        2 => "2",
        3 => "3",
        4 => "4",
        5 => "5",
        6 => "6",
        7 => "7",
        8 => "8",
        9 => "9",
        10 => "a",
        11 => "b",
        12 => "c",
        13 => "d",
        14 => "e",
        _ => "f",
    };
    assert(text@ =~= seq![hex_digit(nibble as int)]);
    text
}

/// The identity of a peer: the 32 bytes of its public key.
#[derive(Debug, Clone, Copy, PartialEq, Eq)]
pub struct PeerId {
    bytes: [u8; 32],
}

impl View for PeerId {
    type V = Seq<u8>;

    closed spec fn view(&self) -> Seq<u8> {
        self.bytes@
    }
}

impl PeerId {
    /// The identity with exactly these key bytes.
    pub fn from_bytes(bytes: [u8; 32]) -> (id: PeerId)
        ensures
            id@ == bytes@,
    {
        PeerId { bytes }
    }

    /// The key bytes.
    pub fn as_bytes(&self) -> (bytes: [u8; 32])
        ensures
            bytes@ == self@,
    {
        self.bytes
    }

    /// Reads a peer identifier: `Some` exactly where the text is a public key.
    pub fn parse(text: &str) -> (id: Option<PeerId>)
        ensures
            match id {
                Some(peer) => public_key_bytes(text@) == Some(peer@),
                None => public_key_bytes(text@) is None,
            },
    {
        match parse_public_key(text) {
            Some(bytes) => Some(PeerId { bytes }),
            None => None,
        }
    }

    /// The identifier as text, in the form a public key prints itself:
    /// 64 digits of lower-case hex.
    pub fn to_text(&self) -> (text: String)
        ensures
            text@ == hex_lower(self@),
    {
        let mut text = String::new();
        let mut i: usize = 0;
        while i < 32
            invariant
                i <= 32,
                self.bytes@.len() == 32,
                text@.len() == 2 * i,
                forall|j: int| 0 <= j < 2 * i ==> text@[j] == hex_lower(self.bytes@)[j],
            decreases 32 - i,
        {
            let byte: u8 = self.bytes[i];
            text.append(digit_text(byte / 16));
            text.append(digit_text(byte % 16));
            i += 1;
        }
        assert(text@ =~= hex_lower(self@));
        text
    }

    /// Every identity has 32 bytes, and so 64 characters of text.
    pub proof fn lemma_lengths(self)
        ensures
            self@.len() == 32,
            hex_lower(self@).len() == 64,
    {
    }
}

} // verus!
