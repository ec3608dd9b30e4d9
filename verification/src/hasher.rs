//! The credential digest: the lowercase hexadecimal MD5 of
//! `username:password`.
//!
//! MD5 is fast and unsalted; it is kept because stored digests depend on it.

use vstd::prelude::*;
use vstd::string::StringExecFns;

verus! {

/// The 16 bytes of the MD5 digest of a text's UTF-8 encoding.
pub uninterp spec fn md5_digest(text: Seq<char>) -> Seq<u8>;

/// `md5::compute` on the text: the digest's 16 bytes, which depend on the
/// text alone. The function consumes any input and does not fail.
#[verifier::external_body]
fn md5_compute(text: &str) -> (digest: [u8; 16])
    ensures
        digest@ == md5_digest(text@),
{
    md5::compute(text).0
}

/// The sixteen lowercase hexadecimal digits, in order.
pub open spec fn hex_digits() -> Seq<char> {
    seq!['0', '1', '2', '3', '4', '5', '6', '7', '8', '9', 'a', 'b', 'c', 'd', 'e', 'f']
}

/// Whether `c` is one of the sixteen lowercase hexadecimal digits.
pub open spec fn is_lower_hex(c: char) -> bool {
    ('0' <= c && c <= '9') || ('a' <= c && c <= 'f')
}

/// The character at position `k` of the hexadecimal form of `bytes`: each
/// byte gives two digits, the high half first.
pub open spec fn hex_char_at(bytes: Seq<u8>, k: int) -> char {
    if k % 2 == 0 {
        hex_digits()[bytes[k / 2] as int / 16]
    } else {
        hex_digits()[bytes[k / 2] as int % 16]
    }
}

/// The lowercase hexadecimal form of `bytes`, two digits a byte.
pub open spec fn hex_lower(bytes: Seq<u8>) -> Seq<char> {
    Seq::new(2 * bytes.len(), |k: int| hex_char_at(bytes, k))
}

/// The text that is digested for a credential.
pub open spec fn credential_text(username: Seq<char>, password: Seq<char>) -> Seq<char> {
    username + seq![':'] + password
}

/// The stored digest of a credential.
pub open spec fn spec_hash_password(username: Seq<char>, password: Seq<char>) -> Seq<char> {
    hex_lower(md5_digest(credential_text(username, password)))
}

/// The digit for `value` as a one-character text.
fn hex_digit(value: u8) -> (digit: &'static str)
    requires
        value < 16,
    ensures
        digit@ == seq![hex_digits()[value as int]],
{
    proof {
        reveal_strlit("0");
        reveal_strlit("1");
        reveal_strlit("2");
        reveal_strlit("3");
        reveal_strlit("4");
        reveal_strlit("5");
        reveal_strlit("6");
        reveal_strlit("7");
        reveal_strlit("8");
        reveal_strlit("9");
        reveal_strlit("a");
        reveal_strlit("b");
        reveal_strlit("c");
        reveal_strlit("d");
        reveal_strlit("e");
        reveal_strlit("f");
    }
    let digit = match value {
        0 => "0",
        1 => "1",
        2 => "2",
        3 => "3",
        4 => "4",
        5 => "5",
        6 => "6",
        7 => "7",
        8 => "8",
        9 => "9",
        10 => "a",
        11 => "b",
        12 => "c",
        13 => "d",
        14 => "e",
        _ => "f",
    };
    digit
}

/// Writes a digest in lowercase hexadecimal.
pub fn to_hex_lower(bytes: &[u8; 16]) -> (text: String)
    ensures
        text@ == hex_lower(bytes@),
        text@.len() == 32,
        forall|k: int| 0 <= k < 32 ==> is_lower_hex(#[trigger] text@[k]),
{
    let mut text = String::new();
    let mut i: usize = 0;
    while i < 16
        invariant
            i <= 16,
            bytes@.len() == 16,
            text@.len() == 2 * i,
            forall|k: int| 0 <= k < 2 * i ==> text@[k] == hex_char_at(bytes@, k),
        decreases 16 - i,
    {
        let byte: u8 = bytes[i];
        text.append(hex_digit(byte / 16));
        text.append(hex_digit(byte % 16));
        i += 1;
    }
    text
}

/// The stored digest of a credential: the MD5 of `username:password`, in
/// lowercase hexadecimal.
pub fn hash_password(username: &str, password: &str) -> (digest: String)
    ensures
        digest@ == spec_hash_password(username@, password@),
        digest@.len() == 32,
        forall|k: int| 0 <= k < 32 ==> is_lower_hex(#[trigger] digest@[k]),
{
    let mut text = username.to_owned();
    text.append(":");
    text.append(password);
    proof {
        reveal_strlit(":");
        assert(text@ =~= credential_text(username@, password@));
    }
    let digest = md5_compute(text.as_str());
    to_hex_lower(&digest)
}

} // verus!
