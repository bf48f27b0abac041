//! Ledger keys and signatures, and their base58 text.
//!
//! The base58 codec is the `solana_sdk` one; this module is the only place that calls it.
use vstd::prelude::*;

verus! {

/// A ledger account key.
#[derive(Clone, Copy, Debug, PartialEq, Eq, Hash)]
pub struct Pubkey {
    pub bytes: [u8; 32],
}

impl View for Pubkey {
    type V = Seq<u8>;

    open spec fn view(&self) -> Seq<u8> {
        self.bytes@
    }
}

/// What `solana_sdk::pubkey::Pubkey::from_str` makes of a text: the key's bytes, or the text of
/// its error.
pub uninterp spec fn pubkey_of_text(text: Seq<char>) -> Result<Seq<u8>, Seq<char>>;

/// What `solana_sdk::pubkey::Pubkey` displays as, given its bytes.
pub uninterp spec fn text_of_pubkey(bytes: Seq<u8>) -> Seq<char>;

/// What `solana_sdk::signature::Signature::from_str` makes of a text: the signature's bytes, or
/// the text of its error.
pub uninterp spec fn signature_of_text(text: Seq<char>) -> Result<Seq<u8>, Seq<char>>;

/// What `solana_sdk::signature::Signature` displays as, given its bytes.
pub uninterp spec fn text_of_signature(bytes: Seq<u8>) -> Seq<char>;

/// The contents of a parse result: bytes or error text.
pub open spec fn parsed_view<const N: usize>(r: Result<[u8; N], String>) -> Result<
    Seq<u8>,
    Seq<char>,
> {
    match r {
        Ok(bytes) => Ok(bytes@),
        Err(detail) => Err(detail@),
    }
}

/// The characters of the base58 alphabet: the digits and letters but for `0`, `I`, `O` and `l`.
pub open spec fn base58_char(c: char) -> bool {
    ||| '1' <= c <= '9'
    ||| 'A' <= c <= 'Z' && c != 'I' && c != 'O'
    ||| 'a' <= c <= 'z' && c != 'l'
}

/// Nothing but characters of the base58 alphabet.
pub open spec fn base58_text(text: Seq<char>) -> bool {
    forall|i: int| 0 <= i < text.len() ==> base58_char(#[trigger] text[i])
}

/// Calls `solana_sdk::pubkey::Pubkey::from_str` and renders its error with `Display`.
///
/// Trusted: the outcome depends on `text` alone; a text with a character outside the base58 alphabet
/// is refused, and so is one of fewer than 32 or more than 44 characters; and a text that is
/// accepted is the very text that the resulting key displays as (the decoder refuses any other
/// spelling of the same 32 bytes). Which of the remaining texts are accepted, and the words of the
/// error, are left to the name.
#[verifier::external_body]
pub(crate) fn parse_pubkey(text: &str) -> (r: Result<[u8; 32], String>)
    ensures
        parsed_view(r) == pubkey_of_text(text@),
        r is Ok ==> base58_text(text@) && 32 <= text@.len() <= 44,
        r matches Ok(bytes) ==> text_of_pubkey(bytes@) == text@,
{
    match text.parse::<solana_sdk::pubkey::Pubkey>() {
        Ok(key) => Ok(key.to_bytes()),
        Err(e) => Err(e.to_string()),
    }
}

/// Calls the `Display` of `solana_sdk::pubkey::Pubkey`.
///
/// Trusted: the text depends on the bytes alone, and `Pubkey::from_str` reads it back as the same
/// bytes.
#[verifier::external_body]
pub(crate) fn pubkey_text(bytes: &[u8; 32]) -> (r: String)
    ensures
        r@ == text_of_pubkey(bytes@),
        pubkey_of_text(r@) is Ok,
        pubkey_of_text(r@)->Ok_0 == bytes@,
{
    solana_sdk::pubkey::Pubkey::from(*bytes).to_string()
}

/// Calls `solana_sdk::signature::Signature::from_str` and renders its error with `Display`.
///
/// Trusted: the outcome depends on `text` alone; a text with a character outside the base58 alphabet
/// is refused, and so is one of fewer than 64 or more than 88 characters; and a text that is
/// accepted is the very text that the resulting signature displays as. Which of the remaining texts
/// are accepted, and the words of the error, are left to the name.
#[verifier::external_body]
pub(crate) fn parse_signature(text: &str) -> (r: Result<[u8; 64], String>)
    ensures
        parsed_view(r) == signature_of_text(text@),
        r is Ok ==> base58_text(text@) && 64 <= text@.len() <= 88,
        r matches Ok(bytes) ==> text_of_signature(bytes@) == text@,
{
    match text.parse::<solana_sdk::signature::Signature>() {
        Ok(signature) => Ok(signature.into()),
        Err(e) => Err(e.to_string()),
    }
}

/// Calls the `Display` of `solana_sdk::signature::Signature`.
///
/// Trusted: the text depends on the bytes alone, and `Signature::from_str` reads it back as the
/// same bytes.
#[verifier::external_body]
pub(crate) fn signature_text(bytes: &[u8; 64]) -> (r: String)
    ensures
        r@ == text_of_signature(bytes@),
        signature_of_text(r@) is Ok,
        signature_of_text(r@)->Ok_0 == bytes@,
{
    solana_sdk::signature::Signature::from(*bytes).to_string()
}

impl Pubkey {
    /// The key's base58 text, which reads back as the same key.
    pub fn to_string(&self) -> (r: String)
        ensures
            r@ == text_of_pubkey(self@),
            pubkey_of_text(r@) is Ok,
            pubkey_of_text(r@)->Ok_0 == self@,
    {
        pubkey_text(&self.bytes)
    }
}

} // verus!
