//! Validation of blockchain addresses.

use vstd::prelude::*;
use vstd::string::StrSliceExecFns;

verus! {

/// The number of characters of an EVM address, prefix included.
pub const EVM_ADDRESS_LEN: usize = 42;

/// The number of bytes of a Solana address.
pub const SOLANA_ADDRESS_LEN: usize = 32;

/// Whether a character is an ASCII hexadecimal digit, of either case.
pub open spec fn is_hex_digit(c: char) -> bool {
    ('0' <= c && c <= '9') || ('a' <= c && c <= 'f') || ('A' <= c && c <= 'F')
}

/// Whether a text is an EVM address: the prefix `0x` and then hexadecimal
/// digits, 42 characters in all.
pub open spec fn is_evm(text: Seq<char>) -> bool {
    &&& text.len() == EVM_ADDRESS_LEN
    &&& text[0] == '0'
    &&& text[1] == 'x'
    &&& forall|i: int| 2 <= i < text.len() ==> is_hex_digit(#[trigger] text[i])
}

/// The number of bytes that `bs58` decodes a text to, in its default
/// alphabet, where the text is Base58 and its bytes fit into a buffer of the
/// given capacity; `None` where the decoder reports an error.
pub uninterp spec fn base58_len(text: Seq<char>, capacity: nat) -> Option<nat>;

/// Whether a text is a Solana address: Base58 for exactly 32 bytes.
pub open spec fn is_solana(text: Seq<char>) -> bool {
    base58_len(text, SOLANA_ADDRESS_LEN as nat) == Some(SOLANA_ADDRESS_LEN as nat)
}

/// `bs58::decode` and `DecodeBuilder::onto` a fresh buffer of `capacity`
/// bytes. Trusted: the number of bytes written comes back, or `None` where the
/// decoder reports an error, and the same text and capacity always give the
/// same.
#[verifier::external_body]
fn base58_decoded_len(text: &str, capacity: usize) -> (len: Option<usize>)
    ensures
        match len {
            Some(n) => base58_len(text@, capacity as nat) == Some(n as nat),
            None => base58_len(text@, capacity as nat) is None,
        },
{
    let mut buffer = vec![0_u8; capacity];
    bs58::decode(text).onto(buffer.as_mut_slice()).ok()
}

/// Whether a decoded length is that of a Solana address.
pub fn is_solana_len(decoded: Option<usize>) -> (valid: bool)
    ensures
        valid == (decoded == Some(SOLANA_ADDRESS_LEN)),
{
    match decoded {
        Some(len) => len == SOLANA_ADDRESS_LEN,
        None => false,
    }
}

/// Trait containing functions to validate Blockchain address
pub trait ValidateAddress {
    /// The text that is validated. Each type of value says here what its
    /// text is.
    open spec fn address_text(&self) -> Seq<char> {
        arbitrary()
    }

    /// Checks if it is a valid Blockchain Address
    fn is_blockchain_address(&self) -> (valid: bool)
        ensures
            valid == (is_evm(self.address_text()) || is_solana(self.address_text())),
    ;

    /// Checks if it is an EVM address
    fn is_evm_address(&self) -> (valid: bool)
        ensures
            valid == is_evm(self.address_text()),
    ;

    /// Checks if it is a Solana address
    fn is_solana_address(&self) -> (valid: bool)
        ensures
            valid == is_solana(self.address_text()),
    ;
}

/// Whether a character is an ASCII hexadecimal digit, of either case.
fn hex_digit(c: char) -> (hex: bool)
    ensures
        hex == is_hex_digit(c),
{
    ('0' <= c && c <= '9') || ('a' <= c && c <= 'f') || ('A' <= c && c <= 'F')
}

impl ValidateAddress for str {
    open spec fn address_text(&self) -> Seq<char> {
        self@
    }

    fn is_blockchain_address(&self) -> (valid: bool) {
        self.is_evm_address() || self.is_solana_address()
    }

    fn is_evm_address(&self) -> (valid: bool) {
        // EVM Address must start with 0x and have 42 characters
        if self.unicode_len() != EVM_ADDRESS_LEN {
            return false;
        }
        if self.get_char(0) != '0' || self.get_char(1) != 'x' {
            return false;
        }
        // Check that the address contains only hexadecimal characters
        let mut i: usize = 2;
        while i < EVM_ADDRESS_LEN
            invariant
                2 <= i <= EVM_ADDRESS_LEN,
                self@.len() == EVM_ADDRESS_LEN,
                forall|j: int| 2 <= j < i ==> is_hex_digit(#[trigger] self@[j]),
            decreases EVM_ADDRESS_LEN - i,
        {
            if !hex_digit(self.get_char(i)) {
                return false;
            }
            i += 1;
        }
        true
    }

    fn is_solana_address(&self) -> (valid: bool) {
        is_solana_len(base58_decoded_len(self, SOLANA_ADDRESS_LEN))
    }
}

impl ValidateAddress for String {
    open spec fn address_text(&self) -> Seq<char> {
        self@
    }

    fn is_blockchain_address(&self) -> (valid: bool) {
        self.as_str().is_blockchain_address()
    }

    fn is_evm_address(&self) -> (valid: bool) {
        self.as_str().is_evm_address()
    }

    fn is_solana_address(&self) -> (valid: bool) {
        self.as_str().is_solana_address()
    }
}

} // verus!
