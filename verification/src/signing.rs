//! The signing capability: a held private key and the two ways to sign with
//! it. A digest is signed as it is. A plain message is first hashed under the
//! personal-message scheme, which keeps a signed message from ever passing
//! for a signed digest.

use vstd::prelude::*;
use vstd::string::StringSliceAdditionalSpecFns;
use crate::bytes::decimal_text;
use crate::eip712::Digest32;
use crate::hex::{hex_text, to_hex};
use crate::keccak::keccak256;
use crate::primitives::ascii_bytes;

verus! {

/// The error of the wallet crate, carried from a failed call to where it is
/// turned into an error of this crate.
#[verifier::external_type_specification]
#[verifier::external_body]
pub struct ExWalletError(ethers_signers::WalletError);

/// The key that `ethers_signers::LocalWallet` reads from `text`, as 32
/// big-endian bytes, or `None` where it refuses the text.
pub uninterp spec fn parsed_key(text: Seq<char>) -> Option<[u8; 32]>;

/// The signature that `ethers_signers::Wallet::sign_hash` makes with the key
/// `key` over the 32-byte hash `hash`: `r`, `s` and the recovery byte, 65
/// bytes in all; `None` where the key is no valid key or signing fails.
pub uninterp spec fn signature_of(key: [u8; 32], hash: [u8; 32]) -> Option<[u8; 65]>;

/// What stands before a plain message when it is hashed for signing.
pub const PERSONAL_MESSAGE_PREFIX: &'static str = "\x19Ethereum Signed Message:\n";

/// A plain message as it is hashed for signing: the prefix, the message's
/// length in decimal, the message.
pub open spec fn personal_message(message: Seq<u8>) -> Seq<u8> {
    PERSONAL_MESSAGE_PREFIX.spec_bytes() + ascii_bytes(decimal_text(message.len())) + message
}

/// The hash that is signed for a plain message.
pub open spec fn personal_message_hash(message: Seq<u8>) -> [u8; 32] {
    keccak256(personal_message(message))
}

/// Parses a private key with `LocalWallet`'s `FromStr`.
///
/// Trusted: an `Ok` holds the key that the wallet crate read from the text,
/// an `Err` means that it refused the text; both as `parsed_key` names them.
#[verifier::external_body]
fn wallet_parse_key(text: &str) -> (res: Result<[u8; 32], ethers_signers::WalletError>)
    ensures
        match res {
            Ok(key) => parsed_key(text@) == Some(key),
            Err(_) => parsed_key(text@) is None,
        },
{
    let wallet = text.parse::<ethers_signers::LocalWallet>()?;
    Ok(wallet.signer().to_bytes().into())
}

/// Signs a hash with `ethers_signers::Wallet::sign_hash`, on a wallet made
/// from the key's bytes.
///
/// Trusted: an `Ok` holds the 65 bytes of the signature that the wallet crate
/// made, an `Err` means that it made none; both as `signature_of` names them.
/// The signature depends on the key and the hash alone: the nonce is derived
/// from them.
#[verifier::external_body]
fn wallet_sign_hash(key: &[u8; 32], hash: &[u8; 32]) -> (res: Result<
    [u8; 65],
    ethers_signers::WalletError,
>)
    ensures
        match res {
            Ok(signature) => signature_of(*key, *hash) == Some(signature),
            Err(_) => signature_of(*key, *hash) is None,
        },
{
    let wallet = ethers_signers::LocalWallet::from_bytes(key)?;
    let signature = wallet.sign_hash(ethers_core::types::H256::from(*hash))?;
    Ok((&signature).into())
}

/// Hashes a plain message with `ethers_core::utils::hash_message`.
///
/// Trusted: the hash is the Keccak-256 hash of the prefix, the decimal length
/// of the message and the message, in this order.
#[verifier::external_body]
fn wallet_hash_message(message: &[u8]) -> (hash: [u8; 32])
    ensures
        hash == personal_message_hash(message@),
{
    ethers_core::utils::hash_message(message).0
}

/// Renders the wallet crate's error as text. Nothing is claimed of the text.
#[verifier::external_body]
fn wallet_error_text(error: &ethers_signers::WalletError) -> (text: String) {
    error.to_string()
}

/// Why a key could not be used.
#[derive(Clone, Debug, PartialEq, Eq)]
pub enum SigningError {
    /// The text is not a private key. `cause` is the wallet's own message.
    MalformedKey { cause: String },
    /// The wallet made no signature. `cause` is the wallet's own message.
    SigningFailed { cause: String },
}

impl SigningError {
    /// The wallet's own message, whichever way the key could not be used.
    pub open spec fn cause(self) -> String {
        match self {
            SigningError::MalformedKey { cause } => cause,
            SigningError::SigningFailed { cause } => cause,
        }
    }
}

/// A signature: the scalars `r` and `s`, 32 bytes each, then one recovery
/// byte.
#[derive(Clone, Copy, Debug, PartialEq, Eq)]
pub struct Signature {
    pub bytes: [u8; 65],
}

impl Signature {
    /// The scalar `r`.
    pub fn r(&self) -> (r: [u8; 32])
        ensures
            r@ == self.bytes@.subrange(0, 32),
    {
        self.scalar(0)
    }

    /// The scalar `s`.
    pub fn s(&self) -> (s: [u8; 32])
        ensures
            s@ == self.bytes@.subrange(32, 64),
    {
        self.scalar(32)
    }

    fn scalar(&self, from: usize) -> (scalar: [u8; 32])
        requires
            from <= 33,
        ensures
            scalar@ == self.bytes@.subrange(from as int, from + 32),
    {
        let mut scalar = [0u8; 32];
        let mut i: usize = 0;
        while i < 32
            invariant
                i <= 32,
                from <= 33,
                forall|k: int| 0 <= k < i ==> scalar@[k] == self.bytes@[from + k],
            decreases 32 - i,
        {
            scalar[i] = self.bytes[from + i];
            i = i + 1;
        }
        assert(scalar@ =~= self.bytes@.subrange(from as int, from + 32));
        scalar
    }

    /// The recovery byte.
    pub fn v(&self) -> (v: u8)
        ensures
            v == self.bytes[64],
    {
        self.bytes[64]
    }

    /// The signature as it goes on the wire: `0x` and 130 hex digits.
    pub fn to_hex(&self) -> (text: String)
        ensures
            text@ == hex_text(self.bytes@),
            text@.len() == 132,
            text@[0] == '0',
            text@[1] == 'x',
    {
        to_hex(self.bytes.as_slice())
    }
}

/// A private key. It is kept out of sight: it cannot be read back or printed.
pub struct PrivateKey {
    bytes: [u8; 32],
}

impl PrivateKey {
    /// The key's 32 bytes.
    pub closed spec fn secret(&self) -> [u8; 32] {
        self.bytes
    }

    /// Reads a private key from its hex text.
    ///
    /// Succeeds exactly on the texts that the wallet accepts.
    pub fn parse(text: &str) -> (res: Result<PrivateKey, SigningError>)
        ensures
            match res {
                Ok(key) => parsed_key(text@) == Some(key.secret()),
                Err(error) => parsed_key(text@) is None && error is MalformedKey,
            },
    {
        match wallet_parse_key(text) {
            Ok(bytes) => Ok(PrivateKey { bytes }),
            Err(error) => Err(SigningError::MalformedKey { cause: wallet_error_text(&error) }),
        }
    }

    /// Signs a digest as it is. This is the mode for order digests.
    pub fn sign_digest(&self, digest: &Digest32) -> (res: Result<Signature, SigningError>)
        ensures
            match res {
                Ok(signature) => signature_of(self.secret(), digest.bytes) == Some(
                    signature.bytes,
                ),
                Err(error) => signature_of(self.secret(), digest.bytes) is None
                    && error is SigningFailed,
            },
    {
        self.sign_hash(&digest.bytes)
    }

    /// Signs a plain message: the message is hashed under the
    /// personal-message scheme and that hash is signed. This is the mode for
    /// the proof of wallet ownership, never for an order digest.
    pub fn sign_plaintext(&self, message: &[u8]) -> (res: Result<Signature, SigningError>)
        ensures
            match res {
                Ok(signature) => signature_of(self.secret(), personal_message_hash(message@))
                    == Some(signature.bytes),
                Err(error) => signature_of(self.secret(), personal_message_hash(message@))
                    is None && error is SigningFailed,
            },
    {
        let hash = wallet_hash_message(message);
        self.sign_hash(&hash)
    }

    fn sign_hash(&self, hash: &[u8; 32]) -> (res: Result<Signature, SigningError>)
        ensures
            match res {
                Ok(signature) => signature_of(self.secret(), *hash) == Some(signature.bytes),
                Err(error) => signature_of(self.secret(), *hash) is None
                    && error is SigningFailed,
            },
    {
        match wallet_sign_hash(&self.bytes, hash) {
            Ok(bytes) => Ok(Signature { bytes }),
            Err(error) => Err(SigningError::SigningFailed { cause: wallet_error_text(&error) }),
        }
    }
}

} // verus!
