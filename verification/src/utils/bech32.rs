//! Recipient addresses on the origin chain.
//!
//! An address is a bech32 string whose human-readable part is `mirage`, in either
//! case. Decoding is left to the `bech32` crate; this module decides on the prefix.

use vstd::prelude::*;
use crate::errors::BridgeError;

verus! {

/// The human-readable part that recipient addresses carry.
pub const MIRAGE_PREFIX: &'static str = "mirage";

/// The human-readable part of a bech32 string, in lower case, as the `bech32`
/// crate decodes it, or `None` where it does not decode.
pub uninterp spec fn bech32_prefix(address: Seq<char>) -> Option<Seq<char>>;

/// The human-readable part of a string that may be missing, as characters.
pub open spec fn prefix_view(prefix: Option<String>) -> Option<Seq<char>> {
    match prefix {
        Some(text) => Some(text@),
        None => None,
    }
}

/// Decodes `address` with `bech32::decode`, which accepts a bech32 or bech32m
/// checksum, and hands out the human-readable part through `Hrp::to_lowercase`.
/// What comes back is what `bech32_prefix` names; a string that does not decode
/// gives `None`.
#[verifier::external_body]
fn decode_prefix(address: &str) -> (prefix: Option<String>)
    ensures
        prefix_view(prefix) == bech32_prefix(address@),
{
    match ::bech32::decode(address) {
        Ok((hrp, _)) => Some(hrp.to_lowercase()),
        Err(_) => None,
    }
}

/// Whether `address` is a recipient address of the origin chain: it decodes, and
/// its human-readable part is `mirage`.
pub open spec fn is_mirage_address(address: Seq<char>) -> bool {
    bech32_prefix(address) == Some(MIRAGE_PREFIX@)
}

/// Decides on a decoded human-readable part: only `mirage` passes.
pub fn check_address_prefix(prefix: &Option<String>) -> (checked: Result<(), BridgeError>)
    ensures
        checked == if prefix_view(*prefix) == Some(MIRAGE_PREFIX@) {
            Ok::<(), BridgeError>(())
        } else {
            Err::<(), BridgeError>(BridgeError::InvalidMirageRecipient)
        },
{
    match prefix {
        Some(text) => {
            let expected = MIRAGE_PREFIX.to_owned();
            if *text == expected {
                Ok(())
            } else {
                Err(BridgeError::InvalidMirageRecipient)
            }
        },
        None => Err(BridgeError::InvalidMirageRecipient),
    }
}

/// Checks that `address` is a recipient address of the origin chain.
pub fn validate_mirage_address(address: &str) -> (checked: Result<(), BridgeError>)
    ensures
        checked == if is_mirage_address(address@) {
            Ok::<(), BridgeError>(())
        } else {
            Err::<(), BridgeError>(BridgeError::InvalidMirageRecipient)
        },
{
    let prefix = decode_prefix(address);
    check_address_prefix(&prefix)
}

} // verus!
