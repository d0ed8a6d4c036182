//! The account on whose behalf blobs are submitted.

use vstd::prelude::*;

verus! {

/// Length in bytes of an account identifier.
pub const SIGNER_LEN: usize = 20;

/// The address of the account that signs every submission.
pub const SIGNER_ADDRESS: &'static str = "celestia1las83d0dt9gew3faq2mxp2gtupq5drclee9snr";

/// An account, known by the twenty bytes of its identifier.
#[derive(Clone, Copy, Debug, PartialEq, Eq)]
pub struct Signer {
    pub bytes: [u8; 20],
}

/// The error type of the `celestia_types` crate, opaque to the verifier.
#[verifier::external_type_specification]
#[verifier::external_body]
pub struct ExCelestiaError(celestia_types::Error);

/// What `AccAddress::from_str` of the `celestia_types` crate makes of `text`: the
/// bytes of the account that the address names, or nothing where it refuses the
/// text.
pub uninterp spec fn account_bytes(text: Seq<char>) -> Option<Seq<u8>>;

/// Decodes an account address with `AccAddress::from_str` and hands out the
/// identifier's bytes. Nothing is proved of the decoding: the contract only gives
/// its outcome the name `account_bytes`.
#[verifier::external_body]
fn decode_account(text: &str) -> (decoded: Result<[u8; 20], celestia_types::Error>)
    ensures
        match decoded {
            Ok(bytes) => account_bytes(text@) == Some(bytes@),
            Err(_) => account_bytes(text@) is None,
        },
{
    let address: celestia_types::state::AccAddress = std::str::FromStr::from_str(text)?;
    let mut bytes = [0u8; 20];
    bytes.copy_from_slice(celestia_types::state::AddressTrait::as_bytes(&address));
    Ok(bytes)
}

impl Signer {
    /// Reads an account from its address in text form; `None` where the text is
    /// no account address.
    pub fn parse(text: &str) -> (signer: Option<Signer>)
        ensures
            match signer {
                Some(s) => account_bytes(text@) == Some(s.bytes@),
                None => account_bytes(text@) is None,
            },
    {
        match decode_account(text) {
            Ok(bytes) => Some(Signer { bytes }),
            Err(_) => None,
        }
    }
}

} // verus!
