use crate::address::Address;
use crate::error::CliError;
use vstd::prelude::*;

verus! {

/// The private key of a write command: the `--private-key` option, else the
/// `BACKED_PRIVATE_KEY` environment variable, else an error.
pub fn select_private_key(option: Option<String>, environment: Option<String>) -> (r: Result<
    String,
    CliError,
>)
    ensures
        match option {
            Some(k) => r == Ok::<String, CliError>(k),
            None => match environment {
                Some(k) => r == Ok::<String, CliError>(k),
                None => r matches Err(e) && e is MissingPrivateKey,
            },
        },
{
    match option {
        Some(k) => Ok(k),
        None => match environment {
            Some(k) => Ok(k),
            None => Err(CliError::MissingPrivateKey),
        },
    }
}

/// The address of the account that the private key `key` signs for, when
/// `ethers`' `LocalWallet` accepts the key text; `None` when it refuses it.
pub uninterp spec fn key_address(key: Seq<char>) -> Option<Seq<u8>>;

/// `str::parse::<LocalWallet>` of `ethers`, then the wallet's address. The
/// parse decodes the hexadecimal key, wants 32 bytes that make a valid
/// secp256k1 secret key, and derives the address from the public key; none
/// of that is stated here beyond the name `key_address`, of which the result
/// depends on the key text alone.
#[verifier::external_body]
fn wallet_address(key: &str) -> (r: Option<Address>)
    ensures
        match r {
            Some(a) => key_address(key@) == Some(a@),
            None => key_address(key@) is None,
        },
{
    match key.parse::<ethers::signers::LocalWallet>() {
        Ok(w) => Some(Address { bytes: ethers::signers::Signer::address(&w).0 }),
        Err(_) => None,
    }
}

/// The key a write command signs with and the address it signs for: the key
/// is chosen as `select_private_key` does, and a key that the wallet refuses
/// is an error.
pub fn signer_address(option: Option<String>, environment: Option<String>) -> (r: Result<
    (String, Address),
    CliError,
>)
    ensures
        option is None && environment is None ==> (r matches Err(e) && e is MissingPrivateKey),
        (match option {
            Some(k) => Some(k),
            None => environment,
        }) matches Some(k) ==> match r {
            Ok((s, a)) => s@ == k@ && key_address(k@) == Some(a@),
            Err(e) => key_address(k@) is None && e is InvalidPrivateKey,
        },
{
    let key = match select_private_key(option, environment) {
        Ok(k) => k,
        Err(e) => return Err(e),
    };
    match wallet_address(key.as_str()) {
        Some(a) => Ok((key, a)),
        None => Err(CliError::InvalidPrivateKey),
    }
}

} // verus!
