use vstd::prelude::*;

verus! {

/// Declared so that the decoder's error can be handed back and mapped by
/// verified code.
#[verifier::external_type_specification]
#[verifier::external_body]
pub struct ExParsePubkeyError(solana_sdk::pubkey::ParsePubkeyError);

/// The 32-byte key that the ledger's base58 address decoding gives for `s`,
/// or `None` where `s` is not a well-formed address.
pub uninterp spec fn decoded_key(s: Seq<char>) -> Option<Seq<u8>>;

/// Relies on `FromStr for solana_sdk::pubkey::Pubkey` (solana-address): it
/// decodes base58 into exactly 32 bytes, or fails. The result depends on the
/// characters of `s` alone.
#[verifier::external_body]
fn decode_pubkey(s: &str) -> (r: Result<[u8; 32], solana_sdk::pubkey::ParsePubkeyError>)
    ensures
        match r {
            Ok(bytes) => decoded_key(s@) == Some(bytes@),
            Err(_) => decoded_key(s@).is_none(),
        },
{
    s.parse::<solana_sdk::pubkey::Pubkey>().map(|k| k.to_bytes())
}

/// The input did not decode to a well-formed address. It carries no detail.
#[derive(Clone, Copy, Debug, PartialEq, Eq, Structural)]
pub struct ValidationError;

/// A validated address: the string as the client gave it, and the key it
/// decodes to.
#[derive(Clone, Debug)]
pub struct Address {
    pub raw: String,
    pub key: [u8; 32],
}

impl Address {
    /// The address is the decoding of its own text.
    pub open spec fn wf(&self) -> bool {
        decoded_key(self.raw@) == Some(self.key@)
    }
}

/// Validates `raw` as a ledger address, keeping the original text.
pub fn parse_address(raw: String) -> (r: Result<Address, ValidationError>)
    ensures
        match decoded_key(raw@) {
            Some(k) => r matches Ok(a) && a.raw == raw && a.key@ == k && a.wf(),
            None => r == Err::<Address, ValidationError>(ValidationError),
        },
{
    match decode_pubkey(raw.as_str()) {
        Ok(key) => Ok(Address { raw, key }),
        Err(_) => Err(ValidationError),
    }
}

} // verus!
