//! Validator identities: which account's balance is asked for on behalf of a
//! watched identity.

use crate::config::MonitorConfig;
use std::str::FromStr;
use vstd::prelude::*;

verus! {

/// What `FromStr` of `solana_sdk::pubkey::Pubkey` makes of a text: the
/// thirty-two bytes of the key that it decodes to, or `None` where the text
/// is not Base58 or decodes to another number of bytes. The decoding is not
/// spelled out here; the name stands for what the outside crate returns.
pub uninterp spec fn parsed_pubkey(text: Seq<char>) -> Option<Seq<u8>>;

/// The key made of thirty-two zero bytes, which `Pubkey::default()` is.
pub open spec fn default_key() -> Seq<u8> {
    Seq::new(32, |i: int| 0u8)
}

/// The key to ask about, given what parsing the identity gave: the parsed
/// key, or the default key for an identity that does not parse.
pub open spec fn key_or_default(parsed: Option<Seq<u8>>) -> Seq<u8> {
    match parsed {
        Some(key) => key,
        None => default_key(),
    }
}

/// Calls `Pubkey::from_str` of `solana_sdk` and hands out the bytes of the
/// key with `Pubkey::to_bytes`. Trusted: the result is the one named by
/// [`parsed_pubkey`], `None` standing for either parse error.
#[verifier::external_body]
fn parse_pubkey(identity: &str) -> (key: Option<[u8; 32]>)
    ensures
        key matches Some(bytes) ==> parsed_pubkey(identity@) == Some(bytes@),
        key is None ==> parsed_pubkey(identity@) is None,
{
    match solana_sdk::pubkey::Pubkey::from_str(identity) {
        Ok(key) => Some(key.to_bytes()),
        Err(_) => None,
    }
}

/// The key to ask about, given what parsing the identity gave.
pub fn account_key(parsed: Option<[u8; 32]>) -> (key: [u8; 32])
    ensures
        key@ == key_or_default(
            match parsed {
                Some(bytes) => Some(bytes@),
                None => None,
            },
        ),
{
    match parsed {
        Some(bytes) => bytes,
        None => {
            let key = [0u8; 32];
            key
        },
    }
}

/// The account whose balance is looked up for a watched identity: the key
/// that the identity parses to, or the default key where it does not parse.
pub fn balance_account(identity: &str) -> (key: [u8; 32])
    ensures
        key@ == key_or_default(parsed_pubkey(identity@)),
{
    account_key(parse_pubkey(identity))
}

/// The accounts whose balances are looked up in a cycle: one for each
/// watched identity, in the order of the configuration.
pub fn balance_accounts(config: &MonitorConfig) -> (keys: Vec<[u8; 32]>)
    ensures
        keys@.len() == config@.watched_identities.len(),
        forall|i: int|
            0 <= i < keys@.len() ==> (#[trigger] keys@[i])@ == key_or_default(
                parsed_pubkey(config@.watched_identities[i]),
            ),
{
    let mut keys: Vec<[u8; 32]> = Vec::new();
    let mut i: usize = 0;
    while i < config.watched_identities.len()
        invariant
            i <= config.watched_identities.len(),
            keys@.len() == i,
            forall|j: int|
                0 <= j < i ==> (#[trigger] keys@[j])@ == key_or_default(
                    parsed_pubkey(config@.watched_identities[j]),
                ),
        decreases config.watched_identities.len() - i,
    {
        let key = balance_account(config.watched_identities[i].as_str());
        keys.push(key);
        i += 1;
    }
    keys
}

} // verus!
