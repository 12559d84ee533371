use vstd::prelude::*;

use liana::miniscript::bitcoin;
use liana::miniscript::bitcoin::address::NetworkUnchecked;

use crate::types::Network;

verus! {

/// What `str::trim` leaves of a text: the text without its leading and
/// trailing Unicode white space.
pub uninterp spec fn trimmed(s: Seq<char>) -> Seq<char>;

/// Whether the bitcoin crate parses `s` as an address and accepts it for
/// `network`.
pub uninterp spec fn address_accepted(s: Seq<char>, network: Network) -> bool;

/// Relies on std's `str::trim`, which removes leading and trailing white space.
#[verifier::external_body]
fn trim_text(s: &str) -> (r: &str)
    ensures
        r@ == trimmed(s@),
{
    s.trim()
}

/// Relies on `Address::<NetworkUnchecked>::from_str` and
/// `Address::is_valid_for_network` of the bitcoin crate (through liana's
/// miniscript): whether `s` is an address that may be used on `network`.
#[verifier::external_body]
fn address_on_network(s: &str, network: Network) -> (r: bool)
    ensures
        r == address_accepted(s@, network),
{
    let network = match network {
        Network::Bitcoin => bitcoin::Network::Bitcoin,
        Network::Testnet => bitcoin::Network::Testnet,
        Network::Signet => bitcoin::Network::Signet,
        Network::Regtest => bitcoin::Network::Regtest,
    };
    match s.parse::<bitcoin::Address<NetworkUnchecked>>() {
        Ok(address) => address.is_valid_for_network(network),
        Err(_) => false,
    }
}

pub open spec fn is_digit(c: char) -> bool {
    '0' <= c <= '9'
}

/// Value of a string of decimal digits.
pub open spec fn digits_value(d: Seq<char>) -> nat
    decreases d.len(),
{
    if d.len() == 0 {
        0
    } else {
        digits_value(d.drop_last()) * 10 + (d.last() as nat - '0' as nat) as nat
    }
}

/// The digits of an unsigned decimal text: all of it, past one leading `+`.
pub open spec fn unsigned_digits(s: Seq<char>) -> Seq<char> {
    if s.len() > 0 && s[0] == '+' {
        s.drop_first()
    } else {
        s
    }
}

/// The `u64` that a text denotes: an optional `+` followed by at least one
/// decimal digit and nothing else, with a value that fits.
pub open spec fn parsed_u64(s: Seq<char>) -> Option<u64> {
    let d = unsigned_digits(s);
    if d.len() > 0 && (forall|i: int| 0 <= i < d.len() ==> is_digit(#[trigger] d[i]))
        && digits_value(d) <= u64::MAX {
        Some(digits_value(d) as u64)
    } else {
        None
    }
}

/// Relies on std's `u64::from_str`, documented to accept an optional `+`
/// followed by decimal digits only, and to fail on overflow.
#[verifier::external_body]
fn parse_u64(s: &str) -> (r: Option<u64>)
    ensures
        r == parsed_u64(s@),
{
    s.parse::<u64>().ok()
}

/// A destination text is acceptable iff it is not empty and is an address of
/// the wallet's network.
pub open spec fn address_ok(text: Seq<char>, network: Network) -> bool {
    text.len() > 0 && address_accepted(text, network)
}

/// A feerate text is acceptable iff it is a whole number of sats/vbyte
/// greater than zero.
pub open spec fn feerate_ok(text: Seq<char>) -> bool {
    match parsed_u64(text) {
        Some(v) => v > 0,
        None => false,
    }
}

/// Checks an already trimmed destination text.
pub fn address_text_valid(text: &str, network: Network) -> (r: bool)
    ensures
        r == address_ok(text@, network),
{
    if text.is_empty() {
        false
    } else {
        address_on_network(text, network)
    }
}

/// Checks an already trimmed feerate text.
pub fn feerate_text_valid(text: &str) -> (r: bool)
    ensures
        r == feerate_ok(text@),
{
    match parse_u64(text) {
        Some(v) => v > 0,
        None => false,
    }
}

/// Whether a raw destination entry, once trimmed, is a non-empty address of
/// `network`.
pub fn validate_address(raw: &str, network: Network) -> (r: bool)
    ensures
        r == address_ok(trimmed(raw@), network),
{
    address_text_valid(trim_text(raw), network)
}

/// Whether a raw feerate entry, once trimmed, is a positive whole number.
pub fn validate_feerate(raw: &str) -> (r: bool)
    ensures
        r == feerate_ok(trimmed(raw@)),
{
    feerate_text_valid(trim_text(raw))
}

/// A form field: the text the user entered, trimmed, and whether it passed
/// its check. The two are always set together.
#[derive(Debug)]
pub struct ValidatedField {
    pub value: String,
    pub valid: bool,
}

impl ValidatedField {
    /// The field before any entry: empty and invalid.
    pub fn new() -> (r: Self)
        ensures
            r.value@ == Seq::<char>::empty(),
            !r.valid,
    {
        ValidatedField { value: String::new(), valid: false }
    }

    /// The destination field after the user entered `raw`.
    pub fn address(raw: &str, network: Network) -> (r: Self)
        ensures
            r.value@ == trimmed(raw@),
            r.valid == address_ok(trimmed(raw@), network),
    {
        let text = trim_text(raw);
        let valid = address_text_valid(text, network);
        ValidatedField { value: text.to_owned(), valid }
    }

    /// The feerate field after the user entered `raw`.
    pub fn feerate(raw: &str) -> (r: Self)
        ensures
            r.value@ == trimmed(raw@),
            r.valid == feerate_ok(trimmed(raw@)),
    {
        let text = trim_text(raw);
        let valid = feerate_text_valid(text);
        ValidatedField { value: text.to_owned(), valid }
    }

    /// Whether the field holds an accepted, non-empty entry.
    pub fn is_filled(&self) -> (r: bool)
        ensures
            r == (self.valid && self.value@.len() > 0),
    {
        self.valid && !self.value.as_str().is_empty()
    }
}

} // verus!
