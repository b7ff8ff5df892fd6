//! The texts in which a search and its result are reported.

use crate::address::{hex_digit, hex_form, Address};
use crate::opt::AddressGenerationConfig;
use crate::scalar::Scalar;
use crate::sig::{Signature, SignatureResult};
use vstd::arithmetic::power::pow;
use vstd::prelude::*;
use vstd::string::StringExecFns;

verus! {

/// The decimal digits of `n`, without leading zeros.
pub open spec fn decimal_text(n: nat) -> Seq<char>
    decreases n,
{
    if n < 10 {
        seq![hex_digit(n as u8)]
    } else {
        decimal_text(n / 10).push(hex_digit((n % 10) as u8))
    }
}

/// The 32 bytes of a scalar, the most significant first.
pub open spec fn big_endian_bytes(x: nat) -> Seq<u8> {
    Seq::new(32, |i: int| ((x / (pow(256, (31 - i) as nat) as nat)) % 256) as u8)
}

/// The text of the signature `(v, r, s)`: the bytes of `r`, those of `s`
/// and the lowest byte of `v`, in lower-case hex without a marker.
pub open spec fn signature_text(v: u64, r: nat, s: nat) -> Seq<char> {
    hex_form(big_endian_bytes(r) + big_endian_bytes(s) + seq![(v % 256) as u8])
}

/// Formats an `ethers::types::Address` with `{:x}`: its twenty bytes in
/// lower-case hex, without a marker.
#[verifier::external_body]
fn address_hex(address: &Address) -> (text: String)
    ensures
        text@ == hex_form(address@),
{
    format!("{:x}", ethers::types::H160(address.0))
}

/// Formats an `ethers::types::Signature` with `{}`: the 65 bytes of the
/// signature in lower-case hex, which are `r` and `s`, 32 bytes each with
/// the most significant first, and `v` cut to a byte.
#[verifier::external_body]
fn signature_string(sig: &Signature) -> (text: String)
    ensures
        text@ == signature_text(sig.v, sig.r@, sig.s@),
{
    let outside = ethers::types::Signature {
        r: ethers::types::U256(sig.r.limbs),
        s: ethers::types::U256(sig.s.limbs),
        v: sig.v,
    };
    format!("{}", outside)
}

/// Formats an `ethers::types::U256` with `{}`: its decimal digits.
#[verifier::external_body]
fn scalar_decimal(value: &Scalar) -> (text: String)
    ensures
        text@ == decimal_text(value@),
{
    format!("{}", ethers::types::U256(value.limbs))
}

/// Formats a `usize` with `{}`: its decimal digits.
#[verifier::external_body]
fn count_decimal(value: usize) -> (text: String)
    ensures
        text@ == decimal_text(value as nat),
{
    format!("{}", value)
}

/// Formats an `ethers::types::Bytes` with `{}`: the marker `0x` and the
/// bytes in lower-case hex.
#[verifier::external_body]
fn bytes_hex(bytes: &Vec<u8>) -> (text: String)
    ensures
        text@ == "0x"@ + hex_form(bytes@),
{
    format!("{}", ethers::types::Bytes::from(bytes.clone()))
}

/// What a search found, with the signed transaction and its cost.
#[derive(Clone, Debug, PartialEq, Eq)]
pub struct FindResult {
    /// The signature with its deployer and contract address.
    pub info: SignatureResult,
    /// The encoding of the transaction with the signature.
    pub tx_raw: Vec<u8>,
    /// The amount that the deployer has to hold.
    pub tx_cost: Scalar,
}

/// The text of a signature with its two addresses.
pub open spec fn signature_result_text(result: SignatureResult) -> Seq<char> {
    "Sig: "@ + signature_text(result.sig.v, result.sig.r@, result.sig.s@) + "\nContract: 0x"@
        + hex_form(result.contract@) + "\nDeployer: 0x"@ + hex_form(result.deployer@)
}

/// The text of a search configuration: a line for the prefix where one is
/// asked for, a line for the zero bytes where any are asked for, and a
/// line for the start scalar.
pub open spec fn config_text(config: AddressGenerationConfig) -> Seq<char> {
    "\nAddress Generation Config"@ + match config.prefix {
        Some(p) => "\n\t- Prefix: "@ + p@,
        None => Seq::empty(),
    } + if config.num_zero_bytes == 0 {
        Seq::empty()
    } else {
        "\n\t- Min zero bytes: "@ + decimal_text(config.num_zero_bytes as nat)
    } + "\n\t- S start: "@ + decimal_text(config.s_start@)
}

/// The text of a whole result.
pub open spec fn find_result_text(result: FindResult) -> Seq<char> {
    "\n==== Info ====\n"@ + signature_result_text(result.info) + "\n\n==== Raw Tx ====\n"@ + (
    "0x"@ + hex_form(result.tx_raw@)) + "\n\nSend exactly "@ + decimal_text(result.tx_cost@)
        + " native tokens to the deployer address"@
}

impl SignatureResult {
    /// The signature and the two addresses, a line each.
    pub fn to_text(&self) -> (text: String)
        ensures
            text@ == signature_result_text(*self),
    {
        let mut text: String = "Sig: ".to_owned();
        text.append(signature_string(&self.sig).as_str());
        text.append("\nContract: 0x");
        text.append(address_hex(&self.contract).as_str());
        text.append("\nDeployer: 0x");
        text.append(address_hex(&self.deployer).as_str());
        text
    }
}

impl AddressGenerationConfig {
    /// The configuration as it is shown when a search starts.
    pub fn to_text(&self) -> (text: String)
        ensures
            text@ == config_text(*self),
    {
        let mut text: String = "\nAddress Generation Config".to_owned();
        let ghost head = text@;
        match &self.prefix {
            Some(p) => {
                text.append("\n\t- Prefix: ");
                text.append(p.as_str());
                assert(text@ =~= head + ("\n\t- Prefix: "@ + p@));
            },
            None => {
                assert(text@ =~= head + Seq::<char>::empty());
            },
        }
        let ghost with_prefix = text@;
        if self.num_zero_bytes != 0 {
            text.append("\n\t- Min zero bytes: ");
            text.append(count_decimal(self.num_zero_bytes).as_str());
            assert(text@ =~= with_prefix + ("\n\t- Min zero bytes: "@ + decimal_text(
                self.num_zero_bytes as nat,
            )));
        } else {
            assert(text@ =~= with_prefix + Seq::<char>::empty());
        }
        text.append("\n\t- S start: ");
        text.append(scalar_decimal(&self.s_start).as_str());
        text
    }
}

impl FindResult {
    /// The report of a result: the signature and addresses, the signed
    /// transaction in hex, and the amount to send to the deployer.
    pub fn to_text(&self) -> (text: String)
        ensures
            text@ == find_result_text(*self),
    {
        let mut text: String = "\n==== Info ====\n".to_owned();
        text.append(self.info.to_text().as_str());
        text.append("\n\n==== Raw Tx ====\n");
        text.append(bytes_hex(&self.tx_raw).as_str());
        text.append("\n\nSend exactly ");
        text.append(scalar_decimal(&self.tx_cost).as_str());
        text.append(" native tokens to the deployer address");
        text
    }
}

} // verus!
