//! The options of a run and the configuration that they give.

use crate::scalar::{modulus, Scalar};
use crate::util::{strip_hex_prefix, without_hex_marker};
use vstd::prelude::*;
use vstd::string::{StrSliceExecFns, StringExecFns};

verus! {

/// The error of reading bytes from hex text, carried through as it comes.
#[verifier::external_type_specification]
#[verifier::external_body]
pub struct ExParseBytesError(ethers::types::ParseBytesError);

/// The error of reading a number from text, carried through as it comes.
#[verifier::external_type_specification]
#[verifier::external_body]
pub struct ExFromStrRadixErr(ethers::abi::ethereum_types::FromStrRadixErr);

/// The options as they are given, before anything is read from them.
#[derive(Clone, Debug)]
pub struct Opts {
    /// The path of a contract artifact file, or the contract's bytecode in
    /// hex.
    pub bytecode_or_artifact: String,
    /// The encoded constructor arguments, in hex, that follow the bytecode.
    pub constructor_args: Option<String>,
    /// The prefix asked of the contract address.
    pub prefix: Option<String>,
    /// The least number of zero bytes asked of the contract address.
    pub num_zero_bytes: Option<usize>,
    /// The first signature scalar to try, in hex.
    pub s_start: Option<String>,
    /// The gas price of the transaction, in decimal digits.
    pub gas_price: String,
    /// The gas limit of the transaction, in decimal digits.
    pub gas_limit: Option<String>,
    /// A node to ask for an estimate of the gas limit.
    pub rpc_url: Option<String>,
    /// Whether the report is written as JSON.
    pub json: bool,
}

/// What a contract address is searched for, and where the search starts.
#[derive(Clone, Debug)]
pub struct AddressGenerationConfig {
    /// Lower-case hex digits, without a `0x` marker, that the address's hex
    /// form has to begin with; `None` asks for nothing.
    pub prefix: Option<String>,
    /// The least number of zero bytes asked of the address; zero asks for
    /// nothing.
    pub num_zero_bytes: usize,
    /// The first signature scalar to try.
    pub s_start: Scalar,
}

/// What the deployment transaction is built from.
#[derive(Clone, Debug)]
pub struct TransactionConfig {
    pub bytecode: Vec<u8>,
    pub gas_price: String,
    pub gas_limit: Option<String>,
    pub rpc_url: Option<String>,
}

/// The configuration of a run.
#[derive(Clone, Debug)]
pub struct Config {
    pub tx_config: TransactionConfig,
    pub address_config: AddressGenerationConfig,
    pub json: bool,
}

/// Why the options give no configuration.
#[derive(Debug)]
pub enum ConfigError {
    /// The bytecode with its constructor arguments is no hex text.
    Bytecode(ethers::types::ParseBytesError),
    /// The text of a scalar is not a number of the base it is read in, or
    /// one too large.
    Number(ethers::abi::ethereum_types::FromStrRadixErr),
    /// The prefix, its marker taken off, holds another character than a
    /// hex digit.
    Prefix,
}

/// Where the bytecode text is taken from.
#[derive(Clone, Copy, Debug, PartialEq, Eq, Structural)]
pub enum BytecodeSource {
    /// The option holds the bytecode itself.
    Inline,
    /// The option is the path of an artifact file that holds it.
    Artifact,
}

/// The value of a hex digit of either case.
pub open spec fn hex_value(c: char) -> Option<u8> {
    let code = c as u32;
    if 48 <= code <= 57 {
        Some((code - 48) as u8)
    } else if 97 <= code <= 102 {
        Some((code - 87) as u8)
    } else if 65 <= code <= 70 {
        Some((code - 55) as u8)
    } else {
        None
    }
}

/// The lower-case form of an ASCII capital letter; any other character
/// as it is.
pub open spec fn ascii_lower(c: char) -> char {
    let code = c as u32;
    if 65 <= code <= 90 {
        ((code + 32) as u8) as char
    } else {
        c
    }
}

/// `text` with each ASCII capital letter in lower case.
pub open spec fn lower_text(text: Seq<char>) -> Seq<char> {
    Seq::new(text.len(), |i: int| ascii_lower(text[i]))
}

/// The prefix that the search is configured with: the option without its
/// marker, in lower case.
pub open spec fn normal_prefix(prefix: Option<String>) -> Option<Seq<char>> {
    match prefix {
        Some(p) => Some(lower_text(without_hex_marker(p@))),
        None => None,
    }
}

/// Whether the prefix option, where there is one, holds hex digits only
/// once its marker is taken off.
pub open spec fn prefix_is_hex(prefix: Option<String>) -> bool {
    match prefix {
        Some(p) => all_hex_digits(without_hex_marker(p@)),
        None => true,
    }
}

/// Whether `text` holds hex digits only.
pub open spec fn all_hex_digits(text: Seq<char>) -> bool {
    forall|i: int| 0 <= i < text.len() ==> hex_value(#[trigger] text[i]) is Some
}

/// Whether `text` holds decimal digits only.
pub open spec fn all_decimal_digits(text: Seq<char>) -> bool {
    forall|i: int| 0 <= i < text.len() ==> 48 <= (#[trigger] text[i]) as u32 <= 57
}

/// The number that a text of digits stands for in the given base, the most
/// significant digit first; zero for the empty text.
pub open spec fn digits_value(digits: Seq<char>, base: nat) -> nat
    decreases digits.len(),
{
    if digits.len() == 0 {
        0
    } else {
        digits_value(digits.drop_last(), base) * base + hex_value(digits.last())->0 as nat
    }
}

/// The bytes that a text of hex digits stands for, two digits a byte, the
/// high half first: `None` for a text of odd length or with another
/// character.
pub open spec fn hex_bytes(text: Seq<char>) -> Option<Seq<u8>> {
    if text.len() % 2 == 0 && all_hex_digits(text) {
        Some(
            Seq::new(
                text.len() / 2,
                |i: int| (16 * hex_value(text[2 * i])->0 + hex_value(text[2 * i + 1])->0) as u8,
            ),
        )
    } else {
        None
    }
}

/// `text` without a leading `0x` or `0X`.
pub open spec fn without_marker_of_either_case(text: Seq<char>) -> Seq<char> {
    if text.len() >= 2 && text[0] == '0' && (text[1] == 'x' || text[1] == 'X') {
        text.skip(2)
    } else {
        text
    }
}

/// The bytes that a bytecode text stands for: a text of even length, with
/// or without a leading marker, of hex digits.
pub open spec fn bytes_of_text(text: Seq<char>) -> Option<Seq<u8>> {
    if text.len() % 2 == 0 {
        hex_bytes(without_marker_of_either_case(text))
    } else {
        None
    }
}

/// The scalar that a text stands for in the given base. In base 10 the
/// text holds decimal digits only and its number is a scalar. In base 16
/// the text, with or without the marker `0x`, holds at most 64 hex digits
/// of either case. The empty text stands for zero in both. No other base
/// is read.
pub open spec fn parsed_scalar(text: Seq<char>, radix: u32) -> Option<nat> {
    if radix == 10 {
        if all_decimal_digits(text) && digits_value(text, 10) < modulus() {
            Some(digits_value(text, 10))
        } else {
            None
        }
    } else if radix == 16 {
        let body = without_hex_marker(text);
        if body.len() <= 64 && all_hex_digits(body) {
            Some(digits_value(body, 16))
        } else {
            None
        }
    } else {
        None
    }
}

/// The text `1`, read in base 16, stands for the scalar one.
pub proof fn lemma_default_start()
    ensures
        parsed_scalar(start_text(None), 16) == Some(1nat),
{
    let text = seq!['1'];
    assert(text.drop_last().len() == 0);
    assert(hex_value('1') == Some(1u8));
    reveal_with_fuel(digits_value, 3);
    assert(digits_value(text, 16) == 1);
}

/// The constructor arguments that follow the bytecode: none where the
/// option is not given.
pub open spec fn bytecode_tail(constructor_args: Option<String>) -> Seq<char> {
    match constructor_args {
        Some(args) => without_hex_marker(args@),
        None => Seq::empty(),
    }
}

/// The text of the start scalar: `1` where the option is not given.
pub open spec fn start_text(s_start: Option<String>) -> Seq<char> {
    match s_start {
        Some(text) => text@,
        None => seq!['1'],
    }
}

/// Calls `str::to_ascii_lowercase`, which maps the ASCII letters `A` to `Z`
/// to `a` to `z` and leaves every other character.
#[verifier::external_body]
fn ascii_lowercase(text: &str) -> (lower: String)
    ensures
        lower@ == lower_text(text@),
{
    text.to_ascii_lowercase()
}

/// Calls `hex::decode` and tells whether it succeeded: it does on a text of
/// even length that holds hex digits only.
#[verifier::external_body]
fn decodes_as_hex(text: &str) -> (valid: bool)
    ensures
        valid == hex_bytes(text@) is Some,
{
    hex::decode(text).is_ok()
}

/// Calls `from_str` of `ethers::types::Bytes`, which refuses a text of odd
/// length, passes over a leading `0x` or `0X`, and reads the rest as hex
/// digits of either case.
#[verifier::external_body]
fn parse_bytes(text: &str) -> (res: Result<Vec<u8>, ethers::types::ParseBytesError>)
    ensures
        match res {
            Ok(bytes) => bytes_of_text(text@) == Some(bytes@),
            Err(_) => bytes_of_text(text@) is None,
        },
{
    match <ethers::types::Bytes as std::str::FromStr>::from_str(text) {
        Ok(bytes) => Ok(bytes.to_vec()),
        Err(e) => Err(e),
    }
}

/// Calls `U256::from_str_radix` of `ethers::types`, which reads bases 10
/// and 16 alone: decimal digits whose number fits the type, or at most 64
/// hex digits of either case behind an optional `0x`.
#[verifier::external_body]
fn parse_scalar(text: &str, radix: u32) -> (res: Result<
    Scalar,
    ethers::abi::ethereum_types::FromStrRadixErr,
>)
    ensures
        match res {
            Ok(scalar) => parsed_scalar(text@, radix) == Some(scalar@),
            Err(_) => parsed_scalar(text@, radix) is None,
        },
{
    match ethers::types::U256::from_str_radix(text, radix) {
        Ok(value) => Ok(Scalar { limbs: value.0 }),
        Err(e) => Err(e),
    }
}

/// Whether `c` is a hex digit of either case.
pub fn is_hex_digit(c: char) -> (hex: bool)
    ensures
        hex == hex_value(c) is Some,
{
    let code: u32 = c as u32;
    (48 <= code && code <= 57) || (97 <= code && code <= 102) || (65 <= code && code <= 70)
}

/// Whether `text` holds hex digits only.
pub fn holds_hex_only(text: &str) -> (hex: bool)
    ensures
        hex == all_hex_digits(text@),
{
    let len: usize = text.unicode_len();
    let mut i: usize = 0;
    while i < len
        invariant
            i <= len,
            len == text@.len(),
            forall|j: int| 0 <= j < i ==> hex_value(#[trigger] text@[j]) is Some,
        decreases len - i,
    {
        if !is_hex_digit(text.get_char(i)) {
            return false;
        }
        i += 1;
    }
    true
}

/// Brings a prefix option into the form in which addresses are compared:
/// without its marker and in lower case. A prefix that holds another
/// character than a hex digit is refused.
pub fn normalize_prefix(prefix: &str) -> (res: Result<String, ConfigError>)
    ensures
        match res {
            Ok(normal) => all_hex_digits(without_hex_marker(prefix@)) && normal@ == lower_text(
                without_hex_marker(prefix@),
            ),
            Err(e) => e is Prefix && !all_hex_digits(without_hex_marker(prefix@)),
        },
{
    let stripped = strip_hex_prefix(prefix);
    if holds_hex_only(stripped.as_str()) {
        Ok(ascii_lowercase(stripped.as_str()))
    } else {
        Err(ConfigError::Prefix)
    }
}

/// Reads a scalar from `text` in the given base.
pub fn read_scalar(text: &str, radix: u32) -> (res: Result<Scalar, ConfigError>)
    ensures
        match res {
            Ok(scalar) => parsed_scalar(text@, radix) == Some(scalar@),
            Err(e) => e is Number && parsed_scalar(text@, radix) is None,
        },
{
    match parse_scalar(text, radix) {
        Ok(scalar) => Ok(scalar),
        Err(e) => Err(ConfigError::Number(e)),
    }
}

/// Joins the bytecode text and the constructor arguments, these without
/// their marker, and reads the whole as hex.
pub fn parse_bytecode(opts: &Opts, code_text: &str) -> (res: Result<Vec<u8>, ConfigError>)
    ensures
        match res {
            Ok(bytes) => bytes_of_text(code_text@ + bytecode_tail(opts.constructor_args)) == Some(
                bytes@,
            ),
            Err(e) => e is Bytecode && bytes_of_text(
                code_text@ + bytecode_tail(opts.constructor_args),
            ) is None,
        },
{
    let tail: String = match &opts.constructor_args {
        Some(args) => strip_hex_prefix(args.as_str()),
        None => String::new(),
    };
    let mut bytecode: String = code_text.to_owned();
    bytecode.append(tail.as_str());
    match parse_bytes(bytecode.as_str()) {
        Ok(bytes) => Ok(bytes),
        Err(e) => Err(ConfigError::Bytecode(e)),
    }
}

impl AddressGenerationConfig {
    /// The prefix as a sequence of characters.
    pub open spec fn prefix_view(&self) -> Option<Seq<char>> {
        match self.prefix {
            Some(p) => Some(p@),
            None => None,
        }
    }
}

impl Opts {
    /// Whether the first option holds the bytecode itself, which it does
    /// where it is hex text once its marker is taken off, or names an
    /// artifact file.
    pub fn bytecode_source(&self) -> (source: BytecodeSource)
        ensures
            source == BytecodeSource::Inline <==> hex_bytes(
                without_hex_marker(self.bytecode_or_artifact@),
            ) is Some,
    {
        let stripped = strip_hex_prefix(self.bytecode_or_artifact.as_str());
        if decodes_as_hex(stripped.as_str()) {
            BytecodeSource::Inline
        } else {
            BytecodeSource::Artifact
        }
    }

    /// The search configuration: the prefix without its marker and in
    /// lower case, no zero bytes asked for unless the option says so, and
    /// the start scalar read as hex, `1` where the option is not given. A
    /// prefix that is no hex text is refused, and before the start scalar
    /// is read.
    pub fn address_config(&self) -> (res: Result<AddressGenerationConfig, ConfigError>)
        ensures
            res is Ok <==> prefix_is_hex(self.prefix) && parsed_scalar(
                start_text(self.s_start),
                16,
            ) is Some,
            res matches Err(ConfigError::Prefix) <==> !prefix_is_hex(self.prefix),
            match res {
                Ok(config) => {
                    &&& config.prefix_view() == normal_prefix(self.prefix)
                    &&& config.num_zero_bytes == match self.num_zero_bytes {
                        Some(n) => n,
                        None => 0,
                    }
                    &&& parsed_scalar(start_text(self.s_start), 16) == Some(config.s_start@)
                    &&& self.s_start is None ==> config.s_start@ == 1
                },
                Err(e) => e is Prefix || (e is Number && parsed_scalar(
                    start_text(self.s_start),
                    16,
                ) is None),
            },
    {
        let prefix = match &self.prefix {
            Some(p) => match normalize_prefix(p.as_str()) {
                Ok(normal) => Some(normal),
                Err(e) => {
                    return Err(e);
                },
            },
            None => None,
        };
        let num_zero_bytes: usize = match self.num_zero_bytes {
            Some(n) => n,
            None => 0,
        };
        let parsed = match &self.s_start {
            Some(text) => read_scalar(text.as_str(), 16),
            None => {
                proof {
                    reveal_strlit("1");
                    assert("1"@ =~= seq!['1']);
                    lemma_default_start();
                }
                read_scalar("1", 16)
            },
        };
        match parsed {
            Ok(s_start) => Ok(AddressGenerationConfig { prefix, num_zero_bytes, s_start }),
            Err(e) => Err(e),
        }
    }

    /// The configuration that the options give, with `code_text` for the
    /// bytecode text: the first option itself where it holds the bytecode,
    /// else what its artifact file holds. The bytecode is read first, then
    /// the prefix, then the start scalar, and the first that fails gives
    /// the error.
    pub fn parse(this: Opts, code_text: &str) -> (res: Result<Config, ConfigError>)
        ensures
            res is Ok <==> bytes_of_text(code_text@ + bytecode_tail(this.constructor_args)) is Some
                && prefix_is_hex(this.prefix) && parsed_scalar(start_text(this.s_start), 16) is Some,
            res matches Err(ConfigError::Prefix) <==> bytes_of_text(
                code_text@ + bytecode_tail(this.constructor_args),
            ) is Some && !prefix_is_hex(this.prefix),
            res matches Err(ConfigError::Bytecode(_)) <==> bytes_of_text(
                code_text@ + bytecode_tail(this.constructor_args),
            ) is None,
            res matches Err(ConfigError::Number(_)) <==> bytes_of_text(
                code_text@ + bytecode_tail(this.constructor_args),
            ) is Some && prefix_is_hex(this.prefix) && parsed_scalar(
                start_text(this.s_start),
                16,
            ) is None,
            res matches Ok(config) ==> {
                &&& config.json == this.json
                &&& Some(config.tx_config.bytecode@) == bytes_of_text(
                    code_text@ + bytecode_tail(this.constructor_args),
                )
                &&& config.tx_config.gas_price == this.gas_price
                &&& config.tx_config.gas_limit == this.gas_limit
                &&& config.tx_config.rpc_url == this.rpc_url
                &&& config.address_config.prefix_view() == normal_prefix(this.prefix)
                &&& config.address_config.num_zero_bytes == match this.num_zero_bytes {
                    Some(n) => n,
                    None => 0,
                }
                &&& Some(config.address_config.s_start@) == parsed_scalar(
                    start_text(this.s_start),
                    16,
                )
            },
    {
        let bytecode = match parse_bytecode(&this, code_text) {
            Ok(bytecode) => bytecode,
            Err(e) => {
                return Err(e);
            },
        };
        let address_config = match this.address_config() {
            Ok(address_config) => address_config,
            Err(e) => {
                return Err(e);
            },
        };
        Ok(
            Config {
                json: this.json,
                tx_config: TransactionConfig {
                    bytecode,
                    gas_price: this.gas_price,
                    gas_limit: this.gas_limit,
                    rpc_url: this.rpc_url,
                },
                address_config,
            },
        )
    }
}

} // verus!
