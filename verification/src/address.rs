//! Scoring of a contract address against a target pattern.

use crate::opt::AddressGenerationConfig;
use vstd::prelude::*;
use vstd::string::StrSliceExecFns;

verus! {

/// A 20-byte account or contract address.
#[derive(Clone, Copy, Debug, PartialEq, Eq)]
pub struct Address(pub [u8; 20]);

impl View for Address {
    type V = Seq<u8>;

    open spec fn view(&self) -> Seq<u8> {
        self.0@
    }
}

/// How an address fares against a pattern: it meets it, or it falls short
/// with a score by which candidates are ranked.
#[derive(Clone, Copy, Debug, PartialEq, Eq, Structural)]
pub enum AddressMatch {
    Match,
    NoMatch(usize),
}

/// The lower-case hex digit of a value below 16.
pub open spec fn hex_digit(nibble: u8) -> char {
    if nibble == 0 {
        '0'
    } else if nibble == 1 {
        '1'
    } else if nibble == 2 {
        '2'
    } else if nibble == 3 {
        '3'
    } else if nibble == 4 {
        '4'
    } else if nibble == 5 {
        '5'
    } else if nibble == 6 {
        '6'
    } else if nibble == 7 {
        '7'
    } else if nibble == 8 {
        '8'
    } else if nibble == 9 {
        '9'
    } else if nibble == 10 {
        'a'
    } else if nibble == 11 {
        'b'
    } else if nibble == 12 {
        'c'
    } else if nibble == 13 {
        'd'
    } else if nibble == 14 {
        'e'
    } else {
        'f'
    }
}

/// The character at place `i` of the lower-case hex form of `bytes`: the
/// high half of a byte comes before its low half.
pub open spec fn hex_char_at(bytes: Seq<u8>, i: int) -> char {
    if i % 2 == 0 {
        hex_digit(bytes[i / 2] / 16)
    } else {
        hex_digit(bytes[i / 2] % 16)
    }
}

/// The lower-case hex form of `bytes`, two digits a byte, without a marker.
pub open spec fn hex_form(bytes: Seq<u8>) -> Seq<char> {
    Seq::new(2 * bytes.len(), |i: int| hex_char_at(bytes, i))
}

/// The length of the run of equal characters that `a` and `b` share from
/// place `from` on.
pub open spec fn common_run(a: Seq<char>, b: Seq<char>, from: int) -> nat
    decreases a.len() - from,
{
    if 0 <= from < a.len() && from < b.len() && a[from] == b[from] {
        1 + common_run(a, b, from + 1)
    } else {
        0
    }
}

/// The number of leading characters of `prefix` that agree with the hex
/// form of `address`, up to the first disagreement.
pub open spec fn prefix_match_len(address: Seq<u8>, prefix: Seq<char>) -> nat {
    common_run(hex_form(address), prefix, 0)
}

/// The number of zero bytes in `bytes`.
pub open spec fn zero_count(bytes: Seq<u8>) -> nat
    decreases bytes.len(),
{
    if bytes.len() == 0 {
        0
    } else {
        zero_count(bytes.drop_last()) + if bytes.last() == 0 {
            1nat
        } else {
            0nat
        }
    }
}

/// The outcome of scoring `address` against an optional prefix and a least
/// number of zero bytes. With both asked for, a full prefix match comes
/// first: only then do the zero bytes add to the score.
pub open spec fn score(address: Seq<u8>, prefix: Option<Seq<char>>, min_zero_bytes: nat)
    -> AddressMatch {
    match prefix {
        None => {
            if zero_count(address) >= min_zero_bytes {
                AddressMatch::Match
            } else {
                AddressMatch::NoMatch(zero_count(address) as usize)
            }
        },
        Some(p) => {
            let run = prefix_match_len(address, p);
            if run == p.len() {
                if zero_count(address) >= min_zero_bytes {
                    AddressMatch::Match
                } else {
                    AddressMatch::NoMatch((run + zero_count(address)) as usize)
                }
            } else {
                AddressMatch::NoMatch(run as usize)
            }
        },
    }
}

/// The run that two sequences share from `from` on stays within both,
/// covers only equal characters, and stops at the first unequal pair.
pub proof fn lemma_common_run(a: Seq<char>, b: Seq<char>, from: int)
    requires
        0 <= from,
    ensures
        from <= a.len() && from <= b.len() ==> from + common_run(a, b, from) <= a.len() && from
            + common_run(a, b, from) <= b.len(),
        forall|i: int| from <= i < from + common_run(a, b, from) ==> a[i] == b[i],
        from + common_run(a, b, from) < a.len() && from + common_run(a, b, from) < b.len() ==> a[
            from + common_run(a, b, from)] != b[from + common_run(a, b, from)],
    decreases a.len() - from,
{
    if from < a.len() && from < b.len() && a[from] == b[from] {
        lemma_common_run(a, b, from + 1);
    }
}

/// No sequence of bytes holds more zero bytes than bytes.
pub proof fn lemma_zero_count_bound(bytes: Seq<u8>)
    ensures
        zero_count(bytes) <= bytes.len(),
    decreases bytes.len(),
{
    if bytes.len() > 0 {
        lemma_zero_count_bound(bytes.drop_last());
    }
}

/// The lower-case hex digit of `nibble`.
pub fn hex_digit_of(nibble: u8) -> (c: char)
    requires
        nibble < 16,
    ensures
        c == hex_digit(nibble),
{
    match nibble {
        0 => '0',
        1 => '1',
        2 => '2',
        3 => '3',
        4 => '4',
        5 => '5',
        6 => '6',
        7 => '7',
        8 => '8',
        9 => '9',
        10 => 'a',
        11 => 'b',
        12 => 'c',
        13 => 'd',
        14 => 'e',
        _ => 'f',
    }
}

/// Counts the zero bytes of `address`.
pub fn count_zero_bytes(address: Address) -> (count: usize)
    ensures
        count == zero_count(address@),
        count <= 20,
{
    let mut count: usize = 0;
    let mut i: usize = 0;
    while i < 20
        invariant
            i <= 20,
            count <= i,
            count == zero_count(address@.take(i as int)),
        decreases 20 - i,
    {
        proof {
            assert(address@.take(i + 1).drop_last() =~= address@.take(i as int));
        }
        if address.0[i] == 0 {
            count += 1;
        }
        i += 1;
    }
    proof {
        assert(address@.take(20) =~= address@);
    }
    count
}

/// Counts the leading characters of `prefix` that agree with the lower-case
/// hex form of `address`, up to the first disagreement or the end of either.
pub fn count_prefix_match(address: Address, prefix: &str) -> (count: usize)
    ensures
        count == prefix_match_len(address@, prefix@),
        count <= 40,
        count <= prefix@.len(),
{
    let len: usize = prefix.unicode_len();
    let ghost hex = hex_form(address@);
    let mut count: usize = 0;
    while count < 40 && count < len
        invariant
            count <= 40,
            count <= len,
            len == prefix@.len(),
            hex == hex_form(address@),
            count + common_run(hex, prefix@, count as int) == common_run(hex, prefix@, 0),
        decreases 40 - count,
    {
        let byte: u8 = address.0[count / 2];
        let nibble: u8 = if count % 2 == 0 {
            byte / 16
        } else {
            byte % 16
        };
        let letter = hex_digit_of(nibble);
        let next = prefix.get_char(count);
        assert(letter == hex[count as int]);
        if next != letter {
            return count;
        }
        count += 1;
    }
    count
}

/// Scores `address` against the pattern of `config`.
pub fn check_address(address: Address, config: &AddressGenerationConfig) -> (outcome: AddressMatch)
    ensures
        outcome == score(address@, config.prefix_view(), config.num_zero_bytes as nat),
{
    match &config.prefix {
        None => {
            let zeros = count_zero_bytes(address);
            if zeros >= config.num_zero_bytes {
                AddressMatch::Match
            } else {
                AddressMatch::NoMatch(zeros)
            }
        },
        Some(prefix) => {
            let run = count_prefix_match(address, prefix.as_str());
            if run == prefix.as_str().unicode_len() {
                let zeros = count_zero_bytes(address);
                if zeros >= config.num_zero_bytes {
                    AddressMatch::Match
                } else {
                    AddressMatch::NoMatch(run + zeros)
                }
            } else {
                AddressMatch::NoMatch(run)
            }
        },
    }
}


/// With no prefix and no zero bytes asked for, every address is a match.
pub proof fn lemma_unconstrained_always_matches(address: Seq<u8>)
    ensures
        score(address, None, 0) == AddressMatch::Match,
{
}

/// With a prefix alone, an address is a match exactly where its hex form
/// begins with the prefix. Otherwise its score is the length of the longest
/// run of leading characters that the two share, which is less than the
/// length of the prefix.
pub proof fn lemma_prefix_only(address: Seq<u8>, prefix: Seq<char>)
    requires
        address.len() == 20,
    ensures
        score(address, Some(prefix), 0) == AddressMatch::Match <==> prefix.is_prefix_of(
            hex_form(address),
        ),
        score(address, Some(prefix), 0) matches AddressMatch::NoMatch(n) ==> {
            &&& n < prefix.len()
            &&& n <= hex_form(address).len()
            &&& forall|i: int| 0 <= i < n ==> prefix[i] == hex_form(address)[i]
            &&& n < hex_form(address).len() ==> prefix[n as int] != hex_form(address)[n as int]
        },
{
    let hex = hex_form(address);
    let run = prefix_match_len(address, prefix);
    lemma_common_run(hex, prefix, 0);
    if run == prefix.len() {
        assert(prefix =~= hex.subrange(0, prefix.len() as int));
    } else if prefix.is_prefix_of(hex) {
        assert(prefix[run as int] == hex.subrange(0, prefix.len() as int)[run as int]);
    }
}

/// With a least number of zero bytes alone, an address is a match exactly
/// where it holds at least that many. Otherwise its score is the number of
/// zero bytes that it holds.
pub proof fn lemma_zero_bytes_only(address: Seq<u8>, min_zero_bytes: nat)
    requires
        address.len() == 20,
    ensures
        score(address, None, min_zero_bytes) == AddressMatch::Match <==> zero_count(address)
            >= min_zero_bytes,
        score(address, None, min_zero_bytes) matches AddressMatch::NoMatch(n) ==> n == zero_count(
            address,
        ) && n < min_zero_bytes,
{
    lemma_zero_count_bound(address);
}

/// With both asked for, an address is a match exactly where its hex form
/// begins with the prefix and it holds enough zero bytes.
pub proof fn lemma_combined_match(address: Seq<u8>, prefix: Seq<char>, min_zero_bytes: nat)
    requires
        address.len() == 20,
    ensures
        score(address, Some(prefix), min_zero_bytes) == AddressMatch::Match <==> prefix.is_prefix_of(
            hex_form(address),
        ) && zero_count(address) >= min_zero_bytes,
{
    lemma_prefix_only(address, prefix);
    lemma_zero_count_bound(address);
    lemma_common_run(hex_form(address), prefix, 0);
}

/// With both asked for, an address that has the whole prefix and too few
/// zero bytes scores the length of the prefix and its zero bytes together,
/// and so more than any address that has less than the whole prefix,
/// however many zero bytes that one holds.
pub proof fn lemma_full_prefix_outscores_partial(
    full: Seq<u8>,
    partial: Seq<u8>,
    prefix: Seq<char>,
    min_zero_bytes: nat,
)
    requires
        full.len() == 20,
        partial.len() == 20,
        prefix.is_prefix_of(hex_form(full)),
        zero_count(full) < min_zero_bytes,
        !prefix.is_prefix_of(hex_form(partial)),
    ensures
        score(full, Some(prefix), min_zero_bytes) == AddressMatch::NoMatch(
            (prefix.len() + zero_count(full)) as usize,
        ),
        score(partial, Some(prefix), min_zero_bytes) == AddressMatch::NoMatch(
            prefix_match_len(partial, prefix) as usize,
        ),
        prefix_match_len(partial, prefix) < prefix.len() + zero_count(full) <= 60,
{
    lemma_prefix_only(full, prefix);
    lemma_prefix_only(partial, prefix);
    lemma_zero_count_bound(full);
    lemma_common_run(hex_form(full), prefix, 0);
    lemma_common_run(hex_form(partial), prefix, 0);
}

} // verus!
