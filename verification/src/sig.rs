//! The search over signature scalars for one whose recovered signer deploys
//! to an address that meets the pattern.

use crate::address::{check_address, score, Address, AddressMatch};
use crate::opt::AddressGenerationConfig;
use crate::scalar::{modulus, scalar_at, successor, Scalar};
use crate::tx::{Recoverable, UnsignedTransaction};
use vstd::prelude::*;

verus! {

/// The error of a signature recovery, carried through as it comes.
#[verifier::external_type_specification]
#[verifier::external_body]
pub struct ExSignatureError(ethers::types::SignatureError);

/// The receiving side of a channel, on which notifications to stop come.
#[verifier::external_type_specification]
#[verifier::external_body]
#[verifier::reject_recursive_types(T)]
pub struct ExReceiver<T>(crossbeam_channel::Receiver<T>);

/// The recovery value of every candidate: even parity, without a chain id.
pub const SIG_V: u64 = 27;

/// The nonce of the deployment: the signer's first transaction.
pub const DEPLOY_NONCE: u64 = 0;

/// The `r` of every candidate, `0x1fff..ff`: two to the power 253, less one.
pub open spec fn sig_r_value() -> nat {
    (modulus() / 8 - 1) as nat
}

/// What `ethers::types::Signature::recover` gives for the digest `hash` and
/// the signature `(v, r, s)`: the signer's address, or `None` where it
/// reports an error.
pub uninterp spec fn recovered_signer(hash: Seq<u8>, v: u64, r: nat, s: nat) -> Option<Seq<u8>>;

/// What `ethers::utils::get_contract_address` gives for a deployer and its
/// nonce.
pub uninterp spec fn created_address(deployer: Seq<u8>, nonce: u64) -> Seq<u8>;

/// An elliptic-curve signature with its recovery value.
#[derive(Clone, Copy, Debug, PartialEq, Eq)]
pub struct Signature {
    pub r: Scalar,
    pub s: Scalar,
    pub v: u64,
}

/// A signature with the signer recovered from it and the address that the
/// signer's first deployment gets.
#[derive(Clone, Copy, Debug, PartialEq, Eq)]
pub struct SignatureResult {
    pub sig: Signature,
    pub contract: Address,
    pub deployer: Address,
}

/// Why a search ended without a result.
#[derive(Debug)]
pub enum SearchError {
    /// No signer could be recovered from a candidate signature.
    Recovery(ethers::types::SignatureError),
}

/// The signer recovered from the candidate with scalar `s`.
pub open spec fn signer_at(hash: Seq<u8>, s: nat) -> Option<Seq<u8>> {
    recovered_signer(hash, SIG_V, sig_r_value(), s)
}

/// Whether `result` is the candidate with scalar `s` for the digest `hash`.
pub open spec fn is_candidate(result: SignatureResult, hash: Seq<u8>, s: nat) -> bool {
    &&& result.sig.v == SIG_V
    &&& result.sig.r@ == sig_r_value()
    &&& result.sig.s@ == s
    &&& signer_at(hash, s) == Some(result.deployer@)
    &&& result.contract@ == created_address(result.deployer@, DEPLOY_NONCE)
}

/// How the candidate with scalar `s` fares: `None` where no signer is
/// recovered, else the score of its contract address.
pub open spec fn outcome_at(hash: Seq<u8>, config: AddressGenerationConfig, s: nat) -> Option<
    AddressMatch,
> {
    match signer_at(hash, s) {
        None => None,
        Some(deployer) => Some(
            score(
                created_address(deployer, DEPLOY_NONCE),
                config.prefix_view(),
                config.num_zero_bytes as nat,
            ),
        ),
    }
}

/// How the candidate of iteration `k` fares, iterations counted from zero.
pub open spec fn step_outcome(hash: Seq<u8>, config: AddressGenerationConfig, k: nat) -> Option<
    AddressMatch,
> {
    outcome_at(hash, config, scalar_at(config.s_start@, k))
}

/// The score of iteration `k`: zero unless its candidate falls short with
/// a score.
pub open spec fn step_score(hash: Seq<u8>, config: AddressGenerationConfig, k: nat) -> nat {
    match step_outcome(hash, config, k) {
        Some(AddressMatch::NoMatch(n)) => n as nat,
        _ => 0,
    }
}

/// Whether iteration `k` recovers a signer and falls short of the pattern.
pub open spec fn falls_short(hash: Seq<u8>, config: AddressGenerationConfig, k: nat) -> bool {
    step_outcome(hash, config, k) matches Some(AddressMatch::NoMatch(_))
}

/// Whether each of the first `n` iterations recovers a signer and falls
/// short of the pattern.
pub open spec fn all_fall_short(hash: Seq<u8>, config: AddressGenerationConfig, n: nat) -> bool {
    forall|k: nat| k < n ==> #[trigger] falls_short(hash, config, k)
}

/// Whether a search that is stopped in iteration `limit` at the latest
/// comes to its end in iteration `n`: in the first one that does not fall
/// short, or else in iteration `limit`.
pub open spec fn first_stop(hash: Seq<u8>, config: AddressGenerationConfig, limit: nat, n: nat)
    -> bool {
    &&& n <= limit
    &&& all_fall_short(hash, config, n)
    &&& n < limit ==> !falls_short(hash, config, n)
}

/// The highest score among the first `n` iterations, zero for none.
pub open spec fn best_score(hash: Seq<u8>, config: AddressGenerationConfig, n: nat) -> nat
    decreases n,
{
    if n == 0 {
        0
    } else {
        let before = best_score(hash, config, (n - 1) as nat);
        let last = step_score(hash, config, (n - 1) as nat);
        if last > before {
            last
        } else {
            before
        }
    }
}

/// The iteration whose candidate is kept as the best after `n` iterations:
/// the first one to reach the highest score, and iteration zero while
/// every score is zero.
pub open spec fn best_step(hash: Seq<u8>, config: AddressGenerationConfig, n: nat) -> nat
    decreases n,
{
    if n == 0 {
        0
    } else if step_score(hash, config, (n - 1) as nat) > best_score(hash, config, (n - 1) as nat) {
        (n - 1) as nat
    } else {
        best_step(hash, config, (n - 1) as nat)
    }
}

/// Whether `res` is what a search returns that stops in iteration `n`:
/// every earlier candidate fell short; a failed recovery in iteration `n`
/// is an error, a match is returned as it is, and a search that is
/// stopped there returns the best candidate of iterations zero to `n`.
pub open spec fn stops_with(
    res: Result<SignatureResult, SearchError>,
    hash: Seq<u8>,
    config: AddressGenerationConfig,
    n: nat,
) -> bool {
    &&& n < modulus()
    &&& all_fall_short(hash, config, n)
    &&& match step_outcome(hash, config, n) {
        None => res is Err,
        Some(AddressMatch::Match) => res matches Ok(r) && is_candidate(
            r,
            hash,
            scalar_at(config.s_start@, n),
        ),
        Some(AddressMatch::NoMatch(_)) => res matches Ok(r) && is_candidate(
            r,
            hash,
            scalar_at(config.s_start@, best_step(hash, config, n + 1)),
        ),
    }
}

/// The fixed `r` of every candidate.
pub fn sig_r() -> (r: Scalar)
    ensures
        r@ == sig_r_value(),
{
    Scalar {
        limbs: [
            0xffff_ffff_ffff_ffff,
            0xffff_ffff_ffff_ffff,
            0xffff_ffff_ffff_ffff,
            0x1fff_ffff_ffff_ffff,
        ],
    }
}

/// Calls `ethers::utils::get_contract_address`: the address of the contract
/// that `deployer` creates with the transaction of the given nonce, a
/// function of the two alone.
#[verifier::external_body]
fn contract_address(deployer: &Address, nonce: u64) -> (contract: Address)
    ensures
        contract@ == created_address(deployer@, nonce),
{
    Address(ethers::utils::get_contract_address(ethers::types::H160(deployer.0), nonce).0)
}

/// Calls `crossbeam_channel::Receiver::try_recv`, which does not block, and
/// tells whether a notification was waiting. Nothing is known of the
/// answer beforehand.
#[verifier::external_body]
fn cancel_requested(signal: &crossbeam_channel::Receiver<()>) -> (cancelled: bool) {
    signal.try_recv().is_ok()
}

/// Builds the candidate with scalar `s`: the signature with the fixed `v`
/// and `r`, the signer recovered from it, and the signer's contract address.
/// It fails exactly where no signer is recovered.
pub fn generate_signature(tx: &UnsignedTransaction, s: Scalar) -> (res: Result<
    SignatureResult,
    SearchError,
>)
    ensures
        res is Ok <==> signer_at(tx.digest(), s@) is Some,
        res matches Ok(r) ==> is_candidate(r, tx.digest(), s@),
{
    let sig = Signature { v: SIG_V, r: sig_r(), s };
    match tx.recover(sig) {
        Ok(deployer) => {
            let contract = contract_address(&deployer, DEPLOY_NONCE);
            Ok(SignatureResult { sig, contract, deployer })
        },
        Err(e) => Err(e),
    }
}

/// What a search keeps from one iteration to the next.
#[derive(Clone, Copy, Debug, PartialEq, Eq)]
pub struct SearchState {
    /// The scalar of the candidate that is tried next.
    pub current: Scalar,
    /// The scalar of the best candidate that fell short so far.
    pub best_scalar: Scalar,
    /// The score of that candidate.
    pub best_score: usize,
}

impl SearchState {
    /// The state before the first iteration: the start is the scalar to
    /// try, and it stands for the best candidate with a score of zero.
    pub fn new(start: Scalar) -> (state: SearchState)
        ensures
            state.current == start,
            state.best_scalar == start,
            state.best_score == 0,
    {
        SearchState { current: start, best_scalar: start, best_score: 0 }
    }

    /// Takes note of the score with which the current candidate fell
    /// short: it becomes the best where its score is higher than the best
    /// so far, and only then, so that of two equal scores the earlier
    /// candidate stays.
    pub fn record(&mut self, score: usize)
        ensures
            final(self).current == old(self).current,
            score > old(self).best_score ==> final(self).best_scalar == old(self).current,
            score > old(self).best_score ==> final(self).best_score == score,
            score <= old(self).best_score ==> final(self).best_scalar == old(self).best_scalar,
            score <= old(self).best_score ==> final(self).best_score == old(self).best_score,
    {
        if score > self.best_score {
            self.best_scalar = self.current;
            self.best_score = score;
        }
    }

    /// Ends an iteration whose candidate fell short with `score`: takes
    /// note of the score, and stops where a notification has come, leaving
    /// the scalar as it is; else it moves on to the next scalar.
    pub fn after_shortfall(&mut self, score: usize, signalled: bool) -> (stop: bool)
        ensures
            stop == signalled,
            score > old(self).best_score ==> final(self).best_scalar == old(self).current,
            score > old(self).best_score ==> final(self).best_score == score,
            score <= old(self).best_score ==> final(self).best_scalar == old(self).best_scalar,
            score <= old(self).best_score ==> final(self).best_score == old(self).best_score,
            stop ==> final(self).current == old(self).current,
            !stop ==> final(self).current@ == successor(old(self).current@),
    {
        self.record(score);
        if signalled {
            true
        } else {
            self.advance();
            false
        }
    }

    /// Moves on to the next scalar, from the largest one to zero.
    pub fn advance(&mut self)
        ensures
            final(self).current@ == successor(old(self).current@),
            final(self).best_scalar == old(self).best_scalar,
            final(self).best_score == old(self).best_score,
    {
        self.current = self.current.wrapping_next();
    }
}

/// The best iteration after `n` of them is one of them.
pub proof fn lemma_best_step_bound(hash: Seq<u8>, config: AddressGenerationConfig, n: nat)
    ensures
        n > 0 ==> best_step(hash, config, n) < n,
        n == 0 ==> best_step(hash, config, n) == 0,
    decreases n,
{
    if n > 0 {
        lemma_best_step_bound(hash, config, (n - 1) as nat);
    }
}

/// One succession leads from the scalar of an iteration to that of the
/// next, and only a full turn leads back to the start.
pub proof fn lemma_scalar_at_next(start: nat, k: nat)
    requires
        start < modulus(),
        k < modulus(),
    ensures
        scalar_at(start, k) < modulus(),
        successor(scalar_at(start, k)) == scalar_at(start, k + 1),
        scalar_at(start, k + 1) == start <==> k + 1 == modulus(),
{
}

/// The search loop. Cancellation comes from `signal`, where there is one,
/// and in the iteration `stop_at`, where that is given.
fn search(
    tx: &UnsignedTransaction,
    config: &AddressGenerationConfig,
    signal: Option<&crossbeam_channel::Receiver<()>>,
    stop_at: Option<u64>,
) -> (res: Result<SignatureResult, SearchError>)
    ensures
        exists|n: nat|
            {
                &&& #[trigger] stops_with(res, tx.digest(), *config, n)
                &&& signal is None ==> (stop_at matches Some(limit) ==> first_stop(
                    tx.digest(),
                    *config,
                    limit as nat,
                    n,
                ))
            },
{
    let mut state = SearchState::new(config.s_start);
    let mut polls: u64 = 0;
    let ghost mut steps: nat = 0;
    proof {
        config.s_start.lemma_in_range();
    }
    loop
        invariant
            steps < modulus(),
            config.s_start@ < modulus(),
            state.current@ == scalar_at(config.s_start@, steps),
            all_fall_short(tx.digest(), *config, steps),
            state.best_scalar@ == scalar_at(
                config.s_start@,
                best_step(tx.digest(), *config, steps),
            ),
            state.best_score == best_score(tx.digest(), *config, steps),
            stop_at matches Some(limit) ==> (polls == steps && steps <= limit),
        decreases modulus() - steps,
    {
        let result = match generate_signature(tx, state.current) {
            Ok(result) => result,
            Err(e) => {
                proof {
                    assert(stops_with(Err(e), tx.digest(), *config, steps));
                }
                return Err(e);
            },
        };
        let count = match check_address(result.contract, config) {
            AddressMatch::Match => {
                proof {
                    assert(stops_with(Ok(result), tx.digest(), *config, steps));
                }
                return Ok(result);
            },
            AddressMatch::NoMatch(count) => count,
        };
        let signalled = match signal {
            Some(receiver) => cancel_requested(receiver),
            None => false,
        };
        let due = match stop_at {
            Some(limit) => polls == limit,
            None => false,
        };
        let stop = state.after_shortfall(count, signalled || due);
        proof {
            assert(falls_short(tx.digest(), *config, steps));
            assert(all_fall_short(tx.digest(), *config, steps + 1));
            assert(state.best_scalar@ == scalar_at(
                config.s_start@,
                best_step(tx.digest(), *config, steps + 1),
            ));
            assert(state.best_score == best_score(tx.digest(), *config, steps + 1));
            lemma_scalar_at_next(config.s_start@, steps);
        }
        if stop || state.current.same(&config.s_start) {
            let best = generate_signature(tx, state.best_scalar);
            proof {
                lemma_best_step_bound(tx.digest(), *config, steps + 1);
                let b = best_step(tx.digest(), *config, steps + 1);
                assert(falls_short(tx.digest(), *config, b));
                assert(stops_with(best, tx.digest(), *config, steps));
            }
            return best;
        }
        if stop_at.is_some() {
            polls = polls + 1;
        }
        proof {
            steps = steps + 1;
        }
    }
}

/// Searches the scalars from `config.s_start` on, each the successor of the
/// one before, for a candidate whose contract address meets the pattern of
/// `config`. A match is returned at once. After each candidate that falls
/// short, `signal` is asked without waiting: where a notification has
/// come, and where every scalar has been tried, the best candidate so far
/// is returned, the first of them that reached the highest score. A
/// candidate from which no signer is recovered ends the search with an
/// error.
pub fn find_signature(
    tx: &UnsignedTransaction,
    config: &AddressGenerationConfig,
    signal: crossbeam_channel::Receiver<()>,
) -> (res: Result<SignatureResult, SearchError>)
    ensures
        exists|n: nat| #[trigger] stops_with(res, tx.digest(), *config, n),
{
    search(tx, config, Some(&signal), None)
}

/// The search of `find_signature` with a notification that comes in
/// iteration `stop_at`, iterations counted from zero, and not before.
pub fn find_signature_within(tx: &UnsignedTransaction, config: &AddressGenerationConfig, stop_at: u64) -> (res:
    Result<SignatureResult, SearchError>)
    ensures
        exists|n: nat|
            {
                &&& #[trigger] stops_with(res, tx.digest(), *config, n)
                &&& first_stop(tx.digest(), *config, stop_at as nat, n)
            },
{
    search(tx, config, None, Some(stop_at))
}

/// After `n` iterations the best score is the highest of their scores, and
/// the best iteration is the first that reached it.
pub proof fn lemma_best_is_first_highest(hash: Seq<u8>, config: AddressGenerationConfig, n: nat)
    requires
        n > 0,
    ensures
        best_step(hash, config, n) < n,
        step_score(hash, config, best_step(hash, config, n)) == best_score(hash, config, n),
        forall|j: nat| j < n ==> step_score(hash, config, j) <= best_score(hash, config, n),
        forall|j: nat|
            j < best_step(hash, config, n) ==> step_score(hash, config, j) < best_score(
                hash,
                config,
                n,
            ),
    decreases n,
{
    if n > 1 {
        lemma_best_is_first_highest(hash, config, (n - 1) as nat);
    } else {
        assert(best_score(hash, config, 0) == 0);
        assert(best_step(hash, config, 0) == 0);
    }
}

/// A search that is stopped in a given iteration at the latest comes to its
/// end in one iteration only.
pub proof fn lemma_first_stop_unique(
    hash: Seq<u8>,
    config: AddressGenerationConfig,
    limit: nat,
    n: nat,
    m: nat,
)
    requires
        first_stop(hash, config, limit, n),
        first_stop(hash, config, limit, m),
    ensures
        n == m,
{
    if n < m {
        assert(falls_short(hash, config, n));
    } else if m < n {
        assert(falls_short(hash, config, m));
    }
}

/// A search that ends in iteration `n` with a candidate that falls short,
/// as one does that is stopped there, returns the candidate of the
/// iteration that scored highest among iterations zero to `n`, and of the
/// first such iteration where several did.
pub proof fn lemma_stop_returns_first_best(
    res: Result<SignatureResult, SearchError>,
    hash: Seq<u8>,
    config: AddressGenerationConfig,
    n: nat,
)
    requires
        stops_with(res, hash, config, n),
        falls_short(hash, config, n),
    ensures
        res matches Ok(r) && exists|b: nat|
            {
                &&& b <= n
                &&& #[trigger] is_candidate(r, hash, scalar_at(config.s_start@, b))
                &&& forall|j: nat| j <= n ==> step_score(hash, config, j) <= step_score(hash, config, b)
                &&& forall|j: nat| j < b ==> step_score(hash, config, j) < step_score(hash, config, b)
            },
{
    lemma_best_is_first_highest(hash, config, n + 1);
    let b = best_step(hash, config, n + 1);
    let r = res->Ok_0;
    assert(is_candidate(r, hash, scalar_at(config.s_start@, b)));
}

/// Where every candidate up to iteration `limit` falls short, the search
/// that is stopped in that iteration returns the candidate of the
/// iteration that scored highest among them, and of the first such
/// iteration where several did.
pub proof fn lemma_stopped_search_returns_best(
    res: Result<SignatureResult, SearchError>,
    hash: Seq<u8>,
    config: AddressGenerationConfig,
    limit: nat,
    n: nat,
)
    requires
        stops_with(res, hash, config, n),
        first_stop(hash, config, limit, n),
        all_fall_short(hash, config, limit + 1),
    ensures
        n == limit,
        res matches Ok(r) && exists|b: nat|
            {
                &&& b <= limit
                &&& #[trigger] is_candidate(r, hash, scalar_at(config.s_start@, b))
                &&& forall|j: nat| j <= limit ==> step_score(hash, config, j) <= step_score(hash, config, b)
                &&& forall|j: nat| j < b ==> step_score(hash, config, j) < step_score(hash, config, b)
            },
{
    if n < limit {
        assert(falls_short(hash, config, n));
    }
    assert(falls_short(hash, config, limit));
    lemma_stop_returns_first_best(res, hash, config, limit);
    let b = choose|b: nat|
        {
            &&& b <= limit
            &&& #[trigger] is_candidate(res->Ok_0, hash, scalar_at(config.s_start@, b))
            &&& forall|j: nat|
                j <= limit ==> step_score(hash, config, j) <= step_score(hash, config, b)
            &&& forall|j: nat| j < b ==> step_score(hash, config, j) < step_score(hash, config, b)
        };
    assert(is_candidate(res->Ok_0, hash, scalar_at(config.s_start@, b)));
}

/// Where iteration `m` is the first that does not fall short and its
/// candidate is a match, a search that is not stopped before comes to its
/// end there and returns that candidate.
pub proof fn lemma_first_match_is_returned(
    res: Result<SignatureResult, SearchError>,
    hash: Seq<u8>,
    config: AddressGenerationConfig,
    limit: nat,
    n: nat,
    m: nat,
)
    requires
        stops_with(res, hash, config, n),
        first_stop(hash, config, limit, n),
        m <= limit,
        all_fall_short(hash, config, m),
        step_outcome(hash, config, m) == Some(AddressMatch::Match),
    ensures
        n == m,
        res matches Ok(r) && is_candidate(r, hash, scalar_at(config.s_start@, m)),
{
    if n < m {
        assert(falls_short(hash, config, n));
    } else if m < n {
        assert(falls_short(hash, config, m));
    }
}

/// Whatever stops a search, it does not go on beyond the first candidate
/// that is a match.
pub proof fn lemma_search_ends_by_first_match(
    res: Result<SignatureResult, SearchError>,
    hash: Seq<u8>,
    config: AddressGenerationConfig,
    n: nat,
    m: nat,
)
    requires
        stops_with(res, hash, config, n),
        step_outcome(hash, config, m) == Some(AddressMatch::Match),
    ensures
        n <= m,
        n == m ==> (res matches Ok(r) && is_candidate(r, hash, scalar_at(config.s_start@, m))),
{
    if m < n {
        assert(falls_short(hash, config, m));
    }
}

} // verus!
