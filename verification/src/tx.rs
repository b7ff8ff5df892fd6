//! The unsigned deployment transaction: its fields, its signing hash, its
//! cost, and the plan for its gas limit.

use crate::address::Address;
use crate::opt::{parsed_scalar, read_scalar, ConfigError, TransactionConfig};
use crate::scalar::{modulus, Scalar};
use crate::sig::{recovered_signer, SearchError, Signature};
use ethers::types::{Bytes, NameOrAddress, TransactionRequest, H160, U256, U64};
use vstd::prelude::*;

verus! {

/// The 32-byte digest of an unsigned transaction over which signatures are
/// recovered.
#[derive(Clone, Copy, Debug, PartialEq, Eq)]
pub struct SigningHash(pub [u8; 32]);

impl View for SigningHash {
    type V = Seq<u8>;

    open spec fn view(&self) -> Seq<u8> {
        self.0@
    }
}

/// An unsigned legacy transaction, field by field.
#[derive(Clone, Debug, PartialEq, Eq)]
pub struct UnsignedTransaction {
    /// The sender, where one is named.
    pub from: Option<Address>,
    /// The recipient; none for a deployment.
    pub to: Option<Address>,
    /// The gas limit.
    pub gas: Option<Scalar>,
    /// The price of a unit of gas.
    pub gas_price: Option<Scalar>,
    /// The amount sent along.
    pub value: Option<Scalar>,
    /// The data; for a deployment, the bytecode with its arguments.
    pub data: Option<Vec<u8>>,
    /// The number of the transaction among those of its sender.
    pub nonce: Option<Scalar>,
    /// The chain that the transaction is bound to, where it is bound.
    pub chain_id: Option<u64>,
}

/// The bytes of an address, where there is one.
pub open spec fn address_view(address: Option<Address>) -> Option<Seq<u8>> {
    match address {
        Some(a) => Some(a@),
        None => None,
    }
}

/// The value of a scalar, where there is one.
pub open spec fn scalar_view(scalar: Option<Scalar>) -> Option<nat> {
    match scalar {
        Some(x) => Some(x@),
        None => None,
    }
}

/// The bytes of the data, where there are any.
pub open spec fn data_view(data: Option<Vec<u8>>) -> Option<Seq<u8>> {
    match data {
        Some(d) => Some(d@),
        None => None,
    }
}

/// What `sighash` of `ethers::types::TransactionRequest` gives for a
/// request with these fields: the digest over which the transaction is
/// signed.
pub uninterp spec fn request_signing_hash(
    from: Option<Seq<u8>>,
    to: Option<Seq<u8>>,
    gas: Option<nat>,
    gas_price: Option<nat>,
    value: Option<nat>,
    data: Option<Seq<u8>>,
    nonce: Option<nat>,
    chain_id: Option<u64>,
) -> Seq<u8>;

/// Calls `ethers::types::TransactionRequest::sighash` on the request with
/// the fields of `tx`: a digest that depends on the fields alone.
#[verifier::external_body]
fn signing_hash(tx: &UnsignedTransaction) -> (hash: SigningHash)
    ensures
        hash@ == request_signing_hash(
            address_view(tx.from),
            address_view(tx.to),
            scalar_view(tx.gas),
            scalar_view(tx.gas_price),
            scalar_view(tx.value),
            data_view(tx.data),
            scalar_view(tx.nonce),
            tx.chain_id,
        ),
{
    let request = TransactionRequest {
        from: tx.from.map(|a| H160(a.0)),
        to: tx.to.map(|a| NameOrAddress::Address(H160(a.0))),
        gas: tx.gas.map(|x| U256(x.limbs)),
        gas_price: tx.gas_price.map(|x| U256(x.limbs)),
        value: tx.value.map(|x| U256(x.limbs)),
        data: tx.data.clone().map(Bytes::from),
        nonce: tx.nonce.map(|x| U256(x.limbs)),
        chain_id: tx.chain_id.map(U64::from),
    };
    SigningHash(request.sighash().0)
}

/// The product of two scalars, held at the largest scalar where it would
/// go beyond.
pub open spec fn saturating_product(a: nat, b: nat) -> nat {
    if a * b < modulus() {
        a * b
    } else {
        (modulus() - 1) as nat
    }
}

/// Calls `U256::saturating_mul` of `ethers::types`: the product, or the
/// largest value of the type where the product overflows.
#[verifier::external_body]
fn saturating_mul(a: &Scalar, b: &Scalar) -> (product: Scalar)
    ensures
        product@ == saturating_product(a@, b@),
{
    Scalar { limbs: U256(a.limbs).saturating_mul(U256(b.limbs)).0 }
}

/// Calls `ethers::types::Signature::recover` on the digest `hash`, taken as
/// a hash that is already computed. The result is a function of the digest
/// and the three parts of the signature alone: the signer's address where
/// the call succeeds, or its error.
#[verifier::external_body]
fn recover_signer(hash: &SigningHash, sig: &Signature) -> (res: Result<
    Address,
    ethers::types::SignatureError,
>)
    ensures
        match res {
            Ok(signer) => recovered_signer(hash@, sig.v, sig.r@, sig.s@) == Some(signer@),
            Err(_) => recovered_signer(hash@, sig.v, sig.r@, sig.s@) is None,
        },
{
    let outside = ethers::types::Signature {
        r: ethers::types::U256(sig.r.limbs),
        s: ethers::types::U256(sig.s.limbs),
        v: sig.v,
    };
    match outside.recover(ethers::types::H256(hash.0)) {
        Ok(signer) => Ok(Address(signer.0)),
        Err(e) => Err(e),
    }
}

/// A transaction from which the signer of a signature can be recovered.
pub trait Recoverable {
    /// The digest over which signatures are recovered.
    spec fn digest(&self) -> Seq<u8>;

    /// Whether the transaction holds both amounts that make up its cost.
    spec fn priced(&self) -> bool;

    /// The product that `get_cost` returns.
    spec fn cost(&self) -> nat;

    /// Recovers the address that `sig` makes the sender of the transaction.
    /// It fails exactly where the signature has no signer.
    fn recover(&self, sig: Signature) -> (res: Result<Address, SearchError>)
        ensures
            match res {
                Ok(signer) => recovered_signer(self.digest(), sig.v, sig.r@, sig.s@) == Some(
                    signer@,
                ),
                Err(_) => recovered_signer(self.digest(), sig.v, sig.r@, sig.s@) is None,
            },
    ;

    /// The amount that the sender has to hold for the transaction to run.
    fn get_cost(&self) -> (amount: Scalar)
        requires
            self.priced(),
        ensures
            amount@ == self.cost(),
    ;
}

impl Recoverable for UnsignedTransaction {
    open spec fn digest(&self) -> Seq<u8> {
        request_signing_hash(
            address_view(self.from),
            address_view(self.to),
            scalar_view(self.gas),
            scalar_view(self.gas_price),
            scalar_view(self.value),
            data_view(self.data),
            scalar_view(self.nonce),
            self.chain_id,
        )
    }

    open spec fn priced(&self) -> bool {
        self.gas_price is Some && self.gas is Some
    }

    /// The gas price times the gas limit, held at the largest scalar.
    open spec fn cost(&self) -> nat {
        saturating_product(self.gas_price->0@, self.gas->0@)
    }

    fn recover(&self, sig: Signature) -> (res: Result<Address, SearchError>) {
        let hash = signing_hash(self);
        match recover_signer(&hash, &sig) {
            Ok(signer) => Ok(signer),
            Err(e) => Err(SearchError::Recovery(e)),
        }
    }

    fn get_cost(&self) -> (amount: Scalar) {
        saturating_mul(&self.gas_price.unwrap(), &self.gas.unwrap())
    }
}

/// Where the gas limit of the transaction comes from.
#[derive(Clone, Copy, Debug, PartialEq, Eq)]
pub enum GasPlan {
    /// The limit is known.
    Fixed(Scalar),
    /// The limit is what the node of the configuration estimates.
    Estimate,
}

/// The gas limit where neither a limit nor a node is given.
pub const DEFAULT_GAS: u64 = 1_000_000;

/// Decides on the gas limit: the one that is given, read as a decimal
/// number, comes first; without it the node's estimate, where a node is
/// given; and a million without either.
pub fn get_gas(config: &TransactionConfig) -> (res: Result<GasPlan, ConfigError>)
    ensures
        match config.gas_limit {
            Some(text) => match res {
                Ok(plan) => plan matches GasPlan::Fixed(gas) && parsed_scalar(text@, 10) == Some(
                    gas@,
                ),
                Err(e) => e is Number && parsed_scalar(text@, 10) is None,
            },
            None => res matches Ok(plan) && if config.rpc_url is Some {
                plan == GasPlan::Estimate
            } else {
                plan matches GasPlan::Fixed(gas) && gas@ == DEFAULT_GAS
            },
        },
{
    match &config.gas_limit {
        Some(text) => match read_scalar(text.as_str(), 10) {
            Ok(gas) => Ok(GasPlan::Fixed(gas)),
            Err(e) => Err(e),
        },
        None => {
            if config.rpc_url.is_some() {
                Ok(GasPlan::Estimate)
            } else {
                Ok(GasPlan::Fixed(Scalar::from_u64(DEFAULT_GAS)))
            }
        },
    }
}

/// Whether `tx` is the deployment of `bytecode` with the given gas limit
/// and gas price: no sender and no recipient named, no value sent, the
/// bytecode as its data, the nonce zero, and no chain that it is bound to.
pub open spec fn is_deployment(
    tx: UnsignedTransaction,
    bytecode: Seq<u8>,
    gas: Option<Scalar>,
    gas_price: nat,
) -> bool {
    &&& tx.from is None
    &&& tx.to is None
    &&& tx.gas == gas
    &&& scalar_view(tx.gas_price) == Some(gas_price)
    &&& tx.value is None
    &&& data_view(tx.data) == Some(bytecode)
    &&& scalar_view(tx.nonce) == Some(0nat)
    &&& tx.chain_id is None
}

/// Builds the transaction that deploys the bytecode of the configuration,
/// with the gas limit given and the gas price of the configuration, read as
/// a decimal number.
pub fn build_transaction_request(config: &TransactionConfig, gas: Option<Scalar>) -> (res: Result<
    UnsignedTransaction,
    ConfigError,
>)
    ensures
        match res {
            Ok(tx) => parsed_scalar(config.gas_price@, 10) is Some && is_deployment(
                tx,
                config.bytecode@,
                gas,
                parsed_scalar(config.gas_price@, 10)->0,
            ),
            Err(e) => e is Number && parsed_scalar(config.gas_price@, 10) is None,
        },
{
    match read_scalar(config.gas_price.as_str(), 10) {
        Ok(gas_price) => {
            let data = config.bytecode.clone();
            Ok(
                UnsignedTransaction {
                    from: None,
                    to: None,
                    gas,
                    gas_price: Some(gas_price),
                    value: None,
                    data: Some(data),
                    nonce: Some(Scalar::zero()),
                    chain_id: None,
                },
            )
        },
        Err(e) => Err(e),
    }
}

/// The digest of a deployment is that of the request with no sender, no
/// recipient, no value, nonce zero and no chain, whose data is the
/// bytecode.
pub proof fn lemma_deployment_digest(
    tx: UnsignedTransaction,
    bytecode: Seq<u8>,
    gas: Option<Scalar>,
    gas_price: nat,
)
    requires
        is_deployment(tx, bytecode, gas, gas_price),
    ensures
        tx.digest() == request_signing_hash(
            None,
            None,
            scalar_view(gas),
            Some(gas_price),
            None,
            Some(bytecode),
            Some(0nat),
            None,
        ),
{
}

} // verus!
