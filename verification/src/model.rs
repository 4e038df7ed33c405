use vstd::prelude::*;

use crate::js_vec::JsVecString;

verus! {

/// The root aggregate describing a full unsigned transaction.  Pure data:
/// every field keeps the order its entries were added in, and validation
/// beyond type shape is deferred to the serialization collaborator.
#[derive(Clone, Debug, PartialEq)]
pub struct MeshTxBuilderBody {
    pub inputs: Vec<TxIn>,
    pub outputs: Vec<Output>,
    pub collaterals: Vec<PubKeyTxIn>,
    pub required_signatures: JsVecString,
    pub reference_inputs: Vec<RefTxIn>,
    pub withdrawals: Vec<Withdrawal>,
    pub mints: Vec<MintItem>,
    pub change_address: String,
    pub change_datum: Option<Datum>,
    pub metadata: Vec<Metadata>,
    pub validity_range: ValidityRange,
    pub certificates: Vec<Certificate>,
    pub signing_key: JsVecString,
}

/// One transaction output: destination, multi-asset value, optional datum
/// and optional reference script (provided form only).
#[derive(Clone, Debug, PartialEq)]
pub struct Output {
    pub address: String,
    pub amount: Vec<Asset>,
    pub datum: Option<Datum>,
    pub reference_script: Option<ProvidedScriptSource>,
}

/// One asset entry of an output's value: a policy/name pair and a quantity,
/// both kept as strings at ledger scale.
#[derive(Clone, Debug, PartialEq)]
pub struct Asset {
    pub unit: String,
    pub quantity: String,
}

/// Optional lower and upper time bounds of the transaction.
#[derive(Clone, Debug, PartialEq)]
pub struct ValidityRange {
    pub invalid_before: Option<u64>,
    pub invalid_hereafter: Option<u64>,
}

/// A transaction input: key-witnessed or script-witnessed.
#[derive(Clone, Debug, PartialEq)]
pub enum TxIn {
    PubKeyTxIn(PubKeyTxIn),
    ScriptTxIn(ScriptTxIn),
}

/// A reference input: a UTXO the transaction reads without spending it.
#[derive(Clone, Debug, PartialEq)]
pub struct RefTxIn {
    pub tx_hash: String,
    pub tx_index: u32,
}

/// A key-witnessed input.
#[derive(Clone, Debug, PartialEq)]
pub struct PubKeyTxIn {
    pub type_: String,
    pub tx_in: TxInParameter,
}

/// A script-witnessed input.
#[derive(Clone, Debug, PartialEq)]
pub struct ScriptTxIn {
    pub type_: String,
    pub tx_in: TxInParameter,
    pub script_tx_in: ScriptTxInParameter,
}

/// The UTXO reference of an input, with optional cached amount and address
/// hints used for fee and balance estimation without a ledger round trip.
#[derive(Clone, Debug, PartialEq)]
pub struct TxInParameter {
    pub tx_hash: String,
    pub tx_index: u32,
    pub amount: Option<Vec<Asset>>,
    pub address: Option<String>,
}

/// What a script input additionally carries: its script, datum and
/// redeemer sources.
#[derive(Clone, Debug, PartialEq)]
pub struct ScriptTxInParameter {
    pub script_source: Option<ScriptSource>,
    pub datum_source: Option<DatumSource>,
    pub redeemer: Option<Redeemer>,
}

/// Where a script comes from: provided inline as hex, or referenced at an
/// on-chain location.
#[derive(Clone, Debug, PartialEq)]
pub enum ScriptSource {
    ProvidedScriptSource(ProvidedScriptSource),
    InlineScriptSource(InlineScriptSource),
}

/// A script given directly as hex-encoded bytes with its language version.
#[derive(Clone, Debug, PartialEq)]
pub struct ProvidedScriptSource {
    pub script_cbor: String,
    pub language_version: LanguageVersion,
}

/// A script referenced at an on-chain location.  The declared size must
/// equal the referenced script's byte length when resolved, as it drives
/// fee computation.
#[derive(Clone, Debug, PartialEq)]
pub struct InlineScriptSource {
    pub tx_hash: String,
    pub tx_index: u32,
    pub spending_script_hash: String,
    pub language_version: LanguageVersion,
    pub script_size: usize,
}

/// The Plutus language version a script was compiled for.
#[derive(Clone, Copy, Debug, PartialEq, Eq, Structural)]
pub enum LanguageVersion {
    V1,
    V2,
    V3,
}

/// Where a datum comes from: provided directly or read from an on-chain
/// location.
#[derive(Clone, Debug, PartialEq)]
pub enum DatumSource {
    ProvidedDatumSource(ProvidedDatumSource),
    InlineDatumSource(InlineDatumSource),
}

/// A datum given directly.
#[derive(Clone, Debug, PartialEq)]
pub struct ProvidedDatumSource {
    pub data: String,
}

/// A datum read from an on-chain location.
#[derive(Clone, Debug, PartialEq)]
pub struct InlineDatumSource {
    pub tx_hash: String,
    pub tx_index: u32,
}

/// The on-chain location of a script, with its hash when known.
#[derive(Clone, Debug, PartialEq)]
pub struct ScriptSourceInfo {
    pub tx_hash: String,
    pub tx_index: u32,
    pub spending_script_hash: Option<String>,
}

/// A reward withdrawal: key-witnessed or script-witnessed.
#[derive(Clone, Debug, PartialEq)]
pub enum Withdrawal {
    PubKeyWithdrawal(PubKeyWithdrawal),
    PlutusScriptWithdrawal(PlutusScriptWithdrawal),
}

/// A withdrawal authorized by a key.
#[derive(Clone, Debug, PartialEq)]
pub struct PubKeyWithdrawal {
    pub address: String,
    pub coin: u64,
}

/// A withdrawal authorized by a Plutus script.
#[derive(Clone, Debug, PartialEq)]
pub struct PlutusScriptWithdrawal {
    pub address: String,
    pub coin: u64,
    pub script_source: Option<ScriptSource>,
    pub redeemer: Option<Redeemer>,
}

/// One minting (or burning) entry: policy, asset name and amount, with the
/// witness that authorizes it.
#[derive(Clone, Debug, PartialEq)]
pub struct MintItem {
    pub type_: String,
    pub policy_id: String,
    pub asset_name: String,
    pub amount: u64,
    pub redeemer: Option<Redeemer>,
    pub script_source: Option<ScriptSource>,
}

/// A script argument with the budget that bounds its on-chain execution.
#[derive(Clone, Debug, PartialEq)]
pub struct Redeemer {
    pub data: String,
    pub ex_units: Budget,
}

/// Execution cost bounds: memory units and step units.
#[derive(Clone, Copy, Debug, PartialEq, Eq, Structural)]
pub struct Budget {
    pub mem: u64,
    pub steps: u64,
}

/// One metadata entry: a tag and an opaque payload.
#[derive(Clone, Debug, PartialEq)]
pub struct Metadata {
    pub tag: String,
    pub metadata: String,
}

/// A ledger certificate carried by the transaction.
#[derive(Clone, Debug, PartialEq)]
pub enum Certificate {
    RegisterPool(RegisterPool),
    RegisterStake(RegisterStake),
    DelegateStake(DelegateStake),
    DeregisterStake(DeregisterStake),
    RetirePool(RetirePool),
}

/// Registers a stake pool with its parameters.
#[derive(Clone, Debug, PartialEq)]
pub struct RegisterPool {
    pub pool_params: PoolParams,
}

/// A pool margin: a rational number given as numerator and denominator,
/// with the numerator at most the denominator.
#[derive(Clone, Copy, Debug, PartialEq, Eq, Structural)]
pub struct Margin {
    pub numerator: u64,
    pub denominator: u64,
}

/// The parameters of a stake pool.  Pledge and cost are ledger-scale
/// integer strings; the margin is a rational with numerator at most the
/// denominator.
#[derive(Clone, Debug, PartialEq)]
pub struct PoolParams {
    pub vrf_key_hash: String,
    pub operator: String,
    pub pledge: String,
    pub cost: String,
    pub margin: Margin,
    pub relays: Vec<Relay>,
    pub owners: Vec<String>,
    pub reward_address: String,
    pub metadata: Option<PoolMetadata>,
}

/// How a pool can be reached: by address, by name, or by a multi-host
/// name.
#[derive(Clone, Debug, PartialEq)]
pub enum Relay {
    SingleHostAddr(SingleHostAddr),
    SingleHostName(SingleHostName),
    MultiHostName(MultiHostName),
}

/// A relay given by optional IPv4/IPv6 addresses and port.
#[derive(Clone, Debug, PartialEq)]
pub struct SingleHostAddr {
    pub ipv4: Option<String>,
    pub ipv6: Option<String>,
    pub port: Option<u16>,
}

/// A relay given by a domain name and optional port.
#[derive(Clone, Debug, PartialEq)]
pub struct SingleHostName {
    pub domain_name: String,
    pub port: Option<u16>,
}

/// A relay given by a multi-host domain name.
#[derive(Clone, Debug, PartialEq)]
pub struct MultiHostName {
    pub domain_name: String,
}

/// Off-chain pool metadata: a URL and the hash of its content.
#[derive(Clone, Debug, PartialEq)]
pub struct PoolMetadata {
    pub url: String,
    pub hash: String,
}

/// Registers a stake key.
#[derive(Clone, Debug, PartialEq)]
pub struct RegisterStake {
    pub stake_key_hash: String,
}

/// Delegates a stake key to a pool.
#[derive(Clone, Debug, PartialEq)]
pub struct DelegateStake {
    pub stake_key_hash: String,
    pub pool_id: String,
}

/// Deregisters a stake key.
#[derive(Clone, Debug, PartialEq)]
pub struct DeregisterStake {
    pub stake_key_hash: String,
}

/// Retires a pool at the given epoch.
#[derive(Clone, Debug, PartialEq)]
pub struct RetirePool {
    pub pool_id: String,
    pub epoch: u32,
}

/// A datum attached to an output: tagged "Hash" or "Inline", with its
/// payload.
#[derive(Clone, Debug, PartialEq)]
pub struct Datum {
    pub type_: String,
    pub data: String,
}

/// The identity half of a UTXO: which output of which transaction.
#[derive(Clone, Debug, PartialEq)]
pub struct UtxoInput {
    pub output_index: u32,
    pub tx_hash: String,
}

/// The contents half of a UTXO: address, value and optional datum or
/// script attachments.
#[derive(Clone, Debug, PartialEq)]
pub struct UtxoOutput {
    pub address: String,
    pub amount: Vec<Asset>,
    pub data_hash: Option<String>,
    pub plutus_data: Option<String>,
    pub script_ref: Option<String>,
    pub script_hash: Option<String>,
}

/// A full UTXO: identity plus contents, the canonical unit handed in by
/// the chain-query collaborator.
#[derive(Clone, Debug, PartialEq)]
pub struct UTxO {
    pub input: UtxoInput,
    pub output: UtxoOutput,
}

} // verus!
