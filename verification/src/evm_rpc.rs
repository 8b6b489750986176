//! The EVM RPC service as this crate sees it: the values that go over the
//! wire, how a request is put together, and what a reply means.

use vstd::prelude::*;
use vstd::string::StringExecFns;

verus! {

/// Cycles attached to every call to the RPC service.
pub const CALL_CYCLES: u128 = 10000000;

/// The principal of the RPC service, as raw bytes.
pub const CANISTER_ID: [u8; 10] = [0x00, 0x00, 0x00, 0x00, 0x02, 0x30, 0x00, 0xCC, 0x01, 0x01];

#[derive(Clone, Copy, Debug, PartialEq, Eq, Structural)]
pub enum Auth {
    RegisterProvider,
    FreeRpc,
    PriorityRpc,
    Manage,
}

#[derive(Clone, Copy, Debug, PartialEq, Eq, Structural)]
pub enum EthSepoliaService {
    Alchemy,
    BlockPi,
    PublicNode,
    Ankr,
}

#[derive(Clone, Debug, PartialEq, Eq)]
pub struct HttpHeader {
    pub value: String,
    pub name: String,
}

#[derive(Clone, Debug, PartialEq, Eq)]
pub struct RpcApi {
    pub url: String,
    pub headers: Option<Vec<HttpHeader>>,
}

#[derive(Clone, Copy, Debug, PartialEq, Eq, Structural)]
pub enum EthMainnetService {
    Alchemy,
    BlockPi,
    Cloudflare,
    PublicNode,
    Ankr,
}

/// The providers that a call is sent to.
#[derive(Clone, Debug, PartialEq, Eq)]
pub enum RpcServices {
    EthSepolia(Option<Vec<EthSepoliaService>>),
    Custom { chainId: u64, services: Vec<RpcApi> },
    EthMainnet(Option<Vec<EthMainnetService>>),
}

#[derive(Clone, Copy, Debug, PartialEq, Eq, Structural)]
pub struct RpcConfig {
    pub responseSizeEstimate: Option<u64>,
}

#[derive(Clone, Copy, Debug, PartialEq, Eq, Structural)]
pub enum BlockTag {
    Earliest,
    Safe,
    Finalized,
    Latest,
    Number(u128),
    Pending,
}

#[derive(Clone, Debug, PartialEq, Eq)]
pub struct FeeHistoryArgs {
    pub blockCount: u128,
    pub newestBlock: BlockTag,
    pub rewardPercentiles: Option<Vec<u8>>,
}

/// The fee history of a range of blocks. The share of gas used per block,
/// which the service also reports, is not kept: nothing here reads it.
#[derive(Clone, Debug, PartialEq, Eq)]
pub struct FeeHistory {
    pub reward: Vec<Vec<u128>>,
    pub oldestBlock: u128,
    pub baseFeePerGas: Vec<u128>,
}

#[derive(Clone, Debug, PartialEq, Eq)]
pub struct JsonRpcError {
    pub code: i64,
    pub message: String,
}

#[derive(Clone, Copy, Debug, PartialEq, Eq, Structural)]
pub enum ProviderError {
    TooFewCycles { expected: u128, received: u128 },
    MissingRequiredProvider,
    ProviderNotFound,
    NoPermission,
}

#[derive(Clone, Debug, PartialEq, Eq)]
pub enum ValidationError {
    CredentialPathNotAllowed,
    HostNotAllowed(String),
    CredentialHeaderNotAllowed,
    UrlParseError(String),
    Custom(String),
    InvalidHex(String),
}

#[derive(Clone, Copy, Debug, PartialEq, Eq, Structural)]
pub enum RejectionCode {
    NoError,
    CanisterError,
    SysTransient,
    DestinationInvalid,
    Unknown,
    SysFatal,
    CanisterReject,
}

#[derive(Clone, Debug, PartialEq, Eq)]
pub enum HttpOutcallError {
    IcError { code: RejectionCode, message: String },
    InvalidHttpJsonRpcResponse { status: u16, body: String, parsingError: Option<String> },
}

#[derive(Clone, Debug, PartialEq, Eq)]
pub enum RpcError {
    JsonRpcError(JsonRpcError),
    ProviderError(ProviderError),
    ValidationError(ValidationError),
    HttpOutcallError(HttpOutcallError),
}

pub type FeeHistoryResult = Result<Option<FeeHistory>, RpcError>;

#[derive(Clone, Debug, PartialEq, Eq)]
pub enum RpcService {
    EthSepolia(EthSepoliaService),
    Custom(RpcApi),
    EthMainnet(EthMainnetService),
    Chain(u64),
    Provider(u64),
}

#[derive(Debug, PartialEq, Eq)]
pub enum MultiFeeHistoryResult {
    Consistent(FeeHistoryResult),
    Inconsistent(Vec<(RpcService, FeeHistoryResult)>),
}

#[derive(Clone, Debug, PartialEq, Eq)]
pub struct Block {
    pub miner: String,
    pub totalDifficulty: u128,
    pub receiptsRoot: String,
    pub stateRoot: String,
    pub hash: String,
    pub difficulty: u128,
    pub size: u128,
    pub uncles: Vec<String>,
    pub baseFeePerGas: u128,
    pub extraData: String,
    pub transactionsRoot: Option<String>,
    pub sha3Uncles: String,
    pub nonce: u128,
    pub number: u128,
    pub timestamp: u128,
    pub transactions: Vec<String>,
    pub gasLimit: u128,
    pub logsBloom: String,
    pub parentHash: String,
    pub gasUsed: u128,
    pub mixHash: String,
}

pub type GetBlockByNumberResult = Result<Block, RpcError>;

#[derive(Debug, PartialEq, Eq)]
pub enum MultiGetBlockByNumberResult {
    Consistent(GetBlockByNumberResult),
    Inconsistent(Vec<(RpcService, GetBlockByNumberResult)>),
}

#[derive(Clone, Debug, PartialEq, Eq)]
pub struct GetLogsArgs {
    pub fromBlock: Option<BlockTag>,
    pub toBlock: Option<BlockTag>,
    pub addresses: Vec<String>,
    pub topics: Option<Vec<Vec<String>>>,
}

/// One log of the watched contract.
#[derive(Clone, Debug, PartialEq, Eq)]
pub struct LogEntry {
    pub transactionHash: Option<String>,
    pub blockNumber: Option<u128>,
    pub data: String,
    pub blockHash: Option<String>,
    pub transactionIndex: Option<u128>,
    pub topics: Vec<String>,
    pub address: String,
    pub logIndex: Option<u128>,
    pub removed: bool,
}

pub type GetLogsResult = Result<Vec<LogEntry>, RpcError>;

#[derive(Debug, PartialEq, Eq)]
pub enum MultiGetLogsResult {
    Consistent(GetLogsResult),
    Inconsistent(Vec<(RpcService, GetLogsResult)>),
}

#[derive(Clone, Debug, PartialEq, Eq)]
pub struct GetTransactionCountArgs {
    pub address: String,
    pub block: BlockTag,
}

pub type GetTransactionCountResult = Result<u128, RpcError>;

#[derive(Debug, PartialEq, Eq)]
pub enum MultiGetTransactionCountResult {
    Consistent(GetTransactionCountResult),
    Inconsistent(Vec<(RpcService, GetTransactionCountResult)>),
}

#[derive(Clone, Debug, PartialEq, Eq)]
pub struct TransactionReceipt {
    pub to: String,
    pub status: u128,
    pub transactionHash: String,
    pub blockNumber: u128,
    pub from: String,
    pub logs: Vec<LogEntry>,
    pub blockHash: String,
    pub transactionType: String,
    pub transactionIndex: u128,
    pub effectiveGasPrice: u128,
    pub logsBloom: String,
    pub contractAddress: Option<String>,
    pub gasUsed: u128,
}

pub type GetTransactionReceiptResult = Result<Option<TransactionReceipt>, RpcError>;

#[derive(Debug, PartialEq, Eq)]
pub enum MultiGetTransactionReceiptResult {
    Consistent(GetTransactionReceiptResult),
    Inconsistent(Vec<(RpcService, GetTransactionReceiptResult)>),
}

/// What the chain said of a transaction that was sent to it.
#[derive(Clone, Copy, Debug, PartialEq, Eq, Structural)]
pub enum SendRawTransactionStatus {
    Accepted,
    NonceTooLow,
    NonceTooHigh,
    InsufficientFunds,
}

pub type SendRawTransactionResult = Result<SendRawTransactionStatus, RpcError>;

#[derive(Debug, PartialEq, Eq)]
pub enum MultiSendRawTransactionResult {
    Consistent(SendRawTransactionResult),
    Inconsistent(Vec<(RpcService, SendRawTransactionResult)>),
}

#[derive(Clone, Debug, PartialEq, Eq)]
pub struct Metrics {
    pub cyclesWithdrawn: u128,
    pub responses: Vec<((String, String, String), u64)>,
    pub errNoPermission: u64,
    pub inconsistentResponses: Vec<((String, String), u64)>,
    pub cyclesCharged: Vec<((String, String), u128)>,
    pub requests: Vec<((String, String), u64)>,
    pub errHttpOutcall: Vec<((String, String), u64)>,
    pub errHostNotAllowed: Vec<(String, u64)>,
}

/// A registered provider. The owner is a principal, kept as its raw bytes.
#[derive(Clone, Debug, PartialEq, Eq)]
pub struct ProviderView {
    pub cyclesPerCall: u64,
    pub owner: Vec<u8>,
    pub hostname: String,
    pub primary: bool,
    pub chainId: u64,
    pub cyclesPerMessageByte: u64,
    pub providerId: u64,
}

#[derive(Clone, Debug, PartialEq, Eq)]
pub struct ManageProviderArgs {
    pub service: Option<RpcService>,
    pub primary: Option<bool>,
    pub providerId: u64,
}

#[derive(Clone, Debug, PartialEq, Eq)]
pub struct RegisterProviderArgs {
    pub cyclesPerCall: u64,
    pub credentialPath: String,
    pub hostname: String,
    pub credentialHeaders: Option<Vec<HttpHeader>>,
    pub chainId: u64,
    pub cyclesPerMessageByte: u64,
}

pub type RequestResult = Result<String, RpcError>;

pub type RequestCostResult = Result<u128, RpcError>;

#[derive(Clone, Debug, PartialEq, Eq)]
pub struct UpdateProviderArgs {
    pub cyclesPerCall: Option<u64>,
    pub credentialPath: Option<String>,
    pub hostname: Option<String>,
    pub credentialHeaders: Option<Vec<HttpHeader>>,
    pub primary: Option<bool>,
    pub cyclesPerMessageByte: Option<u64>,
    pub providerId: u64,
}

/// Why a call did not reach the RPC service or did not come back.
#[derive(Clone, Debug, PartialEq, Eq)]
pub struct CallFailure {
    pub code: RejectionCode,
    pub message: String,
}

/// Why an operation of the RPC service gave no value.
#[derive(Clone, Debug, PartialEq, Eq)]
pub enum RpcFailure {
    /// The call itself failed.
    Call(CallFailure),
    /// The providers agree on an error.
    Rpc(RpcError),
    /// The providers disagree.
    Inconsistent,
    /// The providers agree that there is nothing to report.
    NoData,
}

/// One call to the RPC service: whom to ask, how, what, and for how much.
#[derive(Debug, PartialEq, Eq)]
pub struct Request<A> {
    pub services: RpcServices,
    pub config: Option<RpcConfig>,
    pub args: A,
    pub cycles: u128,
}

/// The block count that a fee estimate looks back over.
pub const FEE_HISTORY_BLOCKS: u128 = 10;

/// Whether the providers named are those of the network: one fixed provider
/// on Sepolia, the service's own choice on main net, and the service's choice
/// of Sepolia providers for every other name.
pub open spec fn serves(services: RpcServices, network: Seq<char>) -> bool {
    if network == "EthSepolia"@ {
        services matches RpcServices::EthSepolia(Some(list)) && list@ == seq![
            EthSepoliaService::Alchemy,
        ]
    } else if network == "EthMainnet"@ {
        services == RpcServices::EthMainnet(None)
    } else {
        services == RpcServices::EthSepolia(None)
    }
}

/// The providers to ask on a network.
pub fn rpc_services(network: &String) -> (services: RpcServices)
    ensures
        serves(services, network@),
{
    let sepolia: String = String::from_str("EthSepolia");
    let mainnet: String = String::from_str("EthMainnet");
    if *network == sepolia {
        let mut list: Vec<EthSepoliaService> = Vec::new();
        list.push(EthSepoliaService::Alchemy);
        RpcServices::EthSepolia(Some(list))
    } else if *network == mainnet {
        RpcServices::EthMainnet(None)
    } else {
        RpcServices::EthSepolia(None)
    }
}

/// The call that asks for the logs of some contracts from a block onwards.
/// A filter on topics is accepted and not passed on.
pub fn get_logs_request(
    network: &String,
    addresses: Vec<String>,
    topics: Option<Vec<Vec<String>>>,
    from_block: u128,
    to_block: BlockTag,
) -> (request: Request<GetLogsArgs>)
    ensures
        serves(request.services, network@),
        request.config is None,
        request.cycles == CALL_CYCLES,
        request.args == (GetLogsArgs {
            addresses: addresses,
            fromBlock: Some(BlockTag::Number(from_block)),
            toBlock: Some(to_block),
            topics: None,
        }),
{
    Request {
        services: rpc_services(network),
        config: None,
        args: GetLogsArgs {
            addresses,
            fromBlock: Some(BlockTag::Number(from_block)),
            toBlock: Some(to_block),
            topics: None,
        },
        cycles: CALL_CYCLES,
    }
}

/// What a reply to a request for logs means.
pub open spec fn get_logs_outcome_spec(reply: Result<MultiGetLogsResult, CallFailure>) -> Result<
    Vec<LogEntry>,
    RpcFailure,
> {
    match reply {
        Ok(MultiGetLogsResult::Consistent(Ok(logs))) => Ok(logs),
        Ok(MultiGetLogsResult::Consistent(Err(e))) => Err(RpcFailure::Rpc(e)),
        Ok(MultiGetLogsResult::Inconsistent(_)) => Err(RpcFailure::Inconsistent),
        Err(failure) => Err(RpcFailure::Call(failure)),
    }
}

/// Reads a reply to a request for logs. Only logs on which all providers
/// agree are handed on; everything else is a failure.
pub fn get_logs_outcome(reply: Result<MultiGetLogsResult, CallFailure>) -> (res: Result<
    Vec<LogEntry>,
    RpcFailure,
>)
    ensures
        res == get_logs_outcome_spec(reply),
{
    match reply {
        Ok(MultiGetLogsResult::Consistent(Ok(logs))) => Ok(logs),
        Ok(MultiGetLogsResult::Consistent(Err(e))) => Err(RpcFailure::Rpc(e)),
        Ok(MultiGetLogsResult::Inconsistent(_)) => Err(RpcFailure::Inconsistent),
        Err(failure) => Err(RpcFailure::Call(failure)),
    }
}

/// The call that asks for the fee history of the blocks up to one block.
pub fn fee_history_request(
    network: &String,
    block_count: u128,
    newest_block: BlockTag,
    reward_percentiles: Option<Vec<u8>>,
) -> (request: Request<FeeHistoryArgs>)
    ensures
        serves(request.services, network@),
        request.config is None,
        request.cycles == CALL_CYCLES,
        request.args == (FeeHistoryArgs {
            blockCount: block_count,
            newestBlock: newest_block,
            rewardPercentiles: reward_percentiles,
        }),
{
    Request {
        services: rpc_services(network),
        config: None,
        args: FeeHistoryArgs {
            blockCount: block_count,
            newestBlock: newest_block,
            rewardPercentiles: reward_percentiles,
        },
        cycles: CALL_CYCLES,
    }
}

/// What a reply to a request for the fee history means.
pub open spec fn fee_history_outcome_spec(
    reply: Result<MultiFeeHistoryResult, CallFailure>,
) -> Result<FeeHistory, RpcFailure> {
    match reply {
        Ok(MultiFeeHistoryResult::Consistent(Ok(Some(history)))) => Ok(history),
        Ok(MultiFeeHistoryResult::Consistent(Ok(None))) => Err(RpcFailure::NoData),
        Ok(MultiFeeHistoryResult::Consistent(Err(e))) => Err(RpcFailure::Rpc(e)),
        Ok(MultiFeeHistoryResult::Inconsistent(_)) => Err(RpcFailure::Inconsistent),
        Err(failure) => Err(RpcFailure::Call(failure)),
    }
}

/// Reads a reply to a request for the fee history.
pub fn fee_history_outcome(reply: Result<MultiFeeHistoryResult, CallFailure>) -> (res: Result<
    FeeHistory,
    RpcFailure,
>)
    ensures
        res == fee_history_outcome_spec(reply),
{
    match reply {
        Ok(MultiFeeHistoryResult::Consistent(Ok(Some(history)))) => Ok(history),
        Ok(MultiFeeHistoryResult::Consistent(Ok(None))) => Err(RpcFailure::NoData),
        Ok(MultiFeeHistoryResult::Consistent(Err(e))) => Err(RpcFailure::Rpc(e)),
        Ok(MultiFeeHistoryResult::Inconsistent(_)) => Err(RpcFailure::Inconsistent),
        Err(failure) => Err(RpcFailure::Call(failure)),
    }
}

/// The call that submits a signed transaction in transport form.
pub fn send_raw_transaction_request(network: &String, raw_tx: String) -> (request: Request<String>)
    ensures
        serves(request.services, network@),
        request.config is None,
        request.cycles == CALL_CYCLES,
        request.args == raw_tx,
{
    Request { services: rpc_services(network), config: None, args: raw_tx, cycles: CALL_CYCLES }
}

/// What a reply to a submission means.
pub open spec fn send_raw_transaction_outcome_spec(
    reply: Result<MultiSendRawTransactionResult, CallFailure>,
) -> Result<SendRawTransactionStatus, RpcFailure> {
    match reply {
        Ok(MultiSendRawTransactionResult::Consistent(Ok(status))) => Ok(status),
        Ok(MultiSendRawTransactionResult::Consistent(Err(e))) => Err(RpcFailure::Rpc(e)),
        Ok(MultiSendRawTransactionResult::Inconsistent(_)) => Err(RpcFailure::Inconsistent),
        Err(failure) => Err(RpcFailure::Call(failure)),
    }
}

/// Reads a reply to a submission.
pub fn send_raw_transaction_outcome(
    reply: Result<MultiSendRawTransactionResult, CallFailure>,
) -> (res: Result<SendRawTransactionStatus, RpcFailure>)
    ensures
        res == send_raw_transaction_outcome_spec(reply),
{
    match reply {
        Ok(MultiSendRawTransactionResult::Consistent(Ok(status))) => Ok(status),
        Ok(MultiSendRawTransactionResult::Consistent(Err(e))) => Err(RpcFailure::Rpc(e)),
        Ok(MultiSendRawTransactionResult::Inconsistent(_)) => Err(RpcFailure::Inconsistent),
        Err(failure) => Err(RpcFailure::Call(failure)),
    }
}

} // verus!
