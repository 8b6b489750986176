use ethers_core::k256::ecdsa::SigningKey;
use icp_eth_coprocessor::evm_rpc::{
    BlockTag, CallFailure, FeeHistory, LogEntry, RejectionCode, RpcFailure,
    SendRawTransactionStatus,
};
use icp_eth_coprocessor::evm_signer::{SignError, SignatureReply};
use icp_eth_coprocessor::memory::{Config, State};
use icp_eth_coprocessor::sync::{Action, CycleError, Event, Outcome, Phase, SyncCycle};

const PRIVATE_KEY: &str = "4c0883a69102937d6231471b5dbb6204fe5129617082792ae468d01a3f362318";
const PUBLIC_KEY: &str = "044e3b81af9c2234cad09d679ce6035ed1392347ce64ce405f5dcd36228a25de6e47fd35c4215d1edf53e6f83de344615ce719bdb0fd878f6ed76f06dd277956de";
const ADDRESS: &str = "0x2c7536E3605D9C16a7a3D7b1898e529396a65c23";
const CONTRACT: &str = "0xf0109fc8df283027b6285cc889f5aa624eac1f55";
const TX_HASH: &str = "cb6714eed130125aa58fccdeb1bd1f3d9568ea22dd4fb4907e72dd95839693a4";
const TX_SIGNATURE: &str = "08b2a8c29506cdf27fe61b47f6f0852e0ad0abc1fcb50ebce19d2fd9eed93ed75eaf41b1ab7031a5971a12a0e52f3284d2bfe0e17c39b536b4f351083a2596ce";
const SIGNED_TX: &str = "0x02f8cc83aa36a7076482044c82c35094f0109fc8df283027b6285cc889f5aa624eac1f5580b864cac95320000000000000000000000000000000000000000000000000000000000000002000000000000000000000000000000000000000000000000000000000000000023432000000000000000000000000000000000000000000000000000000000000c001a008b2a8c29506cdf27fe61b47f6f0852e0ad0abc1fcb50ebce19d2fd9eed93ed7a05eaf41b1ab7031a5971a12a0e52f3284d2bfe0e17c39b536b4f351083a2596ce";

fn config() -> Config {
    let mut config = Config::default();
    config.set_contract(CONTRACT.to_string());
    config
}

fn state(cursor: u128, nonce: u128) -> State {
    State {
        ecdsa_pub_key: Some(hex::decode(PUBLIC_KEY).unwrap()),
        evm_address: Some(ADDRESS.to_string()),
        evm_block_height: cursor,
        nonce,
    }
}

fn log(block: Option<u128>, data: &str) -> LogEntry {
    LogEntry {
        transactionHash: None,
        blockNumber: block,
        data: data.to_string(),
        blockHash: None,
        transactionIndex: None,
        topics: vec![],
        address: CONTRACT.to_string(),
        logIndex: None,
        removed: false,
    }
}

fn fees() -> Event {
    Event::FeeHistory(Ok(FeeHistory {
        reward: vec![],
        oldestBlock: 90,
        baseFeePerGas: vec![900, 950, 1000],
    }))
}

fn sign(digest: &[u8]) -> Event {
    let key = SigningKey::from_slice(&hex::decode(PRIVATE_KEY).unwrap()).unwrap();
    let (signature, _) = key.sign_prehash_recoverable(digest).unwrap();
    Event::Signature(Ok(SignatureReply { signature: signature.to_bytes().to_vec() }))
}

fn failure() -> RpcFailure {
    RpcFailure::Call(CallFailure { code: RejectionCode::SysTransient, message: "down".to_string() })
}

fn started(config: &Config, state: &State, logs: Vec<LogEntry>) -> (SyncCycle, Action) {
    let (mut cycle, action) = SyncCycle::begin(config, state);
    assert!(matches!(action, Action::FetchLogs { .. }));
    let mut unchanged = state.clone();
    let action = cycle.step(config, &mut unchanged, Event::Logs(Ok(logs)));
    assert_eq!(&unchanged, state);
    (cycle, action)
}

/// Runs the job in work up to the chain's answer and returns the next action.
fn run_job(
    cycle: &mut SyncCycle,
    config: &Config,
    state: &mut State,
    status: SendRawTransactionStatus,
) -> Action {
    assert_eq!(cycle.phase(), Phase::AwaitingFees);
    let digest = match cycle.step(config, state, fees()) {
        Action::Sign { digest, .. } => digest,
        other => panic!("expected a digest to sign, got {:?}", other),
    };
    assert_eq!(cycle.phase(), Phase::AwaitingSignature);
    match cycle.step(config, state, sign(&digest)) {
        Action::Send { network, raw_tx } => {
            assert_eq!(network, "EthSepolia");
            assert!(raw_tx.starts_with("0x02"));
        }
        other => panic!("expected a transaction to send, got {:?}", other),
    }
    assert_eq!(cycle.phase(), Phase::AwaitingReceipt);
    cycle.step(config, state, Event::Submitted(Ok(status)))
}

#[test]
fn cycle_without_contract_asks_nothing() {
    let config = Config::default();
    let (cycle, action) = SyncCycle::begin(&config, &state(99, 7));
    assert_eq!(action, Action::Done(Outcome::NoContract));
    assert_eq!(cycle.phase(), Phase::Finished);
}

#[test]
fn cycle_asks_for_logs_once_the_contract_is_set() {
    let mut config = Config::default();
    let (_, action) = SyncCycle::begin(&config, &state(99, 7));
    assert_eq!(action, Action::Done(Outcome::NoContract));
    config.set_contract("0xABCD".to_string());
    let (cycle, action) = SyncCycle::begin(&config, &state(99, 7));
    assert_eq!(
        action,
        Action::FetchLogs {
            network: "EthSepolia".to_string(),
            contract: "0xABCD".to_string(),
            from_block: 100,
            to_block: BlockTag::Latest,
        }
    );
    assert_eq!(cycle.phase(), Phase::AwaitingLogs);
    assert_eq!(cycle.batch_len(), 0);
}

#[test]
fn cycle_asks_strictly_after_the_cursor() {
    let (_, action) = SyncCycle::begin(&config(), &State::default());
    assert_eq!(
        action,
        Action::FetchLogs {
            network: "EthSepolia".to_string(),
            contract: CONTRACT.to_string(),
            from_block: 5552047,
            to_block: BlockTag::Latest,
        }
    );
}

#[test]
fn cycle_at_the_last_block_asks_nothing() {
    let (cycle, action) = SyncCycle::begin(&config(), &state(u128::MAX, 0));
    assert_eq!(action, Action::Done(Outcome::CursorExhausted));
    assert_eq!(cycle.phase(), Phase::Finished);
}

#[test]
fn failed_log_fetch_ends_the_cycle_and_keeps_the_cursor() {
    let config = config();
    let mut st = state(99, 7);
    let (mut cycle, _) = SyncCycle::begin(&config, &st);
    let action = cycle.step(&config, &mut st, Event::Logs(Err(RpcFailure::Inconsistent)));
    assert_eq!(
        action,
        Action::Done(Outcome::Failed(CycleError::Logs(RpcFailure::Inconsistent)))
    );
    assert_eq!(cycle.phase(), Phase::Finished);
    assert_eq!(st, state(99, 7));
}

#[test]
fn empty_batch_ends_the_cycle_and_keeps_the_cursor() {
    let config = config();
    let mut st = state(99, 7);
    let (mut cycle, _) = SyncCycle::begin(&config, &st);
    let action = cycle.step(&config, &mut st, Event::Logs(Ok(vec![])));
    assert_eq!(action, Action::Done(Outcome::NoLogs));
    assert_eq!(st, state(99, 7));
}

#[test]
fn first_job_is_the_first_log() {
    let config = config();
    let st = state(99, 7);
    let (cycle, action) =
        started(&config, &st, vec![log(Some(100), "0x07"), log(Some(101), "0x08")]);
    assert_eq!(
        action,
        Action::FetchFeeHistory {
            network: "EthSepolia".to_string(),
            block_count: 10,
            newest_block: BlockTag::Latest,
            job_id: 7,
        }
    );
    assert_eq!(cycle.phase(), Phase::AwaitingFees);
    assert_eq!(cycle.position(), 0);
    assert_eq!(cycle.batch_len(), 2);
}

#[test]
fn malformed_payload_is_job_zero() {
    let (_, action) = started(&config(), &state(99, 7), vec![log(Some(100), "garbage")]);
    assert_eq!(
        action,
        Action::FetchFeeHistory {
            network: "EthSepolia".to_string(),
            block_count: 10,
            newest_block: BlockTag::Latest,
            job_id: 0,
        }
    );
}

#[test]
fn known_transaction_goes_through_the_cycle() {
    let config = config();
    let mut st = state(99, 7);
    let (mut cycle, _) = started(&config, &st, vec![log(Some(100), "0x01")]);
    let action = cycle.step(&config, &mut st, fees());
    assert_eq!(
        action,
        Action::Sign {
            key_name: "dfx_test_key".to_string(),
            digest: hex::decode(TX_HASH).unwrap(),
        }
    );
    let reply = SignatureReply { signature: hex::decode(TX_SIGNATURE).unwrap() };
    let action = cycle.step(&config, &mut st, Event::Signature(Ok(reply)));
    assert_eq!(
        action,
        Action::Send { network: "EthSepolia".to_string(), raw_tx: SIGNED_TX.to_string() }
    );
    assert_eq!(st, state(99, 7));
    let action =
        cycle.step(&config, &mut st, Event::Submitted(Ok(SendRawTransactionStatus::Accepted)));
    assert_eq!(action, Action::Done(Outcome::Completed));
    assert_eq!(st, state(100, 8));
    assert_eq!(cycle.phase(), Phase::Finished);
}

#[test]
fn cursor_reaches_the_last_log_even_if_the_first_job_is_refused() {
    let config = config();
    let mut st = state(99, 7);
    let (mut cycle, _) =
        started(&config, &st, vec![log(Some(100), "0x01"), log(Some(101), "0x02")]);
    let action = run_job(&mut cycle, &config, &mut st, SendRawTransactionStatus::NonceTooLow);
    assert_eq!(
        action,
        Action::FetchFeeHistory {
            network: "EthSepolia".to_string(),
            block_count: 10,
            newest_block: BlockTag::Latest,
            job_id: 2,
        }
    );
    assert_eq!(st, state(99, 7));
    assert_eq!(cycle.position(), 1);
    let action = run_job(&mut cycle, &config, &mut st, SendRawTransactionStatus::Accepted);
    assert_eq!(action, Action::Done(Outcome::Completed));
    assert_eq!(st, state(101, 8));
}

#[test]
fn cursor_reaches_the_last_log_when_both_jobs_succeed() {
    let config = config();
    let mut st = state(99, 7);
    let (mut cycle, _) =
        started(&config, &st, vec![log(Some(100), "0x01"), log(Some(101), "0x02")]);
    run_job(&mut cycle, &config, &mut st, SendRawTransactionStatus::Accepted);
    assert_eq!(st, state(99, 8));
    let action = run_job(&mut cycle, &config, &mut st, SendRawTransactionStatus::Accepted);
    assert_eq!(action, Action::Done(Outcome::Completed));
    assert_eq!(st, state(101, 9));
}

#[test]
fn cursor_reaches_the_last_log_when_every_job_is_refused() {
    let config = config();
    let mut st = state(99, 7);
    let (mut cycle, _) =
        started(&config, &st, vec![log(Some(100), "0x01"), log(Some(101), "0x02")]);
    run_job(&mut cycle, &config, &mut st, SendRawTransactionStatus::InsufficientFunds);
    let action = run_job(&mut cycle, &config, &mut st, SendRawTransactionStatus::NonceTooHigh);
    assert_eq!(action, Action::Done(Outcome::Completed));
    assert_eq!(st, state(101, 7));
}

#[test]
fn cursor_is_held_when_the_last_log_names_no_block() {
    let config = config();
    let mut st = state(99, 7);
    let (mut cycle, _) = started(&config, &st, vec![log(Some(100), "0x01"), log(None, "0x02")]);
    run_job(&mut cycle, &config, &mut st, SendRawTransactionStatus::Accepted);
    let action = run_job(&mut cycle, &config, &mut st, SendRawTransactionStatus::Accepted);
    assert_eq!(action, Action::Done(Outcome::Held));
    assert_eq!(st, state(99, 9));
}

#[test]
fn cursor_is_held_when_the_last_log_is_behind_it() {
    let config = config();
    let mut st = state(99, 7);
    let (mut cycle, _) = started(&config, &st, vec![log(Some(98), "0x01")]);
    let action = run_job(&mut cycle, &config, &mut st, SendRawTransactionStatus::Accepted);
    assert_eq!(action, Action::Done(Outcome::Held));
    assert_eq!(st, state(99, 8));
}

#[test]
fn cursor_follows_the_last_log_not_the_highest() {
    let config = config();
    let mut st = state(99, 7);
    let (mut cycle, _) =
        started(&config, &st, vec![log(Some(105), "0x01"), log(Some(103), "0x02")]);
    run_job(&mut cycle, &config, &mut st, SendRawTransactionStatus::Accepted);
    let action = run_job(&mut cycle, &config, &mut st, SendRawTransactionStatus::Accepted);
    assert_eq!(action, Action::Done(Outcome::Completed));
    assert_eq!(st.evm_block_height, 103);
}

#[test]
fn failed_fee_history_ends_the_cycle() {
    let config = config();
    let mut st = state(99, 7);
    let (mut cycle, _) = started(&config, &st, vec![log(Some(100), "0x01")]);
    let action = cycle.step(&config, &mut st, Event::FeeHistory(Err(failure())));
    assert_eq!(action, Action::Done(Outcome::Failed(CycleError::Fees(failure()))));
    assert_eq!(st, state(99, 7));
    assert_eq!(cycle.phase(), Phase::Finished);
}

#[test]
fn fee_history_without_base_fee_ends_the_cycle() {
    let config = config();
    let mut st = state(99, 7);
    let (mut cycle, _) = started(&config, &st, vec![log(Some(100), "0x01")]);
    let empty = FeeHistory { reward: vec![], oldestBlock: 0, baseFeePerGas: vec![] };
    let action = cycle.step(&config, &mut st, Event::FeeHistory(Ok(empty)));
    assert_eq!(action, Action::Done(Outcome::Failed(CycleError::NoBaseFee)));
    assert_eq!(st, state(99, 7));
}

#[test]
fn contract_that_is_no_address_ends_the_cycle() {
    let mut config = Config::default();
    config.set_contract("0xABCD".to_string());
    let mut st = state(99, 7);
    let (mut cycle, _) = started(&config, &st, vec![log(Some(100), "0x01")]);
    let action = cycle.step(&config, &mut st, fees());
    assert_eq!(
        action,
        Action::Done(Outcome::Failed(CycleError::Signing(SignError::InvalidDestination)))
    );
    assert_eq!(st, state(99, 7));
}

#[test]
fn silent_signer_ends_the_cycle() {
    let config = config();
    let mut st = state(99, 7);
    let (mut cycle, _) = started(&config, &st, vec![log(Some(100), "0x01")]);
    cycle.step(&config, &mut st, fees());
    let down = CallFailure { code: RejectionCode::CanisterReject, message: "no".to_string() };
    let action = cycle.step(&config, &mut st, Event::Signature(Err(down.clone())));
    assert_eq!(action, Action::Done(Outcome::Failed(CycleError::Signer(down))));
    assert_eq!(st, state(99, 7));
}

#[test]
fn signature_of_a_stranger_is_never_sent() {
    let config = config();
    let mut st = state(99, 7);
    let (mut cycle, _) = started(&config, &st, vec![log(Some(100), "0x01")]);
    cycle.step(&config, &mut st, fees());
    let forged = SignatureReply {
        signature: hex::decode("a8b29fd606c808be966a7a2cb34ab23a33f160704c829a5777f2bcfa496759f91704c8df6852b158efa05ff0db9d1895c7b0fd577bf8e8241f44c5cf22fc63c9").unwrap(),
    };
    let action = cycle.step(&config, &mut st, Event::Signature(Ok(forged)));
    assert_eq!(
        action,
        Action::Done(Outcome::Failed(CycleError::Signing(SignError::ParityNotRecovered)))
    );
    assert_eq!(st, state(99, 7));
    assert_eq!(cycle.phase(), Phase::Finished);
}

#[test]
fn short_signature_is_never_sent() {
    let config = config();
    let mut st = state(99, 7);
    let (mut cycle, _) = started(&config, &st, vec![log(Some(100), "0x01")]);
    cycle.step(&config, &mut st, fees());
    let short = SignatureReply { signature: vec![1; 32] };
    let action = cycle.step(&config, &mut st, Event::Signature(Ok(short)));
    assert_eq!(
        action,
        Action::Done(Outcome::Failed(CycleError::Signing(SignError::InvalidSignature)))
    );
}

#[test]
fn signing_needs_the_recorded_key() {
    let config = config();
    let mut st = State { ecdsa_pub_key: None, evm_address: None, evm_block_height: 99, nonce: 7 };
    let (mut cycle, _) = started(&config, &st, vec![log(Some(100), "0x01")]);
    let digest = match cycle.step(&config, &mut st, fees()) {
        Action::Sign { digest, .. } => digest,
        other => panic!("expected a digest to sign, got {:?}", other),
    };
    let action = cycle.step(&config, &mut st, sign(&digest));
    assert_eq!(action, Action::Done(Outcome::Failed(CycleError::NoPublicKey)));
    assert_eq!(st.evm_block_height, 99);
    assert_eq!(st.nonce, 7);
}

#[test]
fn failed_submission_ends_the_cycle_and_keeps_nonce_and_cursor() {
    let config = config();
    let mut st = state(99, 7);
    let (mut cycle, _) =
        started(&config, &st, vec![log(Some(100), "0x01"), log(Some(101), "0x02")]);
    run_job(&mut cycle, &config, &mut st, SendRawTransactionStatus::Accepted);
    assert_eq!(st, state(99, 8));
    let digest = match cycle.step(&config, &mut st, fees()) {
        Action::Sign { digest, .. } => digest,
        other => panic!("expected a digest to sign, got {:?}", other),
    };
    cycle.step(&config, &mut st, sign(&digest));
    let action = cycle.step(&config, &mut st, Event::Submitted(Err(failure())));
    assert_eq!(action, Action::Done(Outcome::Failed(CycleError::Submission(failure()))));
    assert_eq!(st, state(99, 8));
}

#[test]
fn nonce_at_its_limit_ends_the_cycle() {
    let config = config();
    let mut st = state(99, u128::MAX);
    let (mut cycle, _) = started(&config, &st, vec![log(Some(100), "0x01")]);
    let action = run_job(&mut cycle, &config, &mut st, SendRawTransactionStatus::Accepted);
    assert_eq!(action, Action::Done(Outcome::Failed(CycleError::NonceExhausted)));
    assert_eq!(st, state(99, u128::MAX));
}

#[test]
fn answer_out_of_turn_ends_the_cycle() {
    let config = config();
    let mut st = state(99, 7);
    let (mut cycle, _) = SyncCycle::begin(&config, &st);
    let action = cycle.step(&config, &mut st, fees());
    assert_eq!(action, Action::Done(Outcome::Failed(CycleError::Unexpected)));
    assert_eq!(cycle.phase(), Phase::Finished);
    assert_eq!(st, state(99, 7));
    let action = cycle.step(&config, &mut st, Event::Logs(Ok(vec![log(Some(100), "0x01")])));
    assert_eq!(action, Action::Done(Outcome::Failed(CycleError::Unexpected)));
    assert_eq!(st, state(99, 7));
}

#[test]
fn acceptance_out_of_turn_does_not_move_the_nonce() {
    let config = config();
    let mut st = state(99, 7);
    let (mut cycle, _) = started(&config, &st, vec![log(Some(100), "0x01")]);
    let action =
        cycle.step(&config, &mut st, Event::Submitted(Ok(SendRawTransactionStatus::Accepted)));
    assert_eq!(action, Action::Done(Outcome::Failed(CycleError::Unexpected)));
    assert_eq!(st, state(99, 7));
}

#[test]
fn next_cycle_starts_after_the_new_cursor() {
    let config = config();
    let mut st = state(99, 7);
    let (mut cycle, _) = started(&config, &st, vec![log(Some(100), "0x01")]);
    run_job(&mut cycle, &config, &mut st, SendRawTransactionStatus::Accepted);
    let (_, action) = SyncCycle::begin(&config, &st);
    assert_eq!(
        action,
        Action::FetchLogs {
            network: "EthSepolia".to_string(),
            contract: CONTRACT.to_string(),
            from_block: 101,
            to_block: BlockTag::Latest,
        }
    );
}

#[test]
fn cursor_is_monotone_over_many_cycles() {
    let config = config();
    let mut st = state(10, 0);
    let batches: Vec<Vec<Option<u128>>> = vec![
        vec![Some(11), Some(12)],
        vec![Some(5)],
        vec![],
        vec![Some(20), None],
        vec![Some(20)],
        vec![Some(40), Some(30)],
    ];
    for batch in batches {
        let before = st.evm_block_height;
        let nonce = st.nonce;
        let logs: Vec<LogEntry> = batch.iter().map(|b| log(*b, "0x01")).collect();
        let n = logs.len();
        let (mut cycle, mut action) = started(&config, &st, logs);
        let mut jobs: usize = 0;
        while !matches!(action, Action::Done(_)) {
            action = run_job(&mut cycle, &config, &mut st, SendRawTransactionStatus::Accepted);
            jobs += 1;
        }
        assert_eq!(jobs, n);
        assert!(st.evm_block_height >= before);
        assert_eq!(st.nonce, nonce + n as u128);
    }
    assert_eq!(st.evm_block_height, 30);
}
