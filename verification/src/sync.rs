//! One synchronisation cycle as a state machine.
//!
//! A cycle reads the logs after the cursor and, for each log in the order
//! received, estimates fees, has a transaction signed and submits it. The
//! remote calls are not made here: the machine names the next call as an
//! [`Action`], and its answer comes back as an [`Event`].
//!
//! Nothing keeps two cycles from running at the same time. A caller that
//! starts a cycle on every tick while another one waits for an answer may
//! see a job processed twice; the machine itself only ever moves the cursor
//! forward and the nonce up.
//!
//! The cursor moves when the last log of a batch has been dealt with,
//! whether or not the chain accepted the transactions of that batch. A
//! transaction that the chain refuses is therefore not sent again.

use crate::evm_rpc::{
    BlockTag, CallFailure, FeeHistory, LogEntry, RpcFailure, SendRawTransactionStatus,
    FEE_HISTORY_BLOCKS,
};
use crate::evm_signer::{
    sign_transaction, sign_transaction_spec, signing_key_name, transaction_hash,
    transaction_hash_spec, SignError, SignRequest, SignRequestView, SignatureReply,
};
use crate::memory::{Config, State};
use crate::{
    callback_request, callback_request_spec, estimate_fees, estimate_fees_spec, job_id,
    job_id_of, process_job,
};
use vstd::prelude::*;

verus! {

/// The seconds between the starts of two cycles.
pub const SYNC_INTERVAL_SECS: u64 = 60;

/// What a cycle waits for.
#[derive(Clone, Copy, Debug, PartialEq, Eq, Structural)]
pub enum Phase {
    AwaitingLogs,
    AwaitingFees,
    AwaitingSignature,
    AwaitingReceipt,
    Finished,
}

/// Why a cycle was given up.
#[derive(Clone, Debug, PartialEq, Eq)]
pub enum CycleError {
    /// The logs could not be read.
    Logs(RpcFailure),
    /// The fee history could not be read.
    Fees(RpcFailure),
    /// The fee history holds no base fee.
    NoBaseFee,
    /// The contract address was taken away while the cycle ran.
    NoContract,
    /// The signing service did not answer.
    Signer(CallFailure),
    /// No public key is recorded to check the signature against.
    NoPublicKey,
    /// The transaction could not be encoded, or the signature is not one of
    /// the recorded key.
    Signing(SignError),
    /// The transaction could not be submitted.
    Submission(RpcFailure),
    /// The chain accepted a transaction and the nonce cannot go higher.
    NonceExhausted,
    /// The answer is not the one that the cycle waits for.
    Unexpected,
}

/// How a cycle ended.
#[derive(Clone, Debug, PartialEq, Eq)]
pub enum Outcome {
    /// No contract is configured: nothing was asked.
    NoContract,
    /// The cursor stands at the highest block there can be.
    CursorExhausted,
    /// There are no logs after the cursor.
    NoLogs,
    /// Every log was dealt with and the cursor stands at the last log's block.
    Completed,
    /// Every log was dealt with, but the last log names no block or one
    /// before the cursor: the cursor stays.
    Held,
    /// The cycle was given up; the cursor stays.
    Failed(CycleError),
}

/// What the caller has to do next.
#[derive(Debug, PartialEq, Eq)]
pub enum Action {
    /// Ask for the logs of `contract` from `from_block` to `to_block`.
    FetchLogs { network: String, contract: String, from_block: u128, to_block: BlockTag },
    /// Ask for the fee history of the `block_count` blocks up to
    /// `newest_block`, on behalf of the job `job_id`.
    FetchFeeHistory { network: String, block_count: u128, newest_block: BlockTag, job_id: u64 },
    /// Ask the signing service to sign `digest` with the key `key_name`.
    Sign { key_name: String, digest: Vec<u8> },
    /// Submit `raw_tx`.
    Send { network: String, raw_tx: String },
    /// Nothing: the cycle is over.
    Done(Outcome),
}

/// An [`Action`] as mathematical values.
pub enum ActionView {
    FetchLogs { network: Seq<char>, contract: Seq<char>, from_block: u128, to_block: BlockTag },
    FetchFeeHistory {
        network: Seq<char>,
        block_count: u128,
        newest_block: BlockTag,
        job_id: u64,
    },
    Sign { key_name: Seq<char>, digest: Seq<u8> },
    Send { network: Seq<char>, raw_tx: Seq<char> },
    Done(Outcome),
}

impl View for Action {
    type V = ActionView;

    open spec fn view(&self) -> ActionView {
        match *self {
            Action::FetchLogs { network, contract, from_block, to_block } => ActionView::FetchLogs {
                network: network@,
                contract: contract@,
                from_block,
                to_block,
            },
            Action::FetchFeeHistory {
                network,
                block_count,
                newest_block,
                job_id,
            } => ActionView::FetchFeeHistory {
                network: network@,
                block_count,
                newest_block,
                job_id,
            },
            Action::Sign { key_name, digest } => ActionView::Sign {
                key_name: key_name@,
                digest: digest@,
            },
            Action::Send { network, raw_tx } => ActionView::Send {
                network: network@,
                raw_tx: raw_tx@,
            },
            Action::Done(outcome) => ActionView::Done(outcome),
        }
    }
}

/// The answer to an [`Action`].
#[derive(Debug, PartialEq, Eq)]
pub enum Event {
    Logs(Result<Vec<LogEntry>, RpcFailure>),
    FeeHistory(Result<FeeHistory, RpcFailure>),
    Signature(Result<SignatureReply, CallFailure>),
    Submitted(Result<SendRawTransactionStatus, RpcFailure>),
}

/// A cycle in progress.
#[derive(Debug)]
pub struct SyncCycle {
    phase: Phase,
    logs: Vec<LogEntry>,
    position: usize,
    pending: Option<SignRequest>,
}

/// A [`SyncCycle`] as mathematical values: what it waits for, the logs of the
/// batch, the index of the log in work, and the transaction under signature.
pub struct SyncCycleView {
    pub phase: Phase,
    pub logs: Seq<LogEntry>,
    pub position: int,
    pub pending: Option<SignRequestView>,
}

impl View for SyncCycle {
    type V = SyncCycleView;

    closed spec fn view(&self) -> SyncCycleView {
        SyncCycleView {
            phase: self.phase,
            logs: self.logs@,
            position: self.position as int,
            pending: match self.pending {
                Some(req) => Some(req@),
                None => None,
            },
        }
    }
}

/// The result of one move of the machine.
pub struct Step {
    pub cycle: SyncCycleView,
    pub state: State,
    pub action: ActionView,
}

/// A cycle that has not read anything yet.
pub open spec fn fresh(phase: Phase) -> SyncCycleView {
    SyncCycleView { phase, logs: Seq::empty(), position: 0, pending: None }
}

/// How a cycle begins: with a request for the logs after the cursor, or not
/// at all.
pub open spec fn begin_spec(config: Config, state: State) -> (SyncCycleView, ActionView) {
    match config.evm_contract {
        None => (fresh(Phase::Finished), ActionView::Done(Outcome::NoContract)),
        Some(contract) => if state.evm_block_height == u128::MAX {
            (fresh(Phase::Finished), ActionView::Done(Outcome::CursorExhausted))
        } else {
            (
                fresh(Phase::AwaitingLogs),
                ActionView::FetchLogs {
                    network: config.evm_network@,
                    contract: contract@,
                    from_block: (state.evm_block_height + 1) as u128,
                    to_block: BlockTag::Latest,
                },
            )
        },
    }
}

/// The cycle ends here and the state stays as it is.
pub open spec fn stop(cycle: SyncCycleView, state: State, outcome: Outcome) -> Step {
    Step {
        cycle: SyncCycleView { phase: Phase::Finished, pending: None, ..cycle },
        state,
        action: ActionView::Done(outcome),
    }
}

/// The job of the log at `position` starts: its fees are asked for.
pub open spec fn start_job(cycle: SyncCycleView, config: Config, state: State) -> Step {
    if 0 <= cycle.position < cycle.logs.len() {
        Step {
            cycle: SyncCycleView { phase: Phase::AwaitingFees, pending: None, ..cycle },
            state,
            action: ActionView::FetchFeeHistory {
                network: config.evm_network@,
                block_count: FEE_HISTORY_BLOCKS,
                newest_block: BlockTag::Latest,
                job_id: job_id_of(cycle.logs[cycle.position].data@),
            },
        }
    } else {
        stop(cycle, state, Outcome::Failed(CycleError::Unexpected))
    }
}

/// The fee history has come: the transaction is built and its digest goes to
/// the signing service.
pub open spec fn on_fee_history(
    cycle: SyncCycleView,
    config: Config,
    state: State,
    history: FeeHistory,
) -> Step {
    match (estimate_fees_spec(history.baseFeePerGas@), config.evm_contract) {
        _ if !(0 <= cycle.position < cycle.logs.len()) => stop(
            cycle,
            state,
            Outcome::Failed(CycleError::Unexpected),
        ),
        (None, _) => stop(cycle, state, Outcome::Failed(CycleError::NoBaseFee)),
        (Some(_), None) => stop(cycle, state, Outcome::Failed(CycleError::NoContract)),
        (Some(fees), Some(contract)) => {
            let req = callback_request_spec(contract@, state.nonce, fees, "42"@);
            match transaction_hash_spec(req) {
                None => stop(
                    cycle,
                    state,
                    Outcome::Failed(CycleError::Signing(SignError::InvalidDestination)),
                ),
                Some(digest) => Step {
                    cycle: SyncCycleView {
                        phase: Phase::AwaitingSignature,
                        pending: Some(req),
                        ..cycle
                    },
                    state,
                    action: ActionView::Sign { key_name: "dfx_test_key"@, digest },
                },
            }
        },
    }
}

/// The signature has come: it is checked against the recorded key and the
/// signed transaction goes to the chain.
pub open spec fn on_signature(
    cycle: SyncCycleView,
    config: Config,
    state: State,
    reply: SignatureReply,
) -> Step {
    match (cycle.pending, state.ecdsa_pub_key) {
        (None, _) => stop(cycle, state, Outcome::Failed(CycleError::Unexpected)),
        (Some(_), None) => stop(cycle, state, Outcome::Failed(CycleError::NoPublicKey)),
        (Some(req), Some(key)) => match sign_transaction_spec(req, reply.signature@, key@) {
            Err(e) => stop(cycle, state, Outcome::Failed(CycleError::Signing(e))),
            Ok(raw_tx) => Step {
                cycle: SyncCycleView { phase: Phase::AwaitingReceipt, pending: None, ..cycle },
                state,
                action: ActionView::Send { network: config.evm_network@, raw_tx },
            },
        },
    }
}

/// The block that the last log of the batch came from.
pub open spec fn last_block(logs: Seq<LogEntry>) -> Option<u128> {
    if logs.len() > 0 {
        logs.last().blockNumber
    } else {
        None
    }
}

/// The chain has answered a submission: the nonce follows the answer, and
/// either the next job starts or the cursor moves and the cycle ends.
pub open spec fn on_submitted(
    cycle: SyncCycleView,
    config: Config,
    state: State,
    status: SendRawTransactionStatus,
) -> Step {
    if status == SendRawTransactionStatus::Accepted && state.nonce == u128::MAX {
        stop(cycle, state, Outcome::Failed(CycleError::NonceExhausted))
    } else if cycle.position + 1 < cycle.logs.len() {
        start_job(
            SyncCycleView { position: cycle.position + 1, ..cycle },
            config,
            state.after_submission(status),
        )
    } else {
        let last = last_block(cycle.logs);
        stop(
            cycle,
            state.after_submission(status).after_batch(last),
            if last is Some && last->0 >= state.evm_block_height {
                Outcome::Completed
            } else {
                Outcome::Held
            },
        )
    }
}

/// One move of the machine: what the cycle and the state become on an
/// answer, and what is to be done next.
pub open spec fn step_spec(cycle: SyncCycleView, config: Config, state: State, event: Event) -> Step {
    match (cycle.phase, event) {
        (Phase::AwaitingLogs, Event::Logs(Err(e))) => stop(
            cycle,
            state,
            Outcome::Failed(CycleError::Logs(e)),
        ),
        (Phase::AwaitingLogs, Event::Logs(Ok(logs))) => if logs@.len() == 0 {
            stop(cycle, state, Outcome::NoLogs)
        } else {
            start_job(SyncCycleView { logs: logs@, position: 0, ..cycle }, config, state)
        },
        (Phase::AwaitingFees, Event::FeeHistory(Err(e))) => stop(
            cycle,
            state,
            Outcome::Failed(CycleError::Fees(e)),
        ),
        (Phase::AwaitingFees, Event::FeeHistory(Ok(history))) => on_fee_history(
            cycle,
            config,
            state,
            history,
        ),
        (Phase::AwaitingSignature, Event::Signature(Err(e))) => stop(
            cycle,
            state,
            Outcome::Failed(CycleError::Signer(e)),
        ),
        (Phase::AwaitingSignature, Event::Signature(Ok(reply))) => on_signature(
            cycle,
            config,
            state,
            reply,
        ),
        (Phase::AwaitingReceipt, Event::Submitted(Err(e))) => stop(
            cycle,
            state,
            Outcome::Failed(CycleError::Submission(e)),
        ),
        (Phase::AwaitingReceipt, Event::Submitted(Ok(status))) => on_submitted(
            cycle,
            config,
            state,
            status,
        ),
        _ => stop(cycle, state, Outcome::Failed(CycleError::Unexpected)),
    }
}

impl SyncCycle {
    /// What the cycle waits for.
    pub fn phase(&self) -> (phase: Phase)
        ensures
            phase == self@.phase,
    {
        self.phase
    }

    /// The index, in the batch, of the log that is in work.
    pub fn position(&self) -> (position: usize)
        ensures
            position == self@.position,
    {
        self.position
    }

    /// The number of logs in the batch.
    pub fn batch_len(&self) -> (len: usize)
        ensures
            len == self@.logs.len(),
    {
        self.logs.len()
    }

    /// Starts a cycle. Without a configured contract nothing is asked for;
    /// otherwise the first action asks for the logs from the block after the
    /// cursor.
    pub fn begin(config: &Config, state: &State) -> (res: (SyncCycle, Action))
        ensures
            (res.0@, res.1@) == begin_spec(*config, *state),
    {
        let idle = SyncCycle {
            phase: Phase::Finished,
            logs: Vec::new(),
            position: 0,
            pending: None,
        };
        match &config.evm_contract {
            None => (idle, Action::Done(Outcome::NoContract)),
            Some(contract) => {
                if state.evm_block_height == u128::MAX {
                    (idle, Action::Done(Outcome::CursorExhausted))
                } else {
                    (
                        SyncCycle {
                            phase: Phase::AwaitingLogs,
                            logs: Vec::new(),
                            position: 0,
                            pending: None,
                        },
                        Action::FetchLogs {
                            network: config.evm_network.clone(),
                            contract: contract.clone(),
                            from_block: state.evm_block_height + 1,
                            to_block: BlockTag::Latest,
                        },
                    )
                }
            },
        }
    }

    fn stop(&mut self, outcome: Outcome) -> (action: Action)
        ensures
            final(self)@ == (SyncCycleView { phase: Phase::Finished, pending: None, ..old(self)@ }),
            action@ == ActionView::Done(outcome),
    {
        self.phase = Phase::Finished;
        self.pending = None;
        Action::Done(outcome)
    }

    fn start_job(&mut self, config: &Config, state: &State) -> (action: Action)
        ensures
            final(self)@ == start_job(old(self)@, *config, *state).cycle,
            action@ == start_job(old(self)@, *config, *state).action,
    {
        if self.position < self.logs.len() {
            let id: u64 = job_id(&self.logs[self.position]);
            self.phase = Phase::AwaitingFees;
            self.pending = None;
            Action::FetchFeeHistory {
                network: config.evm_network.clone(),
                block_count: FEE_HISTORY_BLOCKS,
                newest_block: BlockTag::Latest,
                job_id: id,
            }
        } else {
            self.stop(Outcome::Failed(CycleError::Unexpected))
        }
    }

    fn on_fee_history(&mut self, config: &Config, state: &State, history: FeeHistory) -> (action:
        Action)
        ensures
            final(self)@ == on_fee_history(old(self)@, *config, *state, history).cycle,
            action@ == on_fee_history(old(self)@, *config, *state, history).action,
    {
        if self.position >= self.logs.len() {
            return self.stop(Outcome::Failed(CycleError::Unexpected));
        }
        let id: u64 = job_id(&self.logs[self.position]);
        let fees = match estimate_fees(&history) {
            Some(fees) => fees,
            None => {
                return self.stop(Outcome::Failed(CycleError::NoBaseFee));
            },
        };
        let contract: &String = match &config.evm_contract {
            Some(contract) => contract,
            None => {
                return self.stop(Outcome::Failed(CycleError::NoContract));
            },
        };
        let result: String = process_job(id);
        let req: SignRequest = callback_request(contract, state.nonce, fees, result.as_str());
        match transaction_hash(&req) {
            Ok(digest) => {
                self.phase = Phase::AwaitingSignature;
                self.pending = Some(req);
                Action::Sign { key_name: signing_key_name(), digest }
            },
            Err(e) => self.stop(Outcome::Failed(CycleError::Signing(e))),
        }
    }

    fn on_signature(&mut self, config: &Config, state: &State, reply: SignatureReply) -> (action:
        Action)
        ensures
            final(self)@ == on_signature(old(self)@, *config, *state, reply).cycle,
            action@ == on_signature(old(self)@, *config, *state, reply).action,
    {
        let req: SignRequest = match self.pending.take() {
            Some(req) => req,
            None => {
                return self.stop(Outcome::Failed(CycleError::Unexpected));
            },
        };
        let key: &Vec<u8> = match &state.ecdsa_pub_key {
            Some(key) => key,
            None => {
                return self.stop(Outcome::Failed(CycleError::NoPublicKey));
            },
        };
        match sign_transaction(&req, reply.signature.as_slice(), key.as_slice()) {
            Ok(raw_tx) => {
                self.phase = Phase::AwaitingReceipt;
                Action::Send { network: config.evm_network.clone(), raw_tx }
            },
            Err(e) => self.stop(Outcome::Failed(CycleError::Signing(e))),
        }
    }

    fn on_submitted(
        &mut self,
        config: &Config,
        state: &mut State,
        status: SendRawTransactionStatus,
    ) -> (action: Action)
        ensures
            final(self)@ == on_submitted(old(self)@, *config, *old(state), status).cycle,
            *final(state) == on_submitted(old(self)@, *config, *old(state), status).state,
            action@ == on_submitted(old(self)@, *config, *old(state), status).action,
    {
        if status == SendRawTransactionStatus::Accepted && state.nonce == u128::MAX {
            return self.stop(Outcome::Failed(CycleError::NonceExhausted));
        }
        state.record_submission(status);
        if self.position < usize::MAX && self.position + 1 < self.logs.len() {
            self.position = self.position + 1;
            self.start_job(config, state)
        } else {
            let n: usize = self.logs.len();
            let last: Option<u128> = if n > 0 {
                self.logs[n - 1].blockNumber
            } else {
                None
            };
            let reached: bool = state.advance_cursor(last);
            self.stop(
                if reached {
                    Outcome::Completed
                } else {
                    Outcome::Held
                },
            )
        }
    }

    /// Takes the answer to the last action and says what to do next. An
    /// answer that the cycle does not wait for ends it, as does every
    /// failure; the cursor then stays where it is.
    pub fn step(&mut self, config: &Config, state: &mut State, event: Event) -> (action: Action)
        ensures
            final(self)@ == step_spec(old(self)@, *config, *old(state), event).cycle,
            *final(state) == step_spec(old(self)@, *config, *old(state), event).state,
            action@ == step_spec(old(self)@, *config, *old(state), event).action,
    {
        match (self.phase, event) {
            (Phase::AwaitingLogs, Event::Logs(Err(e))) => self.stop(
                Outcome::Failed(CycleError::Logs(e)),
            ),
            (Phase::AwaitingLogs, Event::Logs(Ok(logs))) => {
                if logs.len() == 0 {
                    self.stop(Outcome::NoLogs)
                } else {
                    self.logs = logs;
                    self.position = 0;
                    self.start_job(config, state)
                }
            },
            (Phase::AwaitingFees, Event::FeeHistory(Err(e))) => self.stop(
                Outcome::Failed(CycleError::Fees(e)),
            ),
            (Phase::AwaitingFees, Event::FeeHistory(Ok(history))) => self.on_fee_history(
                config,
                state,
                history,
            ),
            (Phase::AwaitingSignature, Event::Signature(Err(e))) => self.stop(
                Outcome::Failed(CycleError::Signer(e)),
            ),
            (Phase::AwaitingSignature, Event::Signature(Ok(reply))) => self.on_signature(
                config,
                state,
                reply,
            ),
            (Phase::AwaitingReceipt, Event::Submitted(Err(e))) => self.stop(
                Outcome::Failed(CycleError::Submission(e)),
            ),
            (Phase::AwaitingReceipt, Event::Submitted(Ok(status))) => self.on_submitted(
                config,
                state,
                status,
            ),
            _ => self.stop(Outcome::Failed(CycleError::Unexpected)),
        }
    }
}


/// Whether an answer tells a waiting cycle that the chain accepted its
/// transaction.
pub open spec fn is_acceptance(cycle: SyncCycleView, event: Event) -> bool {
    cycle.phase == Phase::AwaitingReceipt && event matches Event::Submitted(
        Ok(SendRawTransactionStatus::Accepted),
    )
}

/// The nonce goes up by one on an accepted submission and on nothing else:
/// not on a refusal, not on a failure, not on any other answer. It cannot go
/// up from the largest number that fits; the cycle is given up there.
pub proof fn lemma_nonce_counts_acceptances(
    cycle: SyncCycleView,
    config: Config,
    state: State,
    event: Event,
)
    ensures
        step_spec(cycle, config, state, event).state.nonce == if is_acceptance(cycle, event)
            && state.nonce < u128::MAX {
            state.nonce + 1
        } else {
            state.nonce as int
        },
{
}

/// No move takes the cursor back, lowers the nonce, or touches the recorded
/// key and address.
pub proof fn lemma_step_keeps_order(
    cycle: SyncCycleView,
    config: Config,
    state: State,
    event: Event,
)
    ensures
        step_spec(cycle, config, state, event).state.evm_block_height >= state.evm_block_height,
        step_spec(cycle, config, state, event).state.nonce >= state.nonce,
        step_spec(cycle, config, state, event).state.ecdsa_pub_key == state.ecdsa_pub_key,
        step_spec(cycle, config, state, event).state.evm_address == state.evm_address,
{
}

/// One move of some cycle under some configuration.
pub struct Move {
    pub cycle: SyncCycleView,
    pub config: Config,
    pub event: Event,
}

/// The state after a sequence of moves, which may belong to any number of
/// cycles in any interleaving.
pub open spec fn replay(state: State, moves: Seq<Move>) -> State
    decreases moves.len(),
{
    if moves.len() == 0 {
        state
    } else {
        step_spec(
            moves.last().cycle,
            moves.last().config,
            replay(state, moves.drop_last()),
            moves.last().event,
        ).state
    }
}

/// Over any sequence of moves the cursor and the nonce never go down, and
/// the recorded key and address stay what they were.
pub proof fn lemma_cursor_never_decreases(state: State, moves: Seq<Move>)
    ensures
        replay(state, moves).evm_block_height >= state.evm_block_height,
        replay(state, moves).nonce >= state.nonce,
        replay(state, moves).ecdsa_pub_key == state.ecdsa_pub_key,
        replay(state, moves).evm_address == state.evm_address,
    decreases moves.len(),
{
    if moves.len() > 0 {
        lemma_cursor_never_decreases(state, moves.drop_last());
        lemma_step_keeps_order(
            moves.last().cycle,
            moves.last().config,
            replay(state, moves.drop_last()),
            moves.last().event,
        );
    }
}

/// When the chain has answered the submission for the last log of a batch,
/// the cursor stands at that log's block, whatever the answer was, provided
/// the log names a block that is not before the cursor.
pub proof fn lemma_cursor_follows_last_log(
    cycle: SyncCycleView,
    config: Config,
    state: State,
    status: SendRawTransactionStatus,
    block: u128,
)
    requires
        cycle.phase == Phase::AwaitingReceipt,
        cycle.logs.len() > 0,
        cycle.position + 1 >= cycle.logs.len(),
        cycle.logs.last().blockNumber == Some(block),
        block >= state.evm_block_height,
        !(status == SendRawTransactionStatus::Accepted && state.nonce == u128::MAX),
    ensures
        step_spec(cycle, config, state, Event::Submitted(Ok(status))).state.evm_block_height
            == block,
        step_spec(cycle, config, state, Event::Submitted(Ok(status))).action == ActionView::Done(
            Outcome::Completed,
        ),
{
}

/// A cycle that is given up leaves the cursor where it was.
pub proof fn lemma_failure_keeps_cursor(
    cycle: SyncCycleView,
    config: Config,
    state: State,
    event: Event,
)
    requires
        step_spec(cycle, config, state, event).action matches ActionView::Done(Outcome::Failed(_)),
    ensures
        step_spec(cycle, config, state, event).state.evm_block_height == state.evm_block_height,
{
}

/// With a contract configured, a cycle begins by asking for the logs from
/// the block after the cursor to the newest one. Only at the highest block
/// there can be is there no block after the cursor to ask from.
pub proof fn lemma_fetch_starts_after_cursor(config: Config, state: State)
    requires
        config.evm_contract is Some,
        state.evm_block_height < u128::MAX,
    ensures
        begin_spec(config, state).0.phase == Phase::AwaitingLogs,
        begin_spec(config, state).1 == (ActionView::FetchLogs {
            network: config.evm_network@,
            contract: config.evm_contract->0@,
            from_block: (state.evm_block_height + 1) as u128,
            to_block: BlockTag::Latest,
        }),
{
}

/// Logs are asked for only at the beginning of a cycle, and only if a
/// contract is configured.
pub proof fn lemma_no_contract_no_fetch(
    cycle: SyncCycleView,
    config: Config,
    state: State,
    event: Event,
)
    ensures
        config.evm_contract is None ==> begin_spec(config, state).1 == ActionView::Done(
            Outcome::NoContract,
        ),
        !(step_spec(cycle, config, state, event).action is FetchLogs),
{
}

} // verus!
