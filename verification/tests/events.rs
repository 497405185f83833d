//! The handlers for consensus events, the turns of the service, and bids.

use std::time::Instant;

use builder_core::bid::{bid_outcome, from_bid_config, signed_bid, BidConfig};
use builder_core::builder_state::TransactionSource;
use builder_core::commitment::{BuilderCommitment, TxCommitment, VidCommitment};
use builder_core::driver::{
    dispatch, run_non_permissioned_standalone_builder_service,
    run_permissioned_standalone_builder_service, ConsensusEvent, ReconnectPolicy, ServiceAction,
    ServiceInput, ServiceState,
};
use builder_core::error::BuildError;
use builder_core::events::{
    da_proposal_digest, handle_da_event, handle_decide_event, handle_qc_event,
    handle_received_txns, handle_view_finished, node_count,
};
use builder_core::types::{BuilderTransaction, BuilderTypes};
use ethers::types::U256;
use url::Url;

#[derive(Clone, Debug, PartialEq)]
struct Tx {
    namespace: u64,
    tag: u8,
}

impl BuilderTransaction for Tx {
    fn namespace(&self) -> u64 {
        self.namespace
    }

    fn commitment(&self) -> TxCommitment {
        self.commit()
    }

    fn size(&self) -> u64 {
        1
    }

    fn namespace_id(&self) -> u64 {
        self.namespace
    }

    fn commit(&self) -> TxCommitment {
        TxCommitment::from_bytes([self.tag; 32])
    }

    fn encoded_len(&self) -> u64 {
        1
    }
}

struct Types;

impl BuilderTypes for Types {
    type Transaction = Tx;
    type BlockPayload = Vec<u8>;
    type Metadata = u32;
    type Message = u8;
    type SignatureKey = &'static str;
    type BuilderSignatureKey = u64;
    type BuilderPrivateKey = u64;
    type BuilderSignature = u64;
}

fn commit(tag: u8) -> TxCommitment {
    TxCommitment::from_bytes([tag; 32])
}

fn txns() -> Vec<Tx> {
    vec![
        Tx { namespace: 1, tag: 10 },
        Tx { namespace: 2, tag: 20 },
        Tx { namespace: 1, tag: 30 },
        Tx { namespace: 3, tag: 40 },
    ]
}

fn hex(bytes: &[u8]) -> String {
    bytes.iter().map(|b| format!("{b:02x}")).collect()
}

#[test]
fn received_transactions_of_other_namespaces_are_dropped() {
    let now = Instant::now();
    let (received, commitments) =
        handle_received_txns::<Types>(txns(), TransactionSource::HotShot, Some(1), now);
    assert_eq!(commitments, vec![commit(10), commit(30)]);
    assert_eq!(received.len(), 2);
    assert_eq!(received[0].tx.tag, 10);
    assert_eq!(received[1].tx.tag, 30);
    assert!(received.iter().all(|r| r.source == TransactionSource::HotShot && r.time_in == now));
    assert!(received.iter().all(|r| r.commit == r.tx.commit()));
}

#[test]
fn a_builder_without_namespace_takes_every_transaction() {
    let (received, commitments) =
        handle_received_txns::<Types>(txns(), TransactionSource::External, None, Instant::now());
    assert_eq!(commitments, vec![commit(10), commit(20), commit(30), commit(40)]);
    assert_eq!(received.len(), 4);
    let (received, commitments) =
        handle_received_txns::<Types>(vec![], TransactionSource::External, Some(1), Instant::now());
    assert!(received.is_empty());
    assert!(commitments.is_empty());
}

#[test]
fn the_digest_of_a_proposal_is_its_sha256() {
    assert_eq!(
        hex(&da_proposal_digest(&vec![])),
        "e3b0c44298fc1c149afbf4c8996fb92427ae41e4649b934ca495991b7852b855"
    );
    assert_eq!(
        hex(&da_proposal_digest(&b"abc".to_vec())),
        "ba7816bf8f01cfea414140de5dae2223b00361a396177a9cb410ff61f20015ad"
    );
}

#[test]
fn a_proposal_from_the_leader_becomes_a_message() {
    let message = handle_da_event::<Types>(
        6,
        &txns(),
        BuilderCommitment::from_bytes([9; 32]),
        "leader",
        true,
        true,
        4,
        None,
    )
    .unwrap();
    assert_eq!(message.view_number, 6);
    assert_eq!(message.txn_commitments, vec![commit(10), commit(20), commit(30), commit(40)]);
    assert_eq!(message.num_nodes, 4);
    assert_eq!(message.sender, "leader");
    assert_eq!(message.builder_commitment, BuilderCommitment::from_bytes([9; 32]));
}

#[test]
fn a_proposal_names_the_transactions_of_the_builders_namespace() {
    let message = handle_da_event::<Types>(
        6,
        &txns(),
        BuilderCommitment::from_bytes([9; 32]),
        "leader",
        true,
        true,
        4,
        Some(1),
    )
    .unwrap();
    assert_eq!(message.txn_commitments, vec![commit(10), commit(30)]);
}

#[test]
fn a_proposal_without_transactions_of_the_namespace_names_none() {
    let message = handle_da_event::<Types>(
        6,
        &txns(),
        BuilderCommitment::from_bytes([9; 32]),
        "leader",
        true,
        true,
        4,
        Some(9),
    )
    .unwrap();
    assert!(message.txn_commitments.is_empty());
    let own = handle_da_event::<Types>(
        6,
        &vec![Tx { namespace: 3, tag: 40 }],
        BuilderCommitment::from_bytes([9; 32]),
        "leader",
        true,
        true,
        4,
        Some(3),
    )
    .unwrap();
    assert_eq!(own.txn_commitments, vec![commit(40)]);
}

#[test]
fn a_proposal_that_fails_a_check_is_dropped() {
    for (is_leader, valid) in [(false, true), (true, false), (false, false)] {
        assert!(handle_da_event::<Types>(
            6,
            &txns(),
            BuilderCommitment::from_bytes([9; 32]),
            "sender",
            is_leader,
            valid,
            4,
            None,
        )
        .is_none());
        assert!(handle_qc_event::<Types>(
            6,
            VidCommitment::from_bytes([1; 32]),
            BuilderCommitment::from_bytes([9; 32]),
            "sender",
            is_leader,
            valid,
        )
        .is_none());
    }
}

#[test]
fn a_quorum_proposal_from_the_leader_becomes_a_message() {
    let message = handle_qc_event::<Types>(
        6,
        VidCommitment::from_bytes([1; 32]),
        BuilderCommitment::from_bytes([9; 32]),
        "leader",
        true,
        true,
    )
    .unwrap();
    assert_eq!(message.view_number, 6);
    assert_eq!(message.payload_commitment, VidCommitment::from_bytes([1; 32]));
    assert_eq!(message.builder_commitment, BuilderCommitment::from_bytes([9; 32]));
    assert_eq!(message.sender, "leader");
}

#[test]
fn a_decide_names_its_view() {
    assert_eq!(handle_decide_event(12).latest_decide_view_number, 12);
}

#[test]
fn a_bid_runs_three_views_ahead() {
    assert_eq!(handle_view_finished(0), 3);
    assert_eq!(handle_view_finished(5), 8);
    assert_eq!(handle_view_finished(u64::MAX - 3), u64::MAX);
}

#[test]
fn events_go_to_their_handlers() {
    assert_eq!(dispatch(&ConsensusEvent::Error), ServiceAction::Continue);
    assert_eq!(dispatch(&ConsensusEvent::Other), ServiceAction::Continue);
    assert_eq!(dispatch(&ConsensusEvent::Transactions), ServiceAction::HandleTransactions);
    assert_eq!(dispatch(&ConsensusEvent::DaProposal), ServiceAction::HandleDaProposal);
    assert_eq!(dispatch(&ConsensusEvent::QuorumProposal), ServiceAction::HandleQuorumProposal);
    assert_eq!(
        dispatch(&ConsensusEvent::Decide { leaf_views: vec![9, 8, 7] }),
        ServiceAction::Decide { view: 9 }
    );
    assert_eq!(dispatch(&ConsensusEvent::Decide { leaf_views: vec![] }), ServiceAction::Continue);
    assert_eq!(
        dispatch(&ConsensusEvent::ViewFinished { view_number: 4 }),
        ServiceAction::SubmitBid { view: 7 }
    );
    assert_eq!(
        dispatch(&ConsensusEvent::ViewFinished { view_number: u64::MAX - 3 }),
        ServiceAction::SubmitBid { view: u64::MAX }
    );
    assert_eq!(
        dispatch(&ConsensusEvent::ViewFinished { view_number: u64::MAX - 2 }),
        ServiceAction::Continue
    );
}

#[test]
fn the_wait_doubles_up_to_the_cap() {
    let policy = ReconnectPolicy { max_attempts: None, base_delay: 100, max_delay: 1000 };
    assert_eq!(policy.delay(0), 0);
    assert_eq!(policy.delay(1), 100);
    assert_eq!(policy.delay(2), 200);
    assert_eq!(policy.delay(3), 400);
    assert_eq!(policy.delay(4), 800);
    assert_eq!(policy.delay(5), 1000);
    assert_eq!(policy.delay(6), 1000);
    assert_eq!(policy.delay(200), 1000);
    assert_eq!(policy.delay(u32::MAX), 1000);
    let exact = ReconnectPolicy { max_attempts: None, base_delay: 125, max_delay: 1000 };
    assert_eq!(exact.delay(4), 1000);
    assert_eq!(exact.delay(5), 1000);
    let steep = ReconnectPolicy { max_attempts: None, base_delay: 5000, max_delay: 1000 };
    assert_eq!(steep.delay(0), 0);
    assert_eq!(steep.delay(1), 1000);
    let none = ReconnectPolicy { max_attempts: None, base_delay: 0, max_delay: 1000 };
    assert_eq!(none.delay(70), 0);
    let wide = ReconnectPolicy { max_attempts: None, base_delay: 1, max_delay: u64::MAX };
    assert_eq!(wide.delay(64), 1 << 63);
    assert_eq!(wide.delay(65), u64::MAX);
}

#[test]
fn a_lost_stream_is_taken_up_again() {
    let policy = ReconnectPolicy { max_attempts: Some(3), base_delay: 100, max_delay: 150 };
    let mut state = ServiceState::Running;
    let turn = run_non_permissioned_standalone_builder_service;
    assert_eq!(
        turn(&policy, &mut state, ServiceInput::StreamError),
        ServiceAction::Continue
    );
    assert_eq!(state, ServiceState::Running);
    assert_eq!(
        turn(&policy, &mut state, ServiceInput::StreamEnded),
        ServiceAction::Reconnect { delay: 0 }
    );
    assert_eq!(state, ServiceState::Reconnecting { failures: 0 });
    assert_eq!(
        turn(&policy, &mut state, ServiceInput::ReconnectFailed),
        ServiceAction::Reconnect { delay: 100 }
    );
    assert_eq!(
        turn(&policy, &mut state, ServiceInput::ReconnectFailed),
        ServiceAction::Reconnect { delay: 150 }
    );
    assert_eq!(state, ServiceState::Reconnecting { failures: 2 });
    assert_eq!(turn(&policy, &mut state, ServiceInput::Reconnected), ServiceAction::Continue);
    assert_eq!(state, ServiceState::Running);
    assert_eq!(
        turn(
            &policy,
            &mut state,
            ServiceInput::Event { event: ConsensusEvent::Decide { leaf_views: vec![3] } }
        ),
        ServiceAction::Decide { view: 3 }
    );
}

#[test]
fn the_service_stops_when_the_policy_gives_up() {
    let once = ReconnectPolicy { max_attempts: Some(1), base_delay: 100, max_delay: 1000 };
    let mut state = ServiceState::Running;
    let turn = run_non_permissioned_standalone_builder_service;
    turn(&once, &mut state, ServiceInput::StreamEnded);
    assert_eq!(
        turn(&once, &mut state, ServiceInput::ReconnectFailed),
        ServiceAction::Stop { error: BuildError::EventStreamLost }
    );
    assert_eq!(state, ServiceState::Stopped);
    // A stopped service does nothing more.
    assert_eq!(
        turn(&once, &mut state, ServiceInput::Event { event: ConsensusEvent::Transactions }),
        ServiceAction::Continue
    );
    assert_eq!(turn(&once, &mut state, ServiceInput::StreamEnded), ServiceAction::Continue);
    assert_eq!(state, ServiceState::Stopped);

    let thrice = ReconnectPolicy { max_attempts: Some(3), base_delay: 1, max_delay: 10 };
    let mut state = ServiceState::Reconnecting { failures: 1 };
    assert_eq!(
        turn(&thrice, &mut state, ServiceInput::ReconnectFailed),
        ServiceAction::Reconnect { delay: 2 }
    );
    assert_eq!(
        turn(&thrice, &mut state, ServiceInput::ReconnectFailed),
        ServiceAction::Stop { error: BuildError::EventStreamLost }
    );

    let forever = ReconnectPolicy { max_attempts: None, base_delay: 1, max_delay: 10 };
    let mut state = ServiceState::Reconnecting { failures: 1000 };
    assert_eq!(
        turn(&forever, &mut state, ServiceInput::ReconnectFailed),
        ServiceAction::Reconnect { delay: 10 }
    );
    assert_eq!(state, ServiceState::Reconnecting { failures: 1001 });
}

#[test]
fn a_node_only_notes_a_read_without_event() {
    let mut state = ServiceState::Running;
    assert_eq!(
        run_permissioned_standalone_builder_service(&mut state, ServiceInput::StreamEnded),
        ServiceAction::Continue
    );
    assert_eq!(state, ServiceState::Running);
    assert_eq!(
        run_permissioned_standalone_builder_service(
            &mut state,
            ServiceInput::Event { event: ConsensusEvent::ViewFinished { view_number: 1 } }
        ),
        ServiceAction::SubmitBid { view: 4 }
    );
    assert_eq!(
        run_permissioned_standalone_builder_service(
            &mut state,
            ServiceInput::Event { event: ConsensusEvent::QuorumProposal }
        ),
        ServiceAction::HandleQuorumProposal
    );
}

#[test]
fn a_bid_is_made_from_its_configuration() {
    let config = BidConfig::new([4; 32], 2, U256::from(1_000_000u64));
    assert_eq!(config.account_seed(), [4; 32]);
    assert_eq!(config.account_index(), 2);
    assert_eq!(config.bid_amount(), U256::from(1_000_000u64));
    let url = Url::parse("https://bids.example/").unwrap();
    let body = from_bid_config(config, "account", 8, url.clone(), 77);
    assert_eq!(body.account, "account");
    assert_eq!(body.bid_amount, U256::from(1_000_000u64));
    assert_eq!(body.view, 8);
    assert_eq!(body.namespaces, vec![77u64]);
    assert_eq!(body.url, url);

    let bid = signed_bid(body, Some("signature")).ok().unwrap();
    assert_eq!(bid.signature, "signature");
    assert_eq!(bid.body.view, 8);
    assert_eq!(bid.body.namespaces, vec![77u64]);

    let unsigned = from_bid_config(config, "account", 9, url, u32::MAX);
    assert_eq!(unsigned.namespaces, vec![u32::MAX as u64]);
    assert_eq!(signed_bid(unsigned, None::<u8>).err(), Some(BuildError::BidSigningFailed));
}

#[test]
fn a_bid_is_placed_when_the_solver_takes_it() {
    assert_eq!(bid_outcome(true, true), Ok(()));
    assert_eq!(bid_outcome(true, false), Err(BuildError::BidSubmissionFailed));
    assert_eq!(bid_outcome(false, true), Err(BuildError::SolverUnreachable));
    assert_eq!(bid_outcome(false, false), Err(BuildError::SolverUnreachable));
}

#[test]
fn a_committee_without_stake_counts_as_one_node() {
    assert_eq!(node_count(0), 1);
    assert_eq!(node_count(1), 1);
    assert_eq!(node_count(7), 7);
    assert_eq!(node_count(usize::MAX), usize::MAX);
}
