//! Fingerprints and the status of errors.

use builder_core::commitment::{digest_eq, BuilderCommitment, TxCommitment, VidCommitment};
use builder_core::error::BuildError;
use builder_core::view_map::{BlockId, BuilderStateId};

#[test]
fn fingerprints_are_equal_when_their_bytes_are() {
    let mut bytes = [7u8; 32];
    assert_eq!(VidCommitment::from_bytes(bytes), VidCommitment::from_bytes([7; 32]));
    assert_eq!(*BuilderCommitment::from_bytes(bytes).as_bytes(), bytes);
    bytes[31] = 8;
    assert_ne!(VidCommitment::from_bytes(bytes), VidCommitment::from_bytes([7; 32]));
    assert_ne!(BuilderCommitment::from_bytes(bytes), BuilderCommitment::from_bytes([7; 32]));
    assert_ne!(TxCommitment::from_bytes(bytes), TxCommitment::from_bytes([7; 32]));
    bytes[31] = 7;
    bytes[0] = 0;
    assert!(!digest_eq(&bytes, &[7; 32]));
    assert!(digest_eq(&[7; 32], &[7; 32]));
}

#[test]
fn keys_differ_by_view_and_by_fingerprint() {
    let a = BuilderStateId { parent_commitment: VidCommitment::from_bytes([1; 32]), view: 1 };
    let b = BuilderStateId { parent_commitment: VidCommitment::from_bytes([1; 32]), view: 2 };
    let c = BuilderStateId { parent_commitment: VidCommitment::from_bytes([2; 32]), view: 1 };
    assert_eq!(a, a);
    assert_ne!(a, b);
    assert_ne!(a, c);
    let x = BlockId { hash: BuilderCommitment::from_bytes([1; 32]), view: 1 };
    let y = BlockId { hash: BuilderCommitment::from_bytes([1; 32]), view: 2 };
    assert_eq!(x, x);
    assert_ne!(x, y);
}

#[test]
fn errors_map_to_status_codes() {
    assert_eq!(BuildError::InvalidSignature.status_code(), 400);
    assert_eq!(BuildError::BlockNotFound.status_code(), 404);
    assert_eq!(BuildError::ViewAlreadyDecided.status_code(), 404);
    assert_eq!(BuildError::NoBlocksAvailable.status_code(), 504);
    assert_eq!(BuildError::NoBuilderState.status_code(), 500);
    assert_eq!(BuildError::ChannelClosed.status_code(), 500);
    assert_eq!(BuildError::SigningFailed.status_code(), 500);
    assert_eq!(BuildError::BidSigningFailed.status_code(), 500);
    assert_eq!(BuildError::BidSubmissionFailed.status_code(), 500);
    assert_eq!(BuildError::SolverUnreachable.status_code(), 500);
    assert_eq!(BuildError::EventStreamLost.status_code(), 500);
}

#[test]
fn errors_have_messages() {
    assert_eq!(BuildError::NoBlocksAvailable.message(), "No blocks available");
    assert_eq!(BuildError::BlockNotFound.message(), "Block data not found");
    assert_eq!(BuildError::NoBuilderState.message(), "No builder state found");
    assert_eq!(BuildError::ChannelClosed.message(), "channel unexpectedly closed");
    assert_eq!(
        BuildError::ViewAlreadyDecided.message(),
        "Request for available blocks for a view that has already been decided."
    );
    assert_eq!(BuildError::InvalidSignature.message(), "Signature validation failed");
    assert_eq!(BuildError::SigningFailed.message(), "Signing over the response failed");
    assert_eq!(BuildError::BidSigningFailed.message(), "Failed to sign the bid");
    assert_eq!(BuildError::BidSubmissionFailed.message(), "Failed to submit the bid");
    assert_eq!(
        BuildError::SolverUnreachable.message(),
        "Failed to connect to the solver service."
    );
    assert_eq!(
        BuildError::EventStreamLost.message(),
        "failed to reconnect to the events service"
    );
}
