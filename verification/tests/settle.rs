use near_trust::hashlock::bytes_equal;
use near_trust::{AssetKind, Contract, EscrowError, Transfer, GAS, TRANSFER_DEPOSIT};

fn text(s: &str) -> String {
    s.to_string()
}

fn stocked() -> Contract {
    let mut store = Contract::new(false).unwrap();
    store.send_near(text("id"), text("bob"), 500);
    store.nft_on_transfer(text("art.near"), text("bob"), text("bob"), text("item-1"), text("id"));
    store.ft_on_transfer(text("token.near"), text("bob"), 100, text("id"));
    store
}

#[test]
fn settle_releases_the_record_of_the_kind() {
    let digest = vec![1u8, 2, 3];
    let mut store = stocked();
    assert_eq!(
        store.settle(text("id"), &digest.clone(), &digest, 1, text("alice")),
        Ok(Transfer::Native { receiver_id: text("alice"), amount: 500 })
    );
    assert_eq!(
        store.settle(text("id"), &digest.clone(), &digest, 2, text("alice")),
        Ok(Transfer::NonFungible {
            nft_contract_id: text("art.near"),
            receiver_id: text("alice"),
            token_id: text("item-1"),
        })
    );
    assert_eq!(
        store.settle(text("id"), &digest.clone(), &digest, 3, text("alice")),
        Ok(Transfer::Fungible { ft_contract_id: text("token.near"), receiver_id: text("alice"), amount: 100 })
    );
    for kind in [1u8, 2, 3] {
        assert_eq!(
            store.settle(text("id"), &digest.clone(), &digest, kind, text("alice")),
            Err(EscrowError::UnknownCommitment)
        );
    }
}

#[test]
fn settle_compares_digest_and_commitment_byte_for_byte() {
    let mut store = stocked();
    let commitment = vec![1u8, 2, 3];
    for digest in [vec![], vec![1u8, 2], vec![1u8, 2, 4], vec![0u8, 2, 3], vec![1u8, 2, 3, 0]] {
        for kind in [1u8, 2, 3, 9] {
            assert_eq!(
                store.settle(text("id"), &commitment, &digest, kind, text("alice")),
                Err(EscrowError::InvalidProof)
            );
        }
    }
    assert!(store.get_request(text("id")).is_some());
    assert!(store.get_nft_transfers(text("id")).is_some());
    assert!(store.get_ft_transfers(text("id")).is_some());
    assert!(store.settle(text("id"), &vec![], &vec![], 1, text("alice")).is_ok());
}

#[test]
fn settle_rejects_a_kind_before_it_looks_for_a_record() {
    let mut store = Contract::new(false).unwrap();
    let digest = vec![7u8; 32];
    assert_eq!(
        store.settle(text("id"), &digest.clone(), &digest, 0, text("alice")),
        Err(EscrowError::UnsupportedKind)
    );
    assert_eq!(
        store.settle(text("id"), &digest.clone(), &digest, 4, text("alice")),
        Err(EscrowError::UnsupportedKind)
    );
    assert_eq!(
        store.settle(text("id"), &digest.clone(), &digest, 1, text("alice")),
        Err(EscrowError::UnknownCommitment)
    );
}

#[test]
fn bytes_are_equal_when_every_byte_is() {
    assert!(bytes_equal(&vec![], &vec![]));
    assert!(bytes_equal(&vec![0u8, 255, 7], &vec![0u8, 255, 7]));
    assert!(!bytes_equal(&vec![0u8, 255, 7], &vec![0u8, 255]));
    assert!(!bytes_equal(&vec![0u8, 255], &vec![0u8, 255, 7]));
    assert!(!bytes_equal(&vec![0u8, 255, 7], &vec![0u8, 255, 8]));
    assert!(!bytes_equal(&vec![1u8, 255, 7], &vec![0u8, 255, 7]));
    assert!(!bytes_equal(&vec![], &vec![0u8]));
}

#[test]
fn kinds_are_one_two_three() {
    assert_eq!(AssetKind::from_code(1), Some(AssetKind::Native));
    assert_eq!(AssetKind::from_code(2), Some(AssetKind::NonFungible));
    assert_eq!(AssetKind::from_code(3), Some(AssetKind::Fungible));
    for code in [0u8, 4, 9, 255] {
        assert_eq!(AssetKind::from_code(code), None);
    }
}

#[test]
fn each_error_has_its_message() {
    assert_eq!(EscrowError::MalformedEncoding.message(), "Malformed encoding");
    assert_eq!(EscrowError::InvalidProof.message(), "Incorrect key");
    assert_eq!(EscrowError::UnknownCommitment.message(), "Unknown commitment");
    assert_eq!(EscrowError::UnsupportedKind.message(), "Unsupported kind");
    assert_eq!(EscrowError::AlreadyInitialized.message(), "Already initialized");
}

#[test]
fn outbound_calls_carry_ten_teragas_and_one_yocto() {
    assert_eq!(GAS, 10_000_000_000_000);
    assert_eq!(TRANSFER_DEPOSIT, 1);
}
