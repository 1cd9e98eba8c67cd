use shared_sdk::kinds::{Builder, TxType};

const KINDS: [TxType; 8] = [
    TxType::Bond,
    TxType::Unbond,
    TxType::Withdraw,
    TxType::Transfer,
    TxType::IBCTransfer,
    TxType::EthBridgeTransfer,
    TxType::RevealPK,
    TxType::VoteProposal,
];

#[test]
fn codes_run_from_one_to_eight_in_order() {
    let codes: Vec<u8> = KINDS.iter().map(|k| k.code()).collect();
    assert_eq!(codes, vec![1, 2, 3, 4, 5, 6, 7, 8]);
}

#[test]
fn a_kind_is_found_again_from_its_code() {
    for kind in KINDS {
        assert_eq!(TxType::from_code(kind.code()), Some(kind));
    }
}

#[test]
fn numbers_outside_the_kinds_stand_for_none() {
    assert_eq!(TxType::from_code(0), None);
    assert_eq!(TxType::from_code(9), None);
    assert_eq!(TxType::from_code(255), None);
}

#[test]
fn each_kind_selects_its_own_builder() {
    assert_eq!(TxType::Bond.builder(), Builder::Bond);
    assert_eq!(TxType::Unbond.builder(), Builder::Unbond);
    assert_eq!(TxType::Withdraw.builder(), Builder::Withdraw);
    assert_eq!(TxType::Transfer.builder(), Builder::Transfer);
    assert_eq!(TxType::IBCTransfer.builder(), Builder::IbcTransfer);
    assert_eq!(TxType::EthBridgeTransfer.builder(), Builder::BridgePool);
    assert_eq!(TxType::RevealPK.builder(), Builder::RevealPk);
    assert_eq!(TxType::VoteProposal.builder(), Builder::VoteProposal);
}

#[test]
fn builders_and_kinds_correspond_one_to_one() {
    for kind in KINDS {
        assert_eq!(kind.builder().kind(), kind);
    }
    for (i, a) in KINDS.iter().enumerate() {
        for (j, b) in KINDS.iter().enumerate() {
            assert_eq!(a.builder() == b.builder(), i == j);
        }
    }
}

#[test]
fn only_the_reveal_builder_takes_no_payload() {
    for kind in KINDS {
        assert_eq!(kind.builder().takes_payload(), kind != TxType::RevealPK);
    }
}

#[test]
fn only_the_vote_builder_needs_the_epoch() {
    for kind in KINDS {
        assert_eq!(kind.builder().needs_epoch(), kind == TxType::VoteProposal);
    }
}
