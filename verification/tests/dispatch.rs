use shared_sdk::dispatch::BuildTx;
use shared_sdk::error::{Payload, SdkError};
use shared_sdk::flow::{Effect, Next, Reply};
use shared_sdk::kinds::{Builder, TxType};
use shared_sdk::sdk::Sdk;
use shared_sdk::tx::{BuiltTx, SigningData};

const KINDS: [TxType; 8] = [
    TxType::Bond,
    TxType::Unbond,
    TxType::Withdraw,
    TxType::Transfer,
    TxType::IBCTransfer,
    TxType::EthBridgeTransfer,
    TxType::RevealPK,
    TxType::VoteProposal,
];

fn sdk() -> Sdk {
    Sdk::new(String::from("http://localhost:27657"))
}

fn built() -> BuiltTx {
    BuiltTx::new(
        vec![1, 2, 3],
        SigningData {
            owner: Some(b"addr0".to_vec()),
            public_keys: vec![b"pk0".to_vec()],
            threshold: 1,
            account_public_keys_map: Some(vec![9]),
            fee_payer: b"pk0".to_vec(),
        },
    )
}

/// The shared arguments, decoded: they declare two signing keys.
fn args() -> Reply {
    Reply::Args { signing_keys: vec![b"pk0".to_vec(), b"pk1".to_vec()] }
}

/// Steps a build with the replies in turn and collects what it says.
fn run(flow: BuildTx, replies: Vec<Reply>) -> (BuildTx, Vec<Next<BuiltTx>>) {
    let mut flow = flow;
    let mut said = Vec::new();
    for reply in replies {
        let (state, next) = flow.step(reply);
        flow = state;
        said.push(next);
    }
    (flow, said)
}

/// Answers every effect with success, the builder with `built()`.
fn build_with_a_willing_host(kind: TxType) -> (Vec<Effect>, BuiltTx) {
    let (mut flow, first) = sdk().build_tx(kind, b"specific", b"common", String::from("payer"));
    let mut effects = vec![first];
    loop {
        let reply = match effects.last().unwrap() {
            Effect::DecodeTxArgs { .. } => args(),
            Effect::RunBuilder { .. } => Reply::Built(built()),
            _ => Reply::Done,
        };
        match flow.step(reply) {
            (state, Next::Perform(effect)) => {
                flow = state;
                effects.push(effect);
            }
            (state, Next::Complete(result)) => {
                assert_eq!(state, BuildTx::Finished);
                return (effects, result);
            }
            (_, Next::Fail(error)) => panic!("build failed: {:?}", error),
        }
    }
}

#[test]
fn every_kind_runs_exactly_its_own_builder() {
    for kind in KINDS {
        let (effects, result) = build_with_a_willing_host(kind);
        let ran: Vec<&Effect> = effects
            .iter()
            .filter(|e| matches!(e, Effect::RunBuilder { .. }))
            .collect();
        let to_reveal = if kind == TxType::RevealPK { Some(b"pk0".to_vec()) } else { None };
        let runs = Effect::RunBuilder { builder: kind.builder(), to_reveal };
        assert_eq!(ran, vec![&runs]);
        assert_eq!(effects.last(), Some(&runs));
        assert_eq!(result, built());
    }
}

#[test]
fn a_bond_is_built_from_both_argument_sets() {
    let (effects, _) = build_with_a_willing_host(TxType::Bond);
    assert_eq!(
        effects,
        vec![
            Effect::DecodeTxArgs { tx_msg: b"common".to_vec() },
            Effect::DecodeBuilderArgs {
                builder: Builder::Bond,
                specific_msg: b"specific".to_vec(),
                xsk: None,
            },
            Effect::RunBuilder { builder: Builder::Bond, to_reveal: None },
        ]
    );
}

#[test]
fn a_reveal_is_built_from_the_shared_arguments_alone() {
    let (effects, _) = build_with_a_willing_host(TxType::RevealPK);
    assert_eq!(
        effects,
        vec![
            Effect::DecodeTxArgs { tx_msg: b"common".to_vec() },
            Effect::RunBuilder { builder: Builder::RevealPk, to_reveal: Some(b"pk0".to_vec()) },
        ]
    );
}

#[test]
fn a_vote_asks_for_the_epoch_before_its_builder() {
    let (effects, _) = build_with_a_willing_host(TxType::VoteProposal);
    assert_eq!(
        effects,
        vec![
            Effect::DecodeTxArgs { tx_msg: b"common".to_vec() },
            Effect::DecodeBuilderArgs {
                builder: Builder::VoteProposal,
                specific_msg: b"specific".to_vec(),
                xsk: None,
            },
            Effect::QueryEpoch,
            Effect::RunBuilder { builder: Builder::VoteProposal, to_reveal: None },
        ]
    );
}

#[test]
fn only_a_vote_asks_for_the_epoch() {
    for kind in KINDS {
        let (effects, _) = build_with_a_willing_host(kind);
        assert_eq!(effects.contains(&Effect::QueryEpoch), kind == TxType::VoteProposal);
    }
}

#[test]
fn build_tx_gives_a_transfer_no_spending_key() {
    let (_, first) = sdk().build_tx(TxType::Transfer, b"t", b"c", String::from("payer"));
    assert_eq!(first, Effect::DecodeTxArgs { tx_msg: b"c".to_vec() });
    let (flow, _) = sdk().build_tx(TxType::Transfer, b"t", b"c", String::from("payer"));
    assert_eq!(
        flow,
        BuildTx::TxArgs { builder: Builder::Transfer, specific_msg: b"t".to_vec(), xsk: None }
    );
}

#[test]
fn build_transfer_hands_the_spending_key_to_the_decoding() {
    let (flow, _) = sdk().build_transfer(b"t", b"c", Some(String::from("xsk1")), None);
    let (_, said) = run(flow, vec![args()]);
    assert_eq!(
        said,
        vec![Next::Perform(Effect::DecodeBuilderArgs {
            builder: Builder::Transfer,
            specific_msg: b"t".to_vec(),
            xsk: Some(String::from("xsk1")),
        })]
    );
}

#[test]
fn build_tx_begins_as_the_build_of_its_kind_does() {
    let payer = || Some(String::from("payer"));
    let mut s = sdk();
    assert_eq!(
        s.build_tx(TxType::Bond, b"m", b"c", String::from("payer")),
        s.build_bond(b"m", b"c", payer())
    );
    assert_eq!(
        s.build_tx(TxType::Unbond, b"m", b"c", String::from("payer")),
        s.build_unbond(b"m", b"c", payer())
    );
    assert_eq!(
        s.build_tx(TxType::Withdraw, b"m", b"c", String::from("payer")),
        s.build_withdraw(b"m", b"c", payer())
    );
    assert_eq!(
        s.build_tx(TxType::Transfer, b"m", b"c", String::from("payer")),
        s.build_transfer(b"m", b"c", None, payer())
    );
    assert_eq!(
        s.build_tx(TxType::IBCTransfer, b"m", b"c", String::from("payer")),
        s.build_ibc_transfer(b"m", b"c", payer())
    );
    assert_eq!(
        s.build_tx(TxType::EthBridgeTransfer, b"m", b"c", String::from("payer")),
        s.build_eth_bridge_transfer(b"m", b"c", payer())
    );
    assert_eq!(
        s.build_tx(TxType::RevealPK, b"m", b"c", String::from("payer")),
        s.build_reveal_pk(b"c", String::from("payer"))
    );
    assert_eq!(
        s.build_tx(TxType::VoteProposal, b"m", b"c", String::from("payer")),
        s.build_vote_proposal(b"m", b"c", payer())
    );
}

#[test]
fn the_fee_payer_hint_changes_nothing() {
    let mut s = sdk();
    assert_eq!(
        s.build_bond(b"m", b"c", None),
        s.build_bond(b"m", b"c", Some(String::from("anyone")))
    );
}

#[test]
fn undecodable_specific_arguments_fail_for_every_kind_that_has_them() {
    for kind in KINDS {
        if kind == TxType::RevealPK {
            continue;
        }
        let (flow, _) = sdk().build_tx(kind, b"\x01", b"common", String::from("payer"));
        let (state, said) = run(
            flow,
            vec![args(), Reply::Failed(String::from("Unexpected length of input"))],
        );
        assert_eq!(state, BuildTx::Finished);
        assert_eq!(
            said.last(),
            Some(&Next::Fail(SdkError::Decode(Payload::BuilderArgs(kind.builder()))))
        );
    }
}

#[test]
fn undecodable_shared_arguments_fail_for_every_kind() {
    for kind in KINDS {
        let (flow, _) = sdk().build_tx(kind, b"specific", b"", String::from("payer"));
        let (state, said) = run(flow, vec![Reply::Failed(String::from("bad"))]);
        assert_eq!(state, BuildTx::Finished);
        assert_eq!(said, vec![Next::Fail(SdkError::Decode(Payload::TxArgs))]);
    }
}

#[test]
fn a_builder_failure_is_handed_on_word_for_word() {
    let (flow, _) = sdk().build_bond(b"m", b"c", None);
    let (_, said) = run(
        flow,
        vec![args(), Reply::Done, Reply::Failed(String::from("insufficient balance"))],
    );
    assert_eq!(
        said.last(),
        Some(&Next::Fail(SdkError::Builder(String::from("insufficient balance"))))
    );
}

#[test]
fn a_key_missing_from_the_wallet_fails_the_build() {
    let (flow, _) = sdk().build_bond(b"m", b"c", None);
    let (_, said) = run(
        flow,
        vec![args(), Reply::Done, Reply::MissingKey(String::from("no key for addr0"))],
    );
    assert_eq!(
        said.last(),
        Some(&Next::Fail(SdkError::KeyNotFound(String::from("no key for addr0"))))
    );
}

#[test]
fn a_failed_epoch_query_fails_the_vote() {
    let (flow, _) = sdk().build_vote_proposal(b"m", b"c", None);
    let (state, said) = run(
        flow,
        vec![args(), Reply::Done, Reply::Failed(String::from("rpc down"))],
    );
    assert_eq!(state, BuildTx::Finished);
    assert_eq!(said.last(), Some(&Next::Fail(SdkError::Query(String::from("rpc down")))));
}

#[test]
fn a_reply_that_fits_no_pending_effect_is_out_of_order() {
    let (flow, _) = sdk().build_bond(b"m", b"c", None);
    let (state, said) = run(flow, vec![Reply::Flag(true)]);
    assert_eq!(state, BuildTx::Finished);
    assert_eq!(said, vec![Next::Fail(SdkError::OutOfOrder)]);
}

#[test]
fn a_finished_build_takes_no_more_replies() {
    let (flow, _) = sdk().build_reveal_pk(b"c", String::new());
    let (state, said) = run(flow, vec![args(), Reply::Built(built()), Reply::Done]);
    assert_eq!(state, BuildTx::Finished);
    assert_eq!(said[1], Next::Complete(built()));
    assert_eq!(said[2], Next::Fail(SdkError::OutOfOrder));
}

#[test]
fn starting_a_build_leaves_the_session_as_it_was() {
    let mut s = sdk();
    let before = s.clone();
    let _ = s.build_tx(TxType::Bond, b"m", b"c", String::from("payer"));
    assert_eq!(s, before);
}

#[test]
fn a_built_transaction_hands_out_its_parts() {
    let b = built();
    assert_eq!(b.tx_bytes(), vec![1, 2, 3]);
    assert_eq!(b.signing_data().fee_payer, b"pk0".to_vec());
    let (tx, data) = b.into_parts();
    assert_eq!(tx, vec![1, 2, 3]);
    assert_eq!(data.owner, Some(b"addr0".to_vec()));
}

#[test]
fn only_host_failures_carry_a_text() {
    let text = String::from("why");
    assert_eq!(SdkError::Builder(text.clone()).text(), Some(&text));
    assert_eq!(SdkError::Query(text.clone()).text(), Some(&text));
    assert_eq!(SdkError::Broadcast(text.clone()).text(), Some(&text));
    assert_eq!(SdkError::Encode(text.clone()).text(), Some(&text));
    assert_eq!(SdkError::KeyNotFound(text.clone()).text(), Some(&text));
    assert_eq!(SdkError::Decode(Payload::Tx).text(), None);
    assert_eq!(SdkError::NoSigningKey.text(), None);
    assert_eq!(SdkError::OutOfOrder.text(), None);
}

#[test]
fn the_reveal_builder_is_given_the_first_declared_key_and_no_later_one() {
    let (flow, _) = sdk().build_reveal_pk(b"common", String::new());
    let (state, said) = run(
        flow,
        vec![Reply::Args { signing_keys: vec![vec![7, 7], vec![8, 8], vec![9]] }],
    );
    assert_eq!(state, BuildTx::Building { builder: Builder::RevealPk });
    assert_eq!(
        said,
        vec![Next::Perform(Effect::RunBuilder {
            builder: Builder::RevealPk,
            to_reveal: Some(vec![7, 7]),
        })]
    );
}

#[test]
fn a_reveal_without_a_declared_key_is_not_built() {
    let (flow, _) = sdk().build_reveal_pk(b"common", String::new());
    let (state, said) = run(
        flow,
        vec![Reply::Args { signing_keys: vec![] }, Reply::Built(built()), Reply::Done],
    );
    assert_eq!(state, BuildTx::Finished);
    assert_eq!(said[0], Next::Fail(SdkError::NoSigningKey));
    assert!(said.iter().all(|n| !matches!(n, Next::Perform(_) | Next::Complete(_))));

    let (flow, _) = sdk().build_tx(TxType::RevealPK, b"ignored", b"common", String::new());
    let (_, said) = run(flow, vec![Reply::Args { signing_keys: vec![] }]);
    assert_eq!(said, vec![Next::Fail(SdkError::NoSigningKey)]);
}

#[test]
fn every_other_builder_runs_without_a_declared_key() {
    for kind in KINDS {
        if kind == TxType::RevealPK {
            continue;
        }
        let (flow, _) = sdk().build_tx(kind, b"specific", b"common", String::from("payer"));
        let mut replies = vec![Reply::Args { signing_keys: vec![] }, Reply::Done];
        if kind == TxType::VoteProposal {
            replies.push(Reply::Done);
        }
        let (_, said) = run(flow, replies);
        assert_eq!(
            said.last(),
            Some(&Next::Perform(Effect::RunBuilder { builder: kind.builder(), to_reveal: None }))
        );
    }
}

#[test]
fn a_bare_done_does_not_answer_the_decoding_of_the_arguments() {
    let (flow, _) = sdk().build_bond(b"m", b"c", None);
    let (state, said) = run(flow, vec![Reply::Done]);
    assert_eq!(state, BuildTx::Finished);
    assert_eq!(said, vec![Next::Fail(SdkError::OutOfOrder)]);
}
