use shared_sdk::error::{Payload, SdkError};
use shared_sdk::flow::{Effect, Next, Reply, WrapperKey};
use shared_sdk::kinds::Builder;
use shared_sdk::reveal_pk::RevealPk;
use shared_sdk::sdk::Sdk;
use shared_sdk::tx::{BuiltTx, SigningData};

fn sdk() -> Sdk {
    Sdk::new(String::from("http://localhost:27657"))
}

fn reveal_tx() -> BuiltTx {
    BuiltTx::new(
        b"reveal".to_vec(),
        SigningData {
            owner: None,
            public_keys: vec![b"pk0".to_vec()],
            threshold: 1,
            account_public_keys_map: Some(b"map".to_vec()),
            fee_payer: b"pk0".to_vec(),
        },
    )
}

/// The shared arguments, decoded: they declare two signing keys.
fn args() -> Reply {
    Reply::Args { signing_keys: vec![b"pk0".to_vec(), b"pk1".to_vec()] }
}

/// A chain that knows which keys are revealed, and counts what is
/// submitted to it.
struct Chain {
    revealed: bool,
    asked_about: Vec<Vec<u8>>,
    submitted: Vec<Vec<u8>>,
    decoded: Vec<u8>,
}

/// Reveals against `chain` with a host that performs every effect.
fn run_reveal(chain: &mut Chain) -> (Vec<Effect>, Result<(), SdkError>) {
    let (mut flow, first) = sdk().reveal_pk(String::from("abcd"), b"common");
    let mut effects = vec![first];
    loop {
        let reply = match effects.last().unwrap() {
            Effect::DecodeTxArgs { .. } => args(),
            Effect::QueryRevealNeeded { public_key } => {
                chain.asked_about.push(public_key.clone());
                Reply::Flag(!chain.revealed)
            }
            Effect::RunBuilder { .. } => Reply::Built(reveal_tx()),
            Effect::DecodeTx { tx_bytes } => {
                chain.decoded = tx_bytes.clone();
                Reply::Done
            }
            Effect::SerializeTx => Reply::Bytes(b"signed-reveal".to_vec()),
            Effect::Broadcast => {
                chain.submitted.push(chain.decoded.clone());
                chain.revealed = true;
                Reply::Done
            }
            _ => Reply::Done,
        };
        match flow.step(reply) {
            (state, Next::Perform(effect)) => {
                flow = state;
                effects.push(effect);
            }
            (state, Next::Complete(())) => {
                assert_eq!(state, RevealPk::Finished);
                return (effects, Ok(()));
            }
            (_, Next::Fail(error)) => return (effects, Err(error)),
        }
    }
}

fn run(flow: RevealPk, replies: Vec<Reply>) -> (RevealPk, Vec<Next<()>>) {
    let mut flow = flow;
    let mut said = Vec::new();
    for reply in replies {
        let (state, next) = flow.step(reply);
        flow = state;
        said.push(next);
    }
    (flow, said)
}

#[test]
fn an_unrevealed_key_is_built_signed_and_submitted() {
    let mut chain = Chain { revealed: false, asked_about: vec![], submitted: vec![], decoded: vec![] };
    let (effects, result) = run_reveal(&mut chain);
    assert_eq!(result, Ok(()));
    assert_eq!(
        effects,
        vec![
            Effect::DecodeTxArgs { tx_msg: b"common".to_vec() },
            Effect::QueryRevealNeeded { public_key: b"pk0".to_vec() },
            // build
            Effect::DecodeTxArgs { tx_msg: b"common".to_vec() },
            Effect::RunBuilder { builder: Builder::RevealPk, to_reveal: Some(b"pk0".to_vec()) },
            // sign, with the caller's key
            Effect::ParseSecretKey { encoded: String::from("00abcd") },
            Effect::DecodeTxArgs { tx_msg: b"common".to_vec() },
            Effect::DecodeTx { tx_bytes: b"reveal".to_vec() },
            Effect::SignRaw { account_public_keys_map: b"map".to_vec(), owner: None },
            Effect::FindFeePayerKey { fee_payer: b"pk0".to_vec() },
            Effect::SignWrapper { key: WrapperKey::FeePayer },
            Effect::SerializeTx,
            // submit what was signed
            Effect::DecodeTxArgs { tx_msg: b"common".to_vec() },
            Effect::DecodeTx { tx_bytes: b"signed-reveal".to_vec() },
            Effect::Broadcast,
        ]
    );
    assert_eq!(chain.submitted, vec![b"signed-reveal".to_vec()]);
    assert_eq!(chain.asked_about, vec![b"pk0".to_vec()]);
}

#[test]
fn a_revealed_key_is_left_alone() {
    let mut chain = Chain { revealed: true, asked_about: vec![], submitted: vec![], decoded: vec![] };
    let (effects, result) = run_reveal(&mut chain);
    assert_eq!(result, Ok(()));
    assert_eq!(
        effects,
        vec![
            Effect::DecodeTxArgs { tx_msg: b"common".to_vec() },
            Effect::QueryRevealNeeded { public_key: b"pk0".to_vec() },
        ]
    );
    assert!(chain.submitted.is_empty());
}

#[test]
fn the_second_of_two_reveals_submits_nothing() {
    let mut chain = Chain { revealed: false, asked_about: vec![], submitted: vec![], decoded: vec![] };
    assert_eq!(run_reveal(&mut chain).1, Ok(()));
    assert_eq!(chain.submitted.len(), 1);
    let (effects, result) = run_reveal(&mut chain);
    assert_eq!(result, Ok(()));
    assert_eq!(chain.submitted.len(), 1);
    assert_eq!(effects.len(), 2);
    assert!(!effects.contains(&Effect::Broadcast));
}

#[test]
fn a_failed_query_ends_the_reveal_with_the_chains_words() {
    let (flow, _) = sdk().reveal_pk(String::from("abcd"), b"common");
    let (state, said) = run(flow, vec![args(), Reply::Failed(String::from("timeout"))]);
    assert_eq!(state, RevealPk::Finished);
    assert_eq!(said.last(), Some(&Next::Fail(SdkError::Query(String::from("timeout")))));
}

#[test]
fn undecodable_arguments_end_the_reveal() {
    let (flow, _) = sdk().reveal_pk(String::from("abcd"), b"");
    let (state, said) = run(flow, vec![Reply::Failed(String::from("bad"))]);
    assert_eq!(state, RevealPk::Finished);
    assert_eq!(said, vec![Next::Fail(SdkError::Decode(Payload::TxArgs))]);
}

#[test]
fn a_builder_failure_ends_the_reveal_before_anything_is_signed() {
    let (flow, _) = sdk().reveal_pk(String::from("abcd"), b"common");
    let (state, said) = run(
        flow,
        vec![
            args(),
            Reply::Flag(true),
            args(),
            Reply::Failed(String::from("unknown account")),
        ],
    );
    assert_eq!(state, RevealPk::Finished);
    assert_eq!(
        said.last(),
        Some(&Next::Fail(SdkError::Builder(String::from("unknown account"))))
    );
    assert!(said.iter().all(|n| !matches!(n, Next::Perform(Effect::SignWrapper { .. }))));
}

#[test]
fn a_refused_submission_ends_the_reveal_with_the_ledgers_words() {
    let (flow, _) = sdk().reveal_pk(String::from("abcd"), b"common");
    let mut replies = vec![args(), Reply::Flag(true), args(), Reply::Built(reveal_tx())];
    // key, args, tx, raw, lookup, wrapper
    replies.extend([Reply::Done, args()]);
    replies.extend((0..4).map(|_| Reply::Done));
    replies.push(Reply::Bytes(b"signed-reveal".to_vec()));
    replies.extend([args(), Reply::Done, Reply::Failed(String::from("rejected"))]);
    let (state, said) = run(flow, replies);
    assert_eq!(state, RevealPk::Finished);
    assert_eq!(said.last(), Some(&Next::Fail(SdkError::Broadcast(String::from("rejected")))));
}

#[test]
fn a_finished_reveal_takes_no_more_replies() {
    let (flow, _) = sdk().reveal_pk(String::from("abcd"), b"common");
    let (state, said) = run(flow, vec![args(), Reply::Flag(false), Reply::Flag(true)]);
    assert_eq!(state, RevealPk::Finished);
    assert_eq!(said[1], Next::Complete(()));
    assert_eq!(said[2], Next::Fail(SdkError::OutOfOrder));
}

#[test]
fn the_chain_is_asked_once_and_about_the_first_declared_key() {
    let mut chain = Chain { revealed: false, asked_about: vec![], submitted: vec![], decoded: vec![] };
    let (effects, result) = run_reveal(&mut chain);
    assert_eq!(result, Ok(()));
    assert_eq!(chain.asked_about, vec![b"pk0".to_vec()]);
    let queries = effects
        .iter()
        .filter(|e| matches!(e, Effect::QueryRevealNeeded { .. }))
        .count();
    assert_eq!(queries, 1);
    assert!(!effects.contains(&Effect::QueryRevealNeeded { public_key: b"pk1".to_vec() }));
    assert!(effects.contains(&Effect::RunBuilder {
        builder: Builder::RevealPk,
        to_reveal: Some(b"pk0".to_vec()),
    }));
}

#[test]
fn a_reveal_without_a_declared_key_fails_before_the_chain_is_asked() {
    let (flow, first) = sdk().reveal_pk(String::from("abcd"), b"common");
    assert_eq!(first, Effect::DecodeTxArgs { tx_msg: b"common".to_vec() });
    let (state, said) = run(
        flow,
        vec![Reply::Args { signing_keys: vec![] }, Reply::Flag(true), Reply::Done],
    );
    assert_eq!(state, RevealPk::Finished);
    assert_eq!(said[0], Next::Fail(SdkError::NoSigningKey));
    assert!(said.iter().all(|n| !matches!(n, Next::Perform(_) | Next::Complete(_))));
}

#[test]
fn a_reveal_whose_build_finds_no_key_fails_before_the_builder() {
    let (flow, _) = sdk().reveal_pk(String::from("abcd"), b"common");
    let (state, said) = run(
        flow,
        vec![args(), Reply::Flag(true), Reply::Args { signing_keys: vec![] }],
    );
    assert_eq!(state, RevealPk::Finished);
    assert_eq!(said.last(), Some(&Next::Fail(SdkError::NoSigningKey)));
    assert!(said.iter().all(|n| !matches!(n, Next::Perform(Effect::RunBuilder { .. }))));
}
