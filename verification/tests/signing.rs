use shared_sdk::error::{Payload, SdkError};
use shared_sdk::flow::{Effect, Next, Reply, WrapperKey};
use shared_sdk::sdk::Sdk;
use shared_sdk::signing::SignTx;
use shared_sdk::tx::{BuiltTx, SigningData};

fn sdk() -> Sdk {
    Sdk::new(String::from("http://localhost:27657"))
}

fn built(account_public_keys_map: Option<Vec<u8>>) -> BuiltTx {
    BuiltTx::new(
        vec![0xde, 0xad],
        SigningData {
            owner: Some(b"addr0".to_vec()),
            public_keys: vec![b"pk0".to_vec()],
            threshold: 1,
            account_public_keys_map,
            fee_payer: b"fee-pk".to_vec(),
        },
    )
}

/// The shared arguments, decoded.
fn args() -> Reply {
    Reply::Args { signing_keys: vec![b"pk0".to_vec()] }
}

/// Steps a signing with the replies in turn and collects what it says.
fn run(flow: SignTx, replies: Vec<Reply>) -> (SignTx, Vec<Next<Vec<u8>>>) {
    let mut flow = flow;
    let mut said = Vec::new();
    for reply in replies {
        let (state, next) = flow.step(reply);
        flow = state;
        said.push(next);
    }
    (flow, said)
}

/// Signs with a host that performs every effect; `found` is whether its
/// wallet holds the fee payer's key.
fn sign(built_tx: BuiltTx, key: Option<&str>, found: bool) -> (Vec<Effect>, Vec<u8>) {
    let (mut flow, first) = sdk().sign_tx(built_tx, b"common", key.map(String::from));
    let mut effects = vec![first];
    loop {
        let reply = match effects.last().unwrap() {
            Effect::DecodeTxArgs { .. } => args(),
            Effect::FindFeePayerKey { .. } if !found => {
                Reply::MissingKey(String::from("not in wallet"))
            }
            Effect::SerializeTx => Reply::Bytes(vec![0x51, 0x67]),
            _ => Reply::Done,
        };
        match flow.step(reply) {
            (state, Next::Perform(effect)) => {
                flow = state;
                effects.push(effect);
            }
            (state, Next::Complete(bytes)) => {
                assert_eq!(state, SignTx::Finished);
                return (effects, bytes);
            }
            (_, Next::Fail(error)) => panic!("signing failed: {:?}", error),
        }
    }
}

fn raw_signatures(effects: &[Effect]) -> usize {
    effects.iter().filter(|e| matches!(e, Effect::SignRaw { .. })).count()
}

fn wrapper_signatures(effects: &[Effect]) -> Vec<WrapperKey> {
    effects
        .iter()
        .filter_map(|e| match e {
            Effect::SignWrapper { key } => Some(*key),
            _ => None,
        })
        .collect()
}

#[test]
fn without_declared_signers_only_the_wrapper_is_signed() {
    let (effects, bytes) = sign(built(None), Some("abcd"), true);
    assert_eq!(raw_signatures(&effects), 0);
    assert_eq!(wrapper_signatures(&effects).len(), 1);
    assert_eq!(bytes, vec![0x51, 0x67]);
}

#[test]
fn with_declared_signers_both_sections_are_signed_once() {
    let (effects, _) = sign(built(Some(vec![1, 2])), Some("abcd"), true);
    assert_eq!(raw_signatures(&effects), 1);
    assert_eq!(wrapper_signatures(&effects).len(), 1);
}

#[test]
fn the_whole_signing_with_declared_signers() {
    let (effects, _) = sign(built(Some(vec![1, 2])), Some("abcd"), true);
    assert_eq!(
        effects,
        vec![
            Effect::ParseSecretKey { encoded: String::from("00abcd") },
            Effect::DecodeTxArgs { tx_msg: b"common".to_vec() },
            Effect::DecodeTx { tx_bytes: vec![0xde, 0xad] },
            Effect::SignRaw {
                account_public_keys_map: vec![1, 2],
                owner: Some(b"addr0".to_vec()),
            },
            Effect::FindFeePayerKey { fee_payer: b"fee-pk".to_vec() },
            Effect::SignWrapper { key: WrapperKey::FeePayer },
            Effect::SerializeTx,
        ]
    );
}

#[test]
fn the_whole_signing_of_a_shielded_source() {
    let (effects, _) = sign(built(None), None, false);
    assert_eq!(
        effects,
        vec![
            Effect::UseShieldedKey,
            Effect::DecodeTxArgs { tx_msg: b"common".to_vec() },
            Effect::DecodeTx { tx_bytes: vec![0xde, 0xad] },
            Effect::FindFeePayerKey { fee_payer: b"fee-pk".to_vec() },
            Effect::SignWrapper { key: WrapperKey::Signer },
            Effect::SerializeTx,
        ]
    );
}

#[test]
fn the_wallets_fee_payer_key_signs_the_wrapper() {
    let (effects, _) = sign(built(Some(vec![1])), Some("abcd"), true);
    assert_eq!(wrapper_signatures(&effects), vec![WrapperKey::FeePayer]);
}

#[test]
fn without_a_fee_payer_key_the_signer_signs_the_wrapper() {
    let (effects, _) = sign(built(Some(vec![1])), Some("abcd"), false);
    assert_eq!(wrapper_signatures(&effects), vec![WrapperKey::Signer]);
}

#[test]
fn a_failed_lookup_falls_back_to_the_signer_too() {
    let (flow, _) = sdk().sign_tx(built(None), b"common", None);
    let (state, said) = run(
        flow,
        vec![Reply::Done, args(), Reply::Done, Reply::Failed(String::from("locked"))],
    );
    assert_eq!(state, SignTx::Wrapper);
    assert_eq!(
        said.last(),
        Some(&Next::Perform(Effect::SignWrapper { key: WrapperKey::Signer }))
    );
}

#[test]
fn a_private_key_is_read_behind_the_scheme_digits() {
    let (_, first) = sdk().sign_tx(built(None), b"common", Some(String::from("1f2e3d")));
    assert_eq!(first, Effect::ParseSecretKey { encoded: String::from("001f2e3d") });
    let (_, first) = sdk().sign_tx(built(None), b"common", Some(String::new()));
    assert_eq!(first, Effect::ParseSecretKey { encoded: String::from("00") });
}

#[test]
fn without_a_private_key_the_shielded_stand_in_signs() {
    let (_, first) = sdk().sign_tx(built(None), b"common", None);
    assert_eq!(first, Effect::UseShieldedKey);
}

#[test]
fn a_key_that_does_not_parse_fails_the_signing() {
    let (flow, _) = sdk().sign_tx(built(None), b"common", Some(String::from("zz")));
    let (state, said) = run(flow, vec![Reply::Failed(String::from("invalid hex"))]);
    assert_eq!(state, SignTx::Finished);
    assert_eq!(said, vec![Next::Fail(SdkError::Decode(Payload::SecretKey))]);
}

#[test]
fn undecodable_arguments_fail_the_signing() {
    let (flow, _) = sdk().sign_tx(built(None), b"", None);
    let (_, said) = run(flow, vec![Reply::Done, Reply::Failed(String::from("bad"))]);
    assert_eq!(said.last(), Some(&Next::Fail(SdkError::Decode(Payload::TxArgs))));
}

#[test]
fn an_undecodable_transaction_fails_the_signing() {
    let (flow, _) = sdk().sign_tx(built(None), b"common", None);
    let (_, said) = run(flow, vec![Reply::Done, args(), Reply::Failed(String::from("bad"))]);
    assert_eq!(said.last(), Some(&Next::Fail(SdkError::Decode(Payload::Tx))));
}

#[test]
fn a_transaction_that_cannot_be_serialized_fails_the_signing() {
    let (flow, _) = sdk().sign_tx(built(None), b"common", None);
    let (state, said) = run(
        flow,
        vec![
            Reply::Done,
            args(),
            Reply::Done,
            Reply::Done,
            Reply::Done,
            Reply::Failed(String::from("too long")),
        ],
    );
    assert_eq!(state, SignTx::Finished);
    assert_eq!(said.last(), Some(&Next::Fail(SdkError::Encode(String::from("too long")))));
}

#[test]
fn a_signing_that_fails_hands_out_no_bytes() {
    let (flow, _) = sdk().sign_tx(built(Some(vec![1])), b"common", None);
    let (_, said) = run(
        flow,
        vec![Reply::Done, args(), Reply::Done, Reply::Failed(String::from("no"))],
    );
    assert!(said.iter().all(|n| !matches!(n, Next::Complete(_))));
    assert_eq!(said.last(), Some(&Next::Fail(SdkError::OutOfOrder)));
}

#[test]
fn a_finished_signing_takes_no_more_replies() {
    let (flow, _) = sdk().sign_tx(built(None), b"common", None);
    let (state, said) = run(
        flow,
        vec![
            Reply::Done,
            args(),
            Reply::Done,
            Reply::Done,
            Reply::Done,
            Reply::Bytes(vec![7]),
            Reply::Done,
        ],
    );
    assert_eq!(state, SignTx::Finished);
    assert_eq!(said[5], Next::Complete(vec![7]));
    assert_eq!(said[6], Next::Fail(SdkError::OutOfOrder));
}
