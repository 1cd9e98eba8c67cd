//! Signing a built transaction: the raw section where signers are
//! declared, the wrapper section always.
//!
//! A built transaction is held in its wire form, so a signing has the host
//! decode it before anything is signed. Either the signing ends with the
//! wire form of the signed transaction or it fails; no state between the
//! two is handed out.

use crate::error::{Payload, SdkError, SdkErrorView};
use crate::flow::{completes, Effect, EffectView, Next, NextView, Reply, ReplyView, WrapperKey};
use crate::tx::{BuiltTx, BuiltTxView, SigningData, SigningDataView};
use vstd::prelude::*;
use vstd::string::StringExecFns;

verus! {

/// The hex form of a secret key as the ledger reads it: the caller's hex
/// digits behind the two digits that mark the signature scheme.
pub open spec fn secret_key_hex(private_key: Seq<char>) -> Seq<char> {
    seq!['0', '0'] + private_key
}

/// The key that signs the wrapper: the fee payer's where the wallet has
/// it, else the key that signs the raw section.
pub open spec fn wrapper_key(found: bool) -> WrapperKey {
    if found {
        WrapperKey::FeePayer
    } else {
        WrapperKey::Signer
    }
}

/// The state of a signing: what the host is busy with.
#[derive(Clone, Debug, PartialEq, Eq)]
pub enum SignTx {
    /// Getting the signing key.
    Key { tx_msg: Vec<u8>, built_tx: BuiltTx },
    /// Decoding the shared arguments.
    Args { built_tx: BuiltTx },
    /// Decoding the transaction.
    Tx { signing_data: SigningData },
    /// Signing the raw section.
    Raw { fee_payer: Vec<u8> },
    /// Looking for the fee payer's key.
    FeePayer,
    /// Signing the wrapper section.
    Wrapper,
    /// Putting the signed transaction in its wire form.
    Bytes,
    /// Over.
    Finished,
}

pub enum SignTxView {
    Key { tx_msg: Seq<u8>, built_tx: BuiltTxView },
    Args { built_tx: BuiltTxView },
    Tx { signing_data: SigningDataView },
    Raw { fee_payer: Seq<u8> },
    FeePayer,
    Wrapper,
    Bytes,
    Finished,
}

impl View for SignTx {
    type V = SignTxView;

    open spec fn view(&self) -> SignTxView {
        match self {
            SignTx::Key { tx_msg, built_tx } => SignTxView::Key {
                tx_msg: tx_msg@,
                built_tx: built_tx@,
            },
            SignTx::Args { built_tx } => SignTxView::Args { built_tx: built_tx@ },
            SignTx::Tx { signing_data } => SignTxView::Tx { signing_data: signing_data@ },
            SignTx::Raw { fee_payer } => SignTxView::Raw { fee_payer: fee_payer@ },
            SignTx::FeePayer => SignTxView::FeePayer,
            SignTx::Wrapper => SignTxView::Wrapper,
            SignTx::Bytes => SignTxView::Bytes,
            SignTx::Finished => SignTxView::Finished,
        }
    }
}

/// Whether `next` asks for a signature over the raw section.
pub open spec fn signs_raw(next: NextView<Seq<u8>>) -> bool {
    next matches NextView::Perform(EffectView::SignRaw { .. })
}

/// Whether `next` asks for a signature over the wrapper section.
pub open spec fn signs_wrapper(next: NextView<Seq<u8>>) -> bool {
    next matches NextView::Perform(EffectView::SignWrapper { .. })
}

impl SignTxView {
    /// A signing begins with the key for the raw section: the caller's,
    /// where one is given, else the stand-in for a shielded source.
    pub open spec fn start(
        built_tx: BuiltTxView,
        tx_msg: Seq<u8>,
        private_key: Option<Seq<char>>,
    ) -> (SignTxView, EffectView) {
        (
            SignTxView::Key { tx_msg, built_tx },
            match private_key {
                Some(key) => EffectView::ParseSecretKey { encoded: secret_key_hex(key) },
                None => EffectView::UseShieldedKey,
            },
        )
    }

    /// The end of a signing that has no result.
    pub open spec fn fail(error: SdkErrorView) -> (SignTxView, NextView<Seq<u8>>) {
        (SignTxView::Finished, NextView::Fail(error))
    }

    /// From a state and the host's reply to the next state and what the
    /// host does next.
    pub open spec fn step(self, reply: ReplyView) -> (SignTxView, NextView<Seq<u8>>) {
        match (self, reply) {
            (SignTxView::Key { tx_msg, built_tx }, ReplyView::Done) => (
                SignTxView::Args { built_tx },
                NextView::Perform(EffectView::DecodeTxArgs { tx_msg }),
            ),
            (SignTxView::Key { .. }, ReplyView::Failed(_)) => Self::fail(
                SdkErrorView::Decode(Payload::SecretKey),
            ),
            (SignTxView::Args { built_tx }, ReplyView::Args { .. }) => (
                SignTxView::Tx { signing_data: built_tx.signing_data },
                NextView::Perform(EffectView::DecodeTx { tx_bytes: built_tx.tx }),
            ),
            (SignTxView::Args { .. }, ReplyView::Failed(_)) => Self::fail(
                SdkErrorView::Decode(Payload::TxArgs),
            ),
            (SignTxView::Tx { signing_data }, ReplyView::Done) => {
                match signing_data.account_public_keys_map {
                    Some(account_public_keys_map) => (
                        SignTxView::Raw { fee_payer: signing_data.fee_payer },
                        NextView::Perform(
                            EffectView::SignRaw {
                                account_public_keys_map,
                                owner: signing_data.owner,
                            },
                        ),
                    ),
                    None => (
                        SignTxView::FeePayer,
                        NextView::Perform(
                            EffectView::FindFeePayerKey { fee_payer: signing_data.fee_payer },
                        ),
                    ),
                }
            },
            (SignTxView::Tx { .. }, ReplyView::Failed(_)) => Self::fail(
                SdkErrorView::Decode(Payload::Tx),
            ),
            (SignTxView::Raw { fee_payer }, ReplyView::Done) => (
                SignTxView::FeePayer,
                NextView::Perform(EffectView::FindFeePayerKey { fee_payer }),
            ),
            (SignTxView::FeePayer, ReplyView::Done) => (
                SignTxView::Wrapper,
                NextView::Perform(EffectView::SignWrapper { key: WrapperKey::FeePayer }),
            ),
            (SignTxView::FeePayer, ReplyView::MissingKey(_)) => (
                SignTxView::Wrapper,
                NextView::Perform(EffectView::SignWrapper { key: WrapperKey::Signer }),
            ),
            (SignTxView::FeePayer, ReplyView::Failed(_)) => (
                SignTxView::Wrapper,
                NextView::Perform(EffectView::SignWrapper { key: WrapperKey::Signer }),
            ),
            (SignTxView::Wrapper, ReplyView::Done) => (
                SignTxView::Bytes,
                NextView::Perform(EffectView::SerializeTx),
            ),
            (SignTxView::Bytes, ReplyView::Bytes(bytes)) => (
                SignTxView::Finished,
                NextView::Complete(bytes),
            ),
            (SignTxView::Bytes, ReplyView::Failed(text)) => Self::fail(
                SdkErrorView::Encode(text),
            ),
            _ => Self::fail(SdkErrorView::OutOfOrder),
        }
    }

    /// The flow stepped with each reply in turn: where it stands then, and
    /// what it said after each reply.
    pub open spec fn run(self, replies: Seq<ReplyView>) -> (SignTxView, Seq<NextView<Seq<u8>>>)
        decreases replies.len(),
    {
        if replies.len() == 0 {
            (self, Seq::empty())
        } else {
            let (state, nexts) = self.run(replies.drop_last());
            let (state, next) = state.step(replies.last());
            (state, nexts.push(next))
        }
    }

    /// The place, among the replies of a signing that comes to its result,
    /// of the wallet's answer about the fee payer's key. What the flow
    /// says after that reply is the signing of the wrapper.
    pub open spec fn lookup_at(built_tx: BuiltTxView) -> int {
        if built_tx.signing_data.account_public_keys_map is Some {
            4
        } else {
            3
        }
    }

    /// What a signing has said when it has asked for the wallet's lookup:
    /// the decoding of the arguments and of the transaction, the signing
    /// of the raw section where signers are declared, and the lookup.
    pub open spec fn looked_up(built_tx: BuiltTxView, tx_msg: Seq<u8>) -> Seq<
        NextView<Seq<u8>>,
    > {
        let decoded = seq![
            NextView::Perform(EffectView::DecodeTxArgs { tx_msg }),
            NextView::Perform(EffectView::DecodeTx { tx_bytes: built_tx.tx }),
        ];
        let signed = match built_tx.signing_data.account_public_keys_map {
            Some(account_public_keys_map) => decoded.push(
                NextView::Perform(
                    EffectView::SignRaw {
                        account_public_keys_map,
                        owner: built_tx.signing_data.owner,
                    },
                ),
            ),
            None => decoded,
        };
        signed.push(
            NextView::Perform(
                EffectView::FindFeePayerKey { fee_payer: built_tx.signing_data.fee_payer },
            ),
        )
    }

    /// What a signing says, reply after reply, when the wallet has the fee
    /// payer's key (`found`) or not, and the signed transaction comes out
    /// as `bytes`.
    pub open spec fn script(
        built_tx: BuiltTxView,
        tx_msg: Seq<u8>,
        found: bool,
        bytes: Seq<u8>,
    ) -> Seq<NextView<Seq<u8>>> {
        Self::looked_up(built_tx, tx_msg).push(
            NextView::Perform(EffectView::SignWrapper { key: wrapper_key(found) }),
        ).push(NextView::Perform(EffectView::SerializeTx)).push(NextView::Complete(bytes))
    }

    /// What holds of a signing that began with `built_tx` and `tx_msg`,
    /// wherever it stands after `replies`: what it has said so far is the
    /// part of the script that leads to its state.
    pub open spec fn on_script(
        self,
        replies: Seq<ReplyView>,
        nexts: Seq<NextView<Seq<u8>>>,
        built_tx: BuiltTxView,
        tx_msg: Seq<u8>,
    ) -> bool {
        let data = built_tx.signing_data;
        let at = Self::lookup_at(built_tx);
        let looked_up = Self::looked_up(built_tx, tx_msg);
        match self {
            SignTxView::Key { tx_msg: t, built_tx: b } => {
                t == tx_msg && b == built_tx && replies.len() == 0 && nexts == Seq::<
                    NextView<Seq<u8>>,
                >::empty()
            },
            SignTxView::Args { built_tx: b } => {
                b == built_tx && replies.len() == 1 && nexts == looked_up.take(1)
            },
            SignTxView::Tx { signing_data } => {
                signing_data == data && replies.len() == 2 && nexts == looked_up.take(2)
            },
            SignTxView::Raw { fee_payer } => {
                fee_payer == data.fee_payer && data.account_public_keys_map is Some
                    && replies.len() == 3 && nexts == looked_up.take(3)
            },
            SignTxView::FeePayer => { replies.len() == at && nexts == looked_up },
            SignTxView::Wrapper => {
                replies.len() == at + 1 && nexts == looked_up.push(
                    NextView::Perform(
                        EffectView::SignWrapper { key: wrapper_key(replies[at] is Done) },
                    ),
                )
            },
            SignTxView::Bytes => {
                replies.len() == at + 2 && nexts == looked_up.push(
                    NextView::Perform(
                        EffectView::SignWrapper { key: wrapper_key(replies[at] is Done) },
                    ),
                ).push(NextView::Perform(EffectView::SerializeTx))
            },
            SignTxView::Finished => {
                nexts.len() > 0 && (nexts.last() matches NextView::Complete(bytes)
                    ==> replies.len() == at + 3 && nexts == Self::script(
                    built_tx,
                    tx_msg,
                    replies[at] is Done,
                    bytes,
                ))
            },
        }
    }
}

/// Every run of a signing stays on its script.
pub proof fn lemma_signing_stays_on_script(
    built_tx: BuiltTxView,
    tx_msg: Seq<u8>,
    private_key: Option<Seq<char>>,
    replies: Seq<ReplyView>,
)
    ensures
        ({
            let (state, nexts) = SignTxView::start(built_tx, tx_msg, private_key).0.run(replies);
            state.on_script(replies, nexts, built_tx, tx_msg)
        }),
    decreases replies.len(),
{
    let looked_up = SignTxView::looked_up(built_tx, tx_msg);
    let at = SignTxView::lookup_at(built_tx);
    assert(looked_up.len() == at);
    assert(looked_up.take(0) =~= Seq::empty());
    assert(looked_up.take(0).push(looked_up[0]) =~= looked_up.take(1));
    assert(looked_up.take(1).push(looked_up[1]) =~= looked_up.take(2));
    assert(looked_up.take(2).push(looked_up[2]) =~= looked_up.take(3));
    assert(looked_up.take(at - 1).push(looked_up[at - 1]) =~= looked_up);
    if replies.len() > 0 {
        let before = replies.drop_last();
        lemma_signing_stays_on_script(built_tx, tx_msg, private_key, before);
        if before.len() > at {
            assert(before[at] == replies[at]);
        }
    }
}

/// A signing that comes to its result has followed the script: it has got
/// the key, decoded the arguments and the transaction, signed the raw
/// section where signers are declared, looked for the fee payer's key,
/// signed the wrapper, and its result is the transaction's wire form as the
/// host made it last.
pub proof fn law_signing_follows_script(
    built_tx: BuiltTxView,
    tx_msg: Seq<u8>,
    private_key: Option<Seq<char>>,
    replies: Seq<ReplyView>,
)
    requires
        completes(SignTxView::start(built_tx, tx_msg, private_key).0.run(replies).1),
    ensures
        replies.len() == SignTxView::lookup_at(built_tx) + 3,
        replies.last() matches ReplyView::Bytes(bytes) && SignTxView::start(
            built_tx,
            tx_msg,
            private_key,
        ).0.run(replies).1 == SignTxView::script(
            built_tx,
            tx_msg,
            replies[SignTxView::lookup_at(built_tx)] is Done,
            bytes,
        ),
{
    lemma_signing_stays_on_script(built_tx, tx_msg, private_key, replies);
    lemma_signing_stays_on_script(built_tx, tx_msg, private_key, replies.drop_last());
}

/// In a signing that comes to its result the wrapper section is signed
/// exactly once, whatever the transaction declares; the raw section is
/// signed once where the transaction declares its signers, and not at all
/// where it declares none.
pub proof fn law_wrapper_is_always_signed(
    built_tx: BuiltTxView,
    tx_msg: Seq<u8>,
    private_key: Option<Seq<char>>,
    replies: Seq<ReplyView>,
)
    requires
        completes(SignTxView::start(built_tx, tx_msg, private_key).0.run(replies).1),
    ensures
        ({
            let nexts = SignTxView::start(built_tx, tx_msg, private_key).0.run(replies).1;
            &&& forall|i: int|
                0 <= i < nexts.len() ==> (#[trigger] signs_wrapper(nexts[i]) <==> i
                    == SignTxView::lookup_at(built_tx))
            &&& forall|i: int|
                0 <= i < nexts.len() ==> (#[trigger] signs_raw(nexts[i]) <==> i == 2
                    && built_tx.signing_data.account_public_keys_map is Some)
        }),
{
    law_signing_follows_script(built_tx, tx_msg, private_key, replies);
}

/// In a signing that comes to its result the wrapper is signed with the
/// fee payer's key where the wallet's lookup found it, and with the key
/// that signs the raw section where the lookup found none or failed.
pub proof fn law_fee_payer_key_signs_the_wrapper(
    built_tx: BuiltTxView,
    tx_msg: Seq<u8>,
    private_key: Option<Seq<char>>,
    replies: Seq<ReplyView>,
)
    requires
        completes(SignTxView::start(built_tx, tx_msg, private_key).0.run(replies).1),
    ensures
        ({
            let nexts = SignTxView::start(built_tx, tx_msg, private_key).0.run(replies).1;
            let at = SignTxView::lookup_at(built_tx);
            &&& at + 3 == replies.len() == nexts.len()
            &&& nexts[at - 1] == NextView::<Seq<u8>>::Perform(
                EffectView::FindFeePayerKey { fee_payer: built_tx.signing_data.fee_payer },
            )
            &&& replies[at] is Done ==> nexts[at] == NextView::<Seq<u8>>::Perform(
                EffectView::SignWrapper { key: WrapperKey::FeePayer },
            )
            &&& !(replies[at] is Done) ==> nexts[at] == NextView::<Seq<u8>>::Perform(
                EffectView::SignWrapper { key: WrapperKey::Signer },
            )
        }),
{
    law_signing_follows_script(built_tx, tx_msg, private_key, replies);
}

impl SignTx {
    /// Begins the signing of `built_tx`. With a private key in hex the raw
    /// section is signed with it; without one, with the stand-in key of a
    /// shielded source.
    pub fn start(built_tx: BuiltTx, tx_msg: &[u8], private_key: Option<String>) -> (r: (
        SignTx,
        Effect,
    ))
        ensures
            r@ == SignTxView::start(built_tx@, tx_msg@, crate::tx::opt_text(private_key)),
    {
        let effect = match private_key {
            Some(key) => {
                proof {
                    reveal_strlit("00");
                    assert("00"@ =~= seq!['0', '0']);
                }
                Effect::ParseSecretKey { encoded: String::from_str("00").concat(key.as_str()) }
            },
            None => Effect::UseShieldedKey,
        };
        (SignTx::Key { tx_msg: vstd::slice::slice_to_vec(tx_msg), built_tx }, effect)
    }

    fn fail(error: SdkError) -> (r: (SignTx, Next<Vec<u8>>))
        ensures
            r@ == SignTxView::fail(error@),
    {
        (SignTx::Finished, Next::Fail(error))
    }

    /// Takes the host's reply to the pending effect and says what comes
    /// next.
    pub fn step(self, reply: Reply) -> (r: (SignTx, Next<Vec<u8>>))
        ensures
            r@ == self@.step(reply@),
    {
        match (self, reply) {
            (SignTx::Key { tx_msg, built_tx }, Reply::Done) => (
                SignTx::Args { built_tx },
                Next::Perform(Effect::DecodeTxArgs { tx_msg }),
            ),
            (SignTx::Key { .. }, Reply::Failed(_)) => Self::fail(
                SdkError::Decode(Payload::SecretKey),
            ),
            (SignTx::Args { built_tx }, Reply::Args { .. }) => {
                let (tx_bytes, signing_data) = built_tx.into_parts();
                (SignTx::Tx { signing_data }, Next::Perform(Effect::DecodeTx { tx_bytes }))
            },
            (SignTx::Args { .. }, Reply::Failed(_)) => Self::fail(
                SdkError::Decode(Payload::TxArgs),
            ),
            (SignTx::Tx { signing_data }, Reply::Done) => {
                let SigningData { owner, account_public_keys_map, fee_payer, .. } = signing_data;
                match account_public_keys_map {
                    Some(account_public_keys_map) => (
                        SignTx::Raw { fee_payer },
                        Next::Perform(Effect::SignRaw { account_public_keys_map, owner }),
                    ),
                    None => (
                        SignTx::FeePayer,
                        Next::Perform(Effect::FindFeePayerKey { fee_payer }),
                    ),
                }
            },
            (SignTx::Tx { .. }, Reply::Failed(_)) => Self::fail(SdkError::Decode(Payload::Tx)),
            (SignTx::Raw { fee_payer }, Reply::Done) => (
                SignTx::FeePayer,
                Next::Perform(Effect::FindFeePayerKey { fee_payer }),
            ),
            (SignTx::FeePayer, Reply::Done) => (
                SignTx::Wrapper,
                Next::Perform(Effect::SignWrapper { key: WrapperKey::FeePayer }),
            ),
            (SignTx::FeePayer, Reply::MissingKey(_)) => (
                SignTx::Wrapper,
                Next::Perform(Effect::SignWrapper { key: WrapperKey::Signer }),
            ),
            (SignTx::FeePayer, Reply::Failed(_)) => (
                SignTx::Wrapper,
                Next::Perform(Effect::SignWrapper { key: WrapperKey::Signer }),
            ),
            (SignTx::Wrapper, Reply::Done) => (
                SignTx::Bytes,
                Next::Perform(Effect::SerializeTx),
            ),
            (SignTx::Bytes, Reply::Bytes(bytes)) => (SignTx::Finished, Next::Complete(bytes)),
            (SignTx::Bytes, Reply::Failed(text)) => Self::fail(SdkError::Encode(text)),
            _ => Self::fail(SdkError::OutOfOrder),
        }
    }
}

} // verus!
