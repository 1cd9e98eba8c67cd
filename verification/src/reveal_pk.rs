//! Revealing a public key before its address signs: a guarded prefix to
//! build, sign and submit.

use crate::dispatch::{declared_keys, BuildTx, BuildTxView};
use crate::error::{Payload, SdkError, SdkErrorView};
use crate::flow::{Effect, EffectView, Next, NextView, Reply, ReplyView};
use crate::kinds::Builder;
use crate::process::{ProcessTx, ProcessTxView};
use crate::signing::{secret_key_hex, wrapper_key, SignTx, SignTxView};
use crate::tx::{first_key, first_of, BuiltTxView};
use vstd::prelude::*;

verus! {

/// The state of a reveal: what the host is busy with.
#[derive(Clone, Debug, PartialEq, Eq)]
pub enum RevealPk {
    /// Decoding the shared arguments.
    Args { signing_key: String, tx_msg: Vec<u8> },
    /// Asking the chain whether the key has yet to be revealed.
    Query { signing_key: String, tx_msg: Vec<u8> },
    /// Building the reveal transaction.
    Build { build: BuildTx, signing_key: String, tx_msg: Vec<u8> },
    /// Signing it.
    Sign { sign: SignTx, tx_msg: Vec<u8> },
    /// Submitting it.
    Submit { submit: ProcessTx },
    /// Over.
    Finished,
}

pub enum RevealPkView {
    Args { signing_key: Seq<char>, tx_msg: Seq<u8> },
    Query { signing_key: Seq<char>, tx_msg: Seq<u8> },
    Build { build: BuildTxView, signing_key: Seq<char>, tx_msg: Seq<u8> },
    Sign { sign: SignTxView, tx_msg: Seq<u8> },
    Submit { submit: ProcessTxView },
    Finished,
}

impl View for RevealPk {
    type V = RevealPkView;

    open spec fn view(&self) -> RevealPkView {
        match self {
            RevealPk::Args { signing_key, tx_msg } => RevealPkView::Args {
                signing_key: signing_key@,
                tx_msg: tx_msg@,
            },
            RevealPk::Query { signing_key, tx_msg } => RevealPkView::Query {
                signing_key: signing_key@,
                tx_msg: tx_msg@,
            },
            RevealPk::Build { build: flow, signing_key, tx_msg } => RevealPkView::Build {
                build: flow@,
                signing_key: signing_key@,
                tx_msg: tx_msg@,
            },
            RevealPk::Sign { sign: flow, tx_msg } => RevealPkView::Sign { sign: flow@, tx_msg: tx_msg@ },
            RevealPk::Submit { submit: flow } => RevealPkView::Submit { submit: flow@ },
            RevealPk::Finished => RevealPkView::Finished,
        }
    }
}

/// Whether `next` asks for anything that makes, signs or submits a
/// transaction: all that a reveal does beyond asking the chain.
pub open spec fn touches_a_transaction(next: NextView<()>) -> bool {
    next matches NextView::Perform(effect) && !(effect is DecodeTxArgs) && !(effect
        is QueryRevealNeeded)
}

impl RevealPkView {
    /// A reveal begins by decoding the shared arguments, which hold the
    /// public key in question.
    pub open spec fn start(signing_key: Seq<char>, tx_msg: Seq<u8>) -> (RevealPkView, EffectView) {
        (RevealPkView::Args { signing_key, tx_msg }, EffectView::DecodeTxArgs { tx_msg })
    }

    /// The end of a reveal that did not go through.
    pub open spec fn fail(error: SdkErrorView) -> (RevealPkView, NextView<()>) {
        (RevealPkView::Finished, NextView::Fail(error))
    }

    /// From a state and the host's reply to the next state and what the
    /// host does next. The key at issue is the first signing key that the
    /// shared arguments declare; where they declare none the reveal fails
    /// before the chain is asked. Where the chain says that nothing is
    /// left to reveal the flow ends at once. Else the reveal transaction is built,
    /// then signed with the caller's key, then submitted, each by its own
    /// flow, and the first failure of any of them ends the reveal.
    pub open spec fn step(self, reply: ReplyView) -> (RevealPkView, NextView<()>) {
        match self {
            RevealPkView::Args { signing_key, tx_msg } => match reply {
                ReplyView::Args { signing_keys } => match first_of(signing_keys) {
                    Some(public_key) => (
                        RevealPkView::Query { signing_key, tx_msg },
                        NextView::Perform(EffectView::QueryRevealNeeded { public_key }),
                    ),
                    None => Self::fail(SdkErrorView::NoSigningKey),
                },
                ReplyView::Failed(_) => Self::fail(SdkErrorView::Decode(Payload::TxArgs)),
                _ => Self::fail(SdkErrorView::OutOfOrder),
            },
            RevealPkView::Query { signing_key, tx_msg } => match reply {
                ReplyView::Flag(needed) => if needed {
                    let (flow, effect) = BuildTxView::start(
                        Builder::RevealPk,
                        Seq::empty(),
                        tx_msg,
                        None,
                    );
                    (RevealPkView::Build { build: flow, signing_key, tx_msg }, NextView::Perform(effect))
                } else {
                    (RevealPkView::Finished, NextView::Complete(()))
                },
                ReplyView::Failed(text) => Self::fail(SdkErrorView::Query(text)),
                _ => Self::fail(SdkErrorView::OutOfOrder),
            },
            RevealPkView::Build { build: flow, signing_key, tx_msg } => match flow.step(reply) {
                (flow, NextView::Perform(effect)) => (
                    RevealPkView::Build { build: flow, signing_key, tx_msg },
                    NextView::Perform(effect),
                ),
                (_, NextView::Complete(built_tx)) => {
                    let (flow, effect) = SignTxView::start(built_tx, tx_msg, Some(signing_key));
                    (RevealPkView::Sign { sign: flow, tx_msg }, NextView::Perform(effect))
                },
                (_, NextView::Fail(error)) => Self::fail(error),
            },
            RevealPkView::Sign { sign: flow, tx_msg } => match flow.step(reply) {
                (flow, NextView::Perform(effect)) => (
                    RevealPkView::Sign { sign: flow, tx_msg },
                    NextView::Perform(effect),
                ),
                (_, NextView::Complete(tx_bytes)) => {
                    let (flow, effect) = ProcessTxView::start(tx_bytes, tx_msg);
                    (RevealPkView::Submit { submit: flow }, NextView::Perform(effect))
                },
                (_, NextView::Fail(error)) => Self::fail(error),
            },
            RevealPkView::Submit { submit: flow } => match flow.step(reply) {
                (flow, NextView::Perform(effect)) => (
                    RevealPkView::Submit { submit: flow },
                    NextView::Perform(effect),
                ),
                (_, NextView::Complete(_)) => (RevealPkView::Finished, NextView::Complete(())),
                (_, NextView::Fail(error)) => Self::fail(error),
            },
            RevealPkView::Finished => Self::fail(SdkErrorView::OutOfOrder),
        }
    }

    /// The flow stepped with each reply in turn: where it stands then, and
    /// what it said after each reply.
    pub open spec fn run(self, replies: Seq<ReplyView>) -> (RevealPkView, Seq<NextView<()>>)
        decreases replies.len(),
    {
        if replies.len() == 0 {
            (self, Seq::empty())
        } else {
            let (state, nexts) = self.run(replies.drop_last());
            let (state, next) = state.step(replies.last());
            (state, nexts.push(next))
        }
    }
}

/// Whether `next` asks the chain about a key.
pub open spec fn asks_the_chain(next: NextView<()>) -> bool {
    next matches NextView::Perform(EffectView::QueryRevealNeeded { .. })
}

/// Whether `next` asks for a builder to run.
pub open spec fn builds(next: NextView<()>) -> bool {
    next matches NextView::Perform(EffectView::RunBuilder { .. })
}

/// The signing keys that the third reply declares, where it is the reply
/// to the decoding of the shared arguments for the build; else none.
pub open spec fn redeclared_keys(replies: Seq<ReplyView>) -> Seq<Seq<u8>> {
    if replies.len() > 2 && replies[2] is Args {
        replies[2]->signing_keys
    } else {
        Seq::empty()
    }
}

/// Whether the first replies of a reveal say that the arguments declare a
/// signing key and that the chain wants it revealed.
pub open spec fn reveal_is_needed(replies: Seq<ReplyView>) -> bool {
    replies.len() >= 2 && declared_keys(replies).len() > 0 && replies[1] == ReplyView::Flag(true)
}

impl RevealPkView {
    /// What a reveal says first when the arguments declare a signing key:
    /// it asks the chain about the first of them.
    pub open spec fn asks(replies: Seq<ReplyView>) -> NextView<()> {
        NextView::Perform(EffectView::QueryRevealNeeded { public_key: declared_keys(replies)[0] })
    }

    /// The one effect by which a needed reveal has its transaction built:
    /// the reveal builder, given the first signing key that the arguments
    /// declare when they are decoded for the build.
    pub open spec fn reveals(replies: Seq<ReplyView>) -> NextView<()> {
        NextView::Perform(
            EffectView::RunBuilder {
                builder: Builder::RevealPk,
                to_reveal: Some(redeclared_keys(replies)[0]),
            },
        )
    }

    /// What a needed reveal has said when the builder is to run: it has
    /// asked the chain and had the arguments decoded for the build.
    pub open spec fn queried(replies: Seq<ReplyView>, tx_msg: Seq<u8>) -> Seq<NextView<()>> {
        seq![Self::asks(replies), NextView::Perform(EffectView::DecodeTxArgs { tx_msg })]
    }

    /// What a needed reveal says up to the signing key: the above, the
    /// reveal builder, and the reading of the caller's key.
    pub open spec fn built(
        replies: Seq<ReplyView>,
        signing_key: Seq<char>,
        tx_msg: Seq<u8>,
    ) -> Seq<NextView<()>> {
        Self::queried(replies, tx_msg).push(Self::reveals(replies)).push(
            NextView::Perform(EffectView::ParseSecretKey { encoded: secret_key_hex(signing_key) }),
        )
    }

    /// What a needed reveal has said when it has asked for the wallet's
    /// lookup: the above, then the signing of `built_tx` as far as the
    /// lookup.
    pub open spec fn looked_up(
        replies: Seq<ReplyView>,
        signing_key: Seq<char>,
        tx_msg: Seq<u8>,
        built_tx: BuiltTxView,
    ) -> Seq<NextView<()>> {
        let decoded = Self::built(replies, signing_key, tx_msg).push(
            NextView::Perform(EffectView::DecodeTxArgs { tx_msg }),
        ).push(NextView::Perform(EffectView::DecodeTx { tx_bytes: built_tx.tx }));
        let signed = match built_tx.signing_data.account_public_keys_map {
            Some(account_public_keys_map) => decoded.push(
                NextView::Perform(
                    EffectView::SignRaw {
                        account_public_keys_map,
                        owner: built_tx.signing_data.owner,
                    },
                ),
            ),
            None => decoded,
        };
        signed.push(
            NextView::Perform(
                EffectView::FindFeePayerKey { fee_payer: built_tx.signing_data.fee_payer },
            ),
        )
    }

    /// What a needed reveal has said when the signed transaction is to be
    /// submitted: the above, the signing of the wrapper, the wire form,
    /// and the decoding of the arguments for the submission.
    pub open spec fn signed(
        replies: Seq<ReplyView>,
        signing_key: Seq<char>,
        tx_msg: Seq<u8>,
        built_tx: BuiltTxView,
        found: bool,
    ) -> Seq<NextView<()>> {
        Self::looked_up(replies, signing_key, tx_msg, built_tx).push(
            NextView::Perform(EffectView::SignWrapper { key: wrapper_key(found) }),
        ).push(NextView::Perform(EffectView::SerializeTx)).push(
            NextView::Perform(EffectView::DecodeTxArgs { tx_msg }),
        )
    }

    /// What a needed reveal says, reply after reply, when the builder
    /// makes `built_tx`, the wallet has the fee payer's key (`found`) or
    /// not, and the signed transaction comes out as `tx_bytes`: it asks
    /// the chain about the first declared key, builds the reveal of that
    /// key, signs it with the caller's key, and submits what was signed.
    pub open spec fn script(
        replies: Seq<ReplyView>,
        signing_key: Seq<char>,
        tx_msg: Seq<u8>,
        built_tx: BuiltTxView,
        found: bool,
        tx_bytes: Seq<u8>,
    ) -> Seq<NextView<()>> {
        Self::signed(replies, signing_key, tx_msg, built_tx, found).push(
            NextView::Perform(EffectView::DecodeTx { tx_bytes }),
        ).push(NextView::Perform(EffectView::Broadcast)).push(NextView::Complete(()))
    }

    /// What a reveal says when the chain knows the key already.
    pub open spec fn idle_script(replies: Seq<ReplyView>) -> Seq<NextView<()>> {
        seq![Self::asks(replies), NextView::Complete(())]
    }

    /// The place, among the replies of a needed reveal, of the wallet's
    /// answer about the fee payer's key.
    pub open spec fn lookup_at(built_tx: BuiltTxView) -> int {
        4 + SignTxView::lookup_at(built_tx)
    }

    /// What holds of a reveal while it builds.
    pub open spec fn building_on_script(
        flow: BuildTxView,
        replies: Seq<ReplyView>,
        nexts: Seq<NextView<()>>,
        tx_msg: Seq<u8>,
    ) -> bool {
        match flow {
            BuildTxView::TxArgs { builder, specific_msg, xsk } => {
                builder == Builder::RevealPk && replies.len() == 2 && nexts == Self::queried(
                    replies,
                    tx_msg,
                )
            },
            BuildTxView::Building { builder } => {
                builder == Builder::RevealPk && replies.len() == 3 && redeclared_keys(
                    replies,
                ).len() > 0 && nexts == Self::queried(replies, tx_msg).push(Self::reveals(replies))
            },
            _ => false,
        }
    }

    /// What holds of a reveal while it signs.
    pub open spec fn signing_on_script(
        flow: SignTxView,
        replies: Seq<ReplyView>,
        nexts: Seq<NextView<()>>,
        signing_key: Seq<char>,
        tx_msg: Seq<u8>,
    ) -> bool {
        replies.len() >= 4 && match replies[3] {
            ReplyView::Built(built_tx) => {
                let data = built_tx.signing_data;
                let at = Self::lookup_at(built_tx);
                let looked_up = Self::looked_up(replies, signing_key, tx_msg, built_tx);
                match flow {
                    SignTxView::Key { tx_msg: t, built_tx: b } => {
                        t == tx_msg && b == built_tx && replies.len() == 4 && nexts
                            == looked_up.take(4)
                    },
                    SignTxView::Args { built_tx: b } => {
                        b == built_tx && replies.len() == 5 && nexts == looked_up.take(5)
                    },
                    SignTxView::Tx { signing_data } => {
                        signing_data == data && replies.len() == 6 && nexts == looked_up.take(6)
                    },
                    SignTxView::Raw { fee_payer } => {
                        fee_payer == data.fee_payer && data.account_public_keys_map is Some
                            && replies.len() == 7 && nexts == looked_up.take(7)
                    },
                    SignTxView::FeePayer => replies.len() == at && nexts == looked_up,
                    SignTxView::Wrapper => {
                        replies.len() == at + 1 && nexts == looked_up.push(
                            NextView::Perform(
                                EffectView::SignWrapper { key: wrapper_key(replies[at] is Done) },
                            ),
                        )
                    },
                    SignTxView::Bytes => {
                        replies.len() == at + 2 && nexts == looked_up.push(
                            NextView::Perform(
                                EffectView::SignWrapper { key: wrapper_key(replies[at] is Done) },
                            ),
                        ).push(NextView::Perform(EffectView::SerializeTx))
                    },
                    SignTxView::Finished => false,
                }
            },
            _ => false,
        }
    }

    /// What holds of a reveal while it submits.
    pub open spec fn submitting_on_script(
        flow: ProcessTxView,
        replies: Seq<ReplyView>,
        nexts: Seq<NextView<()>>,
        signing_key: Seq<char>,
        tx_msg: Seq<u8>,
    ) -> bool {
        replies.len() >= 4 && match replies[3] {
            ReplyView::Built(built_tx) => {
                let at = Self::lookup_at(built_tx);
                let signed = Self::signed(
                    replies,
                    signing_key,
                    tx_msg,
                    built_tx,
                    replies[at] is Done,
                );
                replies.len() >= at + 3 && match replies[at + 2] {
                    ReplyView::Bytes(tx_bytes) => match flow {
                        ProcessTxView::Args { tx_bytes: b } => {
                            b == tx_bytes && replies.len() == at + 3 && nexts == signed
                        },
                        ProcessTxView::Tx => {
                            replies.len() == at + 4 && nexts == signed.push(
                                NextView::Perform(EffectView::DecodeTx { tx_bytes }),
                            )
                        },
                        ProcessTxView::Sending => {
                            replies.len() == at + 5 && nexts == signed.push(
                                NextView::Perform(EffectView::DecodeTx { tx_bytes }),
                            ).push(NextView::Perform(EffectView::Broadcast))
                        },
                        ProcessTxView::Finished => false,
                    },
                    _ => false,
                }
            },
            _ => false,
        }
    }

    /// Whether `nexts` is the whole of what a reveal says that meets
    /// `replies` and comes to its result: the short script where the chain
    /// knows the key, else the script of a needed reveal, with what the
    /// builder made, what the wallet found and what the signing gave read
    /// off the replies.
    pub open spec fn followed_script(
        replies: Seq<ReplyView>,
        nexts: Seq<NextView<()>>,
        signing_key: Seq<char>,
        tx_msg: Seq<u8>,
    ) -> bool {
        if replies.len() == 2 {
            declared_keys(replies).len() > 0 && replies[1] == ReplyView::Flag(false) && nexts
                == Self::idle_script(replies)
        } else {
            &&& reveal_is_needed(replies)
            &&& redeclared_keys(replies).len() > 0
            &&& replies.len() >= 4
            &&& replies[3] matches ReplyView::Built(built_tx)
            &&& replies.len() == Self::lookup_at(built_tx) + 6
            &&& replies[Self::lookup_at(built_tx) + 2] matches ReplyView::Bytes(tx_bytes)
            &&& nexts == Self::script(
                replies,
                signing_key,
                tx_msg,
                built_tx,
                replies[Self::lookup_at(built_tx)] is Done,
                tx_bytes,
            )
        }
    }

    /// Whether every question to the chain and every run of a builder in
    /// `nexts` is about the first declared key: the chain is asked first
    /// of all, about the first key that the arguments declare; a builder
    /// runs third, it is the reveal builder, and it is given the first key
    /// that the arguments declare when decoded for the build.
    pub open spec fn keyed(replies: Seq<ReplyView>, nexts: Seq<NextView<()>>) -> bool {
        &&& forall|i: int|
            0 <= i < nexts.len() && #[trigger] asks_the_chain(nexts[i]) ==> i == 0
                && declared_keys(replies).len() > 0 && nexts[i] == Self::asks(replies)
        &&& forall|i: int|
            0 <= i < nexts.len() && #[trigger] builds(nexts[i]) ==> i == 2 && reveal_is_needed(
                replies,
            ) && redeclared_keys(replies).len() > 0 && nexts[i] == Self::reveals(replies)
    }

    /// What holds of a reveal that began with `signing_key` and `tx_msg`,
    /// wherever it stands after `replies`: what it has said so far is the
    /// part of its script that leads to its state.
    pub open spec fn on_script(
        self,
        replies: Seq<ReplyView>,
        nexts: Seq<NextView<()>>,
        signing_key: Seq<char>,
        tx_msg: Seq<u8>,
    ) -> bool {
        match self {
            RevealPkView::Args { signing_key: k, tx_msg: t } => {
                k == signing_key && t == tx_msg && replies.len() == 0 && nexts.len() == 0
            },
            RevealPkView::Query { signing_key: k, tx_msg: t } => {
                k == signing_key && t == tx_msg && replies.len() == 1 && declared_keys(
                    replies,
                ).len() > 0 && nexts == Self::queried(replies, tx_msg).take(1)
            },
            RevealPkView::Build { build: flow, signing_key: k, tx_msg: t } => {
                k == signing_key && t == tx_msg && reveal_is_needed(replies)
                    && Self::building_on_script(flow, replies, nexts, tx_msg)
            },
            RevealPkView::Sign { sign: flow, tx_msg: t } => {
                t == tx_msg && reveal_is_needed(replies) && redeclared_keys(replies).len() > 0
                    && Self::signing_on_script(flow, replies, nexts, signing_key, tx_msg)
            },
            RevealPkView::Submit { submit: flow } => {
                reveal_is_needed(replies) && redeclared_keys(replies).len() > 0
                    && Self::submitting_on_script(flow, replies, nexts, signing_key, tx_msg)
            },
            RevealPkView::Finished => {
                nexts.len() > 0 && (nexts.last() is Complete ==> Self::followed_script(
                    replies,
                    nexts,
                    signing_key,
                    tx_msg,
                ))
            },
        }
    }
}

/// Every run of a reveal stays on its script, asks the chain and runs a
/// builder only about the first declared key, and touches no transaction
/// before the chain has asked for the reveal. What it says first is its
/// answer to the first reply, and once it is over it stays so.
pub proof fn lemma_reveal_stays_on_script(
    signing_key: Seq<char>,
    tx_msg: Seq<u8>,
    replies: Seq<ReplyView>,
)
    ensures
        ({
            let start = RevealPkView::start(signing_key, tx_msg).0;
            let (state, nexts) = start.run(replies);
            &&& nexts.len() == replies.len()
            &&& state.on_script(replies, nexts, signing_key, tx_msg)
            &&& RevealPkView::keyed(replies, nexts)
            &&& replies.len() > 0 ==> nexts[0] == start.step(replies[0]).1
            &&& replies.len() == 1 ==> state == start.step(replies[0]).0
            &&& replies.len() > 0 && start.step(replies[0]).0 is Finished ==> state is Finished
                && forall|i: int| 1 <= i < nexts.len() ==> !(#[trigger] nexts[i] is Perform)
            &&& replies.len() >= 2 && !reveal_is_needed(replies) ==> state is Finished
            &&& !reveal_is_needed(replies) ==> forall|i: int|
                0 <= i < nexts.len() ==> !#[trigger] touches_a_transaction(nexts[i])
            &&& replies.len() >= 2 ==> !touches_a_transaction(nexts[1])
        }),
    decreases replies.len(),
{
    if replies.len() > 0 {
        let start = RevealPkView::start(signing_key, tx_msg).0;
        let before = replies.drop_last();
        lemma_reveal_stays_on_script(signing_key, tx_msg, before);
        let (mid, said) = start.run(before);
        let (state, nexts) = start.run(replies);
        let reply = replies.last();
        let next = mid.step(reply).1;
        assert(nexts == said.push(next));
        assert(before.push(reply) =~= replies);
        lemma_reveal_step_stays_on_script(signing_key, tx_msg, mid, before, said, reply);
        if before.len() >= 1 {
            assert(before[0] == replies[0]);
        }
        if before.len() >= 2 {
            assert(before[1] == replies[1]);
            assert(reveal_is_needed(before) == reveal_is_needed(replies));
        }
        if !reveal_is_needed(replies) {
            assert(!touches_a_transaction(next));
            assert forall|i: int| 0 <= i < nexts.len() implies !#[trigger] touches_a_transaction(
                nexts[i],
            ) by {
                if i < said.len() {
                    assert(nexts[i] == said[i]);
                }
            }
        }
        if start.step(replies[0]).0 is Finished {
            assert forall|i: int| 1 <= i < nexts.len() implies !(#[trigger] nexts[i] is Perform) by {
                if i < said.len() {
                    assert(nexts[i] == said[i]);
                }
            }
        }
    }
}

/// One step of a reveal that is on its script leaves it there.
proof fn lemma_reveal_step_stays_on_script(
    signing_key: Seq<char>,
    tx_msg: Seq<u8>,
    mid: RevealPkView,
    before: Seq<ReplyView>,
    said: Seq<NextView<()>>,
    reply: ReplyView,
)
    requires
        said.len() == before.len(),
        mid.on_script(before, said, signing_key, tx_msg),
        RevealPkView::keyed(before, said),
    ensures
        mid.step(reply).0.on_script(
            before.push(reply),
            said.push(mid.step(reply).1),
            signing_key,
            tx_msg,
        ),
        RevealPkView::keyed(before.push(reply), said.push(mid.step(reply).1)),
{
    let replies = before.push(reply);
    let (state, next) = mid.step(reply);
    let nexts = said.push(next);
    assert(forall|i: int| 0 <= i < before.len() ==> before[i] == replies[i]);
    assert(replies.last() == reply);
    assert(before.len() >= 1 ==> declared_keys(before) == declared_keys(replies));
    assert(before.len() >= 3 ==> redeclared_keys(before) == redeclared_keys(replies));
    assert(before.len() >= 2 ==> reveal_is_needed(before) == reveal_is_needed(replies));
    let queried = RevealPkView::queried(replies, tx_msg);
    let built = RevealPkView::built(replies, signing_key, tx_msg);
    match mid {
        RevealPkView::Args { .. } => {
            assert(said =~= Seq::empty());
            assert(Seq::<NextView<()>>::empty().push(queried[0]) =~= queried.take(1));
        },
        RevealPkView::Query { .. } => {
            assert(RevealPkView::queried(before, tx_msg) == queried);
            assert(queried.take(1).push(queried[1]) =~= queried);
            assert(queried.take(1).push(NextView::Complete(())) =~= RevealPkView::idle_script(
                replies,
            ));
        },
        RevealPkView::Build { build: flow, .. } => {
            assert(RevealPkView::queried(before, tx_msg) == queried);
            if before.len() == 3 {
                assert(RevealPkView::reveals(before) == RevealPkView::reveals(replies));
            }
            if let ReplyView::Built(built_tx) = reply {
                let looked_up = RevealPkView::looked_up(replies, signing_key, tx_msg, built_tx);
                assert(built =~= looked_up.take(4));
            }
        },
        RevealPkView::Sign { sign: flow, .. } => {
            let built_tx = before[3]->Built_0;
            let at = RevealPkView::lookup_at(built_tx);
            let looked_up = RevealPkView::looked_up(replies, signing_key, tx_msg, built_tx);
            assert(RevealPkView::looked_up(before, signing_key, tx_msg, built_tx) == looked_up);
            assert(looked_up.len() == at);
            assert(looked_up.take(4).push(looked_up[4]) =~= looked_up.take(5));
            assert(looked_up.take(5).push(looked_up[5]) =~= looked_up.take(6));
            assert(looked_up.take(6).push(looked_up[6]) =~= looked_up.take(7));
            assert(looked_up.take(at - 1).push(looked_up[at - 1]) =~= looked_up);
        },
        RevealPkView::Submit { submit: flow } => {
            let built_tx = before[3]->Built_0;
            let at = RevealPkView::lookup_at(built_tx);
            assert(RevealPkView::signed(before, signing_key, tx_msg, built_tx, before[at] is Done)
                == RevealPkView::signed(
                replies,
                signing_key,
                tx_msg,
                built_tx,
                replies[at] is Done,
            ));
        },
        RevealPkView::Finished => {},
    }
    assert forall|i: int| 0 <= i < nexts.len() && #[trigger] asks_the_chain(nexts[i]) implies i == 0
        && declared_keys(replies).len() > 0 && nexts[i] == RevealPkView::asks(replies) by {
        if i < said.len() {
            assert(nexts[i] == said[i]);
        }
    }
    assert forall|i: int| 0 <= i < nexts.len() && #[trigger] builds(nexts[i]) implies i == 2
        && reveal_is_needed(replies) && redeclared_keys(replies).len() > 0 && nexts[i]
        == RevealPkView::reveals(replies) by {
        if i < said.len() {
            assert(nexts[i] == said[i]);
        }
    }
}

/// A reveal that comes to its result has either found the first declared
/// key known to the chain, and then done nothing more, or it has built
/// the reveal of that key, signed what the builder made with the caller's
/// key, and submitted what the signing gave: nothing else, and in that
/// order.
pub proof fn law_reveal_follows_script(
    signing_key: Seq<char>,
    tx_msg: Seq<u8>,
    replies: Seq<ReplyView>,
)
    requires
        crate::flow::completes(RevealPkView::start(signing_key, tx_msg).0.run(replies).1),
    ensures
        RevealPkView::followed_script(
            replies,
            RevealPkView::start(signing_key, tx_msg).0.run(replies).1,
            signing_key,
            tx_msg,
        ),
{
    lemma_reveal_stays_on_script(signing_key, tx_msg, replies);
}

/// In every run of a reveal, whether it comes to a result or not, the
/// chain is asked at most once, as the first thing, and about the first
/// signing key that the shared arguments declare: never about a later one.
pub proof fn law_reveal_asks_about_the_first_key(
    signing_key: Seq<char>,
    tx_msg: Seq<u8>,
    replies: Seq<ReplyView>,
    i: int,
)
    requires
        0 <= i < replies.len(),
        asks_the_chain(RevealPkView::start(signing_key, tx_msg).0.run(replies).1[i]),
    ensures
        i == 0,
        replies[0] matches ReplyView::Args { signing_keys } && signing_keys.len() > 0
            && RevealPkView::start(signing_key, tx_msg).0.run(replies).1[0] == NextView::<
            (),
        >::Perform(EffectView::QueryRevealNeeded { public_key: signing_keys[0] }),
{
    lemma_reveal_stays_on_script(signing_key, tx_msg, replies);
}

/// In every run of a reveal a builder runs at most once, only after the
/// chain has asked for the reveal; it is the reveal builder, and it is
/// given the first signing key that the shared arguments declare when
/// they are decoded for the build. The arguments decoded there are the
/// bytes decoded for the question to the chain, so that a host whose
/// decoding depends on the bytes alone has the key revealed that the
/// chain was asked about.
pub proof fn law_reveal_reveals_the_first_key(
    signing_key: Seq<char>,
    tx_msg: Seq<u8>,
    replies: Seq<ReplyView>,
    i: int,
)
    requires
        0 <= i < replies.len(),
        builds(RevealPkView::start(signing_key, tx_msg).0.run(replies).1[i]),
    ensures
        i == 2,
        reveal_is_needed(replies),
        RevealPkView::start(signing_key, tx_msg).0.run(replies).1[1] == NextView::<()>::Perform(
            EffectView::DecodeTxArgs { tx_msg },
        ),
        replies[2] matches ReplyView::Args { signing_keys } && signing_keys.len() > 0
            && RevealPkView::start(signing_key, tx_msg).0.run(replies).1[2] == NextView::<
            (),
        >::Perform(
            EffectView::RunBuilder {
                builder: Builder::RevealPk,
                to_reveal: Some(signing_keys[0]),
            },
        ),
        replies[2] == replies[0] ==> redeclared_keys(replies)[0] == declared_keys(replies)[0],
{
    lemma_reveal_stays_on_script(signing_key, tx_msg, replies);
    lemma_reveal_second_word(signing_key, tx_msg, replies);
}

/// What a needed reveal says second is the decoding of the arguments for
/// the build.
proof fn lemma_reveal_second_word(signing_key: Seq<char>, tx_msg: Seq<u8>, replies: Seq<ReplyView>)
    requires
        reveal_is_needed(replies),
    ensures
        RevealPkView::start(signing_key, tx_msg).0.run(replies).1[1] == NextView::<()>::Perform(
            EffectView::DecodeTxArgs { tx_msg },
        ),
    decreases replies.len(),
{
    let start = RevealPkView::start(signing_key, tx_msg).0;
    let before = replies.drop_last();
    let (mid, said) = start.run(before);
    assert(start.run(replies).1 == said.push(mid.step(replies.last()).1));
    lemma_reveal_stays_on_script(signing_key, tx_msg, before);
    if replies.len() == 2 {
        assert(before[0] == replies[0]);
        assert(declared_keys(before) == declared_keys(replies));
        assert(mid is Query);
    } else {
        assert(before[0] == replies[0] && before[1] == replies[1]);
        lemma_reveal_second_word(signing_key, tx_msg, before);
        assert(start.run(replies).1[1] == said[1]);
    }
}

/// A reveal whose shared arguments declare no signing key fails at once,
/// before the chain is asked: whatever the host replies afterwards, the
/// flow asks for nothing at all and never comes to a result.
pub proof fn law_reveal_without_a_key_fails_first(
    signing_key: Seq<char>,
    tx_msg: Seq<u8>,
    replies: Seq<ReplyView>,
)
    requires
        replies.len() > 0,
        replies[0] == (ReplyView::Args { signing_keys: Seq::empty() }),
    ensures
        ({
            let (state, nexts) = RevealPkView::start(signing_key, tx_msg).0.run(replies);
            &&& state is Finished
            &&& nexts.len() == replies.len()
            &&& nexts[0] == NextView::<()>::Fail(SdkErrorView::NoSigningKey)
            &&& forall|i: int| 0 <= i < nexts.len() ==> !(#[trigger] nexts[i] is Perform)
            &&& !crate::flow::completes(nexts)
        }),
{
    lemma_reveal_stays_on_script(signing_key, tx_msg, replies);
}

/// A reveal of a key that the chain already knows does nothing: once the
/// chain has answered that no reveal is needed the flow is over with its
/// result, and whatever the host replies after that, the flow never asks
/// for a transaction to be built, signed or submitted. So of two reveals
/// in a row the second, which meets the key that the first revealed,
/// submits nothing.
pub proof fn law_revealed_key_is_not_revealed_again(
    signing_key: Seq<char>,
    tx_msg: Seq<u8>,
    replies: Seq<ReplyView>,
)
    requires
        replies.len() >= 2,
        replies[0] matches ReplyView::Args { signing_keys } && signing_keys.len() > 0,
        replies[1] == ReplyView::Flag(false),
    ensures
        ({
            let (state, nexts) = RevealPkView::start(signing_key, tx_msg).0.run(replies);
            &&& state is Finished
            &&& nexts.len() == replies.len()
            &&& nexts[0] == RevealPkView::asks(replies)
            &&& nexts[1] == NextView::<()>::Complete(())
            &&& forall|i: int| 0 <= i < nexts.len() ==> !#[trigger] touches_a_transaction(nexts[i])
        }),
    decreases replies.len(),
{
    let start = RevealPkView::start(signing_key, tx_msg).0;
    let before = replies.drop_last();
    lemma_reveal_stays_on_script(signing_key, tx_msg, replies);
    if replies.len() == 2 {
        assert(before.drop_last().len() == 0);
        assert(start.run(before.drop_last()) == (start, Seq::<NextView<()>>::empty()));
        assert(declared_keys(before) == declared_keys(replies));
    } else {
        assert(before[0] == replies[0] && before[1] == replies[1]);
        law_revealed_key_is_not_revealed_again(signing_key, tx_msg, before);
    }
}

/// A transaction is made, signed or submitted by a reveal only after the
/// arguments were decoded, with a signing key declared, and the chain has
/// answered that the key has yet to be revealed.
pub proof fn law_reveal_acts_only_when_needed(
    signing_key: Seq<char>,
    tx_msg: Seq<u8>,
    replies: Seq<ReplyView>,
    i: int,
)
    requires
        0 <= i < replies.len(),
        touches_a_transaction(RevealPkView::start(signing_key, tx_msg).0.run(replies).1[i]),
    ensures
        i >= 2,
        reveal_is_needed(replies),
{
    lemma_reveal_stays_on_script(signing_key, tx_msg, replies);
}

impl RevealPk {
    /// Begins the reveal of the first public key that `tx_msg` declares.
    /// `signing_key` is the secret key, in hex, that signs the reveal
    /// transaction where one is needed.
    pub fn start(signing_key: String, tx_msg: &[u8]) -> (r: (RevealPk, Effect))
        ensures
            r@ == RevealPkView::start(signing_key@, tx_msg@),
    {
        (
            RevealPk::Args { signing_key, tx_msg: vstd::slice::slice_to_vec(tx_msg) },
            Effect::DecodeTxArgs { tx_msg: vstd::slice::slice_to_vec(tx_msg) },
        )
    }

    fn fail(error: SdkError) -> (r: (RevealPk, Next<()>))
        ensures
            r@ == RevealPkView::fail(error@),
    {
        (RevealPk::Finished, Next::Fail(error))
    }

    /// Takes the host's reply to the pending effect and says what comes
    /// next.
    pub fn step(self, reply: Reply) -> (r: (RevealPk, Next<()>))
        ensures
            r@ == self@.step(reply@),
    {
        match self {
            RevealPk::Args { signing_key, tx_msg } => match reply {
                Reply::Args { signing_keys } => match first_key(signing_keys) {
                    Some(public_key) => (
                        RevealPk::Query { signing_key, tx_msg },
                        Next::Perform(Effect::QueryRevealNeeded { public_key }),
                    ),
                    None => Self::fail(SdkError::NoSigningKey),
                },
                Reply::Failed(_) => Self::fail(SdkError::Decode(Payload::TxArgs)),
                _ => Self::fail(SdkError::OutOfOrder),
            },
            RevealPk::Query { signing_key, tx_msg } => match reply {
                Reply::Flag(needed) => if needed {
                    let no_payload: Vec<u8> = Vec::new();
                    let (flow, effect) = BuildTx::start(
                        Builder::RevealPk,
                        no_payload.as_slice(),
                        tx_msg.as_slice(),
                        None,
                    );
                    (RevealPk::Build { build: flow, signing_key, tx_msg }, Next::Perform(effect))
                } else {
                    (RevealPk::Finished, Next::Complete(()))
                },
                Reply::Failed(text) => Self::fail(SdkError::Query(text)),
                _ => Self::fail(SdkError::OutOfOrder),
            },
            RevealPk::Build { build: flow, signing_key, tx_msg } => {
                let (flow, next) = flow.step(reply);
                match next {
                    Next::Perform(effect) => (
                        RevealPk::Build { build: flow, signing_key, tx_msg },
                        Next::Perform(effect),
                    ),
                    Next::Complete(built_tx) => {
                        let (flow, effect) = SignTx::start(
                            built_tx,
                            tx_msg.as_slice(),
                            Some(signing_key),
                        );
                        (RevealPk::Sign { sign: flow, tx_msg }, Next::Perform(effect))
                    },
                    Next::Fail(error) => Self::fail(error),
                }
            },
            RevealPk::Sign { sign: flow, tx_msg } => {
                let (flow, next) = flow.step(reply);
                match next {
                    Next::Perform(effect) => (
                        RevealPk::Sign { sign: flow, tx_msg },
                        Next::Perform(effect),
                    ),
                    Next::Complete(tx_bytes) => {
                        let (flow, effect) = ProcessTx::start(
                            tx_bytes.as_slice(),
                            tx_msg.as_slice(),
                        );
                        (RevealPk::Submit { submit: flow }, Next::Perform(effect))
                    },
                    Next::Fail(error) => Self::fail(error),
                }
            },
            RevealPk::Submit { submit: flow } => {
                let (flow, next) = flow.step(reply);
                match next {
                    Next::Perform(effect) => (RevealPk::Submit { submit: flow }, Next::Perform(effect)),
                    Next::Complete(_) => (RevealPk::Finished, Next::Complete(())),
                    Next::Fail(error) => Self::fail(error),
                }
            },
            RevealPk::Finished => Self::fail(SdkError::OutOfOrder),
        }
    }
}

} // verus!
