//! Building a transaction: from a kind and its argument bytes to the one
//! builder that makes the unsigned transaction.
//!
//! The reveal of a public key has no payload of its own: its builder is
//! given the first signing key that the shared arguments declare, and
//! where they declare none the build fails before the builder is asked
//! for.

use crate::error::{Payload, SdkError, SdkErrorView};
use crate::flow::{completes, Effect, EffectView, Next, NextView, Reply, ReplyView};
use crate::kinds::Builder;
use crate::tx::{first_key, first_of, opt_text, BuiltTx, BuiltTxView};
use vstd::prelude::*;

verus! {

/// The state of a build: what the host is busy with.
#[derive(Clone, Debug, PartialEq, Eq)]
pub enum BuildTx {
    /// Decoding the shared arguments.
    TxArgs { builder: Builder, specific_msg: Vec<u8>, xsk: Option<String> },
    /// Decoding the builder's own arguments.
    BuilderArgs { builder: Builder },
    /// Asking for the current epoch.
    Epoch { builder: Builder },
    /// Running the builder.
    Building { builder: Builder },
    /// Over.
    Finished,
}

pub enum BuildTxView {
    TxArgs { builder: Builder, specific_msg: Seq<u8>, xsk: Option<Seq<char>> },
    BuilderArgs { builder: Builder },
    Epoch { builder: Builder },
    Building { builder: Builder },
    Finished,
}

impl View for BuildTx {
    type V = BuildTxView;

    open spec fn view(&self) -> BuildTxView {
        match self {
            BuildTx::TxArgs { builder, specific_msg, xsk } => BuildTxView::TxArgs {
                builder: *builder,
                specific_msg: specific_msg@,
                xsk: opt_text(*xsk),
            },
            BuildTx::BuilderArgs { builder } => BuildTxView::BuilderArgs { builder: *builder },
            BuildTx::Epoch { builder } => BuildTxView::Epoch { builder: *builder },
            BuildTx::Building { builder } => BuildTxView::Building { builder: *builder },
            BuildTx::Finished => BuildTxView::Finished,
        }
    }
}

/// Whether `next` asks for a builder to run.
pub open spec fn runs_a_builder(next: NextView<BuiltTxView>) -> bool {
    next matches NextView::Perform(EffectView::RunBuilder { .. })
}

/// The signing keys that the first reply declares, where it is the reply
/// to a decoding of the shared arguments; else none.
pub open spec fn declared_keys(replies: Seq<ReplyView>) -> Seq<Seq<u8>> {
    if replies.len() > 0 && replies[0] is Args {
        replies[0]->signing_keys
    } else {
        Seq::empty()
    }
}

impl BuildTxView {
    /// A build begins by decoding the shared arguments.
    pub open spec fn start(
        builder: Builder,
        specific_msg: Seq<u8>,
        tx_msg: Seq<u8>,
        xsk: Option<Seq<char>>,
    ) -> (BuildTxView, EffectView) {
        (
            BuildTxView::TxArgs { builder, specific_msg, xsk },
            EffectView::DecodeTxArgs { tx_msg },
        )
    }

    /// What follows once a builder's own arguments are decoded: the
    /// epoch, for the builder that needs it, and then the builder.
    pub open spec fn decoded(builder: Builder) -> (BuildTxView, NextView<BuiltTxView>) {
        if builder.spec_needs_epoch() {
            (BuildTxView::Epoch { builder }, NextView::Perform(EffectView::QueryEpoch))
        } else {
            (
                BuildTxView::Building { builder },
                NextView::Perform(EffectView::RunBuilder { builder, to_reveal: None }),
            )
        }
    }

    /// The end of a build that has no result.
    pub open spec fn fail(error: SdkErrorView) -> (BuildTxView, NextView<BuiltTxView>) {
        (BuildTxView::Finished, NextView::Fail(error))
    }

    /// From a state and the host's reply to the next state and what the
    /// host does next. A builder with a payload of its own has it decoded
    /// next. The reveal builder is given the first declared signing key;
    /// where none is declared the build fails.
    pub open spec fn step(self, reply: ReplyView) -> (BuildTxView, NextView<BuiltTxView>) {
        match (self, reply) {
            (
                BuildTxView::TxArgs { builder, specific_msg, xsk },
                ReplyView::Args { signing_keys },
            ) => {
                if builder.spec_takes_payload() {
                    (
                        BuildTxView::BuilderArgs { builder },
                        NextView::Perform(
                            EffectView::DecodeBuilderArgs { builder, specific_msg, xsk },
                        ),
                    )
                } else {
                    match first_of(signing_keys) {
                        Some(public_key) => (
                            BuildTxView::Building { builder },
                            NextView::Perform(
                                EffectView::RunBuilder { builder, to_reveal: Some(public_key) },
                            ),
                        ),
                        None => Self::fail(SdkErrorView::NoSigningKey),
                    }
                }
            },
            (BuildTxView::TxArgs { .. }, ReplyView::Failed(_)) => Self::fail(
                SdkErrorView::Decode(Payload::TxArgs),
            ),
            (BuildTxView::BuilderArgs { builder }, ReplyView::Done) => Self::decoded(builder),
            (BuildTxView::BuilderArgs { builder }, ReplyView::Failed(_)) => Self::fail(
                SdkErrorView::Decode(Payload::BuilderArgs(builder)),
            ),
            (BuildTxView::Epoch { builder }, ReplyView::Done) => (
                BuildTxView::Building { builder },
                NextView::Perform(EffectView::RunBuilder { builder, to_reveal: None }),
            ),
            (BuildTxView::Epoch { .. }, ReplyView::Failed(text)) => Self::fail(
                SdkErrorView::Query(text),
            ),
            (BuildTxView::Building { .. }, ReplyView::Built(built)) => (
                BuildTxView::Finished,
                NextView::Complete(built),
            ),
            (BuildTxView::Building { .. }, ReplyView::MissingKey(text)) => Self::fail(
                SdkErrorView::KeyNotFound(text),
            ),
            (BuildTxView::Building { .. }, ReplyView::Failed(text)) => Self::fail(
                SdkErrorView::Builder(text),
            ),
            _ => Self::fail(SdkErrorView::OutOfOrder),
        }
    }

    /// The flow stepped with each reply in turn: where it stands then, and
    /// what it said after each reply.
    pub open spec fn run(self, replies: Seq<ReplyView>) -> (BuildTxView, Seq<NextView<BuiltTxView>>)
        decreases replies.len(),
    {
        if replies.len() == 0 {
            (self, Seq::empty())
        } else {
            let (state, nexts) = self.run(replies.drop_last());
            let (state, next) = state.step(replies.last());
            (state, nexts.push(next))
        }
    }

    /// The key that `builder` is given in a build that meets `replies`:
    /// the first declared signing key for the reveal builder, none for
    /// every other.
    pub open spec fn given_key(builder: Builder, replies: Seq<ReplyView>) -> Option<Seq<u8>> {
        if builder.spec_takes_payload() {
            None
        } else {
            first_of(declared_keys(replies))
        }
    }

    /// Whether `builder` has the key it needs in a build that meets
    /// `replies`.
    pub open spec fn has_its_key(builder: Builder, replies: Seq<ReplyView>) -> bool {
        builder.spec_takes_payload() || declared_keys(replies).len() > 0
    }

    /// The one effect by which `builder` runs in a build that meets
    /// `replies`.
    pub open spec fn runs(builder: Builder, replies: Seq<ReplyView>) -> NextView<BuiltTxView> {
        NextView::Perform(
            EffectView::RunBuilder { builder, to_reveal: Self::given_key(builder, replies) },
        )
    }

    /// What a build has asked for before it asks for the builder.
    pub open spec fn asked(builder: Builder, specific_msg: Seq<u8>, xsk: Option<Seq<char>>) -> Seq<
        NextView<BuiltTxView>,
    > {
        let decoding = if builder.spec_takes_payload() {
            seq![NextView::Perform(EffectView::DecodeBuilderArgs { builder, specific_msg, xsk })]
        } else {
            Seq::empty()
        };
        if builder.spec_needs_epoch() {
            decoding.push(NextView::Perform(EffectView::QueryEpoch))
        } else {
            decoding
        }
    }

    /// What a build says, reply after reply, when the builder is given
    /// `public_key` to reveal and hands back `built`: it asks for the decoding of
    /// the builder's own arguments where the builder has any, for the
    /// epoch where the builder needs it, then for the builder, and ends
    /// with what the builder made.
    pub open spec fn script(
        builder: Builder,
        specific_msg: Seq<u8>,
        xsk: Option<Seq<char>>,
        public_key: Option<Seq<u8>>,
        built: BuiltTxView,
    ) -> Seq<NextView<BuiltTxView>> {
        Self::asked(builder, specific_msg, xsk).push(
            NextView::Perform(EffectView::RunBuilder { builder, to_reveal: public_key }),
        ).push(NextView::Complete(built))
    }

    /// What holds of a build that began with these arguments, wherever it
    /// stands after `replies`: what it has said so far is the part of the
    /// script that leads to its state, and whenever it asked for a
    /// builder, it was for `builder`, with the key that it is given.
    pub open spec fn on_script(
        self,
        replies: Seq<ReplyView>,
        nexts: Seq<NextView<BuiltTxView>>,
        builder: Builder,
        specific_msg: Seq<u8>,
        xsk: Option<Seq<char>>,
    ) -> bool {
        &&& forall|i: int|
            0 <= i < nexts.len() && #[trigger] runs_a_builder(nexts[i]) ==> nexts[i] == Self::runs(
                builder,
                replies,
            ) && Self::has_its_key(builder, replies)
        &&& match self {
            BuildTxView::TxArgs { builder: b, specific_msg: m, xsk: x } => {
                b == builder && m == specific_msg && x == xsk && nexts.len() == 0
            },
            BuildTxView::BuilderArgs { builder: b } => {
                b == builder && builder.spec_takes_payload() && nexts
                    == seq![
                    NextView::<BuiltTxView>::Perform(
                        EffectView::DecodeBuilderArgs { builder, specific_msg, xsk },
                    ),
                ]
            },
            BuildTxView::Epoch { builder: b } => {
                b == builder && builder.spec_needs_epoch() && nexts == Self::asked(
                    builder,
                    specific_msg,
                    xsk,
                )
            },
            BuildTxView::Building { builder: b } => {
                b == builder && nexts == Self::asked(builder, specific_msg, xsk).push(
                    Self::runs(builder, replies),
                )
            },
            BuildTxView::Finished => {
                nexts.len() > 0 && (nexts.last() matches NextView::Complete(built) ==> nexts
                    == Self::script(
                    builder,
                    specific_msg,
                    xsk,
                    Self::given_key(builder, replies),
                    built,
                ))
            },
        }
    }
}

/// Every run of a build stays on its script, and what it says first is
/// its answer to the first reply.
pub proof fn lemma_build_stays_on_script(
    builder: Builder,
    specific_msg: Seq<u8>,
    tx_msg: Seq<u8>,
    xsk: Option<Seq<char>>,
    replies: Seq<ReplyView>,
)
    ensures
        ({
            let start = BuildTxView::start(builder, specific_msg, tx_msg, xsk).0;
            let (state, nexts) = start.run(replies);
            &&& nexts.len() == replies.len()
            &&& state.on_script(replies, nexts, builder, specific_msg, xsk)
            &&& replies.len() > 0 ==> nexts[0] == start.step(replies[0]).1
            &&& replies.len() > 0 && start.step(replies[0]).0 is Finished ==> state is Finished
        }),
    decreases replies.len(),
{
    if replies.len() > 0 {
        let start = BuildTxView::start(builder, specific_msg, tx_msg, xsk).0;
        let before = replies.drop_last();
        lemma_build_stays_on_script(builder, specific_msg, tx_msg, xsk, before);
        let (mid, said) = start.run(before);
        let (state, nexts) = start.run(replies);
        assert(nexts == said.push(mid.step(replies.last()).1));
        if before.len() > 0 {
            assert(before[0] == replies[0]);
            assert(declared_keys(before) == declared_keys(replies));
        }
        assert forall|i: int|
            0 <= i < nexts.len() && #[trigger] runs_a_builder(nexts[i]) implies nexts[i]
            == BuildTxView::runs(builder, replies) && BuildTxView::has_its_key(
            builder,
            replies,
        ) by {
            if i < said.len() {
                assert(nexts[i] == said[i]);
            }
        }
    }
}

/// A build that comes to its result has run exactly one builder, the one
/// that its kind selects, after decoding the arguments, and its result is
/// what that builder made.
pub proof fn law_build_runs_the_selected_builder(
    builder: Builder,
    specific_msg: Seq<u8>,
    tx_msg: Seq<u8>,
    xsk: Option<Seq<char>>,
    replies: Seq<ReplyView>,
)
    requires
        completes(BuildTxView::start(builder, specific_msg, tx_msg, xsk).0.run(replies).1),
    ensures
        replies.len() > 0,
        replies.last() matches ReplyView::Built(built) && BuildTxView::start(
            builder,
            specific_msg,
            tx_msg,
            xsk,
        ).0.run(replies).1 == BuildTxView::script(
            builder,
            specific_msg,
            xsk,
            BuildTxView::given_key(builder, replies),
            built,
        ),
{
    lemma_build_stays_on_script(builder, specific_msg, tx_msg, xsk, replies);
    lemma_build_stays_on_script(builder, specific_msg, tx_msg, xsk, replies.drop_last());
}

/// In a build that comes to its result no builder runs but the selected
/// one, and it runs once: it is the last thing asked for.
pub proof fn law_no_other_builder_runs(
    builder: Builder,
    specific_msg: Seq<u8>,
    tx_msg: Seq<u8>,
    xsk: Option<Seq<char>>,
    replies: Seq<ReplyView>,
)
    requires
        completes(BuildTxView::start(builder, specific_msg, tx_msg, xsk).0.run(replies).1),
    ensures
        ({
            let nexts = BuildTxView::start(builder, specific_msg, tx_msg, xsk).0.run(replies).1;
            &&& nexts.len() >= 2
            &&& nexts[nexts.len() - 2] == BuildTxView::runs(builder, replies)
            &&& forall|i: int|
                0 <= i < nexts.len() ==> (#[trigger] runs_a_builder(nexts[i]) <==> i == nexts.len()
                    - 2)
        }),
{
    law_build_runs_the_selected_builder(builder, specific_msg, tx_msg, xsk, replies);
}

/// In every run of a build, whether it comes to a result or not, a
/// builder is asked for only as the selected one. The reveal builder is
/// asked for only where the shared arguments declare a signing key, and
/// is then given the first of them; every other builder is given none.
pub proof fn law_builder_is_given_the_first_key(
    builder: Builder,
    specific_msg: Seq<u8>,
    tx_msg: Seq<u8>,
    xsk: Option<Seq<char>>,
    replies: Seq<ReplyView>,
    i: int,
)
    requires
        0 <= i < replies.len(),
        runs_a_builder(BuildTxView::start(builder, specific_msg, tx_msg, xsk).0.run(replies).1[i]),
    ensures
        ({
            let next = BuildTxView::start(builder, specific_msg, tx_msg, xsk).0.run(replies).1[i];
            &&& next matches NextView::Perform(EffectView::RunBuilder { builder: b, to_reveal })
            &&& b == builder
            &&& builder is RevealPk ==> (replies[0] matches ReplyView::Args { signing_keys }
                && signing_keys.len() > 0 && to_reveal == Some(signing_keys[0]))
            &&& !(builder is RevealPk) ==> to_reveal is None
        }),
{
    lemma_build_stays_on_script(builder, specific_msg, tx_msg, xsk, replies);
}

/// The build of a reveal whose shared arguments declare no signing key
/// fails at once, whatever the host replies afterwards: it never asks
/// for the builder and never comes to a result.
pub proof fn law_reveal_without_a_key_is_not_built(
    specific_msg: Seq<u8>,
    tx_msg: Seq<u8>,
    xsk: Option<Seq<char>>,
    replies: Seq<ReplyView>,
)
    requires
        replies.len() > 0,
        replies[0] == (ReplyView::Args { signing_keys: Seq::empty() }),
    ensures
        ({
            let (state, nexts) = BuildTxView::start(
                Builder::RevealPk,
                specific_msg,
                tx_msg,
                xsk,
            ).0.run(replies);
            &&& state is Finished
            &&& nexts.len() == replies.len()
            &&& nexts[0] == NextView::<BuiltTxView>::Fail(SdkErrorView::NoSigningKey)
            &&& forall|i: int| 0 <= i < nexts.len() ==> !#[trigger] runs_a_builder(nexts[i])
            &&& !completes(nexts)
        }),
{
    lemma_build_stays_on_script(Builder::RevealPk, specific_msg, tx_msg, xsk, replies);
    let nexts = BuildTxView::start(Builder::RevealPk, specific_msg, tx_msg, xsk).0.run(replies).1;
    if completes(nexts) {
        law_no_other_builder_runs(Builder::RevealPk, specific_msg, tx_msg, xsk, replies);
        assert(runs_a_builder(nexts[nexts.len() - 2]));
    }
}

/// Argument bytes that do not decode end the build with a decode error
/// that names what could not be read, whatever the kind.
pub proof fn law_undecodable_arguments_fail(flow: BuildTxView, text: Seq<char>)
    ensures
        flow is TxArgs ==> flow.step(ReplyView::Failed(text)) == BuildTxView::fail(
            SdkErrorView::Decode(Payload::TxArgs),
        ),
        flow matches BuildTxView::BuilderArgs { builder } ==> flow.step(ReplyView::Failed(text))
            == BuildTxView::fail(SdkErrorView::Decode(Payload::BuilderArgs(builder))),
{
}

impl BuildTx {
    /// Begins a build with `builder`. `specific_msg` is read only where
    /// the builder takes a payload of its own.
    pub fn start(builder: Builder, specific_msg: &[u8], tx_msg: &[u8], xsk: Option<String>) -> (r:
        (BuildTx, Effect))
        ensures
            r@ == BuildTxView::start(builder, specific_msg@, tx_msg@, opt_text(xsk)),
    {
        (
            BuildTx::TxArgs {
                builder,
                specific_msg: vstd::slice::slice_to_vec(specific_msg),
                xsk,
            },
            Effect::DecodeTxArgs { tx_msg: vstd::slice::slice_to_vec(tx_msg) },
        )
    }

    fn decoded(builder: Builder) -> (r: (BuildTx, Next<BuiltTx>))
        ensures
            r@ == BuildTxView::decoded(builder),
    {
        if builder.needs_epoch() {
            (BuildTx::Epoch { builder }, Next::Perform(Effect::QueryEpoch))
        } else {
            (
                BuildTx::Building { builder },
                Next::Perform(Effect::RunBuilder { builder, to_reveal: None }),
            )
        }
    }

    fn fail(error: SdkError) -> (r: (BuildTx, Next<BuiltTx>))
        ensures
            r@ == BuildTxView::fail(error@),
    {
        (BuildTx::Finished, Next::Fail(error))
    }

    /// Takes the host's reply to the pending effect and says what comes
    /// next.
    pub fn step(self, reply: Reply) -> (r: (BuildTx, Next<BuiltTx>))
        ensures
            r@ == self@.step(reply@),
    {
        match (self, reply) {
            (BuildTx::TxArgs { builder, specific_msg, xsk }, Reply::Args { signing_keys }) => {
                if builder.takes_payload() {
                    (
                        BuildTx::BuilderArgs { builder },
                        Next::Perform(Effect::DecodeBuilderArgs { builder, specific_msg, xsk }),
                    )
                } else {
                    match first_key(signing_keys) {
                        Some(public_key) => (
                            BuildTx::Building { builder },
                            Next::Perform(
                                Effect::RunBuilder { builder, to_reveal: Some(public_key) },
                            ),
                        ),
                        None => Self::fail(SdkError::NoSigningKey),
                    }
                }
            },
            (BuildTx::TxArgs { .. }, Reply::Failed(_)) => Self::fail(
                SdkError::Decode(Payload::TxArgs),
            ),
            (BuildTx::BuilderArgs { builder }, Reply::Done) => Self::decoded(builder),
            (BuildTx::BuilderArgs { builder }, Reply::Failed(_)) => Self::fail(
                SdkError::Decode(Payload::BuilderArgs(builder)),
            ),
            (BuildTx::Epoch { builder }, Reply::Done) => (
                BuildTx::Building { builder },
                Next::Perform(Effect::RunBuilder { builder, to_reveal: None }),
            ),
            (BuildTx::Epoch { .. }, Reply::Failed(text)) => Self::fail(SdkError::Query(text)),
            (BuildTx::Building { .. }, Reply::Built(built)) => (
                BuildTx::Finished,
                Next::Complete(built),
            ),
            (BuildTx::Building { .. }, Reply::MissingKey(text)) => Self::fail(
                SdkError::KeyNotFound(text),
            ),
            (BuildTx::Building { .. }, Reply::Failed(text)) => Self::fail(SdkError::Builder(text)),
            _ => Self::fail(SdkError::OutOfOrder),
        }
    }
}

} // verus!
