//! Completing a transaction with signatures made outside this process.

use crate::error::{Payload, SdkError, SdkErrorView};
use crate::flow::{completes, Effect, EffectView, Next, NextView, Reply, ReplyView};
use crate::signature::{
    SignatureMsg, SignatureMsgView, SignatureSection, SignatureSectionView,
};
use vstd::prelude::*;

verus! {

/// The state of an appending: what the host is busy with.
#[derive(Clone, Debug, PartialEq, Eq)]
pub enum AppendSignature {
    /// Decoding the transaction.
    Tx { sig_msg_bytes: Vec<u8> },
    /// Adding the signature over the raw section.
    RawSection { wrapper: SignatureSection },
    /// Adding the signature over the wrapper section.
    WrapperSection,
    /// Dropping what must not be submitted.
    Filter,
    /// Putting the transaction in its wire form.
    Bytes,
    /// Over.
    Finished,
}

pub enum AppendSignatureView {
    Tx { sig_msg_bytes: Seq<u8> },
    RawSection { wrapper: SignatureSectionView },
    WrapperSection,
    Filter,
    Bytes,
    Finished,
}

impl View for AppendSignature {
    type V = AppendSignatureView;

    open spec fn view(&self) -> AppendSignatureView {
        match self {
            AppendSignature::Tx { sig_msg_bytes } => AppendSignatureView::Tx {
                sig_msg_bytes: sig_msg_bytes@,
            },
            AppendSignature::RawSection { wrapper } => AppendSignatureView::RawSection {
                wrapper: wrapper@,
            },
            AppendSignature::WrapperSection => AppendSignatureView::WrapperSection,
            AppendSignature::Filter => AppendSignatureView::Filter,
            AppendSignature::Bytes => AppendSignatureView::Bytes,
            AppendSignature::Finished => AppendSignatureView::Finished,
        }
    }
}

/// Whether `next` asks for a section to be added to the transaction.
pub open spec fn adds_section(next: NextView<Seq<u8>>) -> bool {
    next matches NextView::Perform(EffectView::AddSignatureSection { .. })
}

impl AppendSignatureView {
    /// An appending begins by decoding the transaction.
    pub open spec fn start(tx_bytes: Seq<u8>, sig_msg_bytes: Seq<u8>) -> (
        AppendSignatureView,
        EffectView,
    ) {
        (AppendSignatureView::Tx { sig_msg_bytes }, EffectView::DecodeTx { tx_bytes })
    }

    /// The end of an appending that has no result.
    pub open spec fn fail(error: SdkErrorView) -> (AppendSignatureView, NextView<Seq<u8>>) {
        (AppendSignatureView::Finished, NextView::Fail(error))
    }

    /// From a state and the host's reply to the next state and what the
    /// host does next.
    pub open spec fn step(self, reply: ReplyView) -> (AppendSignatureView, NextView<Seq<u8>>) {
        match (self, reply) {
            (AppendSignatureView::Tx { sig_msg_bytes }, ReplyView::Done) => {
                match SignatureMsgView::decoding(sig_msg_bytes) {
                    Some(msg) => (
                        AppendSignatureView::RawSection { wrapper: msg.wrapper_section() },
                        NextView::Perform(
                            EffectView::AddSignatureSection { section: msg.raw_section() },
                        ),
                    ),
                    None => Self::fail(SdkErrorView::Decode(Payload::SignatureMsg)),
                }
            },
            (AppendSignatureView::Tx { .. }, ReplyView::Failed(_)) => Self::fail(
                SdkErrorView::Decode(Payload::Tx),
            ),
            (AppendSignatureView::RawSection { wrapper }, ReplyView::Done) => (
                AppendSignatureView::WrapperSection,
                NextView::Perform(EffectView::AddSignatureSection { section: wrapper }),
            ),
            (AppendSignatureView::RawSection { .. }, ReplyView::Failed(_)) => Self::fail(
                SdkErrorView::Decode(Payload::SignatureSection),
            ),
            (AppendSignatureView::WrapperSection, ReplyView::Done) => (
                AppendSignatureView::Filter,
                NextView::Perform(EffectView::ProtocolFilter),
            ),
            (AppendSignatureView::WrapperSection, ReplyView::Failed(_)) => Self::fail(
                SdkErrorView::Decode(Payload::SignatureSection),
            ),
            (AppendSignatureView::Filter, ReplyView::Done) => (
                AppendSignatureView::Bytes,
                NextView::Perform(EffectView::SerializeTx),
            ),
            (AppendSignatureView::Bytes, ReplyView::Bytes(bytes)) => (
                AppendSignatureView::Finished,
                NextView::Complete(bytes),
            ),
            (AppendSignatureView::Bytes, ReplyView::Failed(text)) => Self::fail(
                SdkErrorView::Encode(text),
            ),
            _ => Self::fail(SdkErrorView::OutOfOrder),
        }
    }

    /// The flow stepped with each reply in turn: where it stands then, and
    /// what it said after each reply.
    pub open spec fn run(self, replies: Seq<ReplyView>) -> (
        AppendSignatureView,
        Seq<NextView<Seq<u8>>>,
    )
        decreases replies.len(),
    {
        if replies.len() == 0 {
            (self, Seq::empty())
        } else {
            let (state, nexts) = self.run(replies.drop_last());
            let (state, next) = state.step(replies.last());
            (state, nexts.push(next))
        }
    }

    /// What an appending of the bundle `msg` says, reply after reply, when
    /// the completed transaction comes out as `bytes`: it adds the
    /// signature over the raw section, then the one over the wrapper, has
    /// the transaction filtered, and puts it in its wire form.
    pub open spec fn script(msg: SignatureMsgView, bytes: Seq<u8>) -> Seq<NextView<Seq<u8>>> {
        seq![
            NextView::Perform(EffectView::AddSignatureSection { section: msg.raw_section() }),
            NextView::Perform(EffectView::AddSignatureSection { section: msg.wrapper_section() }),
            NextView::Perform(EffectView::ProtocolFilter),
            NextView::Perform(EffectView::SerializeTx),
            NextView::Complete(bytes),
        ]
    }

    /// What holds of an appending that began with `sig_msg_bytes`,
    /// wherever it stands: what it has said so far is the part of the
    /// script that leads to its state.
    pub open spec fn on_script(
        self,
        nexts: Seq<NextView<Seq<u8>>>,
        sig_msg_bytes: Seq<u8>,
    ) -> bool {
        let decoded = SignatureMsgView::decoding(sig_msg_bytes);
        match self {
            AppendSignatureView::Tx { sig_msg_bytes: b } => {
                b == sig_msg_bytes && nexts.len() == 0
            },
            AppendSignatureView::RawSection { wrapper } => {
                decoded matches Some(msg) && wrapper == msg.wrapper_section() && nexts
                    == Self::script(msg, Seq::empty()).take(1)
            },
            AppendSignatureView::WrapperSection => {
                decoded matches Some(msg) && nexts == Self::script(msg, Seq::empty()).take(2)
            },
            AppendSignatureView::Filter => {
                decoded matches Some(msg) && nexts == Self::script(msg, Seq::empty()).take(3)
            },
            AppendSignatureView::Bytes => {
                decoded matches Some(msg) && nexts == Self::script(msg, Seq::empty()).take(4)
            },
            AppendSignatureView::Finished => {
                nexts.len() > 0 && (nexts.last() matches NextView::Complete(bytes) ==> (
                decoded matches Some(msg) && nexts == Self::script(msg, bytes)))
            },
        }
    }
}

/// Every run of an appending stays on its script.
pub proof fn lemma_appending_stays_on_script(
    tx_bytes: Seq<u8>,
    sig_msg_bytes: Seq<u8>,
    replies: Seq<ReplyView>,
)
    ensures
        ({
            let (state, nexts) = AppendSignatureView::start(tx_bytes, sig_msg_bytes).0.run(
                replies,
            );
            nexts.len() == replies.len() && state.on_script(nexts, sig_msg_bytes)
        }),
    decreases replies.len(),
{
    if replies.len() > 0 {
        lemma_appending_stays_on_script(tx_bytes, sig_msg_bytes, replies.drop_last());
        let (mid, said) = AppendSignatureView::start(tx_bytes, sig_msg_bytes).0.run(
            replies.drop_last(),
        );
        if let Some(msg) = SignatureMsgView::decoding(sig_msg_bytes) {
            let blank = AppendSignatureView::script(msg, Seq::empty());
            assert(said.len() == 0 ==> said.push(blank[0]) =~= blank.take(1));
            assert(blank.take(1).push(blank[1]) =~= blank.take(2));
            assert(blank.take(2).push(blank[2]) =~= blank.take(3));
            assert(blank.take(3).push(blank[3]) =~= blank.take(4));
            assert(forall|bytes: Seq<u8>|
                blank.take(4).push(NextView::Complete(bytes)) =~= #[trigger] AppendSignatureView::script(
                    msg,
                    bytes,
                ));
        }
    }
}

/// An appending that comes to its result has read a bundle from the
/// signature bytes and followed the script for it, and its result is the
/// transaction's wire form as the host made it last.
pub proof fn law_appending_follows_script(
    tx_bytes: Seq<u8>,
    sig_msg_bytes: Seq<u8>,
    replies: Seq<ReplyView>,
)
    requires
        completes(AppendSignatureView::start(tx_bytes, sig_msg_bytes).0.run(replies).1),
    ensures
        replies.len() == 5,
        SignatureMsgView::decoding(sig_msg_bytes) matches Some(msg) && replies.last() matches ReplyView::Bytes(
            bytes,
        ) && AppendSignatureView::start(tx_bytes, sig_msg_bytes).0.run(replies).1
            == AppendSignatureView::script(msg, bytes),
{
    lemma_appending_stays_on_script(tx_bytes, sig_msg_bytes, replies);
    lemma_appending_stays_on_script(tx_bytes, sig_msg_bytes, replies.drop_last());
}

/// An appending only adds: in one that comes to its result the
/// transaction is asked to take exactly two more sections, first the
/// signature over the raw section and then the one over the wrapper, both
/// attested by the bundle's public key. Nothing else is asked of the
/// transaction but the filtering that follows them and its wire form.
pub proof fn law_appending_adds_two_sections(
    tx_bytes: Seq<u8>,
    sig_msg_bytes: Seq<u8>,
    replies: Seq<ReplyView>,
)
    requires
        completes(AppendSignatureView::start(tx_bytes, sig_msg_bytes).0.run(replies).1),
    ensures
        ({
            let nexts = AppendSignatureView::start(tx_bytes, sig_msg_bytes).0.run(replies).1;
            &&& nexts.len() == 5
            &&& forall|i: int|
                0 <= i < nexts.len() ==> (#[trigger] adds_section(nexts[i]) <==> i == 0 || i == 1)
            &&& SignatureMsgView::decoding(sig_msg_bytes) matches Some(msg)
            &&& nexts[0] matches NextView::Perform(EffectView::AddSignatureSection { section: raw })
            &&& nexts[1] matches NextView::Perform(
                EffectView::AddSignatureSection { section: wrapper },
            )
            &&& raw.pubkey == msg.pubkey && raw.indices == msg.raw_indices && raw.signature
                == msg.raw_signature
            &&& wrapper.pubkey == msg.pubkey && wrapper.indices == msg.wrapper_indices
                && wrapper.signature == msg.wrapper_signature
            &&& nexts[2] == NextView::<Seq<u8>>::Perform(EffectView::ProtocolFilter)
            &&& nexts[3] == NextView::<Seq<u8>>::Perform(EffectView::SerializeTx)
        }),
{
    law_appending_follows_script(tx_bytes, sig_msg_bytes, replies);
}

impl AppendSignature {
    /// Begins the appending of the signatures in `sig_msg_bytes` to the
    /// transaction in `tx_bytes`.
    pub fn start(tx_bytes: &[u8], sig_msg_bytes: &[u8]) -> (r: (AppendSignature, Effect))
        ensures
            r@ == AppendSignatureView::start(tx_bytes@, sig_msg_bytes@),
    {
        (
            AppendSignature::Tx { sig_msg_bytes: vstd::slice::slice_to_vec(sig_msg_bytes) },
            Effect::DecodeTx { tx_bytes: vstd::slice::slice_to_vec(tx_bytes) },
        )
    }

    fn fail(error: SdkError) -> (r: (AppendSignature, Next<Vec<u8>>))
        ensures
            r@ == AppendSignatureView::fail(error@),
    {
        (AppendSignature::Finished, Next::Fail(error))
    }

    /// Takes the host's reply to the pending effect and says what comes
    /// next.
    pub fn step(self, reply: Reply) -> (r: (AppendSignature, Next<Vec<u8>>))
        ensures
            r@ == self@.step(reply@),
    {
        match (self, reply) {
            (AppendSignature::Tx { sig_msg_bytes }, Reply::Done) => {
                match SignatureMsg::try_from_slice(sig_msg_bytes.as_slice()) {
                    Ok(msg) => {
                        let (raw, wrapper) = msg.into_sections();
                        (
                            AppendSignature::RawSection { wrapper },
                            Next::Perform(Effect::AddSignatureSection { section: raw }),
                        )
                    },
                    Err(error) => Self::fail(error),
                }
            },
            (AppendSignature::Tx { .. }, Reply::Failed(_)) => Self::fail(
                SdkError::Decode(Payload::Tx),
            ),
            (AppendSignature::RawSection { wrapper }, Reply::Done) => (
                AppendSignature::WrapperSection,
                Next::Perform(Effect::AddSignatureSection { section: wrapper }),
            ),
            (AppendSignature::RawSection { .. }, Reply::Failed(_)) => Self::fail(
                SdkError::Decode(Payload::SignatureSection),
            ),
            (AppendSignature::WrapperSection, Reply::Done) => (
                AppendSignature::Filter,
                Next::Perform(Effect::ProtocolFilter),
            ),
            (AppendSignature::WrapperSection, Reply::Failed(_)) => Self::fail(
                SdkError::Decode(Payload::SignatureSection),
            ),
            (AppendSignature::Filter, Reply::Done) => (
                AppendSignature::Bytes,
                Next::Perform(Effect::SerializeTx),
            ),
            (AppendSignature::Bytes, Reply::Bytes(bytes)) => (
                AppendSignature::Finished,
                Next::Complete(bytes),
            ),
            (AppendSignature::Bytes, Reply::Failed(text)) => Self::fail(SdkError::Encode(text)),
            _ => Self::fail(SdkError::OutOfOrder),
        }
    }
}

} // verus!
