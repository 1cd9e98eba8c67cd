//! Submitting a signed transaction.

use crate::error::{Payload, SdkError, SdkErrorView};
use crate::flow::{completes, Effect, EffectView, Next, NextView, Reply, ReplyView};
use vstd::prelude::*;

verus! {

/// The state of a submission: what the host is busy with.
#[derive(Clone, Debug, PartialEq, Eq)]
pub enum ProcessTx {
    /// Decoding the shared arguments.
    Args { tx_bytes: Vec<u8> },
    /// Decoding the transaction.
    Tx,
    /// Waiting for the ledger to take the transaction.
    Sending,
    /// Over.
    Finished,
}

pub enum ProcessTxView {
    Args { tx_bytes: Seq<u8> },
    Tx,
    Sending,
    Finished,
}

impl View for ProcessTx {
    type V = ProcessTxView;

    open spec fn view(&self) -> ProcessTxView {
        match self {
            ProcessTx::Args { tx_bytes } => ProcessTxView::Args { tx_bytes: tx_bytes@ },
            ProcessTx::Tx => ProcessTxView::Tx,
            ProcessTx::Sending => ProcessTxView::Sending,
            ProcessTx::Finished => ProcessTxView::Finished,
        }
    }
}

impl ProcessTxView {
    /// A submission begins by decoding the shared arguments.
    pub open spec fn start(tx_bytes: Seq<u8>, tx_msg: Seq<u8>) -> (ProcessTxView, EffectView) {
        (ProcessTxView::Args { tx_bytes }, EffectView::DecodeTxArgs { tx_msg })
    }

    /// The end of a submission that did not go through.
    pub open spec fn fail(error: SdkErrorView) -> (ProcessTxView, NextView<()>) {
        (ProcessTxView::Finished, NextView::Fail(error))
    }

    /// From a state and the host's reply to the next state and what the
    /// host does next.
    pub open spec fn step(self, reply: ReplyView) -> (ProcessTxView, NextView<()>) {
        match (self, reply) {
            (ProcessTxView::Args { tx_bytes }, ReplyView::Args { .. }) => (
                ProcessTxView::Tx,
                NextView::Perform(EffectView::DecodeTx { tx_bytes }),
            ),
            (ProcessTxView::Args { .. }, ReplyView::Failed(_)) => Self::fail(
                SdkErrorView::Decode(Payload::TxArgs),
            ),
            (ProcessTxView::Tx, ReplyView::Done) => (
                ProcessTxView::Sending,
                NextView::Perform(EffectView::Broadcast),
            ),
            (ProcessTxView::Tx, ReplyView::Failed(_)) => Self::fail(
                SdkErrorView::Decode(Payload::Tx),
            ),
            (ProcessTxView::Sending, ReplyView::Done) => (
                ProcessTxView::Finished,
                NextView::Complete(()),
            ),
            (ProcessTxView::Sending, ReplyView::Failed(text)) => Self::fail(
                SdkErrorView::Broadcast(text),
            ),
            _ => Self::fail(SdkErrorView::OutOfOrder),
        }
    }

    /// The flow stepped with each reply in turn: where it stands then, and
    /// what it said after each reply.
    pub open spec fn run(self, replies: Seq<ReplyView>) -> (ProcessTxView, Seq<NextView<()>>)
        decreases replies.len(),
    {
        if replies.len() == 0 {
            (self, Seq::empty())
        } else {
            let (state, nexts) = self.run(replies.drop_last());
            let (state, next) = state.step(replies.last());
            (state, nexts.push(next))
        }
    }

    /// What a submission says, reply after reply, when it goes through: it
    /// has the transaction decoded, then submitted, and ends.
    pub open spec fn script(tx_bytes: Seq<u8>) -> Seq<NextView<()>> {
        seq![
            NextView::Perform(EffectView::DecodeTx { tx_bytes }),
            NextView::Perform(EffectView::Broadcast),
            NextView::Complete(()),
        ]
    }

    /// What holds of a submission of `tx_bytes`, wherever it stands: what
    /// it has said so far is the part of the script that leads to its
    /// state.
    pub open spec fn on_script(self, nexts: Seq<NextView<()>>, tx_bytes: Seq<u8>) -> bool {
        match self {
            ProcessTxView::Args { tx_bytes: b } => b == tx_bytes && nexts.len() == 0,
            ProcessTxView::Tx => nexts == Self::script(tx_bytes).take(1),
            ProcessTxView::Sending => nexts == Self::script(tx_bytes).take(2),
            ProcessTxView::Finished => {
                nexts.len() > 0 && (nexts.last() is Complete ==> nexts == Self::script(tx_bytes))
            },
        }
    }
}

/// Every run of a submission stays on its script.
pub proof fn lemma_submission_stays_on_script(
    tx_bytes: Seq<u8>,
    tx_msg: Seq<u8>,
    replies: Seq<ReplyView>,
)
    ensures
        ({
            let (state, nexts) = ProcessTxView::start(tx_bytes, tx_msg).0.run(replies);
            nexts.len() == replies.len() && state.on_script(nexts, tx_bytes)
        }),
    decreases replies.len(),
{
    if replies.len() > 0 {
        lemma_submission_stays_on_script(tx_bytes, tx_msg, replies.drop_last());
        let (mid, said) = ProcessTxView::start(tx_bytes, tx_msg).0.run(replies.drop_last());
        let script = ProcessTxView::script(tx_bytes);
        assert(said.len() == 0 ==> said.push(script[0]) =~= script.take(1));
        assert(script.take(1).push(script[1]) =~= script.take(2));
        assert(script.take(2).push(script[2]) =~= script);
    }
}

/// A submission that goes through has handed the ledger exactly the
/// transaction it was given, once, after decoding the arguments and the
/// transaction.
pub proof fn law_submission_follows_script(
    tx_bytes: Seq<u8>,
    tx_msg: Seq<u8>,
    replies: Seq<ReplyView>,
)
    requires
        completes(ProcessTxView::start(tx_bytes, tx_msg).0.run(replies).1),
    ensures
        replies.len() == 3,
        ProcessTxView::start(tx_bytes, tx_msg).0.run(replies).1 == ProcessTxView::script(
            tx_bytes,
        ),
{
    lemma_submission_stays_on_script(tx_bytes, tx_msg, replies);
}

impl ProcessTx {
    /// Begins the submission of the transaction in `tx_bytes`.
    pub fn start(tx_bytes: &[u8], tx_msg: &[u8]) -> (r: (ProcessTx, Effect))
        ensures
            r@ == ProcessTxView::start(tx_bytes@, tx_msg@),
    {
        (
            ProcessTx::Args { tx_bytes: vstd::slice::slice_to_vec(tx_bytes) },
            Effect::DecodeTxArgs { tx_msg: vstd::slice::slice_to_vec(tx_msg) },
        )
    }

    fn fail(error: SdkError) -> (r: (ProcessTx, Next<()>))
        ensures
            r@ == ProcessTxView::fail(error@),
    {
        (ProcessTx::Finished, Next::Fail(error))
    }

    /// Takes the host's reply to the pending effect and says what comes
    /// next.
    pub fn step(self, reply: Reply) -> (r: (ProcessTx, Next<()>))
        ensures
            r@ == self@.step(reply@),
    {
        match (self, reply) {
            (ProcessTx::Args { tx_bytes }, Reply::Args { .. }) => (
                ProcessTx::Tx,
                Next::Perform(Effect::DecodeTx { tx_bytes }),
            ),
            (ProcessTx::Args { .. }, Reply::Failed(_)) => Self::fail(
                SdkError::Decode(Payload::TxArgs),
            ),
            (ProcessTx::Tx, Reply::Done) => (ProcessTx::Sending, Next::Perform(Effect::Broadcast)),
            (ProcessTx::Tx, Reply::Failed(_)) => Self::fail(SdkError::Decode(Payload::Tx)),
            (ProcessTx::Sending, Reply::Done) => (ProcessTx::Finished, Next::Complete(())),
            (ProcessTx::Sending, Reply::Failed(text)) => Self::fail(SdkError::Broadcast(text)),
            _ => Self::fail(SdkError::OutOfOrder),
        }
    }
}

} // verus!
