//! What a flow asks of its host, what the host answers, and how a flow
//! goes on from the answer.
//!
//! A flow never calls the ledger. It names one effect at a time; the host
//! performs it against the ledger, the wallet and the transaction it holds,
//! and hands back a reply. From its state and the reply the flow decides
//! what comes next.

use crate::error::{SdkError, SdkErrorView};
use crate::kinds::Builder;
use crate::signature::{SignatureSection, SignatureSectionView};
use crate::tx::{list_view, opt_bytes, opt_text, BuiltTx, BuiltTxView};
use vstd::prelude::*;

verus! {

/// The key that signs the wrapper section.
#[derive(Clone, Copy, Debug, PartialEq, Eq)]
pub enum WrapperKey {
    /// The key that the wallet holds for the fee payer.
    FeePayer,
    /// The key that signs the raw section.
    Signer,
}

/// One call that the host makes for a flow. The host answers `Done` when
/// the call went through and `Failed`, with the failure's text, when it
/// did not, unless another reply is named here.
#[derive(Clone, Debug, PartialEq, Eq)]
pub enum Effect {
    /// Read the signing key from its hex form.
    ParseSecretKey { encoded: String },
    /// Take the well-known key that stands in for a shielded source. This
    /// cannot fail.
    UseShieldedKey,
    /// Decode the arguments shared by all transactions. The reply is
    /// `Args`, with the signing keys that the arguments declare, or
    /// `Failed`.
    DecodeTxArgs { tx_msg: Vec<u8> },
    /// Decode the arguments of one builder. `xsk` is the spending key of a
    /// shielded source, which only a transfer may have.
    DecodeBuilderArgs { builder: Builder, specific_msg: Vec<u8>, xsk: Option<String> },
    /// Ask the chain for its current epoch.
    QueryEpoch,
    /// Run a builder on the decoded arguments. `to_reveal` is the key to
    /// reveal, which the reveal builder is given and no other. The reply
    /// is `Built` with what the builder made, `MissingKey` where the
    /// wallet lacks a key that the builder needs, or `Failed`.
    RunBuilder { builder: Builder, to_reveal: Option<Vec<u8>> },
    /// Decode a transaction from its wire form; it is the transaction that
    /// the later effects of the flow work on.
    DecodeTx { tx_bytes: Vec<u8> },
    /// Sign the raw section with the signing key. This cannot fail.
    SignRaw { account_public_keys_map: Vec<u8>, owner: Option<Vec<u8>> },
    /// Look in the wallet for the secret key of the fee payer. The reply
    /// is `Done` where the wallet has it, else `MissingKey` or `Failed`.
    FindFeePayerKey { fee_payer: Vec<u8> },
    /// Sign the wrapper section. This cannot fail.
    SignWrapper { key: WrapperKey },
    /// Make a signature section and add it to the transaction. It fails
    /// where the public key or the signature cannot be read.
    AddSignatureSection { section: SignatureSection },
    /// Drop the sections that must not be submitted. This cannot fail.
    ProtocolFilter,
    /// Put the transaction in its wire form. The reply is `Bytes` or
    /// `Failed`.
    SerializeTx,
    /// Ask the chain whether `public_key` has yet to be revealed for its
    /// address. The reply is `Flag` or `Failed`.
    QueryRevealNeeded { public_key: Vec<u8> },
    /// Submit the decoded transaction and wait for its result.
    Broadcast,
}

pub enum EffectView {
    ParseSecretKey { encoded: Seq<char> },
    UseShieldedKey,
    DecodeTxArgs { tx_msg: Seq<u8> },
    DecodeBuilderArgs { builder: Builder, specific_msg: Seq<u8>, xsk: Option<Seq<char>> },
    QueryEpoch,
    RunBuilder { builder: Builder, to_reveal: Option<Seq<u8>> },
    DecodeTx { tx_bytes: Seq<u8> },
    SignRaw { account_public_keys_map: Seq<u8>, owner: Option<Seq<u8>> },
    FindFeePayerKey { fee_payer: Seq<u8> },
    SignWrapper { key: WrapperKey },
    AddSignatureSection { section: SignatureSectionView },
    ProtocolFilter,
    SerializeTx,
    QueryRevealNeeded { public_key: Seq<u8> },
    Broadcast,
}

impl View for Effect {
    type V = EffectView;

    open spec fn view(&self) -> EffectView {
        match self {
            Effect::ParseSecretKey { encoded } => EffectView::ParseSecretKey { encoded: encoded@ },
            Effect::UseShieldedKey => EffectView::UseShieldedKey,
            Effect::DecodeTxArgs { tx_msg } => EffectView::DecodeTxArgs { tx_msg: tx_msg@ },
            Effect::DecodeBuilderArgs { builder, specific_msg, xsk } => {
                EffectView::DecodeBuilderArgs {
                    builder: *builder,
                    specific_msg: specific_msg@,
                    xsk: opt_text(*xsk),
                }
            },
            Effect::QueryEpoch => EffectView::QueryEpoch,
            Effect::RunBuilder { builder, to_reveal } => EffectView::RunBuilder {
                builder: *builder,
                to_reveal: opt_bytes(*to_reveal),
            },
            Effect::DecodeTx { tx_bytes } => EffectView::DecodeTx { tx_bytes: tx_bytes@ },
            Effect::SignRaw { account_public_keys_map, owner } => EffectView::SignRaw {
                account_public_keys_map: account_public_keys_map@,
                owner: opt_bytes(*owner),
            },
            Effect::FindFeePayerKey { fee_payer } => EffectView::FindFeePayerKey {
                fee_payer: fee_payer@,
            },
            Effect::SignWrapper { key } => EffectView::SignWrapper { key: *key },
            Effect::AddSignatureSection { section } => EffectView::AddSignatureSection {
                section: section@,
            },
            Effect::ProtocolFilter => EffectView::ProtocolFilter,
            Effect::SerializeTx => EffectView::SerializeTx,
            Effect::QueryRevealNeeded { public_key } => EffectView::QueryRevealNeeded {
                public_key: public_key@,
            },
            Effect::Broadcast => EffectView::Broadcast,
        }
    }
}

/// The host's answer to an effect.
#[derive(Clone, Debug, PartialEq, Eq)]
pub enum Reply {
    /// The effect was performed and has nothing to hand back.
    Done,
    /// The shared arguments were decoded; these are the public keys that
    /// they declare as signing keys, each in its wire form, in order.
    Args { signing_keys: Vec<Vec<u8>> },
    /// The answer to a query.
    Flag(bool),
    /// A transaction in its wire form.
    Bytes(Vec<u8>),
    /// What a builder made.
    Built(BuiltTx),
    /// The wallet holds no key that the effect needs.
    MissingKey(String),
    /// The effect failed, with the failure's own text.
    Failed(String),
}

pub enum ReplyView {
    Done,
    Args { signing_keys: Seq<Seq<u8>> },
    Flag(bool),
    Bytes(Seq<u8>),
    Built(BuiltTxView),
    MissingKey(Seq<char>),
    Failed(Seq<char>),
}

impl View for Reply {
    type V = ReplyView;

    open spec fn view(&self) -> ReplyView {
        match self {
            Reply::Done => ReplyView::Done,
            Reply::Args { signing_keys } => ReplyView::Args {
                signing_keys: list_view(signing_keys@),
            },
            Reply::Flag(flag) => ReplyView::Flag(*flag),
            Reply::Bytes(bytes) => ReplyView::Bytes(bytes@),
            Reply::Built(built) => ReplyView::Built(built@),
            Reply::MissingKey(text) => ReplyView::MissingKey(text@),
            Reply::Failed(text) => ReplyView::Failed(text@),
        }
    }
}

/// How a flow goes on.
#[derive(Clone, Debug, PartialEq, Eq)]
pub enum Next<T> {
    /// The host performs the effect and steps the flow with its reply.
    Perform(Effect),
    /// The flow is over and this is its result.
    Complete(T),
    /// The flow is over and has no result.
    Fail(SdkError),
}

pub enum NextView<V> {
    Perform(EffectView),
    Complete(V),
    Fail(SdkErrorView),
}

impl<T: View> View for Next<T> {
    type V = NextView<T::V>;

    open spec fn view(&self) -> NextView<T::V> {
        match self {
            Next::Perform(effect) => NextView::Perform(effect@),
            Next::Complete(value) => NextView::Complete(value@),
            Next::Fail(error) => NextView::Fail(error@),
        }
    }
}

/// Whether a run of a flow came to its result: the last thing it said
/// was `Complete`.
pub open spec fn completes<V>(nexts: Seq<NextView<V>>) -> bool {
    nexts.len() > 0 && nexts.last() is Complete
}

} // verus!
