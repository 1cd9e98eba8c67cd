//! The failures a flow ends in.

use crate::kinds::Builder;
use vstd::prelude::*;

verus! {

/// The structure that a decoding step was reading when it failed.
#[derive(Clone, Copy, Debug, PartialEq, Eq)]
pub enum Payload {
    /// The hex form of a secret key.
    SecretKey,
    /// The arguments shared by all transactions.
    TxArgs,
    /// The arguments of one builder.
    BuilderArgs(Builder),
    /// A transaction in its wire form.
    Tx,
    /// A bundle of signatures made outside this process.
    SignatureMsg,
    /// The public key or signature inside such a bundle.
    SignatureSection,
}

/// Why a flow ended without a result. The texts are the host's own,
/// handed on as they came.
#[derive(Clone, Debug, PartialEq, Eq)]
pub enum SdkError {
    /// Bytes that do not decode; names what they were meant to hold.
    Decode(Payload),
    /// The shared arguments declare no signing key where the first of
    /// them is the key at issue.
    NoSigningKey,
    /// The wallet holds no key that a step needs.
    KeyNotFound(String),
    /// The builder turned the request down.
    Builder(String),
    /// A read of the chain's state failed.
    Query(String),
    /// The ledger did not take the transaction.
    Broadcast(String),
    /// The transaction could not be put in its wire form.
    Encode(String),
    /// The host answered with a reply that the pending effect cannot give.
    OutOfOrder,
}

pub enum SdkErrorView {
    Decode(Payload),
    NoSigningKey,
    KeyNotFound(Seq<char>),
    Builder(Seq<char>),
    Query(Seq<char>),
    Broadcast(Seq<char>),
    Encode(Seq<char>),
    OutOfOrder,
}

impl View for SdkError {
    type V = SdkErrorView;

    open spec fn view(&self) -> SdkErrorView {
        match self {
            SdkError::Decode(payload) => SdkErrorView::Decode(*payload),
            SdkError::NoSigningKey => SdkErrorView::NoSigningKey,
            SdkError::KeyNotFound(text) => SdkErrorView::KeyNotFound(text@),
            SdkError::Builder(text) => SdkErrorView::Builder(text@),
            SdkError::Query(text) => SdkErrorView::Query(text@),
            SdkError::Broadcast(text) => SdkErrorView::Broadcast(text@),
            SdkError::Encode(text) => SdkErrorView::Encode(text@),
            SdkError::OutOfOrder => SdkErrorView::OutOfOrder,
        }
    }
}

impl SdkErrorView {
    /// The host's text that the failure carries, if it carries one.
    pub open spec fn text(self) -> Option<Seq<char>> {
        match self {
            SdkErrorView::KeyNotFound(text) => Some(text),
            SdkErrorView::Builder(text) => Some(text),
            SdkErrorView::Query(text) => Some(text),
            SdkErrorView::Broadcast(text) => Some(text),
            SdkErrorView::Encode(text) => Some(text),
            SdkErrorView::Decode(_) => None,
            SdkErrorView::NoSigningKey => None,
            SdkErrorView::OutOfOrder => None,
        }
    }
}

impl SdkError {
    /// The host's text, unchanged, where the failure came from the host.
    pub fn text(&self) -> (text: Option<&String>)
        ensures
            match text {
                Some(t) => self@.text() == Some(t@),
                None => self@.text() is None,
            },
    {
        match self {
            SdkError::KeyNotFound(text) => Some(text),
            SdkError::Builder(text) => Some(text),
            SdkError::Query(text) => Some(text),
            SdkError::Broadcast(text) => Some(text),
            SdkError::Encode(text) => Some(text),
            SdkError::Decode(_) => None,
            SdkError::NoSigningKey => None,
            SdkError::OutOfOrder => None,
        }
    }
}

} // verus!
