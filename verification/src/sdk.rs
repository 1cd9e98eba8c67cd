//! The session: what a client holds between calls, and where every flow
//! begins.

use crate::append::{AppendSignature, AppendSignatureView};
use crate::dispatch::{law_no_other_builder_runs, runs_a_builder, BuildTx, BuildTxView};
use crate::flow::{completes, Effect, EffectView, NextView, ReplyView};
use crate::kinds::{law_one_builder_per_kind, Builder, TxType};
use crate::masp::{MaspParams, MaspParamsView};
use crate::process::{ProcessTx, ProcessTxView};
use crate::reveal_pk::{RevealPk, RevealPkView};
use crate::signing::{SignTx, SignTxView};
use crate::tx::{list_view, opt_text, BuiltTx, BuiltTxView};
use vstd::prelude::*;
use vstd::string::StringExecFns;

verus! {

/// The address of the chain's native token.
pub const NATIVE_TOKEN: &'static str = "tnam1qxuqn53dtcckynnm35n8s27cftxcqym7gvesjrp9";

/// One client session. The host keeps the connection to the ledger and the
/// wallet; the session keeps what identifies them and the shielded
/// parameters.
#[derive(Clone, Debug, PartialEq, Eq)]
pub struct Sdk {
    url: String,
    native_token: String,
    masp_params: Option<MaspParams>,
}

pub struct SdkView {
    pub url: Seq<char>,
    pub native_token: Seq<char>,
    pub masp_params: Option<MaspParamsView>,
}

impl View for Sdk {
    type V = SdkView;

    closed spec fn view(&self) -> SdkView {
        SdkView {
            url: self.url@,
            native_token: self.native_token@,
            masp_params: match self.masp_params {
                Some(params) => Some(params@),
                None => None,
            },
        }
    }
}

/// How a build for `tx_type` begins. The payload is read for every kind
/// but the reveal of a public key, which works from the shared arguments
/// alone; no kind is given a spending key.
pub open spec fn build_request(tx_type: TxType, specific_msg: Seq<u8>, tx_msg: Seq<u8>) -> (
    BuildTxView,
    EffectView,
) {
    BuildTxView::start(
        tx_type.spec_builder(),
        if tx_type is RevealPK {
            Seq::empty()
        } else {
            specific_msg
        },
        tx_msg,
        None,
    )
}

/// Whatever the kind, a build that comes to its result has run the
/// builder of that kind, once and as the last thing it asked for, and no
/// other builder; and no two kinds run the same builder.
pub proof fn law_build_selects_the_builder_of_its_kind(
    tx_type: TxType,
    other: TxType,
    specific_msg: Seq<u8>,
    tx_msg: Seq<u8>,
    replies: Seq<ReplyView>,
)
    requires
        completes(build_request(tx_type, specific_msg, tx_msg).0.run(replies).1),
    ensures
        ({
            let nexts = build_request(tx_type, specific_msg, tx_msg).0.run(replies).1;
            &&& nexts.len() >= 2
            &&& nexts[nexts.len() - 2] == BuildTxView::runs(tx_type.spec_builder(), replies)
            &&& forall|i: int|
                0 <= i < nexts.len() ==> (#[trigger] runs_a_builder(nexts[i]) <==> i == nexts.len()
                    - 2)
            &&& other != tx_type ==> other.spec_builder() != tx_type.spec_builder()
        }),
{
    let payload = if tx_type is RevealPK {
        Seq::empty()
    } else {
        specific_msg
    };
    law_no_other_builder_runs(tx_type.spec_builder(), payload, tx_msg, None, replies);
    law_one_builder_per_kind(tx_type, other, tx_type.spec_builder());
}

impl Sdk {
    /// A session with the ledger at `url`: the native token is the
    /// chain's, and no shielded parameters are loaded yet.
    pub fn new(url: String) -> (sdk: Sdk)
        ensures
            sdk@ == (SdkView { url: url@, native_token: NATIVE_TOKEN@, masp_params: None }),
    {
        Sdk { url, native_token: String::from_str(NATIVE_TOKEN), masp_params: None }
    }

    pub fn url(&self) -> (url: &String)
        ensures
            url@ == self@.url,
    {
        &self.url
    }

    pub fn native_token(&self) -> (address: &String)
        ensures
            address@ == self@.native_token,
    {
        &self.native_token
    }

    /// The shielded parameters, once they are loaded.
    pub fn masp_params(&self) -> (params: Option<&MaspParams>)
        ensures
            match params {
                Some(p) => self@.masp_params == Some(p@),
                None => self@.masp_params is None,
            },
    {
        self.masp_params.as_ref()
    }

    /// Installs the shielded parameters from three blobs, read in order as
    /// spend, output and convert. Whatever set was loaded before is
    /// replaced as a whole; nothing else of the session changes.
    pub fn load_masp_params(&mut self, params: Vec<Vec<u8>>)
        requires
            MaspParamsView::is_whole(list_view(params@)),
        ensures
            final(self)@ == (SdkView {
                masp_params: Some(MaspParamsView::of_blobs(list_view(params@))),
                ..old(self)@
            }),
    {
        self.masp_params = Some(MaspParams::from_blobs(params));
    }

    /// Begins the signing of a built transaction.
    pub fn sign_tx(&mut self, built_tx: BuiltTx, tx_msg: &[u8], private_key: Option<String>) -> (r:
        (SignTx, Effect))
        ensures
            r@ == SignTxView::start(built_tx@, tx_msg@, opt_text(private_key)),
            *final(self) == *old(self),
    {
        SignTx::start(built_tx, tx_msg, private_key)
    }

    /// Begins the submission of a signed transaction.
    pub fn process_tx(&mut self, tx_bytes: &[u8], tx_msg: &[u8]) -> (r: (ProcessTx, Effect))
        ensures
            r@ == ProcessTxView::start(tx_bytes@, tx_msg@),
            *final(self) == *old(self),
    {
        ProcessTx::start(tx_bytes, tx_msg)
    }

    /// Begins the build of a transaction of the given kind, with the one
    /// builder that the kind selects. The client gets the wire form of
    /// what the build ends with.
    pub fn build_tx(
        &mut self,
        tx_type: TxType,
        specific_msg: &[u8],
        tx_msg: &[u8],
        gas_payer: String,
    ) -> (r: (BuildTx, Effect))
        ensures
            r@ == build_request(tx_type, specific_msg@, tx_msg@),
            *final(self) == *old(self),
    {
        match tx_type {
            TxType::Bond => self.build_bond(specific_msg, tx_msg, Some(gas_payer)),
            TxType::Unbond => self.build_unbond(specific_msg, tx_msg, Some(gas_payer)),
            TxType::Withdraw => self.build_withdraw(specific_msg, tx_msg, Some(gas_payer)),
            TxType::Transfer => self.build_transfer(specific_msg, tx_msg, None, Some(gas_payer)),
            TxType::IBCTransfer => self.build_ibc_transfer(specific_msg, tx_msg, Some(gas_payer)),
            TxType::EthBridgeTransfer => self.build_eth_bridge_transfer(
                specific_msg,
                tx_msg,
                Some(gas_payer),
            ),
            TxType::RevealPK => self.build_reveal_pk(tx_msg, gas_payer),
            TxType::VoteProposal => self.build_vote_proposal(
                specific_msg,
                tx_msg,
                Some(gas_payer),
            ),
        }
    }

    /// Begins the appending of signatures made outside this process.
    pub fn append_signature(&self, tx_bytes: &[u8], sig_msg_bytes: &[u8]) -> (r: (
        AppendSignature,
        Effect,
    ))
        ensures
            r@ == AppendSignatureView::start(tx_bytes@, sig_msg_bytes@),
    {
        AppendSignature::start(tx_bytes, sig_msg_bytes)
    }

    /// Begins the build of a transfer. `xsk` is the spending key of a
    /// shielded source.
    pub fn build_transfer(
        &mut self,
        transfer_msg: &[u8],
        tx_msg: &[u8],
        xsk: Option<String>,
        _gas_payer: Option<String>,
    ) -> (r: (BuildTx, Effect))
        ensures
            r@ == BuildTxView::start(Builder::Transfer, transfer_msg@, tx_msg@, opt_text(xsk)),
            *final(self) == *old(self),
    {
        BuildTx::start(Builder::Transfer, transfer_msg, tx_msg, xsk)
    }

    pub fn build_ibc_transfer(
        &mut self,
        ibc_transfer_msg: &[u8],
        tx_msg: &[u8],
        _gas_payer: Option<String>,
    ) -> (r: (BuildTx, Effect))
        ensures
            r@ == BuildTxView::start(Builder::IbcTransfer, ibc_transfer_msg@, tx_msg@, None),
            *final(self) == *old(self),
    {
        BuildTx::start(Builder::IbcTransfer, ibc_transfer_msg, tx_msg, None)
    }

    pub fn build_eth_bridge_transfer(
        &mut self,
        eth_bridge_transfer_msg: &[u8],
        tx_msg: &[u8],
        _gas_payer: Option<String>,
    ) -> (r: (BuildTx, Effect))
        ensures
            r@ == BuildTxView::start(Builder::BridgePool, eth_bridge_transfer_msg@, tx_msg@, None),
            *final(self) == *old(self),
    {
        BuildTx::start(Builder::BridgePool, eth_bridge_transfer_msg, tx_msg, None)
    }

    /// Begins the build of a vote; its builder is given the chain's
    /// current epoch.
    pub fn build_vote_proposal(
        &mut self,
        vote_proposal_msg: &[u8],
        tx_msg: &[u8],
        _gas_payer: Option<String>,
    ) -> (r: (BuildTx, Effect))
        ensures
            r@ == BuildTxView::start(Builder::VoteProposal, vote_proposal_msg@, tx_msg@, None),
            *final(self) == *old(self),
    {
        BuildTx::start(Builder::VoteProposal, vote_proposal_msg, tx_msg, None)
    }

    pub fn build_bond(&mut self, bond_msg: &[u8], tx_msg: &[u8], _gas_payer: Option<String>) -> (r:
        (BuildTx, Effect))
        ensures
            r@ == BuildTxView::start(Builder::Bond, bond_msg@, tx_msg@, None),
            *final(self) == *old(self),
    {
        BuildTx::start(Builder::Bond, bond_msg, tx_msg, None)
    }

    pub fn build_unbond(
        &mut self,
        unbond_msg: &[u8],
        tx_msg: &[u8],
        _gas_payer: Option<String>,
    ) -> (r: (BuildTx, Effect))
        ensures
            r@ == BuildTxView::start(Builder::Unbond, unbond_msg@, tx_msg@, None),
            *final(self) == *old(self),
    {
        BuildTx::start(Builder::Unbond, unbond_msg, tx_msg, None)
    }

    pub fn build_withdraw(
        &mut self,
        withdraw_msg: &[u8],
        tx_msg: &[u8],
        _gas_payer: Option<String>,
    ) -> (r: (BuildTx, Effect))
        ensures
            r@ == BuildTxView::start(Builder::Withdraw, withdraw_msg@, tx_msg@, None),
            *final(self) == *old(self),
    {
        BuildTx::start(Builder::Withdraw, withdraw_msg, tx_msg, None)
    }

    /// Begins the build of the reveal of a public key: the first signing
    /// key that the shared arguments declare, which the flow hands to the
    /// builder. Where the arguments declare none the flow fails with
    /// `NoSigningKey` and the builder is not asked for.
    pub fn build_reveal_pk(&mut self, tx_msg: &[u8], _gas_payer: String) -> (r: (BuildTx, Effect))
        ensures
            r@ == BuildTxView::start(Builder::RevealPk, Seq::empty(), tx_msg@, None),
            *final(self) == *old(self),
    {
        let no_payload: Vec<u8> = Vec::new();
        BuildTx::start(Builder::RevealPk, no_payload.as_slice(), tx_msg, None)
    }

    /// Begins the reveal of a public key: the first signing key that the
    /// shared arguments declare. The flow asks the chain about that key
    /// and no other, and does nothing more where the chain knows it
    /// already. Where the arguments declare no key the flow fails with
    /// `NoSigningKey` before the chain is asked.
    pub fn reveal_pk(&mut self, signing_key: String, tx_msg: &[u8]) -> (r: (RevealPk, Effect))
        ensures
            r@ == RevealPkView::start(signing_key@, tx_msg@),
            *final(self) == *old(self),
    {
        RevealPk::start(signing_key, tx_msg)
    }
}

} // verus!
