//! The closed set of transaction kinds and the builder each one selects.

use vstd::prelude::*;

verus! {

/// The kinds of transaction a client can ask for.
#[derive(Clone, Copy, Debug, PartialEq, Eq)]
pub enum TxType {
    Bond,
    Unbond,
    Withdraw,
    Transfer,
    IBCTransfer,
    EthBridgeTransfer,
    RevealPK,
    VoteProposal,
}

/// The ledger's builder entry points, one per transaction kind.
#[derive(Clone, Copy, Debug, PartialEq, Eq)]
pub enum Builder {
    Bond,
    Unbond,
    Withdraw,
    Transfer,
    IbcTransfer,
    BridgePool,
    RevealPk,
    VoteProposal,
}

impl TxType {
    /// The number by which a kind crosses the boundary to the client.
    pub open spec fn spec_code(self) -> u8 {
        match self {
            TxType::Bond => 1,
            TxType::Unbond => 2,
            TxType::Withdraw => 3,
            TxType::Transfer => 4,
            TxType::IBCTransfer => 5,
            TxType::EthBridgeTransfer => 6,
            TxType::RevealPK => 7,
            TxType::VoteProposal => 8,
        }
    }

    /// The kind a number stands for, if any.
    pub open spec fn spec_from_code(code: u8) -> Option<TxType> {
        if code == 1 {
            Some(TxType::Bond)
        } else if code == 2 {
            Some(TxType::Unbond)
        } else if code == 3 {
            Some(TxType::Withdraw)
        } else if code == 4 {
            Some(TxType::Transfer)
        } else if code == 5 {
            Some(TxType::IBCTransfer)
        } else if code == 6 {
            Some(TxType::EthBridgeTransfer)
        } else if code == 7 {
            Some(TxType::RevealPK)
        } else if code == 8 {
            Some(TxType::VoteProposal)
        } else {
            None
        }
    }

    /// The builder that a kind selects.
    pub open spec fn spec_builder(self) -> Builder {
        match self {
            TxType::Bond => Builder::Bond,
            TxType::Unbond => Builder::Unbond,
            TxType::Withdraw => Builder::Withdraw,
            TxType::Transfer => Builder::Transfer,
            TxType::IBCTransfer => Builder::IbcTransfer,
            TxType::EthBridgeTransfer => Builder::BridgePool,
            TxType::RevealPK => Builder::RevealPk,
            TxType::VoteProposal => Builder::VoteProposal,
        }
    }

    #[verifier::when_used_as_spec(spec_code)]
    pub fn code(self) -> (code: u8)
        ensures
            code == self.spec_code(),
            1 <= code <= 8,
    {
        match self {
            TxType::Bond => 1,
            TxType::Unbond => 2,
            TxType::Withdraw => 3,
            TxType::Transfer => 4,
            TxType::IBCTransfer => 5,
            TxType::EthBridgeTransfer => 6,
            TxType::RevealPK => 7,
            TxType::VoteProposal => 8,
        }
    }

    pub fn from_code(code: u8) -> (kind: Option<TxType>)
        ensures
            kind == TxType::spec_from_code(code),
            kind is Some <==> 1 <= code <= 8,
            kind matches Some(k) ==> k.spec_code() == code,
    {
        match code {
            1 => Some(TxType::Bond),
            2 => Some(TxType::Unbond),
            3 => Some(TxType::Withdraw),
            4 => Some(TxType::Transfer),
            5 => Some(TxType::IBCTransfer),
            6 => Some(TxType::EthBridgeTransfer),
            7 => Some(TxType::RevealPK),
            8 => Some(TxType::VoteProposal),
            _ => None,
        }
    }

    #[verifier::when_used_as_spec(spec_builder)]
    pub fn builder(self) -> (builder: Builder)
        ensures
            builder == self.spec_builder(),
    {
        match self {
            TxType::Bond => Builder::Bond,
            TxType::Unbond => Builder::Unbond,
            TxType::Withdraw => Builder::Withdraw,
            TxType::Transfer => Builder::Transfer,
            TxType::IBCTransfer => Builder::IbcTransfer,
            TxType::EthBridgeTransfer => Builder::BridgePool,
            TxType::RevealPK => Builder::RevealPk,
            TxType::VoteProposal => Builder::VoteProposal,
        }
    }
}

impl Builder {
    /// The kind that selects this builder.
    pub open spec fn spec_kind(self) -> TxType {
        match self {
            Builder::Bond => TxType::Bond,
            Builder::Unbond => TxType::Unbond,
            Builder::Withdraw => TxType::Withdraw,
            Builder::Transfer => TxType::Transfer,
            Builder::IbcTransfer => TxType::IBCTransfer,
            Builder::BridgePool => TxType::EthBridgeTransfer,
            Builder::RevealPk => TxType::RevealPK,
            Builder::VoteProposal => TxType::VoteProposal,
        }
    }

    /// Whether the builder takes a payload of its own beside the shared
    /// arguments. The reveal builder does not: it works from the signer's
    /// public key, which the shared arguments hold.
    pub open spec fn spec_takes_payload(self) -> bool {
        !(self is RevealPk)
    }

    /// Whether the builder needs the chain's current epoch.
    pub open spec fn spec_needs_epoch(self) -> bool {
        self is VoteProposal
    }

    #[verifier::when_used_as_spec(spec_kind)]
    pub fn kind(self) -> (kind: TxType)
        ensures
            kind == self.spec_kind(),
    {
        match self {
            Builder::Bond => TxType::Bond,
            Builder::Unbond => TxType::Unbond,
            Builder::Withdraw => TxType::Withdraw,
            Builder::Transfer => TxType::Transfer,
            Builder::IbcTransfer => TxType::IBCTransfer,
            Builder::BridgePool => TxType::EthBridgeTransfer,
            Builder::RevealPk => TxType::RevealPK,
            Builder::VoteProposal => TxType::VoteProposal,
        }
    }

    #[verifier::when_used_as_spec(spec_takes_payload)]
    pub fn takes_payload(self) -> (b: bool)
        ensures
            b == self.spec_takes_payload(),
    {
        match self {
            Builder::RevealPk => false,
            _ => true,
        }
    }

    #[verifier::when_used_as_spec(spec_needs_epoch)]
    pub fn needs_epoch(self) -> (b: bool)
        ensures
            b == self.spec_needs_epoch(),
    {
        match self {
            Builder::VoteProposal => true,
            _ => false,
        }
    }
}

/// Every kind selects a builder of its own, and every builder is selected by
/// exactly one kind: the two enumerations are in one-to-one correspondence.
pub proof fn law_one_builder_per_kind(a: TxType, b: TxType, builder: Builder)
    ensures
        a.spec_builder() == b.spec_builder() ==> a == b,
        a.spec_builder().spec_kind() == a,
        builder.spec_kind().spec_builder() == builder,
{
}

/// A kind is found again from its number, and only the numbers of the eight
/// kinds stand for one.
pub proof fn law_code_round_trip(kind: TxType, code: u8)
    ensures
        TxType::spec_from_code(kind.spec_code()) == Some(kind),
        TxType::spec_from_code(code) matches Some(k) ==> k.spec_code() == code,
        TxType::spec_from_code(code) is Some <==> 1 <= code <= 8,
{
}

} // verus!
