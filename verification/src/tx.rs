//! An unsigned transaction together with what its signing requires.

use vstd::prelude::*;

verus! {

/// The view of a byte string that may be absent.
pub open spec fn opt_bytes(bytes: Option<Vec<u8>>) -> Option<Seq<u8>> {
    match bytes {
        Some(b) => Some(b@),
        None => None,
    }
}

/// The view of a text that may be absent.
pub open spec fn opt_text(text: Option<String>) -> Option<Seq<char>> {
    match text {
        Some(t) => Some(t@),
        None => None,
    }
}

/// The views of a list of byte strings, in order.
pub open spec fn list_view(list: Seq<Vec<u8>>) -> Seq<Seq<u8>> {
    list.map_values(|bytes: Vec<u8>| bytes@)
}

/// The first of a list of keys, where it has one.
pub open spec fn first_of(keys: Seq<Seq<u8>>) -> Option<Seq<u8>> {
    if keys.len() > 0 {
        Some(keys[0])
    } else {
        None
    }
}

/// Takes the first key out of a list, where it has one.
pub fn first_key(keys: Vec<Vec<u8>>) -> (first: Option<Vec<u8>>)
    ensures
        opt_bytes(first) == first_of(list_view(keys@)),
{
    let mut keys = keys;
    if keys.len() == 0 {
        None
    } else {
        Some(keys.remove(0))
    }
}

/// Who has to sign a transaction. Each field holds the ledger's value in
/// its wire form.
#[derive(Clone, Debug, PartialEq, Eq)]
pub struct SigningData {
    /// The account in whose name the transaction acts.
    pub owner: Option<Vec<u8>>,
    /// The public keys of that account.
    pub public_keys: Vec<Vec<u8>>,
    /// How many of them have to sign.
    pub threshold: u8,
    /// The keys that may sign the raw section, with their places; absent
    /// where the transaction declares no signer.
    pub account_public_keys_map: Option<Vec<u8>>,
    /// The public key of whoever pays the fee.
    pub fee_payer: Vec<u8>,
}

pub struct SigningDataView {
    pub owner: Option<Seq<u8>>,
    pub public_keys: Seq<Seq<u8>>,
    pub threshold: u8,
    pub account_public_keys_map: Option<Seq<u8>>,
    pub fee_payer: Seq<u8>,
}

impl View for SigningData {
    type V = SigningDataView;

    open spec fn view(&self) -> SigningDataView {
        SigningDataView {
            owner: opt_bytes(self.owner),
            public_keys: list_view(self.public_keys@),
            threshold: self.threshold,
            account_public_keys_map: opt_bytes(self.account_public_keys_map),
            fee_payer: self.fee_payer@,
        }
    }
}

/// What a builder hands back: the unsigned transaction in its wire form,
/// and who has to sign it.
#[derive(Clone, Debug, PartialEq, Eq)]
pub struct BuiltTx {
    tx: Vec<u8>,
    signing_data: SigningData,
}

pub struct BuiltTxView {
    pub tx: Seq<u8>,
    pub signing_data: SigningDataView,
}

impl View for BuiltTx {
    type V = BuiltTxView;

    closed spec fn view(&self) -> BuiltTxView {
        BuiltTxView { tx: self.tx@, signing_data: self.signing_data@ }
    }
}

impl BuiltTx {
    pub fn new(tx: Vec<u8>, signing_data: SigningData) -> (built: BuiltTx)
        ensures
            built@ == (BuiltTxView { tx: tx@, signing_data: signing_data@ }),
    {
        BuiltTx { tx, signing_data }
    }

    /// The unsigned transaction, as it goes over the wire.
    pub fn tx_bytes(&self) -> (bytes: Vec<u8>)
        ensures
            bytes@ == self@.tx,
    {
        self.tx.clone()
    }

    pub fn signing_data(&self) -> (data: &SigningData)
        ensures
            data@ == self@.signing_data,
    {
        &self.signing_data
    }

    /// Takes the value apart.
    pub fn into_parts(self) -> (parts: (Vec<u8>, SigningData))
        ensures
            parts.0@ == self@.tx,
            parts.1@ == self@.signing_data,
    {
        (self.tx, self.signing_data)
    }
}

} // verus!
