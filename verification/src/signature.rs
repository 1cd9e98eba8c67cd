//! Signatures made outside this process, and the sections they become.

use crate::error::{Payload, SdkError, SdkErrorView};
use crate::wire::{borsh_take_bytes, fits, lemma_put_take, lemma_take_put, put_bytes, take_bytes};
use vstd::prelude::*;
use vstd::slice::slice_subrange;

verus! {

/// A bundle of signatures over one transaction, as a signer outside this
/// process hands it in: one for the raw section, one for the wrapper.
#[derive(Clone, Debug, PartialEq, Eq)]
pub struct SignatureMsg {
    /// The signer's public key, in its wire form.
    pub pubkey: Vec<u8>,
    /// The places of the sections that the raw signature covers.
    pub raw_indices: Vec<u8>,
    pub raw_signature: Vec<u8>,
    /// The places of the sections that the wrapper signature covers.
    pub wrapper_indices: Vec<u8>,
    pub wrapper_signature: Vec<u8>,
}

pub struct SignatureMsgView {
    pub pubkey: Seq<u8>,
    pub raw_indices: Seq<u8>,
    pub raw_signature: Seq<u8>,
    pub wrapper_indices: Seq<u8>,
    pub wrapper_signature: Seq<u8>,
}

impl View for SignatureMsg {
    type V = SignatureMsgView;

    open spec fn view(&self) -> SignatureMsgView {
        SignatureMsgView {
            pubkey: self.pubkey@,
            raw_indices: self.raw_indices@,
            raw_signature: self.raw_signature@,
            wrapper_indices: self.wrapper_indices@,
            wrapper_signature: self.wrapper_signature@,
        }
    }
}

/// One signature over some sections of a transaction, attested by a
/// public key: what the host turns into a signature section.
#[derive(Clone, Debug, PartialEq, Eq)]
pub struct SignatureSection {
    pub pubkey: Vec<u8>,
    pub indices: Vec<u8>,
    pub signature: Vec<u8>,
}

pub struct SignatureSectionView {
    pub pubkey: Seq<u8>,
    pub indices: Seq<u8>,
    pub signature: Seq<u8>,
}

impl View for SignatureSection {
    type V = SignatureSectionView;

    open spec fn view(&self) -> SignatureSectionView {
        SignatureSectionView {
            pubkey: self.pubkey@,
            indices: self.indices@,
            signature: self.signature@,
        }
    }
}

impl SignatureMsgView {
    /// Whether every field is short enough to go on the wire.
    pub open spec fn fits(self) -> bool {
        &&& fits(self.pubkey)
        &&& fits(self.raw_indices)
        &&& fits(self.raw_signature)
        &&& fits(self.wrapper_indices)
        &&& fits(self.wrapper_signature)
    }

    /// The bundle on the wire: its five fields, one after the other.
    pub open spec fn encoding(self) -> Seq<u8> {
        put_bytes(self.pubkey) + (put_bytes(self.raw_indices) + (put_bytes(self.raw_signature) + (
        put_bytes(self.wrapper_indices) + put_bytes(self.wrapper_signature))))
    }

    /// The bundle that `bytes` hold: five fields and nothing after them.
    pub open spec fn decoding(bytes: Seq<u8>) -> Option<SignatureMsgView> {
        match take_bytes(bytes) {
            None => None,
            Some((pubkey, after_pubkey)) => match take_bytes(after_pubkey) {
                None => None,
                Some((raw_indices, after_raw_indices)) => match take_bytes(after_raw_indices) {
                    None => None,
                    Some((raw_signature, after_raw)) => match take_bytes(after_raw) {
                        None => None,
                        Some((wrapper_indices, after_wrapper_indices)) => match take_bytes(
                            after_wrapper_indices,
                        ) {
                            None => None,
                            Some((wrapper_signature, rest)) => if rest.len() == 0 {
                                Some(
                                    SignatureMsgView {
                                        pubkey,
                                        raw_indices,
                                        raw_signature,
                                        wrapper_indices,
                                        wrapper_signature,
                                    },
                                )
                            } else {
                                None
                            },
                        },
                    },
                },
            },
        }
    }

    /// The signature that goes over the raw section.
    pub open spec fn raw_section(self) -> SignatureSectionView {
        SignatureSectionView {
            pubkey: self.pubkey,
            indices: self.raw_indices,
            signature: self.raw_signature,
        }
    }

    /// The signature that goes over the wrapper section.
    pub open spec fn wrapper_section(self) -> SignatureSectionView {
        SignatureSectionView {
            pubkey: self.pubkey,
            indices: self.wrapper_indices,
            signature: self.wrapper_signature,
        }
    }
}

/// A bundle put on the wire decodes to itself.
pub proof fn law_decoding_inverts_encoding(msg: SignatureMsgView)
    requires
        msg.fits(),
    ensures
        SignatureMsgView::decoding(msg.encoding()) == Some(msg),
{
    let e5 = put_bytes(msg.wrapper_signature);
    let e4 = put_bytes(msg.wrapper_indices) + e5;
    let e3 = put_bytes(msg.raw_signature) + e4;
    let e2 = put_bytes(msg.raw_indices) + e3;
    lemma_take_put(msg.pubkey, e2);
    lemma_take_put(msg.raw_indices, e3);
    lemma_take_put(msg.raw_signature, e4);
    lemma_take_put(msg.wrapper_indices, e5);
    lemma_take_put(msg.wrapper_signature, Seq::empty());
    assert(e5 + Seq::<u8>::empty() =~= e5);
}

/// Bytes that decode are the encoding of what they decode to: no two
/// byte strings hold the same bundle.
pub proof fn law_encoding_inverts_decoding(bytes: Seq<u8>)
    ensures
        SignatureMsgView::decoding(bytes) matches Some(msg) ==> msg.fits() && msg.encoding()
            == bytes,
{
    if let Some(msg) = SignatureMsgView::decoding(bytes) {
        lemma_put_take(bytes);
        let r1 = take_bytes(bytes).unwrap().1;
        lemma_put_take(r1);
        let r2 = take_bytes(r1).unwrap().1;
        lemma_put_take(r2);
        let r3 = take_bytes(r2).unwrap().1;
        lemma_put_take(r3);
        let r4 = take_bytes(r3).unwrap().1;
        lemma_put_take(r4);
        let r5 = take_bytes(r4).unwrap().1;
        assert(put_bytes(msg.wrapper_signature) + r5 =~= put_bytes(msg.wrapper_signature));
    }
}

impl SignatureMsg {
    /// Reads a bundle from its wire form. Fails where a field is cut
    /// short, or where bytes are left over after the last one.
    pub fn try_from_slice(bytes: &[u8]) -> (decoded: Result<SignatureMsg, SdkError>)
        ensures
            match decoded {
                Ok(msg) => SignatureMsgView::decoding(bytes@) == Some(msg@),
                Err(e) => SignatureMsgView::decoding(bytes@) is None && e@
                    == SdkErrorView::Decode(Payload::SignatureMsg),
            },
    {
        let Some((pubkey, left)) = borsh_take_bytes(bytes) else {
            return Err(SdkError::Decode(Payload::SignatureMsg));
        };
        let rest = slice_subrange(bytes, bytes.len() - left, bytes.len());
        let Some((raw_indices, left)) = borsh_take_bytes(rest) else {
            return Err(SdkError::Decode(Payload::SignatureMsg));
        };
        let rest = slice_subrange(rest, rest.len() - left, rest.len());
        let Some((raw_signature, left)) = borsh_take_bytes(rest) else {
            return Err(SdkError::Decode(Payload::SignatureMsg));
        };
        let rest = slice_subrange(rest, rest.len() - left, rest.len());
        let Some((wrapper_indices, left)) = borsh_take_bytes(rest) else {
            return Err(SdkError::Decode(Payload::SignatureMsg));
        };
        let rest = slice_subrange(rest, rest.len() - left, rest.len());
        let Some((wrapper_signature, left)) = borsh_take_bytes(rest) else {
            return Err(SdkError::Decode(Payload::SignatureMsg));
        };
        if left != 0 {
            return Err(SdkError::Decode(Payload::SignatureMsg));
        }
        Ok(SignatureMsg { pubkey, raw_indices, raw_signature, wrapper_indices, wrapper_signature })
    }

    /// The two signatures of the bundle, each with the signer's public
    /// key: first the one for the raw section, then the one for the
    /// wrapper.
    pub fn into_sections(self) -> (sections: (SignatureSection, SignatureSection))
        ensures
            sections.0@ == self@.raw_section(),
            sections.1@ == self@.wrapper_section(),
    {
        let wrapper_pubkey = self.pubkey.clone();
        (
            SignatureSection {
                pubkey: self.pubkey,
                indices: self.raw_indices,
                signature: self.raw_signature,
            },
            SignatureSection {
                pubkey: wrapper_pubkey,
                indices: self.wrapper_indices,
                signature: self.wrapper_signature,
            },
        )
    }
}

} // verus!
