//! The circuit parameters that shielded transactions need.

use crate::tx::list_view;
use vstd::prelude::*;

verus! {

/// The three parameter blobs, each bound to its circuit. They are kept and
/// replaced as one set, never one by one.
#[derive(Clone, Debug, PartialEq, Eq)]
pub struct MaspParams {
    spend: Vec<u8>,
    output: Vec<u8>,
    convert: Vec<u8>,
}

pub struct MaspParamsView {
    pub spend: Seq<u8>,
    pub output: Seq<u8>,
    pub convert: Seq<u8>,
}

impl View for MaspParams {
    type V = MaspParamsView;

    closed spec fn view(&self) -> MaspParamsView {
        MaspParamsView { spend: self.spend@, output: self.output@, convert: self.convert@ }
    }
}

impl MaspParamsView {
    /// Whether a list of blobs is a whole set: one blob per circuit.
    pub open spec fn is_whole(blobs: Seq<Seq<u8>>) -> bool {
        blobs.len() == 3
    }

    /// The set that a whole list of blobs makes: the spend parameters
    /// first, then the output parameters, then the convert parameters.
    pub open spec fn of_blobs(blobs: Seq<Seq<u8>>) -> MaspParamsView
        recommends
            Self::is_whole(blobs),
    {
        MaspParamsView { spend: blobs[0], output: blobs[1], convert: blobs[2] }
    }

    /// The set as a list of blobs, in the order in which it is read.
    pub open spec fn blobs(self) -> Seq<Seq<u8>> {
        seq![self.spend, self.output, self.convert]
    }
}

/// A whole list of blobs is found again, blob by blob, in the set it makes.
pub proof fn law_blobs_round_trip(blobs: Seq<Seq<u8>>, params: MaspParamsView)
    ensures
        MaspParamsView::is_whole(params.blobs()),
        MaspParamsView::of_blobs(params.blobs()) == params,
        MaspParamsView::is_whole(blobs) ==> MaspParamsView::of_blobs(blobs).blobs() == blobs,
{
    if MaspParamsView::is_whole(blobs) {
        assert(MaspParamsView::of_blobs(blobs).blobs() =~= blobs);
    }
}

impl MaspParams {
    pub fn new(spend: Vec<u8>, output: Vec<u8>, convert: Vec<u8>) -> (params: MaspParams)
        ensures
            params@ == (MaspParamsView { spend: spend@, output: output@, convert: convert@ }),
    {
        MaspParams { spend, output, convert }
    }

    /// Whether `blobs` can be made into a set.
    pub fn is_whole(blobs: &Vec<Vec<u8>>) -> (whole: bool)
        ensures
            whole == MaspParamsView::is_whole(list_view(blobs@)),
    {
        blobs.len() == 3
    }

    /// Makes the set from its three blobs, read in order.
    pub fn from_blobs(blobs: Vec<Vec<u8>>) -> (params: MaspParams)
        requires
            MaspParamsView::is_whole(list_view(blobs@)),
        ensures
            params@ == MaspParamsView::of_blobs(list_view(blobs@)),
    {
        let mut blobs = blobs;
        let convert = blobs.pop().unwrap();
        let output = blobs.pop().unwrap();
        let spend = blobs.pop().unwrap();
        MaspParams { spend, output, convert }
    }

    pub fn spend(&self) -> (blob: &Vec<u8>)
        ensures
            blob@ == self@.spend,
    {
        &self.spend
    }

    pub fn output(&self) -> (blob: &Vec<u8>)
        ensures
            blob@ == self@.output,
    {
        &self.output
    }

    pub fn convert(&self) -> (blob: &Vec<u8>)
        ensures
            blob@ == self@.convert,
    {
        &self.convert
    }

    /// The three blobs, in the order in which a set is read.
    pub fn to_blobs(&self) -> (blobs: Vec<Vec<u8>>)
        ensures
            list_view(blobs@) == self@.blobs(),
    {
        let mut blobs: Vec<Vec<u8>> = Vec::new();
        blobs.push(self.spend.clone());
        blobs.push(self.output.clone());
        blobs.push(self.convert.clone());
        assert(list_view(blobs@) =~= self@.blobs());
        blobs
    }
}

} // verus!
