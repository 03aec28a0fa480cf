//! A proof together with the public inputs it is checked against.

use vstd::prelude::*;

use crate::vc_fr::VcFr;
use crate::vc_proof::VcProof;

verus! {

/// A proof and its public inputs.
#[derive(Debug)]
pub struct ProofWithMeta {
    pub proof: VcProof,
    pub public_inputs: Vec<VcFr>,
}

} // verus!
