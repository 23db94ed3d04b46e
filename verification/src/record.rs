use vstd::prelude::*;
use vstd::string::*;

use crate::errors::VerifierError;
use crate::hashing::{
    compute_proof_identifier, compute_recomputed_hash, proof_identifier_inputs_valid,
    proof_identifier_spec, recomputed_hash_spec,
};

verus! {

/// A claimed inference proof: a model identifier plus the hex texts of the
/// input and output hashes. Constructed once from external input and
/// read-only afterwards.
#[derive(Clone, Debug)]
pub struct ProofRecord {
    pub model_id: String,
    pub input_hash: String,
    pub output_hash: String,
}

impl ProofRecord {
    /// A record is well-formed when its model identifier is non-empty. Hex
    /// lengths are not checked here: the fixed-width conversion enforces
    /// them when a field is actually packed.
    pub open spec fn wf(&self) -> bool {
        self.model_id@.len() > 0
    }

    /// Builds a record from loaded fields, rejecting an empty model
    /// identifier as malformed input.
    pub fn new(model_id: String, input_hash: String, output_hash: String) -> (r: Result<
        ProofRecord,
        VerifierError,
    >)
        ensures
            r is Ok <==> model_id@.len() > 0,
            r is Ok ==> r->Ok_0.model_id == model_id,
            r is Ok ==> r->Ok_0.input_hash == input_hash,
            r is Ok ==> r->Ok_0.output_hash == output_hash,
            r is Ok ==> r->Ok_0.wf(),
            r is Err ==> r->Err_0 == VerifierError::MalformedInput,
    {
        if model_id.as_str().is_empty() {
            Err(VerifierError::MalformedInput)
        } else {
            Ok(ProofRecord { model_id, input_hash, output_hash })
        }
    }

    /// Recomputes the expected output hash of this record and tells
    /// whether it equals the claimed one. A mismatch is a finding to
    /// report, never a failure: the identifier is still computed.
    pub fn recompute_and_compare(&self) -> (r: (String, bool))
        ensures
            r.0@ == recomputed_hash_spec(self.model_id@, self.input_hash@),
            r.1 == (r.0@ == self.output_hash@),
    {
        let recomputed = compute_recomputed_hash(self.model_id.as_str(), self.input_hash.as_str());
        let matches_claim = recomputed == self.output_hash;
        (recomputed, matches_claim)
    }

    /// Derives this record's proof identifier for a given submitter
    /// address.
    pub fn proof_identifier(&self, submitter_address_hex: &str) -> (r: Result<
        String,
        VerifierError,
    >)
        ensures
            r is Ok <==> proof_identifier_inputs_valid(
                self.input_hash@,
                self.output_hash@,
                submitter_address_hex@,
            ),
            r is Ok ==> r->Ok_0@ == proof_identifier_spec(
                self.model_id@,
                self.input_hash@,
                self.output_hash@,
                submitter_address_hex@,
            ),
            r is Err ==> r->Err_0 == VerifierError::Encoding,
    {
        compute_proof_identifier(
            self.model_id.as_str(),
            self.input_hash.as_str(),
            self.output_hash.as_str(),
            submitter_address_hex,
        )
    }
}

} // verus!
