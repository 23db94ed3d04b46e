use vstd::prelude::*;

verus! {

/// The error taxonomy of the verifier core. Every failure is fatal for the
/// current run; none is retried. Missing credentials are not an error: they
/// select offline mode instead.
#[derive(Clone, Copy, Debug, PartialEq, Eq, Structural)]
pub enum VerifierError {
    /// The proof description could not be read as a record.
    MalformedInput,
    /// A hex field failed to decode.
    Encoding,
    /// A hex field decoded to more than 32 bytes.
    HashTooLong,
    /// The RPC endpoint could not be reached.
    Connection,
    /// The private key material could not be parsed.
    Credential,
    /// The contract call was rejected.
    Submission,
    /// The transaction was not confirmed.
    Confirmation,
}

impl VerifierError {
    /// A short stable name for reporting.
    pub fn describe(&self) -> (r: &'static str)
        ensures
            r@ == self.describe_spec(),
    {
        match self {
            VerifierError::MalformedInput => "malformed input",
            VerifierError::Encoding => "encoding error",
            VerifierError::HashTooLong => "hash too long",
            VerifierError::Connection => "connection error",
            VerifierError::Credential => "credential error",
            VerifierError::Submission => "submission error",
            VerifierError::Confirmation => "confirmation error",
        }
    }

    pub open spec fn describe_spec(&self) -> Seq<char> {
        match self {
            VerifierError::MalformedInput => "malformed input"@,
            VerifierError::Encoding => "encoding error"@,
            VerifierError::HashTooLong => "hash too long"@,
            VerifierError::Connection => "connection error"@,
            VerifierError::Credential => "credential error"@,
            VerifierError::Submission => "submission error"@,
            VerifierError::Confirmation => "confirmation error"@,
        }
    }
}

} // verus!
