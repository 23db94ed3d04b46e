use vstd::prelude::*;
use vstd::string::*;

use crate::errors::VerifierError;
use crate::hex_codec::{hex_decode, hex_decode_spec, is_valid_hex, spec_strip_hex_prefix,
    strip_hex_prefix};

verus! {

/// The chain identifier used when the configuration names none.
pub const DEFAULT_CHAIN_ID: u64 = 1337;

/// Whether the verifier submits the proof on-chain or stops after the
/// local computations.
#[derive(Clone, Copy, Debug, PartialEq, Eq, Structural)]
pub enum Mode {
    Offline,
    Online,
}

/// The optional submission credentials plus the chain identifier. The
/// three credentials gate online mode; the chain identifier never does.
#[derive(Clone, Debug)]
pub struct SubmissionConfig {
    pub rpc_url: Option<String>,
    pub private_key: Option<String>,
    pub contract_address: Option<String>,
    pub chain_id: u64,
}

/// A configuration value counts as present only when it is set and
/// non-empty.
pub open spec fn credential_present(v: Option<String>) -> bool {
    v matches Some(s) && s@.len() > 0
}

/// All three credentials are present: the condition for online mode.
pub open spec fn online_configured(cfg: SubmissionConfig) -> bool {
    &&& credential_present(cfg.rpc_url)
    &&& credential_present(cfg.private_key)
    &&& credential_present(cfg.contract_address)
}

fn credential_is_present(v: &Option<String>) -> (r: bool)
    ensures
        r == credential_present(*v),
{
    match v {
        Some(s) => !s.as_str().is_empty(),
        None => false,
    }
}

impl SubmissionConfig {
    /// Gathers the configuration; a missing chain identifier falls back to
    /// the default.
    pub fn new(
        rpc_url: Option<String>,
        private_key: Option<String>,
        contract_address: Option<String>,
        chain_id: Option<u64>,
    ) -> (cfg: SubmissionConfig)
        ensures
            cfg.rpc_url == rpc_url,
            cfg.private_key == private_key,
            cfg.contract_address == contract_address,
            chain_id is Some ==> cfg.chain_id == chain_id.unwrap(),
            chain_id is None ==> cfg.chain_id == DEFAULT_CHAIN_ID,
    {
        let id: u64 = match chain_id {
            Some(c) => c,
            None => DEFAULT_CHAIN_ID,
        };
        SubmissionConfig { rpc_url, private_key, contract_address, chain_id: id }
    }
}

/// Decides the mode: online exactly when the RPC endpoint, the private key
/// and the contract address are all present; otherwise fully offline, with
/// no partial mode — submission never proceeds on incomplete credentials.
pub fn select_mode(cfg: &SubmissionConfig) -> (m: Mode)
    ensures
        m == Mode::Online <==> online_configured(*cfg),
        m == Mode::Offline <==> !online_configured(*cfg),
{
    if credential_is_present(&cfg.rpc_url) && credential_is_present(&cfg.private_key)
        && credential_is_present(&cfg.contract_address) {
        Mode::Online
    } else {
        Mode::Offline
    }
}

/// Up to 32 bytes, left-padded with zeros to exactly 32: big-endian
/// alignment as fixed-width on-chain byte arrays use it.
pub open spec fn spec_left_pad_32(bytes: Seq<u8>) -> Seq<u8>
    recommends
        bytes.len() <= 32,
{
    Seq::new((32 - bytes.len()) as nat, |i: int| 0u8) + bytes
}

/// Converts a hex text to a fixed 32-byte field: strips an optional `0x`,
/// decodes, and left-pads with zero bytes. A text that does not decode is
/// an encoding error; one that decodes to more than 32 bytes is too long.
pub fn to_fixed_bytes(hex_text: &str) -> (r: Result<Vec<u8>, VerifierError>)
    ensures
        ({
            let stripped = spec_strip_hex_prefix(hex_text@);
            &&& r is Ok <==> is_valid_hex(stripped) && hex_decode_spec(stripped).len() <= 32
            &&& r is Ok ==> r->Ok_0@ == spec_left_pad_32(hex_decode_spec(stripped))
            &&& r is Ok ==> r->Ok_0@.len() == 32
            &&& !is_valid_hex(stripped) ==> r == Err::<Vec<u8>, VerifierError>(
                VerifierError::Encoding,
            )
            &&& is_valid_hex(stripped) && hex_decode_spec(stripped).len() > 32 ==> r
                == Err::<Vec<u8>, VerifierError>(VerifierError::HashTooLong)
        }),
{
    let stripped = strip_hex_prefix(hex_text);
    let mut decoded: Vec<u8> = match hex_decode(stripped) {
        Ok(b) => b,
        Err(_) => {
            return Err(VerifierError::Encoding);
        },
    };
    if decoded.len() > 32 {
        return Err(VerifierError::HashTooLong);
    }
    let pad: usize = 32 - decoded.len();
    let mut out: Vec<u8> = Vec::new();
    let mut i: usize = 0;
    while i < pad
        invariant
            i <= pad,
            out@.len() == i as nat,
            forall|j: int| 0 <= j < i ==> out@[j] == 0u8,
        decreases pad - i,
    {
        out.push(0u8);
        i = i + 1;
    }
    out.append(&mut decoded);
    proof {
        assert(out@ =~= spec_left_pad_32(hex_decode_spec(spec_strip_hex_prefix(hex_text@))));
    }
    Ok(out)
}

} // verus!
