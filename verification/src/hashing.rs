use vstd::prelude::*;
use vstd::string::*;
use vstd::utf8::encode_utf8;

use sha2::{Digest, Sha256};

use crate::errors::VerifierError;
use crate::hex_codec::{
    hex_decode, hex_decode_spec, hex_encode, hex_encode_spec, is_valid_hex, spec_strip_hex_prefix,
    strip_hex_prefix,
};

verus! {

/// The SHA-256 digest of a byte sequence.
pub uninterp spec fn sha256_of(bytes: Seq<u8>) -> Seq<u8>;

/// Relies on sha2::Sha256: the digest depends on the input bytes alone and
/// is always 32 bytes long.
#[verifier::external_body]
fn sha256(bytes: &Vec<u8>) -> (r: Vec<u8>)
    ensures
        r@ == sha256_of(bytes@),
        r@.len() == 32,
{
    Sha256::digest(bytes.as_slice()).to_vec()
}

/// The Keccak-256 digest of a byte sequence. This is the variant used by
/// the target contract platform, distinct from standardized SHA-3.
pub uninterp spec fn keccak256_of(bytes: Seq<u8>) -> Seq<u8>;

/// Relies on ethers::utils::keccak256: the digest depends on the input
/// bytes alone and is always 32 bytes long.
#[verifier::external_body]
fn keccak256(bytes: &Vec<u8>) -> (r: Vec<u8>)
    ensures
        r@ == keccak256_of(bytes@),
        r@.len() == 32,
{
    ethers::utils::keccak256(bytes.as_slice()).to_vec()
}

/// A digest rendered as text: `0x` followed by its lowercase hex digits.
pub open spec fn spec_hex_with_prefix(bytes: Seq<u8>) -> Seq<char> {
    seq!['0', 'x'] + hex_encode_spec(bytes)
}

/// Renders bytes as `0x` plus lowercase hex.
pub fn hex_with_prefix(bytes: &Vec<u8>) -> (r: String)
    ensures
        r@ == spec_hex_with_prefix(bytes@),
        r@.len() == 2 + 2 * bytes@.len(),
{
    let hex_part = hex_encode(bytes);
    let mut out = String::from_str("0x");
    proof {
        reveal_strlit("0x");
        assert(out@ =~= seq!['0', 'x']);
    }
    out.append(hex_part.as_str());
    proof {
        assert(out@ =~= spec_hex_with_prefix(bytes@));
    }
    out
}

/// The exact bytes hashed by the recomputed output hash: the model
/// identifier's bytes, one `:` byte, then the input hash text's bytes —
/// the hex text itself, not the bytes it denotes.
pub open spec fn recomputed_preimage(model_id: Seq<char>, input_hash_text: Seq<char>) -> Seq<u8> {
    encode_utf8(model_id) + seq![58u8] + encode_utf8(input_hash_text)
}

/// The recomputed output hash as rendered text.
pub open spec fn recomputed_hash_spec(model_id: Seq<char>, input_hash_text: Seq<char>) -> Seq<
    char,
> {
    spec_hex_with_prefix(sha256_of(recomputed_preimage(model_id, input_hash_text)))
}

/// Recomputes the expected output hash of a proof record:
/// `0x` + lowercase hex of SHA-256(model_id bytes ++ `:` ++ input hash text
/// bytes). Pure; accepts any two texts, empty ones included.
pub fn compute_recomputed_hash(model_id: &str, input_hash_text: &str) -> (r: String)
    ensures
        r@ == recomputed_hash_spec(model_id@, input_hash_text@),
        r@.len() == 66,
        r@[0] == '0',
        r@[1] == 'x',
{
    let mut preimage: Vec<u8> = model_id.as_bytes_vec();
    preimage.push(58u8);
    let mut text_bytes: Vec<u8> = input_hash_text.as_bytes_vec();
    preimage.append(&mut text_bytes);
    proof {
        assert(preimage@ =~= recomputed_preimage(model_id@, input_hash_text@));
    }
    let digest = sha256(&preimage);
    hex_with_prefix(&digest)
}

/// The packed encoding submitted to the contract: the raw concatenation of
/// the model identifier's bytes and the three decoded byte fields, with no
/// length prefixes and no separators.
pub open spec fn packed_preimage(
    model_id: Seq<char>,
    input_bytes: Seq<u8>,
    output_bytes: Seq<u8>,
    submitter_bytes: Seq<u8>,
) -> Seq<u8> {
    encode_utf8(model_id) + input_bytes + output_bytes + submitter_bytes
}

/// Whether all three hex fields of a proof identifier computation decode.
pub open spec fn proof_identifier_inputs_valid(
    input_hash_hex: Seq<char>,
    output_hash_hex: Seq<char>,
    submitter_address_hex: Seq<char>,
) -> bool {
    &&& is_valid_hex(spec_strip_hex_prefix(input_hash_hex))
    &&& is_valid_hex(spec_strip_hex_prefix(output_hash_hex))
    &&& is_valid_hex(spec_strip_hex_prefix(submitter_address_hex))
}

/// The canonical proof identifier as rendered text.
pub open spec fn proof_identifier_spec(
    model_id: Seq<char>,
    input_hash_hex: Seq<char>,
    output_hash_hex: Seq<char>,
    submitter_address_hex: Seq<char>,
) -> Seq<char> {
    spec_hex_with_prefix(
        keccak256_of(
            packed_preimage(
                model_id,
                hex_decode_spec(spec_strip_hex_prefix(input_hash_hex)),
                hex_decode_spec(spec_strip_hex_prefix(output_hash_hex)),
                hex_decode_spec(spec_strip_hex_prefix(submitter_address_hex)),
            ),
        ),
    )
}

/// Derives the canonical proof identifier: Keccak-256 over the packed
/// concatenation of the model identifier and the three hex fields' decoded
/// bytes (each with an optional `0x` prefix stripped), rendered as `0x`
/// plus lowercase hex. The submitter address is normally 20 bytes, but a
/// differently sized placeholder is accepted; only a field that fails to
/// decode as hex is an error.
pub fn compute_proof_identifier(
    model_id: &str,
    input_hash_hex: &str,
    output_hash_hex: &str,
    submitter_address_hex: &str,
) -> (r: Result<String, VerifierError>)
    ensures
        r is Ok <==> proof_identifier_inputs_valid(
            input_hash_hex@,
            output_hash_hex@,
            submitter_address_hex@,
        ),
        r is Ok ==> r->Ok_0@ == proof_identifier_spec(
            model_id@,
            input_hash_hex@,
            output_hash_hex@,
            submitter_address_hex@,
        ),
        r is Ok ==> r->Ok_0@.len() == 66,
        r is Err ==> r->Err_0 == VerifierError::Encoding,
{
    let mut input_bytes: Vec<u8> = match hex_decode(strip_hex_prefix(input_hash_hex)) {
        Ok(b) => b,
        Err(_) => {
            return Err(VerifierError::Encoding);
        },
    };
    let mut output_bytes: Vec<u8> = match hex_decode(strip_hex_prefix(output_hash_hex)) {
        Ok(b) => b,
        Err(_) => {
            return Err(VerifierError::Encoding);
        },
    };
    let mut submitter_bytes: Vec<u8> = match hex_decode(strip_hex_prefix(submitter_address_hex)) {
        Ok(b) => b,
        Err(_) => {
            return Err(VerifierError::Encoding);
        },
    };
    let mut preimage: Vec<u8> = model_id.as_bytes_vec();
    preimage.append(&mut input_bytes);
    preimage.append(&mut output_bytes);
    preimage.append(&mut submitter_bytes);
    proof {
        assert(preimage@ =~= packed_preimage(
            model_id@,
            hex_decode_spec(spec_strip_hex_prefix(input_hash_hex@)),
            hex_decode_spec(spec_strip_hex_prefix(output_hash_hex@)),
            hex_decode_spec(spec_strip_hex_prefix(submitter_address_hex@)),
        ));
    }
    let digest = keccak256(&preimage);
    Ok(hex_with_prefix(&digest))
}

/// Law: the recomputed output hash is deterministic — any two renderings
/// of the same model identifier and input hash text are identical.
pub proof fn lemma_recomputed_hash_deterministic(
    model_id: Seq<char>,
    input_hash_text: Seq<char>,
    r1: Seq<char>,
    r2: Seq<char>,
)
    requires
        r1 == recomputed_hash_spec(model_id, input_hash_text),
        r2 == recomputed_hash_spec(model_id, input_hash_text),
    ensures
        r1 == r2,
{
}

/// Law: the packed preimage separates submitters — two submitter byte
/// strings of equal length that differ anywhere give different packed
/// preimages for the same model identifier and hash fields.
pub proof fn lemma_packed_preimage_distinguishes_submitter(
    model_id: Seq<char>,
    input_bytes: Seq<u8>,
    output_bytes: Seq<u8>,
    submitter1: Seq<u8>,
    submitter2: Seq<u8>,
)
    requires
        submitter1.len() == submitter2.len(),
        submitter1 != submitter2,
    ensures
        packed_preimage(model_id, input_bytes, output_bytes, submitter1) != packed_preimage(
            model_id,
            input_bytes,
            output_bytes,
            submitter2,
        ),
{
    let prefix = encode_utf8(model_id) + input_bytes + output_bytes;
    let s1 = packed_preimage(model_id, input_bytes, output_bytes, submitter1);
    let s2 = packed_preimage(model_id, input_bytes, output_bytes, submitter2);
    if s1 == s2 {
        assert forall|i: int| 0 <= i < submitter1.len() implies submitter1[i] == submitter2[i] by {
            assert(s1[prefix.len() + i] == submitter1[i]);
            assert(s2[prefix.len() + i] == submitter2[i]);
        }
        assert(submitter1 =~= submitter2);
    }
}

} // verus!
