//! The boundary to the external proving engine: setup-parameter
//! generation, parameter serialization, and proof verification are
//! delegated to the polynomial-commitment engine through a small
//! trusted surface. Each engine result is pinned by a named value
//! (the engine's operations here are deterministic), so the public
//! functions' contracts fix their outcomes exactly. Key generation
//! and proof generation additionally need the engine-side circuit
//! description, so they live with the host around this library.

use vstd::prelude::*;
use halo2_proofs::pasta::{EqAffine, Fp};
use halo2_proofs::plonk::{Error, SingleVerifier, VerifyingKey, verify_proof};
use halo2_proofs::poly::commitment::Params;
use halo2_proofs::transcript::{Blake2bRead, Challenge255};

verus! {

#[verifier::external_type_specification]
#[verifier::external_body]
pub struct ExPlonkError(Error);

/// Opaque setup parameters of the engine, sized at creation for
/// circuits of at most 2^k rows. (The engine's parameter type carries
/// a trait-bounded curve parameter that cannot be declared to the
/// verifier directly, so the value is held in an opaque struct.)
#[verifier::external_body]
pub struct SetupParams {
    pub inner: Params<EqAffine>,
}

/// Opaque verifying key of the engine, produced by its key generator
/// from the setup parameters and the circuit shape.
#[verifier::external_body]
pub struct EngineVerifyingKey {
    pub inner: VerifyingKey<EqAffine>,
}

/// How this library reports the engine's outcomes: a proof the engine
/// does not accept is the expected `VerifyReject`, distinguishable
/// from `EngineFailure`, the fatal inconsistency of handing the
/// verifier a key that does not fit the setup parameters.
#[derive(Clone, Copy, Debug, PartialEq, Eq, Structural)]
pub enum ProofError {
    VerifyReject,
    EngineFailure,
}

/// The setup parameters the engine derives for row capacity 2^k: a
/// pure function of k alone (the engine hashes its commitment bases
/// from a fixed tag, indexed by position).
pub uninterp spec fn new_params_of(k: u32) -> SetupParams;

/// The byte serialization of setup parameters, as the engine writes
/// it: the row-capacity exponent in four little-endian bytes, then
/// the curve points.
pub uninterp spec fn params_serialization(params: SetupParams) -> Seq<u8>;

/// What the engine's parameter parser yields on these bytes: the
/// decoded parameters, or nothing when the bytes do not decode.
pub uninterp spec fn decoded_params(bytes: Seq<u8>) -> Option<SetupParams>;

/// Whether the verifying key fits the setup parameters: the key's
/// evaluation domain was built for the parameters' row capacity. The
/// engine's verifier is defined only on matching pairs.
pub uninterp spec fn vk_compatible(params: SetupParams, vk: EngineVerifyingKey) -> bool;

/// The engine's decision: whether verification accepts this proof
/// against these parameters, this verifying key and this public
/// input. The decision is deterministic, a pure function of the four
/// values — no randomness and no ambient state enter verification.
pub uninterp spec fn engine_accepts(
    params: SetupParams,
    vk: EngineVerifyingKey,
    public_input: u64,
    proof: Seq<u8>,
) -> bool;

/// The row-capacity exponent field of a parameter serialization: the
/// little-endian value of its first four bytes.
pub open spec fn params_k_field(bytes: Seq<u8>) -> int {
    bytes[0] + 256 * bytes[1] + 65536 * bytes[2] + 16777216 * bytes[3]
}

/// Generates setup parameters using k, the row-capacity exponent: the
/// circuit must fit within 2^k rows.
///
/// Relies on halo2_proofs' `Params::new`, which derives the
/// commitment bases deterministically from k and refuses `k >= 32`.
#[verifier::external_body]
pub fn generate_setup_params(k: u32) -> (r: SetupParams)
    requires
        k < 32,
    ensures
        r == new_params_of(k),
{
    SetupParams { inner: Params::<EqAffine>::new(k) }
}

/// Relies on halo2_proofs' `Params::write`: serializes the parameters
/// into bytes (writing into a byte vector cannot fail).
#[verifier::external_body]
fn params_to_bytes(params: &SetupParams) -> (r: Vec<u8>)
    ensures
        r@ == params_serialization(*params),
{
    let mut buf = vec![];
    params.inner.write(&mut buf).expect("writing to a byte vector cannot fail");
    buf
}

/// Relies on halo2_proofs' `Params::read`: parses parameters back
/// from bytes; `None` when the bytes do not decode.
///
/// The parser shifts 1 by the leading four-byte exponent field before
/// any other validation, so the caller keeps that field below 32 (the
/// engine's own capacity limit); every later malformation comes back
/// as a clean decoding failure.
#[verifier::external_body]
fn params_from_bytes(bytes: &Vec<u8>) -> (r: Option<SetupParams>)
    requires
        bytes@.len() >= 4,
        params_k_field(bytes@) < 32,
    ensures
        r == decoded_params(bytes@),
{
    match Params::<EqAffine>::read(&mut &bytes[..]) {
        Ok(p) => Some(SetupParams { inner: p }),
        Err(_) => None,
    }
}

/// Relies on halo2_proofs' `VerifyingKey::pinned`, the engine's
/// minimal representation of a key: reports whether the key's
/// evaluation domain was built for the parameters' row capacity. The
/// key exposes that capacity only through the pinned rendering, whose
/// sole `{ k: ...` entry is the domain's, so it is matched there
/// against `Params::k`.
#[verifier::external_body]
pub fn vk_matches_params(params: &SetupParams, vk: &EngineVerifyingKey) -> (r: bool)
    ensures
        r == vk_compatible(*params, *vk),
{
    let domain_k = format!("{{ k: {},", params.inner.k());
    format!("{:?}", vk.inner.pinned()).contains(&domain_k)
}

/// Relies on halo2_proofs' `verify_proof` with a `SingleVerifier`
/// strategy and a Blake2b transcript over the proof bytes: checks the
/// proof against the verifying key and the single public input (the
/// declared distance as a field element), returning `Ok` exactly when
/// the engine accepts. The engine's verifier asserts on the instance
/// polynomial's size when the key does not fit the parameters, so
/// compatibility is required.
#[verifier::external_body]
fn engine_verify(
    params: &SetupParams,
    vk: &EngineVerifyingKey,
    public_input: u64,
    proof: &Vec<u8>,
) -> (r: Result<(), Error>)
    requires
        vk_compatible(*params, *vk),
    ensures
        r is Ok <==> engine_accepts(*params, *vk, public_input, proof@),
{
    let strategy = SingleVerifier::new(&params.inner);
    let mut transcript = Blake2bRead::<_, _, Challenge255<_>>::init(&proof[..]);
    let pub_input = vec![Fp::from(public_input)];
    verify_proof(&params.inner, &vk.inner, strategy, &[&[&pub_input]], &mut transcript)
}

/// Generates setup parameters and serializes them for the host: the
/// result is exactly the engine's byte serialization of the
/// parameters for row capacity 2^k, so equal k gives equal bytes.
pub fn setup_params(k: u32) -> (r: Vec<u8>)
    requires
        k < 32,
    ensures
        r@ == params_serialization(new_params_of(k)),
{
    let params = generate_setup_params(k);
    params_to_bytes(&params)
}

/// Verifies the proof against the setup parameters, the verifying key
/// and the declared public input.
///
/// The outcome is a plain value, pinned by the engine's decision:
/// `Ok` exactly when the engine accepts the proof; a rejection is the
/// expected `VerifyReject`; a verifying key that does not fit the
/// parameters — a driver-side shape inconsistency — is the fatal
/// `EngineFailure`, reported without asking the engine. Repeated
/// calls on equal arguments return equal results.
pub fn verify(
    params: &SetupParams,
    vk: &EngineVerifyingKey,
    public_input: u64,
    proof: &Vec<u8>,
) -> (r: Result<(), ProofError>)
    ensures
        r is Ok <==> (vk_compatible(*params, *vk) && engine_accepts(
            *params,
            *vk,
            public_input,
            proof@,
        )),
        (vk_compatible(*params, *vk) && !engine_accepts(*params, *vk, public_input, proof@))
            ==> (r matches Err(e) && e == ProofError::VerifyReject),
        !vk_compatible(*params, *vk) ==> (r matches Err(e) && e == ProofError::EngineFailure),
{
    if !vk_matches_params(params, vk) {
        return Err(ProofError::EngineFailure);
    }
    match engine_verify(params, vk, public_input, proof) {
        Ok(_) => Ok(()),
        Err(_) => Err(ProofError::VerifyReject),
    }
}

/// Verifies a proof for the host: decodes the serialized setup
/// parameters, then checks the proof of the declared Hamming distance
/// against the verifying key.
///
/// Returns true exactly when the parameter bytes carry a bounded
/// exponent field and decode, the verifying key fits the decoded
/// parameters, and the engine accepts the proof; false in every other
/// case, never a panic.
pub fn proof_verify(
    params_bytes: &Vec<u8>,
    vk: &EngineVerifyingKey,
    hamming_dist: u32,
    proof: &Vec<u8>,
) -> (r: bool)
    ensures
        r == (params_bytes@.len() >= 4 && params_k_field(params_bytes@) < 32 && (decoded_params(
            params_bytes@,
        ) matches Some(p) && vk_compatible(p, *vk) && engine_accepts(
            p,
            *vk,
            hamming_dist as u64,
            proof@,
        ))),
{
    if params_bytes.len() < 4 {
        return false;
    }
    let k_field: u64 = params_bytes[0] as u64 + 256 * (params_bytes[1] as u64) + 65536 * (
    params_bytes[2] as u64) + 16777216 * (params_bytes[3] as u64);
    if k_field >= 32 {
        return false;
    }
    match params_from_bytes(params_bytes) {
        Some(params) => match verify(&params, vk, hamming_dist as u64, proof) {
            Ok(_) => true,
            Err(_) => false,
        },
        None => false,
    }
}

} // verus!
