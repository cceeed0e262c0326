use halo2_proofs::arithmetic::Field;
use halo2_proofs::circuit::{Layouter, SimpleFloorPlanner, Value};
use halo2_proofs::pasta::{EqAffine, Fp};
use halo2_proofs::plonk::{
    create_proof, keygen_pk, keygen_vk, Advice, Circuit, Column, ConstraintSystem, Error,
    Expression, Instance, ProvingKey, Selector,
};
use halo2_proofs::poly::commitment::Params;
use halo2_proofs::poly::Rotation;
use halo2_proofs::transcript::{Blake2bWrite, Challenge255};
use rand::rngs::SysRng;
use rand_core::UnwrapErr;

use hammster::calculate_hamming_distance;
use hammster::circuit::{create_circuit, synthesize_circuit};
use hammster::engine::{
    generate_setup_params, proof_verify, setup_params, verify, EngineVerifyingKey, ProofError,
};

const K: u32 = 6;

#[derive(Clone)]
struct TableConfig {
    advice: [Column<Advice>; 3],
    instance: Column<Instance>,
    s_binary_l: Selector,
    s_binary_r: Selector,
    s_xor: Selector,
    s_accumulator: Selector,
}

// The engine-side description of the library's arithmetization: same
// columns, selectors, gates and equality constraint, handed to halo2
// for key generation and proving. Witness cells are transcribed from
// the library's verified synthesized table.
struct EngineCircuit {
    left: [Value<Fp>; 8],
    right: [Value<Fp>; 8],
    output: [Value<Fp>; 9],
}

impl Default for EngineCircuit {
    fn default() -> Self {
        EngineCircuit {
            left: [Value::unknown(); 8],
            right: [Value::unknown(); 8],
            output: [Value::unknown(); 9],
        }
    }
}

fn cell_value(cell: Option<u64>) -> Value<Fp> {
    match cell {
        Some(v) => Value::known(Fp::from(v)),
        None => Value::unknown(),
    }
}

impl Circuit<Fp> for EngineCircuit {
    type Config = TableConfig;
    type FloorPlanner = SimpleFloorPlanner;

    fn without_witnesses(&self) -> Self {
        Self::default()
    }

    fn configure(meta: &mut ConstraintSystem<Fp>) -> TableConfig {
        let advice = [meta.advice_column(), meta.advice_column(), meta.advice_column()];
        let instance = meta.instance_column();
        meta.enable_equality(instance);
        for column in &advice {
            meta.enable_equality(*column);
        }
        let s_binary_l = meta.selector();
        let s_binary_r = meta.selector();
        let s_xor = meta.selector();
        let s_accumulator = meta.selector();

        meta.create_gate("is binary left", |meta| {
            let value = meta.query_advice(advice[0], Rotation::cur());
            let s = meta.query_selector(s_binary_l);
            vec![s * (value.clone() * (Expression::Constant(Fp::ONE) - value))]
        });
        meta.create_gate("is binary right", |meta| {
            let value = meta.query_advice(advice[1], Rotation::cur());
            let s = meta.query_selector(s_binary_r);
            vec![s * (value.clone() * (Expression::Constant(Fp::ONE) - value))]
        });
        meta.create_gate("xor", |meta| {
            let lhs = meta.query_advice(advice[0], Rotation::cur());
            let rhs = meta.query_advice(advice[1], Rotation::cur());
            let out = meta.query_advice(advice[2], Rotation::cur());
            let s = meta.query_selector(s_xor);
            vec![s * (lhs.clone() + rhs.clone()
                - Expression::Constant(Fp::ONE.double()) * lhs * rhs
                - out)]
        });
        meta.create_gate("accumulator", |meta| {
            let inputs_sum = (0..8)
                .map(|i| meta.query_advice(advice[2], Rotation((i as i32) - 8)))
                .fold(Expression::Constant(Fp::ZERO), |acc, e| acc + e);
            let sum = meta.query_advice(advice[2], Rotation::cur());
            let s = meta.query_selector(s_accumulator);
            vec![s * (inputs_sum - sum)]
        });

        TableConfig { advice, instance, s_binary_l, s_binary_r, s_xor, s_accumulator }
    }

    fn synthesize(
        &self,
        config: TableConfig,
        mut layouter: impl Layouter<Fp>,
    ) -> Result<(), Error> {
        let sum_cell = layouter.assign_region(
            || "table",
            |mut region| {
                for i in 0..8 {
                    config.s_binary_l.enable(&mut region, i)?;
                    config.s_binary_r.enable(&mut region, i)?;
                    config.s_xor.enable(&mut region, i)?;
                    region.assign_advice(|| "lhs", config.advice[0], i, || self.left[i])?;
                    region.assign_advice(|| "rhs", config.advice[1], i, || self.right[i])?;
                    region.assign_advice(|| "xor", config.advice[2], i, || self.output[i])?;
                }
                config.s_accumulator.enable(&mut region, 8)?;
                region.assign_advice(|| "sum", config.advice[2], 8, || self.output[8])
            },
        )?;
        layouter.constrain_instance(sum_cell.cell(), config.instance, 0)
    }
}

// A structurally different circuit: same columns, but no XOR or
// accumulator gate, so its verifying key describes another relation.
#[derive(Default)]
struct OtherCircuit {
    a: [Value<Fp>; 8],
}

impl Circuit<Fp> for OtherCircuit {
    type Config = TableConfig;
    type FloorPlanner = SimpleFloorPlanner;

    fn without_witnesses(&self) -> Self {
        Self::default()
    }

    fn configure(meta: &mut ConstraintSystem<Fp>) -> TableConfig {
        let advice = [meta.advice_column(), meta.advice_column(), meta.advice_column()];
        let instance = meta.instance_column();
        meta.enable_equality(instance);
        for column in &advice {
            meta.enable_equality(*column);
        }
        let s_binary_l = meta.selector();
        let s_binary_r = meta.selector();
        let s_xor = meta.selector();
        let s_accumulator = meta.selector();
        meta.create_gate("is binary left", |meta| {
            let value = meta.query_advice(advice[0], Rotation::cur());
            let s = meta.query_selector(s_binary_l);
            vec![s * (value.clone() * (Expression::Constant(Fp::ONE) - value))]
        });
        TableConfig { advice, instance, s_binary_l, s_binary_r, s_xor, s_accumulator }
    }

    fn synthesize(
        &self,
        config: TableConfig,
        mut layouter: impl Layouter<Fp>,
    ) -> Result<(), Error> {
        let first = layouter.assign_region(
            || "row",
            |mut region| {
                config.s_binary_l.enable(&mut region, 0)?;
                region.assign_advice(|| "lhs", config.advice[0], 0, || self.a[0])
            },
        )?;
        layouter.constrain_instance(first.cell(), config.instance, 0)
    }
}

fn engine_circuit(a: &[u64], b: &[u64]) -> EngineCircuit {
    let table = synthesize_circuit(&create_circuit(a.to_vec(), b.to_vec()));
    let mut out = EngineCircuit::default();
    for i in 0..8 {
        out.left[i] = cell_value(table.left[i]);
        out.right[i] = cell_value(table.right[i]);
    }
    for i in 0..9 {
        out.output[i] = cell_value(table.output[i]);
    }
    out
}

fn make_keys(
    params: &Params<EqAffine>,
) -> (ProvingKey<EqAffine>, EngineVerifyingKey) {
    let empty = EngineCircuit::default();
    let vk = keygen_vk(params, &empty).expect("vk generation");
    let pk = keygen_pk(params, vk.clone(), &empty).expect("pk generation");
    (pk, EngineVerifyingKey { inner: vk })
}

fn prove(
    params: &Params<EqAffine>,
    pk: &ProvingKey<EqAffine>,
    circuit: EngineCircuit,
    declared_dist: u64,
) -> Vec<u8> {
    let pub_input = vec![Fp::from(declared_dist)];
    let mut transcript = Blake2bWrite::<_, _, Challenge255<_>>::init(vec![]);
    create_proof(
        params,
        pk,
        &[circuit],
        &[&[&pub_input]],
        UnwrapErr(SysRng),
        &mut transcript,
    )
    .expect("proof generation");
    transcript.finalize()
}

#[test]
fn round_trip_proof_is_accepted() {
    let a: Vec<u64> = vec![1, 1, 0, 1, 0, 1, 0, 0];
    let b: Vec<u64> = vec![0, 1, 0, 0, 0, 1, 1, 0];
    let dist = calculate_hamming_distance(&a, &b);
    let params = generate_setup_params(K);
    let (pk, vk) = make_keys(&params.inner);
    let proof = prove(&params.inner, &pk, engine_circuit(&a, &b), dist);
    assert!(verify(&params, &vk, dist, &proof).is_ok());
}

#[test]
fn flipped_bit_without_new_public_input_is_rejected() {
    let a: Vec<u64> = vec![1, 1, 0, 1, 0, 1, 0, 0];
    let b: Vec<u64> = vec![0, 1, 0, 0, 0, 1, 1, 0];
    let dist = calculate_hamming_distance(&a, &b);
    let mut flipped = a.clone();
    flipped[0] = 1 - flipped[0];
    let params = generate_setup_params(K);
    let (pk, vk) = make_keys(&params.inner);
    let proof = prove(&params.inner, &pk, engine_circuit(&flipped, &b), dist);
    assert!(verify(&params, &vk, dist, &proof).is_err());
}

#[test]
fn wrong_public_input_is_rejected() {
    let a: Vec<u64> = vec![1, 0, 0, 1, 0, 0, 0, 0];
    let b: Vec<u64> = vec![0, 0, 0, 0, 0, 0, 0, 1];
    let dist = calculate_hamming_distance(&a, &b);
    let params = generate_setup_params(K);
    let (pk, vk) = make_keys(&params.inner);
    let proof = prove(&params.inner, &pk, engine_circuit(&a, &b), dist);
    assert!(verify(&params, &vk, dist + 1, &proof).is_err());
}

#[test]
fn verifying_key_of_different_circuit_shape_is_rejected() {
    let a: Vec<u64> = vec![1, 1, 0, 1, 0, 1, 0, 0];
    let b: Vec<u64> = vec![0, 1, 0, 0, 0, 1, 1, 0];
    let dist = calculate_hamming_distance(&a, &b);
    let params = generate_setup_params(K);
    let (pk, _vk) = make_keys(&params.inner);
    let proof = prove(&params.inner, &pk, engine_circuit(&a, &b), dist);
    let other_vk = keygen_vk(&params.inner, &OtherCircuit::default()).expect("other vk");
    let outcome = verify(&params, &EngineVerifyingKey { inner: other_vk }, dist, &proof);
    assert!(outcome.is_err());
}

#[test]
fn verification_is_repeatable() {
    let a: Vec<u64> = vec![0, 1, 1, 0, 0, 0, 0, 0];
    let b: Vec<u64> = vec![0, 1, 0, 0, 0, 0, 0, 1];
    let dist = calculate_hamming_distance(&a, &b);
    let params = generate_setup_params(K);
    let (pk, vk) = make_keys(&params.inner);
    let proof = prove(&params.inner, &pk, engine_circuit(&a, &b), dist);
    let first = verify(&params, &vk, dist, &proof);
    let second = verify(&params, &vk, dist, &proof);
    assert_eq!(first, second);
    let wrong_first = verify(&params, &vk, dist + 2, &proof);
    let wrong_second = verify(&params, &vk, dist + 2, &proof);
    assert_eq!(wrong_first, wrong_second);
}

#[test]
fn host_byte_path_round_trips() {
    let a: Vec<u64> = vec![1, 1, 1, 1, 0, 1, 0, 0];
    let b: Vec<u64> = vec![0, 1, 0, 0, 0, 1, 1, 0];
    let dist = calculate_hamming_distance(&a, &b);
    let params_bytes = setup_params(K);
    let params = Params::<EqAffine>::read(&mut &params_bytes[..]).expect("params decode");
    let (pk, vk) = make_keys(&params);
    let proof = prove(&params, &pk, engine_circuit(&a, &b), dist);
    assert!(proof_verify(&params_bytes, &vk, dist as u32, &proof));
    assert!(!proof_verify(&params_bytes, &vk, (dist + 1) as u32, &proof));
    let garbage: Vec<u8> = vec![7, 7, 7];
    assert!(!proof_verify(&garbage, &vk, dist as u32, &proof));
}

#[test]
fn mismatched_parameter_size_is_engine_failure_not_panic() {
    let params = generate_setup_params(K);
    let (pk, vk) = make_keys(&params.inner);
    let a: Vec<u64> = vec![1, 0, 0, 0, 0, 0, 0, 0];
    let b: Vec<u64> = vec![0; 8];
    let proof = prove(&params.inner, &pk, engine_circuit(&a, &b), 1);
    let smaller_params = generate_setup_params(K - 1);
    assert_eq!(
        verify(&smaller_params, &vk, 1, &proof),
        Err(ProofError::EngineFailure)
    );
}

#[test]
fn oversized_exponent_field_in_parameter_bytes_is_rejected() {
    let params = generate_setup_params(K);
    let (_pk, vk) = make_keys(&params.inner);
    // A 64 in the leading exponent field must be refused, not shift 1
    // by 64.
    let mut bad: Vec<u8> = vec![64, 0, 0, 0];
    bad.extend(std::iter::repeat(0u8).take(32));
    assert!(!proof_verify(&bad, &vk, 1, &vec![]));
}

#[test]
fn setup_serialization_is_deterministic_in_k() {
    assert_eq!(setup_params(4), setup_params(4));
    assert_ne!(setup_params(4), setup_params(5));
}
