use bc_harness::mldsa::{
    handle, reject, resume, supported_functions, implementation_name, Event, ParamSet, Step, Task,
};
use bc_harness::protocol::{Request, Response};

fn request(function: &str, inputs: &[(&str, &str)], params: &[(&str, i64)]) -> Request {
    Request {
        function: function.to_string(),
        inputs: inputs.iter().map(|(k, v)| (k.to_string(), v.to_string())).collect(),
        params: params.iter().map(|(k, v)| (k.to_string(), *v)).collect(),
    }
}

fn reply(step: Step) -> Response {
    match step {
        Step::Reply(r) => r,
        Step::Run(_) => panic!("expected an answer"),
    }
}

fn error_of(step: Step) -> String {
    let r = reply(step);
    assert_eq!(r.outputs, None);
    assert!(!r.unsupported);
    r.error.expect("expected an error")
}

fn outputs_of(step: Step) -> Vec<(String, String)> {
    let r = reply(step);
    assert_eq!(r.error, None);
    assert!(!r.unsupported);
    r.outputs.expect("expected outputs")
}

fn run(step: Step) -> Task {
    match step {
        Step::Run(t) => t,
        Step::Reply(_) => panic!("expected outside work"),
    }
}

#[test]
fn handshake_lists_three_functions() {
    assert_eq!(implementation_name(), "bouncycastle-rust");
    assert_eq!(supported_functions(), vec!["ML_DSA_KeyGen", "ML_DSA_Sign", "ML_DSA_Verify"]);
}

#[test]
fn mldsa_unknown_function_is_unsupported() {
    let r = reply(handle(&request("ML_KEM_KeyGen", &[], &[])));
    assert!(r.unsupported);
    assert_eq!(r.outputs, None);
    assert_eq!(r.error, None);
}

#[test]
fn keygen_missing_seed() {
    let step = handle(&request("ML_DSA_KeyGen", &[], &[("param_set", 44)]));
    assert_eq!(error_of(step), "missing 'seed'");
}

#[test]
fn keygen_missing_param_set() {
    let seed = "00".repeat(32);
    let step = handle(&request("ML_DSA_KeyGen", &[("seed", &seed)], &[]));
    assert_eq!(error_of(step), "missing param 'param_set'");
}

#[test]
fn keygen_wrong_seed_length() {
    let step = handle(&request("ML_DSA_KeyGen", &[("seed", "000102")], &[("param_set", 44)]));
    assert_eq!(error_of(step), "seed must be 32 bytes, got 3");
}

#[test]
fn mldsa_keygen_flow() {
    let seed = "ab".repeat(32);
    let task = run(handle(&request("ML_DSA_KeyGen", &[("seed", &seed)], &[("param_set", 65)])));
    match &task {
        Task::LoadSeed { seed, param_set } => {
            assert_eq!(seed, &vec![0xab; 32]);
            assert_eq!(*param_set, 65);
        },
        _ => panic!("expected LoadSeed"),
    }
    let next = run(resume(task, Event::SeedLoaded));
    match &next {
        Task::KeyGen { params } => assert_eq!(*params, ParamSet::MlDsa65),
        _ => panic!("expected KeyGen"),
    }
    let out = outputs_of(resume(next, Event::KeysGenerated { pk: vec![1, 2], sk: vec![0xfe] }));
    assert_eq!(out, vec![("pk".to_string(), "0102".to_string()), ("sk".to_string(), "fe".to_string())]);
}

#[test]
fn keygen_seed_rejected_and_failed() {
    let task = Task::LoadSeed { seed: vec![0; 32], param_set: 44 };
    assert_eq!(error_of(resume(task, Event::SeedRejected("Bad".to_string()))), "invalid seed: Bad");
    let task = Task::KeyGen { params: ParamSet::MlDsa44 };
    assert_eq!(
        error_of(resume(task, Event::KeyGenFailed("Oops".to_string()))),
        "keygen failed: Oops"
    );
}

#[test]
fn keygen_unsupported_param_set_after_seed() {
    let task = Task::LoadSeed { seed: vec![0; 32], param_set: -7 };
    assert_eq!(error_of(resume(task, Event::SeedLoaded)), "unsupported param_set: -7");
}

#[test]
fn sign_wrong_rnd_length() {
    let step = handle(&request(
        "ML_DSA_Sign",
        &[("sk", "00"), ("message", ""), ("rnd", "0000")],
        &[("param_set", 44)],
    ));
    assert_eq!(error_of(step), "rnd must be 32 bytes, got 2");
}

#[test]
fn sign_rnd_checked_before_param_set() {
    let step = handle(&request("ML_DSA_Sign", &[("sk", "00"), ("message", ""), ("rnd", "")], &[]));
    assert_eq!(error_of(step), "rnd must be 32 bytes, got 0");
}

#[test]
fn sign_unsupported_param_set() {
    let rnd = "00".repeat(32);
    let step = handle(&request(
        "ML_DSA_Sign",
        &[("sk", "00"), ("message", "aa"), ("rnd", &rnd)],
        &[("param_set", 128)],
    ));
    assert_eq!(error_of(step), "unsupported param_set: 128");
}

#[test]
fn sign_flow() {
    let rnd = "11".repeat(32);
    let task = run(handle(&request(
        "ML_DSA_Sign",
        &[("sk", "0a0b"), ("message", "cafe"), ("rnd", &rnd)],
        &[("param_set", 87)],
    )));
    match &task {
        Task::LoadSecretKey { params, sk, message, rnd } => {
            assert_eq!(*params, ParamSet::MlDsa87);
            assert_eq!(sk, &vec![0x0a, 0x0b]);
            assert_eq!(message, &vec![0xca, 0xfe]);
            assert_eq!(rnd, &vec![0x11; 32]);
        },
        _ => panic!("expected LoadSecretKey"),
    }
    let sign = run(resume(task, Event::SecretKeyLoaded));
    match &sign {
        Task::Sign { params, message, rnd } => {
            assert_eq!(*params, ParamSet::MlDsa87);
            assert_eq!(message, &vec![0xca, 0xfe]);
            assert_eq!(rnd.len(), 32);
        },
        _ => panic!("expected Sign"),
    }
    let out = outputs_of(resume(sign, Event::Signed(vec![0xde, 0xad])));
    assert_eq!(out, vec![("signature".to_string(), "dead".to_string())]);
}

#[test]
fn sign_key_rejected_and_failure() {
    let task = Task::LoadSecretKey {
        params: ParamSet::MlDsa44,
        sk: vec![],
        message: vec![],
        rnd: vec![0; 32],
    };
    assert_eq!(
        error_of(resume(task, Event::SecretKeyRejected("DecodingError".to_string()))),
        "invalid sk: DecodingError"
    );
    let task = Task::Sign { params: ParamSet::MlDsa44, message: vec![], rnd: vec![0; 32] };
    assert_eq!(error_of(resume(task, Event::SignFailed("E".to_string()))), "sign failed: E");
}

#[test]
fn verify_rejects_bad_key_without_error() {
    let task = Task::LoadPublicKey {
        params: ParamSet::MlDsa44,
        pk: vec![1],
        message: vec![],
        sigma: vec![0; 2420],
    };
    let out = outputs_of(resume(task, Event::PublicKeyRejected));
    assert_eq!(out, vec![("valid".to_string(), "00".to_string())]);
}

#[test]
fn verify_rejects_wrong_signature_length_without_error() {
    for (params, len) in [(ParamSet::MlDsa44, 2421usize), (ParamSet::MlDsa65, 3308), (ParamSet::MlDsa87, 0)] {
        let task = Task::LoadPublicKey { params, pk: vec![], message: vec![], sigma: vec![0; len] };
        let out = outputs_of(resume(task, Event::PublicKeyLoaded));
        assert_eq!(out, vec![("valid".to_string(), "00".to_string())]);
    }
}

#[test]
fn verify_flow() {
    let sigma = "00".repeat(3309);
    let task = run(handle(&request(
        "ML_DSA_Verify",
        &[("pk", "01"), ("message", "02"), ("sigma", &sigma)],
        &[("param_set", 65)],
    )));
    let verify = run(resume(task, Event::PublicKeyLoaded));
    match &verify {
        Task::Verify { params, message, sigma } => {
            assert_eq!(*params, ParamSet::MlDsa65);
            assert_eq!(message, &vec![2]);
            assert_eq!(sigma.len(), 3309);
        },
        _ => panic!("expected Verify"),
    }
    let out = outputs_of(resume(verify, Event::Verified(true)));
    assert_eq!(out, vec![("valid".to_string(), "01".to_string())]);
    let verify = Task::Verify { params: ParamSet::MlDsa44, message: vec![], sigma: vec![0; 2420] };
    let out = outputs_of(resume(verify, Event::Verified(false)));
    assert_eq!(out, vec![("valid".to_string(), "00".to_string())]);
}

#[test]
fn verify_bad_hex_is_an_error() {
    let step = handle(&request(
        "ML_DSA_Verify",
        &[("pk", "zz"), ("message", "02"), ("sigma", "")],
        &[("param_set", 65)],
    ));
    assert_eq!(error_of(step), "bad hex 'pk': Invalid character 'z' at position 0");
}

#[test]
fn verify_unsupported_param_set_is_an_error() {
    let step = handle(&request(
        "ML_DSA_Verify",
        &[("pk", "01"), ("message", "02"), ("sigma", "")],
        &[("param_set", 0)],
    ));
    assert_eq!(error_of(step), "unsupported param_set: 0");
}

#[test]
fn reject_answer() {
    let r = reject();
    assert_eq!(r.outputs, Some(vec![("valid".to_string(), "00".to_string())]));
    assert_eq!(r.error, None);
    assert!(!r.unsupported);
}

#[test]
fn signature_answer_decodes_to_signature() {
    let signature: Vec<u8> = (0..2420u32).map(|i| (i * 7 % 256) as u8).collect();
    let task = Task::Sign { params: ParamSet::MlDsa44, message: vec![], rnd: vec![0; 32] };
    let out = outputs_of(resume(task, Event::Signed(signature.clone())));
    assert_eq!(out.len(), 1);
    assert_eq!(out[0].0, "signature");
    assert_eq!(hex::decode(&out[0].1).unwrap(), signature);
}
