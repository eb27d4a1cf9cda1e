use bc_harness::mlkem::{
    handle, panics_on, resume, supported_functions, implementation_name, Event, ParamSet, Step,
    Task,
};
use bc_harness::protocol::{Request, Response};

fn request(function: &str, inputs: &[(&str, &str)], params: &[(&str, i64)]) -> Request {
    Request {
        function: function.to_string(),
        inputs: inputs.iter().map(|(k, v)| (k.to_string(), v.to_string())).collect(),
        params: params.iter().map(|(k, v)| (k.to_string(), *v)).collect(),
    }
}

fn reply(step: Step) -> Response {
    match step {
        Step::Reply(r) => r,
        Step::Run(_) => panic!("expected an answer"),
    }
}

fn error_of(step: Step) -> String {
    let r = reply(step);
    assert_eq!(r.outputs, None);
    assert!(!r.unsupported);
    r.error.expect("expected an error")
}

fn outputs_of(step: Step) -> Vec<(String, String)> {
    let r = reply(step);
    assert_eq!(r.error, None);
    assert!(!r.unsupported);
    r.outputs.expect("expected outputs")
}

fn run(step: Step) -> Task {
    match step {
        Step::Run(t) => t,
        Step::Reply(_) => panic!("expected outside work"),
    }
}

/// The wire form of a polynomial whose coefficient i is i - 128.
fn sample_poly_hex() -> (String, Vec<i16>) {
    let coeffs: Vec<i16> = (0..256).map(|i| i as i16 - 128).collect();
    let bytes: Vec<u8> = coeffs.iter().flat_map(|w| w.to_le_bytes()).collect();
    (hex::encode(bytes), coeffs)
}

#[test]
fn handshake_lists_ten_functions() {
    assert_eq!(implementation_name(), "bc-rust-mlkem");
    let names = supported_functions();
    assert_eq!(names.len(), 10);
    for name in names {
        let r = request(&name, &[], &[]);
        if !panics_on(&r) {
            if let Step::Reply(resp) = handle(&r) {
                assert!(!resp.unsupported, "{name} answered as unsupported");
            }
        }
    }
}

#[test]
fn mlkem_unknown_function_is_unsupported() {
    let r = reply(handle(&request("Compress_d", &[], &[("d", 1)])));
    assert!(r.unsupported);
    assert_eq!(r.error, None);
}

#[test]
fn byte_encode_flow() {
    let (f, coeffs) = sample_poly_hex();
    let task = run(handle(&request("ByteEncode_d", &[("F", &f)], &[("d", 12)])));
    match &task {
        Task::ByteEncode { d, coeffs: c } => {
            assert_eq!(*d, 12);
            assert_eq!(c, &coeffs);
        },
        _ => panic!("expected ByteEncode"),
    }
    let out = outputs_of(resume(task, Event::Encoded(vec![0x12, 0x34])));
    assert_eq!(out, vec![("B".to_string(), "1234".to_string())]);
}

#[test]
fn byte_encode_invalid_d() {
    let (f, _) = sample_poly_hex();
    assert_eq!(error_of(handle(&request("ByteEncode_d", &[("F", &f)], &[("d", 13)]))), "Invalid d value");
    assert_eq!(error_of(handle(&request("ByteEncode_d", &[("F", &f)], &[("d", 0)]))), "Invalid d value");
    // d is checked as given: 2^32 + 1 is not 1
    assert_eq!(
        error_of(handle(&request("ByteEncode_d", &[("F", &f)], &[("d", (1i64 << 32) + 1)]))),
        "Invalid d value"
    );
}

#[test]
fn byte_encode_missing_inputs() {
    assert_eq!(error_of(handle(&request("ByteEncode_d", &[("F", "00")], &[]))), "missing param 'd'");
    assert_eq!(error_of(handle(&request("ByteEncode_d", &[], &[("d", 1)]))), "missing 'F'");
}

#[test]
fn byte_encode_short_polynomial_panics() {
    let r = request("ByteEncode_d", &[("F", "0000")], &[("d", 1)]);
    assert!(panics_on(&r));
    let r = request("ByteEncode_d", &[("F", "0000")], &[]);
    assert!(!panics_on(&r));
}

#[test]
fn byte_decode_length_check() {
    let step = handle(&request("ByteDecode_d", &[("B", "01020304")], &[("d", 3)]));
    assert_eq!(error_of(step), "ByteDecode_3 expects 96 bytes, got 4");
    let b = "00".repeat(416);
    let step = handle(&request("ByteDecode_d", &[("B", &b)], &[("d", 13)]));
    assert_eq!(error_of(step), "Invalid d value");
    let step = handle(&request("ByteDecode_d", &[("B", "")], &[("d", 0)]));
    assert_eq!(error_of(step), "Invalid d value");
    let step = handle(&request("ByteDecode_d", &[("B", "")], &[("d", (1i64 << 32) + 1)]));
    assert_eq!(error_of(step), "Invalid d value");
}

#[test]
fn byte_decode_flow() {
    let b = "ff".repeat(32);
    let task = run(handle(&request("ByteDecode_d", &[("B", &b)], &[("d", 1)])));
    match &task {
        Task::ByteDecode { d, bytes } => {
            assert_eq!(*d, 1);
            assert_eq!(bytes, &vec![0xff; 32]);
        },
        _ => panic!("expected ByteDecode"),
    }
    let (f, coeffs) = sample_poly_hex();
    let out = outputs_of(resume(task, Event::Polynomial(coeffs)));
    assert_eq!(out, vec![("F".to_string(), f)]);
}

#[test]
fn ntt_flows() {
    let (f, coeffs) = sample_poly_hex();
    let task = run(handle(&request("NTT", &[("f", &f)], &[])));
    match &task {
        Task::Ntt { coeffs: c } => assert_eq!(c, &coeffs),
        _ => panic!("expected Ntt"),
    }
    let out = outputs_of(resume(task, Event::Polynomial(coeffs.clone())));
    assert_eq!(out, vec![("f_hat".to_string(), f.clone())]);

    let task = run(handle(&request("NTT_inv", &[("f_hat", &f)], &[])));
    match &task {
        Task::NttInv { coeffs: c } => assert_eq!(c, &coeffs),
        _ => panic!("expected NttInv"),
    }
    let out = outputs_of(resume(task, Event::Polynomial(coeffs.clone())));
    assert_eq!(out, vec![("f".to_string(), f.clone())]);
}

#[test]
fn ntt_short_polynomial_panics() {
    assert!(panics_on(&request("NTT", &[("f", "00")], &[])));
    assert!(!panics_on(&request("NTT_inv", &[("f_hat", "")], &[])));
    assert_eq!(
        error_of(handle(&request("NTT_inv", &[("f_hat", "0102")], &[]))),
        "f_hat must be at least 512 bytes, got 2"
    );
    assert!(!panics_on(&request("NTT", &[("f", "0")], &[])));
    assert_eq!(
        error_of(handle(&request("NTT", &[("f", "0")], &[]))),
        "bad hex 'f': Odd number of digits"
    );
}

#[test]
fn multiply_ntts_flow() {
    let (f, coeffs) = sample_poly_hex();
    let g = "01".repeat(512);
    let task = run(handle(&request("MultiplyNTTs", &[("f_hat", &f), ("g_hat", &g)], &[])));
    match &task {
        Task::MultiplyNtts { f_hat, g_hat } => {
            assert_eq!(f_hat, &coeffs);
            assert_eq!(g_hat, &vec![0x0101i16; 256]);
        },
        _ => panic!("expected MultiplyNtts"),
    }
    let out = outputs_of(resume(task, Event::Polynomial(coeffs)));
    assert_eq!(out, vec![("h_hat".to_string(), f)]);
    assert!(!panics_on(&request("MultiplyNTTs", &[("f_hat", &g), ("g_hat", "00")], &[])));
    assert_eq!(
        error_of(handle(&request("MultiplyNTTs", &[("f_hat", &g), ("g_hat", "00")], &[]))),
        "g_hat must be at least 512 bytes, got 1"
    );
    assert_eq!(
        error_of(handle(&request("MultiplyNTTs", &[("f_hat", ""), ("g_hat", "00")], &[]))),
        "f_hat must be at least 512 bytes, got 0"
    );
    assert!(!panics_on(&request("MultiplyNTTs", &[("f_hat", "00")], &[])));
}

#[test]
fn sample_poly_cbd_checks() {
    let step = handle(&request("SamplePolyCBD", &[("B", "00")], &[("eta", 2)]));
    assert_eq!(error_of(step), "sample_poly_cbd2 expects 128 bytes, got 1");
    let b = "00".repeat(256);
    let step = handle(&request("SamplePolyCBD", &[("B", &b)], &[("eta", 4)]));
    assert_eq!(error_of(step), "Invalid eta value");
    let b = "07".repeat(192);
    let task = run(handle(&request("SamplePolyCBD", &[("B", &b)], &[("eta", 3)])));
    match &task {
        Task::SamplePolyCbd { eta, bytes } => {
            assert_eq!(*eta, 3);
            assert_eq!(bytes, &vec![7; 192]);
        },
        _ => panic!("expected SamplePolyCbd"),
    }
    let (f, coeffs) = sample_poly_hex();
    assert_eq!(outputs_of(resume(task, Event::Polynomial(coeffs))), vec![("f".to_string(), f)]);
}

#[test]
fn sample_poly_cbd_eta_checked_as_given() {
    let b = "00".repeat(128);
    let step = handle(&request("SamplePolyCBD", &[("B", &b)], &[("eta", 65538)]));
    assert_eq!(error_of(step), "Invalid eta value");
    let step = handle(&request("SamplePolyCBD", &[("B", "")], &[("eta", -1)]));
    assert_eq!(error_of(step), "Invalid eta value");
}

#[test]
fn sample_ntt_flow() {
    let step = handle(&request("SampleNTT", &[("B", "00")], &[]));
    assert_eq!(error_of(step), "sample_ntt expects 34 bytes, got 1");
    let b = format!("{}0102", "aa".repeat(32));
    let task = run(handle(&request("SampleNTT", &[("B", &b)], &[])));
    match &task {
        Task::SampleNtt { rho, nonce } => {
            assert_eq!(rho, &vec![0xaa; 32]);
            assert_eq!(nonce, &vec![1, 2]);
        },
        _ => panic!("expected SampleNtt"),
    }
    let (f, coeffs) = sample_poly_hex();
    assert_eq!(outputs_of(resume(task, Event::Polynomial(coeffs))), vec![("a_hat".to_string(), f)]);
}

#[test]
fn mlkem_keygen_flow() {
    let d_z = "00".repeat(64);
    let task = run(handle(&request("ML_KEM_KeyGen", &[("randomness", &d_z)], &[("param_set", 768)])));
    match &task {
        Task::LoadSeed { seed, param_set } => {
            assert_eq!(seed, &vec![0; 64]);
            assert_eq!(*param_set, 768);
        },
        _ => panic!("expected LoadSeed"),
    }
    let next = run(resume(task, Event::SeedLoaded));
    assert!(matches!(next, Task::KeyGen { params: ParamSet::MlKem768 }));
    let out = outputs_of(resume(next, Event::KeysGenerated { ek: vec![1], dk: vec![2, 3] }));
    assert_eq!(out, vec![("ek".to_string(), "01".to_string()), ("dk".to_string(), "0203".to_string())]);
}

#[test]
fn keygen_errors() {
    let task = Task::LoadSeed { seed: vec![1, 2], param_set: 512 };
    assert_eq!(error_of(resume(task, Event::SeedRejected("Len".to_string()))), "invalid seed: Len");
    let task = Task::LoadSeed { seed: vec![0; 64], param_set: 44 };
    assert_eq!(error_of(resume(task, Event::SeedLoaded)), "unsupported param_set: 44");
    let task = Task::KeyGen { params: ParamSet::MlKem512 };
    assert_eq!(error_of(resume(task, Event::KeyGenFailed("X".to_string()))), "keygen failed: X");
}

#[test]
fn encaps_flow() {
    let m = "5a".repeat(32);
    let task = run(handle(&request(
        "ML_KEM_Encaps",
        &[("ek", "0102"), ("randomness", &m)],
        &[("param_set", 1024)],
    )));
    match &task {
        Task::LoadEncapsKey { params, ek, m } => {
            assert_eq!(*params, ParamSet::MlKem1024);
            assert_eq!(ek, &vec![1, 2]);
            assert_eq!(m, &vec![0x5a; 32]);
        },
        _ => panic!("expected LoadEncapsKey"),
    }
    let encaps = run(resume(task, Event::EncapsKeyLoaded));
    assert!(matches!(&encaps, Task::Encaps { params: ParamSet::MlKem1024, .. }));
    let out = outputs_of(resume(encaps, Event::Encapsulated { c: vec![9], k: vec![0xaa; 32] }));
    assert_eq!(out, vec![("c".to_string(), "09".to_string()), ("K".to_string(), "aa".repeat(32))]);
}

#[test]
fn encaps_errors() {
    let task = Task::LoadEncapsKey { params: ParamSet::MlKem512, ek: vec![], m: vec![0; 32] };
    assert_eq!(
        error_of(resume(task, Event::EncapsKeyRejected("EncodingError".to_string()))),
        "invalid ek: EncodingError"
    );
    let m = "00".repeat(32);
    let step = handle(&request("ML_KEM_Encaps", &[("ek", "01"), ("randomness", &m)], &[("param_set", 2)]));
    assert_eq!(error_of(step), "unsupported param_set: 2");
    assert!(panics_on(&request("ML_KEM_Encaps", &[("ek", "01"), ("randomness", "00")], &[])));
    assert!(!panics_on(&request("ML_KEM_Encaps", &[("randomness", "00")], &[])));
}

#[test]
fn decaps_flow() {
    let task = run(handle(&request(
        "ML_KEM_Decaps",
        &[("c", "0c"), ("dk", "0d")],
        &[("param_set", 512)],
    )));
    match &task {
        Task::LoadDecapsKey { params, dk, c } => {
            assert_eq!(*params, ParamSet::MlKem512);
            assert_eq!(dk, &vec![0x0d]);
            assert_eq!(c, &vec![0x0c]);
        },
        _ => panic!("expected LoadDecapsKey"),
    }
    let decaps = run(resume(task, Event::DecapsKeyLoaded));
    match &decaps {
        Task::Decaps { params, c } => {
            assert_eq!(*params, ParamSet::MlKem512);
            assert_eq!(c, &vec![0x0c]);
        },
        _ => panic!("expected Decaps"),
    }
    let out = outputs_of(resume(decaps, Event::Decapsulated(vec![0x01; 32])));
    assert_eq!(out, vec![("K".to_string(), "01".repeat(32))]);
}

#[test]
fn decaps_errors() {
    let task = Task::LoadDecapsKey { params: ParamSet::MlKem768, dk: vec![], c: vec![] };
    assert_eq!(error_of(resume(task, Event::DecapsKeyRejected("E".to_string()))), "invalid dk: E");
    let task = Task::Decaps { params: ParamSet::MlKem768, c: vec![] };
    assert_eq!(error_of(resume(task, Event::DecapsFailed("F".to_string()))), "decaps failed: F");
    let step = handle(&request("ML_KEM_Decaps", &[("c", "0c")], &[("param_set", 512)]));
    assert_eq!(error_of(step), "missing 'dk'");
}
