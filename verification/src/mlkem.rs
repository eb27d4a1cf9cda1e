//! The ML-KEM harness (FIPS 203): the auxiliary algorithms of §4 and the
//! internal algorithms of §6 — which request asks for what, what is handed to
//! the implementation, and what is answered.
//!
//! The implementation itself runs outside this library. `handle` reads a
//! request and either answers it at once or names the outside work to do
//! (`Task`); the caller does that work, reports what came of it (`Event`), and
//! `resume` decides the next step from the task and the event.
//!
//! Polynomials travel in wire form (`crate::poly`): 512 bytes, 256 coefficients
//! of two bytes each, little-endian.
use vstd::prelude::*;
use crate::decimal::{nat_numeral, int_numeral};
use crate::hexcodec::{hex_lower, hex_encode, HexError, hex_decode_spec, lemma_decode_of_encode};
use vstd::utf8::encode_utf8;
use crate::poly::{
    N, POLY_BYTES, coeffs_of, le_bytes_of, coeffs_from_le_bytes, coeffs_to_le_bytes,
    lemma_coeffs_round_trip, lemma_coeffs_are_little_endian,
};
use crate::protocol::{
    Request, RequestView, Response, ResponseView, bytes_spec, param_spec, ok_view, err_view,
    unsupported_view, unsupported, request_names_distinct, texts_view, input_bytes, entry_for, well_formed,
};
use crate::text::{is_named, joined, with_count, with_integer, entry};
pub use crate::protocol::{get_bytes, get_param, ok, err};

verus! {

/// The ML-KEM parameter sets (FIPS 203, Table 2).
#[derive(PartialEq, Eq, Structural, Clone, Copy, Debug)]
pub enum ParamSet {
    MlKem512,
    MlKem768,
    MlKem1024,
}

/// The parameter set that a `param_set` value names.
pub open spec fn param_set_of(p: i64) -> Option<ParamSet> {
    if p == 512 {
        Some(ParamSet::MlKem512)
    } else if p == 768 {
        Some(ParamSet::MlKem768)
    } else if p == 1024 {
        Some(ParamSet::MlKem1024)
    } else {
        None
    }
}

/// The parameter set that a `param_set` value names, if any.
pub fn param_set_from(p: i64) -> (res: Option<ParamSet>)
    ensures
        res == param_set_of(p),
{
    if p == 512 {
        Some(ParamSet::MlKem512)
    } else if p == 768 {
        Some(ParamSet::MlKem768)
    } else if p == 1024 {
        Some(ParamSet::MlKem1024)
    } else {
        None
    }
}

/// Outside work: the calls into the ML-KEM implementation.
pub enum Task {
    /// `ByteEncode_d` (Algorithm 5) of the polynomial, for 1 ≤ d ≤ 12.
    ByteEncode { d: u32, coeffs: Vec<i16> },
    /// `ByteDecode_d` (Algorithm 6) of 32·d bytes, for 1 ≤ d ≤ 12.
    ByteDecode { d: u32, bytes: Vec<u8> },
    /// `NTT` (Algorithm 9) of the polynomial.
    Ntt { coeffs: Vec<i16> },
    /// `NTT⁻¹` (Algorithm 10) of the polynomial.
    NttInv { coeffs: Vec<i16> },
    /// `MultiplyNTTs` (Algorithm 11) of two polynomials.
    MultiplyNtts { f_hat: Vec<i16>, g_hat: Vec<i16> },
    /// `SamplePolyCBD_η` (Algorithm 8) of 64·η bytes, for η of 2 or 3.
    SamplePolyCbd { eta: i16, bytes: Vec<u8> },
    /// `SampleNTT` (Algorithm 7) of the 32-byte seed ρ and the two index bytes.
    SampleNtt { rho: Vec<u8>, nonce: Vec<u8> },
    /// Set the randomness d ‖ z into 64-byte key material of type `Seed`, hazardous
    /// operations allowed (the all-zero seed is accepted); `param_set` is kept.
    LoadSeed { seed: Vec<u8>, param_set: i64 },
    /// Generate the key pair from the loaded seed (Algorithm 16); report both keys
    /// encoded.
    KeyGen { params: ParamSet },
    /// Decode (and so check) the encapsulation key; `m` is kept.
    LoadEncapsKey { params: ParamSet, ek: Vec<u8>, m: Vec<u8> },
    /// Encapsulate (Algorithm 17) with the loaded key and the 32 bytes `m`.
    Encaps { params: ParamSet, m: Vec<u8> },
    /// Decode the decapsulation key; the ciphertext `c` is kept.
    LoadDecapsKey { params: ParamSet, dk: Vec<u8>, c: Vec<u8> },
    /// Decapsulate (Algorithm 18) the ciphertext with the loaded key.
    Decaps { params: ParamSet, c: Vec<u8> },
}

/// A task, its bytes and coefficients taken as sequences.
pub enum TaskView {
    ByteEncode { d: u32, coeffs: Seq<i16> },
    ByteDecode { d: u32, bytes: Seq<u8> },
    Ntt { coeffs: Seq<i16> },
    NttInv { coeffs: Seq<i16> },
    MultiplyNtts { f_hat: Seq<i16>, g_hat: Seq<i16> },
    SamplePolyCbd { eta: i16, bytes: Seq<u8> },
    SampleNtt { rho: Seq<u8>, nonce: Seq<u8> },
    LoadSeed { seed: Seq<u8>, param_set: i64 },
    KeyGen { params: ParamSet },
    LoadEncapsKey { params: ParamSet, ek: Seq<u8>, m: Seq<u8> },
    Encaps { params: ParamSet, m: Seq<u8> },
    LoadDecapsKey { params: ParamSet, dk: Seq<u8>, c: Seq<u8> },
    Decaps { params: ParamSet, c: Seq<u8> },
}

impl View for Task {
    type V = TaskView;

    open spec fn view(&self) -> TaskView {
        match self {
            Task::ByteEncode { d, coeffs } => TaskView::ByteEncode { d: *d, coeffs: coeffs@ },
            Task::ByteDecode { d, bytes } => TaskView::ByteDecode { d: *d, bytes: bytes@ },
            Task::Ntt { coeffs } => TaskView::Ntt { coeffs: coeffs@ },
            Task::NttInv { coeffs } => TaskView::NttInv { coeffs: coeffs@ },
            Task::MultiplyNtts { f_hat, g_hat } => TaskView::MultiplyNtts {
                f_hat: f_hat@,
                g_hat: g_hat@,
            },
            Task::SamplePolyCbd { eta, bytes } => TaskView::SamplePolyCbd {
                eta: *eta,
                bytes: bytes@,
            },
            Task::SampleNtt { rho, nonce } => TaskView::SampleNtt { rho: rho@, nonce: nonce@ },
            Task::LoadSeed { seed, param_set } => TaskView::LoadSeed {
                seed: seed@,
                param_set: *param_set,
            },
            Task::KeyGen { params } => TaskView::KeyGen { params: *params },
            Task::LoadEncapsKey { params, ek, m } => TaskView::LoadEncapsKey {
                params: *params,
                ek: ek@,
                m: m@,
            },
            Task::Encaps { params, m } => TaskView::Encaps { params: *params, m: m@ },
            Task::LoadDecapsKey { params, dk, c } => TaskView::LoadDecapsKey {
                params: *params,
                dk: dk@,
                c: c@,
            },
            Task::Decaps { params, c } => TaskView::Decaps { params: *params, c: c@ },
        }
    }
}

/// What came of a task. Texts are the outside errors as `{:?}` prints them.
pub enum Event {
    Encoded(Vec<u8>),
    Polynomial(Vec<i16>),
    SeedLoaded,
    SeedRejected(String),
    KeysGenerated { ek: Vec<u8>, dk: Vec<u8> },
    KeyGenFailed(String),
    EncapsKeyLoaded,
    EncapsKeyRejected(String),
    Encapsulated { c: Vec<u8>, k: Vec<u8> },
    DecapsKeyLoaded,
    DecapsKeyRejected(String),
    Decapsulated(Vec<u8>),
    DecapsFailed(String),
}

/// An event, its bytes, coefficients and texts taken as sequences.
pub enum EventView {
    Encoded(Seq<u8>),
    Polynomial(Seq<i16>),
    SeedLoaded,
    SeedRejected(Seq<char>),
    KeysGenerated { ek: Seq<u8>, dk: Seq<u8> },
    KeyGenFailed(Seq<char>),
    EncapsKeyLoaded,
    EncapsKeyRejected(Seq<char>),
    Encapsulated { c: Seq<u8>, k: Seq<u8> },
    DecapsKeyLoaded,
    DecapsKeyRejected(Seq<char>),
    Decapsulated(Seq<u8>),
    DecapsFailed(Seq<char>),
}

impl View for Event {
    type V = EventView;

    open spec fn view(&self) -> EventView {
        match self {
            Event::Encoded(b) => EventView::Encoded(b@),
            Event::Polynomial(c) => EventView::Polynomial(c@),
            Event::SeedLoaded => EventView::SeedLoaded,
            Event::SeedRejected(t) => EventView::SeedRejected(t@),
            Event::KeysGenerated { ek, dk } => EventView::KeysGenerated { ek: ek@, dk: dk@ },
            Event::KeyGenFailed(t) => EventView::KeyGenFailed(t@),
            Event::EncapsKeyLoaded => EventView::EncapsKeyLoaded,
            Event::EncapsKeyRejected(t) => EventView::EncapsKeyRejected(t@),
            Event::Encapsulated { c, k } => EventView::Encapsulated { c: c@, k: k@ },
            Event::DecapsKeyLoaded => EventView::DecapsKeyLoaded,
            Event::DecapsKeyRejected(t) => EventView::DecapsKeyRejected(t@),
            Event::Decapsulated(k) => EventView::Decapsulated(k@),
            Event::DecapsFailed(t) => EventView::DecapsFailed(t@),
        }
    }
}

/// Whether a task yields a polynomial.
pub open spec fn yields_polynomial(t: TaskView) -> bool {
    ||| t is ByteDecode
    ||| t is Ntt
    ||| t is NttInv
    ||| t is MultiplyNtts
    ||| t is SamplePolyCbd
    ||| t is SampleNtt
}

/// Whether an event is one that the task can come to. A polynomial has 256
/// coefficients.
pub open spec fn fits(t: TaskView, e: EventView) -> bool {
    if yields_polynomial(t) {
        e matches EventView::Polynomial(c) && c.len() == N
    } else {
        match t {
            TaskView::ByteEncode { .. } => e is Encoded,
            TaskView::LoadSeed { .. } => e is SeedLoaded || e is SeedRejected,
            TaskView::KeyGen { .. } => e is KeysGenerated || e is KeyGenFailed,
            TaskView::LoadEncapsKey { .. } => e is EncapsKeyLoaded || e is EncapsKeyRejected,
            TaskView::Encaps { .. } => e is Encapsulated,
            TaskView::LoadDecapsKey { .. } => e is DecapsKeyLoaded || e is DecapsKeyRejected,
            TaskView::Decaps { .. } => e is Decapsulated || e is DecapsFailed,
            _ => false,
        }
    }
}

/// Whether an event is one that the task can come to.
pub fn event_fits(task: &Task, event: &Event) -> (b: bool)
    ensures
        b == fits(task@, event@),
{
    match task {
        Task::ByteDecode { .. } | Task::Ntt { .. } | Task::NttInv { .. }
        | Task::MultiplyNtts { .. } | Task::SamplePolyCbd { .. } | Task::SampleNtt { .. } =>
            match event {
            Event::Polynomial(c) => c.len() == N,
            _ => false,
        },
        Task::ByteEncode { .. } => match event {
            Event::Encoded(_) => true,
            _ => false,
        },
        Task::LoadSeed { .. } => match event {
            Event::SeedLoaded | Event::SeedRejected(_) => true,
            _ => false,
        },
        Task::KeyGen { .. } => match event {
            Event::KeysGenerated { .. } | Event::KeyGenFailed(_) => true,
            _ => false,
        },
        Task::LoadEncapsKey { .. } => match event {
            Event::EncapsKeyLoaded | Event::EncapsKeyRejected(_) => true,
            _ => false,
        },
        Task::Encaps { .. } => match event {
            Event::Encapsulated { .. } => true,
            _ => false,
        },
        Task::LoadDecapsKey { .. } => match event {
            Event::DecapsKeyLoaded | Event::DecapsKeyRejected(_) => true,
            _ => false,
        },
        Task::Decaps { .. } => match event {
            Event::Decapsulated(_) | Event::DecapsFailed(_) => true,
            _ => false,
        },
    }
}

/// The next step: answer, or do outside work.
pub enum Step {
    Reply(Response),
    Run(Task),
}

/// A step, by its views.
pub enum StepView {
    Reply(ResponseView),
    Run(TaskView),
}

impl View for Step {
    type V = StepView;

    open spec fn view(&self) -> StepView {
        match self {
            Step::Reply(r) => StepView::Reply(r@),
            Step::Run(t) => StepView::Run(t@),
        }
    }
}

/// The error answer.
pub open spec fn fail(msg: Seq<char>) -> StepView {
    StepView::Reply(err_view(msg))
}

/// The message for a parameter set that is not supported.
pub open spec fn unsupported_param_msg(p: i64) -> Seq<char> {
    "unsupported param_set: "@ + int_numeral(p as int)
}

/// Whether a byte input reads well but is shorter than a polynomial's wire form.
pub open spec fn short_poly(r: RequestView, key: Seq<char>) -> bool {
    input_bytes(r, key) matches Some(b) && b.len() < POLY_BYTES
}

/// The answer that carries one polynomial in wire form, hexadecimal-encoded.
pub open spec fn poly_reply(name: Seq<char>, coeffs: Seq<i16>) -> StepView {
    StepView::Reply(ok_view(seq![(name, hex_lower(le_bytes_of(coeffs)))]))
}

/// The first step of `ByteEncode_d`: the polynomial `F` is read from its first
/// 512 bytes before `d` is checked to lie in 1..=12.
pub open spec fn byte_encode_spec(r: RequestView) -> StepView {
    match param_spec(r, "d"@) {
        Err(m) => fail(m),
        Ok(p) => match bytes_spec(r, "F"@) {
            Err(m) => fail(m),
            Ok(f) => if 1 <= p <= 12 {
                StepView::Run(TaskView::ByteEncode { d: p as u32, coeffs: coeffs_of(f) })
            } else {
                fail("Invalid d value"@)
            },
        },
    }
}

/// The first step of `ByteDecode_d`: `d` must lie in 1..=12, and `B` must then
/// have 32·d bytes.
pub open spec fn byte_decode_spec(r: RequestView) -> StepView {
    match param_spec(r, "d"@) {
        Err(m) => fail(m),
        Ok(p) => match bytes_spec(r, "B"@) {
            Err(m) => fail(m),
            Ok(b) => if !(1 <= p <= 12) {
                fail("Invalid d value"@)
            } else if b.len() != 32 * p {
                fail(
                    "ByteDecode_"@ + nat_numeral(p as nat) + " expects "@ + nat_numeral(
                        (32 * p) as nat,
                    ) + " bytes, got "@ + nat_numeral(b.len()),
                )
            } else {
                StepView::Run(TaskView::ByteDecode { d: p as u32, bytes: b })
            },
        },
    }
}

/// The first step of `NTT`.
pub open spec fn ntt_spec(r: RequestView) -> StepView {
    match bytes_spec(r, "f"@) {
        Err(m) => fail(m),
        Ok(f) => StepView::Run(TaskView::Ntt { coeffs: coeffs_of(f) }),
    }
}

/// The first step of `NTT_inv`.
pub open spec fn ntt_inv_spec(r: RequestView) -> StepView {
    match bytes_spec(r, "f_hat"@) {
        Err(m) => fail(m),
        Ok(f) => if f.len() < POLY_BYTES {
            fail(short_poly_msg("f_hat"@, f.len()))
        } else {
            StepView::Run(TaskView::NttInv { coeffs: coeffs_of(f) })
        },
    }
}

/// The message for a polynomial input shorter than its 512-byte wire form.
pub open spec fn short_poly_msg(key: Seq<char>, len: nat) -> Seq<char> {
    key + " must be at least 512 bytes, got "@ + nat_numeral(len)
}

/// The first step of `MultiplyNTTs`.
pub open spec fn multiply_ntts_spec(r: RequestView) -> StepView {
    match bytes_spec(r, "f_hat"@) {
        Err(m) => fail(m),
        Ok(f) => match bytes_spec(r, "g_hat"@) {
            Err(m) => fail(m),
            Ok(g) => if f.len() < POLY_BYTES {
                fail(short_poly_msg("f_hat"@, f.len()))
            } else if g.len() < POLY_BYTES {
                fail(short_poly_msg("g_hat"@, g.len()))
            } else {
                StepView::Run(TaskView::MultiplyNtts { f_hat: coeffs_of(f), g_hat: coeffs_of(g) })
            },
        },
    }
}

/// The first step of `SamplePolyCBD`: η must be 2 or 3, and `B` must then have
/// 64·η bytes.
pub open spec fn sample_poly_cbd_spec(r: RequestView) -> StepView {
    match param_spec(r, "eta"@) {
        Err(m) => fail(m),
        Ok(p) => match bytes_spec(r, "B"@) {
            Err(m) => fail(m),
            Ok(b) => if !(p == 2 || p == 3) {
                fail("Invalid eta value"@)
            } else if b.len() != 64 * p {
                fail(
                    "sample_poly_cbd"@ + nat_numeral(p as nat) + " expects "@ + nat_numeral(
                        (64 * p) as nat,
                    ) + " bytes, got "@ + nat_numeral(b.len()),
                )
            } else {
                StepView::Run(TaskView::SamplePolyCbd { eta: p as i16, bytes: b })
            },
        },
    }
}

/// The first step of `SampleNTT`: `B` is the 32-byte seed ρ followed by two
/// index bytes.
pub open spec fn sample_ntt_spec(r: RequestView) -> StepView {
    match bytes_spec(r, "B"@) {
        Err(m) => fail(m),
        Ok(b) => if b.len() != 34 {
            fail("sample_ntt expects 34 bytes, got "@ + nat_numeral(b.len()))
        } else {
            StepView::Run(TaskView::SampleNtt { rho: b.subrange(0, 32), nonce: b.subrange(32, 34) })
        },
    }
}

/// The first step of `ML_KEM_KeyGen` (Algorithm 16).
pub open spec fn keygen_spec(r: RequestView) -> StepView {
    match bytes_spec(r, "randomness"@) {
        Err(m) => fail(m),
        Ok(seed) => match param_spec(r, "param_set"@) {
            Err(m) => fail(m),
            Ok(p) => StepView::Run(TaskView::LoadSeed { seed, param_set: p }),
        },
    }
}

/// The first step of `ML_KEM_Encaps` (Algorithm 17).
pub open spec fn encaps_spec(r: RequestView) -> StepView {
    match bytes_spec(r, "ek"@) {
        Err(m) => fail(m),
        Ok(ek) => match bytes_spec(r, "randomness"@) {
            Err(m) => fail(m),
            Ok(m) => match param_spec(r, "param_set"@) {
                Err(msg) => fail(msg),
                Ok(p) => match param_set_of(p) {
                    None => fail(unsupported_param_msg(p)),
                    Some(params) => StepView::Run(TaskView::LoadEncapsKey { params, ek, m }),
                },
            },
        },
    }
}

/// The first step of `ML_KEM_Decaps` (Algorithm 18).
pub open spec fn decaps_spec(r: RequestView) -> StepView {
    match bytes_spec(r, "c"@) {
        Err(m) => fail(m),
        Ok(c) => match bytes_spec(r, "dk"@) {
            Err(m) => fail(m),
            Ok(dk) => match param_spec(r, "param_set"@) {
                Err(m) => fail(m),
                Ok(p) => match param_set_of(p) {
                    None => fail(unsupported_param_msg(p)),
                    Some(params) => StepView::Run(TaskView::LoadDecapsKey { params, dk, c }),
                },
            },
        },
    }
}

/// The requests that the harness cannot serve but aborts on: a polynomial input to
/// `ByteEncode_d` or `NTT` shorter than 512 bytes, or randomness for
/// `ML_KEM_Encaps` that is not 32 bytes.
pub open spec fn handle_panics(r: RequestView) -> bool {
    if r.function == "ByteEncode_d"@ {
        entry_for(r.params, "d"@) is Some && short_poly(r, "F"@)
    } else if r.function == "NTT"@ {
        short_poly(r, "f"@)
    } else if r.function == "ML_KEM_Encaps"@ {
        input_bytes(r, "ek"@) is Some && (input_bytes(r, "randomness"@) matches Some(m) && m.len()
            != 32)
    } else {
        false
    }
}

/// The first step for a request.
pub open spec fn handle_spec(r: RequestView) -> StepView {
    if r.function == "ByteEncode_d"@ {
        byte_encode_spec(r)
    } else if r.function == "ByteDecode_d"@ {
        byte_decode_spec(r)
    } else if r.function == "NTT"@ {
        ntt_spec(r)
    } else if r.function == "NTT_inv"@ {
        ntt_inv_spec(r)
    } else if r.function == "MultiplyNTTs"@ {
        multiply_ntts_spec(r)
    } else if r.function == "SamplePolyCBD"@ {
        sample_poly_cbd_spec(r)
    } else if r.function == "SampleNTT"@ {
        sample_ntt_spec(r)
    } else if r.function == "ML_KEM_KeyGen"@ {
        keygen_spec(r)
    } else if r.function == "ML_KEM_Encaps"@ {
        encaps_spec(r)
    } else if r.function == "ML_KEM_Decaps"@ {
        decaps_spec(r)
    } else {
        StepView::Reply(unsupported_view())
    }
}

/// The name of the output that a polynomial task answers with.
pub open spec fn poly_output_name(t: TaskView) -> Seq<char> {
    match t {
        TaskView::ByteDecode { .. } => "F"@,
        TaskView::Ntt { .. } => "f_hat"@,
        TaskView::NttInv { .. } => "f"@,
        TaskView::MultiplyNtts { .. } => "h_hat"@,
        TaskView::SamplePolyCbd { .. } => "f"@,
        _ => "a_hat"@,
    }
}

/// The step after a task and what came of it.
pub open spec fn resume_spec(t: TaskView, e: EventView) -> StepView {
    if yields_polynomial(t) {
        match e {
            EventView::Polynomial(c) => poly_reply(poly_output_name(t), c),
            _ => StepView::Reply(unsupported_view()),
        }
    } else {
        match t {
            TaskView::ByteEncode { .. } => match e {
                EventView::Encoded(b) => StepView::Reply(ok_view(seq![("B"@, hex_lower(b))])),
                _ => StepView::Reply(unsupported_view()),
            },
            TaskView::LoadSeed { seed, param_set } => match e {
                EventView::SeedRejected(text) => fail("invalid seed: "@ + text),
                _ => match param_set_of(param_set) {
                    None => fail(unsupported_param_msg(param_set)),
                    Some(params) => StepView::Run(TaskView::KeyGen { params }),
                },
            },
            TaskView::KeyGen { .. } => match e {
                EventView::KeysGenerated { ek, dk } => StepView::Reply(
                    ok_view(seq![("ek"@, hex_lower(ek)), ("dk"@, hex_lower(dk))]),
                ),
                EventView::KeyGenFailed(text) => fail("keygen failed: "@ + text),
                _ => StepView::Reply(unsupported_view()),
            },
            TaskView::LoadEncapsKey { params, ek, m } => match e {
                EventView::EncapsKeyRejected(text) => fail("invalid ek: "@ + text),
                _ => StepView::Run(TaskView::Encaps { params, m }),
            },
            TaskView::Encaps { .. } => match e {
                EventView::Encapsulated { c, k } => StepView::Reply(
                    ok_view(seq![("c"@, hex_lower(c)), ("K"@, hex_lower(k))]),
                ),
                _ => StepView::Reply(unsupported_view()),
            },
            TaskView::LoadDecapsKey { params, dk, c } => match e {
                EventView::DecapsKeyRejected(text) => fail("invalid dk: "@ + text),
                _ => StepView::Run(TaskView::Decaps { params, c }),
            },
            TaskView::Decaps { .. } => match e {
                EventView::Decapsulated(k) => StepView::Reply(ok_view(seq![("K"@, hex_lower(k))])),
                EventView::DecapsFailed(text) => fail("decaps failed: "@ + text),
                _ => StepView::Reply(unsupported_view()),
            },
            _ => StepView::Reply(unsupported_view()),
        }
    }
}

/// The names of the functions that `handle` supports, as the handshake lists them.
pub open spec fn supported_names() -> Seq<Seq<char>> {
    seq![
        "ByteEncode_d"@,
        "ByteDecode_d"@,
        "NTT"@,
        "NTT_inv"@,
        "MultiplyNTTs"@,
        "SamplePolyCBD"@,
        "SampleNTT"@,
        "ML_KEM_KeyGen"@,
        "ML_KEM_Encaps"@,
        "ML_KEM_Decaps"@,
    ]
}

/// The name under which the harness introduces itself.
pub fn implementation_name() -> (res: String)
    ensures
        res@ == "bc-rust-mlkem"@,
{
    String::from_str("bc-rust-mlkem")
}

/// The functions that the harness supports, for the handshake.
pub fn supported_functions() -> (res: Vec<String>)
    ensures
        res@.map_values(|s: String| s@) == supported_names(),
{
    let mut res: Vec<String> = Vec::new();
    res.push(String::from_str("ByteEncode_d"));
    res.push(String::from_str("ByteDecode_d"));
    res.push(String::from_str("NTT"));
    res.push(String::from_str("NTT_inv"));
    res.push(String::from_str("MultiplyNTTs"));
    res.push(String::from_str("SamplePolyCBD"));
    res.push(String::from_str("SampleNTT"));
    res.push(String::from_str("ML_KEM_KeyGen"));
    res.push(String::from_str("ML_KEM_Encaps"));
    res.push(String::from_str("ML_KEM_Decaps"));
    assert(res@.map_values(|s: String| s@) =~= supported_names());
    res
}

/// The error step.
fn failed(msg: String) -> (res: Step)
    ensures
        res@ == fail(msg@),
{
    Step::Reply(err(msg))
}

/// The bytes of a part of a byte string.
fn copy_range(b: &[u8], from: usize, to: usize) -> (res: Vec<u8>)
    requires
        from <= to <= b@.len(),
    ensures
        res@ == b@.subrange(from as int, to as int),
{
    let mut res: Vec<u8> = Vec::new();
    let mut i = from;
    while i < to
        invariant
            from <= i <= to <= b@.len(),
            res@ == b@.subrange(from as int, i as int),
        decreases to - i,
    {
        res.push(b[i]);
        i = i + 1;
        assert(res@ =~= b@.subrange(from as int, i as int));
    }
    res
}

/// The first step of `ByteEncode_d` (Algorithm 5): read `d` and the polynomial `F`.
pub fn handle_byte_encode_d(req: &Request) -> (res: Step)
    requires
        request_names_distinct(req@),
        !(entry_for(req@.params, "d"@) is Some && short_poly(req@, "F"@)),
    ensures
        res@ == byte_encode_spec(req@),
{
    let d = match get_param(req, "d") {
        Ok(v) => v,
        Err(e) => return failed(e),
    };
    let f_bytes = match get_bytes(req, "F") {
        Ok(b) => b,
        Err(e) => return failed(e),
    };
    let coeffs = coeffs_from_le_bytes(&f_bytes);
    if 1 <= d && d <= 12 {
        Step::Run(Task::ByteEncode { d: d as u32, coeffs })
    } else {
        failed(String::from_str("Invalid d value"))
    }
}

/// The first step of `ByteDecode_d` (Algorithm 6): read `d` and the 32·d bytes `B`.
pub fn handle_byte_decode_d(req: &Request) -> (res: Step)
    requires
        request_names_distinct(req@),
    ensures
        res@ == byte_decode_spec(req@),
{
    let d = match get_param(req, "d") {
        Ok(v) => v,
        Err(e) => return failed(e),
    };
    let b = match get_bytes(req, "B") {
        Ok(b) => b,
        Err(e) => return failed(e),
    };
    if !(1 <= d && d <= 12) {
        return failed(String::from_str("Invalid d value"));
    }
    let expected_len: usize = 32 * (d as usize);
    if b.len() != expected_len {
        let mut msg = with_count("ByteDecode_", d as u64);
        msg.append(with_count(" expects ", expected_len as u64).as_str());
        msg.append(with_count(" bytes, got ", b.len() as u64).as_str());
        assert(msg@ =~= "ByteDecode_"@ + nat_numeral(d as nat) + " expects "@ + nat_numeral(
            (32 * d) as nat,
        ) + " bytes, got "@ + nat_numeral(b@.len()));
        return failed(msg);
    }
    Step::Run(Task::ByteDecode { d: d as u32, bytes: b })
}

/// The first step of `NTT` (Algorithm 9): read the polynomial `f`.
pub fn handle_ntt(req: &Request) -> (res: Step)
    requires
        request_names_distinct(req@),
        !short_poly(req@, "f"@),
    ensures
        res@ == ntt_spec(req@),
{
    let f_bytes = match get_bytes(req, "f") {
        Ok(b) => b,
        Err(e) => return failed(e),
    };
    Step::Run(Task::Ntt { coeffs: coeffs_from_le_bytes(&f_bytes) })
}

/// The message for a polynomial input shorter than its wire form.
fn short_poly_error(key: &str, len: usize) -> (res: String)
    ensures
        res@ == short_poly_msg(key@, len as nat),
{
    let mut msg = String::from_str(key);
    msg.append(with_count(" must be at least 512 bytes, got ", len as u64).as_str());
    assert(msg@ =~= short_poly_msg(key@, len as nat));
    msg
}

/// The first step of `NTT_inv` (Algorithm 10): read the polynomial `f_hat`.
pub fn handle_ntt_inv(req: &Request) -> (res: Step)
    requires
        request_names_distinct(req@),
    ensures
        res@ == ntt_inv_spec(req@),
{
    let f_hat_bytes = match get_bytes(req, "f_hat") {
        Ok(b) => b,
        Err(e) => return failed(e),
    };
    if f_hat_bytes.len() < POLY_BYTES {
        return failed(short_poly_error("f_hat", f_hat_bytes.len()));
    }
    Step::Run(Task::NttInv { coeffs: coeffs_from_le_bytes(&f_hat_bytes) })
}

/// The first step of `MultiplyNTTs` (Algorithm 11): read the polynomials `f_hat`
/// and `g_hat`.
pub fn handle_multiply_ntts(req: &Request) -> (res: Step)
    requires
        request_names_distinct(req@),
    ensures
        res@ == multiply_ntts_spec(req@),
{
    let f_hat_bytes = match get_bytes(req, "f_hat") {
        Ok(b) => b,
        Err(e) => return failed(e),
    };
    let g_hat_bytes = match get_bytes(req, "g_hat") {
        Ok(b) => b,
        Err(e) => return failed(e),
    };
    if f_hat_bytes.len() < POLY_BYTES {
        return failed(short_poly_error("f_hat", f_hat_bytes.len()));
    }
    if g_hat_bytes.len() < POLY_BYTES {
        return failed(short_poly_error("g_hat", g_hat_bytes.len()));
    }
    let f_hat = coeffs_from_le_bytes(&f_hat_bytes);
    let g_hat = coeffs_from_le_bytes(&g_hat_bytes);
    Step::Run(Task::MultiplyNtts { f_hat, g_hat })
}

/// The first step of `SamplePolyCBD` (Algorithm 8): read η and the 64·η bytes `B`.
pub fn handle_sample_poly_cbd(req: &Request) -> (res: Step)
    requires
        request_names_distinct(req@),
    ensures
        res@ == sample_poly_cbd_spec(req@),
{
    let eta = match get_param(req, "eta") {
        Ok(v) => v,
        Err(e) => return failed(e),
    };
    let b = match get_bytes(req, "B") {
        Ok(b) => b,
        Err(e) => return failed(e),
    };
    if !(eta == 2 || eta == 3) {
        return failed(String::from_str("Invalid eta value"));
    }
    let expected_len: usize = 64 * (eta as usize);
    if b.len() != expected_len {
        let mut msg = with_count("sample_poly_cbd", eta as u64);
        msg.append(with_count(" expects ", expected_len as u64).as_str());
        msg.append(with_count(" bytes, got ", b.len() as u64).as_str());
        assert(msg@ =~= "sample_poly_cbd"@ + nat_numeral(eta as nat) + " expects "@ + nat_numeral(
            (64 * eta) as nat,
        ) + " bytes, got "@ + nat_numeral(b@.len()));
        return failed(msg);
    }
    Step::Run(Task::SamplePolyCbd { eta: eta as i16, bytes: b })
}

/// The first step of `SampleNTT` (Algorithm 7): read the 34 bytes `B`, split into
/// the seed ρ and the two index bytes.
pub fn handle_sample_ntt(req: &Request) -> (res: Step)
    requires
        request_names_distinct(req@),
    ensures
        res@ == sample_ntt_spec(req@),
{
    let b = match get_bytes(req, "B") {
        Ok(b) => b,
        Err(e) => return failed(e),
    };
    if b.len() != 34 {
        return failed(with_count("sample_ntt expects 34 bytes, got ", b.len() as u64));
    }
    let rho = copy_range(&b, 0, 32);
    let nonce = copy_range(&b, 32, 34);
    Step::Run(Task::SampleNtt { rho, nonce })
}

/// The first step of `ML_KEM_KeyGen`: read the randomness d ‖ z and the parameter set.
pub fn handle_keygen(req: &Request) -> (res: Step)
    requires
        request_names_distinct(req@),
    ensures
        res@ == keygen_spec(req@),
{
    let seed = match get_bytes(req, "randomness") {
        Ok(b) => b,
        Err(e) => return failed(e),
    };
    let param_set = match get_param(req, "param_set") {
        Ok(v) => v,
        Err(e) => return failed(e),
    };
    Step::Run(Task::LoadSeed { seed, param_set })
}

/// The first step of `ML_KEM_Encaps`: read the encapsulation key, the 32 bytes of
/// randomness m and the parameter set.
pub fn handle_encaps(req: &Request) -> (res: Step)
    requires
        request_names_distinct(req@),
        !(input_bytes(req@, "ek"@) is Some && (input_bytes(req@, "randomness"@) matches Some(m)
            && m.len() != 32)),
    ensures
        res@ == encaps_spec(req@),
{
    let ek = match get_bytes(req, "ek") {
        Ok(b) => b,
        Err(e) => return failed(e),
    };
    let m = match get_bytes(req, "randomness") {
        Ok(b) => b,
        Err(e) => return failed(e),
    };
    let param_set = match get_param(req, "param_set") {
        Ok(v) => v,
        Err(e) => return failed(e),
    };
    match param_set_from(param_set) {
        None => failed(with_integer("unsupported param_set: ", param_set)),
        Some(params) => Step::Run(Task::LoadEncapsKey { params, ek, m }),
    }
}

/// The first step of `ML_KEM_Decaps`: read the ciphertext, the decapsulation key
/// and the parameter set.
pub fn handle_decaps(req: &Request) -> (res: Step)
    requires
        request_names_distinct(req@),
    ensures
        res@ == decaps_spec(req@),
{
    let c = match get_bytes(req, "c") {
        Ok(b) => b,
        Err(e) => return failed(e),
    };
    let dk = match get_bytes(req, "dk") {
        Ok(b) => b,
        Err(e) => return failed(e),
    };
    let param_set = match get_param(req, "param_set") {
        Ok(v) => v,
        Err(e) => return failed(e),
    };
    match param_set_from(param_set) {
        None => failed(with_integer("unsupported param_set: ", param_set)),
        Some(params) => Step::Run(Task::LoadDecapsKey { params, dk, c }),
    }
}

/// The first step for a request: dispatch on the function's name; a function
/// that is not supported is answered as such.
pub fn handle(req: &Request) -> (res: Step)
    requires
        request_names_distinct(req@),
        !handle_panics(req@),
    ensures
        res@ == handle_spec(req@),
{
    if is_named(&req.function, "ByteEncode_d") {
        handle_byte_encode_d(req)
    } else if is_named(&req.function, "ByteDecode_d") {
        handle_byte_decode_d(req)
    } else if is_named(&req.function, "NTT") {
        handle_ntt(req)
    } else if is_named(&req.function, "NTT_inv") {
        handle_ntt_inv(req)
    } else if is_named(&req.function, "MultiplyNTTs") {
        handle_multiply_ntts(req)
    } else if is_named(&req.function, "SamplePolyCBD") {
        handle_sample_poly_cbd(req)
    } else if is_named(&req.function, "SampleNTT") {
        handle_sample_ntt(req)
    } else if is_named(&req.function, "ML_KEM_KeyGen") {
        handle_keygen(req)
    } else if is_named(&req.function, "ML_KEM_Encaps") {
        handle_encaps(req)
    } else if is_named(&req.function, "ML_KEM_Decaps") {
        handle_decaps(req)
    } else {
        Step::Reply(unsupported())
    }
}

/// Whether the harness aborts on the request rather than answering
/// it; `handle` serves exactly the others.
pub fn panics_on(req: &Request) -> (res: bool)
    requires
        request_names_distinct(req@),
    ensures
        res == handle_panics(req@),
{
    if is_named(&req.function, "ByteEncode_d") {
        get_param(req, "d").is_ok() && is_short_poly(req, "F")
    } else if is_named(&req.function, "NTT") {
        is_short_poly(req, "f")
    } else if is_named(&req.function, "ML_KEM_Encaps") {
        match (get_bytes(req, "ek"), get_bytes(req, "randomness")) {
            (Ok(_), Ok(m)) => m.len() != 32,
            _ => false,
        }
    } else {
        false
    }
}

fn is_short_poly(req: &Request, key: &str) -> (res: bool)
    requires
        request_names_distinct(req@),
    ensures
        res == short_poly(req@, key@),
{
    match get_bytes(req, key) {
        Ok(b) => b.len() < POLY_BYTES,
        Err(_) => false,
    }
}

/// The answer that carries one output, hexadecimal-encoded.
fn reply_bytes(name: &str, bytes: &[u8]) -> (res: Step)
    ensures
        res@ == StepView::Reply(ok_view(seq![(name@, hex_lower(bytes@))])),
{
    let outputs = vec![entry(name, hex_encode(bytes))];
    let res = ok(outputs);
    proof {
        assert(texts_view(outputs@) =~= seq![(name@, hex_lower(bytes@))]);
    }
    Step::Reply(res)
}

/// The answer that carries two outputs, hexadecimal-encoded.
fn reply_pair(name1: &str, bytes1: &[u8], name2: &str, bytes2: &[u8]) -> (res: Step)
    ensures
        res@ == StepView::Reply(
            ok_view(seq![(name1@, hex_lower(bytes1@)), (name2@, hex_lower(bytes2@))]),
        ),
{
    let outputs = vec![entry(name1, hex_encode(bytes1)), entry(name2, hex_encode(bytes2))];
    let res = ok(outputs);
    proof {
        assert(texts_view(outputs@) =~= seq![
            (name1@, hex_lower(bytes1@)),
            (name2@, hex_lower(bytes2@)),
        ]);
    }
    Step::Reply(res)
}

/// The answer that carries one polynomial in wire form, hexadecimal-encoded.
fn reply_poly(name: &str, coeffs: &[i16]) -> (res: Step)
    requires
        coeffs@.len() == N,
    ensures
        res@ == poly_reply(name@, coeffs@),
{
    let bytes = coeffs_to_le_bytes(coeffs);
    reply_bytes(name, &bytes)
}

/// The step after a task and what came of it.
pub fn resume(task: Task, event: Event) -> (res: Step)
    requires
        fits(task@, event@),
    ensures
        res@ == resume_spec(task@, event@),
{
    match task {
        Task::ByteDecode { .. } => match event {
            Event::Polynomial(c) => reply_poly("F", &c),
            _ => unreached(),
        },
        Task::Ntt { .. } => match event {
            Event::Polynomial(c) => reply_poly("f_hat", &c),
            _ => unreached(),
        },
        Task::NttInv { .. } => match event {
            Event::Polynomial(c) => reply_poly("f", &c),
            _ => unreached(),
        },
        Task::MultiplyNtts { .. } => match event {
            Event::Polynomial(c) => reply_poly("h_hat", &c),
            _ => unreached(),
        },
        Task::SamplePolyCbd { .. } => match event {
            Event::Polynomial(c) => reply_poly("f", &c),
            _ => unreached(),
        },
        Task::SampleNtt { .. } => match event {
            Event::Polynomial(c) => reply_poly("a_hat", &c),
            _ => unreached(),
        },
        Task::ByteEncode { .. } => match event {
            Event::Encoded(b) => reply_bytes("B", &b),
            _ => unreached(),
        },
        Task::LoadSeed { seed, param_set } => match event {
            Event::SeedRejected(text) => failed(joined("invalid seed: ", text.as_str())),
            _ => match param_set_from(param_set) {
                None => failed(with_integer("unsupported param_set: ", param_set)),
                Some(params) => Step::Run(Task::KeyGen { params }),
            },
        },
        Task::KeyGen { .. } => match event {
            Event::KeysGenerated { ek, dk } => reply_pair("ek", &ek, "dk", &dk),
            Event::KeyGenFailed(text) => failed(joined("keygen failed: ", text.as_str())),
            _ => unreached(),
        },
        Task::LoadEncapsKey { params, ek, m } => match event {
            Event::EncapsKeyRejected(text) => failed(joined("invalid ek: ", text.as_str())),
            _ => Step::Run(Task::Encaps { params, m }),
        },
        Task::Encaps { .. } => match event {
            Event::Encapsulated { c, k } => reply_pair("c", &c, "K", &k),
            _ => unreached(),
        },
        Task::LoadDecapsKey { params, dk, c } => match event {
            Event::DecapsKeyRejected(text) => failed(joined("invalid dk: ", text.as_str())),
            _ => Step::Run(Task::Decaps { params, c }),
        },
        Task::Decaps { .. } => match event {
            Event::Decapsulated(k) => reply_bytes("K", &k),
            Event::DecapsFailed(text) => failed(joined("decaps failed: ", text.as_str())),
            _ => unreached(),
        },
    }
}

/// The text of the only output of an answer, when it has exactly one, of that name.
pub open spec fn single_output(v: ResponseView, name: Seq<char>) -> Option<Seq<char>> {
    match v.outputs {
        Some(o) => if o.len() == 1 && o[0].0 == name {
            Some(o[0].1)
        } else {
            None
        },
        None => None,
    }
}

/// Whether a step, when it is an answer, is a well-formed one.
pub open spec fn step_well_formed(s: StepView) -> bool {
    s matches StepView::Reply(v) ==> well_formed(v)
}

/// How many steps a task can still lead to before the answer.
pub open spec fn steps_left(t: TaskView) -> nat {
    match t {
        TaskView::LoadSeed { .. } => 2,
        TaskView::LoadEncapsKey { .. } => 2,
        TaskView::LoadDecapsKey { .. } => 2,
        _ => 1,
    }
}

/// Every answer, first or after outside work, carries exactly one of: outputs,
/// an error message, the mark that the function is not supported.
pub proof fn lemma_answers_well_formed(r: RequestView, t: TaskView, e: EventView)
    requires
        fits(t, e),
    ensures
        step_well_formed(handle_spec(r)),
        step_well_formed(resume_spec(t, e)),
{
    assert("ek"@ != "dk"@) by {
        reveal_strlit("ek");
        reveal_strlit("dk");
        assert("ek"@[0] != "dk"@[0]);
    }
    assert("c"@ != "K"@) by {
        reveal_strlit("c");
        reveal_strlit("K");
        assert("c"@[0] != "K"@[0]);
    }
}

/// Every exchange ends in an answer: each task leads either to the answer or to
/// a task with fewer steps left.
pub proof fn lemma_exchange_ends(t: TaskView, e: EventView)
    requires
        fits(t, e),
    ensures
        resume_spec(t, e) matches StepView::Run(next) ==> steps_left(next) < steps_left(t),
{
}

/// A function is answered as not supported exactly when the handshake does not
/// list it.
pub proof fn lemma_handshake_lists_served_functions(r: RequestView)
    ensures
        handle_spec(r) == StepView::Reply(unsupported_view()) <==> !supported_names().contains(
            r.function,
        ),
{
    let names = supported_names();
    let f = r.function;
    if f == "ByteEncode_d"@ {
        assert(names[0] == f);
    } else if f == "ByteDecode_d"@ {
        assert(names[1] == f);
    } else if f == "NTT"@ {
        assert(names[2] == f);
    } else if f == "NTT_inv"@ {
        assert(names[3] == f);
    } else if f == "MultiplyNTTs"@ {
        assert(names[4] == f);
    } else if f == "SamplePolyCBD"@ {
        assert(names[5] == f);
    } else if f == "SampleNTT"@ {
        assert(names[6] == f);
    } else if f == "ML_KEM_KeyGen"@ {
        assert(names[7] == f);
    } else if f == "ML_KEM_Encaps"@ {
        assert(names[8] == f);
    } else if f == "ML_KEM_Decaps"@ {
        assert(names[9] == f);
    } else {
        assert forall|i: int| 0 <= i < names.len() implies names[i] != f by {}
    }
}

/// A polynomial that the implementation computes is answered in wire form:
/// decoding the answer's hexadecimal text and reading its 512 bytes as
/// coefficients gives back exactly the implementation's 256 coefficients.
pub proof fn lemma_polynomial_answer_reads_back(t: TaskView, coeffs: Seq<i16>)
    requires
        yields_polynomial(t),
        coeffs.len() == N,
    ensures
        resume_spec(t, EventView::Polynomial(coeffs)) matches StepView::Reply(v)
            && single_output(v, poly_output_name(t)) matches Some(text)
            && hex_decode_spec(encode_utf8(text)) matches Ok(bytes)
            && bytes.len() == POLY_BYTES && coeffs_of(bytes) == coeffs,
{
    lemma_decode_of_encode(le_bytes_of(coeffs));
    lemma_coeffs_round_trip(coeffs);
}

/// A decapsulation that the implementation completes is answered with its shared
/// secret K, 32 bytes, and never with an error (implicit rejection included).
pub proof fn lemma_decaps_answers_shared_secret(t: TaskView, k: Seq<u8>)
    requires
        t is Decaps,
        k.len() == 32,
    ensures
        resume_spec(t, EventView::Decapsulated(k)) matches StepView::Reply(v) && single_output(
            v,
            "K"@,
        ) matches Some(text) && hex_decode_spec(encode_utf8(text)) == Ok::<Seq<u8>, HexError>(k),
        resume_spec(t, EventView::Decapsulated(k)) matches StepView::Reply(v) && v.error is None,
{
    lemma_decode_of_encode(k);
}

/// The answer that a step comes to once the outside work is done, when `outcome`
/// says what comes of each task; `None` if `fuel` steps do not reach it.
pub open spec fn answer_after(
    s: StepView,
    outcome: spec_fn(TaskView) -> EventView,
    fuel: nat,
) -> Option<ResponseView>
    decreases fuel,
{
    match s {
        StepView::Reply(v) => Some(v),
        StepView::Run(t) => if fuel == 0 {
            None
        } else {
            answer_after(resume_spec(t, outcome(t)), outcome, (fuel - 1) as nat)
        },
    }
}

/// The answer to a request, when `outcome` says what comes of each task.
pub open spec fn answer_spec(r: RequestView, outcome: spec_fn(TaskView) -> EventView) -> Option<
    ResponseView,
> {
    answer_after(handle_spec(r), outcome, 2)
}

/// Each supported function's name leads to its own first step.
proof fn lemma_dispatch(r: RequestView)
    ensures
        r.function == "ByteEncode_d"@ ==> handle_spec(r) == byte_encode_spec(r),
        r.function == "ByteDecode_d"@ ==> handle_spec(r) == byte_decode_spec(r),
        r.function == "NTT"@ ==> handle_spec(r) == ntt_spec(r),
        r.function == "NTT_inv"@ ==> handle_spec(r) == ntt_inv_spec(r),
        r.function == "MultiplyNTTs"@ ==> handle_spec(r) == multiply_ntts_spec(r),
        r.function == "SamplePolyCBD"@ ==> handle_spec(r) == sample_poly_cbd_spec(r),
        r.function == "SampleNTT"@ ==> handle_spec(r) == sample_ntt_spec(r),
        r.function == "ML_KEM_KeyGen"@ ==> handle_spec(r) == keygen_spec(r),
        r.function == "ML_KEM_Encaps"@ ==> handle_spec(r) == encaps_spec(r),
        r.function == "ML_KEM_Decaps"@ ==> handle_spec(r) == decaps_spec(r),
{
    reveal_strlit("ByteEncode_d");
    reveal_strlit("ByteDecode_d");
    reveal_strlit("NTT");
    reveal_strlit("NTT_inv");
    reveal_strlit("MultiplyNTTs");
    reveal_strlit("SamplePolyCBD");
    reveal_strlit("SampleNTT");
    reveal_strlit("ML_KEM_KeyGen");
    reveal_strlit("ML_KEM_Encaps");
    reveal_strlit("ML_KEM_Decaps");
    assert("ByteDecode_d"@[4] != "ByteEncode_d"@[4]);
    assert("NTT"@[0] != "ByteEncode_d"@[0]);
    assert("NTT"@[0] != "ByteDecode_d"@[0]);
    assert("NTT_inv"@[0] != "ByteEncode_d"@[0]);
    assert("NTT_inv"@[0] != "ByteDecode_d"@[0]);
    assert("NTT_inv"@.len() != "NTT"@.len());
    assert("MultiplyNTTs"@[0] != "ByteEncode_d"@[0]);
    assert("MultiplyNTTs"@[0] != "ByteDecode_d"@[0]);
    assert("MultiplyNTTs"@[0] != "NTT"@[0]);
    assert("MultiplyNTTs"@[0] != "NTT_inv"@[0]);
    assert("SamplePolyCBD"@[0] != "ByteEncode_d"@[0]);
    assert("SamplePolyCBD"@[0] != "ByteDecode_d"@[0]);
    assert("SamplePolyCBD"@[0] != "NTT"@[0]);
    assert("SamplePolyCBD"@[0] != "NTT_inv"@[0]);
    assert("SamplePolyCBD"@[0] != "MultiplyNTTs"@[0]);
    assert("SampleNTT"@[0] != "ByteEncode_d"@[0]);
    assert("SampleNTT"@[0] != "ByteDecode_d"@[0]);
    assert("SampleNTT"@[0] != "NTT"@[0]);
    assert("SampleNTT"@[0] != "NTT_inv"@[0]);
    assert("SampleNTT"@[0] != "MultiplyNTTs"@[0]);
    assert("SampleNTT"@[6] != "SamplePolyCBD"@[6]);
    assert("ML_KEM_KeyGen"@[0] != "ByteEncode_d"@[0]);
    assert("ML_KEM_KeyGen"@[0] != "ByteDecode_d"@[0]);
    assert("ML_KEM_KeyGen"@[0] != "NTT"@[0]);
    assert("ML_KEM_KeyGen"@[0] != "NTT_inv"@[0]);
    assert("ML_KEM_KeyGen"@[1] != "MultiplyNTTs"@[1]);
    assert("ML_KEM_KeyGen"@[0] != "SamplePolyCBD"@[0]);
    assert("ML_KEM_KeyGen"@[0] != "SampleNTT"@[0]);
    assert("ML_KEM_Encaps"@[0] != "ByteEncode_d"@[0]);
    assert("ML_KEM_Encaps"@[0] != "ByteDecode_d"@[0]);
    assert("ML_KEM_Encaps"@[0] != "NTT"@[0]);
    assert("ML_KEM_Encaps"@[0] != "NTT_inv"@[0]);
    assert("ML_KEM_Encaps"@[1] != "MultiplyNTTs"@[1]);
    assert("ML_KEM_Encaps"@[0] != "SamplePolyCBD"@[0]);
    assert("ML_KEM_Encaps"@[0] != "SampleNTT"@[0]);
    assert("ML_KEM_Encaps"@[7] != "ML_KEM_KeyGen"@[7]);
    assert("ML_KEM_Decaps"@[0] != "ByteEncode_d"@[0]);
    assert("ML_KEM_Decaps"@[0] != "ByteDecode_d"@[0]);
    assert("ML_KEM_Decaps"@[0] != "NTT"@[0]);
    assert("ML_KEM_Decaps"@[0] != "NTT_inv"@[0]);
    assert("ML_KEM_Decaps"@[1] != "MultiplyNTTs"@[1]);
    assert("ML_KEM_Decaps"@[0] != "SamplePolyCBD"@[0]);
    assert("ML_KEM_Decaps"@[0] != "SampleNTT"@[0]);
    assert("ML_KEM_Decaps"@[7] != "ML_KEM_KeyGen"@[7]);
    assert("ML_KEM_Decaps"@[7] != "ML_KEM_Encaps"@[7]);
}

proof fn lemma_keygen_dispatch(r: RequestView)
    requires
        r.function == "ML_KEM_KeyGen"@,
    ensures
        handle_spec(r) == keygen_spec(r),
{
    lemma_dispatch(r);
}

/// A key generation is answered from the randomness d ‖ z and the parameter set
/// alone: two requests that agree on them get the same answer from an
/// implementation whose results are a function of its inputs.
pub proof fn lemma_keygen_answer_depends_on_its_inputs(
    r1: RequestView,
    r2: RequestView,
    outcome: spec_fn(TaskView) -> EventView,
)
    requires
        r1.function == "ML_KEM_KeyGen"@,
        r2.function == r1.function,
        bytes_spec(r1, "randomness"@) == bytes_spec(r2, "randomness"@),
        param_spec(r1, "param_set"@) == param_spec(r2, "param_set"@),
    ensures
        handle_spec(r1) == handle_spec(r2),
        answer_spec(r1, outcome) == answer_spec(r2, outcome),
{
    lemma_keygen_dispatch(r1);
    lemma_keygen_dispatch(r2);
}

/// When the parameter set is supported and the implementation takes the seed and
/// generates (ek, dk), a key generation is answered with exactly that key pair.
pub proof fn lemma_keygen_answer_is_key_pair(
    r: RequestView,
    outcome: spec_fn(TaskView) -> EventView,
    seed: Seq<u8>,
    p: i64,
    ek: Seq<u8>,
    dk: Seq<u8>,
)
    requires
        r.function == "ML_KEM_KeyGen"@,
        bytes_spec(r, "randomness"@) == Ok::<Seq<u8>, Seq<char>>(seed),
        param_spec(r, "param_set"@) == Ok::<i64, Seq<char>>(p),
        param_set_of(p) is Some,
        outcome(TaskView::LoadSeed { seed, param_set: p }) == EventView::SeedLoaded,
        outcome(TaskView::KeyGen { params: param_set_of(p)->0 }) == (EventView::KeysGenerated {
            ek,
            dk,
        }),
    ensures
        answer_spec(r, outcome) == Some(
            ok_view(seq![("ek"@, hex_lower(ek)), ("dk"@, hex_lower(dk))]),
        ),
{
    lemma_keygen_dispatch(r);
    let load = TaskView::LoadSeed { seed, param_set: p };
    let keygen = TaskView::KeyGen { params: param_set_of(p)->0 };
    assert(handle_spec(r) == StepView::Run(load));
    assert(resume_spec(load, EventView::SeedLoaded) == StepView::Run(keygen));
    reveal_with_fuel(answer_after, 3);
}

/// Whether `params` is the parameter set that FIPS 203 calls ML-KEM-`p`.
pub open spec fn is_ml_kem(p: i64, params: ParamSet) -> bool {
    ||| p == 512 && params == ParamSet::MlKem512
    ||| p == 768 && params == ParamSet::MlKem768
    ||| p == 1024 && params == ParamSet::MlKem1024
}

/// A decapsulation request with readable `c` and `dk` and the parameter set
/// ML-KEM-`p` hands `dk` to be loaded as a key of ML-KEM-`p`, with `c` kept; when
/// that key loads and decapsulating `c` gives K, the answer is exactly K.
pub proof fn lemma_decaps_law(
    r: RequestView,
    outcome: spec_fn(TaskView) -> EventView,
    c: Seq<u8>,
    dk: Seq<u8>,
    p: i64,
    params: ParamSet,
    k: Seq<u8>,
)
    requires
        r.function == "ML_KEM_Decaps"@,
        bytes_spec(r, "c"@) == Ok::<Seq<u8>, Seq<char>>(c),
        bytes_spec(r, "dk"@) == Ok::<Seq<u8>, Seq<char>>(dk),
        param_spec(r, "param_set"@) == Ok::<i64, Seq<char>>(p),
        is_ml_kem(p, params),
    ensures
        handle_spec(r) == StepView::Run(TaskView::LoadDecapsKey { params, dk, c }),
        resume_spec(TaskView::LoadDecapsKey { params, dk, c }, EventView::DecapsKeyLoaded)
            == StepView::Run(TaskView::Decaps { params, c }),
        outcome(TaskView::LoadDecapsKey { params, dk, c }) == EventView::DecapsKeyLoaded
            && outcome(TaskView::Decaps { params, c }) == EventView::Decapsulated(k)
            ==> answer_spec(r, outcome) == Some(ok_view(seq![("K"@, hex_lower(k))])),
{
    lemma_dispatch(r);
    reveal_with_fuel(answer_after, 3);
}

/// An encapsulation request with readable `ek`, 32 bytes of randomness m and the
/// parameter set ML-KEM-`p` hands `ek` to be loaded as a key of ML-KEM-`p`; once it
/// loads, the encapsulation is asked for with exactly m; when it gives (c, K),
/// the answer is exactly c and K.
pub proof fn lemma_encaps_law(
    r: RequestView,
    outcome: spec_fn(TaskView) -> EventView,
    ek: Seq<u8>,
    m: Seq<u8>,
    p: i64,
    params: ParamSet,
    c: Seq<u8>,
    k: Seq<u8>,
)
    requires
        r.function == "ML_KEM_Encaps"@,
        bytes_spec(r, "ek"@) == Ok::<Seq<u8>, Seq<char>>(ek),
        bytes_spec(r, "randomness"@) == Ok::<Seq<u8>, Seq<char>>(m),
        m.len() == 32,
        param_spec(r, "param_set"@) == Ok::<i64, Seq<char>>(p),
        is_ml_kem(p, params),
    ensures
        handle_spec(r) == StepView::Run(TaskView::LoadEncapsKey { params, ek, m }),
        resume_spec(TaskView::LoadEncapsKey { params, ek, m }, EventView::EncapsKeyLoaded)
            == StepView::Run(TaskView::Encaps { params, m }),
        outcome(TaskView::LoadEncapsKey { params, ek, m }) == EventView::EncapsKeyLoaded
            && outcome(TaskView::Encaps { params, m }) == (EventView::Encapsulated { c, k })
            ==> answer_spec(r, outcome) == Some(
            ok_view(seq![("c"@, hex_lower(c)), ("K"@, hex_lower(k))]),
        ),
{
    lemma_dispatch(r);
    reveal_with_fuel(answer_after, 3);
}

/// Once an encapsulation key loads, the encapsulation is asked for with the same
/// parameter set and exactly the same randomness.
pub proof fn lemma_encaps_keeps_randomness(params: ParamSet, ek: Seq<u8>, m: Seq<u8>)
    ensures
        resume_spec(TaskView::LoadEncapsKey { params, ek, m }, EventView::EncapsKeyLoaded)
            == StepView::Run(TaskView::Encaps { params, m }),
{
}

/// A key generation request with readable randomness d ‖ z and the parameter set
/// ML-KEM-`p` hands the randomness to be loaded as the seed; once it loads, key
/// generation is asked for under ML-KEM-`p`.
pub proof fn lemma_keygen_law(r: RequestView, seed: Seq<u8>, p: i64, params: ParamSet)
    requires
        r.function == "ML_KEM_KeyGen"@,
        bytes_spec(r, "randomness"@) == Ok::<Seq<u8>, Seq<char>>(seed),
        param_spec(r, "param_set"@) == Ok::<i64, Seq<char>>(p),
        is_ml_kem(p, params),
    ensures
        handle_spec(r) == StepView::Run(TaskView::LoadSeed { seed, param_set: p }),
        resume_spec(TaskView::LoadSeed { seed, param_set: p }, EventView::SeedLoaded)
            == StepView::Run(TaskView::KeyGen { params }),
        forall|ek: Seq<u8>, dk: Seq<u8>|
            resume_spec(TaskView::KeyGen { params }, EventView::KeysGenerated { ek, dk })
                == StepView::Reply(ok_view(seq![("ek"@, hex_lower(ek)), ("dk"@, hex_lower(dk))])),
{
    lemma_dispatch(r);
}

/// A `MultiplyNTTs` request whose `f_hat` and `g_hat` read as at least 512 bytes
/// asks to multiply the polynomials they stand for in wire form: coefficient j of
/// each has the 16-bit pattern byte 2j + 256 · byte 2j+1 of its input. The product
/// is answered in wire form as `h_hat`.
pub proof fn lemma_multiply_ntts_law(
    r: RequestView,
    outcome: spec_fn(TaskView) -> EventView,
    f: Seq<u8>,
    g: Seq<u8>,
    h: Seq<i16>,
)
    requires
        r.function == "MultiplyNTTs"@,
        bytes_spec(r, "f_hat"@) == Ok::<Seq<u8>, Seq<char>>(f),
        bytes_spec(r, "g_hat"@) == Ok::<Seq<u8>, Seq<char>>(g),
        f.len() >= POLY_BYTES,
        g.len() >= POLY_BYTES,
    ensures
        handle_spec(r) matches StepView::Run(TaskView::MultiplyNtts { f_hat, g_hat }) && f_hat.len()
            == N && g_hat.len() == N && (forall|j: int|
            0 <= j < N ==> (#[trigger] f_hat[j] as int + 65536) % 65536 == f[2 * j] as int + 256
                * f[2 * j + 1] as int) && (forall|j: int|
            0 <= j < N ==> (#[trigger] g_hat[j] as int + 65536) % 65536 == g[2 * j] as int + 256
                * g[2 * j + 1] as int),
        outcome(TaskView::MultiplyNtts { f_hat: coeffs_of(f), g_hat: coeffs_of(g) })
            == EventView::Polynomial(h) ==> answer_spec(r, outcome) == Some(
            ok_view(seq![("h_hat"@, hex_lower(le_bytes_of(h)))]),
        ),
{
    lemma_dispatch(r);
    lemma_coeffs_are_little_endian(f);
    lemma_coeffs_are_little_endian(g);
    reveal_with_fuel(answer_after, 3);
}

/// A `SampleNTT` request whose `B` reads as 34 bytes asks to sample from the seed
/// ρ and the two index bytes that `B` is made of, in order: ρ is its first 32
/// bytes and ρ followed by the index bytes is `B`. The sample is answered in wire
/// form as `a_hat`.
pub proof fn lemma_sample_ntt_law(
    r: RequestView,
    outcome: spec_fn(TaskView) -> EventView,
    b: Seq<u8>,
    a: Seq<i16>,
)
    requires
        r.function == "SampleNTT"@,
        bytes_spec(r, "B"@) == Ok::<Seq<u8>, Seq<char>>(b),
        b.len() == 34,
    ensures
        handle_spec(r) matches StepView::Run(TaskView::SampleNtt { rho, nonce }) && rho.len() == 32
            && nonce.len() == 2 && rho + nonce == b,
        outcome(TaskView::SampleNtt { rho: b.subrange(0, 32), nonce: b.subrange(32, 34) })
            == EventView::Polynomial(a) ==> answer_spec(r, outcome) == Some(
            ok_view(seq![("a_hat"@, hex_lower(le_bytes_of(a)))]),
        ),
{
    lemma_dispatch(r);
    assert(b.subrange(0, 32) + b.subrange(32, 34) =~= b);
    reveal_with_fuel(answer_after, 3);
}

/// An `NTT` or `NTT_inv` request whose input reads as at least 512 bytes asks to
/// transform the polynomial it stands for in wire form (coefficient j has the
/// 16-bit pattern byte 2j + 256 · byte 2j+1), and answers the result in wire form,
/// as `f_hat` and `f` respectively.
pub proof fn lemma_ntt_law(
    r: RequestView,
    outcome: spec_fn(TaskView) -> EventView,
    f: Seq<u8>,
    h: Seq<i16>,
)
    requires
        r.function == "NTT"@ && bytes_spec(r, "f"@) == Ok::<Seq<u8>, Seq<char>>(f) || r.function
            == "NTT_inv"@ && bytes_spec(r, "f_hat"@) == Ok::<Seq<u8>, Seq<char>>(f),
        f.len() >= POLY_BYTES,
    ensures
        r.function == "NTT"@ ==> handle_spec(r) == StepView::Run(
            TaskView::Ntt { coeffs: coeffs_of(f) },
        ),
        r.function == "NTT_inv"@ ==> handle_spec(r) == StepView::Run(
            TaskView::NttInv { coeffs: coeffs_of(f) },
        ),
        forall|j: int|
            0 <= j < N ==> (#[trigger] coeffs_of(f)[j] as int + 65536) % 65536 == f[2 * j] as int
                + 256 * f[2 * j + 1] as int,
        r.function == "NTT"@ && outcome(TaskView::Ntt { coeffs: coeffs_of(f) })
            == EventView::Polynomial(h) ==> answer_spec(r, outcome) == Some(
            ok_view(seq![("f_hat"@, hex_lower(le_bytes_of(h)))]),
        ),
        r.function == "NTT_inv"@ && outcome(TaskView::NttInv { coeffs: coeffs_of(f) })
            == EventView::Polynomial(h) ==> answer_spec(r, outcome) == Some(
            ok_view(seq![("f"@, hex_lower(le_bytes_of(h)))]),
        ),
{
    lemma_dispatch(r);
    lemma_coeffs_are_little_endian(f);
    reveal_with_fuel(answer_after, 3);
}

/// A `ByteEncode_d` request with `d` in 1..=12 and `F` reading as at least 512
/// bytes asks to encode, with that d, the polynomial `F` stands for in wire form;
/// the encoding is answered as `B`. A `d` outside 1..=12 is refused.
pub proof fn lemma_byte_encode_law(
    r: RequestView,
    outcome: spec_fn(TaskView) -> EventView,
    d: i64,
    f: Seq<u8>,
    encoded: Seq<u8>,
)
    requires
        r.function == "ByteEncode_d"@,
        param_spec(r, "d"@) == Ok::<i64, Seq<char>>(d),
        bytes_spec(r, "F"@) == Ok::<Seq<u8>, Seq<char>>(f),
        f.len() >= POLY_BYTES,
    ensures
        !(1 <= d <= 12) ==> handle_spec(r) == fail("Invalid d value"@),
        1 <= d <= 12 ==> d as u32 == d && handle_spec(r) == StepView::Run(
            TaskView::ByteEncode { d: d as u32, coeffs: coeffs_of(f) },
        ),
        1 <= d <= 12 && outcome(TaskView::ByteEncode { d: d as u32, coeffs: coeffs_of(f) })
            == EventView::Encoded(encoded) ==> answer_spec(r, outcome) == Some(
            ok_view(seq![("B"@, hex_lower(encoded))]),
        ),
{
    lemma_dispatch(r);
    reveal_with_fuel(answer_after, 3);
}

/// A `ByteDecode_d` request with `d` in 1..=12 and exactly 32·d bytes `B` asks to
/// decode `B` with that d, and answers the polynomial in wire form as `F`; a `d`
/// outside 1..=12 is refused, and so is any other length.
pub proof fn lemma_byte_decode_law(
    r: RequestView,
    outcome: spec_fn(TaskView) -> EventView,
    d: i64,
    b: Seq<u8>,
    h: Seq<i16>,
)
    requires
        r.function == "ByteDecode_d"@,
        param_spec(r, "d"@) == Ok::<i64, Seq<char>>(d),
        bytes_spec(r, "B"@) == Ok::<Seq<u8>, Seq<char>>(b),
    ensures
        !(1 <= d <= 12) ==> handle_spec(r) == fail("Invalid d value"@),
        1 <= d <= 12 && b.len() != 32 * d ==> (handle_spec(r) matches StepView::Reply(v)
            && v.outputs is None && v.error is Some),
        1 <= d <= 12 && b.len() == 32 * d ==> d as u32 == d && handle_spec(r) == StepView::Run(
            TaskView::ByteDecode { d: d as u32, bytes: b },
        ),
        1 <= d <= 12 && b.len() == 32 * d && outcome(TaskView::ByteDecode { d: d as u32, bytes: b })
            == EventView::Polynomial(h) ==> answer_spec(r, outcome) == Some(
            ok_view(seq![("F"@, hex_lower(le_bytes_of(h)))]),
        ),
{
    lemma_dispatch(r);
    reveal_with_fuel(answer_after, 3);
}

/// A `SamplePolyCBD` request with η of 2 or 3 and exactly 64·η bytes `B` asks to
/// sample with that η from `B`, and answers the polynomial in wire form as `f`;
/// any other η is refused, and so is any other length.
pub proof fn lemma_sample_poly_cbd_law(
    r: RequestView,
    outcome: spec_fn(TaskView) -> EventView,
    eta: i64,
    b: Seq<u8>,
    h: Seq<i16>,
)
    requires
        r.function == "SamplePolyCBD"@,
        param_spec(r, "eta"@) == Ok::<i64, Seq<char>>(eta),
        bytes_spec(r, "B"@) == Ok::<Seq<u8>, Seq<char>>(b),
    ensures
        !(eta == 2 || eta == 3) ==> handle_spec(r) == fail("Invalid eta value"@),
        (eta == 2 || eta == 3) && b.len() != 64 * eta ==> (handle_spec(r) matches StepView::Reply(
            v,
        ) && v.outputs is None && v.error is Some),
        (eta == 2 || eta == 3) && b.len() == 64 * eta ==> eta as i16 == eta && handle_spec(r)
            == StepView::Run(TaskView::SamplePolyCbd { eta: eta as i16, bytes: b }),
        (eta == 2 || eta == 3) && b.len() == 64 * eta && outcome(
            TaskView::SamplePolyCbd { eta: eta as i16, bytes: b },
        ) == EventView::Polynomial(h) ==> answer_spec(r, outcome) == Some(
            ok_view(seq![("f"@, hex_lower(le_bytes_of(h)))]),
        ),
{
    lemma_dispatch(r);
    reveal_with_fuel(answer_after, 3);
}

/// A request whose parameter set is none of ML-KEM-512, -768 and -1024 is refused
/// with an error naming the value, before any outside work: for an encapsulation
/// or a decapsulation at once, for a key generation once the seed is loaded.
pub proof fn lemma_unsupported_param_set_refused(r: RequestView, p: i64)
    requires
        param_spec(r, "param_set"@) == Ok::<i64, Seq<char>>(p),
        p != 512 && p != 768 && p != 1024,
    ensures
        (r.function == "ML_KEM_Encaps"@ && !handle_panics(r) || r.function == "ML_KEM_Decaps"@)
            ==> (handle_spec(r) matches StepView::Reply(v) && v.outputs is None && !v.unsupported),
        forall|seed: Seq<u8>|
            resume_spec(TaskView::LoadSeed { seed, param_set: p }, EventView::SeedLoaded) == fail(
                "unsupported param_set: "@ + int_numeral(p as int),
            ),
{
    lemma_dispatch(r);
}

/// The harness serves, rather than aborts on, every request whose polynomial
/// inputs read as at least 512 bytes and whose encapsulation randomness reads as
/// 32 bytes; it aborts on no function other than `ByteEncode_d`, `NTT` and
/// `ML_KEM_Encaps`.
pub proof fn lemma_served_requests(r: RequestView)
    ensures
        r.function == "ByteEncode_d"@ && (input_bytes(r, "F"@) matches Some(f) && f.len()
            >= POLY_BYTES) ==> !handle_panics(r),
        r.function == "NTT"@ && (input_bytes(r, "f"@) matches Some(f) && f.len() >= POLY_BYTES)
            ==> !handle_panics(r),
        r.function == "ML_KEM_Encaps"@ && (input_bytes(r, "randomness"@) matches Some(m) && m.len()
            == 32) ==> !handle_panics(r),
        r.function != "ByteEncode_d"@ && r.function != "NTT"@ && r.function != "ML_KEM_Encaps"@
            ==> !handle_panics(r),
{
    reveal_strlit("ByteEncode_d");
    reveal_strlit("NTT");
    reveal_strlit("ML_KEM_Encaps");
    assert("NTT"@[0] != "ByteEncode_d"@[0]);
    assert("ML_KEM_Encaps"@[0] != "ByteEncode_d"@[0]);
    assert("ML_KEM_Encaps"@[0] != "NTT"@[0]);
}

} // verus!
