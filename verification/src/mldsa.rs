//! The ML-DSA harness (FIPS 204, internal algorithms of §6): which request asks
//! for what, what is handed to the signature scheme, and what is answered.
//!
//! The scheme itself runs outside this library. `handle` reads a request and
//! either answers it at once or names the outside work to do (`Task`); the
//! caller does that work, reports what came of it (`Event`), and `resume`
//! decides the next step from the task and the event.
use vstd::prelude::*;
use crate::decimal::{nat_numeral, int_numeral};
use crate::hexcodec::{hex_lower, hex_encode, HexError, hex_decode_spec, lemma_decode_of_encode};
use vstd::utf8::encode_utf8;
use crate::protocol::{
    Request, RequestView, Response, ResponseView, bytes_spec, param_spec, ok_view, err_view,
    unsupported_view, unsupported, request_names_distinct, well_formed,
};
use crate::text::{is_named, joined, with_count, with_integer, entry};
pub use crate::protocol::{get_bytes, get_param, ok, err};

verus! {

/// The ML-DSA parameter sets (FIPS 204, Table 1).
#[derive(PartialEq, Eq, Structural, Clone, Copy, Debug)]
pub enum ParamSet {
    MlDsa44,
    MlDsa65,
    MlDsa87,
}

/// The parameter set that a `param_set` value names.
pub open spec fn param_set_of(p: i64) -> Option<ParamSet> {
    if p == 44 {
        Some(ParamSet::MlDsa44)
    } else if p == 65 {
        Some(ParamSet::MlDsa65)
    } else if p == 87 {
        Some(ParamSet::MlDsa87)
    } else {
        None
    }
}

/// The byte length of a signature (FIPS 204, Table 2).
pub open spec fn signature_len(ps: ParamSet) -> nat {
    match ps {
        ParamSet::MlDsa44 => 2420,
        ParamSet::MlDsa65 => 3309,
        ParamSet::MlDsa87 => 4627,
    }
}

/// The parameter set that a `param_set` value names, if any.
pub fn param_set_from(p: i64) -> (res: Option<ParamSet>)
    ensures
        res == param_set_of(p),
{
    if p == 44 {
        Some(ParamSet::MlDsa44)
    } else if p == 65 {
        Some(ParamSet::MlDsa65)
    } else if p == 87 {
        Some(ParamSet::MlDsa87)
    } else {
        None
    }
}

/// The byte length of a signature of the parameter set.
pub fn signature_bytes(ps: ParamSet) -> (n: usize)
    ensures
        n == signature_len(ps),
{
    match ps {
        ParamSet::MlDsa44 => 2420,
        ParamSet::MlDsa65 => 3309,
        ParamSet::MlDsa87 => 4627,
    }
}

/// Outside work: the calls into the signature scheme.
pub enum Task {
    /// Set the seed into 32-byte key material of type `Seed`, hazardous operations
    /// allowed (the all-zero seed is accepted); `param_set` is kept for the next step.
    LoadSeed { seed: Vec<u8>, param_set: i64 },
    /// Generate the key pair from the loaded seed; report the encoded public key
    /// and the full encoded secret key.
    KeyGen { params: ParamSet },
    /// Decode the secret key; `message` and `rnd` are kept for the next step.
    LoadSecretKey { params: ParamSet, sk: Vec<u8>, message: Vec<u8>, rnd: Vec<u8> },
    /// Compute µ = SHAKE256(tr ‖ M', 64) from the loaded secret key's `tr` and the
    /// message, then sign µ with the 32 bytes `rnd`.
    Sign { params: ParamSet, message: Vec<u8>, rnd: Vec<u8> },
    /// Decode the public key; `message` and `sigma` are kept for the next steps.
    LoadPublicKey { params: ParamSet, pk: Vec<u8>, message: Vec<u8>, sigma: Vec<u8> },
    /// Compute µ from the loaded public key's `tr` and the message, then verify
    /// `sigma` (of exactly the signature length) against µ.
    Verify { params: ParamSet, message: Vec<u8>, sigma: Vec<u8> },
}

/// A task, its bytes taken as sequences.
pub enum TaskView {
    LoadSeed { seed: Seq<u8>, param_set: i64 },
    KeyGen { params: ParamSet },
    LoadSecretKey { params: ParamSet, sk: Seq<u8>, message: Seq<u8>, rnd: Seq<u8> },
    Sign { params: ParamSet, message: Seq<u8>, rnd: Seq<u8> },
    LoadPublicKey { params: ParamSet, pk: Seq<u8>, message: Seq<u8>, sigma: Seq<u8> },
    Verify { params: ParamSet, message: Seq<u8>, sigma: Seq<u8> },
}

impl View for Task {
    type V = TaskView;

    open spec fn view(&self) -> TaskView {
        match self {
            Task::LoadSeed { seed, param_set } => TaskView::LoadSeed {
                seed: seed@,
                param_set: *param_set,
            },
            Task::KeyGen { params } => TaskView::KeyGen { params: *params },
            Task::LoadSecretKey { params, sk, message, rnd } => TaskView::LoadSecretKey {
                params: *params,
                sk: sk@,
                message: message@,
                rnd: rnd@,
            },
            Task::Sign { params, message, rnd } => TaskView::Sign {
                params: *params,
                message: message@,
                rnd: rnd@,
            },
            Task::LoadPublicKey { params, pk, message, sigma } => TaskView::LoadPublicKey {
                params: *params,
                pk: pk@,
                message: message@,
                sigma: sigma@,
            },
            Task::Verify { params, message, sigma } => TaskView::Verify {
                params: *params,
                message: message@,
                sigma: sigma@,
            },
        }
    }
}

/// What came of a task. Texts are the outside errors as `{:?}` prints them.
pub enum Event {
    SeedLoaded,
    SeedRejected(String),
    KeysGenerated { pk: Vec<u8>, sk: Vec<u8> },
    KeyGenFailed(String),
    SecretKeyLoaded,
    SecretKeyRejected(String),
    Signed(Vec<u8>),
    SignFailed(String),
    PublicKeyLoaded,
    PublicKeyRejected,
    Verified(bool),
}

/// An event, its bytes and texts taken as sequences.
pub enum EventView {
    SeedLoaded,
    SeedRejected(Seq<char>),
    KeysGenerated { pk: Seq<u8>, sk: Seq<u8> },
    KeyGenFailed(Seq<char>),
    SecretKeyLoaded,
    SecretKeyRejected(Seq<char>),
    Signed(Seq<u8>),
    SignFailed(Seq<char>),
    PublicKeyLoaded,
    PublicKeyRejected,
    Verified(bool),
}

impl View for Event {
    type V = EventView;

    open spec fn view(&self) -> EventView {
        match self {
            Event::SeedLoaded => EventView::SeedLoaded,
            Event::SeedRejected(t) => EventView::SeedRejected(t@),
            Event::KeysGenerated { pk, sk } => EventView::KeysGenerated { pk: pk@, sk: sk@ },
            Event::KeyGenFailed(t) => EventView::KeyGenFailed(t@),
            Event::SecretKeyLoaded => EventView::SecretKeyLoaded,
            Event::SecretKeyRejected(t) => EventView::SecretKeyRejected(t@),
            Event::Signed(s) => EventView::Signed(s@),
            Event::SignFailed(t) => EventView::SignFailed(t@),
            Event::PublicKeyLoaded => EventView::PublicKeyLoaded,
            Event::PublicKeyRejected => EventView::PublicKeyRejected,
            Event::Verified(b) => EventView::Verified(*b),
        }
    }
}

/// Whether an event is one that the task can come to.
pub open spec fn fits(t: TaskView, e: EventView) -> bool {
    match t {
        TaskView::LoadSeed { .. } => e is SeedLoaded || e is SeedRejected,
        TaskView::KeyGen { .. } => e is KeysGenerated || e is KeyGenFailed,
        TaskView::LoadSecretKey { .. } => e is SecretKeyLoaded || e is SecretKeyRejected,
        TaskView::Sign { .. } => e is Signed || e is SignFailed,
        TaskView::LoadPublicKey { .. } => e is PublicKeyLoaded || e is PublicKeyRejected,
        TaskView::Verify { .. } => e is Verified,
    }
}

/// Whether an event is one that the task can come to.
pub fn event_fits(task: &Task, event: &Event) -> (b: bool)
    ensures
        b == fits(task@, event@),
{
    match task {
        Task::LoadSeed { .. } => match event {
            Event::SeedLoaded | Event::SeedRejected(_) => true,
            _ => false,
        },
        Task::KeyGen { .. } => match event {
            Event::KeysGenerated { .. } | Event::KeyGenFailed(_) => true,
            _ => false,
        },
        Task::LoadSecretKey { .. } => match event {
            Event::SecretKeyLoaded | Event::SecretKeyRejected(_) => true,
            _ => false,
        },
        Task::Sign { .. } => match event {
            Event::Signed(_) | Event::SignFailed(_) => true,
            _ => false,
        },
        Task::LoadPublicKey { .. } => match event {
            Event::PublicKeyLoaded | Event::PublicKeyRejected => true,
            _ => false,
        },
        Task::Verify { .. } => match event {
            Event::Verified(_) => true,
            _ => false,
        },
    }
}

/// The next step: answer, or do outside work.
pub enum Step {
    Reply(Response),
    Run(Task),
}

/// A step, by its views.
pub enum StepView {
    Reply(ResponseView),
    Run(TaskView),
}

impl View for Step {
    type V = StepView;

    open spec fn view(&self) -> StepView {
        match self {
            Step::Reply(r) => StepView::Reply(r@),
            Step::Run(t) => StepView::Run(t@),
        }
    }
}

/// The error answer.
pub open spec fn fail(msg: Seq<char>) -> StepView {
    StepView::Reply(err_view(msg))
}

/// The message for a parameter set that is not supported.
pub open spec fn unsupported_param_msg(p: i64) -> Seq<char> {
    "unsupported param_set: "@ + int_numeral(p as int)
}

/// The answer to a verification whose inputs are malformed: not valid, no error.
pub open spec fn reject_view() -> ResponseView {
    ok_view(seq![("valid"@, hex_lower(seq![0u8]))])
}

/// The answer to a finished verification.
pub open spec fn validity_view(valid: bool) -> ResponseView {
    ok_view(seq![("valid"@, hex_lower(seq![if valid { 1u8 } else { 0u8 }]))])
}

/// The first step of `ML_DSA_KeyGen` (FIPS 204, Algorithm 6).
pub open spec fn keygen_spec(r: RequestView) -> StepView {
    match bytes_spec(r, "seed"@) {
        Err(m) => fail(m),
        Ok(seed) => match param_spec(r, "param_set"@) {
            Err(m) => fail(m),
            Ok(p) => if seed.len() != 32 {
                fail("seed must be 32 bytes, got "@ + nat_numeral(seed.len()))
            } else {
                StepView::Run(TaskView::LoadSeed { seed, param_set: p })
            },
        },
    }
}

/// The first step of `ML_DSA_Sign` (FIPS 204, Algorithm 7).
pub open spec fn sign_spec(r: RequestView) -> StepView {
    match bytes_spec(r, "sk"@) {
        Err(m) => fail(m),
        Ok(sk) => match bytes_spec(r, "message"@) {
            Err(m) => fail(m),
            Ok(message) => match bytes_spec(r, "rnd"@) {
                Err(m) => fail(m),
                Ok(rnd) => if rnd.len() != 32 {
                    fail("rnd must be 32 bytes, got "@ + nat_numeral(rnd.len()))
                } else {
                    match param_spec(r, "param_set"@) {
                        Err(m) => fail(m),
                        Ok(p) => match param_set_of(p) {
                            None => fail(unsupported_param_msg(p)),
                            Some(params) => StepView::Run(
                                TaskView::LoadSecretKey { params, sk, message, rnd },
                            ),
                        },
                    }
                },
            },
        },
    }
}

/// The first step of `ML_DSA_Verify` (FIPS 204, Algorithm 8).
pub open spec fn verify_spec(r: RequestView) -> StepView {
    match bytes_spec(r, "pk"@) {
        Err(m) => fail(m),
        Ok(pk) => match bytes_spec(r, "message"@) {
            Err(m) => fail(m),
            Ok(message) => match bytes_spec(r, "sigma"@) {
                Err(m) => fail(m),
                Ok(sigma) => match param_spec(r, "param_set"@) {
                    Err(m) => fail(m),
                    Ok(p) => match param_set_of(p) {
                        None => fail(unsupported_param_msg(p)),
                        Some(params) => StepView::Run(
                            TaskView::LoadPublicKey { params, pk, message, sigma },
                        ),
                    },
                },
            },
        },
    }
}

/// The first step for a request.
pub open spec fn handle_spec(r: RequestView) -> StepView {
    if r.function == "ML_DSA_KeyGen"@ {
        keygen_spec(r)
    } else if r.function == "ML_DSA_Sign"@ {
        sign_spec(r)
    } else if r.function == "ML_DSA_Verify"@ {
        verify_spec(r)
    } else {
        StepView::Reply(unsupported_view())
    }
}

/// The step after a task and what came of it.
pub open spec fn resume_spec(t: TaskView, e: EventView) -> StepView {
    match t {
        TaskView::LoadSeed { seed, param_set } => match e {
            EventView::SeedRejected(text) => fail("invalid seed: "@ + text),
            _ => match param_set_of(param_set) {
                None => fail(unsupported_param_msg(param_set)),
                Some(params) => StepView::Run(TaskView::KeyGen { params }),
            },
        },
        TaskView::KeyGen { .. } => match e {
            EventView::KeysGenerated { pk, sk } => StepView::Reply(
                ok_view(seq![("pk"@, hex_lower(pk)), ("sk"@, hex_lower(sk))]),
            ),
            EventView::KeyGenFailed(text) => fail("keygen failed: "@ + text),
            _ => StepView::Reply(unsupported_view()),
        },
        TaskView::LoadSecretKey { params, sk, message, rnd } => match e {
            EventView::SecretKeyRejected(text) => fail("invalid sk: "@ + text),
            _ => StepView::Run(TaskView::Sign { params, message, rnd }),
        },
        TaskView::Sign { .. } => match e {
            EventView::Signed(signature) => StepView::Reply(
                ok_view(seq![("signature"@, hex_lower(signature))]),
            ),
            EventView::SignFailed(text) => fail("sign failed: "@ + text),
            _ => StepView::Reply(unsupported_view()),
        },
        TaskView::LoadPublicKey { params, pk, message, sigma } => match e {
            EventView::PublicKeyRejected => StepView::Reply(reject_view()),
            _ => if sigma.len() != signature_len(params) {
                StepView::Reply(reject_view())
            } else {
                StepView::Run(TaskView::Verify { params, message, sigma })
            },
        },
        TaskView::Verify { .. } => match e {
            EventView::Verified(valid) => StepView::Reply(validity_view(valid)),
            _ => StepView::Reply(unsupported_view()),
        },
    }
}

/// The names of the functions that `handle` supports, as the handshake lists them.
pub open spec fn supported_names() -> Seq<Seq<char>> {
    seq!["ML_DSA_KeyGen"@, "ML_DSA_Sign"@, "ML_DSA_Verify"@]
}

/// The name under which the harness introduces itself.
pub fn implementation_name() -> (res: String)
    ensures
        res@ == "bouncycastle-rust"@,
{
    String::from_str("bouncycastle-rust")
}

/// The functions that the harness supports, for the handshake.
pub fn supported_functions() -> (res: Vec<String>)
    ensures
        res@.map_values(|s: String| s@) == supported_names(),
{
    let mut res: Vec<String> = Vec::new();
    res.push(String::from_str("ML_DSA_KeyGen"));
    res.push(String::from_str("ML_DSA_Sign"));
    res.push(String::from_str("ML_DSA_Verify"));
    assert(res@.map_values(|s: String| s@) =~= supported_names());
    res
}

/// The answer to a verification whose inputs are malformed: `valid` is `00`, and
/// no error is reported (FIPS 204 §3.6.2).
pub fn reject() -> (res: Response)
    ensures
        res@ == reject_view(),
{
    let zero: [u8; 1] = [0u8];
    let outputs = vec![entry("valid", hex_encode(&zero))];
    proof {
        assert(zero@ =~= seq![0u8]);
    }
    let res = ok(outputs);
    proof {
        assert(crate::protocol::texts_view(outputs@) =~= seq![("valid"@, hex_lower(seq![0u8]))]);
    }
    res
}

/// The error step.
fn failed(msg: String) -> (res: Step)
    ensures
        res@ == fail(msg@),
{
    Step::Reply(err(msg))
}

/// The first step of `ML_DSA_KeyGen`: read the 32-byte seed ξ and the parameter set.
pub fn handle_keygen(req: &Request) -> (res: Step)
    requires
        request_names_distinct(req@),
    ensures
        res@ == keygen_spec(req@),
{
    let seed = match get_bytes(req, "seed") {
        Ok(v) => v,
        Err(e) => return failed(e),
    };
    let param_set = match get_param(req, "param_set") {
        Ok(v) => v,
        Err(e) => return failed(e),
    };
    if seed.len() != 32 {
        return failed(with_count("seed must be 32 bytes, got ", seed.len() as u64));
    }
    Step::Run(Task::LoadSeed { seed, param_set })
}

/// The first step of `ML_DSA_Sign`: read the secret key, the formatted message M',
/// the 32 bytes `rnd` and the parameter set.
pub fn handle_sign(req: &Request) -> (res: Step)
    requires
        request_names_distinct(req@),
    ensures
        res@ == sign_spec(req@),
{
    let sk = match get_bytes(req, "sk") {
        Ok(v) => v,
        Err(e) => return failed(e),
    };
    let message = match get_bytes(req, "message") {
        Ok(v) => v,
        Err(e) => return failed(e),
    };
    let rnd = match get_bytes(req, "rnd") {
        Ok(v) => v,
        Err(e) => return failed(e),
    };
    if rnd.len() != 32 {
        return failed(with_count("rnd must be 32 bytes, got ", rnd.len() as u64));
    }
    let param_set = match get_param(req, "param_set") {
        Ok(v) => v,
        Err(e) => return failed(e),
    };
    match param_set_from(param_set) {
        None => failed(with_integer("unsupported param_set: ", param_set)),
        Some(params) => Step::Run(Task::LoadSecretKey { params, sk, message, rnd }),
    }
}

/// The first step of `ML_DSA_Verify`: read the public key, the formatted message M',
/// the signature σ and the parameter set.
pub fn handle_verify(req: &Request) -> (res: Step)
    requires
        request_names_distinct(req@),
    ensures
        res@ == verify_spec(req@),
{
    let pk = match get_bytes(req, "pk") {
        Ok(v) => v,
        Err(e) => return failed(e),
    };
    let message = match get_bytes(req, "message") {
        Ok(v) => v,
        Err(e) => return failed(e),
    };
    let sigma = match get_bytes(req, "sigma") {
        Ok(v) => v,
        Err(e) => return failed(e),
    };
    let param_set = match get_param(req, "param_set") {
        Ok(v) => v,
        Err(e) => return failed(e),
    };
    match param_set_from(param_set) {
        None => failed(with_integer("unsupported param_set: ", param_set)),
        Some(params) => Step::Run(Task::LoadPublicKey { params, pk, message, sigma }),
    }
}

/// The first step for a request: dispatch on the function's name; a function
/// that is not supported is answered as such.
pub fn handle(req: &Request) -> (res: Step)
    requires
        request_names_distinct(req@),
    ensures
        res@ == handle_spec(req@),
{
    if is_named(&req.function, "ML_DSA_KeyGen") {
        handle_keygen(req)
    } else if is_named(&req.function, "ML_DSA_Sign") {
        handle_sign(req)
    } else if is_named(&req.function, "ML_DSA_Verify") {
        handle_verify(req)
    } else {
        Step::Reply(unsupported())
    }
}

/// The answer that carries one output, hexadecimal-encoded.
fn reply_one(name: &str, bytes: &[u8]) -> (res: Step)
    ensures
        res@ == StepView::Reply(ok_view(seq![(name@, hex_lower(bytes@))])),
{
    let outputs = vec![entry(name, hex_encode(bytes))];
    let res = ok(outputs);
    proof {
        assert(crate::protocol::texts_view(outputs@) =~= seq![(name@, hex_lower(bytes@))]);
    }
    Step::Reply(res)
}

/// The step after a task and what came of it.
pub fn resume(task: Task, event: Event) -> (res: Step)
    requires
        fits(task@, event@),
    ensures
        res@ == resume_spec(task@, event@),
{
    match task {
        Task::LoadSeed { seed, param_set } => match event {
            Event::SeedRejected(text) => failed(joined("invalid seed: ", text.as_str())),
            _ => match param_set_from(param_set) {
                None => failed(with_integer("unsupported param_set: ", param_set)),
                Some(params) => Step::Run(Task::KeyGen { params }),
            },
        },
        Task::KeyGen { .. } => match event {
            Event::KeysGenerated { pk, sk } => {
                let outputs = vec![entry("pk", hex_encode(&pk)), entry("sk", hex_encode(&sk))];
                let res = ok(outputs);
                proof {
                    assert(crate::protocol::texts_view(outputs@) =~= seq![
                        ("pk"@, hex_lower(pk@)),
                        ("sk"@, hex_lower(sk@)),
                    ]);
                }
                Step::Reply(res)
            },
            Event::KeyGenFailed(text) => failed(joined("keygen failed: ", text.as_str())),
            _ => unreached(),
        },
        Task::LoadSecretKey { params, sk, message, rnd } => match event {
            Event::SecretKeyRejected(text) => failed(joined("invalid sk: ", text.as_str())),
            _ => Step::Run(Task::Sign { params, message, rnd }),
        },
        Task::Sign { .. } => match event {
            Event::Signed(signature) => reply_one("signature", &signature),
            Event::SignFailed(text) => failed(joined("sign failed: ", text.as_str())),
            _ => unreached(),
        },
        Task::LoadPublicKey { params, pk, message, sigma } => match event {
            Event::PublicKeyRejected => Step::Reply(reject()),
            _ => if sigma.len() != signature_bytes(params) {
                Step::Reply(reject())
            } else {
                Step::Run(Task::Verify { params, message, sigma })
            },
        },
        Task::Verify { .. } => match event {
            Event::Verified(valid) => {
                let flag: [u8; 1] = [if valid { 1u8 } else { 0u8 }];
                proof {
                    assert(flag@ =~= seq![if valid { 1u8 } else { 0u8 }]);
                }
                reply_one("valid", &flag)
            },
            _ => unreached(),
        },
    }
}

/// The text of the only output of an answer, when it has exactly one, of that name.
pub open spec fn single_output(v: ResponseView, name: Seq<char>) -> Option<Seq<char>> {
    match v.outputs {
        Some(o) => if o.len() == 1 && o[0].0 == name {
            Some(o[0].1)
        } else {
            None
        },
        None => None,
    }
}

/// Whether an answer reports validity and nothing else: no error, and the only
/// output `valid` is `00` or `01`.
pub open spec fn answers_validity(v: ResponseView) -> bool {
    &&& v.error is None
    &&& !v.unsupported
    &&& single_output(v, "valid"@) matches Some(text) && (text == hex_lower(seq![0u8]) || text
        == hex_lower(seq![1u8]))
}

/// Whether a step, when it is an answer, is a well-formed one.
pub open spec fn step_well_formed(s: StepView) -> bool {
    s matches StepView::Reply(v) ==> well_formed(v)
}

/// How many steps a task can still lead to before the answer.
pub open spec fn steps_left(t: TaskView) -> nat {
    match t {
        TaskView::LoadSeed { .. } => 2,
        TaskView::KeyGen { .. } => 1,
        TaskView::LoadSecretKey { .. } => 2,
        TaskView::Sign { .. } => 1,
        TaskView::LoadPublicKey { .. } => 2,
        TaskView::Verify { .. } => 1,
    }
}

/// Every answer, first or after outside work, carries exactly one of: outputs,
/// an error message, the mark that the function is not supported.
pub proof fn lemma_answers_well_formed(r: RequestView, t: TaskView, e: EventView)
    requires
        fits(t, e),
    ensures
        step_well_formed(handle_spec(r)),
        step_well_formed(resume_spec(t, e)),
{
    assert("pk"@ != "sk"@) by {
        reveal_strlit("pk");
        reveal_strlit("sk");
        assert("pk"@[0] != "sk"@[0]);
    }
}

/// Every exchange ends in an answer: each task leads either to the answer or to
/// a task with fewer steps left.
pub proof fn lemma_exchange_ends(t: TaskView, e: EventView)
    requires
        fits(t, e),
    ensures
        resume_spec(t, e) matches StepView::Run(next) ==> steps_left(next) < steps_left(t),
{
}

/// A function is answered as not supported exactly when the handshake does not
/// list it.
pub proof fn lemma_handshake_lists_served_functions(r: RequestView)
    ensures
        handle_spec(r) == StepView::Reply(unsupported_view()) <==> !supported_names().contains(
            r.function,
        ),
{
    let names = supported_names();
    if r.function == "ML_DSA_KeyGen"@ {
        assert(names[0] == r.function);
    } else if r.function == "ML_DSA_Sign"@ {
        assert(names[1] == r.function);
    } else if r.function == "ML_DSA_Verify"@ {
        assert(names[2] == r.function);
    } else {
        assert forall|i: int| 0 <= i < names.len() implies names[i] != r.function by {}
    }
}

/// Once its inputs are read, a verification is answered with `valid` and never
/// with an error: a public key that does not decode, or a signature whose length
/// is not the parameter set's, is answered `00`; a finished verification is
/// answered `01` exactly when the signature is valid.
pub proof fn lemma_verify_answers_validity(t: TaskView, e: EventView)
    requires
        fits(t, e),
        t is LoadPublicKey || t is Verify,
    ensures
        resume_spec(t, e) matches StepView::Run(next) ==> next is Verify,
        resume_spec(t, e) matches StepView::Reply(v) ==> answers_validity(v),
        e is PublicKeyRejected ==> resume_spec(t, e) == StepView::Reply(validity_view(false)),
        (t matches TaskView::LoadPublicKey { params, sigma, .. } && sigma.len() != signature_len(
            params,
        )) ==> resume_spec(t, e) == StepView::Reply(validity_view(false)),
        e matches EventView::Verified(valid) ==> resume_spec(t, e) == StepView::Reply(
            validity_view(valid),
        ),
{
    assert(reject_view() == validity_view(false));
}

/// What a signing answers decodes back to exactly the signature that the scheme
/// produced.
pub proof fn lemma_signature_answer_decodes(t: TaskView, signature: Seq<u8>)
    requires
        t is Sign,
    ensures
        resume_spec(t, EventView::Signed(signature)) matches StepView::Reply(v) && single_output(
            v,
            "signature"@,
        ) matches Some(text) && hex_decode_spec(encode_utf8(text)) == Ok::<Seq<u8>, HexError>(
            signature,
        ),
{
    lemma_decode_of_encode(signature);
}

/// The answer that a step comes to once the outside work is done, when `outcome`
/// says what comes of each task; `None` if `fuel` steps do not reach it.
pub open spec fn answer_after(
    s: StepView,
    outcome: spec_fn(TaskView) -> EventView,
    fuel: nat,
) -> Option<ResponseView>
    decreases fuel,
{
    match s {
        StepView::Reply(v) => Some(v),
        StepView::Run(t) => if fuel == 0 {
            None
        } else {
            answer_after(resume_spec(t, outcome(t)), outcome, (fuel - 1) as nat)
        },
    }
}

/// The answer to a request, when `outcome` says what comes of each task.
pub open spec fn answer_spec(r: RequestView, outcome: spec_fn(TaskView) -> EventView) -> Option<
    ResponseView,
> {
    answer_after(handle_spec(r), outcome, 2)
}

/// A key generation is answered from the seed ξ and the parameter set alone: two
/// requests that agree on them get the same answer from a scheme whose results
/// are a function of its inputs. When ξ has 32 bytes, the parameter set is
/// supported and the scheme takes the seed and generates (pk, sk), the answer is
/// exactly that key pair.
pub proof fn lemma_keygen_answer(
    r1: RequestView,
    r2: RequestView,
    outcome: spec_fn(TaskView) -> EventView,
)
    requires
        r1.function == "ML_DSA_KeyGen"@,
        r2.function == r1.function,
        bytes_spec(r1, "seed"@) == bytes_spec(r2, "seed"@),
        param_spec(r1, "param_set"@) == param_spec(r2, "param_set"@),
    ensures
        handle_spec(r1) == handle_spec(r2),
        answer_spec(r1, outcome) == answer_spec(r2, outcome),
        forall|seed: Seq<u8>, p: i64, params: ParamSet, pk: Seq<u8>, sk: Seq<u8>|
            bytes_spec(r1, "seed"@) == Ok::<Seq<u8>, Seq<char>>(seed) && seed.len() == 32
                && param_spec(r1, "param_set"@) == Ok::<i64, Seq<char>>(p) && param_set_of(p)
                == Some(params) && outcome(TaskView::LoadSeed { seed, param_set: p })
                == EventView::SeedLoaded && outcome(TaskView::KeyGen { params })
                == (EventView::KeysGenerated { pk, sk }) ==> answer_spec(r1, outcome) == Some(
                ok_view(seq![("pk"@, hex_lower(pk)), ("sk"@, hex_lower(sk))]),
            ),
{
    reveal_with_fuel(answer_after, 3);
}

/// A signing is answered from sk, the formatted message M', rnd and the parameter
/// set alone: two requests that agree on them get the same answer from a scheme
/// whose results are a function of its inputs (with rnd = 0³², signing is
/// deterministic).
pub proof fn lemma_sign_answer_depends_on_its_inputs(
    r1: RequestView,
    r2: RequestView,
    outcome: spec_fn(TaskView) -> EventView,
)
    requires
        r1.function == "ML_DSA_Sign"@,
        r2.function == r1.function,
        bytes_spec(r1, "sk"@) == bytes_spec(r2, "sk"@),
        bytes_spec(r1, "message"@) == bytes_spec(r2, "message"@),
        bytes_spec(r1, "rnd"@) == bytes_spec(r2, "rnd"@),
        param_spec(r1, "param_set"@) == param_spec(r2, "param_set"@),
    ensures
        handle_spec(r1) == handle_spec(r2),
        answer_spec(r1, outcome) == answer_spec(r2, outcome),
{
    lemma_sign_is_not_keygen();
    lemma_dispatch(r1);
    lemma_dispatch(r2);
}

proof fn lemma_sign_is_not_keygen()
    ensures
        "ML_DSA_Sign"@ != "ML_DSA_KeyGen"@,
{
    reveal_strlit("ML_DSA_Sign");
    reveal_strlit("ML_DSA_KeyGen");
    assert("ML_DSA_Sign"@[7] != "ML_DSA_KeyGen"@[7]);
}

/// Each supported function's name leads to its own first step.
proof fn lemma_dispatch(r: RequestView)
    ensures
        r.function == "ML_DSA_KeyGen"@ ==> handle_spec(r) == keygen_spec(r),
        r.function == "ML_DSA_Sign"@ ==> handle_spec(r) == sign_spec(r),
        r.function == "ML_DSA_Verify"@ ==> handle_spec(r) == verify_spec(r),
{
    reveal_strlit("ML_DSA_KeyGen");
    reveal_strlit("ML_DSA_Sign");
    reveal_strlit("ML_DSA_Verify");
    assert("ML_DSA_Sign"@[7] != "ML_DSA_KeyGen"@[7]);
    assert("ML_DSA_Verify"@[7] != "ML_DSA_KeyGen"@[7]);
    assert("ML_DSA_Verify"@[7] != "ML_DSA_Sign"@[7]);
}

/// When rnd has 32 bytes, the parameter set is supported and the scheme takes the
/// secret key and signs, a signing is answered with exactly that signature.
pub proof fn lemma_sign_answer_is_signature(
    r: RequestView,
    outcome: spec_fn(TaskView) -> EventView,
    sk: Seq<u8>,
    message: Seq<u8>,
    rnd: Seq<u8>,
    p: i64,
    signature: Seq<u8>,
)
    requires
        r.function == "ML_DSA_Sign"@,
        bytes_spec(r, "sk"@) == Ok::<Seq<u8>, Seq<char>>(sk),
        bytes_spec(r, "message"@) == Ok::<Seq<u8>, Seq<char>>(message),
        bytes_spec(r, "rnd"@) == Ok::<Seq<u8>, Seq<char>>(rnd),
        rnd.len() == 32,
        param_spec(r, "param_set"@) == Ok::<i64, Seq<char>>(p),
        param_set_of(p) is Some,
        outcome(TaskView::LoadSecretKey { params: param_set_of(p)->0, sk, message, rnd })
            == EventView::SecretKeyLoaded,
        outcome(TaskView::Sign { params: param_set_of(p)->0, message, rnd }) == EventView::Signed(
            signature,
        ),
    ensures
        answer_spec(r, outcome) == Some(ok_view(seq![("signature"@, hex_lower(signature))])),
{
    let params = param_set_of(p)->0;
    let load = TaskView::LoadSecretKey { params, sk, message, rnd };
    let sign = TaskView::Sign { params, message, rnd };
    lemma_dispatch(r);
    assert(handle_spec(r) == sign_spec(r));
    assert(handle_spec(r) == StepView::Run(load));
    assert(resume_spec(load, EventView::SecretKeyLoaded) == StepView::Run(sign));
    reveal_with_fuel(answer_after, 3);
}

/// Whether `params` is the parameter set that FIPS 204 calls ML-DSA-`p`.
pub open spec fn is_ml_dsa(p: i64, params: ParamSet) -> bool {
    ||| p == 44 && params == ParamSet::MlDsa44
    ||| p == 65 && params == ParamSet::MlDsa65
    ||| p == 87 && params == ParamSet::MlDsa87
}

/// The signature lengths are FIPS 204's (Table 2): 2420, 3309 and 4627 bytes.
pub proof fn lemma_signature_lengths()
    ensures
        signature_len(ParamSet::MlDsa44) == 2420,
        signature_len(ParamSet::MlDsa65) == 3309,
        signature_len(ParamSet::MlDsa87) == 4627,
{
}

/// A verification request with readable `pk`, `message` and `sigma` and the
/// parameter set ML-DSA-`p` hands `pk` to be loaded as a key of ML-DSA-`p`. Once it
/// loads, a `sigma` of FIPS 204's signature length for ML-DSA-`p` (2420, 3309 or
/// 4627 bytes) is verified against exactly that message, and the answer is `01`
/// exactly when the signature is valid; a `sigma` of any other length is answered
/// `00` without being verified.
pub proof fn lemma_verify_law(
    r: RequestView,
    outcome: spec_fn(TaskView) -> EventView,
    pk: Seq<u8>,
    message: Seq<u8>,
    sigma: Seq<u8>,
    p: i64,
    params: ParamSet,
    valid: bool,
)
    requires
        r.function == "ML_DSA_Verify"@,
        bytes_spec(r, "pk"@) == Ok::<Seq<u8>, Seq<char>>(pk),
        bytes_spec(r, "message"@) == Ok::<Seq<u8>, Seq<char>>(message),
        bytes_spec(r, "sigma"@) == Ok::<Seq<u8>, Seq<char>>(sigma),
        param_spec(r, "param_set"@) == Ok::<i64, Seq<char>>(p),
        is_ml_dsa(p, params),
    ensures
        handle_spec(r) == StepView::Run(TaskView::LoadPublicKey { params, pk, message, sigma }),
        outcome(TaskView::LoadPublicKey { params, pk, message, sigma }) == EventView::PublicKeyLoaded
            && (p == 44 && sigma.len() == 2420 || p == 65 && sigma.len() == 3309 || p == 87
            && sigma.len() == 4627) && outcome(TaskView::Verify { params, message, sigma })
            == EventView::Verified(valid) ==> answer_spec(r, outcome) == Some(
            validity_view(valid),
        ),
        outcome(TaskView::LoadPublicKey { params, pk, message, sigma }) == EventView::PublicKeyLoaded
            && !(p == 44 && sigma.len() == 2420 || p == 65 && sigma.len() == 3309 || p == 87
            && sigma.len() == 4627) ==> answer_spec(r, outcome) == Some(validity_view(false)),
        outcome(TaskView::LoadPublicKey { params, pk, message, sigma })
            == EventView::PublicKeyRejected ==> answer_spec(r, outcome) == Some(
            validity_view(false),
        ),
        validity_view(true) == ok_view(seq![("valid"@, hex_lower(seq![1u8]))]),
        validity_view(false) == ok_view(seq![("valid"@, hex_lower(seq![0u8]))]),
{
    lemma_dispatch(r);
    assert(reject_view() == validity_view(false));
    reveal_with_fuel(answer_after, 3);
}

/// A key generation request with a 32-byte seed ξ and the parameter set
/// ML-DSA-`p` hands exactly ξ to be loaded as the seed; once it loads, key
/// generation is asked for under ML-DSA-`p`, and the answer is the key pair it
/// gives.
pub proof fn lemma_keygen_law(
    r: RequestView,
    outcome: spec_fn(TaskView) -> EventView,
    seed: Seq<u8>,
    p: i64,
    params: ParamSet,
    pk: Seq<u8>,
    sk: Seq<u8>,
)
    requires
        r.function == "ML_DSA_KeyGen"@,
        bytes_spec(r, "seed"@) == Ok::<Seq<u8>, Seq<char>>(seed),
        seed.len() == 32,
        param_spec(r, "param_set"@) == Ok::<i64, Seq<char>>(p),
        is_ml_dsa(p, params),
    ensures
        handle_spec(r) == StepView::Run(TaskView::LoadSeed { seed, param_set: p }),
        resume_spec(TaskView::LoadSeed { seed, param_set: p }, EventView::SeedLoaded)
            == StepView::Run(TaskView::KeyGen { params }),
        outcome(TaskView::LoadSeed { seed, param_set: p }) == EventView::SeedLoaded && outcome(
            TaskView::KeyGen { params },
        ) == (EventView::KeysGenerated { pk, sk }) ==> answer_spec(r, outcome) == Some(
            ok_view(seq![("pk"@, hex_lower(pk)), ("sk"@, hex_lower(sk))]),
        ),
{
    lemma_dispatch(r);
    reveal_with_fuel(answer_after, 3);
}

/// A signing request with readable `sk` and `message`, 32 bytes `rnd` and the
/// parameter set ML-DSA-`p` hands `sk` to be loaded as a key of ML-DSA-`p`; once it
/// loads, signing is asked for with exactly that message and rnd, and the answer
/// is the signature it gives.
pub proof fn lemma_sign_law(
    r: RequestView,
    outcome: spec_fn(TaskView) -> EventView,
    sk: Seq<u8>,
    message: Seq<u8>,
    rnd: Seq<u8>,
    p: i64,
    params: ParamSet,
    signature: Seq<u8>,
)
    requires
        r.function == "ML_DSA_Sign"@,
        bytes_spec(r, "sk"@) == Ok::<Seq<u8>, Seq<char>>(sk),
        bytes_spec(r, "message"@) == Ok::<Seq<u8>, Seq<char>>(message),
        bytes_spec(r, "rnd"@) == Ok::<Seq<u8>, Seq<char>>(rnd),
        rnd.len() == 32,
        param_spec(r, "param_set"@) == Ok::<i64, Seq<char>>(p),
        is_ml_dsa(p, params),
    ensures
        handle_spec(r) == StepView::Run(TaskView::LoadSecretKey { params, sk, message, rnd }),
        resume_spec(TaskView::LoadSecretKey { params, sk, message, rnd }, EventView::SecretKeyLoaded)
            == StepView::Run(TaskView::Sign { params, message, rnd }),
        outcome(TaskView::LoadSecretKey { params, sk, message, rnd }) == EventView::SecretKeyLoaded
            && outcome(TaskView::Sign { params, message, rnd }) == EventView::Signed(signature)
            ==> answer_spec(r, outcome) == Some(
            ok_view(seq![("signature"@, hex_lower(signature))]),
        ),
{
    lemma_dispatch(r);
    reveal_with_fuel(answer_after, 3);
}

/// A request whose parameter set is none of ML-DSA-44, -65 and -87 is refused
/// with an error naming the value, before any outside work: for a signing or a
/// verification at once, for a key generation once the seed is loaded.
pub proof fn lemma_unsupported_param_set_refused(r: RequestView, p: i64)
    requires
        param_spec(r, "param_set"@) == Ok::<i64, Seq<char>>(p),
        p != 44 && p != 65 && p != 87,
    ensures
        (r.function == "ML_DSA_Sign"@ || r.function == "ML_DSA_Verify"@) ==> (handle_spec(r)
            matches StepView::Reply(v) && v.outputs is None && !v.unsupported),
        forall|seed: Seq<u8>|
            resume_spec(TaskView::LoadSeed { seed, param_set: p }, EventView::SeedLoaded) == fail(
                "unsupported param_set: "@ + int_numeral(p as int),
            ),
{
    lemma_dispatch(r);
}

/// A key generation with a seed of other than 32 bytes, or a signing with rnd of
/// other than 32 bytes, is refused with an error and no outputs.
pub proof fn lemma_wrong_length_refused(r: RequestView, b: Seq<u8>)
    requires
        r.function == "ML_DSA_KeyGen"@ && bytes_spec(r, "seed"@) == Ok::<Seq<u8>, Seq<char>>(b)
            && param_spec(r, "param_set"@) is Ok || r.function == "ML_DSA_Sign"@ && bytes_spec(
            r,
            "sk"@,
        ) is Ok && bytes_spec(r, "message"@) is Ok && bytes_spec(r, "rnd"@) == Ok::<
            Seq<u8>,
            Seq<char>,
        >(b),
        b.len() != 32,
    ensures
        handle_spec(r) matches StepView::Reply(v) && v.outputs is None && v.error is Some,
{
    lemma_dispatch(r);
}

} // verus!
