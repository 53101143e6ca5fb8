use jcp_protocol::envelope::{payload_hash, CoreError, Envelope, LocalSigner, SIGNATURE_ALG};
use jcp_protocol::subject::Subject;
use std::str::FromStr;

const SEED_A: [u8; 32] = [7u8; 32];
const SEED_B: [u8; 32] = [9u8; 32];

fn payload(text: &str) -> Vec<u8> {
    let value: serde_json::Value = serde_json::from_str(text).unwrap();
    serde_json::to_vec(&value).unwrap()
}

fn tse() -> Subject {
    "t/s/e".parse().unwrap()
}

fn check_validates_subject_and_hash() {
    let subject = Subject::from_str("tenant/service/entity").unwrap();
    let mut envelope = Envelope::new(&subject, "work.submit".to_owned(), payload(r#"{"a": 1}"#));
    envelope.validate().unwrap();
    envelope.payload = payload(r#"{"a": 2}"#);
    assert_eq!(envelope.validate(), Err(CoreError::PayloadHashMismatch));
}

#[test]
fn lib_validates_subject_and_hash() {
    check_validates_subject_and_hash();
}

#[test]
fn tests_validates_subject_and_hash() {
    check_validates_subject_and_hash();
}

fn check_local_signature_round_trips() {
    let seed = [3u8; 32];
    let text = LocalSigner::key_file_text(&seed);
    let signer = LocalSigner::from_key_file(text.as_bytes()).unwrap();
    let envelope = signer.sign(Envelope::new(&tse(), "x".to_owned(), payload("{}")));
    envelope.verify_local_signature(&signer).unwrap();
}

#[test]
fn lib_local_signature_round_trips() {
    check_local_signature_round_trips();
}

#[test]
fn tests_local_signature_round_trips() {
    check_local_signature_round_trips();
}

fn check_local_signature_rejects_tampering() {
    let seed = [4u8; 32];
    let text = LocalSigner::key_file_text(&seed);
    let signer = LocalSigner::from_key_file(text.as_bytes()).unwrap();
    let mut envelope = signer.sign(Envelope::new(&tse(), "x".to_owned(), payload("{}")));
    envelope.kind = "changed".to_owned();
    assert_eq!(envelope.verify_local_signature(&signer), Err(CoreError::SignatureMismatch));
}

#[test]
fn lib_local_signature_rejects_tampering() {
    check_local_signature_rejects_tampering();
}

#[test]
fn tests_local_signature_rejects_tampering() {
    check_local_signature_rejects_tampering();
}

fn check_sign_verify_round_trip() {
    let signer = LocalSigner::from_seed("test:a".to_owned(), &SEED_A);
    let envelope = signer.sign(Envelope::new(&tse(), "x".to_owned(), payload(r#"{"a": 1}"#)));
    assert_eq!(envelope.signature.as_ref().unwrap().alg, "ed25519");
    envelope.verify_signature().unwrap();
}

#[test]
fn lib_ed25519_sign_verify_round_trip() {
    check_sign_verify_round_trip();
}

#[test]
fn tests_ed25519_sign_verify_round_trip() {
    check_sign_verify_round_trip();
}

fn check_deterministic() {
    let signer = LocalSigner::from_seed("test:a".to_owned(), &SEED_A);
    let env = Envelope::new(&tse(), "x".to_owned(), payload(r#"{"a": 1}"#));
    let one = signer.sign(env.clone());
    let two = signer.sign(env);
    assert_eq!(one.signature, two.signature);
}

#[test]
fn lib_ed25519_is_deterministic_from_fixed_seed() {
    check_deterministic();
}

#[test]
fn tests_ed25519_is_deterministic_from_fixed_seed() {
    check_deterministic();
}

fn check_rejects_tampered_payload() {
    let signer = LocalSigner::from_seed("test:a".to_owned(), &SEED_A);
    let mut envelope = signer.sign(Envelope::new(&tse(), "x".to_owned(), payload("{}")));
    envelope.kind = "changed".to_owned();
    assert_eq!(envelope.verify_signature(), Err(CoreError::SignatureMismatch));
}

#[test]
fn lib_ed25519_rejects_tampered_payload() {
    check_rejects_tampered_payload();
}

#[test]
fn tests_ed25519_rejects_tampered_payload() {
    check_rejects_tampered_payload();
}

fn check_rejects_wrong_key() {
    let signer = LocalSigner::from_seed("test:a".to_owned(), &SEED_A);
    let other = LocalSigner::from_seed("test:b".to_owned(), &SEED_B);
    let mut envelope = signer.sign(Envelope::new(&tse(), "x".to_owned(), payload("{}")));
    if let Some(sig) = envelope.signature.as_mut() {
        sig.public_key = hex::encode(other.verifying_key());
    }
    assert_eq!(envelope.verify_signature(), Err(CoreError::SignatureMismatch));
}

#[test]
fn lib_ed25519_rejects_wrong_key() {
    check_rejects_wrong_key();
}

#[test]
fn tests_ed25519_rejects_wrong_key() {
    check_rejects_wrong_key();
}

fn check_missing_signature() {
    let envelope = Envelope::new(&tse(), "x".to_owned(), payload("{}"));
    assert_eq!(envelope.verify_signature(), Err(CoreError::MissingSignature));
}

#[test]
fn lib_ed25519_missing_signature_errors() {
    check_missing_signature();
}

#[test]
fn tests_ed25519_missing_signature_errors() {
    check_missing_signature();
}

struct Rng {
    state: u64,
}

impl Rng {
    fn new(seed: u64) -> Self {
        Self { state: seed ^ 0x9E37_79B9_7F4A_7C15 }
    }

    fn next_u64(&mut self) -> u64 {
        let mut x = self.state;
        x ^= x >> 12;
        x ^= x << 25;
        x ^= x >> 27;
        self.state = x;
        x.wrapping_mul(0x2545_F491_4F6C_DD1D)
    }

    fn below(&mut self, bound: u64) -> u64 {
        self.next_u64() % bound
    }
}

const SIGNER_SEED: [u8; 32] = [0x42u8; 32];

fn random_subject(rng: &mut Rng) -> String {
    let mut parts = Vec::new();
    for _ in 0..3 {
        let len = 1 + rng.below(8) as usize;
        let mut segment = String::new();
        for _ in 0..len {
            segment.push((b'a' + rng.below(26) as u8) as char);
        }
        parts.push(segment);
    }
    parts.join("/")
}

fn random_payload(rng: &mut Rng) -> serde_json::Value {
    let text = match rng.below(5) {
        0 => "{}".to_owned(),
        1 => format!(r#"{{"n": {}}}"#, rng.next_u64()),
        2 => format!(r#"{{"s": "v{}", "b": {}}}"#, rng.below(1000), rng.below(2) == 0),
        3 => format!(
            r#"{{"nested": {{"a": {}, "list": [{}, {}]}}}}"#,
            rng.below(100),
            rng.below(10),
            rng.below(10)
        ),
        _ => format!(r#"[{}, {}, {{"k": {}}}]"#, rng.below(50), rng.below(50), rng.below(7)),
    };
    serde_json::from_str(&text).unwrap()
}

fn mutate_payload(value: &serde_json::Value, rng: &mut Rng) -> serde_json::Value {
    let mut object = match value {
        serde_json::Value::Object(map) => map.clone(),
        _ => serde_json::Map::new(),
    };
    object.insert(
        format!("__mutation_{}", rng.next_u64()),
        serde_json::Value::from(rng.next_u64()),
    );
    serde_json::Value::Object(object)
}

#[test]
fn envelope_signing_invariants_hold_over_random_inputs() {
    let signer = LocalSigner::from_seed("test:roundtrip".to_owned(), &SIGNER_SEED);
    let mut rng = Rng::new(0xC0FF_EE12_3456_789A);
    for i in 0..256u32 {
        let subject_str = random_subject(&mut rng);
        let subject = Subject::from_str(&subject_str)
            .unwrap_or_else(|_| panic!("generated subject must parse: {subject_str}"));
        let value = random_payload(&mut rng);
        let kind = format!("work.kind.{}", rng.below(16));
        let signed = signer.sign(Envelope::new(&subject, kind, serde_json::to_vec(&value).unwrap()));
        signed
            .verify_signature()
            .unwrap_or_else(|err| panic!("iteration {i}: signed envelope must verify: {err:?}"));
        assert_eq!(
            signed.payload_hash,
            payload_hash(&signed.payload),
            "iteration {i}: payload_hash must be stable",
        );
        let mutated = serde_json::to_vec(&mutate_payload(&value, &mut rng)).unwrap();
        assert_ne!(
            payload_hash(&mutated),
            signed.payload_hash,
            "iteration {i}: mutated payload must change the hash",
        );
        let mut tampered = signed.clone();
        tampered.payload = mutated;
        tampered.payload_hash = payload_hash(&tampered.payload);
        assert_eq!(
            tampered.verify_signature(),
            Err(CoreError::SignatureMismatch),
            "iteration {i}: tampered payload must fail signature verification",
        );
        let copy = signed.clone();
        assert_eq!(signed, copy, "iteration {i}: envelope must round-trip unchanged");
        copy.verify_signature()
            .unwrap_or_else(|err| panic!("iteration {i}: round-tripped envelope must verify: {err:?}"));
    }
}

#[test]
fn signing_is_deterministic_for_fixed_seed_and_envelope() {
    let signer = LocalSigner::from_seed("test:determinism".to_owned(), &SIGNER_SEED);
    let envelope = Envelope::new(
        &Subject::from_str("tenant/service/entity").unwrap(),
        "work.submit".to_owned(),
        payload(r#"{"a": 1, "b": [2, 3]}"#),
    );
    let one = signer.sign(envelope.clone());
    let two = signer.sign(envelope);
    assert_eq!(one.signature, two.signature);
}

#[test]
fn signing_algorithm_is_ed25519() {
    assert_eq!(SIGNATURE_ALG, "ed25519");
}

#[test]
fn resigning_a_signed_envelope_keeps_the_signature() {
    let signer = LocalSigner::from_seed("test:resign".to_owned(), &SEED_A);
    let once = signer.sign(Envelope::new(&tse(), "x".to_owned(), payload("{}")));
    let twice = signer.sign(once.clone());
    assert_eq!(once, twice);
}

#[test]
fn payload_hash_is_sha256_of_the_payload_bytes() {
    assert_eq!(
        payload_hash(b"{}"),
        "sha256:44136fa355b3678a1146ad16f7e8649e94fb4fc21fe77e8310c060f61caaff8a"
    );
}

#[test]
fn core_errors_report_their_messages() {
    assert_eq!(CoreError::InvalidSubject.message(), "invalid subject");
    assert_eq!(CoreError::PayloadHashMismatch.message(), "payload hash mismatch");
    assert_eq!(CoreError::MissingSignature.message(), "missing signature");
    assert_eq!(CoreError::SignatureMismatch.message(), "signature mismatch");
    assert_eq!(CoreError::InvalidSignature.message(), "invalid signature encoding");
    assert_eq!(
        CoreError::UnsupportedVersion("2.0.0".to_owned()).message(),
        "unsupported protocol version 2.0.0"
    );
    assert_eq!(
        CoreError::UnsupportedSignatureAlg("rsa".to_owned()).message(),
        "unsupported signature algorithm rsa"
    );
}
