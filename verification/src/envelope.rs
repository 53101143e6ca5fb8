//! The signed work envelope: its structure check, its local and its publicly
//! verifiable Ed25519 signature.

use vstd::prelude::*;

use crate::clock::{fresh_uuid, utc_rfc3339, uuid_text, uuid_to_text, Timestamp};
use crate::crypto::{
    ed25519_key_decodes, ed25519_key_is_valid, ed25519_public_key, ed25519_public_of,
    ed25519_sign, ed25519_signature_of, ed25519_verifies, ed25519_verify_strict, hex_decode,
    hex_decode_spec, hex_encode, hex_lower, lemma_hex_round_trip, sha256, sha256_of,
};
use crate::subject::{is_subject_text, Subject};
use crate::text::{concat, lemma_split_concat, lemma_split_free, split_text, str_eq};

verus! {

/// The only signature algorithm envelopes carry.
pub const SIGNATURE_ALG: &'static str = "ed25519";

/// The protocol version this library speaks.
pub const JCP_VERSION: &'static str = "1.0.0";

/// The transport profile envelopes are issued under.
pub const JPCM_PROFILE: &'static str = "jpcm/1.0.0";

/// Why an envelope, a subject or a signature was refused.
#[derive(Clone, Debug, PartialEq, Eq)]
pub enum CoreError {
    UnsupportedVersion(String),
    InvalidSubject,
    PayloadHashMismatch,
    MissingSignature,
    SignatureMismatch,
    InvalidSignature,
    UnsupportedSignatureAlg(String),
}

/// A [`CoreError`] with its texts as character sequences.
pub enum CoreErrorView {
    UnsupportedVersion(Seq<char>),
    InvalidSubject,
    PayloadHashMismatch,
    MissingSignature,
    SignatureMismatch,
    InvalidSignature,
    UnsupportedSignatureAlg(Seq<char>),
}

impl View for CoreError {
    type V = CoreErrorView;

    open spec fn view(&self) -> CoreErrorView {
        match self {
            CoreError::UnsupportedVersion(v) => CoreErrorView::UnsupportedVersion(v@),
            CoreError::InvalidSubject => CoreErrorView::InvalidSubject,
            CoreError::PayloadHashMismatch => CoreErrorView::PayloadHashMismatch,
            CoreError::MissingSignature => CoreErrorView::MissingSignature,
            CoreError::SignatureMismatch => CoreErrorView::SignatureMismatch,
            CoreError::InvalidSignature => CoreErrorView::InvalidSignature,
            CoreError::UnsupportedSignatureAlg(a) => CoreErrorView::UnsupportedSignatureAlg(a@),
        }
    }
}

/// The text an error is reported with.
pub open spec fn core_error_text(e: CoreErrorView) -> Seq<char> {
    match e {
        CoreErrorView::UnsupportedVersion(v) => "unsupported protocol version "@ + v,
        CoreErrorView::InvalidSubject => "invalid subject"@,
        CoreErrorView::PayloadHashMismatch => "payload hash mismatch"@,
        CoreErrorView::MissingSignature => "missing signature"@,
        CoreErrorView::SignatureMismatch => "signature mismatch"@,
        CoreErrorView::InvalidSignature => "invalid signature encoding"@,
        CoreErrorView::UnsupportedSignatureAlg(a) => "unsupported signature algorithm "@ + a,
    }
}

impl CoreError {
    /// The text the error is reported with.
    pub fn message(&self) -> (m: String)
        ensures
            m@ == core_error_text(self@),
    {
        match self {
            CoreError::UnsupportedVersion(v) => concat("unsupported protocol version ", v.as_str()),
            CoreError::InvalidSubject => "invalid subject".to_owned(),
            CoreError::PayloadHashMismatch => "payload hash mismatch".to_owned(),
            CoreError::MissingSignature => "missing signature".to_owned(),
            CoreError::SignatureMismatch => "signature mismatch".to_owned(),
            CoreError::InvalidSignature => "invalid signature encoding".to_owned(),
            CoreError::UnsupportedSignatureAlg(a) => concat("unsupported signature algorithm ", a.as_str()),
        }
    }
}

/// The view of a check's outcome.
pub open spec fn outcome_view(r: Result<(), CoreError>) -> Result<(), CoreErrorView> {
    match r {
        Ok(()) => Ok(()),
        Err(e) => Err(e@),
    }
}

/// An envelope signature.
#[derive(Clone, Debug, PartialEq, Eq)]
pub struct Signature {
    pub alg: String,
    pub key_id: String,
    /// Lower-case hex of the 64 signature bytes.
    pub value: String,
    /// Lower-case hex of the signer's 32-byte Ed25519 public key.
    pub public_key: String,
}

pub struct SignatureView {
    pub alg: Seq<char>,
    pub key_id: Seq<char>,
    pub value: Seq<char>,
    pub public_key: Seq<char>,
}

impl View for Signature {
    type V = SignatureView;

    open spec fn view(&self) -> SignatureView {
        SignatureView {
            alg: self.alg@,
            key_id: self.key_id@,
            value: self.value@,
            public_key: self.public_key@,
        }
    }
}

/// A signed unit of work. The payload is carried as the compact JSON bytes of
/// the payload value and is never interpreted here.
#[derive(Clone, Debug, PartialEq, Eq)]
pub struct Envelope {
    pub jcp_version: String,
    pub transport_profile: String,
    /// The envelope's UUID as a big-endian 128-bit value.
    pub id: u128,
    pub subject: String,
    pub issued_at: Timestamp,
    pub kind: String,
    pub payload_hash: String,
    /// The compact JSON serialization of the payload value.
    pub payload: Vec<u8>,
    pub signature: Option<Signature>,
}

pub struct EnvelopeView {
    pub jcp_version: Seq<char>,
    pub transport_profile: Seq<char>,
    pub id: u128,
    pub subject: Seq<char>,
    pub issued_at: (i64, u32),
    pub kind: Seq<char>,
    pub payload_hash: Seq<char>,
    pub payload: Seq<u8>,
    pub signature: Option<SignatureView>,
}

impl View for Envelope {
    type V = EnvelopeView;

    open spec fn view(&self) -> EnvelopeView {
        EnvelopeView {
            jcp_version: self.jcp_version@,
            transport_profile: self.transport_profile@,
            id: self.id,
            subject: self.subject@,
            issued_at: self.issued_at@,
            kind: self.kind@,
            payload_hash: self.payload_hash@,
            payload: self.payload@,
            signature: match self.signature {
                Some(s) => Some(s@),
                None => None,
            },
        }
    }
}

/// `sha256:` followed by the lower-case hex SHA-256 digest of the payload bytes.
pub open spec fn payload_hash_text(payload: Seq<u8>) -> Seq<char> {
    seq!['s', 'h', 'a', '2', '5', '6', ':'] + hex_lower(sha256_of(payload))
}

/// The text that is signed: the identifying fields, one per line, each ended
/// by a newline. The payload enters through its hash; the signature does not enter.
pub open spec fn signing_input_text(e: EnvelopeView) -> Seq<char> {
    let nl = seq!['\n'];
    e.jcp_version + nl + e.transport_profile + nl + uuid_text(e.id) + nl + e.subject + nl
        + utc_rfc3339(e.issued_at.0, e.issued_at.1) + nl + e.kind + nl + e.payload_hash + nl
}

/// The UTF-8 bytes of the signing input.
pub open spec fn signing_message(e: EnvelopeView) -> Seq<u8> {
    vstd::utf8::encode_utf8(signing_input_text(e))
}

/// The structure check: version, subject, payload hash, in that order.
pub open spec fn validate_spec(e: EnvelopeView) -> Result<(), CoreErrorView> {
    if e.jcp_version != JCP_VERSION@ {
        Err(CoreErrorView::UnsupportedVersion(e.jcp_version))
    } else if !is_subject_text(e.subject) {
        Err(CoreErrorView::InvalidSubject)
    } else if e.payload_hash != payload_hash_text(e.payload) {
        Err(CoreErrorView::PayloadHashMismatch)
    } else {
        Ok(())
    }
}

/// Public verification against the key the signature carries.
pub open spec fn verify_signature_spec(e: EnvelopeView) -> Result<(), CoreErrorView> {
    match e.signature {
        None => Err(CoreErrorView::MissingSignature),
        Some(s) => if s.alg != SIGNATURE_ALG@ {
            Err(CoreErrorView::UnsupportedSignatureAlg(s.alg))
        } else {
            match hex_decode_spec(vstd::utf8::encode_utf8(s.public_key)) {
                None => Err(CoreErrorView::InvalidSignature),
                Some(pk) => if pk.len() != 32 || !ed25519_key_decodes(pk) {
                    Err(CoreErrorView::InvalidSignature)
                } else {
                    match hex_decode_spec(vstd::utf8::encode_utf8(s.value)) {
                        None => Err(CoreErrorView::InvalidSignature),
                        Some(sig) => if sig.len() != 64 {
                            Err(CoreErrorView::InvalidSignature)
                        } else if ed25519_verifies(pk, signing_message(e), sig) {
                            Ok(())
                        } else {
                            Err(CoreErrorView::SignatureMismatch)
                        },
                    }
                },
            }
        },
    }
}

/// What strict Ed25519 verification of a signature over a message says, as
/// the public check reports it.
pub open spec fn strict_outcome(public_key: Seq<u8>, msg: Seq<u8>, signature: Seq<u8>) -> Result<
    (),
    CoreErrorView,
> {
    if ed25519_verifies(public_key, msg, signature) {
        Ok(())
    } else {
        Err(CoreErrorView::SignatureMismatch)
    }
}

/// A local signer: a key id and a 32-byte Ed25519 seed.
#[derive(Clone)]
pub struct LocalSigner {
    key_id: String,
    seed: [u8; 32],
}

pub struct LocalSignerView {
    pub key_id: Seq<char>,
    pub seed: Seq<u8>,
}

impl View for LocalSigner {
    type V = LocalSignerView;

    closed spec fn view(&self) -> LocalSignerView {
        LocalSignerView { key_id: self.key_id@, seed: self.seed@ }
    }
}

/// The signature a signer makes of an envelope.
pub open spec fn signature_for_spec(signer: LocalSignerView, e: EnvelopeView) -> SignatureView {
    SignatureView {
        alg: SIGNATURE_ALG@,
        key_id: signer.key_id,
        value: hex_lower(ed25519_signature_of(signer.seed, signing_message(e))),
        public_key: hex_lower(ed25519_public_of(signer.seed)),
    }
}

/// Verification against a local signer: the carried signature must be the one
/// the signer makes of the envelope.
pub open spec fn verify_local_spec(e: EnvelopeView, signer: LocalSignerView) -> Result<
    (),
    CoreErrorView,
> {
    match e.signature {
        None => Err(CoreErrorView::MissingSignature),
        Some(s) => if s == signature_for_spec(signer, e) {
            Ok(())
        } else {
            Err(CoreErrorView::SignatureMismatch)
        },
    }
}

/// The envelope with its signature replaced.
pub open spec fn with_signature(e: EnvelopeView, s: Option<SignatureView>) -> EnvelopeView {
    EnvelopeView { signature: s, ..e }
}

/// The key id a seed gets: `local:` and the first 16 hex digits of the SHA-256
/// of its public key.
pub open spec fn key_id_text(seed: Seq<u8>) -> Seq<char> {
    seq!['l', 'o', 'c', 'a', 'l', ':'] + hex_lower(sha256_of(ed25519_public_of(seed))).subrange(
        0,
        16,
    )
}

/// `sha256:` and the lower-case hex SHA-256 of the payload bytes.
pub fn payload_hash(payload: &[u8]) -> (hash: String)
    ensures
        hash@ == payload_hash_text(payload@),
{
    let digest = sha256(payload);
    let hex = hex_encode(digest.as_slice());
    let mut out = String::new();
    out.append("sha256:");
    out.append(hex.as_str());
    proof {
        reveal_strlit("sha256:");
    }
    assert(out@ =~= payload_hash_text(payload@));
    out
}

fn copy_32(bytes: &Vec<u8>) -> (out: [u8; 32])
    requires
        bytes@.len() == 32,
    ensures
        out@ == bytes@,
{
    let mut out = [0u8; 32];
    let mut i: usize = 0;
    while i < 32
        invariant
            bytes@.len() == 32,
            i <= 32,
            forall|j: int| 0 <= j < i ==> out@[j] == bytes@[j],
        decreases 32 - i,
    {
        out[i] = bytes[i];
        i = i + 1;
    }
    assert(out@ =~= bytes@);
    out
}

fn copy_64(bytes: &Vec<u8>) -> (out: [u8; 64])
    requires
        bytes@.len() == 64,
    ensures
        out@ == bytes@,
{
    let mut out = [0u8; 64];
    let mut i: usize = 0;
    while i < 64
        invariant
            bytes@.len() == 64,
            i <= 64,
            forall|j: int| 0 <= j < i ==> out@[j] == bytes@[j],
        decreases 64 - i,
    {
        out[i] = bytes[i];
        i = i + 1;
    }
    assert(out@ =~= bytes@);
    out
}

/// The signing input of an envelope.
pub fn signing_input(envelope: &Envelope) -> (text: String)
    ensures
        text@ == signing_input_text(envelope@),
{
    let mut out = envelope.jcp_version.clone();
    out.append("\n");
    out.append(envelope.transport_profile.as_str());
    out.append("\n");
    let id = uuid_to_text(envelope.id);
    out.append(id.as_str());
    out.append("\n");
    out.append(envelope.subject.as_str());
    out.append("\n");
    let issued = envelope.issued_at.to_rfc3339();
    out.append(issued.as_str());
    out.append("\n");
    out.append(envelope.kind.as_str());
    out.append("\n");
    out.append(envelope.payload_hash.as_str());
    out.append("\n");
    proof {
        reveal_strlit("\n");
    }
    assert(out@ =~= signing_input_text(envelope@));
    out
}

impl Envelope {
    /// A fresh unsigned envelope with a random id, issued now.
    pub fn new(subject: &Subject, kind: String, payload: Vec<u8>) -> (e: Envelope)
        ensures
            e@.jcp_version == JCP_VERSION@,
            e@.transport_profile == JPCM_PROFILE@,
            e@.subject == subject.wire(),
            e@.kind == kind@,
            e@.payload == payload@,
            e@.payload_hash == payload_hash_text(payload@),
            e@.signature is None,
    {
        let id = fresh_uuid();
        let issued_at = Timestamp::now();
        Envelope::new_with(subject, kind, payload, id, issued_at)
    }

    /// An unsigned envelope with the given id and issue time.
    pub fn new_with(
        subject: &Subject,
        kind: String,
        payload: Vec<u8>,
        id: u128,
        issued_at: Timestamp,
    ) -> (e: Envelope)
        ensures
            e@ == (EnvelopeView {
                jcp_version: JCP_VERSION@,
                transport_profile: JPCM_PROFILE@,
                id,
                subject: subject.wire(),
                issued_at: issued_at@,
                kind: kind@,
                payload_hash: payload_hash_text(payload@),
                payload: payload@,
                signature: None,
            }),
    {
        let hash = payload_hash(payload.as_slice());
        Envelope {
            jcp_version: JCP_VERSION.to_owned(),
            transport_profile: JPCM_PROFILE.to_owned(),
            id,
            subject: subject.as_wire(),
            issued_at,
            kind,
            payload_hash: hash,
            payload,
            signature: None,
        }
    }

    /// The structure check: supported version, a parseable subject, and a
    /// payload hash that matches the payload.
    pub fn validate(&self) -> (r: Result<(), CoreError>)
        ensures
            outcome_view(r) == validate_spec(self@),
    {
        if !str_eq(self.jcp_version.as_str(), JCP_VERSION) {
            return Err(CoreError::UnsupportedVersion(self.jcp_version.clone()));
        }
        match Subject::parse(self.subject.as_str()) {
            Err(e) => {
                return Err(e);
            },
            Ok(_) => {},
        }
        let expected = payload_hash(self.payload.as_slice());
        if !str_eq(self.payload_hash.as_str(), expected.as_str()) {
            return Err(CoreError::PayloadHashMismatch);
        }
        Ok(())
    }

    /// Checks the carried signature against the one `signer` makes.
    pub fn verify_local_signature(&self, signer: &LocalSigner) -> (r: Result<(), CoreError>)
        ensures
            outcome_view(r) == verify_local_spec(self@, signer@),
    {
        match &self.signature {
            None => Err(CoreError::MissingSignature),
            Some(signature) => {
                let expected = signer.signature_for(self);
                if signature_eq(signature, &expected) {
                    Ok(())
                } else {
                    Err(CoreError::SignatureMismatch)
                }
            },
        }
    }

    /// Verifies the envelope against the public key embedded in its signature;
    /// needs no secret material.
    pub fn verify_signature(&self) -> (r: Result<(), CoreError>)
        ensures
            outcome_view(r) == verify_signature_spec(self@),
    {
        let signature = match &self.signature {
            None => {
                return Err(CoreError::MissingSignature);
            },
            Some(signature) => signature,
        };
        if !str_eq(signature.alg.as_str(), SIGNATURE_ALG) {
            return Err(CoreError::UnsupportedSignatureAlg(signature.alg.clone()));
        }
        let key_bytes = match hex_decode(signature.public_key.as_str().as_bytes()) {
            None => {
                return Err(CoreError::InvalidSignature);
            },
            Some(bytes) => bytes,
        };
        if key_bytes.len() != 32 {
            return Err(CoreError::InvalidSignature);
        }
        let key = copy_32(&key_bytes);
        if !ed25519_key_is_valid(&key) {
            return Err(CoreError::InvalidSignature);
        }
        let sig_bytes = match hex_decode(signature.value.as_str().as_bytes()) {
            None => {
                return Err(CoreError::InvalidSignature);
            },
            Some(bytes) => bytes,
        };
        if sig_bytes.len() != 64 {
            return Err(CoreError::InvalidSignature);
        }
        let sig = copy_64(&sig_bytes);
        let input = signing_input(self);
        if ed25519_verify_strict(&key, input.as_str().as_bytes(), &sig) {
            Ok(())
        } else {
            Err(CoreError::SignatureMismatch)
        }
    }
}

fn signature_eq(a: &Signature, b: &Signature) -> (r: bool)
    ensures
        r == (a@ == b@),
{
    str_eq(a.alg.as_str(), b.alg.as_str()) && str_eq(a.key_id.as_str(), b.key_id.as_str())
        && str_eq(a.value.as_str(), b.value.as_str()) && str_eq(
        a.public_key.as_str(),
        b.public_key.as_str(),
    )
}

/// Key files hold the seed as hex text; this is why one could not be read.
#[derive(Clone, Copy, Debug, PartialEq, Eq)]
pub enum KeyFileError {
    /// The text, without ASCII whitespace, is not hex.
    NotHex,
    /// The hex does not stand for exactly 32 bytes.
    WrongLength,
}

/// The ASCII whitespace bytes: space, tab, line feed, form feed, carriage return.
pub open spec fn is_ascii_whitespace(b: u8) -> bool {
    b == 32 || b == 9 || b == 10 || b == 12 || b == 13
}

/// A key file's bytes with ASCII whitespace removed.
pub open spec fn key_file_hex(raw: Seq<u8>) -> Seq<u8> {
    raw.filter(|b: u8| !is_ascii_whitespace(b))
}

/// What reading a key file gives: the signer of its seed, keyed by the seed's key id.
pub open spec fn key_file_spec(raw: Seq<u8>) -> Result<LocalSignerView, KeyFileError> {
    match hex_decode_spec(key_file_hex(raw)) {
        None => Err(KeyFileError::NotHex),
        Some(seed) => if seed.len() != 32 {
            Err(KeyFileError::WrongLength)
        } else {
            Ok(LocalSignerView { key_id: key_id_text(seed), seed })
        },
    }
}

impl LocalSigner {
    /// A signer from a fixed 32-byte seed.
    pub fn from_seed(key_id: String, seed: &[u8; 32]) -> (signer: LocalSigner)
        ensures
            signer@ == (LocalSignerView { key_id: key_id@, seed: seed@ }),
    {
        LocalSigner { key_id, seed: *seed }
    }

    /// The signer's key id.
    pub fn key_id(&self) -> (id: &str)
        ensures
            id@ == self@.key_id,
    {
        self.key_id.as_str()
    }

    /// The 32 bytes of the signer's Ed25519 public key.
    pub fn verifying_key(&self) -> (key: [u8; 32])
        ensures
            key@ == ed25519_public_of(self@.seed),
    {
        ed25519_public_key(&self.seed)
    }

    /// The signature this signer makes of an envelope.
    pub fn signature_for(&self, envelope: &Envelope) -> (s: Signature)
        ensures
            s@ == signature_for_spec(self@, envelope@),
    {
        let input = signing_input(envelope);
        let sig = ed25519_sign(&self.seed, input.as_str().as_bytes());
        let public = ed25519_public_key(&self.seed);
        let value = hex_encode(&sig);
        let public_key = hex_encode(&public);
        Signature { alg: SIGNATURE_ALG.to_owned(), key_id: self.key_id.clone(), value, public_key }
    }

    /// Attaches this signer's signature. The signed envelope passes the local
    /// check; the public check reports what strict verification says of the
    /// signature under the signer's public key.
    pub fn sign(&self, envelope: Envelope) -> (signed: Envelope)
        ensures
            signed@ == with_signature(envelope@, Some(signature_for_spec(self@, envelope@))),
            verify_local_spec(signed@, self@) == Ok::<(), CoreErrorView>(()),
            verify_signature_spec(signed@) == strict_outcome(
                ed25519_public_of(self@.seed),
                signing_message(envelope@),
                ed25519_signature_of(self@.seed, signing_message(envelope@)),
            ),
    {
        let input = signing_input(&envelope);
        let sig = ed25519_sign(&self.seed, input.as_str().as_bytes());
        let public = ed25519_public_key(&self.seed);
        let value = hex_encode(&sig);
        let public_key = hex_encode(&public);
        let signature = Signature {
            alg: SIGNATURE_ALG.to_owned(),
            key_id: self.key_id.clone(),
            value,
            public_key,
        };
        let mut signed = envelope;
        signed.signature = Some(signature);
        proof {
            let e = envelope@;
            let s = signed@;
            assert(signing_input_text(s) == signing_input_text(e));
            lemma_hex_round_trip(sig@);
            lemma_hex_round_trip(public@);
        }
        signed
    }

    /// The key id of a seed.
    pub fn key_id_for_seed(seed: &[u8; 32]) -> (id: String)
        ensures
            id@ == key_id_text(seed@),
    {
        let public = ed25519_public_key(seed);
        let digest = sha256(&public);
        let hex = hex_encode(digest.as_slice());
        let mut out = String::new();
        out.append("local:");
        out.append(hex.as_str().substring_char(0, 16));
        proof {
            reveal_strlit("local:");
        }
        assert(out@ =~= key_id_text(seed@));
        out
    }

    /// The text a new key file holds: the seed as lower-case hex.
    pub fn key_file_text(seed: &[u8; 32]) -> (text: String)
        ensures
            text@ == hex_lower(seed@),
    {
        hex_encode(seed)
    }

    /// Reads a signer from a key file's bytes: ASCII whitespace is ignored and the
    /// rest must be the hex of a 32-byte seed.
    pub fn from_key_file(raw: &[u8]) -> (r: Result<LocalSigner, KeyFileError>)
        ensures
            match r {
                Ok(signer) => key_file_spec(raw@) == Ok::<LocalSignerView, KeyFileError>(
                    signer@,
                ),
                Err(e) => key_file_spec(raw@) == Err::<LocalSignerView, KeyFileError>(e),
            },
    {
        let mut hex: Vec<u8> = Vec::new();
        let mut i: usize = 0;
        while i < raw.len()
            invariant
                i <= raw@.len(),
                hex@ == raw@.take(i as int).filter(|b: u8| !is_ascii_whitespace(b)),
            decreases raw@.len() - i,
        {
            let b = raw[i];
            proof {
                reveal_with_fuel(Seq::filter, 1);
                assert(raw@.take(i + 1).drop_last() =~= raw@.take(i as int));
            }
            if !(b == 32 || b == 9 || b == 10 || b == 12 || b == 13) {
                hex.push(b);
            }
            i = i + 1;
        }
        assert(raw@.take(raw@.len() as int) =~= raw@);
        let bytes = match hex_decode(hex.as_slice()) {
            None => {
                return Err(KeyFileError::NotHex);
            },
            Some(bytes) => bytes,
        };
        if bytes.len() != 32 {
            return Err(KeyFileError::WrongLength);
        }
        let seed = copy_32(&bytes);
        let key_id = LocalSigner::key_id_for_seed(&seed);
        Ok(LocalSigner::from_seed(key_id, &seed))
    }
}


/// Keeping everything: a filter whose predicate holds of every element.
proof fn lemma_filter_keeps_all(s: Seq<u8>, pred: spec_fn(u8) -> bool)
    requires
        forall|i: int| 0 <= i < s.len() ==> pred(#[trigger] s[i]),
    ensures
        s.filter(pred) == s,
    decreases s.len(),
{
    reveal_with_fuel(Seq::filter, 1);
    if s.len() > 0 {
        lemma_filter_keeps_all(s.drop_last(), pred);
        assert(s.drop_last().push(s.last()) =~= s);
    }
}

/// Law: a new envelope over a valid subject passes the structure check.
pub proof fn law_new_envelope_validates(
    subject: Subject,
    kind: Seq<char>,
    payload: Seq<u8>,
    id: u128,
    issued_at: (i64, u32),
)
    requires
        subject.is_valid(),
    ensures
        validate_spec(
            EnvelopeView {
                jcp_version: JCP_VERSION@,
                transport_profile: JPCM_PROFILE@,
                id,
                subject: subject.wire(),
                issued_at,
                kind,
                payload_hash: payload_hash_text(payload),
                payload,
                signature: None,
            },
        ) == Ok::<(), CoreErrorView>(()),
{
    crate::subject::law_subject_wire_round_trip(
        subject,
        subject.tenant@,
        subject.service@,
        subject.entity@,
    );
    assert(crate::subject::parses_as(
        subject.wire(),
        subject.tenant@,
        subject.service@,
        subject.entity@,
    ));
}

/// Law: attaching, replacing or removing a signature never changes the
/// structure check.
pub proof fn law_signature_does_not_affect_validation(
    e: EnvelopeView,
    s: Option<SignatureView>,
)
    ensures
        validate_spec(with_signature(e, s)) == validate_spec(e),
        signing_input_text(with_signature(e, s)) == signing_input_text(e),
{
}

/// Law: a key file written for a seed is read back as the signer of that seed,
/// under the seed's key id.
pub proof fn law_key_file_round_trip(seed: Seq<u8>)
    requires
        seed.len() == 32,
    ensures
        key_file_spec(vstd::utf8::encode_utf8(hex_lower(seed))) == Ok::<
            LocalSignerView,
            KeyFileError,
        >(LocalSignerView { key_id: key_id_text(seed), seed }),
{
    let h = hex_lower(seed);
    crate::crypto::lemma_hex_lower_ascii(seed);
    vstd::utf8::is_ascii_chars_encode_utf8(h);
    let bytes = vstd::utf8::encode_utf8(h);
    assert forall|i: int| 0 <= i < bytes.len() implies (|b: u8| !is_ascii_whitespace(b))(
        #[trigger] bytes[i],
    ) by {
        assert(h[i] as u8 == bytes[i]);
        let b = seed[i / 2];
        assert(b / 16 < 16);
        assert(b % 16 < 16);
    }
    lemma_filter_keeps_all(bytes, |b: u8| !is_ascii_whitespace(b));
    lemma_hex_round_trip(seed);
}

/// Law: signing is deterministic and ignores any signature already carried:
/// one seed signs one envelope with one signature, so signing twice, or
/// signing a signed envelope again, gives the same signature.
pub proof fn law_signing_is_deterministic(
    signer: LocalSignerView,
    e: EnvelopeView,
    carried: Option<SignatureView>,
)
    ensures
        signature_for_spec(signer, with_signature(e, carried)) == signature_for_spec(signer, e),
        with_signature(with_signature(e, carried), Some(signature_for_spec(signer, e)))
            == with_signature(e, Some(signature_for_spec(signer, e))),
{
    assert(signing_message(with_signature(e, carried)) == signing_message(e));
}

/// The same prefix and suffix around two texts give the same whole only when
/// the texts are the same.
proof fn lemma_cancel_middle(p: Seq<char>, a: Seq<char>, b: Seq<char>, q: Seq<char>)
    requires
        p + a + q == p + b + q,
    ensures
        a == b,
{
    let x = p + a + q;
    let y = p + b + q;
    assert(x.len() == y.len());
    assert(a.len() == b.len());
    assert(a =~= x.subrange(p.len() as int, (p.len() + a.len()) as int));
    assert(b =~= y.subrange(p.len() as int, (p.len() + b.len()) as int));
}

/// The signed text names the subject, the kind and the payload hash: two
/// envelopes that differ in only one of them are signed over different
/// texts, so a signature over one does not carry over to the other.
pub proof fn law_signing_text_covers_fields(e: EnvelopeView, subject: Seq<char>, kind: Seq<char>, payload_hash: Seq<char>)
    ensures
        subject != e.subject ==> signing_input_text(EnvelopeView { subject, ..e })
            != signing_input_text(e),
        kind != e.kind ==> signing_input_text(EnvelopeView { kind, ..e }) != signing_input_text(e),
        payload_hash != e.payload_hash ==> signing_input_text(EnvelopeView { payload_hash, ..e })
            != signing_input_text(e),
{
    let nl = seq!['\n'];
    let u = uuid_text(e.id);
    let r = utc_rfc3339(e.issued_at.0, e.issued_at.1);
    let head = e.jcp_version + nl + e.transport_profile + nl + u + nl;
    let tail = nl + r + nl + e.kind + nl + e.payload_hash + nl;
    let e1 = EnvelopeView { subject, ..e };
    assert(signing_input_text(e) =~= head + e.subject + tail);
    assert(signing_input_text(e1) =~= head + subject + tail);
    if signing_input_text(e1) == signing_input_text(e) {
        lemma_cancel_middle(head, subject, e.subject, tail);
    }
    let head2 = head + e.subject + nl + r + nl;
    let tail2 = nl + e.payload_hash + nl;
    let e2 = EnvelopeView { kind, ..e };
    assert(signing_input_text(e) =~= head2 + e.kind + tail2);
    assert(signing_input_text(e2) =~= head2 + kind + tail2);
    if signing_input_text(e2) == signing_input_text(e) {
        lemma_cancel_middle(head2, kind, e.kind, tail2);
    }
    let head3 = head2 + e.kind + nl;
    let e3 = EnvelopeView { payload_hash, ..e };
    assert(signing_input_text(e) =~= head3 + e.payload_hash + nl);
    assert(signing_input_text(e3) =~= head3 + payload_hash + nl);
    if signing_input_text(e3) == signing_input_text(e) {
        lemma_cancel_middle(head3, payload_hash, e.payload_hash, nl);
    }
}

/// The text has no newline.
pub open spec fn one_line(x: Seq<char>) -> bool {
    forall|k: int| 0 <= k < x.len() ==> x[k] != '\n'
}

proof fn lemma_split_line(x: Seq<char>, rest: Seq<char>)
    requires
        one_line(x),
    ensures
        split_text(x + seq!['\n'] + rest, '\n') == seq![x] + split_text(rest, '\n'),
{
    lemma_split_concat(x, rest, '\n');
    lemma_split_free(x, '\n');
}

/// Hex text holds no newline.
proof fn lemma_hex_one_line(b: Seq<u8>)
    ensures
        one_line(hex_lower(b)),
{
    assert forall|k: int| 0 <= k < hex_lower(b).len() implies hex_lower(b)[k] != '\n' by {
        let x = b[k / 2];
        assert(x / 16 < 16 && x % 16 < 16);
    }
}

/// A UUID's text holds no newline.
proof fn lemma_uuid_one_line(id: u128)
    ensures
        one_line(uuid_text(id)),
{
    let h = hex_lower(crate::clock::u128_be_bytes(id));
    lemma_hex_one_line(crate::clock::u128_be_bytes(id));
    let t = uuid_text(id);
    assert forall|k: int| 0 <= k < t.len() implies t[k] != '\n' by {
        if k < 8 {
            assert(t[k] == h[k]);
        } else if k == 8 || k == 13 || k == 18 || k == 23 {
        } else if k < 13 {
            assert(t[k] == h[k - 1]);
        } else if k < 18 {
            assert(t[k] == h[k - 2]);
        } else if k < 23 {
            assert(t[k] == h[k - 3]);
        } else {
            assert(t[k] == h[k - 4]);
        }
    }
}

/// The signed text is the published wire format: when none of the fields
/// holds a newline, its lines are, in order, the protocol version, the
/// transport profile, the envelope's UUID, the subject, the RFC 3339 issue
/// time, the kind and the payload hash, each ended by a newline.
pub proof fn law_signing_text_lines(e: EnvelopeView)
    requires
        one_line(e.jcp_version),
        one_line(e.transport_profile),
        one_line(e.subject),
        one_line(utc_rfc3339(e.issued_at.0, e.issued_at.1)),
        one_line(e.kind),
        one_line(e.payload_hash),
    ensures
        split_text(signing_input_text(e), '\n') == seq![
            e.jcp_version,
            e.transport_profile,
            uuid_text(e.id),
            e.subject,
            utc_rfc3339(e.issued_at.0, e.issued_at.1),
            e.kind,
            e.payload_hash,
            seq![],
        ],
{
    let nl = seq!['\n'];
    let u = uuid_text(e.id);
    let r = utc_rfc3339(e.issued_at.0, e.issued_at.1);
    lemma_uuid_one_line(e.id);
    let l7 = e.payload_hash + nl + seq![];
    let l6 = e.kind + nl + l7;
    let l5 = r + nl + l6;
    let l4 = e.subject + nl + l5;
    let l3 = u + nl + l4;
    let l2 = e.transport_profile + nl + l3;
    let l1 = e.jcp_version + nl + l2;
    assert(signing_input_text(e) =~= l1);
    lemma_split_line(e.payload_hash, seq![]);
    assert(split_text(seq![], '\n') =~= seq![seq![]]);
    lemma_split_line(e.kind, l7);
    lemma_split_line(r, l6);
    lemma_split_line(e.subject, l5);
    lemma_split_line(u, l4);
    lemma_split_line(e.transport_profile, l3);
    lemma_split_line(e.jcp_version, l2);
    assert(split_text(l1, '\n') =~= seq![
        e.jcp_version,
        e.transport_profile,
        u,
        e.subject,
        r,
        e.kind,
        e.payload_hash,
        seq![],
    ]);
}

} // verus!
