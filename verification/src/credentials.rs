//! Opaque bearer credentials held only by the browser that received them:
//! the MFA policy step-up ticket, the TOTP enablement preview, and the
//! lifecycle reconciliation capability. Only domain-separated digests of them
//! are retained, and digests are compared without an early exit.
use vstd::prelude::*;
use vstd::utf8::encode_utf8;
use base64::Engine;
use sha2::Digest;
use zeroize::Zeroizing;

verus! {

/// Text held by a `zeroize::Zeroizing` owner, cleared when dropped.
///
/// The owner is opaque: the text it holds is read only through
/// `sealed_text`, and nothing but dropping it clears it.
#[verifier::external_body]
pub struct SecretText {
    owner: Zeroizing<String>,
}

/// Entropy held by a `zeroize::Zeroizing` owner, cleared when dropped.
#[verifier::external_body]
pub struct SecretEntropy {
    owner: Zeroizing<[u8; 32]>,
}

/// The text a clearing owner holds.
pub uninterp spec fn sealed_text(owner: SecretText) -> Seq<char>;

/// The bytes a clearing owner of entropy holds.
pub uninterp spec fn sealed_entropy(owner: SecretEntropy) -> Seq<u8>;

/// Moves text into a `zeroize::Zeroizing` owner (`Zeroizing::new`).
#[verifier::external_body]
fn seal_text(text: String) -> (owner: SecretText)
    ensures
        sealed_text(owner) == text@,
{
    SecretText { owner: Zeroizing::new(text) }
}

/// Borrows the text a `zeroize::Zeroizing` owner holds (its `Deref`).
#[verifier::external_body]
fn unsealed_text(owner: &SecretText) -> (text: &str)
    ensures
        text@ == sealed_text(*owner),
{
    owner.owner.as_str()
}

/// Moves entropy into a `zeroize::Zeroizing` owner (`Zeroizing::new`).
#[verifier::external_body]
pub(crate) fn seal_entropy(entropy: [u8; 32]) -> (owner: SecretEntropy)
    ensures
        sealed_entropy(owner) == entropy@,
{
    SecretEntropy { owner: Zeroizing::new(entropy) }
}

/// Borrows the entropy a `zeroize::Zeroizing` owner holds (its `Deref`).
#[verifier::external_body]
fn unsealed_entropy(owner: &SecretEntropy) -> (entropy: &[u8; 32])
    ensures
        entropy@ == sealed_entropy(*owner),
{
    &owner.owner
}

impl SecretText {
    /// Takes ownership of text that must be cleared when dropped.
    pub fn new(text: String) -> (owner: Self)
        ensures
            sealed_text(owner) == text@,
    {
        seal_text(text)
    }

    /// Borrows the protected text.
    pub fn as_str(&self) -> (text: &str)
        ensures
            text@ == sealed_text(*self),
    {
        unsealed_text(self)
    }
}

impl SecretEntropy {
    /// Takes ownership of entropy that must be cleared when dropped.
    pub fn new(entropy: [u8; 32]) -> (owner: Self)
        ensures
            sealed_entropy(owner) == entropy@,
    {
        seal_entropy(entropy)
    }
}

/// The URL-safe, unpadded base64 text of the bytes.
pub uninterp spec fn base64_url_text(bytes: Seq<u8>) -> Seq<char>;

/// What URL-safe, unpadded base64 decoding makes of the text, or `None` when it refuses it.
pub uninterp spec fn base64_url_bytes(text: Seq<char>) -> Option<Seq<u8>>;

/// SHA-256 of the bytes.
pub uninterp spec fn sha256(bytes: Seq<u8>) -> Seq<u8>;

/// Unpadded base64 length of `n` bytes: four characters per three bytes,
/// and two or three for a final partial group.
pub open spec fn unpadded_len(n: nat) -> nat {
    (4 * (n / 3) + if n % 3 == 0 { 0nat } else if n % 3 == 1 { 2nat } else { 3nat }) as nat
}

/// `base64::engine::general_purpose::URL_SAFE_NO_PAD.encode`.
///
/// Besides naming the text, this states what the crate's `encoded_len` and
/// its alphabet give: the unpadded length, ASCII output, and that the same
/// engine decodes its own output back to the input.
#[verifier::external_body]
fn encode_url_safe(bytes: &[u8]) -> (text: String)
    ensures
        text@ == base64_url_text(bytes@),
        text@.len() == unpadded_len(bytes@.len()),
        vstd::utf8::is_ascii_chars(text@),
        base64_url_bytes(text@) == Some(bytes@),
{
    base64::engine::general_purpose::URL_SAFE_NO_PAD.encode(bytes)
}

/// `base64::engine::general_purpose::URL_SAFE_NO_PAD.decode`.
#[verifier::external_body]
fn decode_url_safe(text: &str) -> (bytes: Option<Vec<u8>>)
    ensures
        match bytes {
            Some(b) => base64_url_bytes(text@) == Some(b@),
            None => base64_url_bytes(text@) is None,
        },
{
    base64::engine::general_purpose::URL_SAFE_NO_PAD.decode(text).ok()
}

/// `sha2::Sha256::digest`.
#[verifier::external_body]
fn sha256_digest(bytes: &[u8]) -> (digest: [u8; 32])
    ensures
        digest@ == sha256(bytes@),
{
    sha2::Sha256::digest(bytes).into()
}

/// `getrandom::fill` on 32 bytes; `None` when the operating system refuses.
/// Nothing is stated of the bytes: they come from the operating system.
#[verifier::external_body]
pub(crate) fn random_entropy() -> (entropy: Option<[u8; 32]>) {
    let mut entropy = [0u8; 32];
    getrandom::fill(&mut entropy).ok().map(|()| entropy)
}

} // verus!

verus! {

/// Entropy in one opaque credential.
pub const CREDENTIAL_ENTROPY_BYTES: usize = 32;
/// Length of the canonical text of one opaque credential.
pub const CREDENTIAL_TEXT_BYTES: usize = 43;

/// The canonical text of an opaque credential: exactly the unpadded URL-safe
/// base64 text of 32 bytes, and nothing that merely decodes to them.
pub open spec fn canonical_credential(text: Seq<char>) -> bool {
    &&& encode_utf8(text).len() == CREDENTIAL_TEXT_BYTES
    &&& match base64_url_bytes(text) {
        Some(bytes) => bytes.len() == CREDENTIAL_ENTROPY_BYTES && base64_url_text(bytes) == text,
        None => false,
    }
}

/// The domain-separated digest of a credential's text.
pub open spec fn domain_digest(domain: Seq<char>, text: Seq<char>) -> Seq<u8> {
    sha256(encode_utf8(domain) + encode_utf8(text))
}

/// Whether two strings hold the same characters.
fn same_text(a: &str, b: &str) -> (r: bool)
    ensures
        r == (a@ == b@),
{
    let r = crate::bytes::bytes_equal(a.as_bytes(), b.as_bytes());
    proof {
        vstd::utf8::encode_utf8_decode_utf8(a@);
        vstd::utf8::encode_utf8_decode_utf8(b@);
    }
    r
}

/// Whether the text is the canonical text of some 32 bytes.
fn is_canonical_credential(text: &str) -> (r: bool)
    ensures
        r == canonical_credential(text@),
{
    if text.as_bytes().len() != CREDENTIAL_TEXT_BYTES {
        return false;
    }
    let decoded = match decode_url_safe(text) {
        Some(decoded) => decoded,
        None => return false,
    };
    if decoded.len() != CREDENTIAL_ENTROPY_BYTES {
        return false;
    }
    let reencoded = encode_url_safe(decoded.as_slice());
    let reencoded_text = reencoded.as_str();
    assert(reencoded_text@ == reencoded@);
    same_text(reencoded_text, text)
}

/// SHA-256 over the domain followed by the text.
fn digest_with_domain(domain: &str, text: &str) -> (digest: [u8; 32])
    ensures
        digest@ == domain_digest(domain@, text@),
{
    let mut input: Vec<u8> = Vec::new();
    let d = domain.as_bytes();
    let t = text.as_bytes();
    let mut i: usize = 0;
    while i < d.len()
        invariant
            i <= d@.len(),
            input@ == d@.subrange(0, i as int),
        decreases d@.len() - i,
    {
        input.push(d[i]);
        i = i + 1;
    }
    let mut j: usize = 0;
    while j < t.len()
        invariant
            i == d@.len(),
            j <= t@.len(),
            input@ == d@.subrange(0, i as int) + t@.subrange(0, j as int),
        decreases t@.len() - j,
    {
        input.push(t[j]);
        j = j + 1;
        proof {
            assert(input@ =~= d@.subrange(0, i as int) + t@.subrange(0, j as int));
        }
    }
    proof {
        assert(d@.subrange(0, i as int) =~= d@);
        assert(t@.subrange(0, j as int) =~= t@);
    }
    sha256_digest(input.as_slice())
}

/// Compares two digests without an early exit.
pub(crate) fn digests_equal(stored: &[u8; 32], submitted: &[u8; 32]) -> (equal: bool)
    ensures
        equal == (stored@ == submitted@),
{
    let mut difference: u8 = 0;
    let mut i: usize = 0;
    while i < 32
        invariant
            i <= 32,
            stored@.len() == 32,
            submitted@.len() == 32,
            (difference == 0) <==> (forall|k: int| 0 <= k < i ==> stored@[k] == submitted@[k]),
        decreases 32 - i,
    {
        let x = stored[i];
        let y = submitted[i];
        let d = difference;
        assert(((d | (x ^ y)) == 0u8) <==> (d == 0u8 && x == y)) by (bit_vector);
        difference = d | (x ^ y);
        proof {
            assert(stored@[i as int] == x && submitted@[i as int] == y);
        }
        i = i + 1;
    }
    proof {
        if difference == 0 {
            assert(stored@ =~= submitted@);
        }
    }
    difference == 0
}

/// The action families a step-up ticket may be digested for.
#[derive(Clone, Copy, Debug, PartialEq, Eq, Structural)]
pub enum StepUpActionFamily {
    MfaPolicy,
    GrantMutation,
}

pub open spec fn step_up_domain(family: StepUpActionFamily) -> Seq<char> {
    match family {
        StepUpActionFamily::MfaPolicy => "weavelit.administration.mfa-policy-step-up-ticket.v1"@,
        StepUpActionFamily::GrantMutation => "weavelit.administration.grant-mutation-step-up-ticket.v1"@,
    }
}

fn step_up_domain_text(family: StepUpActionFamily) -> (domain: &'static str)
    ensures
        domain@ == step_up_domain(family),
{
    match family {
        StepUpActionFamily::MfaPolicy => "weavelit.administration.mfa-policy-step-up-ticket.v1",
        StepUpActionFamily::GrantMutation => "weavelit.administration.grant-mutation-step-up-ticket.v1",
    }
}

/// One opaque reusable bearer returned after a current-session TOTP step-up.
pub struct MfaPolicyStepUpTicket {
    text: SecretText,
}

impl View for MfaPolicyStepUpTicket {
    type V = Seq<char>;

    closed spec fn view(&self) -> Seq<char> {
        sealed_text(self.text)
    }
}

impl MfaPolicyStepUpTicket {
    /// The only rendering of this value: its type name, redacted.
    pub fn debug_text(&self) -> (text: &'static str)
        ensures
            text@ == "MfaPolicyStepUpTicket(REDACTED)"@,
    {
        "MfaPolicyStepUpTicket(REDACTED)"
    }

    /// Mints a ticket from operating-system entropy; `None` when none is available.
    pub fn generate() -> (ticket: Option<Self>)
        ensures
            ticket matches Some(t) ==> canonical_credential(t@),
    {
        let entropy = random_entropy()?;
        Some(Self::from_zeroizing_entropy(seal_entropy(entropy)))
    }

    /// Mints the ticket whose text encodes the given entropy.
    pub fn from_zeroizing_entropy(entropy: SecretEntropy) -> (ticket: Self)
        ensures
            ticket@ == base64_url_text(sealed_entropy(entropy)),
            canonical_credential(ticket@),
    {
        let bytes = unsealed_entropy(&entropy);
        let text = encode_url_safe(bytes.as_slice());
        proof {
            lemma_encoded_entropy_is_canonical(bytes@);
        }
        Self { text: seal_text(text) }
    }

    /// Returns the value for the single response that delivers it.
    pub fn as_str(&self) -> (text: &str)
        ensures
            text@ == self@,
    {
        unsealed_text(&self.text)
    }

    /// The digest retained in place of the ticket for one action family.
    pub fn digest(&self, family: StepUpActionFamily) -> (digest: MfaPolicyStepUpTicketDigest)
        ensures
            digest@ == domain_digest(step_up_domain(family), self@),
    {
        MfaPolicyStepUpTicketDigest(digest_with_domain(step_up_domain_text(family), self.as_str()))
    }
}

/// Domain-separated digest retained instead of an MFA policy ticket.
#[derive(Clone, Copy)]
pub struct MfaPolicyStepUpTicketDigest(pub [u8; 32]);

impl View for MfaPolicyStepUpTicketDigest {
    type V = Seq<u8>;

    open spec fn view(&self) -> Seq<u8> {
        self.0@
    }
}

impl MfaPolicyStepUpTicketDigest {
    /// The only rendering of this value: its type name, redacted.
    pub fn debug_text(&self) -> (text: &'static str)
        ensures
            text@ == "MfaPolicyStepUpTicketDigest(REDACTED)"@,
    {
        "MfaPolicyStepUpTicketDigest(REDACTED)"
    }

    /// The digest of a submitted ticket, when the ticket is canonical.
    pub fn of_canonical(ticket: &str, family: StepUpActionFamily) -> (digest: Option<Self>)
        ensures
            digest is Some <==> canonical_credential(ticket@),
            digest matches Some(d) ==> d@ == domain_digest(step_up_domain(family), ticket@),
    {
        if !is_canonical_credential(ticket) {
            return None;
        }
        Some(Self(digest_with_domain(step_up_domain_text(family), ticket)))
    }

    /// Compares two digests in time independent of where they differ.
    pub fn matches(&self, other: &Self) -> (equal: bool)
        ensures
            equal == (self@ == other@),
    {
        digests_equal(&self.0, &other.0)
    }
}

pub open spec fn totp_preview_domain() -> Seq<char> {
    "weavelit.administration.totp-enablement-preview.v1"@
}

/// Opaque process-memory credential for one TOTP enablement preview.
pub struct TotpEnablementPreviewCredential {
    text: SecretText,
}

impl View for TotpEnablementPreviewCredential {
    type V = Seq<char>;

    closed spec fn view(&self) -> Seq<char> {
        sealed_text(self.text)
    }
}

impl TotpEnablementPreviewCredential {
    /// The only rendering of this value: its type name, redacted.
    pub fn debug_text(&self) -> (text: &'static str)
        ensures
            text@ == "TotpEnablementPreviewCredential(REDACTED)"@,
    {
        "TotpEnablementPreviewCredential(REDACTED)"
    }

    /// Mints a preview credential from operating-system entropy.
    pub fn generate() -> (preview: Option<Self>)
        ensures
            preview matches Some(p) ==> canonical_credential(p@),
    {
        let entropy = random_entropy()?;
        Some(Self::from_zeroizing_entropy(seal_entropy(entropy)))
    }

    /// Mints the preview whose text encodes the given entropy.
    pub fn from_zeroizing_entropy(entropy: SecretEntropy) -> (preview: Self)
        ensures
            preview@ == base64_url_text(sealed_entropy(entropy)),
            canonical_credential(preview@),
    {
        let bytes = unsealed_entropy(&entropy);
        let text = encode_url_safe(bytes.as_slice());
        proof {
            lemma_encoded_entropy_is_canonical(bytes@);
        }
        Self { text: seal_text(text) }
    }

    /// Returns the value for the single response that delivers it.
    pub fn as_str(&self) -> (text: &str)
        ensures
            text@ == self@,
    {
        unsealed_text(&self.text)
    }

    /// The digest retained in place of the preview.
    pub fn digest(&self) -> (digest: TotpEnablementPreviewDigest)
        ensures
            digest@ == domain_digest(totp_preview_domain(), self@),
    {
        TotpEnablementPreviewDigest(digest_with_domain("weavelit.administration.totp-enablement-preview.v1", self.as_str()))
    }
}

/// Domain-separated digest retained instead of a TOTP enablement preview.
#[derive(Clone, Copy)]
pub struct TotpEnablementPreviewDigest(pub [u8; 32]);

impl View for TotpEnablementPreviewDigest {
    type V = Seq<u8>;

    open spec fn view(&self) -> Seq<u8> {
        self.0@
    }
}

impl TotpEnablementPreviewDigest {
    /// The only rendering of this value: its type name, redacted.
    pub fn debug_text(&self) -> (text: &'static str)
        ensures
            text@ == "TotpEnablementPreviewDigest(REDACTED)"@,
    {
        "TotpEnablementPreviewDigest(REDACTED)"
    }

    /// The digest of a submitted preview, when the preview is canonical.
    pub fn of_canonical(preview: &str) -> (digest: Option<Self>)
        ensures
            digest is Some <==> canonical_credential(preview@),
            digest matches Some(d) ==> d@ == domain_digest(totp_preview_domain(), preview@),
    {
        if !is_canonical_credential(preview) {
            return None;
        }
        Some(Self(digest_with_domain("weavelit.administration.totp-enablement-preview.v1", preview)))
    }

    /// Compares two digests in time independent of where they differ.
    pub fn matches(&self, other: &Self) -> (equal: bool)
        ensures
            equal == (self@ == other@),
    {
        digests_equal(&self.0, &other.0)
    }
}

pub open spec fn reconciliation_domain() -> Seq<char> {
    "weavelit.lifecycle.reconciliation.v1"@
}

/// Digest of a lifecycle reconciliation capability that may be retained durably.
#[derive(Clone, Copy)]
pub struct ReconciliationDigest(pub [u8; 32]);

impl View for ReconciliationDigest {
    type V = Seq<u8>;

    open spec fn view(&self) -> Seq<u8> {
        self.0@
    }
}

impl ReconciliationDigest {
    /// Wraps a digest's bytes.
    pub fn from_bytes(bytes: [u8; 32]) -> (digest: Self)
        ensures
            digest@ == bytes@,
    {
        ReconciliationDigest(bytes)
    }

    /// Compares two digests in time independent of where they differ.
    pub fn matches(&self, other: &Self) -> (equal: bool)
        ensures
            equal == (self@ == other@),
    {
        digests_equal(&self.0, &other.0)
    }
}

/// A browser-held bearer capability that proves which lifecycle submission
/// completed. The raw value is never persisted and clears when dropped.
pub struct ReconciliationCapability {
    text: SecretText,
}

impl View for ReconciliationCapability {
    type V = Seq<char>;

    closed spec fn view(&self) -> Seq<char> {
        sealed_text(self.text)
    }
}

impl ReconciliationCapability {
    /// Mints a capability from protected entropy supplied by the caller.
    pub fn from_zeroizing_entropy(entropy: SecretEntropy) -> (capability: Self)
        ensures
            capability@ == base64_url_text(sealed_entropy(entropy)),
            canonical_credential(capability@),
    {
        let bytes = unsealed_entropy(&entropy);
        let text = encode_url_safe(bytes.as_slice());
        proof {
            lemma_encoded_entropy_is_canonical(bytes@);
        }
        Self { text: seal_text(text) }
    }

    /// Takes ownership of one capability submitted through the Client Module.
    pub fn from_submitted(text: SecretText) -> (capability: Self)
        ensures
            capability@ == sealed_text(text),
    {
        Self { text }
    }

    /// Returns the value for the single response that delivers it.
    pub fn as_str(&self) -> (text: &str)
        ensures
            text@ == self@,
    {
        unsealed_text(&self.text)
    }

    /// Returns the domain-separated digest that may be retained durably.
    pub fn digest(&self) -> (digest: ReconciliationDigest)
        ensures
            digest@ == domain_digest(reconciliation_domain(), self@),
    {
        ReconciliationDigest(digest_with_domain("weavelit.lifecycle.reconciliation.v1", self.as_str()))
    }
}

/// The text minted from any 32 bytes of entropy is canonical: it has the
/// canonical length, and it decodes back to exactly those bytes.
proof fn lemma_encoded_entropy_is_canonical(entropy: Seq<u8>)
    requires
        entropy.len() == CREDENTIAL_ENTROPY_BYTES,
        base64_url_text(entropy).len() == unpadded_len(entropy.len()),
        vstd::utf8::is_ascii_chars(base64_url_text(entropy)),
        base64_url_bytes(base64_url_text(entropy)) == Some(entropy),
    ensures
        canonical_credential(base64_url_text(entropy)),
{
    vstd::utf8::is_ascii_chars_encode_utf8(base64_url_text(entropy));
}

} // verus!
