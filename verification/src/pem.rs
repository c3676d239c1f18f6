//! Screening of trusted host TLS material: the PEM envelope, the path and
//! file metadata the material must have, and the sections it may contain.
use vstd::prelude::*;
use crate::bytes::{bytes_equal, starts_with, ends_with};
use crate::startup::StartupError;
use rustls::pki_types::pem::{PemObject, SectionKind};

verus! {

pub open spec fn begin_marker() -> Seq<u8> {
    // "-----BEGIN "
    seq![45u8, 45u8, 45u8, 45u8, 45u8, 66u8, 69u8, 71u8, 73u8, 78u8, 32u8]
}

pub open spec fn end_marker() -> Seq<u8> {
    // "-----END "
    seq![45u8, 45u8, 45u8, 45u8, 45u8, 69u8, 78u8, 68u8, 32u8]
}

pub open spec fn dashes() -> Seq<u8> {
    seq![45u8, 45u8, 45u8, 45u8, 45u8]
}

/// The label of a `-----BEGIN <label>-----` line with a nonempty label.
pub open spec fn begin_label(line: Seq<u8>) -> Option<Seq<u8>> {
    if starts_with(line, begin_marker()) {
        let rest = line.subrange(11, line.len() as int);
        if ends_with(rest, dashes()) && rest.len() - 5 > 0 {
            Some(rest.subrange(0, rest.len() - 5))
        } else {
            None
        }
    } else {
        None
    }
}

/// The label of an `-----END <label>-----` line.
pub open spec fn end_label(line: Seq<u8>) -> Option<Seq<u8>> {
    if starts_with(line, end_marker()) {
        let rest = line.subrange(9, line.len() as int);
        if ends_with(rest, dashes()) {
            Some(rest.subrange(0, rest.len() - 5))
        } else {
            None
        }
    } else {
        None
    }
}

fn has_marker(line: &[u8], marker: &[u8], at_end: bool) -> (r: bool)
    ensures
        r == (if at_end { ends_with(line@, marker@) } else { starts_with(line@, marker@) }),
{
    if line.len() < marker.len() {
        return false;
    }
    let start = if at_end { line.len() - marker.len() } else { 0 };
    let part = vstd::slice::slice_subrange(line, start, start + marker.len());
    let r = bytes_equal(part, marker);
    proof {
        if at_end {
            assert(part@ == line@.subrange(line@.len() - marker@.len(), line@.len() as int));
        } else {
            assert(part@ == line@.subrange(0, marker@.len() as int));
        }
    }
    r
}

/// The label of a `-----BEGIN <label>-----` line, when it has one.
pub fn pem_begin_label(line: &[u8]) -> (label: Option<&[u8]>)
    ensures
        match label {
            Some(l) => begin_label(line@) == Some(l@),
            None => begin_label(line@) is None,
        },
{
    let begin: [u8; 11] = [45, 45, 45, 45, 45, 66, 69, 71, 73, 78, 32];
    let dash: [u8; 5] = [45, 45, 45, 45, 45];
    proof {
        assert(begin@ =~= begin_marker());
        assert(dash@ =~= dashes());
    }
    if !has_marker(line, begin.as_slice(), false) {
        return None;
    }
    let rest = vstd::slice::slice_subrange(line, 11, line.len());
    if !has_marker(rest, dash.as_slice(), true) || rest.len() - 5 == 0 {
        return None;
    }
    Some(vstd::slice::slice_subrange(rest, 0, rest.len() - 5))
}

/// The label of an `-----END <label>-----` line, when it has one.
pub fn pem_end_label(line: &[u8]) -> (label: Option<&[u8]>)
    ensures
        match label {
            Some(l) => end_label(line@) == Some(l@),
            None => end_label(line@) is None,
        },
{
    let end: [u8; 9] = [45, 45, 45, 45, 45, 69, 78, 68, 32];
    let dash: [u8; 5] = [45, 45, 45, 45, 45];
    proof {
        assert(end@ =~= end_marker());
        assert(dash@ =~= dashes());
    }
    if !has_marker(line, end.as_slice(), false) {
        return None;
    }
    let rest = vstd::slice::slice_subrange(line, 9, line.len());
    if !has_marker(rest, dash.as_slice(), true) {
        return None;
    }
    Some(vstd::slice::slice_subrange(rest, 0, rest.len() - 5))
}

/// Line separators of a PEM file.
pub open spec fn is_line_break(b: u8) -> bool {
    b == 13 || b == 10
}

/// Where the envelope scan stands after some bytes: the label whose END line
/// it awaits, the bytes of the current line, and whether a line was refused.
pub struct PemScan {
    pub expected: Option<Seq<u8>>,
    pub line: Seq<u8>,
    pub failed: bool,
}

/// The outcome of one complete line: the END label awaited afterwards, or a refusal.
pub open spec fn pem_line_step(expected: Option<Seq<u8>>, line: Seq<u8>, allowed: Seq<Seq<u8>>) -> Option<Option<Seq<u8>>> {
    match expected {
        Some(label) => {
            if end_label(line) == Some(label) {
                Some(None)
            } else {
                Some(Some(label))
            }
        },
        None => {
            if line.len() == 0 {
                Some(None)
            } else {
                match begin_label(line) {
                    None => None,
                    Some(label) => {
                        if allowed.contains(label) {
                            Some(Some(label))
                        } else {
                            None
                        }
                    },
                }
            }
        },
    }
}

/// The envelope scan after every byte of `bytes`.
pub open spec fn pem_scan(bytes: Seq<u8>, allowed: Seq<Seq<u8>>) -> PemScan
    decreases bytes.len(),
{
    if bytes.len() == 0 {
        PemScan { expected: None, line: Seq::empty(), failed: false }
    } else {
        let s = pem_scan(bytes.drop_last(), allowed);
        if s.failed {
            s
        } else if is_line_break(bytes.last()) {
            match pem_line_step(s.expected, s.line, allowed) {
                None => PemScan { expected: None, line: Seq::empty(), failed: true },
                Some(e) => PemScan { expected: e, line: Seq::empty(), failed: false },
            }
        } else {
            PemScan { expected: s.expected, line: s.line.push(bytes.last()), failed: false }
        }
    }
}

/// Whether the material is a sequence of complete BEGIN/END sections with
/// allowed labels, separated only by empty lines.
pub open spec fn pem_envelope_valid(bytes: Seq<u8>, allowed: Seq<Seq<u8>>) -> bool {
    let s = pem_scan(bytes, allowed);
    !s.failed && pem_line_step(s.expected, s.line, allowed) == Some(None::<Seq<u8>>)
}

pub open spec fn labels_view(allowed: Seq<&[u8]>) -> Seq<Seq<u8>> {
    Seq::new(allowed.len(), |i: int| allowed[i]@)
}

fn find_allowed<'a>(allowed: &[&'a [u8]], label: &[u8]) -> (found: Option<&'a [u8]>)
    ensures
        match found {
            Some(l) => l@ == label@ && labels_view(allowed@).contains(label@),
            None => !labels_view(allowed@).contains(label@),
        },
{
    let mut k: usize = 0;
    while k < allowed.len()
        invariant
            k <= allowed@.len(),
            forall|m: int| 0 <= m < k ==> (#[trigger] allowed@[m])@ != label@,
        decreases allowed@.len() - k,
    {
        if bytes_equal(allowed[k], label) {
            proof {
                assert(labels_view(allowed@)[k as int] == label@);
            }
            return Some(allowed[k]);
        }
        k = k + 1;
    }
    proof {
        if labels_view(allowed@).contains(label@) {
            let m = choose|m: int| 0 <= m < labels_view(allowed@).len() && labels_view(allowed@)[m] == label@;
            assert(allowed@[m]@ == label@);
        }
    }
    None
}

fn line_step<'a>(expected: Option<&'a [u8]>, line: &'a [u8], allowed: &[&'a [u8]]) -> (next: Result<Option<&'a [u8]>, StartupError>)
    ensures
        match next {
            Ok(Some(l)) => pem_line_step(option_label_view(expected), line@, labels_view(allowed@)) == Some(Some(l@)),
            Ok(None) => pem_line_step(option_label_view(expected), line@, labels_view(allowed@)) == Some(None::<Seq<u8>>),
            Err(err) => err == StartupError::TlsMaterialInvalid && pem_line_step(option_label_view(expected), line@, labels_view(allowed@)) is None,
        },
{
    match expected {
        Some(label) => {
            match pem_end_label(line) {
                Some(end) => {
                    if bytes_equal(end, label) {
                        proof {
                            assert(end_label(line@) == Some(label@));
                        }
                        return Ok(None);
                    }
                    proof {
                        assert(end_label(line@) != Some(label@));
                    }
                    Ok(Some(label))
                },
                None => {
                    proof {
                        assert(end_label(line@) != Some(label@));
                    }
                    Ok(Some(label))
                },
            }
        },
        None => {
            if line.len() == 0 {
                return Ok(None);
            }
            let label = match pem_begin_label(line) {
                Some(label) => label,
                None => return Err(StartupError::TlsMaterialInvalid),
            };
            match find_allowed(allowed, label) {
                Some(found) => Ok(Some(found)),
                None => Err(StartupError::TlsMaterialInvalid),
            }
        },
    }
}

pub open spec fn option_label_view(o: Option<&[u8]>) -> Option<Seq<u8>> {
    match o {
        Some(l) => Some(l@),
        None => None,
    }
}

/// Accepts only complete BEGIN/END sections whose labels are allowed.
pub fn validate_pem_envelope(bytes: &[u8], allowed_labels: &[&[u8]]) -> (r: Result<(), StartupError>)
    ensures
        r is Ok <==> pem_envelope_valid(bytes@, labels_view(allowed_labels@)),
        r matches Err(e) ==> e == StartupError::TlsMaterialInvalid,
{
    let ghost allowed = labels_view(allowed_labels@);
    let mut expected_end_label: Option<&[u8]> = None;
    let mut start: usize = 0;
    let mut i: usize = 0;
    proof {
        assert(bytes@.subrange(0, 0) =~= Seq::<u8>::empty());
    }
    while i < bytes.len()
        invariant
            start <= i <= bytes@.len(),
            allowed == labels_view(allowed_labels@),
            pem_scan(bytes@.subrange(0, i as int), allowed) == (PemScan {
                expected: option_label_view(expected_end_label),
                line: bytes@.subrange(start as int, i as int),
                failed: false,
            }),
        decreases bytes@.len() - i,
    {
        let ghost prefix = bytes@.subrange(0, i as int + 1);
        proof {
            assert(prefix.drop_last() =~= bytes@.subrange(0, i as int));
            assert(prefix.last() == bytes@[i as int]);
        }
        if bytes[i] == 13 || bytes[i] == 10 {
            let line = vstd::slice::slice_subrange(bytes, start, i);
            match line_step(expected_end_label, line, allowed_labels) {
                Ok(next) => {
                    expected_end_label = next;
                },
                Err(e) => {
                    proof {
                        lemma_pem_scan_failed_stays(bytes@, allowed, i as int + 1);
                    }
                    return Err(e);
                },
            }
            start = i + 1;
            proof {
                assert(bytes@.subrange(start as int, i as int + 1) =~= Seq::<u8>::empty());
            }
        } else {
            proof {
                assert(bytes@.subrange(start as int, i as int + 1) =~= bytes@.subrange(start as int, i as int).push(bytes@[i as int]));
            }
        }
        i = i + 1;
    }
    proof {
        assert(bytes@.subrange(0, bytes@.len() as int) =~= bytes@);
    }
    let last = vstd::slice::slice_subrange(bytes, start, bytes.len());
    match line_step(expected_end_label, last, allowed_labels) {
        Ok(None) => Ok(()),
        Ok(Some(_)) => Err(StartupError::TlsMaterialInvalid),
        Err(e) => Err(e),
    }
}

proof fn lemma_pem_scan_failed_stays(bytes: Seq<u8>, allowed: Seq<Seq<u8>>, k: int)
    requires
        0 <= k <= bytes.len(),
        pem_scan(bytes.subrange(0, k), allowed).failed,
    ensures
        pem_scan(bytes, allowed).failed,
    decreases bytes.len() - k,
{
    if k < bytes.len() {
        let t = bytes.subrange(0, k + 1);
        assert(t.drop_last() =~= bytes.subrange(0, k));
        lemma_pem_scan_failed_stays(bytes, allowed, k + 1);
    } else {
        assert(bytes.subrange(0, k) =~= bytes);
    }
}

} // verus!

verus! {

/// The bound on trusted TLS material, in bytes.
pub const MAX_TLS_MATERIAL_BYTES: u64 = 1024 * 1024;

/// The kinds of PEM section the listener distinguishes.
#[derive(Clone, Copy, Debug, PartialEq, Eq, Structural)]
pub enum PemSectionKind {
    Certificate,
    RsaPrivateKey,
    PrivateKey,
    EcPrivateKey,
    /// Any other section kind the PEM decoder recognizes.
    Other,
}

/// One decoded PEM section.
pub struct PemSection {
    pub kind: PemSectionKind,
    pub der: Vec<u8>,
}

impl View for PemSection {
    type V = (PemSectionKind, Seq<u8>);

    open spec fn view(&self) -> (PemSectionKind, Seq<u8>) {
        (self.kind, self.der@)
    }
}

pub open spec fn sections_view(sections: Seq<PemSection>) -> Seq<(PemSectionKind, Seq<u8>)> {
    Seq::new(sections.len(), |i: int| sections[i]@)
}

/// The sections `rustls_pki_types`' PEM iterator yields for the bytes, in
/// order, and whether it then reported an error.
pub uninterp spec fn decoded_pem_sections(bytes: Seq<u8>) -> (Seq<(PemSectionKind, Seq<u8>)>, bool);

/// Runs `<(SectionKind, Vec<u8>)>::pem_slice_iter` until it ends or reports
/// its first error. What it decodes is named, not stated.
#[verifier::external_body]
fn decode_pem_sections(bytes: &[u8]) -> (decoded: (Vec<PemSection>, bool))
    ensures
        (sections_view(decoded.0@), decoded.1) == decoded_pem_sections(bytes@),
{
    let mut sections = Vec::new();
    for item in <(SectionKind, Vec<u8>)>::pem_slice_iter(bytes) {
        let Ok((kind, der)) = item else { return (sections, true) };
        let kind = match kind {
            SectionKind::Certificate => PemSectionKind::Certificate,
            SectionKind::RsaPrivateKey => PemSectionKind::RsaPrivateKey,
            SectionKind::PrivateKey => PemSectionKind::PrivateKey,
            SectionKind::EcPrivateKey => PemSectionKind::EcPrivateKey,
            _ => PemSectionKind::Other,
        };
        sections.push(PemSection { kind, der });
    }
    (sections, false)
}

pub open spec fn certificate_label() -> Seq<u8> {
    // "CERTIFICATE"
    seq![67u8, 69u8, 82u8, 84u8, 73u8, 70u8, 73u8, 67u8, 65u8, 84u8, 69u8]
}

pub open spec fn private_key_labels() -> Seq<Seq<u8>> {
    // "RSA PRIVATE KEY", "PRIVATE KEY", "EC PRIVATE KEY"
    seq![
        seq![82u8, 83u8, 65u8, 32u8, 80u8, 82u8, 73u8, 86u8, 65u8, 84u8, 69u8, 32u8, 75u8, 69u8, 89u8],
        seq![80u8, 82u8, 73u8, 86u8, 65u8, 84u8, 69u8, 32u8, 75u8, 69u8, 89u8],
        seq![69u8, 67u8, 32u8, 80u8, 82u8, 73u8, 86u8, 65u8, 84u8, 69u8, 32u8, 75u8, 69u8, 89u8],
    ]
}

/// The DER certificates decoded sections hold: none unless decoding ended
/// without error and produced at least one section, all certificates.
pub open spec fn certificates_of(sections: Seq<(PemSectionKind, Seq<u8>)>, failed: bool) -> Option<Seq<Seq<u8>>> {
    if failed || sections.len() == 0
        || exists|i: int| 0 <= i < sections.len() && (#[trigger] sections[i]).0 != PemSectionKind::Certificate {
        None
    } else {
        Some(Seq::new(sections.len(), |i: int| sections[i].1))
    }
}

/// Whether certificate material is accepted, and the DER certificates it holds.
pub open spec fn certificates_from(bytes: Seq<u8>) -> Option<Seq<Seq<u8>>> {
    if !pem_envelope_valid(bytes, seq![certificate_label()]) {
        None
    } else {
        certificates_of(decoded_pem_sections(bytes).0, decoded_pem_sections(bytes).1)
    }
}

/// Parses the certificate chain out of trusted PEM material.
pub fn parse_certificates(bytes: &[u8]) -> (r: Result<Vec<Vec<u8>>, StartupError>)
    ensures
        match r {
            Ok(ders) => certificates_from(bytes@) == Some(Seq::new(ders@.len(), |i: int| ders@[i]@)),
            Err(e) => e == StartupError::TlsMaterialInvalid && certificates_from(bytes@) is None,
        },
{
    let label: [u8; 11] = [67, 69, 82, 84, 73, 70, 73, 67, 65, 84, 69];
    let allowed: [&[u8]; 1] = [label.as_slice()];
    proof {
        assert(labels_view(allowed@) =~= seq![certificate_label()]);
    }
    validate_pem_envelope(bytes, allowed.as_slice())?;
    certificates_from_sections(decode_pem_sections(bytes))
}

/// Takes the DER certificates out of decoded PEM sections and whether
/// decoding reported an error.
pub fn certificates_from_sections(decoded: (Vec<PemSection>, bool)) -> (r: Result<Vec<Vec<u8>>, StartupError>)
    ensures
        match r {
            Ok(ders) => certificates_of(sections_view(decoded.0@), decoded.1) == Some(Seq::new(ders@.len(), |i: int| ders@[i]@)),
            Err(e) => e == StartupError::TlsMaterialInvalid && certificates_of(sections_view(decoded.0@), decoded.1) is None,
        },
{
    let ghost views = sections_view(decoded.0@);
    let (sections, failed) = decoded;
    if failed {
        return Err(StartupError::TlsMaterialInvalid);
    }
    let mut certificates: Vec<Vec<u8>> = Vec::new();
    let mut i: usize = 0;
    while i < sections.len()
        invariant
            i <= sections@.len(),
            views == sections_view(sections@),
            views == sections_view(decoded.0@),
            certificates@.len() == i,
            forall|k: int| 0 <= k < i ==> (#[trigger] certificates@[k])@ == views[k].1,
            forall|k: int| 0 <= k < i ==> (#[trigger] views[k]).0 == PemSectionKind::Certificate,
        decreases sections@.len() - i,
    {
        let section = &sections[i];
        proof {
            assert(views[i as int] == section@);
        }
        match section.kind {
            PemSectionKind::Certificate => {
                let der = crate::bytes::copy_range(section.der.as_slice(), 0, section.der.len());
                proof {
                    assert(section.der@.subrange(0, section.der@.len() as int) =~= section.der@);
                }
                certificates.push(der);
            },
            _ => {
                proof {
                    assert(views[i as int].0 != PemSectionKind::Certificate);
                }
                return Err(StartupError::TlsMaterialInvalid);
            },
        }
        i = i + 1;
    }
    if certificates.len() == 0 {
        return Err(StartupError::TlsMaterialInvalid);
    }
    proof {
        assert(Seq::new(certificates@.len(), |k: int| certificates@[k]@) =~= Seq::new(views.len(), |k: int| views[k].1));
    }
    Ok(certificates)
}

} // verus!

verus! {

/// The encoding a private key is carried in.
#[derive(Clone, Copy, Debug, PartialEq, Eq, Structural)]
pub enum PrivateKeyFormat {
    /// `RSA PRIVATE KEY`
    Pkcs1,
    /// `PRIVATE KEY`
    Pkcs8,
    /// `EC PRIVATE KEY`
    Sec1,
}

/// A single private key and its encoding.
pub struct PrivateKeyMaterial {
    pub format: PrivateKeyFormat,
    pub der: Vec<u8>,
}

pub open spec fn key_format_of(kind: PemSectionKind) -> Option<PrivateKeyFormat> {
    match kind {
        PemSectionKind::RsaPrivateKey => Some(PrivateKeyFormat::Pkcs1),
        PemSectionKind::PrivateKey => Some(PrivateKeyFormat::Pkcs8),
        PemSectionKind::EcPrivateKey => Some(PrivateKeyFormat::Sec1),
        _ => None,
    }
}

/// The single private key decoded sections hold: decoding ended without
/// error and produced exactly one section, of a private-key kind.
pub open spec fn private_key_of(sections: Seq<(PemSectionKind, Seq<u8>)>, failed: bool) -> Option<(PrivateKeyFormat, Seq<u8>)> {
    if failed || sections.len() != 1 {
        None
    } else {
        match key_format_of(sections[0].0) {
            Some(format) => Some((format, sections[0].1)),
            None => None,
        }
    }
}

/// The single private key trusted key material holds, when it is accepted.
pub open spec fn private_key_from(bytes: Seq<u8>) -> Option<(PrivateKeyFormat, Seq<u8>)> {
    if !pem_envelope_valid(bytes, private_key_labels()) {
        None
    } else {
        private_key_of(decoded_pem_sections(bytes).0, decoded_pem_sections(bytes).1)
    }
}

/// Parses the one private key out of trusted PEM material.
pub fn parse_private_key(bytes: &[u8]) -> (r: Result<PrivateKeyMaterial, StartupError>)
    ensures
        match r {
            Ok(key) => private_key_from(bytes@) == Some((key.format, key.der@)),
            Err(e) => e == StartupError::TlsMaterialInvalid && private_key_from(bytes@) is None,
        },
{
    let rsa: [u8; 15] = [82, 83, 65, 32, 80, 82, 73, 86, 65, 84, 69, 32, 75, 69, 89];
    let pkcs8: [u8; 11] = [80, 82, 73, 86, 65, 84, 69, 32, 75, 69, 89];
    let ec: [u8; 14] = [69, 67, 32, 80, 82, 73, 86, 65, 84, 69, 32, 75, 69, 89];
    let allowed: [&[u8]; 3] = [rsa.as_slice(), pkcs8.as_slice(), ec.as_slice()];
    proof {
        assert(rsa@ =~= private_key_labels()[0]);
        assert(pkcs8@ =~= private_key_labels()[1]);
        assert(ec@ =~= private_key_labels()[2]);
        assert(labels_view(allowed@) =~= private_key_labels());
    }
    validate_pem_envelope(bytes, allowed.as_slice())?;
    private_key_from_sections(decode_pem_sections(bytes))
}

/// Takes the one private key out of decoded PEM sections and whether
/// decoding reported an error.
pub fn private_key_from_sections(decoded: (Vec<PemSection>, bool)) -> (r: Result<PrivateKeyMaterial, StartupError>)
    ensures
        match r {
            Ok(key) => private_key_of(sections_view(decoded.0@), decoded.1) == Some((key.format, key.der@)),
            Err(e) => e == StartupError::TlsMaterialInvalid && private_key_of(sections_view(decoded.0@), decoded.1) is None,
        },
{
    let ghost views = sections_view(decoded.0@);
    let (sections, failed) = decoded;
    if failed {
        return Err(StartupError::TlsMaterialInvalid);
    }
    // A first key whose kind is not a private key is refused before a second is looked at.
    if sections.len() == 0 {
        return Err(StartupError::TlsMaterialInvalid);
    }
    let format = match sections[0].kind {
        PemSectionKind::RsaPrivateKey => PrivateKeyFormat::Pkcs1,
        PemSectionKind::PrivateKey => PrivateKeyFormat::Pkcs8,
        PemSectionKind::EcPrivateKey => PrivateKeyFormat::Sec1,
        _ => {
            proof {
                assert(views[0] == sections@[0]@);
            }
            return Err(StartupError::TlsMaterialInvalid);
        },
    };
    if sections.len() != 1 {
        return Err(StartupError::TlsMaterialInvalid);
    }
    let der = crate::bytes::copy_range(sections[0].der.as_slice(), 0, sections[0].der.len());
    proof {
        assert(views[0] == sections@[0]@);
        assert(sections@[0].der@.subrange(0, sections@[0].der@.len() as int) =~= sections@[0].der@);
    }
    Ok(PrivateKeyMaterial { format, der })
}

/// Whether a path component is `.` or `..`.
pub open spec fn is_dot_component(c: Seq<u8>) -> bool {
    c == seq![46u8] || c == seq![46u8, 46u8]
}

/// The `/`-separated components of a path, empty ones included.
pub open spec fn slash_components(path: Seq<u8>) -> Seq<Seq<u8>>
    decreases path.len(),
{
    if path.len() == 0 {
        seq![Seq::empty()]
    } else {
        let prefix = slash_components(path.drop_last());
        if path.last() == 47 {
            prefix.push(Seq::empty())
        } else {
            prefix.update(prefix.len() - 1, prefix.last().push(path.last()))
        }
    }
}

proof fn lemma_slash_components_nonempty(path: Seq<u8>)
    ensures
        slash_components(path).len() >= 1,
    decreases path.len(),
{
    if path.len() > 0 {
        lemma_slash_components_nonempty(path.drop_last());
    }
}

/// The nonempty components, in order.
pub open spec fn nonempty_names(components: Seq<Seq<u8>>) -> Seq<Seq<u8>>
    decreases components.len(),
{
    if components.len() == 0 {
        Seq::empty()
    } else {
        let prefix = nonempty_names(components.drop_last());
        if components.last().len() > 0 {
            prefix.push(components.last())
        } else {
            prefix
        }
    }
}

/// The directories and final name trusted material is opened through: the
/// path is absolute, names no `.` or `..` component, and has a final name.
pub open spec fn material_path(path: Seq<u8>) -> Option<(Seq<Seq<u8>>, Seq<u8>)> {
    let components = slash_components(path);
    let names = nonempty_names(components);
    if exists|i: int| 0 <= i < components.len() && is_dot_component(#[trigger] components[i]) {
        None
    } else if path.len() == 0 || path[0] != 47 || names.len() == 0 {
        None
    } else {
        Some((names.drop_last(), names.last()))
    }
}

/// Whether opened material has the shape trusted TLS material must have: a
/// regular file with one link, writable by neither group nor others, a
/// private key readable by no one else, and a nonempty length within the bound.
pub open spec fn material_metadata_ok(is_file: bool, links: u64, mode: u32, private_key: bool, length: u64) -> bool {
    &&& is_file
    &&& links == 1
    &&& mode & 0o022u32 == 0
    &&& (!private_key || mode & 0o007u32 == 0)
    &&& length != 0
    &&& length <= MAX_TLS_MATERIAL_BYTES
}

/// Screens the metadata of opened TLS material.
pub fn check_material_metadata(is_file: bool, links: u64, mode: u32, private_key: bool, length: u64) -> (r: Result<(), StartupError>)
    ensures
        r is Ok <==> material_metadata_ok(is_file, links, mode, private_key, length),
        r matches Err(e) ==> e == StartupError::TlsMaterialInvalid,
{
    if !is_file || links != 1 || mode & 0o022 != 0 || (private_key && mode & 0o007 != 0) || length == 0
        || length > MAX_TLS_MATERIAL_BYTES {
        return Err(StartupError::TlsMaterialInvalid);
    }
    Ok(())
}

/// Screens the bytes read from TLS material, read up to one byte past the
/// bound: they are accepted when nonempty and within the bound.
pub fn read_tls_material(read: Vec<u8>) -> (r: Result<Vec<u8>, StartupError>)
    ensures
        match r {
            Ok(bytes) => bytes@ == read@ && read@.len() != 0 && read@.len() <= MAX_TLS_MATERIAL_BYTES,
            Err(e) => e == StartupError::TlsMaterialInvalid
                && (read@.len() == 0 || read@.len() > MAX_TLS_MATERIAL_BYTES),
        },
{
    if read.len() == 0 || read.len() as u64 > MAX_TLS_MATERIAL_BYTES {
        return Err(StartupError::TlsMaterialInvalid);
    }
    Ok(read)
}

} // verus!

verus! {

pub open spec fn nested_view(v: Seq<Vec<u8>>) -> Seq<Seq<u8>> {
    Seq::new(v.len(), |i: int| v[i]@)
}

fn is_dot(c: &[u8]) -> (r: bool)
    ensures
        r == is_dot_component(c@),
{
    let r = (c.len() == 1 && c[0] == 46) || (c.len() == 2 && c[0] == 46 && c[1] == 46);
    proof {
        if c@ == seq![46u8] {
            assert(c@[0] == 46);
        }
        if c@ == seq![46u8, 46u8] {
            assert(c@[0] == 46 && c@[1] == 46);
        }
        if c@.len() == 1 && c@[0] == 46 {
            assert(c@ =~= seq![46u8]);
        }
        if c@.len() == 2 && c@[0] == 46 && c@[1] == 46 {
            assert(c@ =~= seq![46u8, 46u8]);
        }
    }
    r
}

/// Splits a trusted material path into the directories it is opened through
/// and its final name.
pub fn material_path_names(path: &[u8]) -> (r: Result<(Vec<Vec<u8>>, Vec<u8>), StartupError>)
    ensures
        match r {
            Ok((dirs, name)) => material_path(path@) == Some((nested_view(dirs@), name@)),
            Err(e) => e == StartupError::TlsMaterialInvalid && material_path(path@) is None,
        },
{
    // Every component, empty ones included.
    let mut done: Vec<Vec<u8>> = Vec::new();
    let mut current: Vec<u8> = Vec::new();
    let mut i: usize = 0;
    proof {
        assert(path@.subrange(0, 0) =~= Seq::<u8>::empty());
        assert(nested_view(done@).push(current@) =~= seq![Seq::<u8>::empty()]);
    }
    while i < path.len()
        invariant
            i <= path@.len(),
            slash_components(path@.subrange(0, i as int)) == nested_view(done@).push(current@),
        decreases path@.len() - i,
    {
        let ghost prefix = path@.subrange(0, i as int + 1);
        let ghost before = nested_view(done@).push(current@);
        proof {
            assert(prefix.drop_last() =~= path@.subrange(0, i as int));
        }
        if path[i] == 47 {
            done.push(current);
            current = Vec::new();
            proof {
                assert(nested_view(done@).push(current@) =~= before.push(Seq::empty()));
            }
        } else {
            current.push(path[i]);
            proof {
                assert(nested_view(done@).push(current@) =~= before.update(before.len() - 1, before.last().push(path@[i as int])));
            }
        }
        i = i + 1;
    }
    proof {
        assert(path@.subrange(0, path@.len() as int) =~= path@);
    }
    done.push(current);
    let ghost components = nested_view(done@);
    assert(components == slash_components(path@));
    // No `.` or `..` component anywhere.
    let mut k: usize = 0;
    while k < done.len()
        invariant
            k <= done@.len(),
            components == nested_view(done@),
            components == slash_components(path@),
            forall|m: int| 0 <= m < k ==> !is_dot_component(#[trigger] components[m]),
        decreases done@.len() - k,
    {
        if is_dot(done[k].as_slice()) {
            proof {
                assert(is_dot_component(components[k as int]));
            }
            return Err(StartupError::TlsMaterialInvalid);
        }
        k = k + 1;
    }
    if path.len() == 0 || path[0] != 47 {
        return Err(StartupError::TlsMaterialInvalid);
    }
    // The nonempty components, in order.
    let mut names: Vec<Vec<u8>> = Vec::new();
    let mut j: usize = 0;
    while j < done.len()
        invariant
            j <= done@.len(),
            components == nested_view(done@),
            components == slash_components(path@),
            forall|m: int| 0 <= m < components.len() ==> !is_dot_component(#[trigger] components[m]),
            path@.len() > 0 && path@[0] == 47,
            nested_view(names@) == nonempty_names(components.subrange(0, j as int)),
        decreases done@.len() - j,
    {
        let ghost upto = components.subrange(0, j as int + 1);
        proof {
            assert(upto.drop_last() =~= components.subrange(0, j as int));
            assert(upto.last() == done@[j as int]@);
        }
        if done[j].len() > 0 {
            let copy = crate::bytes::copy_range(done[j].as_slice(), 0, done[j].len());
            let ghost before = nested_view(names@);
            proof {
                assert(done@[j as int]@.subrange(0, done@[j as int]@.len() as int) =~= done@[j as int]@);
            }
            names.push(copy);
            proof {
                assert(nested_view(names@) =~= before.push(copy@));
            }
        }
        j = j + 1;
    }
    proof {
        assert(components.subrange(0, done@.len() as int) =~= components);
    }
    let name = match names.pop() {
        Some(name) => name,
        None => return Err(StartupError::TlsMaterialInvalid),
    };
    proof {
        let all = nonempty_names(components);
        assert(nested_view(names@) =~= all.drop_last());
    }
    Ok((names, name))
}

} // verus!
