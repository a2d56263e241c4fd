//! The peek sniffer: classifying the packaging format of a stream from the
//! magic bytes at the start of its retained peek window.

use vstd::prelude::*;

use crate::stream::peek_seq;
use crate::stream::peek;
use crate::RemotePackageType;

verus! {

/// A buffer carries the Debian package signature: it is longer than 20 bytes
/// and starts with the ar container magic `!<arch>\n` followed by the member
/// name `debian-binary`.
pub open spec fn deb_signature(b: Seq<u8>) -> bool {
    &&& b.len() > 20
    &&& b[0] == 0x21u8
    &&& b[1] == 0x3cu8
    &&& b[2] == 0x61u8
    &&& b[3] == 0x72u8
    &&& b[4] == 0x63u8
    &&& b[5] == 0x68u8
    &&& b[6] == 0x3eu8
    &&& b[7] == 0x0au8
    &&& b[8] == 0x64u8
    &&& b[9] == 0x65u8
    &&& b[10] == 0x62u8
    &&& b[11] == 0x69u8
    &&& b[12] == 0x61u8
    &&& b[13] == 0x6eu8
    &&& b[14] == 0x2du8
    &&& b[15] == 0x62u8
    &&& b[16] == 0x69u8
    &&& b[17] == 0x6eu8
    &&& b[18] == 0x61u8
    &&& b[19] == 0x72u8
    &&& b[20] == 0x79u8
}

/// A buffer carries the RPM package signature: it is longer than 96 bytes
/// (the size of the RPM lead) and starts with the lead magic.
pub open spec fn rpm_signature(b: Seq<u8>) -> bool {
    &&& b.len() > 96
    &&& b[0] == 0xedu8
    &&& b[1] == 0xabu8
    &&& b[2] == 0xeeu8
    &&& b[3] == 0xdbu8
}

/// What the sniffer concludes from a peek window: a recognized format, the
/// Debian signature taking precedence, or nothing.
pub open spec fn classify_spec(b: Seq<u8>) -> Option<RemotePackageType> {
    if deb_signature(b) {
        Some(RemotePackageType::Deb)
    } else if rpm_signature(b) {
        Some(RemotePackageType::Rpm)
    } else {
        None
    }
}

/// The file-type extension that signature matching over the full fixed table
/// of known file types assigns to a buffer, if any; a pure function of the
/// bytes alone. Used only as a descriptive hint in error reports.
pub uninterp spec fn extension_hint(b: Seq<u8>) -> Option<Seq<char>>;

/// Relies on `infer::archive::is_deb`: its source returns true exactly when
/// the buffer is longer than 20 bytes and holds `!<arch>\ndebian-binary` at
/// the start.
#[verifier::external_body]
fn infer_is_deb(buf: &Vec<u8>) -> (r: bool)
    ensures
        r == deb_signature(buf@),
{
    infer::archive::is_deb(buf)
}

/// Relies on `infer::archive::is_rpm`: its source returns true exactly when
/// the buffer is longer than 96 bytes and starts with `ED AB EE DB`.
#[verifier::external_body]
fn infer_is_rpm(buf: &Vec<u8>) -> (r: bool)
    ensures
        r == rpm_signature(buf@),
{
    infer::archive::is_rpm(buf)
}

/// Relies on `infer::get` and `infer::Type::extension`: `get` matches the
/// buffer against a fixed table of signature matchers and returns the first
/// hit, so the reported extension depends on the bytes alone.
#[verifier::external_body]
fn infer_extension(buf: &Vec<u8>) -> (r: Option<String>)
    ensures
        r.deep_view() == extension_hint(buf@),
{
    infer::get(buf).map(|t| t.extension().to_string())
}

/// What one sniff of a stream yields: the detected format, if any, and the
/// preserved prefix bytes, kept so that the stream can be reconstructed.
pub struct SniffResult {
    /// The format whose signature the peek window matched, if any.
    pub format: Option<RemotePackageType>,
    /// The bytes that were consumed from the source while peeking.
    pub prefix: Vec<u8>,
}

/// Classify a peek window by signature matching.
pub fn classify(prefix: &Vec<u8>) -> (r: Option<RemotePackageType>)
    ensures
        r == classify_spec(prefix@),
{
    if infer_is_deb(prefix) {
        Some(RemotePackageType::Deb)
    } else if infer_is_rpm(prefix) {
        Some(RemotePackageType::Rpm)
    } else {
        None
    }
}

/// Read a window of up to `k` bytes from the head of the stream, retaining
/// whatever was actually there, and classify its format by signature
/// matching.
pub fn sniff(data: &Vec<u8>, k: usize) -> (r: SniffResult)
    ensures
        r.prefix@ == peek_seq(data@, k as int),
        r.format == classify_spec(r.prefix@),
{
    let prefix = peek(data, k);
    let format = classify(&prefix);
    SniffResult { format, prefix }
}

/// The descriptive hint attached to an unknown-package report: the sniffed
/// file-type extension where one is known, and a generic marker otherwise.
pub fn format_hint(prefix: &Vec<u8>) -> (h: String)
    ensures
        match extension_hint(prefix@) {
            Some(x) => h@ == x,
            None => h@ == "unknown"@,
        },
{
    match infer_extension(prefix) {
        Some(s) => s,
        None => "unknown".to_string(),
    }
}

} // verus!
