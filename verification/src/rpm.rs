//! Support for remote RPM packages: the header-field metadata adapter.

use vstd::prelude::*;

use crate::PkgError;
use crate::RemotePackageType;

verus! {

/// The value of the four-byte big-endian word at `p`.
pub open spec fn be32(b: Seq<u8>, p: int) -> int {
    (b[p] as int) * 0x1000000 + (b[p + 1] as int) * 0x10000 + (b[p + 2] as int) * 0x100 + (b[p
        + 3] as int)
}

/// The number of zero bytes in a sequence.
pub open spec fn count_zeros(s: Seq<u8>) -> int
    decreases s.len(),
{
    if s.len() == 0 {
        0
    } else {
        count_zeros(s.drop_last()) + if s.last() == 0 {
            1int
        } else {
            0int
        }
    }
}

/// The data type word of index entry `i` of the header section at `p`.
pub open spec fn rpm_entry_type(b: Seq<u8>, p: int, i: int) -> int {
    be32(b, p + 16 + 16 * i + 4)
}

/// Every index entry of the header section at `p` carries one of the data
/// types the header reader knows; on the first unknown type the reader
/// stops with an error before it touches the store.
pub open spec fn rpm_types_known(b: Seq<u8>, p: int) -> bool {
    forall|i: int| 0 <= i < be32(b, p + 8) ==> #[trigger] rpm_entry_type(b, p, i) <= 9
}

/// Index entry `i` of the header section at `p` can be resolved against the
/// store without the header reader running out of bounds: its offset is a
/// non-negative position inside the store, a string-array entry finds one
/// terminator per item, and an i18n-string entry cannot demand more items
/// than the store tail could carry.
pub open spec fn rpm_entry_ok(b: Seq<u8>, p: int, i: int) -> bool {
    let ne = be32(b, p + 8);
    let hs = be32(b, p + 12);
    let e = p + 16 + 16 * i;
    let store = p + 16 + 16 * ne;
    let ty = be32(b, e + 4);
    let off = be32(b, e + 8);
    let cnt = be32(b, e + 12);
    &&& off < 0x80000000
    &&& off <= hs
    &&& (ty == 8 ==> count_zeros(b.subrange(store + off, store + hs)) >= cnt)
    &&& (ty == 9 ==> cnt <= hs - off + 1)
}

/// The header section at `p` completes its structural parse: the fixed part
/// is present with the right magic and version, the entry and store sizes
/// neither overflow the reader's 32-bit arithmetic nor run past the stream,
/// and every entry type is known.
pub open spec fn rpm_header_advances(b: Seq<u8>, p: int) -> bool {
    &&& p + 16 <= b.len()
    &&& b[p] == 0x8eu8
    &&& b[p + 1] == 0xadu8
    &&& b[p + 3] == 0x01u8
    &&& be32(b, p + 8) * 16 + be32(b, p + 12) < 0x100000000
    &&& p + 16 + be32(b, p + 8) * 16 + be32(b, p + 12) <= b.len()
    &&& rpm_types_known(b, p)
}

/// The header reader returns rather than panics on the section at `p`: it
/// either rejects the section on its own, or its sizes stay inside both the
/// 32-bit arithmetic and the stream and every entry resolves inside the
/// store.
pub open spec fn rpm_header_safe(b: Seq<u8>, p: int) -> bool {
    if p + 16 > b.len() {
        true
    } else if !(b[p] == 0x8eu8 && b[p + 1] == 0xadu8 && b[p + 3] == 0x01u8) {
        true
    } else if be32(b, p + 8) * 16 + be32(b, p + 12) >= 0x100000000 {
        false
    } else if p + 16 + be32(b, p + 8) * 16 + be32(b, p + 12) > b.len() {
        false
    } else if !rpm_types_known(b, p) {
        true
    } else {
        forall|i: int| 0 <= i < be32(b, p + 8) ==> rpm_entry_ok(b, p, i)
    }
}

/// Where the header section at `p` ends: fixed part, entries, store.
pub open spec fn rpm_header_end(b: Seq<u8>, p: int) -> int {
    p + 16 + be32(b, p + 8) * 16 + be32(b, p + 12)
}

/// The inputs on which the RPM parse chain is relied upon to return rather
/// than panic. The header reader slices its store at unvalidated offsets,
/// walks string arrays past a missing terminator, and adds its two size
/// words in 32-bit arithmetic, so both header sections (the signature
/// section after the 96-byte lead, and the metadata section after the
/// 8-byte alignment) must pass `rpm_header_safe` before the parser sees the
/// stream. A stream the parser rejects on its own is safe.
pub open spec fn rpm_input_ok(b: Seq<u8>) -> bool {
    if b.len() < 96 {
        true
    } else if !rpm_header_safe(b, 96) {
        false
    } else if !rpm_header_advances(b, 96) {
        true
    } else {
        let hs = be32(b, 96int + 12);
        let pad: int = if hs % 8 == 0 {
            0
        } else {
            8 - hs % 8
        };
        rpm_header_safe(b, rpm_header_end(b, 96) + pad)
    }
}

/// What running the RPM metadata parser over a complete byte stream yields,
/// when it succeeds: the header's name, version, release and arch fields,
/// each absent where the header lookup reports it absent. A pure function of
/// the bytes alone.
pub uninterp spec fn rpm_header_of(b: Seq<u8>) -> Option<(
    Option<Seq<char>>,
    Option<Seq<char>>,
    Option<Seq<char>>,
    Option<Seq<char>>,
)>;

/// Read the four-byte big-endian word at `p`.
fn be32_at(data: &Vec<u8>, p: usize) -> (v: u32)
    requires
        p + 4 <= data@.len(),
    ensures
        v as int == be32(data@, p as int),
{
    let n = data.len();
    (data[p] as u32) * 0x1000000 + (data[p + 1] as u32) * 0x10000 + (data[p + 2] as u32) * 0x100
        + (data[p + 3] as u32)
}

/// Count the zero bytes in `data[lo..hi]`.
fn count_zeros_range(data: &Vec<u8>, lo: usize, hi: usize) -> (z: u64)
    requires
        lo <= hi <= data@.len(),
    ensures
        z as int == count_zeros(data@.subrange(lo as int, hi as int)),
{
    let n = data.len();
    let mut z: u64 = 0;
    let mut i: usize = lo;
    proof {
        assert(data@.subrange(lo as int, lo as int) =~= Seq::<u8>::empty());
    }
    while i < hi
        invariant
            n == data@.len(),
            lo <= i <= hi <= n,
            z <= i - lo,
            z as int == count_zeros(data@.subrange(lo as int, i as int)),
        decreases hi - i,
    {
        proof {
            assert(data@.subrange(lo as int, i as int + 1).drop_last() =~= data@.subrange(
                lo as int,
                i as int,
            ));
        }
        if data[i] == 0 {
            z = z + 1;
        }
        i = i + 1;
    }
    z
}

/// What the safety check concludes of one header section.
struct HeaderVerdict {
    /// The header reader returns rather than panics on this section.
    safe: bool,
    /// The section's structural parse completes, so the reader goes on.
    advances: bool,
    /// Where the section ends, meaningful only when it advances.
    end: u64,
}

/// Check one RPM header section as the header reader would walk it.
fn rpm_header_check(data: &Vec<u8>, p: usize) -> (r: HeaderVerdict)
    requires
        p <= data@.len(),
    ensures
        r.safe == rpm_header_safe(data@, p as int),
        r.advances == rpm_header_advances(data@, p as int),
        r.advances ==> r.end as int == rpm_header_end(data@, p as int) && r.end <= data@.len(),
{
    let n = data.len();
    if n - p < 16 {
        return HeaderVerdict { safe: true, advances: false, end: 0 };
    }
    if !(data[p] == 0x8e && data[p + 1] == 0xad && data[p + 3] == 0x01) {
        return HeaderVerdict { safe: true, advances: false, end: 0 };
    }
    let ne = be32_at(data, p + 8);
    let hs = be32_at(data, p + 12);
    let total: u64 = (ne as u64) * 16 + (hs as u64);
    if total >= 0x100000000 {
        return HeaderVerdict { safe: false, advances: false, end: 0 };
    }
    if total > (n - p - 16) as u64 {
        return HeaderVerdict { safe: false, advances: false, end: 0 };
    }
    let ents: usize = p + 16;
    let store: usize = ents + (ne as usize) * 16;
    let hs_us: usize = hs as usize;
    let ne_us: usize = ne as usize;
    let mut i: usize = 0;
    while i < ne_us
        invariant
            n == data@.len(),
            p + 16 <= n,
            ents == p + 16,
            store == ents + ne_us * 16,
            hs_us == hs,
            ne_us == ne,
            ne as int == be32(data@, p as int + 8),
            hs as int == be32(data@, p as int + 12),
            data@[p as int] == 0x8eu8,
            data@[p as int + 1] == 0xadu8,
            data@[p as int + 3] == 0x01u8,
            total == (ne as u64) * 16 + (hs as u64),
            total < 0x100000000,
            p + 16 + total <= n,
            i <= ne_us,
            forall|k: int| 0 <= k < i ==> #[trigger] rpm_entry_type(data@, p as int, k) <= 9,
        decreases ne_us - i,
    {
        let ty = be32_at(data, ents + 16 * i + 4);
        proof {
            assert(rpm_entry_type(data@, p as int, i as int) == ty as int);
        }
        if ty > 9 {
            proof {
                assert(!rpm_types_known(data@, p as int));
            }
            return HeaderVerdict { safe: true, advances: false, end: 0 };
        }
        i = i + 1;
    }
    let mut j: usize = 0;
    while j < ne_us
        invariant
            n == data@.len(),
            p + 16 <= n,
            ents == p + 16,
            store == ents + ne_us * 16,
            hs_us == hs,
            ne_us == ne,
            ne as int == be32(data@, p as int + 8),
            hs as int == be32(data@, p as int + 12),
            data@[p as int] == 0x8eu8,
            data@[p as int + 1] == 0xadu8,
            data@[p as int + 3] == 0x01u8,
            total == (ne as u64) * 16 + (hs as u64),
            total < 0x100000000,
            p + 16 + total <= n,
            j <= ne_us,
            rpm_types_known(data@, p as int),
            forall|k: int| 0 <= k < j ==> #[trigger] rpm_entry_ok(data@, p as int, k),
        decreases ne_us - j,
    {
        let e: usize = ents + 16 * j;
        let ty = be32_at(data, e + 4);
        let off = be32_at(data, e + 8);
        let cnt = be32_at(data, e + 12);
        if off >= 0x80000000 {
            proof {
                assert(!rpm_entry_ok(data@, p as int, j as int));
            }
            return HeaderVerdict { safe: false, advances: true, end: (p as u64) + 16 + total };
        }
        if off > hs {
            proof {
                assert(!rpm_entry_ok(data@, p as int, j as int));
            }
            return HeaderVerdict { safe: false, advances: true, end: (p as u64) + 16 + total };
        }
        if ty == 8 {
            let zeros = count_zeros_range(data, store + off as usize, store + hs_us);
            if zeros < cnt as u64 {
                proof {
                    assert(!rpm_entry_ok(data@, p as int, j as int));
                }
                return HeaderVerdict {
                    safe: false,
                    advances: true,
                    end: (p as u64) + 16 + total,
                };
            }
        }
        if ty == 9 {
            if cnt as u64 > (hs - off) as u64 + 1 {
                proof {
                    assert(!rpm_entry_ok(data@, p as int, j as int));
                }
                return HeaderVerdict {
                    safe: false,
                    advances: true,
                    end: (p as u64) + 16 + total,
                };
            }
        }
        proof {
            assert(rpm_entry_ok(data@, p as int, j as int));
        }
        j = j + 1;
    }
    HeaderVerdict { safe: true, advances: true, end: (p as u64) + 16 + total }
}

/// Decide membership in `rpm_input_ok`: walk the two header sections the
/// RPM parse chain reads and reject any stream on which the header reader
/// would run out of bounds.
pub fn rpm_stream_safe(data: &Vec<u8>) -> (r: bool)
    ensures
        r == rpm_input_ok(data@),
{
    let n = data.len();
    if n < 96 {
        return true;
    }
    let v1 = rpm_header_check(data, 96);
    if !v1.safe {
        return false;
    }
    if !v1.advances {
        return true;
    }
    let hs = be32_at(data, 96 + 12);
    let pad: u64 = if hs % 8 == 0 {
        0
    } else {
        (8 - hs % 8) as u64
    };
    if (n as u64) - v1.end < pad + 16 {
        return true;
    }
    let q: usize = (v1.end + pad) as usize;
    let v2 = rpm_header_check(data, q);
    v2.safe
}

/// Relies on the fez crate (library name `rpm`): `RPMPackage::parse` reads
/// the lead, signature header and metadata header, and `Header::get_name`,
/// `get_version`, `get_release` and `get_arch` look those string tags up in
/// the parsed header, failing when a tag is absent. All of it is a
/// deterministic function of the input bytes. The `requires` keeps out the
/// streams on which the header reader would panic rather than return: it
/// slices its store at unvalidated entry offsets, steps past a missing
/// string-array terminator, and adds its size words in unchecked 32-bit
/// arithmetic.
#[verifier::external_body]
fn rpm_read_header(data: &Vec<u8>) -> (r: Result<
    (Option<String>, Option<String>, Option<String>, Option<String>),
    String,
>)
    requires
        rpm_input_ok(data@),
    ensures
        match r {
            Ok(f) => rpm_header_of(data@) == Some(
                (f.0.deep_view(), f.1.deep_view(), f.2.deep_view(), f.3.deep_view()),
            ),
            Err(_) => rpm_header_of(data@) is None,
        },
{
    let mut cursor = std::io::Cursor::new(data.as_slice());
    let pkg = match rpm::RPMPackage::parse(&mut cursor) {
        Ok(p) => p,
        Err(e) => return Err(format!("{}", e)),
    };
    let header = &pkg.metadata.header;
    Ok((
        header.get_name().ok().map(|s| s.to_string()),
        header.get_version().ok().map(|s| s.to_string()),
        header.get_release().ok().map(|s| s.to_string()),
        header.get_arch().ok().map(|s| s.to_string()),
    ))
}

/// A remote RPM package: the metadata fields read out of the package
/// header, fixed at construction time. A field is absent where the header
/// lookup reported it absent.
pub struct RpmRemotePackage {
    name: Option<String>,
    version: Option<String>,
    release: Option<String>,
    arch: Option<String>,
}

impl RpmRemotePackage {
    /// The header name field, where the header had one.
    pub closed spec fn name_view(self) -> Option<Seq<char>> {
        self.name.deep_view()
    }

    /// The header version field, where the header had one.
    pub closed spec fn version_view(self) -> Option<Seq<char>> {
        self.version.deep_view()
    }

    /// The header release field, where the header had one.
    pub closed spec fn release_view(self) -> Option<Seq<char>> {
        self.release.deep_view()
    }

    /// The header arch field, where the header had one.
    pub closed spec fn arch_view(self) -> Option<Seq<char>> {
        self.arch.deep_view()
    }

    /// Build the adapter from already extracted header fields. This is the
    /// composition path: no byte source is involved.
    pub fn new_from_fields(
        name: Option<String>,
        version: Option<String>,
        release: Option<String>,
        arch: Option<String>,
    ) -> (p: Self)
        ensures
            p.name_view() == name.deep_view(),
            p.version_view() == version.deep_view(),
            p.release_view() == release.deep_view(),
            p.arch_view() == arch.deep_view(),
    {
        RpmRemotePackage { name, version, release, arch }
    }

    /// Build the adapter from the complete bytes of a package stream,
    /// running the external RPM parser over them. A parse failure is
    /// wrapped as an adapter failure that names this format and keeps the
    /// cause inspectable; a stream the safety check rejects never reaches
    /// the parser and is wrapped the same way.
    pub fn new_from_read(data: &Vec<u8>) -> (r: Result<Self, PkgError>)
        ensures
            match r {
                Ok(p) => {
                    &&& rpm_input_ok(data@)
                    &&& rpm_header_of(data@) matches Some(f)
                    &&& p.name_view() == f.0
                    &&& p.version_view() == f.1
                    &&& p.release_view() == f.2
                    &&& p.arch_view() == f.3
                },
                Err(e) => {
                    &&& rpm_input_ok(data@) ==> rpm_header_of(data@) is None
                    &&& e matches PkgError::AdapterParseFailure(t, _)
                    &&& t == RemotePackageType::Rpm
                },
            },
    {
        if !rpm_stream_safe(data) {
            return Err(
                PkgError::AdapterParseFailure(
                    RemotePackageType::Rpm,
                    "malformed header section in the package".to_string(),
                ),
            );
        }
        match rpm_read_header(data) {
            Ok(f) => Ok(RpmRemotePackage { name: f.0, version: f.1, release: f.2, arch: f.3 }),
            Err(cause) => Err(PkgError::AdapterParseFailure(RemotePackageType::Rpm, cause)),
        }
    }

    /// The package type tag.
    pub fn package_type(&self) -> (t: RemotePackageType)
        ensures
            t == RemotePackageType::Rpm,
    {
        RemotePackageType::Rpm
    }

    /// The package name: the header name field, reported as a missing-field
    /// failure when the header lacks it.
    pub fn package_name(&self) -> (r: Result<&str, PkgError>)
        ensures
            match r {
                Ok(s) => self.name_view() == Some(s@),
                Err(e) => {
                    &&& self.name_view() is None
                    &&& e matches PkgError::FieldNotFound(f)
                    &&& f@ == "name"@
                },
            },
    {
        match &self.name {
            Some(n) => Ok(n.as_str()),
            None => Err(PkgError::FieldNotFound("name".to_string())),
        }
    }

    /// The package version: the header version field, reported as a
    /// missing-field failure when the header lacks it.
    pub fn package_version(&self) -> (r: Result<&str, PkgError>)
        ensures
            match r {
                Ok(s) => self.version_view() == Some(s@),
                Err(e) => {
                    &&& self.version_view() is None
                    &&& e matches PkgError::FieldNotFound(f)
                    &&& f@ == "version"@
                },
            },
    {
        match &self.version {
            Some(v) => Ok(v.as_str()),
            None => Err(PkgError::FieldNotFound("version".to_string())),
        }
    }

    /// The package iteration: for an RPM package, the header release field.
    /// Absence is an answer here, never a failure.
    pub fn package_iteration(&self) -> (r: Option<&str>)
        ensures
            match r {
                Some(s) => self.release_view() == Some(s@),
                None => self.release_view() is None,
            },
    {
        match &self.release {
            Some(rel) => Some(rel.as_str()),
            None => None,
        }
    }

    /// The package architecture: the header arch field, reported as a
    /// missing-field failure when the header lacks it.
    pub fn package_arch(&self) -> (r: Result<&str, PkgError>)
        ensures
            match r {
                Ok(s) => self.arch_view() == Some(s@),
                Err(e) => {
                    &&& self.arch_view() is None
                    &&& e matches PkgError::FieldNotFound(f)
                    &&& f@ == "arch"@
                },
            },
    {
        match &self.arch {
            Some(a) => Ok(a.as_str()),
            None => Err(PkgError::FieldNotFound("arch".to_string())),
        }
    }
}

} // verus!
