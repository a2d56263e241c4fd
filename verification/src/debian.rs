//! Support for remote Debian packages: the control-file metadata adapter and
//! the derivation of the package iteration from the version string.

use vstd::prelude::*;
use vstd::string::StrSliceExecFns;

use crate::PkgError;
use crate::RemotePackageType;

verus! {

/// The iteration (package revision) that a version string yields: the
/// characters after the last `-`, if the string holds a `-` at all, and
/// nothing otherwise. The convention is `upstream_version-package_revision`;
/// splitting on the last hyphen is a deterministic approximation, and an
/// upstream version with its own hyphen is ambiguous under it.
pub open spec fn iteration_of(v: Seq<char>) -> Option<Seq<char>>
    decreases v.len(),
{
    if v.len() == 0 {
        None
    } else if v[v.len() - 1] == '-' {
        Some(Seq::empty())
    } else {
        match iteration_of(v.drop_last()) {
            Some(s) => Some(s.push(v[v.len() - 1])),
            None => None,
        }
    }
}

/// A version string without a hyphen yields no iteration.
pub proof fn lemma_no_dash_no_iteration(v: Seq<char>)
    requires
        forall|j: int| 0 <= j < v.len() ==> v[j] != '-',
    ensures
        iteration_of(v) is None,
    decreases v.len(),
{
    if v.len() > 0 {
        lemma_no_dash_no_iteration(v.drop_last());
    }
}

/// The last hyphen wins: if position `i` holds a `-` and no later position
/// does, the iteration is exactly the suffix after `i`.
pub proof fn lemma_iteration_after_last_dash(v: Seq<char>, i: int)
    requires
        0 <= i < v.len(),
        v[i] == '-',
        forall|j: int| i < j < v.len() ==> v[j] != '-',
    ensures
        iteration_of(v) == Some(v.skip(i + 1)),
    decreases v.len(),
{
    if i == v.len() - 1 {
        assert(v.skip(i + 1) =~= Seq::<char>::empty());
    } else {
        lemma_iteration_after_last_dash(v.drop_last(), i);
        assert(v.drop_last().skip(i + 1) =~= v.skip(i + 1).drop_last());
        assert(v.skip(i + 1).drop_last().push(v[v.len() - 1]) =~= v.skip(i + 1));
    }
}

/// Split a version string on its last hyphen and return what follows it:
/// the package iteration, or nothing when the version holds no hyphen.
pub fn split_iteration(version: &str) -> (r: Option<&str>)
    ensures
        match r {
            Some(s) => iteration_of(version@) == Some(s@),
            None => iteration_of(version@) is None,
        },
{
    let len = version.unicode_len();
    let mut i: usize = len;
    while i > 0
        invariant
            i <= len,
            len == version@.len(),
            forall|j: int| i <= j < len ==> version@[j] != '-',
        decreases i,
    {
        i = i - 1;
        if version.get_char(i) == '-' {
            let suffix = version.substring_char(i + 1, len);
            proof {
                lemma_iteration_after_last_dash(version@, i as int);
                assert(version@.skip(i + 1) =~= version@.subrange(i + 1, len as int));
            }
            return Some(suffix);
        }
    }
    proof {
        lemma_no_dash_no_iteration(version@);
    }
    None
}

/// A byte the ar container's numeric-field parser strips from the end of a
/// field before reading a decimal number (ASCII whitespace).
pub open spec fn ar_space(c: u8) -> bool {
    c == 0x09 || c == 0x0a || c == 0x0b || c == 0x0c || c == 0x0d || c == 0x20
}

/// An ASCII decimal digit.
pub open spec fn ar_digit(c: u8) -> bool {
    0x30 <= c <= 0x39
}

/// Every byte of the field is plain ASCII. Only such fields are modelled
/// here; a field with a high byte fails the safety check outright.
pub open spec fn ar_field_ascii(f: Seq<u8>) -> bool {
    forall|j: int| 0 <= j < f.len() ==> f[j] < 0x80
}

/// The length of the field once trailing whitespace is stripped, as the ar
/// container's numeric-field parser strips it.
pub open spec fn ar_trim_len(f: Seq<u8>) -> int
    decreases f.len(),
{
    if f.len() == 0 {
        0
    } else if ar_space(f.last()) {
        ar_trim_len(f.drop_last())
    } else {
        f.len() as int
    }
}

/// The value of the decimal digits `f[lo..hi]`.
pub open spec fn ar_digits_val(f: Seq<u8>, lo: int, hi: int) -> int
    decreases hi - lo,
{
    if hi <= lo {
        0
    } else {
        ar_digits_val(f, lo, hi - 1) * 10 + (f[hi - 1] - 0x30)
    }
}

/// Ten to the given power.
pub open spec fn pow10(n: nat) -> int
    decreases n,
{
    if n == 0 {
        1
    } else {
        10 * pow10((n - 1) as nat)
    }
}

/// A run of decimal digits is bounded by ten to its length.
pub proof fn lemma_ar_digits_val_bound(f: Seq<u8>, lo: int, hi: int)
    requires
        lo <= hi,
        forall|j: int| lo <= j < hi ==> ar_digit(#[trigger] f[j]),
    ensures
        0 <= ar_digits_val(f, lo, hi) < pow10((hi - lo) as nat),
    decreases hi - lo,
{
    if hi > lo {
        lemma_ar_digits_val_bound(f, lo, hi - 1);
    }
}

/// Ten to a power is positive.
pub proof fn lemma_pow10_pos(n: nat)
    ensures
        1 <= pow10(n),
    decreases n,
{
    if n > 0 {
        lemma_pow10_pos((n - 1) as nat);
    }
}

/// Ten to a power is monotone in the exponent.
pub proof fn lemma_pow10_le(a: nat, b: nat)
    requires
        a <= b,
    ensures
        pow10(a) <= pow10(b),
    decreases b,
{
    lemma_pow10_pos(a);
    if a < b {
        lemma_pow10_le(a, (b - 1) as nat);
        lemma_pow10_pos((b - 1) as nat);
    }
}

/// Whether the ar container's parser accepts the trimmed field as a decimal
/// number: an optional sign, then digits, where a minus sign is accepted
/// only over zeros.
pub open spec fn ar_num_ok(f: Seq<u8>) -> bool {
    let t = ar_trim_len(f);
    let lo: int = if f.len() > 0 && (f[0] == 0x2b || f[0] == 0x2d) {
        1
    } else {
        0
    };
    &&& t > lo
    &&& (forall|j: int| lo <= j < t ==> ar_digit(#[trigger] f[j]))
    &&& (f.len() > 0 && f[0] == 0x2d ==> forall|j: int| lo <= j < t ==> f[j] == 0x30)
}

/// The number the ar container's parser reads out of the field, when it
/// accepts it.
pub open spec fn ar_num_val(f: Seq<u8>) -> int {
    let t = ar_trim_len(f);
    if f.len() > 0 && (f[0] == 0x2b || f[0] == 0x2d) {
        if f[0] == 0x2d {
            0
        } else {
            ar_digits_val(f, 1, t)
        }
    } else {
        ar_digits_val(f, 0, t)
    }
}

/// The ar container magic `!<arch>\n` stands at the head of the stream.
pub open spec fn ar_global_magic(b: Seq<u8>) -> bool {
    &&& b.len() >= 8
    &&& b[0] == 0x21u8
    &&& b[1] == 0x3cu8
    &&& b[2] == 0x61u8
    &&& b[3] == 0x72u8
    &&& b[4] == 0x63u8
    &&& b[5] == 0x68u8
    &&& b[6] == 0x3eu8
    &&& b[7] == 0x0au8
}

/// The inputs on which the Debian parse chain is relied upon to return
/// rather than panic. The ar container library indexes a GNU name table
/// with a number taken from a `/`-led member name without a bounds check,
/// so any stream whose first or second member header carries a `/`-led
/// name, or a size field this model cannot follow, is kept away from the
/// parser; the chain reads only those two member headers here. A stream the
/// container library rejects on its own is safe.
pub open spec fn deb_input_ok(b: Seq<u8>) -> bool {
    if !ar_global_magic(b) {
        true
    } else if b.len() < 68 {
        true
    } else {
        let f1 = b.subrange(56, 66);
        if !ar_field_ascii(f1) {
            false
        } else if !ar_num_ok(f1) {
            true
        } else if b[8] == 0x2fu8 {
            false
        } else {
            let s1 = ar_num_val(f1);
            let pos2 = 68 + s1 + (if s1 % 2 == 0 {
                0int
            } else {
                1int
            });
            if pos2 + 60 > b.len() {
                true
            } else {
                let f2 = b.subrange(pos2 + 48, pos2 + 58);
                if !ar_field_ascii(f2) {
                    false
                } else if !ar_num_ok(f2) {
                    true
                } else if b[pos2] == 0x2fu8 {
                    false
                } else {
                    true
                }
            }
        }
    }
}

/// What running the Debian control parser over a complete byte stream
/// yields, when it succeeds: the `Package` field, the `Version` field, and
/// the `Architecture` field where the control file has one. A pure function
/// of the bytes alone.
pub uninterp spec fn deb_control_of(b: Seq<u8>) -> Option<(Seq<char>, Seq<char>, Option<Seq<char>>)>;

/// How the safety check reads one 10-byte ar size field.
enum SizeField {
    /// A byte outside the modelled ASCII range: the stream is rejected.
    Unmodelled,
    /// The container's parser rejects the field, and the stream with it.
    Malformed,
    /// The parsed size.
    Value(u64),
}

/// Read the 10-byte decimal size field at `base` as the ar container's
/// parser reads it: strip trailing whitespace, allow one sign, then digits.
fn read_size_field(data: &Vec<u8>, base: usize) -> (r: SizeField)
    requires
        base + 10 <= data@.len(),
    ensures
        ({
            let f = data@.subrange(base as int, base as int + 10);
            match r {
                SizeField::Unmodelled => !ar_field_ascii(f),
                SizeField::Malformed => ar_field_ascii(f) && !ar_num_ok(f),
                SizeField::Value(v) => {
                    &&& ar_field_ascii(f)
                    &&& ar_num_ok(f)
                    &&& v == ar_num_val(f)
                    &&& v < 10000000000
                },
            }
        }),
{
    let n = data.len();
    let ghost f = data@.subrange(base as int, base as int + 10);
    let mut j: usize = 0;
    while j < 10
        invariant
            n == data@.len(),
            base + 10 <= n,
            j <= 10,
            f == data@.subrange(base as int, base as int + 10),
            forall|k: int| 0 <= k < j ==> f[k] < 0x80,
        decreases 10 - j,
    {
        if data[base + j] >= 0x80 {
            proof {
                assert(f[j as int] >= 0x80u8);
            }
            return SizeField::Unmodelled;
        }
        j = j + 1;
    }
    let mut t: usize = 10;
    proof {
        assert(f.take(10) =~= f);
    }
    while t > 0 && (data[base + t - 1] == 0x09 || data[base + t - 1] == 0x0a || data[base + t - 1]
        == 0x0b || data[base + t - 1] == 0x0c || data[base + t - 1] == 0x0d || data[base + t - 1]
        == 0x20)
        invariant
            n == data@.len(),
            base + 10 <= n,
            t <= 10,
            f == data@.subrange(base as int, base as int + 10),
            ar_trim_len(f) == ar_trim_len(f.take(t as int)),
        decreases t,
    {
        proof {
            assert(f.take(t as int).drop_last() =~= f.take(t as int - 1));
        }
        t = t - 1;
    }
    proof {
        if t > 0 {
            assert(f.take(t as int).last() == f[t as int - 1]);
        }
        assert(ar_trim_len(f) == t as int);
    }
    let sign_minus = data[base] == 0x2d;
    let lo: usize = if data[base] == 0x2b || sign_minus {
        1
    } else {
        0
    };
    if t <= lo {
        return SizeField::Malformed;
    }
    let mut v: u64 = 0;
    let mut i: usize = lo;
    while i < t
        invariant
            n == data@.len(),
            base + 10 <= n,
            lo <= i <= t,
            t <= 10,
            lo <= 1,
            t as int == ar_trim_len(f),
            f == data@.subrange(base as int, base as int + 10),
            ar_field_ascii(f),
            sign_minus == (f[0] == 0x2d),
            lo == 1 <==> (f[0] == 0x2b || f[0] == 0x2d),
            forall|k: int| lo <= k < i ==> ar_digit(#[trigger] f[k]),
            sign_minus ==> forall|k: int| lo <= k < i ==> f[k] == 0x30,
            v == ar_digits_val(f, lo as int, i as int),
        decreases t - i,
    {
        proof {
            lemma_ar_digits_val_bound(f, lo as int, i as int);
            lemma_pow10_le((i - lo) as nat, 9);
            assert(pow10(9) == 1000000000) by {
                reveal_with_fuel(pow10, 10);
            }
        }
        let c = data[base + i];
        if !(0x30 <= c && c <= 0x39) {
            proof {
                assert(f[i as int] == c);
                assert(!ar_digit(f[i as int]));
            }
            return SizeField::Malformed;
        }
        if sign_minus && c != 0x30 {
            proof {
                assert(f[0] == 0x2du8 && f[i as int] != 0x30u8);
            }
            return SizeField::Malformed;
        }
        v = v * 10 + ((c - 0x30) as u64);
        i = i + 1;
    }
    proof {
        lemma_ar_digits_val_bound(f, lo as int, t as int);
        lemma_pow10_le((t - lo) as nat, 10);
        assert(pow10(10) == 10000000000) by {
            reveal_with_fuel(pow10, 11);
        }
    }
    if sign_minus {
        SizeField::Value(0)
    } else {
        SizeField::Value(v)
    }
}

/// Decide membership in `deb_input_ok`: look at the two ar member headers
/// the Debian parse chain reads, and reject any stream with a `/`-led
/// member name or a size field outside the model.
pub fn deb_stream_safe(data: &Vec<u8>) -> (r: bool)
    ensures
        r == deb_input_ok(data@),
{
    if data.len() < 8 {
        return true;
    }
    if !(data[0] == 0x21 && data[1] == 0x3c && data[2] == 0x61 && data[3] == 0x72 && data[4]
        == 0x63 && data[5] == 0x68 && data[6] == 0x3e && data[7] == 0x0a) {
        return true;
    }
    if data.len() < 68 {
        return true;
    }
    match read_size_field(data, 56) {
        SizeField::Unmodelled => false,
        SizeField::Malformed => true,
        SizeField::Value(s1) => {
            if data[8] == 0x2f {
                return false;
            }
            let pos2: u64 = 68 + s1 + (if s1 % 2 == 0 {
                0
            } else {
                1
            });
            if pos2 + 60 > data.len() as u64 {
                return true;
            }
            let p2: usize = pos2 as usize;
            match read_size_field(data, p2 + 48) {
                SizeField::Unmodelled => false,
                SizeField::Malformed => true,
                SizeField::Value(_) => data[p2] != 0x2f,
            }
        },
    }
}

/// Relies on debpkg: `DebPkg::parse` reads the ar container, `DebPkg::control`
/// yields the control archive, and `Control::extract` parses the control
/// file, failing when it lacks a `Package` or `Version` field; `Control::name`,
/// `Control::version` and `Control::get` then return those fields. All of it
/// is a deterministic function of the input bytes. The `requires` keeps out
/// the streams on which the underlying ar reader would panic rather than
/// return (a `/`-led member name indexes a GNU name table without a bounds
/// check) together with those its numeric fields put outside the model.
#[verifier::external_body]
fn deb_read_control(data: &Vec<u8>) -> (r: Result<(String, String, Option<String>), String>)
    requires
        deb_input_ok(data@),
    ensures
        match r {
            Ok(f) => deb_control_of(data@) == Some((f.0@, f.1@, f.2.deep_view())),
            Err(_) => deb_control_of(data@) is None,
        },
{
    let mut pkg = match debpkg::DebPkg::parse(std::io::Cursor::new(data.as_slice())) {
        Ok(p) => p,
        Err(e) => return Err(format!("{}", e)),
    };
    let control_tar = match pkg.control() {
        Ok(t) => t,
        Err(e) => return Err(format!("{}", e)),
    };
    let control = match debpkg::Control::extract(control_tar) {
        Ok(c) => c,
        Err(e) => return Err(format!("{}", e)),
    };
    let arch = control.get("Architecture").map(|s| s.to_string());
    Ok((control.name().to_string(), control.version().to_string(), arch))
}

/// A remote Debian package: the metadata fields read out of the control
/// portion of the package, fixed at construction time.
pub struct DebianRemotePackage {
    name: String,
    version: String,
    arch: Option<String>,
}

impl DebianRemotePackage {
    /// The package name, as the control file's `Package` field gave it.
    pub closed spec fn name_view(self) -> Seq<char> {
        self.name@
    }

    /// The package version, as the control file's `Version` field gave it.
    pub closed spec fn version_view(self) -> Seq<char> {
        self.version@
    }

    /// The package architecture, where the control file had one.
    pub closed spec fn arch_view(self) -> Option<Seq<char>> {
        self.arch.deep_view()
    }

    /// Build the adapter from already extracted control fields. This is the
    /// composition path: no byte source is involved.
    pub fn new_from_fields(name: String, version: String, arch: Option<String>) -> (p: Self)
        ensures
            p.name_view() == name@,
            p.version_view() == version@,
            p.arch_view() == arch.deep_view(),
    {
        DebianRemotePackage { name, version, arch }
    }

    /// Build the adapter from the complete bytes of a package stream,
    /// running the external Debian parser over them. A parse failure is
    /// wrapped as an adapter failure that names this format and keeps the
    /// cause inspectable; a stream the safety check rejects never reaches
    /// the parser and is wrapped the same way.
    pub fn new_from_read(data: &Vec<u8>) -> (r: Result<Self, PkgError>)
        ensures
            match r {
                Ok(p) => {
                    &&& deb_input_ok(data@)
                    &&& deb_control_of(data@) matches Some(f)
                    &&& p.name_view() == f.0
                    &&& p.version_view() == f.1
                    &&& p.arch_view() == f.2
                },
                Err(e) => {
                    &&& deb_input_ok(data@) ==> deb_control_of(data@) is None
                    &&& e matches PkgError::AdapterParseFailure(t, _)
                    &&& t == RemotePackageType::Deb
                },
            },
    {
        if !deb_stream_safe(data) {
            return Err(
                PkgError::AdapterParseFailure(
                    RemotePackageType::Deb,
                    "unsupported member naming in the ar container".to_string(),
                ),
            );
        }
        match deb_read_control(data) {
            Ok(f) => Ok(DebianRemotePackage { name: f.0, version: f.1, arch: f.2 }),
            Err(cause) => Err(PkgError::AdapterParseFailure(RemotePackageType::Deb, cause)),
        }
    }

    /// The package type tag.
    pub fn package_type(&self) -> (t: RemotePackageType)
        ensures
            t == RemotePackageType::Deb,
    {
        RemotePackageType::Deb
    }

    /// The package name. Always available on a constructed package.
    pub fn package_name(&self) -> (r: Result<&str, PkgError>)
        ensures
            r matches Ok(s) && s@ == self.name_view(),
    {
        Ok(self.name.as_str())
    }

    /// The package version. Always available on a constructed package.
    pub fn package_version(&self) -> (r: Result<&str, PkgError>)
        ensures
            r matches Ok(s) && s@ == self.version_view(),
    {
        Ok(self.version.as_str())
    }

    /// The package architecture: the control `Architecture` field, reported
    /// as a missing-field failure when the control file lacks it.
    pub fn package_arch(&self) -> (r: Result<&str, PkgError>)
        ensures
            match r {
                Ok(s) => self.arch_view() == Some(s@),
                Err(e) => {
                    &&& self.arch_view() is None
                    &&& e matches PkgError::FieldNotFound(f)
                    &&& f@ == "Architecture"@
                },
            },
    {
        match &self.arch {
            Some(a) => Ok(a.as_str()),
            None => Err(PkgError::FieldNotFound("Architecture".to_string())),
        }
    }

    /// The package iteration: for a Debian package, the revision suffix
    /// after the last hyphen of the version, and nothing when the version
    /// holds no hyphen. Absence is an answer here, never a failure.
    pub fn package_iteration(&self) -> (r: Option<&str>)
        ensures
            match r {
                Some(s) => iteration_of(self.version_view()) == Some(s@),
                None => iteration_of(self.version_view()) is None,
            },
    {
        split_iteration(self.version.as_str())
    }
}

} // verus!
