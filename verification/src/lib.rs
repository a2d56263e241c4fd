//! A library to identify the packaging format of a byte stream and query a
//! small set of metadata fields (name, version, architecture, iteration)
//! through one uniform interface, whatever the format.

use vstd::prelude::*;

pub mod debian;
pub mod rpm;
pub mod sniff;
pub mod stream;

verus! {

/// Types of remote package.
#[derive(Clone, Copy, PartialEq, Eq, Structural, Debug)]
pub enum RemotePackageType {
    /// Debian package
    Deb,
    /// RPM package
    Rpm,
}

/// Error type for this crate: the unified failure taxonomy. Every failure
/// surfaces as one of these, tagged with the phase that failed.
#[derive(Debug)]
pub enum PkgError {
    /// The peek window could not be read from the byte source, so the
    /// stream was never inspected at all.
    SniffFailure,
    /// The peek window matched no known signature, or it matched a format
    /// that the caller has disabled; carries a descriptive file-type hint.
    UnknownPackageType(String),
    /// The format-specific parser rejected the reconstructed stream;
    /// carries the format that was attempted and the underlying cause.
    AdapterParseFailure(RemotePackageType, String),
    /// A required metadata field was absent from successfully parsed
    /// control or header data; carries the field name.
    FieldNotFound(String),
}

/// The set of formats the caller is willing to accept. A stream whose
/// signature names a format outside this set is reported as an unknown
/// package type, exactly as one whose signature matches nothing.
#[derive(Clone, Copy, PartialEq, Eq, Structural, Debug)]
pub struct EnabledFormats {
    /// Whether Debian packages are accepted.
    pub deb: bool,
    /// Whether RPM packages are accepted.
    pub rpm: bool,
}

impl EnabledFormats {
    /// Whether a format tag belongs to the set.
    pub open spec fn contains(self, t: RemotePackageType) -> bool {
        match t {
            RemotePackageType::Deb => self.deb,
            RemotePackageType::Rpm => self.rpm,
        }
    }

    /// The set that accepts every supported format.
    pub fn all() -> (e: Self)
        ensures
            forall|t: RemotePackageType| e.contains(t),
    {
        EnabledFormats { deb: true, rpm: true }
    }
}

/// A remote package: the uniform, read-only query surface handed to callers
/// once a format has been identified, over the closed set of supported
/// format adapters.
pub enum RemotePackage {
    /// A Debian-family package.
    Deb(debian::DebianRemotePackage),
    /// An RPM-family package.
    Rpm(rpm::RpmRemotePackage),
}

/// The field name under which an absent architecture is reported: Debian
/// control files call it `Architecture`, RPM headers call it `arch`.
pub open spec fn arch_field_label(t: RemotePackageType) -> Seq<char> {
    match t {
        RemotePackageType::Deb => "Architecture"@,
        RemotePackageType::Rpm => "arch"@,
    }
}

impl RemotePackage {
    /// The format tag of the adapter inside.
    pub open spec fn type_view(self) -> RemotePackageType {
        match self {
            RemotePackage::Deb(_) => RemotePackageType::Deb,
            RemotePackage::Rpm(_) => RemotePackageType::Rpm,
        }
    }

    /// The name the package reports, or nothing where the query fails.
    pub open spec fn name_view(self) -> Option<Seq<char>> {
        match self {
            RemotePackage::Deb(d) => Some(d.name_view()),
            RemotePackage::Rpm(p) => p.name_view(),
        }
    }

    /// The version the package reports, or nothing where the query fails.
    pub open spec fn version_view(self) -> Option<Seq<char>> {
        match self {
            RemotePackage::Deb(d) => Some(d.version_view()),
            RemotePackage::Rpm(p) => p.version_view(),
        }
    }

    /// The architecture the package reports, or nothing where the query
    /// fails.
    pub open spec fn arch_view(self) -> Option<Seq<char>> {
        match self {
            RemotePackage::Deb(d) => d.arch_view(),
            RemotePackage::Rpm(p) => p.arch_view(),
        }
    }

    /// The iteration the package reports: the suffix after the last hyphen
    /// of the version for a Debian package, the header release field for an
    /// RPM package.
    pub open spec fn iteration_view(self) -> Option<Seq<char>> {
        match self {
            RemotePackage::Deb(d) => debian::iteration_of(d.version_view()),
            RemotePackage::Rpm(p) => p.release_view(),
        }
    }

    /// Get the package type.
    pub fn package_type(&self) -> (t: RemotePackageType)
        ensures
            t == self.type_view(),
    {
        match self {
            RemotePackage::Deb(d) => d.package_type(),
            RemotePackage::Rpm(p) => p.package_type(),
        }
    }

    /// Get the package name, failing when it is unavailable.
    pub fn package_name(&self) -> (r: Result<&str, PkgError>)
        ensures
            match r {
                Ok(s) => self.name_view() == Some(s@),
                Err(e) => {
                    &&& self.name_view() is None
                    &&& e matches PkgError::FieldNotFound(f)
                    &&& f@ == "name"@
                },
            },
    {
        match self {
            RemotePackage::Deb(d) => d.package_name(),
            RemotePackage::Rpm(p) => p.package_name(),
        }
    }

    /// Get the package version, failing when it is unavailable.
    pub fn package_version(&self) -> (r: Result<&str, PkgError>)
        ensures
            match r {
                Ok(s) => self.version_view() == Some(s@),
                Err(e) => {
                    &&& self.version_view() is None
                    &&& e matches PkgError::FieldNotFound(f)
                    &&& f@ == "version"@
                },
            },
    {
        match self {
            RemotePackage::Deb(d) => d.package_version(),
            RemotePackage::Rpm(p) => p.package_version(),
        }
    }

    /// Get the package iteration. Different package types get this from
    /// different places; a package without one yields absence, never a
    /// failure.
    pub fn package_iteration(&self) -> (r: Option<&str>)
        ensures
            match r {
                Some(s) => self.iteration_view() == Some(s@),
                None => self.iteration_view() is None,
            },
    {
        match self {
            RemotePackage::Deb(d) => d.package_iteration(),
            RemotePackage::Rpm(p) => p.package_iteration(),
        }
    }

    /// Get the package architecture, failing when it is unavailable.
    pub fn package_arch(&self) -> (r: Result<&str, PkgError>)
        ensures
            match r {
                Ok(s) => self.arch_view() == Some(s@),
                Err(e) => {
                    &&& self.arch_view() is None
                    &&& e matches PkgError::FieldNotFound(f)
                    &&& f@ == arch_field_label(self.type_view())
                },
            },
    {
        match self {
            RemotePackage::Deb(d) => d.package_arch(),
            RemotePackage::Rpm(p) => p.package_arch(),
        }
    }
}

/// Repeated queries on one package agree: the name, version, architecture
/// and iteration a package reports are each fixed by the package value
/// alone, which is never mutated after construction, so two queries of the
/// same package can never disagree and no query re-reads the byte source.
pub proof fn lemma_repeated_queries_agree(
    p: RemotePackage,
    n1: Option<Seq<char>>,
    n2: Option<Seq<char>>,
    v1: Option<Seq<char>>,
    v2: Option<Seq<char>>,
    a1: Option<Seq<char>>,
    a2: Option<Seq<char>>,
    i1: Option<Seq<char>>,
    i2: Option<Seq<char>>,
)
    requires
        n1 == p.name_view(),
        n2 == p.name_view(),
        v1 == p.version_view(),
        v2 == p.version_view(),
        a1 == p.arch_view(),
        a2 == p.arch_view(),
        i1 == p.iteration_view(),
        i2 == p.iteration_view(),
    ensures
        n1 == n2,
        v1 == v2,
        a1 == a2,
        i1 == i2,
{
}

/// The size of the peek window read for sniffing: large enough to hold
/// every supported leading signature, small enough to bound what is
/// buffered before a decision is made.
pub const PEEK_WINDOW: usize = 1024;

/// The peek window that sniffing inspects for a given stream.
pub open spec fn peek_window_of(d: Seq<u8>) -> Seq<u8> {
    stream::peek_seq(d, PEEK_WINDOW as int)
}

/// Identify the packaging format of a fully buffered byte stream and hand
/// back the matching metadata adapter.
///
/// The peek window is classified by signature matching; the stream is then
/// reconstructed, byte for byte, from the retained window and the
/// remainder, and handed to the adapter of the detected format, provided
/// that format is enabled. At most one adapter is invoked, and its parse
/// failure is propagated as it is: there is no fallback scan across
/// formats. An unrecognized or disabled format yields an unknown-package
/// failure carrying a descriptive hint.
pub fn identify(data: &Vec<u8>, enabled: &EnabledFormats) -> (r: Result<RemotePackage, PkgError>)
    ensures
        ({
            let w = peek_window_of(data@);
            match r {
                Ok(pkg) => {
                    &&& sniff::classify_spec(w) == Some(pkg.type_view())
                    &&& enabled.contains(pkg.type_view())
                    &&& match pkg {
                        RemotePackage::Deb(d) => {
                            &&& debian::deb_input_ok(data@)
                            &&& debian::deb_control_of(data@) matches Some(f)
                            &&& d.name_view() == f.0
                            &&& d.version_view() == f.1
                            &&& d.arch_view() == f.2
                        },
                        RemotePackage::Rpm(p) => {
                            &&& rpm::rpm_input_ok(data@)
                            &&& rpm::rpm_header_of(data@) matches Some(f)
                            &&& p.name_view() == f.0
                            &&& p.version_view() == f.1
                            &&& p.release_view() == f.2
                            &&& p.arch_view() == f.3
                        },
                    }
                },
                Err(e) => match e {
                    PkgError::AdapterParseFailure(t, _) => {
                        &&& sniff::classify_spec(w) == Some(t)
                        &&& enabled.contains(t)
                        &&& t == RemotePackageType::Deb ==> (debian::deb_input_ok(data@)
                            ==> debian::deb_control_of(data@) is None)
                        &&& t == RemotePackageType::Rpm ==> (rpm::rpm_input_ok(data@)
                            ==> rpm::rpm_header_of(data@) is None)
                    },
                    PkgError::UnknownPackageType(h) => {
                        &&& (sniff::classify_spec(w) matches Some(t) ==> !enabled.contains(t))
                        &&& match sniff::extension_hint(w) {
                            Some(x) => h@ == x,
                            None => h@ == "unknown"@,
                        }
                    },
                    _ => false,
                },
            }
        }),
{
    let sniffed = sniff::sniff(data, PEEK_WINDOW);
    let rest = stream::remainder(data, PEEK_WINDOW);
    let whole = stream::reconstruct(&sniffed.prefix, &rest);
    proof {
        stream::lemma_peek_round_trip(data@, PEEK_WINDOW as int);
        assert(whole@ == data@);
    }
    match sniffed.format {
        Some(RemotePackageType::Deb) => {
            if enabled.deb {
                match debian::DebianRemotePackage::new_from_read(&whole) {
                    Ok(p) => Ok(RemotePackage::Deb(p)),
                    Err(e) => Err(e),
                }
            } else {
                Err(PkgError::UnknownPackageType(sniff::format_hint(&sniffed.prefix)))
            }
        },
        Some(RemotePackageType::Rpm) => {
            if enabled.rpm {
                match rpm::RpmRemotePackage::new_from_read(&whole) {
                    Ok(p) => Ok(RemotePackage::Rpm(p)),
                    Err(e) => Err(e),
                }
            } else {
                Err(PkgError::UnknownPackageType(sniff::format_hint(&sniffed.prefix)))
            }
        },
        None => Err(PkgError::UnknownPackageType(sniff::format_hint(&sniffed.prefix))),
    }
}

} // verus!
