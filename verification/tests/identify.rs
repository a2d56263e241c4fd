//! End-to-end tests of `identify`: sniffing, reconstruction and dispatch
//! over real Debian and RPM byte streams built in memory.

use remotepkg::{identify, EnabledFormats, PkgError, RemotePackage, RemotePackageType};

/// Serialize one member of an `ar` archive in the common format.
fn ar_member(name: &str, data: &[u8]) -> Vec<u8> {
    let mut out = Vec::new();
    out.extend_from_slice(format!("{:<16}", name).as_bytes());
    out.extend_from_slice(format!("{:<12}", 0).as_bytes());
    out.extend_from_slice(format!("{:<6}", 0).as_bytes());
    out.extend_from_slice(format!("{:<6}", 0).as_bytes());
    out.extend_from_slice(format!("{:<8}", "100644").as_bytes());
    out.extend_from_slice(format!("{:<10}", data.len()).as_bytes());
    out.extend_from_slice(b"`\n");
    out.extend_from_slice(data);
    if data.len() % 2 == 1 {
        out.push(b'\n');
    }
    out
}

/// Build an uncompressed control tarball holding one `control` file.
fn control_tarball(control: &str) -> Vec<u8> {
    let mut tarball = Vec::new();
    {
        let mut builder = tar::Builder::new(&mut tarball);
        let mut header = tar::Header::new_gnu();
        header.set_size(control.len() as u64);
        header.set_mode(0o644);
        header.set_cksum();
        builder
            .append_data(&mut header, "control", control.as_bytes())
            .unwrap();
        builder.finish().unwrap();
    }
    tarball
}

/// Build a complete Debian package stream around the given control file.
fn build_deb(control: &str) -> Vec<u8> {
    let mut deb = Vec::new();
    deb.extend_from_slice(b"!<arch>\n");
    deb.extend_from_slice(&ar_member("debian-binary", b"2.0\n"));
    deb.extend_from_slice(&ar_member("control.tar", &control_tarball(control)));
    deb
}

/// Build a complete RPM package stream with the given identity fields.
fn build_rpm(name: &str, version: &str, release: &str, arch: &str) -> Vec<u8> {
    let pkg = rpm::RPMBuilder::new(name, version, "MIT", arch, "a test package")
        .release(release)
        .build()
        .unwrap();
    let mut bytes = Vec::new();
    pkg.write(&mut bytes).unwrap();
    bytes
}

fn all_formats() -> EnabledFormats {
    EnabledFormats { deb: true, rpm: true }
}

#[test]
fn identify_deb_stream() {
    let data = build_deb("Package: debian-faq\nVersion: 10.1\nArchitecture: all\n");
    let pkg = identify(&data, &all_formats()).unwrap();
    assert_eq!(pkg.package_type(), RemotePackageType::Deb);
    assert_eq!(pkg.package_name().unwrap(), "debian-faq");
    assert_eq!(pkg.package_version().unwrap(), "10.1");
    assert_eq!(pkg.package_arch().unwrap(), "all");
    assert_eq!(pkg.package_iteration(), None);
}

#[test]
fn identify_rpm_stream() {
    let data = build_rpm("kibana", "8.2.1", "1", "x86_64");
    let pkg = identify(&data, &all_formats()).unwrap();
    assert_eq!(pkg.package_type(), RemotePackageType::Rpm);
    assert_eq!(pkg.package_name().unwrap(), "kibana");
    assert_eq!(pkg.package_version().unwrap(), "8.2.1");
    assert_eq!(pkg.package_arch().unwrap(), "x86_64");
    assert_eq!(pkg.package_iteration(), Some("1"));
}

#[test]
fn identify_unknown_stream() {
    let data = b"this stream matches no known package signature at all".to_vec();
    match identify(&data, &all_formats()) {
        Err(PkgError::UnknownPackageType(_)) => {}
        other => panic!("expected an unknown package type, got {:?}", other.map(|_| ())),
    }
}

#[test]
fn identify_unknown_carries_file_type_hint() {
    // A PNG header: recognizable as a file type, but no package format.
    let mut data = vec![0x89, 0x50, 0x4e, 0x47, 0x0d, 0x0a, 0x1a, 0x0a];
    data.resize(256, 0);
    match identify(&data, &all_formats()) {
        Err(PkgError::UnknownPackageType(hint)) => assert_eq!(hint, "png"),
        other => panic!("expected an unknown package type, got {:?}", other.map(|_| ())),
    }
}

#[test]
fn identify_disabled_format_is_unknown() {
    let data = build_deb("Package: debian-faq\nVersion: 10.1\nArchitecture: all\n");
    let enabled = EnabledFormats { deb: false, rpm: true };
    match identify(&data, &enabled) {
        Err(PkgError::UnknownPackageType(hint)) => assert_eq!(hint, "deb"),
        other => panic!("expected an unknown package type, got {:?}", other.map(|_| ())),
    }
}

#[test]
fn identify_propagates_adapter_parse_failure() {
    // Carries the Debian signature, but the container is truncated garbage.
    let mut data = b"!<arch>\ndebian-binary".to_vec();
    data.extend_from_slice(b"garbage that is no ar archive entry");
    match identify(&data, &all_formats()) {
        Err(PkgError::AdapterParseFailure(t, _)) => assert_eq!(t, RemotePackageType::Deb),
        other => panic!("expected an adapter parse failure, got {:?}", other.map(|_| ())),
    }
}

#[test]
fn identify_deb_with_revision_and_missing_arch() {
    let data = build_deb("Package: tool\nVersion: 1.2.3-4\n");
    let pkg = identify(&data, &all_formats()).unwrap();
    assert_eq!(pkg.package_iteration(), Some("4"));
    match pkg.package_arch() {
        Err(PkgError::FieldNotFound(field)) => assert_eq!(field, "Architecture"),
        other => panic!("expected a missing field, got {:?}", other.map(|_| ())),
    }
}

#[test]
fn sniff_classifies_prefixes() {
    let deb = build_deb("Package: p\nVersion: 1\n");
    assert_eq!(
        remotepkg::sniff::classify(&deb),
        Some(RemotePackageType::Deb)
    );
    let rpm_bytes = build_rpm("p", "1", "1", "noarch");
    assert_eq!(
        remotepkg::sniff::classify(&rpm_bytes),
        Some(RemotePackageType::Rpm)
    );
    assert_eq!(remotepkg::sniff::classify(&vec![0u8; 200]), None);

    let sniffed = remotepkg::sniff::sniff(&deb, 16);
    assert_eq!(sniffed.prefix, deb[..16].to_vec());
    // A 16-byte window is too short for the Debian signature.
    assert_eq!(sniffed.format, None);
}

/// A crafted 96-byte RPM lead that the lead parser accepts.
fn rpm_lead() -> Vec<u8> {
    let mut lead = vec![0u8; 96];
    lead[0] = 0xED;
    lead[1] = 0xAB;
    lead[2] = 0xEE;
    lead[3] = 0xDB;
    lead[4] = 3; // major
    lead[77] = 1; // os
    lead[79] = 5; // signature type
    lead
}

#[test]
fn identify_rejects_gnu_named_ar_member() {
    // Carries the Debian signature, but the second ar member's name would
    // index a GNU name table that is not there.
    let mut data = Vec::new();
    data.extend_from_slice(b"!<arch>\n");
    data.extend_from_slice(&ar_member("debian-binary", b"2.0\n"));
    data.extend_from_slice(&ar_member("/9", b"xx"));
    match identify(&data, &all_formats()) {
        Err(PkgError::AdapterParseFailure(t, _)) => assert_eq!(t, RemotePackageType::Deb),
        other => panic!("expected an adapter parse failure, got {:?}", other.map(|_| ())),
    }
}

#[test]
fn identify_rejects_rpm_entry_offset_outside_store() {
    // A valid lead, then a signature header whose only entry points at a
    // negative store offset.
    let mut data = rpm_lead();
    data.extend_from_slice(&[0x8E, 0xAD, 0xE8, 0x01, 0, 0, 0, 0]);
    data.extend_from_slice(&1u32.to_be_bytes()); // one entry
    data.extend_from_slice(&4u32.to_be_bytes()); // four store bytes
    data.extend_from_slice(&1000u32.to_be_bytes()); // tag
    data.extend_from_slice(&6u32.to_be_bytes()); // string type
    data.extend_from_slice(&0xFFFF_FFFFu32.to_be_bytes()); // offset -1
    data.extend_from_slice(&1u32.to_be_bytes()); // count
    data.extend_from_slice(&[0u8; 4]); // store
    match identify(&data, &all_formats()) {
        Err(PkgError::AdapterParseFailure(t, _)) => assert_eq!(t, RemotePackageType::Rpm),
        other => panic!("expected an adapter parse failure, got {:?}", other.map(|_| ())),
    }
}

#[test]
fn identify_rejects_rpm_string_array_without_terminators() {
    // One string-array entry asking for two items out of a store that
    // holds no terminator at all.
    let mut data = rpm_lead();
    data.extend_from_slice(&[0x8E, 0xAD, 0xE8, 0x01, 0, 0, 0, 0]);
    data.extend_from_slice(&1u32.to_be_bytes());
    data.extend_from_slice(&4u32.to_be_bytes());
    data.extend_from_slice(&1000u32.to_be_bytes());
    data.extend_from_slice(&8u32.to_be_bytes()); // string-array type
    data.extend_from_slice(&0u32.to_be_bytes()); // offset 0
    data.extend_from_slice(&2u32.to_be_bytes()); // two items
    data.extend_from_slice(b"ABCD"); // store without a single terminator
    match identify(&data, &all_formats()) {
        Err(PkgError::AdapterParseFailure(t, _)) => assert_eq!(t, RemotePackageType::Rpm),
        other => panic!("expected an adapter parse failure, got {:?}", other.map(|_| ())),
    }
}

#[test]
fn identify_rejects_rpm_header_size_overflow() {
    // An entry count whose sixteenfold overflows the reader's 32-bit sum.
    let mut data = rpm_lead();
    data.extend_from_slice(&[0x8E, 0xAD, 0xE8, 0x01, 0, 0, 0, 0]);
    data.extend_from_slice(&0x1000_0000u32.to_be_bytes());
    data.extend_from_slice(&0u32.to_be_bytes());
    data.extend_from_slice(&[0u8; 32]);
    match identify(&data, &all_formats()) {
        Err(PkgError::AdapterParseFailure(t, _)) => assert_eq!(t, RemotePackageType::Rpm),
        other => panic!("expected an adapter parse failure, got {:?}", other.map(|_| ())),
    }
}

#[test]
fn repeated_queries_return_identical_values() {
    let data = build_rpm("kibana", "8.2.1", "1", "x86_64");
    let pkg = identify(&data, &all_formats()).unwrap();
    assert_eq!(pkg.package_name().unwrap(), pkg.package_name().unwrap());
    assert_eq!(
        pkg.package_version().unwrap(),
        pkg.package_version().unwrap()
    );
    assert_eq!(pkg.package_arch().unwrap(), pkg.package_arch().unwrap());
    assert_eq!(pkg.package_iteration(), pkg.package_iteration());
    let _ = match &pkg {
        RemotePackage::Rpm(_) => (),
        RemotePackage::Deb(_) => panic!("an RPM stream yielded a Debian package"),
    };
}
