use freebsd_geom::{Error, GeomClass, PartScheme, PartState};

#[test]
fn class_names() {
    let all = [
        (GeomClass::FD, "FD"),
        (GeomClass::RAID, "RAID"),
        (GeomClass::DISK, "DISK"),
        (GeomClass::DEV, "DEV"),
        (GeomClass::PART, "PART"),
        (GeomClass::LABEL, "LABEL"),
        (GeomClass::VFS, "VFS"),
        (GeomClass::SWAP, "SWAP"),
        (GeomClass::Flashmap, "Flashmap"),
        (GeomClass::MD, "MD"),
    ];
    for (class, name) in all {
        assert_eq!(class.as_ref(), name);
        assert_eq!(GeomClass::from_str(name), Ok(class));
    }
}

#[test]
fn class_names_are_exact() {
    for name in ["BOGUS", "", "disk", "Disk", "DISK ", " DISK", "FLASHMAP", "flashmap", "MD5"] {
        assert_eq!(
            GeomClass::from_str(name),
            Err(Error::Parse(name.to_string())),
            "{:?}",
            name
        );
    }
}

#[test]
fn scheme_names() {
    let all = [
        (PartScheme::APM, "APM"),
        (PartScheme::BSD, "BSD"),
        (PartScheme::BSD64, "BSD64"),
        (PartScheme::EBR, "EBR"),
        (PartScheme::GPT, "GPT"),
        (PartScheme::LDM, "LDM"),
        (PartScheme::MBR, "MBR"),
        (PartScheme::VTOC8, "VTOC8"),
    ];
    for (scheme, name) in all {
        assert_eq!(scheme.as_ref(), name);
        assert_eq!(PartScheme::from_str(name), Ok(scheme));
    }
    for name in ["gpt", "GPT2", "", "BSD6"] {
        assert_eq!(
            PartScheme::from_str(name),
            Err(Error::Parse(name.to_string()))
        );
    }
}

#[test]
fn state_names() {
    assert_eq!(PartState::CORRUPT.as_ref(), "CORRUPT");
    assert_eq!(PartState::OK.as_ref(), "OK");
    assert_eq!(PartState::from_str("CORRUPT"), Ok(PartState::CORRUPT));
    assert_eq!(PartState::from_str("OK"), Ok(PartState::OK));
    for name in ["ok", "Ok", "", "BAD"] {
        assert_eq!(
            PartState::from_str(name),
            Err(Error::Parse(name.to_string()))
        );
    }
}

#[test]
fn display_basic() {
    assert_eq!(Error::GraphError.to_string(), "GraphError");
}

#[test]
fn error_lines() {
    assert_eq!(Error::GraphError.as_ref(), "GraphError");
    assert_eq!(Error::Parse("BOGUS".to_string()).as_ref(), "Parse");
    assert_eq!(Error::Parse("BOGUS".to_string()).to_string(), "Parse: BOGUS");
    assert_eq!(Error::Scan("0xzz".to_string()).to_string(), "Scan: 0xzz");
    assert_eq!(
        Error::Decode("missing field `name`".to_string()).to_string(),
        "Decode: missing field `name`"
    );
    assert_eq!(
        Error::Sysctl("not found".to_string()).to_string(),
        "Sysctl: not found"
    );
    assert_eq!(Error::Scan(String::new()).to_string(), "Scan: ");
}
