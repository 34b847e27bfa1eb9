use freebsd_geom::raw;
use freebsd_geom::{EdgeMetadata, Error, Geom, GeomClass, Graph, PartMetadata, PartScheme, PartState};

fn fields() -> raw::ProviderConfig {
    raw::ProviderConfig {
        fwheads: Some(1),
        fwsectors: Some(2),
        rotationrate: Some(7200),
        ident: Some("S3Z".to_string()),
        lunid: Some("00123abcd".to_string()),
        descr: Some("Samsung SSD".to_string()),
        start: Some(3),
        end: Some(4),
        index: Some(5),
        type_: Some("freebsd-zfs".to_string()),
        offset: Some(6),
        length: Some(7),
        label: Some("tank".to_string()),
        rawtype: Some("raw".to_string()),
        rawuuid: Some("uuid".to_string()),
        efimedia: Some("HD".to_string()),
        seclength: Some(8),
        secoffset: Some(9),
    }
}

fn provider(config: raw::ProviderConfig) -> raw::Provider {
    raw::Provider {
        id: "0x123".to_string(),
        geom_ref: raw::GeomRef {
            ref_: "0x456".to_string(),
        },
        mode: "r1w1e3".to_string(),
        name: "ada0".to_string(),
        mediasize: 10,
        sectorsize: 2,
        stripesize: 0,
        stripeoffset: 123,
        config,
    }
}

fn geom(config: Option<raw::GeomConfig>) -> raw::Geom {
    raw::Geom {
        id: "0x123".to_string(),
        class_ref: raw::ClassRef {
            ref_: "0x456".to_string(),
        },
        name: "ada0".to_string(),
        rank: 1,
        config,
        consumers: vec![],
        providers: vec![],
    }
}

#[test]
fn disk_metadata() {
    assert_eq!(
        EdgeMetadata::disk_from_raw(&provider(fields())),
        Ok(Box::new(EdgeMetadata::DISK {
            fwheads: 1,
            fwsectors: 2,
            rotationrate: 7200,
            ident: "S3Z".to_string(),
            lunid: "00123abcd".to_string(),
            descr: "Samsung SSD".to_string(),
        }))
    );
    let strip: [fn(&mut raw::ProviderConfig); 6] = [
        |c| c.fwheads = None,
        |c| c.fwsectors = None,
        |c| c.rotationrate = None,
        |c| c.ident = None,
        |c| c.lunid = None,
        |c| c.descr = None,
    ];
    for f in strip {
        let mut c = fields();
        f(&mut c);
        assert_eq!(EdgeMetadata::disk_from_raw(&provider(c)), Err(Error::GraphError));
    }
}

#[test]
fn part_metadata() {
    assert_eq!(
        EdgeMetadata::part_from_raw(&provider(fields())),
        Ok(Box::new(EdgeMetadata::PART {
            start: 3,
            end: 4,
            index: 5,
            type_: "freebsd-zfs".to_string(),
            offset: 6,
            length: 7,
            label: Some("tank".to_string()),
            rawtype: Some("raw".to_string()),
            rawuuid: Some("uuid".to_string()),
            efimedia: Some("HD".to_string()),
        }))
    );
    let mut c = fields();
    c.label = None;
    c.rawuuid = None;
    assert_eq!(
        EdgeMetadata::part_from_raw(&provider(c)),
        Ok(Box::new(EdgeMetadata::PART {
            start: 3,
            end: 4,
            index: 5,
            type_: "freebsd-zfs".to_string(),
            offset: 6,
            length: 7,
            label: None,
            rawtype: Some("raw".to_string()),
            rawuuid: None,
            efimedia: Some("HD".to_string()),
        }))
    );
    let strip: [fn(&mut raw::ProviderConfig); 6] = [
        |c| c.start = None,
        |c| c.end = None,
        |c| c.index = None,
        |c| c.type_ = None,
        |c| c.offset = None,
        |c| c.length = None,
    ];
    for f in strip {
        let mut c = fields();
        f(&mut c);
        assert_eq!(EdgeMetadata::part_from_raw(&provider(c)), Err(Error::GraphError));
    }
}

#[test]
fn label_metadata() {
    assert_eq!(
        EdgeMetadata::label_from_raw(&provider(fields())),
        Ok(Box::new(EdgeMetadata::LABEL {
            index: 5,
            offset: 6,
            length: 7,
            seclength: 8,
            secoffset: 9,
        }))
    );
    let strip: [fn(&mut raw::ProviderConfig); 5] = [
        |c| c.index = None,
        |c| c.offset = None,
        |c| c.length = None,
        |c| c.seclength = None,
        |c| c.secoffset = None,
    ];
    for f in strip {
        let mut c = fields();
        f(&mut c);
        assert_eq!(EdgeMetadata::label_from_raw(&provider(c)), Err(Error::GraphError));
    }
}

#[test]
fn metadata_by_class() {
    let p = provider(fields());
    assert!(matches!(
        EdgeMetadata::from_raw(GeomClass::DISK, &p).unwrap().as_deref(),
        Some(EdgeMetadata::DISK { .. })
    ));
    assert!(matches!(
        EdgeMetadata::from_raw(GeomClass::PART, &p).unwrap().as_deref(),
        Some(EdgeMetadata::PART { .. })
    ));
    assert!(matches!(
        EdgeMetadata::from_raw(GeomClass::LABEL, &p).unwrap().as_deref(),
        Some(EdgeMetadata::LABEL { .. })
    ));
    assert!(matches!(
        EdgeMetadata::from_raw(GeomClass::Flashmap, &p).unwrap().as_deref(),
        Some(EdgeMetadata::LABEL { .. })
    ));
    for class in [
        GeomClass::FD,
        GeomClass::RAID,
        GeomClass::DEV,
        GeomClass::VFS,
        GeomClass::SWAP,
        GeomClass::MD,
    ] {
        assert_eq!(EdgeMetadata::from_raw(class, &p), Ok(None));
    }
    let mut c = fields();
    c.secoffset = None;
    let p = provider(c);
    assert_eq!(EdgeMetadata::from_raw(GeomClass::Flashmap, &p), Err(Error::GraphError));
    assert_eq!(EdgeMetadata::from_raw(GeomClass::LABEL, &p), Err(Error::GraphError));
    assert!(EdgeMetadata::from_raw(GeomClass::PART, &p).is_ok());
    assert_eq!(EdgeMetadata::from_raw(GeomClass::MD, &p), Ok(None));
}

#[test]
fn table_metadata() {
    let config = raw::GeomConfig {
        scheme: Some("MBR".to_string()),
        entries: Some(4),
        first: Some(63),
        last: Some(1000),
        fwsectors: Some(63),
        fwheads: Some(255),
        state: Some("CORRUPT".to_string()),
        modified: Some(true),
    };
    assert_eq!(
        PartMetadata::from_raw(&geom(Some(config))),
        Ok(PartMetadata {
            scheme: PartScheme::MBR,
            entries: 4,
            first: 63,
            last: 1000,
            fwsectors: 63,
            fwheads: 255,
            state: PartState::CORRUPT,
            modified: true,
        })
    );
    assert_eq!(PartMetadata::from_raw(&geom(None)), Err(Error::GraphError));
    let empty = raw::GeomConfig {
        scheme: None,
        entries: None,
        first: None,
        last: None,
        fwsectors: None,
        fwheads: None,
        state: None,
        modified: None,
    };
    assert_eq!(PartMetadata::from_raw(&geom(Some(empty))), Err(Error::GraphError));
}

#[test]
fn node_of_a_geom() {
    let node = Geom::from_raw(GeomClass::DISK, &geom(None)).unwrap();
    assert_eq!(node.class, GeomClass::DISK);
    assert_eq!(node.name, "ada0");
    assert_eq!(node.rank, 1);
    assert!(node.metadata.is_none());
    assert_eq!(
        Geom::from_raw(GeomClass::PART, &geom(None)).err(),
        Some(Error::GraphError)
    );
}

#[test]
fn new_graph_is_empty() {
    let g = Graph::new();
    assert!(g.nodes.is_empty());
    assert!(g.edges.is_empty());
    assert!(g.inedges.is_empty());
    assert!(g.outedges.is_empty());
    assert!(g.roots_iter().next().is_none());
    assert!(g.child_edgeids_iter(&1).next().is_none());
    assert!(g.child_edges_iter(&1).next().is_none());
    assert!(g.child_geoms_iter(&1).next().is_none());
}
