use freebsd_geom::raw;
use freebsd_geom::{decode_graph, EdgeMetadata, Error, GeomClass, Mode, PartScheme, PartState};

fn no_fields() -> raw::ProviderConfig {
    raw::ProviderConfig {
        fwheads: None,
        fwsectors: None,
        rotationrate: None,
        ident: None,
        lunid: None,
        descr: None,
        start: None,
        end: None,
        index: None,
        type_: None,
        offset: None,
        length: None,
        label: None,
        rawtype: None,
        rawuuid: None,
        efimedia: None,
        seclength: None,
        secoffset: None,
    }
}

fn disk_fields() -> raw::ProviderConfig {
    let mut c = no_fields();
    c.fwheads = Some(16);
    c.fwsectors = Some(63);
    c.rotationrate = Some(0);
    c.ident = Some("S3Z".to_string());
    c.lunid = Some("00123abcd".to_string());
    c.descr = Some("Samsung SSD".to_string());
    c
}

fn part_fields() -> raw::ProviderConfig {
    let mut c = no_fields();
    c.start = Some(40);
    c.end = Some(1063);
    c.index = Some(1);
    c.type_ = Some("efi".to_string());
    c.offset = Some(20480);
    c.length = Some(524288);
    c
}

fn label_fields() -> raw::ProviderConfig {
    let mut c = no_fields();
    c.index = Some(0);
    c.offset = Some(0);
    c.length = Some(1024);
    c.seclength = Some(2);
    c.secoffset = Some(0);
    c
}

fn table() -> raw::GeomConfig {
    raw::GeomConfig {
        scheme: Some("GPT".to_string()),
        entries: Some(128),
        first: Some(40),
        last: Some(1000),
        fwsectors: Some(63),
        fwheads: Some(16),
        state: Some("OK".to_string()),
        modified: Some(false),
    }
}

fn provider(id: &str, geom: &str, mode: &str, name: &str, config: raw::ProviderConfig) -> raw::Provider {
    raw::Provider {
        id: id.to_string(),
        geom_ref: raw::GeomRef {
            ref_: geom.to_string(),
        },
        mode: mode.to_string(),
        name: name.to_string(),
        mediasize: 1000204886016,
        sectorsize: 512,
        stripesize: 4096,
        stripeoffset: 0,
        config,
    }
}

fn consumer(id: &str, geom: &str, provider: &str, mode: &str) -> raw::Consumer {
    raw::Consumer {
        id: id.to_string(),
        geom_ref: raw::GeomRef {
            ref_: geom.to_string(),
        },
        provider_ref: raw::ProviderRef {
            ref_: provider.to_string(),
        },
        mode: mode.to_string(),
    }
}

fn geom(
    id: &str,
    name: &str,
    rank: u64,
    config: Option<raw::GeomConfig>,
    consumers: Vec<raw::Consumer>,
    providers: Vec<raw::Provider>,
) -> raw::Geom {
    raw::Geom {
        id: id.to_string(),
        class_ref: raw::ClassRef {
            ref_: "0xc0".to_string(),
        },
        name: name.to_string(),
        rank,
        config,
        consumers,
        providers,
    }
}

fn class(name: &str, geoms: Vec<raw::Geom>) -> raw::Class {
    raw::Class {
        id: "0xc0".to_string(),
        name: name.to_string(),
        geoms,
    }
}

/// A disk `0x1` that provides `0x10` to the consumer `0x20` of a device
/// node `0x2`.
fn chain(consumer_mode: &str, provider_mode: &str) -> raw::Mesh {
    raw::Mesh {
        classes: vec![
            class(
                "DISK",
                vec![geom(
                    "0x1",
                    "ada0",
                    1,
                    None,
                    vec![],
                    vec![provider("0x10", "0x1", provider_mode, "ada0", disk_fields())],
                )],
            ),
            class(
                "DEV",
                vec![geom(
                    "0x2",
                    "ada0",
                    2,
                    None,
                    vec![consumer("0x20", "0x2", "0x10", consumer_mode)],
                    vec![],
                )],
            ),
        ],
    }
}

#[test]
fn empty_mesh_decodes_to_empty_graph() {
    let g = decode_graph(&raw::Mesh { classes: vec![] }).unwrap();
    assert!(g.nodes.is_empty());
    assert!(g.edges.is_empty());
    assert!(g.inedges.is_empty());
    assert!(g.outedges.is_empty());
    assert!(g.roots_iter().next().is_none());
}

#[test]
fn minimal_two_node_chain() {
    let mesh = raw::Mesh {
        classes: vec![
            class(
                "DISK",
                vec![geom(
                    "0x1",
                    "ada0",
                    1,
                    None,
                    vec![],
                    vec![provider("0x1", "0x1", "r1w1e1", "ada0", disk_fields())],
                )],
            ),
            class(
                "DEV",
                vec![geom(
                    "0x2",
                    "ada0",
                    2,
                    None,
                    vec![consumer("0x3", "0x2", "0x1", "r1w1e1")],
                    vec![],
                )],
            ),
        ],
    };
    let g = decode_graph(&mesh).unwrap();
    assert_eq!(g.nodes.len(), 2);
    assert_eq!(g.edges.len(), 1);
    let keys: Vec<(u64, u64)> = g.edges.keys().copied().collect();
    assert_eq!(keys, vec![(0x3, 0x1)]);
    let mut roots = g.roots_iter();
    let (id, root) = roots.next().unwrap();
    assert_eq!(*id, 0x1);
    assert_eq!(root.class, GeomClass::DISK);
    assert_eq!(root.name, "ada0");
    assert!(roots.next().is_none());
}

#[test]
fn chain_in_full() {
    let g = decode_graph(&chain("r1w1e1", "r1w1e1")).unwrap();
    assert_eq!(g.nodes.len(), 2);
    assert_eq!(g.edges.len(), 1);
    assert!(g.edges.get(&(0x20, 0x1)).is_none());
    let edge = g.edges.get(&(0x20, 0x10)).unwrap();
    assert_eq!(edge.name, "ada0");
    assert_eq!(
        edge.mode,
        Mode {
            read: 1,
            write: 1,
            exclusive: 1
        }
    );
    assert_eq!(edge.mediasize, 1000204886016);
    assert_eq!(edge.sectorsize, 512);
    assert_eq!(edge.stripesize, 4096);
    assert_eq!(edge.stripeoffset, 0);
    assert_eq!(edge.consumer_geom, 2);
    assert_eq!(edge.provider_geom, 1);
    assert_eq!(
        edge.metadata.as_deref(),
        Some(&EdgeMetadata::DISK {
            fwheads: 16,
            fwsectors: 63,
            rotationrate: 0,
            ident: "S3Z".to_string(),
            lunid: "00123abcd".to_string(),
            descr: "Samsung SSD".to_string(),
        })
    );
    assert_eq!(g.inedges.get(&1), Some(&vec![(0x20, 0x10)]));
    assert_eq!(g.outedges.get(&2), Some(&vec![(0x20, 0x10)]));
    assert_eq!(g.inedges.len(), 1);
    assert_eq!(g.outedges.len(), 1);

    let disk = g.nodes.get(&1).unwrap();
    assert_eq!(disk.class, GeomClass::DISK);
    assert_eq!(disk.name, "ada0");
    assert_eq!(disk.rank, 1);
    assert!(disk.metadata.is_none());
    let dev = g.nodes.get(&2).unwrap();
    assert_eq!(dev.class, GeomClass::DEV);
    assert_eq!(dev.rank, 2);
}

#[test]
fn mode_mismatch_rejected() {
    assert_eq!(
        decode_graph(&chain("r1w1e1", "r0w0e0")).err(),
        Some(Error::GraphError)
    );
    assert_eq!(
        decode_graph(&chain("r1w1e1", "r1w1e0")).err(),
        Some(Error::GraphError)
    );
    assert_eq!(
        decode_graph(&chain("r1w1e1", " r1w1e1")).err(),
        Some(Error::GraphError)
    );
}

#[test]
fn idle_consumer_goes_with_any_provider() {
    let g = decode_graph(&chain("r0w0e0", "r1w1e2")).unwrap();
    let edge = g.edges.get(&(0x20, 0x10)).unwrap();
    assert_eq!(
        edge.mode,
        Mode {
            read: 1,
            write: 1,
            exclusive: 2
        }
    );
    assert!(decode_graph(&chain("r0w0e0", "r0w0e0")).is_ok());
    assert_eq!(
        decode_graph(&chain(" r0w0e0", "r1w1e2")).err(),
        Some(Error::GraphError)
    );
}

#[test]
fn unreadable_mode_rejected() {
    assert_eq!(
        decode_graph(&chain("bogus", "bogus")).err(),
        Some(Error::Scan("bogus".to_string()))
    );
    assert_eq!(
        decode_graph(&chain("r0w0e0", "r1w1")).err(),
        Some(Error::Scan("r1w1".to_string()))
    );
}

#[test]
fn dangling_provider_reference() {
    let mut mesh = chain("r1w1e1", "r1w1e1");
    mesh.classes[1].geoms[0].consumers[0].provider_ref.ref_ = "0x11".to_string();
    assert_eq!(decode_graph(&mesh).err(), Some(Error::GraphError));
}

#[test]
fn dangling_geom_of_provider() {
    let mut mesh = chain("r1w1e1", "r1w1e1");
    mesh.classes[0].geoms[0].providers[0].geom_ref.ref_ = "0x3".to_string();
    assert_eq!(decode_graph(&mesh).err(), Some(Error::GraphError));
}

#[test]
fn dangling_geom_of_consumer() {
    let mut mesh = chain("r1w1e1", "r1w1e1");
    mesh.classes[1].geoms[0].consumers[0].geom_ref.ref_ = "0x3".to_string();
    assert_eq!(decode_graph(&mesh).err(), Some(Error::GraphError));
}

#[test]
fn unrecognized_class_name() {
    let mut mesh = chain("r1w1e1", "r1w1e1");
    mesh.classes.insert(0, class("BOGUS", vec![geom("zz", "x", 1, None, vec![], vec![])]));
    assert_eq!(
        decode_graph(&mesh).err(),
        Some(Error::Parse("BOGUS".to_string()))
    );
    let mesh = raw::Mesh {
        classes: vec![class("BOGUS", vec![])],
    };
    assert_eq!(
        decode_graph(&mesh).err(),
        Some(Error::Parse("BOGUS".to_string()))
    );
}

#[test]
fn malformed_identifiers() {
    let mut mesh = chain("r1w1e1", "r1w1e1");
    mesh.classes[0].geoms[0].id = "0xzz".to_string();
    assert_eq!(decode_graph(&mesh).err(), Some(Error::Scan("0xzz".to_string())));

    let mut mesh = chain("r1w1e1", "r1w1e1");
    mesh.classes[1].geoms[0].consumers[0].id = "".to_string();
    assert_eq!(decode_graph(&mesh).err(), Some(Error::Scan("".to_string())));

    let mut mesh = chain("r1w1e1", "r1w1e1");
    mesh.classes[1].geoms[0].consumers[0].provider_ref.ref_ = "p".to_string();
    assert_eq!(decode_graph(&mesh).err(), Some(Error::Scan("p".to_string())));

    let mut mesh = chain("r1w1e1", "r1w1e1");
    mesh.classes[0].geoms[0].providers[0].id = "0x".to_string();
    assert_eq!(decode_graph(&mesh).err(), Some(Error::Scan("0x".to_string())));

    let mut mesh = chain("r1w1e1", "r1w1e1");
    mesh.classes[0].geoms[0].providers[0].geom_ref.ref_ = "g".to_string();
    assert_eq!(decode_graph(&mesh).err(), Some(Error::Scan("g".to_string())));

    let mut mesh = chain("r1w1e1", "r1w1e1");
    mesh.classes[1].geoms[0].consumers[0].geom_ref.ref_ = "h".to_string();
    assert_eq!(decode_graph(&mesh).err(), Some(Error::Scan("h".to_string())));
}

#[test]
fn first_failure_in_document_order_wins() {
    // The class name is looked at before the geoms of the class.
    let mesh = raw::Mesh {
        classes: vec![
            class("DISK", vec![geom("zz", "ada0", 1, None, vec![], vec![])]),
            class("BOGUS", vec![]),
        ],
    };
    assert_eq!(decode_graph(&mesh).err(), Some(Error::Scan("zz".to_string())));
    let mesh = raw::Mesh {
        classes: vec![
            class("BOGUS", vec![]),
            class("DISK", vec![geom("zz", "ada0", 1, None, vec![], vec![])]),
        ],
    };
    assert_eq!(
        decode_graph(&mesh).err(),
        Some(Error::Parse("BOGUS".to_string()))
    );
    // Consumers come before providers; the first pass comes before the second.
    let mesh = raw::Mesh {
        classes: vec![class(
            "DISK",
            vec![geom(
                "0x1",
                "ada0",
                1,
                None,
                vec![consumer("k", "0x1", "0x10", "r0w0e0")],
                vec![provider("p", "0x1", "r0w0e0", "ada0", disk_fields())],
            )],
        )],
    };
    assert_eq!(decode_graph(&mesh).err(), Some(Error::Scan("k".to_string())));
}

#[test]
fn disk_edge_needs_its_fields() {
    let mut mesh = chain("r1w1e1", "r1w1e1");
    mesh.classes[0].geoms[0].providers[0].config.lunid = None;
    assert_eq!(decode_graph(&mesh).err(), Some(Error::GraphError));
    let mut mesh = chain("r1w1e1", "r1w1e1");
    mesh.classes[0].geoms[0].providers[0].config = part_fields();
    assert_eq!(decode_graph(&mesh).err(), Some(Error::GraphError));
}

/// A mesh with one parent of class `class` that provides `0x10`, which a
/// device node consumes.
fn below(class_name: &str, config: Option<raw::GeomConfig>, fields: raw::ProviderConfig) -> raw::Mesh {
    raw::Mesh {
        classes: vec![
            class(
                class_name,
                vec![geom(
                    "0x1",
                    "parent",
                    1,
                    config,
                    vec![],
                    vec![provider("0x10", "0x1", "r0w0e0", "child", fields)],
                )],
            ),
            class(
                "DEV",
                vec![geom(
                    "0x2",
                    "child",
                    2,
                    None,
                    vec![consumer("0x20", "0x2", "0x10", "r0w0e0")],
                    vec![],
                )],
            ),
        ],
    }
}

#[test]
fn metadata_goes_by_the_class_of_the_parent() {
    let g = decode_graph(&below("PART", Some(table()), part_fields())).unwrap();
    assert_eq!(
        g.edges.get(&(0x20, 0x10)).unwrap().metadata.as_deref(),
        Some(&EdgeMetadata::PART {
            start: 40,
            end: 1063,
            index: 1,
            type_: "efi".to_string(),
            offset: 20480,
            length: 524288,
            label: None,
            rawtype: None,
            rawuuid: None,
            efimedia: None,
        })
    );
    for name in ["LABEL", "Flashmap"] {
        let g = decode_graph(&below(name, None, label_fields())).unwrap();
        assert_eq!(
            g.edges.get(&(0x20, 0x10)).unwrap().metadata.as_deref(),
            Some(&EdgeMetadata::LABEL {
                index: 0,
                offset: 0,
                length: 1024,
                seclength: 2,
                secoffset: 0,
            }),
            "{}",
            name
        );
        assert_eq!(
            decode_graph(&below(name, None, disk_fields())).err(),
            Some(Error::GraphError)
        );
    }
    for name in ["FD", "RAID", "DEV", "VFS", "SWAP", "MD"] {
        for fields in [no_fields(), disk_fields(), part_fields(), label_fields()] {
            let g = decode_graph(&below(name, None, fields)).unwrap();
            assert!(g.edges.get(&(0x20, 0x10)).unwrap().metadata.is_none(), "{}", name);
        }
    }
}

#[test]
fn optional_fields_of_a_partition() {
    let mut fields = part_fields();
    fields.label = Some("boot".to_string());
    fields.rawtype = Some("c12a7328-f81f-11d2-ba4b-00a0c93ec93b".to_string());
    fields.rawuuid = Some("6f1e0a3c-0000-0000-0000-000000000001".to_string());
    fields.efimedia = Some("HD(1,GPT,6f1e0a3c,0x28,0x400)".to_string());
    let g = decode_graph(&below("PART", Some(table()), fields)).unwrap();
    assert_eq!(
        g.edges.get(&(0x20, 0x10)).unwrap().metadata.as_deref(),
        Some(&EdgeMetadata::PART {
            start: 40,
            end: 1063,
            index: 1,
            type_: "efi".to_string(),
            offset: 20480,
            length: 524288,
            label: Some("boot".to_string()),
            rawtype: Some("c12a7328-f81f-11d2-ba4b-00a0c93ec93b".to_string()),
            rawuuid: Some("6f1e0a3c-0000-0000-0000-000000000001".to_string()),
            efimedia: Some("HD(1,GPT,6f1e0a3c,0x28,0x400)".to_string()),
        })
    );
}

#[test]
fn part_node_says_of_its_table() {
    let g = decode_graph(&below("PART", Some(table()), part_fields())).unwrap();
    let m = g.nodes.get(&1).unwrap().metadata.as_deref().unwrap();
    assert_eq!(m.scheme, PartScheme::GPT);
    assert_eq!(m.state, PartState::OK);
    assert_eq!(m.entries, 128);
    assert_eq!(m.first, 40);
    assert_eq!(m.last, 1000);
    assert_eq!(m.fwsectors, 63);
    assert_eq!(m.fwheads, 16);
    assert!(!m.modified);
    // Only a table has it, whatever the geom carries.
    let g = decode_graph(&below("LABEL", Some(table()), label_fields())).unwrap();
    assert!(g.nodes.get(&1).unwrap().metadata.is_none());
}

#[test]
fn part_node_needs_its_table() {
    assert_eq!(
        decode_graph(&below("PART", None, part_fields())).err(),
        Some(Error::GraphError)
    );
    let mut t = table();
    t.scheme = None;
    t.state = Some("WRONG".to_string());
    assert_eq!(
        decode_graph(&below("PART", Some(t), part_fields())).err(),
        Some(Error::GraphError)
    );
    let mut t = table();
    t.scheme = Some("ZFS".to_string());
    t.state = None;
    assert_eq!(
        decode_graph(&below("PART", Some(t), part_fields())).err(),
        Some(Error::Parse("ZFS".to_string()))
    );
    let mut t = table();
    t.state = Some("WRONG".to_string());
    t.entries = None;
    assert_eq!(
        decode_graph(&below("PART", Some(t), part_fields())).err(),
        Some(Error::Parse("WRONG".to_string()))
    );
    let mut t = table();
    t.state = None;
    assert_eq!(
        decode_graph(&below("PART", Some(t), part_fields())).err(),
        Some(Error::GraphError)
    );
    let strip: [fn(&mut raw::GeomConfig); 6] = [
        |t| t.entries = None,
        |t| t.first = None,
        |t| t.last = None,
        |t| t.fwsectors = None,
        |t| t.fwheads = None,
        |t| t.modified = None,
    ];
    for f in strip {
        let mut t = table();
        f(&mut t);
        assert_eq!(
            decode_graph(&below("PART", Some(t), part_fields())).err(),
            Some(Error::GraphError)
        );
    }
    let mut t = table();
    t.state = Some("CORRUPT".to_string());
    t.modified = Some(true);
    let g = decode_graph(&below("PART", Some(t), part_fields())).unwrap();
    let m = g.nodes.get(&1).unwrap().metadata.as_deref().unwrap();
    assert_eq!(m.state, PartState::CORRUPT);
    assert!(m.modified);
}

#[test]
fn later_records_replace_earlier_ones() {
    let mesh = raw::Mesh {
        classes: vec![
            class(
                "DISK",
                vec![
                    geom("0x1", "first", 1, None, vec![], vec![]),
                    geom(
                        "0x01",
                        "second",
                        1,
                        None,
                        vec![],
                        vec![
                            provider("0x10", "0x1", "r0w0e0", "early", disk_fields()),
                            provider("0x10", "0x1", "r0w0e0", "late", disk_fields()),
                        ],
                    ),
                ],
            ),
            class(
                "DEV",
                vec![geom(
                    "0x2",
                    "dev",
                    2,
                    None,
                    vec![
                        consumer("0x20", "0x2", "0x10", "r0w0e0"),
                        consumer("0x20", "0x2", "0x10", "r0w0e0"),
                    ],
                    vec![],
                )],
            ),
        ],
    };
    let g = decode_graph(&mesh).unwrap();
    assert_eq!(g.nodes.len(), 2);
    assert_eq!(g.nodes.get(&1).unwrap().name, "second");
    assert_eq!(g.edges.len(), 1);
    assert_eq!(g.edges.get(&(0x20, 0x10)).unwrap().name, "late");
    assert_eq!(g.inedges.get(&1), Some(&vec![(0x20, 0x10)]));
    assert_eq!(g.outedges.get(&2), Some(&vec![(0x20, 0x10)]));
}

#[test]
fn edges_come_in_the_order_of_the_pairs() {
    // Three consumers of one provider, and one consumer of another, written
    // in descending order.
    let mesh = raw::Mesh {
        classes: vec![
            class(
                "DEV",
                vec![geom(
                    "0x2",
                    "dev",
                    2,
                    None,
                    vec![
                        consumer("0x23", "0x2", "0x10", "r0w0e0"),
                        consumer("0x22", "0x2", "0x11", "r0w0e0"),
                        consumer("0x21", "0x2", "0x10", "r0w0e0"),
                        consumer("0x20", "0x2", "0x10", "r0w0e0"),
                    ],
                    vec![],
                )],
            ),
            class(
                "MD",
                vec![geom(
                    "0x1",
                    "md0",
                    1,
                    None,
                    vec![],
                    vec![
                        provider("0x11", "0x1", "r1w0e0", "md0b", no_fields()),
                        provider("0x10", "0x1", "r1w0e0", "md0a", no_fields()),
                    ],
                )],
            ),
        ],
    };
    let g = decode_graph(&mesh).unwrap();
    let keys: Vec<(u64, u64)> = g.edges.keys().copied().collect();
    assert_eq!(
        keys,
        vec![(0x20, 0x10), (0x21, 0x10), (0x22, 0x11), (0x23, 0x10)]
    );
    assert_eq!(
        g.inedges.get(&1),
        Some(&vec![(0x20, 0x10), (0x21, 0x10), (0x22, 0x11), (0x23, 0x10)])
    );
    assert_eq!(
        g.outedges.get(&2),
        Some(&vec![(0x20, 0x10), (0x21, 0x10), (0x22, 0x11), (0x23, 0x10)])
    );
    assert!(g.inedges.get(&2).is_none());
    assert!(g.outedges.get(&1).is_none());
}

#[test]
fn second_pass_fails_at_the_least_pair() {
    // The pair (0x20, 0x10) fails on its mode, the pair (0x21, 0x12) on a
    // provider that is not there. The lesser pair is met first.
    let mesh = raw::Mesh {
        classes: vec![
            class(
                "DEV",
                vec![geom(
                    "0x2",
                    "dev",
                    2,
                    None,
                    vec![
                        consumer("0x21", "0x2", "0x12", "r0w0e0"),
                        consumer("0x20", "0x2", "0x10", "r0w0e0"),
                    ],
                    vec![],
                )],
            ),
            class(
                "MD",
                vec![geom(
                    "0x1",
                    "md0",
                    1,
                    None,
                    vec![],
                    vec![provider("0x10", "0x1", "rXwYeZ", "md0", no_fields())],
                )],
            ),
        ],
    };
    assert_eq!(
        decode_graph(&mesh).err(),
        Some(Error::Scan("rXwYeZ".to_string()))
    );
}

#[test]
fn decoding_twice_gives_the_same() {
    let mesh = below("PART", Some(table()), part_fields());
    let a = decode_graph(&mesh).unwrap();
    let b = decode_graph(&mesh).unwrap();
    assert_eq!(format!("{:?}", a), format!("{:?}", b));
    let mesh = chain("r1w1e1", "r0w0e0");
    assert_eq!(decode_graph(&mesh).err(), decode_graph(&mesh).err());
}
