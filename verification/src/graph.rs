//! The topology as a graph.
//!
//! The nodes are geoms. An edge stands for a consumer attached to a provider:
//! it leads from the geom that consumes (the child) to the geom that provides
//! (the parent). Seen from a node, the edges on which it is the child are its
//! out-edges, and those on which it is the parent are its in-edges.
//!
//! What a partition table says of itself stands at its node. Everything else
//! that depends on a class stands at the edges below the geoms of that class.

use vstd::prelude::*;
use std::collections::BTreeMap;
use crate::error::{outcome, Error, ErrorView};
use crate::order::ascending_pairs;
use crate::scan::{scan_mode, scan_triple};
use crate::structs as raw;
use crate::structs::{GeomConfigView, ProviderConfigView};

verus! {

/// The key of a [`Geom`] in a [`Graph`].
pub type NodeId = u64;

/// The key of an [`Edge`] in a [`Graph`]: the consumer's identifier, then the
/// provider's.
pub type EdgeId = (u64, u64);

/// Whether two texts are the same.
pub(crate) fn same_text(a: &str, b: &str) -> (same: bool)
    ensures
        same == (a@ == b@),
{
    a.to_owned() == b.to_owned()
}

/// The class of a [`Geom`].
#[derive(Copy, Clone, Debug, PartialEq, Eq, Structural)]
pub enum GeomClass {
    /// Floppy disk
    FD,
    RAID,
    /// Storage devices as such: SATA, NVMe, IDE
    DISK,
    /// A device node under `/dev`
    DEV,
    /// A partition table, such as GPT or MBR
    PART,
    /// Another name for a geom: a serial number, a partition label, a label
    /// inside a file system
    LABEL,
    VFS,
    SWAP,
    Flashmap,
    /// Memory disk
    MD,
}

impl GeomClass {
    /// The name of the class.
    pub open spec fn name(self) -> Seq<char> {
        match self {
            GeomClass::FD => "FD"@,
            GeomClass::RAID => "RAID"@,
            GeomClass::DISK => "DISK"@,
            GeomClass::DEV => "DEV"@,
            GeomClass::PART => "PART"@,
            GeomClass::LABEL => "LABEL"@,
            GeomClass::VFS => "VFS"@,
            GeomClass::SWAP => "SWAP"@,
            GeomClass::Flashmap => "Flashmap"@,
            GeomClass::MD => "MD"@,
        }
    }

    /// The class that is called `name`, letter for letter.
    pub open spec fn named(name: Seq<char>) -> Option<GeomClass> {
        if name == GeomClass::FD.name() {
            Some(GeomClass::FD)
        } else if name == GeomClass::RAID.name() {
            Some(GeomClass::RAID)
        } else if name == GeomClass::DISK.name() {
            Some(GeomClass::DISK)
        } else if name == GeomClass::DEV.name() {
            Some(GeomClass::DEV)
        } else if name == GeomClass::PART.name() {
            Some(GeomClass::PART)
        } else if name == GeomClass::LABEL.name() {
            Some(GeomClass::LABEL)
        } else if name == GeomClass::VFS.name() {
            Some(GeomClass::VFS)
        } else if name == GeomClass::SWAP.name() {
            Some(GeomClass::SWAP)
        } else if name == GeomClass::Flashmap.name() {
            Some(GeomClass::Flashmap)
        } else if name == GeomClass::MD.name() {
            Some(GeomClass::MD)
        } else {
            None
        }
    }

    /// The name of the class.
    pub fn as_ref(&self) -> (name: &'static str)
        ensures
            name@ == self.name(),
    {
        match self {
            GeomClass::FD => "FD",
            GeomClass::RAID => "RAID",
            GeomClass::DISK => "DISK",
            GeomClass::DEV => "DEV",
            GeomClass::PART => "PART",
            GeomClass::LABEL => "LABEL",
            GeomClass::VFS => "VFS",
            GeomClass::SWAP => "SWAP",
            GeomClass::Flashmap => "Flashmap",
            GeomClass::MD => "MD",
        }
    }

    /// Finds the class by its name.
    pub fn from_str(s: &str) -> (r: Result<GeomClass, Error>)
        ensures
            match r {
                Ok(class) => GeomClass::named(s@) == Some(class),
                Err(e) => GeomClass::named(s@) is None && e@ == ErrorView::Parse(s@),
            },
    {
        if same_text(s, "FD") {
            Ok(GeomClass::FD)
        } else if same_text(s, "RAID") {
            Ok(GeomClass::RAID)
        } else if same_text(s, "DISK") {
            Ok(GeomClass::DISK)
        } else if same_text(s, "DEV") {
            Ok(GeomClass::DEV)
        } else if same_text(s, "PART") {
            Ok(GeomClass::PART)
        } else if same_text(s, "LABEL") {
            Ok(GeomClass::LABEL)
        } else if same_text(s, "VFS") {
            Ok(GeomClass::VFS)
        } else if same_text(s, "SWAP") {
            Ok(GeomClass::SWAP)
        } else if same_text(s, "Flashmap") {
            Ok(GeomClass::Flashmap)
        } else if same_text(s, "MD") {
            Ok(GeomClass::MD)
        } else {
            Err(Error::Parse(s.to_owned()))
        }
    }
}

/// The scheme of a partition table.
#[derive(Copy, Clone, Debug, PartialEq, Eq, Structural)]
pub enum PartScheme {
    /// Apple Partition Map
    APM,
    /// FreeBSD disklabels
    BSD,
    /// DragonFly BSD disklabels
    BSD64,
    /// Extended Boot Record
    EBR,
    /// GUID Partition Table
    GPT,
    /// Logical Disk Manager
    LDM,
    /// Master Boot Record
    MBR,
    /// Volume Table of Contents
    VTOC8,
}

impl PartScheme {
    /// The name of the scheme.
    pub open spec fn name(self) -> Seq<char> {
        match self {
            PartScheme::APM => "APM"@,
            PartScheme::BSD => "BSD"@,
            PartScheme::BSD64 => "BSD64"@,
            PartScheme::EBR => "EBR"@,
            PartScheme::GPT => "GPT"@,
            PartScheme::LDM => "LDM"@,
            PartScheme::MBR => "MBR"@,
            PartScheme::VTOC8 => "VTOC8"@,
        }
    }

    /// The scheme that is called `name`, letter for letter.
    pub open spec fn named(name: Seq<char>) -> Option<PartScheme> {
        if name == PartScheme::APM.name() {
            Some(PartScheme::APM)
        } else if name == PartScheme::BSD.name() {
            Some(PartScheme::BSD)
        } else if name == PartScheme::BSD64.name() {
            Some(PartScheme::BSD64)
        } else if name == PartScheme::EBR.name() {
            Some(PartScheme::EBR)
        } else if name == PartScheme::GPT.name() {
            Some(PartScheme::GPT)
        } else if name == PartScheme::LDM.name() {
            Some(PartScheme::LDM)
        } else if name == PartScheme::MBR.name() {
            Some(PartScheme::MBR)
        } else if name == PartScheme::VTOC8.name() {
            Some(PartScheme::VTOC8)
        } else {
            None
        }
    }

    /// The name of the scheme.
    pub fn as_ref(&self) -> (name: &'static str)
        ensures
            name@ == self.name(),
    {
        match self {
            PartScheme::APM => "APM",
            PartScheme::BSD => "BSD",
            PartScheme::BSD64 => "BSD64",
            PartScheme::EBR => "EBR",
            PartScheme::GPT => "GPT",
            PartScheme::LDM => "LDM",
            PartScheme::MBR => "MBR",
            PartScheme::VTOC8 => "VTOC8",
        }
    }

    /// Finds the scheme by its name.
    pub fn from_str(s: &str) -> (r: Result<PartScheme, Error>)
        ensures
            match r {
                Ok(scheme) => PartScheme::named(s@) == Some(scheme),
                Err(e) => PartScheme::named(s@) is None && e@ == ErrorView::Parse(s@),
            },
    {
        if same_text(s, "APM") {
            Ok(PartScheme::APM)
        } else if same_text(s, "BSD") {
            Ok(PartScheme::BSD)
        } else if same_text(s, "BSD64") {
            Ok(PartScheme::BSD64)
        } else if same_text(s, "EBR") {
            Ok(PartScheme::EBR)
        } else if same_text(s, "GPT") {
            Ok(PartScheme::GPT)
        } else if same_text(s, "LDM") {
            Ok(PartScheme::LDM)
        } else if same_text(s, "MBR") {
            Ok(PartScheme::MBR)
        } else if same_text(s, "VTOC8") {
            Ok(PartScheme::VTOC8)
        } else {
            Err(Error::Parse(s.to_owned()))
        }
    }
}

/// Whether a partition table is sound. `CORRUPT` covers a damaged header, an
/// inconsistency inside the table and partitions that overlap.
#[derive(Copy, Clone, Debug, PartialEq, Eq, Structural)]
pub enum PartState {
    CORRUPT,
    OK,
}

impl PartState {
    /// The name of the state.
    pub open spec fn name(self) -> Seq<char> {
        match self {
            PartState::CORRUPT => "CORRUPT"@,
            PartState::OK => "OK"@,
        }
    }

    /// The state that is called `name`, letter for letter.
    pub open spec fn named(name: Seq<char>) -> Option<PartState> {
        if name == PartState::CORRUPT.name() {
            Some(PartState::CORRUPT)
        } else if name == PartState::OK.name() {
            Some(PartState::OK)
        } else {
            None
        }
    }

    /// The name of the state.
    pub fn as_ref(&self) -> (name: &'static str)
        ensures
            name@ == self.name(),
    {
        match self {
            PartState::CORRUPT => "CORRUPT",
            PartState::OK => "OK",
        }
    }

    /// Finds the state by its name.
    pub fn from_str(s: &str) -> (r: Result<PartState, Error>)
        ensures
            match r {
                Ok(state) => PartState::named(s@) == Some(state),
                Err(e) => PartState::named(s@) is None && e@ == ErrorView::Parse(s@),
            },
    {
        if same_text(s, "CORRUPT") {
            Ok(PartState::CORRUPT)
        } else if same_text(s, "OK") {
            Ok(PartState::OK)
        } else {
            Err(Error::Parse(s.to_owned()))
        }
    }
}

/// What a partition table says of itself.
#[derive(Copy, Clone, Debug, PartialEq, Eq, Structural)]
pub struct PartMetadata {
    /// The partitioning scheme
    pub scheme: PartScheme,
    /// The number of partitions in the table
    pub entries: u64,
    /// The first block that can be allocated
    pub first: u64,
    /// The last block that can be allocated
    pub last: u64,
    /// Sectors of the firmware's geometry
    pub fwsectors: u64,
    /// Heads of the firmware's geometry
    pub fwheads: u64,
    /// Whether the table is sound
    pub state: PartState,
    /// Whether the table was changed and not yet written
    pub modified: bool,
}

impl PartMetadata {
    /// What the configuration of a geom of class `PART` says of its table.
    ///
    /// The scheme is looked at first, then the state, then the other fields.
    /// A field that is not there gives `GraphError`; a scheme or a state that
    /// has no such name gives `Parse` with that name.
    pub open spec fn of(config: Option<GeomConfigView>) -> Result<PartMetadata, ErrorView> {
        if config is None {
            Err(ErrorView::GraphError)
        } else {
            let c = config.unwrap();
            if c.scheme is None {
                Err(ErrorView::GraphError)
            } else if PartScheme::named(c.scheme.unwrap()) is None {
                Err(ErrorView::Parse(c.scheme.unwrap()))
            } else if c.state is None {
                Err(ErrorView::GraphError)
            } else if PartState::named(c.state.unwrap()) is None {
                Err(ErrorView::Parse(c.state.unwrap()))
            } else if c.entries is None || c.first is None || c.last is None || c.fwsectors is None
                || c.fwheads is None || c.modified is None {
                Err(ErrorView::GraphError)
            } else {
                Ok(
                    PartMetadata {
                        scheme: PartScheme::named(c.scheme.unwrap()).unwrap(),
                        entries: c.entries.unwrap(),
                        first: c.first.unwrap(),
                        last: c.last.unwrap(),
                        fwsectors: c.fwsectors.unwrap(),
                        fwheads: c.fwheads.unwrap(),
                        state: PartState::named(c.state.unwrap()).unwrap(),
                        modified: c.modified.unwrap(),
                    },
                )
            }
        }
    }

    /// Reads what a geom of class `PART` says of its table.
    pub fn from_raw(geom: &raw::Geom) -> (r: Result<PartMetadata, Error>)
        ensures
            match r {
                Ok(m) => PartMetadata::of(geom@.config) == Ok::<PartMetadata, ErrorView>(m),
                Err(e) => PartMetadata::of(geom@.config) == Err::<PartMetadata, ErrorView>(e@),
            },
    {
        let c = match &geom.config {
            Some(c) => c,
            None => { return Err(Error::GraphError); },
        };
        let scheme = match &c.scheme {
            Some(name) => PartScheme::from_str(name.as_str())?,
            None => { return Err(Error::GraphError); },
        };
        let state = match &c.state {
            Some(name) => PartState::from_str(name.as_str())?,
            None => { return Err(Error::GraphError); },
        };
        match (c.entries, c.first, c.last, c.fwsectors, c.fwheads, c.modified) {
            (Some(entries), Some(first), Some(last), Some(fwsectors), Some(fwheads), Some(modified)) => Ok(
                PartMetadata { scheme, entries, first, last, fwsectors, fwheads, state, modified },
            ),
            _ => Err(Error::GraphError),
        }
    }
}

/// How many hold a provider open: for reading, for writing and exclusively.
#[derive(Copy, Clone, Debug, PartialEq, Eq, Structural)]
pub struct Mode {
    pub read: u16,
    pub write: u16,
    pub exclusive: u16,
}

impl Mode {
    /// The mode that `s` spells in the form `r1w1e0`.
    pub open spec fn of(s: Seq<char>) -> Option<Mode> {
        match scan_triple(s) {
            Some((read, write, exclusive)) => Some(Mode { read, write, exclusive }),
            None => None,
        }
    }

    /// Reads a mode written in the form `r1w1e0`.
    pub fn from_str(s: &str) -> (r: Result<Mode, Error>)
        ensures
            match r {
                Ok(mode) => Mode::of(s@) == Some(mode),
                Err(e) => Mode::of(s@) is None && e@ == ErrorView::Scan(s@),
            },
    {
        let (read, write, exclusive) = scan_mode(s)?;
        Ok(Mode { read, write, exclusive })
    }
}

/// What an [`Edge`] carries besides its sizes. Which variant it is depends on
/// the class of the geom that provides.
#[derive(Debug, PartialEq, Eq)]
pub enum EdgeMetadata {
    /// Below a geom of class `DISK`.
    DISK {
        /// Heads of the firmware's geometry
        fwheads: u64,
        /// Sectors of the firmware's geometry
        fwsectors: u64,
        /// Zero for solid-state drives
        rotationrate: u64,
        /// A serial number or another identifier
        ident: String,
        /// The identifier of the logical unit
        lunid: String,
        /// A description, such as make and model
        descr: String,
    },
    /// Below a geom of class `PART`: one entry of the partition table.
    PART {
        /// The first block of the partition
        start: u64,
        /// The last block of the partition
        end: u64,
        /// The place of the entry in the table
        index: u64,
        /// The kind of content, under the name the system gives it
        type_: String,
        /// Where the partition starts, in bytes
        offset: u64,
        /// How long the partition is, in bytes
        length: u64,
        /// The label of the partition, where the scheme has one
        label: Option<String>,
        /// The kind of content as the scheme writes it, where it does
        rawtype: Option<String>,
        /// The unique identifier of the partition, where the scheme has one
        rawuuid: Option<String>,
        /// The firmware's path to the partition, where the scheme has one
        efimedia: Option<String>,
    },
    /// Below a geom of class `LABEL` or `Flashmap`: a slice of what lies
    /// beneath.
    LABEL {
        index: u64,
        offset: u64,
        /// The length of the volume, in bytes
        length: u64,
        /// The length of the volume, in sectors
        seclength: u64,
        secoffset: u64,
    },
}

/// An [`EdgeMetadata`] with its texts as sequences of characters.
pub enum EdgeMetadataView {
    DISK {
        fwheads: u64,
        fwsectors: u64,
        rotationrate: u64,
        ident: Seq<char>,
        lunid: Seq<char>,
        descr: Seq<char>,
    },
    PART {
        start: u64,
        end: u64,
        index: u64,
        type_: Seq<char>,
        offset: u64,
        length: u64,
        label: Option<Seq<char>>,
        rawtype: Option<Seq<char>>,
        rawuuid: Option<Seq<char>>,
        efimedia: Option<Seq<char>>,
    },
    LABEL { index: u64, offset: u64, length: u64, seclength: u64, secoffset: u64 },
}

impl View for EdgeMetadata {
    type V = EdgeMetadataView;

    open spec fn view(&self) -> EdgeMetadataView {
        match self {
            EdgeMetadata::DISK { fwheads, fwsectors, rotationrate, ident, lunid, descr } => {
                EdgeMetadataView::DISK {
                    fwheads: *fwheads,
                    fwsectors: *fwsectors,
                    rotationrate: *rotationrate,
                    ident: ident@,
                    lunid: lunid@,
                    descr: descr@,
                }
            },
            EdgeMetadata::PART {
                start,
                end,
                index,
                type_,
                offset,
                length,
                label,
                rawtype,
                rawuuid,
                efimedia,
            } => EdgeMetadataView::PART {
                start: *start,
                end: *end,
                index: *index,
                type_: type_@,
                offset: *offset,
                length: *length,
                label: raw::text_of(*label),
                rawtype: raw::text_of(*rawtype),
                rawuuid: raw::text_of(*rawuuid),
                efimedia: raw::text_of(*efimedia),
            },
            EdgeMetadata::LABEL { index, offset, length, seclength, secoffset } => {
                EdgeMetadataView::LABEL {
                    index: *index,
                    offset: *offset,
                    length: *length,
                    seclength: *seclength,
                    secoffset: *secoffset,
                }
            },
        }
    }
}

impl EdgeMetadataView {
    /// What a provider of a disk carries. All six fields have to be there.
    pub open spec fn disk(c: ProviderConfigView) -> Result<EdgeMetadataView, ErrorView> {
        if c.fwheads is Some && c.fwsectors is Some && c.rotationrate is Some && c.ident is Some
            && c.lunid is Some && c.descr is Some {
            Ok(
                EdgeMetadataView::DISK {
                    fwheads: c.fwheads.unwrap(),
                    fwsectors: c.fwsectors.unwrap(),
                    rotationrate: c.rotationrate.unwrap(),
                    ident: c.ident.unwrap(),
                    lunid: c.lunid.unwrap(),
                    descr: c.descr.unwrap(),
                },
            )
        } else {
            Err(ErrorView::GraphError)
        }
    }

    /// What a provider of a partition table carries. The first six fields
    /// have to be there; the other four are taken as they are.
    pub open spec fn part(c: ProviderConfigView) -> Result<EdgeMetadataView, ErrorView> {
        if c.start is Some && c.end is Some && c.index is Some && c.type_ is Some && c.offset
            is Some && c.length is Some {
            Ok(
                EdgeMetadataView::PART {
                    start: c.start.unwrap(),
                    end: c.end.unwrap(),
                    index: c.index.unwrap(),
                    type_: c.type_.unwrap(),
                    offset: c.offset.unwrap(),
                    length: c.length.unwrap(),
                    label: c.label,
                    rawtype: c.rawtype,
                    rawuuid: c.rawuuid,
                    efimedia: c.efimedia,
                },
            )
        } else {
            Err(ErrorView::GraphError)
        }
    }

    /// What a provider of a label carries. All five fields have to be there.
    pub open spec fn label(c: ProviderConfigView) -> Result<EdgeMetadataView, ErrorView> {
        if c.index is Some && c.offset is Some && c.length is Some && c.seclength is Some
            && c.secoffset is Some {
            Ok(
                EdgeMetadataView::LABEL {
                    index: c.index.unwrap(),
                    offset: c.offset.unwrap(),
                    length: c.length.unwrap(),
                    seclength: c.seclength.unwrap(),
                    secoffset: c.secoffset.unwrap(),
                },
            )
        } else {
            Err(ErrorView::GraphError)
        }
    }

    /// What an edge below a geom of class `class` carries.
    pub open spec fn below(class: GeomClass, c: ProviderConfigView) -> Result<
        Option<EdgeMetadataView>,
        ErrorView,
    > {
        match class {
            GeomClass::DISK => match EdgeMetadataView::disk(c) {
                Ok(m) => Ok(Some(m)),
                Err(e) => Err(e),
            },
            GeomClass::PART => match EdgeMetadataView::part(c) {
                Ok(m) => Ok(Some(m)),
                Err(e) => Err(e),
            },
            GeomClass::LABEL | GeomClass::Flashmap => match EdgeMetadataView::label(c) {
                Ok(m) => Ok(Some(m)),
                Err(e) => Err(e),
            },
            _ => Ok(None),
        }
    }

    /// Whether this is the variant that belongs below a geom of class
    /// `class`.
    pub open spec fn fits(self, class: GeomClass) -> bool {
        match self {
            EdgeMetadataView::DISK { .. } => class == GeomClass::DISK,
            EdgeMetadataView::PART { .. } => class == GeomClass::PART,
            EdgeMetadataView::LABEL { .. } => class == GeomClass::LABEL || class
                == GeomClass::Flashmap,
        }
    }
}

fn clone_text(field: &Option<String>) -> (copy: Option<String>)
    ensures
        raw::text_of(copy) == raw::text_of(*field),
{
    match field {
        Some(s) => Some(s.clone()),
        None => None,
    }
}

impl EdgeMetadata {
    /// Reads what the provider of a disk carries.
    pub fn disk_from_raw(p: &raw::Provider) -> (r: Result<Box<EdgeMetadata>, Error>)
        ensures
            outcome(r) == EdgeMetadataView::disk(p@.config),
    {
        let c = &p.config;
        match (c.fwheads, c.fwsectors, c.rotationrate, &c.ident, &c.lunid, &c.descr) {
            (Some(fwheads), Some(fwsectors), Some(rotationrate), Some(ident), Some(lunid), Some(descr)) => Ok(
                Box::new(
                    EdgeMetadata::DISK {
                        fwheads,
                        fwsectors,
                        rotationrate,
                        ident: ident.clone(),
                        lunid: lunid.clone(),
                        descr: descr.clone(),
                    },
                ),
            ),
            _ => Err(Error::GraphError),
        }
    }

    /// Reads what the provider of a partition table carries.
    pub fn part_from_raw(p: &raw::Provider) -> (r: Result<Box<EdgeMetadata>, Error>)
        ensures
            outcome(r) == EdgeMetadataView::part(p@.config),
    {
        let c = &p.config;
        match (c.start, c.end, c.index, &c.type_, c.offset, c.length) {
            (Some(start), Some(end), Some(index), Some(type_), Some(offset), Some(length)) => Ok(
                Box::new(
                    EdgeMetadata::PART {
                        start,
                        end,
                        index,
                        type_: type_.clone(),
                        offset,
                        length,
                        label: clone_text(&c.label),
                        rawtype: clone_text(&c.rawtype),
                        rawuuid: clone_text(&c.rawuuid),
                        efimedia: clone_text(&c.efimedia),
                    },
                ),
            ),
            _ => Err(Error::GraphError),
        }
    }

    /// Reads what the provider of a label carries.
    pub fn label_from_raw(p: &raw::Provider) -> (r: Result<Box<EdgeMetadata>, Error>)
        ensures
            outcome(r) == EdgeMetadataView::label(p@.config),
    {
        let c = &p.config;
        match (c.index, c.offset, c.length, c.seclength, c.secoffset) {
            (Some(index), Some(offset), Some(length), Some(seclength), Some(secoffset)) => Ok(
                Box::new(EdgeMetadata::LABEL { index, offset, length, seclength, secoffset }),
            ),
            _ => Err(Error::GraphError),
        }
    }

    /// Reads what an edge below a geom of class `class` carries.
    pub fn from_raw(class: GeomClass, p: &raw::Provider) -> (r: Result<
        Option<Box<EdgeMetadata>>,
        Error,
    >)
        ensures
            match r {
                Ok(m) => EdgeMetadataView::below(class, p@.config) == Ok::<
                    Option<EdgeMetadataView>,
                    ErrorView,
                >(metadata_view(m)),
                Err(e) => EdgeMetadataView::below(class, p@.config) == Err::<
                    Option<EdgeMetadataView>,
                    ErrorView,
                >(e@),
            },
    {
        match class {
            GeomClass::DISK => Ok(Some(EdgeMetadata::disk_from_raw(p)?)),
            GeomClass::PART => Ok(Some(EdgeMetadata::part_from_raw(p)?)),
            GeomClass::LABEL | GeomClass::Flashmap => Ok(Some(EdgeMetadata::label_from_raw(p)?)),
            _ => Ok(None),
        }
    }
}

/// The view of the metadata that an edge holds, if it holds any.
pub open spec fn metadata_view(m: Option<Box<EdgeMetadata>>) -> Option<EdgeMetadataView> {
    match m {
        Some(b) => Some(b@),
        None => None,
    }
}

/// A node of the graph.
#[derive(Debug)]
pub struct Geom {
    pub class: GeomClass,
    /// The name, such as `ada0`. Several geoms may have the same name.
    pub name: String,
    /// The depth of the geom in its tree. A root has rank 1.
    pub rank: u64,
    /// What a partition table says of itself. Only a geom of class `PART`
    /// has it.
    pub metadata: Option<Box<PartMetadata>>,
}

/// A [`Geom`] with its name as a sequence of characters.
pub struct GeomView {
    pub class: GeomClass,
    pub name: Seq<char>,
    pub rank: u64,
    pub metadata: Option<PartMetadata>,
}

impl View for Geom {
    type V = GeomView;

    open spec fn view(&self) -> GeomView {
        GeomView {
            class: self.class,
            name: self.name@,
            rank: self.rank,
            metadata: match self.metadata {
                Some(m) => Some(*m),
                None => None,
            },
        }
    }
}

impl GeomView {
    /// The node that stands for a geom of class `class`. A geom of class
    /// `PART` has to say of its table what [`PartMetadata::of`] asks for.
    pub open spec fn of(class: GeomClass, g: raw::GeomView) -> Result<GeomView, ErrorView> {
        if class == GeomClass::PART {
            match PartMetadata::of(g.config) {
                Ok(m) => Ok(GeomView { class, name: g.name, rank: g.rank, metadata: Some(m) }),
                Err(e) => Err(e),
            }
        } else {
            Ok(GeomView { class, name: g.name, rank: g.rank, metadata: None })
        }
    }
}

impl Geom {
    /// The node that stands for a geom of class `class`.
    pub fn from_raw(class: GeomClass, g: &raw::Geom) -> (r: Result<Geom, Error>)
        ensures
            outcome(r) == GeomView::of(class, g@),
    {
        let metadata = if class == GeomClass::PART {
            Some(Box::new(PartMetadata::from_raw(g)?))
        } else {
            None
        };
        Ok(Geom { class, name: g.name.clone(), rank: g.rank, metadata })
    }
}

/// An edge of the graph: a consumer attached to a provider.
#[derive(Debug)]
pub struct Edge {
    /// The name that the provider gives. It is not the name of the parent: a
    /// partition table `ada0` offers `ada0p1`, `ada0p2` and so on.
    pub name: String,
    pub mode: Mode,
    /// The size of the volume, in bytes
    pub mediasize: u64,
    /// The size of a sector, in bytes
    pub sectorsize: u64,
    /// The size of a stripe, in bytes; zero where there is none
    pub stripesize: u64,
    pub stripeoffset: u64,
    pub metadata: Option<Box<EdgeMetadata>>,
    /// The child: the geom that consumes.
    pub consumer_geom: NodeId,
    /// The parent: the geom that provides.
    pub provider_geom: NodeId,
}

/// An [`Edge`] with its texts as sequences of characters.
pub struct EdgeView {
    pub name: Seq<char>,
    pub mode: Mode,
    pub mediasize: u64,
    pub sectorsize: u64,
    pub stripesize: u64,
    pub stripeoffset: u64,
    pub metadata: Option<EdgeMetadataView>,
    pub consumer_geom: NodeId,
    pub provider_geom: NodeId,
}

impl View for Edge {
    type V = EdgeView;

    open spec fn view(&self) -> EdgeView {
        EdgeView {
            name: self.name@,
            mode: self.mode,
            mediasize: self.mediasize,
            sectorsize: self.sectorsize,
            stripesize: self.stripesize,
            stripeoffset: self.stripeoffset,
            metadata: metadata_view(self.metadata),
            consumer_geom: self.consumer_geom,
            provider_geom: self.provider_geom,
        }
    }
}

/// A snapshot of the topology: a forest of geoms.
#[derive(Debug)]
pub struct Graph {
    /// The geoms
    pub nodes: BTreeMap<NodeId, Geom>,
    /// The edges
    pub edges: BTreeMap<EdgeId, Edge>,
    /// For a geom, the edges on which it is the child
    pub outedges: BTreeMap<NodeId, Vec<EdgeId>>,
    /// For a geom, the edges on which it is the parent
    pub inedges: BTreeMap<NodeId, Vec<EdgeId>>,
}

/// A [`Graph`] as four maps.
pub struct GraphView {
    pub nodes: Map<NodeId, GeomView>,
    pub edges: Map<EdgeId, EdgeView>,
    pub outedges: Map<NodeId, Seq<EdgeId>>,
    pub inedges: Map<NodeId, Seq<EdgeId>>,
}

/// An adjacency index with its lists as sequences.
pub open spec fn lists_of(index: Map<NodeId, Vec<EdgeId>>) -> Map<NodeId, Seq<EdgeId>> {
    index.map_values(|l: Vec<EdgeId>| l@)
}

impl View for Graph {
    type V = GraphView;

    open spec fn view(&self) -> GraphView {
        GraphView {
            nodes: self.nodes@.map_values(|g: Geom| g@),
            edges: self.edges@.map_values(|e: Edge| e@),
            outedges: lists_of(self.outedges@),
            inedges: lists_of(self.inedges@),
        }
    }
}

/// The list that an adjacency index holds for `node`: empty where it holds
/// none.
pub open spec fn listed(index: Map<NodeId, Seq<EdgeId>>, node: NodeId) -> Seq<EdgeId> {
    if index.contains_key(node) {
        index[node]
    } else {
        Seq::empty()
    }
}

/// Whether an edge carries what belongs below a geom of class `class`: the
/// variant of that class where the class has one, and nothing otherwise.
pub open spec fn carries(class: GeomClass, metadata: Option<EdgeMetadataView>) -> bool {
    match metadata {
        Some(m) => m.fits(class),
        None => class != GeomClass::DISK && class != GeomClass::PART && class != GeomClass::LABEL
            && class != GeomClass::Flashmap,
    }
}

impl GraphView {
    /// The graph without nodes and edges.
    pub open spec fn empty() -> GraphView {
        GraphView {
            nodes: Map::empty(),
            edges: Map::empty(),
            outedges: Map::empty(),
            inedges: Map::empty(),
        }
    }

    /// Every edge joins two nodes of the graph, and the adjacency lists name
    /// edges of the graph only.
    pub open spec fn consistent(self) -> bool {
        &&& forall|e: EdgeId| #[trigger]
            self.edges.contains_key(e) ==> self.nodes.contains_key(self.edges[e].consumer_geom)
                && self.nodes.contains_key(self.edges[e].provider_geom)
        &&& forall|n: NodeId, i: int|
            self.inedges.contains_key(n) && 0 <= i < self.inedges[n].len()
                ==> self.edges.contains_key(#[trigger] self.inedges[n][i])
        &&& forall|n: NodeId, i: int|
            self.outedges.contains_key(n) && 0 <= i < self.outedges[n].len()
                ==> self.edges.contains_key(#[trigger] self.outedges[n][i])
    }

    /// Every edge stands in the in-edges of its parent and of no other node,
    /// and in the out-edges of its child and of no other node.
    pub open spec fn symmetric(self) -> bool {
        &&& forall|e: EdgeId, n: NodeId|
            self.edges.contains_key(e) ==> (#[trigger] listed(self.inedges, n).contains(e) <==> n
                == self.edges[e].provider_geom)
        &&& forall|e: EdgeId, n: NodeId|
            self.edges.contains_key(e) ==> (#[trigger] listed(self.outedges, n).contains(e) <==> n
                == self.edges[e].consumer_geom)
    }

    /// Every adjacency list is in ascending order, so that it names no edge
    /// twice, and none is empty.
    pub open spec fn ordered(self) -> bool {
        &&& forall|n: NodeId| #[trigger]
            self.inedges.contains_key(n) ==> self.inedges[n].len() > 0 && ascending_pairs(
                self.inedges[n],
            )
        &&& forall|n: NodeId| #[trigger]
            self.outedges.contains_key(n) ==> self.outedges[n].len() > 0 && ascending_pairs(
                self.outedges[n],
            )
    }

    /// Every edge carries the metadata that belongs below its parent, and
    /// the geoms of class `PART`, and only they, say something of their table.
    pub open spec fn typed(self) -> bool {
        &&& forall|e: EdgeId| #[trigger]
            self.edges.contains_key(e) && self.nodes.contains_key(self.edges[e].provider_geom)
                ==> carries(self.nodes[self.edges[e].provider_geom].class, self.edges[e].metadata)
        &&& forall|n: NodeId| #[trigger]
            self.nodes.contains_key(n) ==> (self.nodes[n].metadata is Some <==> self.nodes[n].class
                == GeomClass::PART)
    }

    /// What holds of every graph that was decoded.
    pub open spec fn wf(self) -> bool {
        &&& self.consistent()
        &&& self.symmetric()
        &&& self.ordered()
        &&& self.typed()
    }
}

impl Graph {
    /// The graph without nodes and edges.
    pub fn new() -> (g: Graph)
        ensures
            g@ == GraphView::empty(),
    {
        let g = Graph {
            nodes: BTreeMap::new(),
            edges: BTreeMap::new(),
            outedges: BTreeMap::new(),
            inedges: BTreeMap::new(),
        };
        assert(g@.nodes =~= Map::empty());
        assert(g@.edges =~= Map::empty());
        assert(g@.outedges =~= Map::empty());
        assert(g@.inedges =~= Map::empty());
        g
    }
}

} // verus!
