//! The mesh as the system writes it down, before anything is resolved.
//!
//! These records mirror the document: every identifier and reference is still
//! a text, and every field that only some classes have is optional. Nothing
//! here is checked; see [`crate::decode_graph`] for that.

use vstd::prelude::*;

verus! {

/// The text of an optional field, as a sequence of characters.
pub open spec fn text_of(field: Option<String>) -> Option<Seq<char>> {
    match field {
        Some(s) => Some(s@),
        None => None,
    }
}

/// The views of the records of a list, in the order of the list.
pub open spec fn views<T: View>(items: Seq<T>) -> Seq<T::V> {
    items.map_values(|item: T| item@)
}

/// The whole document: the classes in the order in which they stand.
#[derive(Debug, PartialEq)]
pub struct Mesh {
    pub classes: Vec<Class>,
}

pub struct MeshView {
    pub classes: Seq<ClassView>,
}

impl View for Mesh {
    type V = MeshView;

    open spec fn view(&self) -> MeshView {
        MeshView { classes: views(self.classes@) }
    }
}

/// A class and the geoms that belong to it.
#[derive(Debug, PartialEq)]
pub struct Class {
    pub id: String,
    pub name: String,
    pub geoms: Vec<Geom>,
}

pub struct ClassView {
    pub id: Seq<char>,
    pub name: Seq<char>,
    pub geoms: Seq<GeomView>,
}

impl View for Class {
    type V = ClassView;

    open spec fn view(&self) -> ClassView {
        ClassView { id: self.id@, name: self.name@, geoms: views(self.geoms@) }
    }
}

/// One object of the mesh: a disk, a partition table, a device node and so
/// on, with the consumers through which it depends on others and the
/// providers that it offers to others.
#[derive(Debug, PartialEq)]
pub struct Geom {
    pub id: String,
    pub class_ref: ClassRef,
    pub name: String,
    pub rank: u64,
    pub config: Option<GeomConfig>,
    pub consumers: Vec<Consumer>,
    pub providers: Vec<Provider>,
}

pub struct GeomView {
    pub id: Seq<char>,
    pub class_ref: Seq<char>,
    pub name: Seq<char>,
    pub rank: u64,
    pub config: Option<GeomConfigView>,
    pub consumers: Seq<ConsumerView>,
    pub providers: Seq<ProviderView>,
}

impl View for Geom {
    type V = GeomView;

    open spec fn view(&self) -> GeomView {
        GeomView {
            id: self.id@,
            class_ref: self.class_ref@,
            name: self.name@,
            rank: self.rank,
            config: match self.config {
                Some(c) => Some(c@),
                None => None,
            },
            consumers: views(self.consumers@),
            providers: views(self.providers@),
        }
    }
}

/// A reference to a [`Class`] by its identifier.
#[derive(Debug, PartialEq)]
pub struct ClassRef {
    pub ref_: String,
}

impl View for ClassRef {
    type V = Seq<char>;

    open spec fn view(&self) -> Seq<char> {
        self.ref_@
    }
}

/// The fields that a geom may carry. Which of them are present depends on
/// the class.
#[derive(Debug, PartialEq)]
pub struct GeomConfig {
    pub scheme: Option<String>,
    pub entries: Option<u64>,
    pub first: Option<u64>,
    pub last: Option<u64>,
    pub fwsectors: Option<u64>,
    pub fwheads: Option<u64>,
    pub state: Option<String>,
    pub modified: Option<bool>,
}

pub struct GeomConfigView {
    pub scheme: Option<Seq<char>>,
    pub entries: Option<u64>,
    pub first: Option<u64>,
    pub last: Option<u64>,
    pub fwsectors: Option<u64>,
    pub fwheads: Option<u64>,
    pub state: Option<Seq<char>>,
    pub modified: Option<bool>,
}

impl View for GeomConfig {
    type V = GeomConfigView;

    open spec fn view(&self) -> GeomConfigView {
        GeomConfigView {
            scheme: text_of(self.scheme),
            entries: self.entries,
            first: self.first,
            last: self.last,
            fwsectors: self.fwsectors,
            fwheads: self.fwheads,
            state: text_of(self.state),
            modified: self.modified,
        }
    }
}

/// The end of a dependency at the geom that depends: it names the geom it
/// belongs to and the provider it is attached to.
#[derive(Debug, PartialEq)]
pub struct Consumer {
    pub id: String,
    pub geom_ref: GeomRef,
    pub provider_ref: ProviderRef,
    pub mode: String,
}

pub struct ConsumerView {
    pub id: Seq<char>,
    pub geom_ref: Seq<char>,
    pub provider_ref: Seq<char>,
    pub mode: Seq<char>,
}

impl View for Consumer {
    type V = ConsumerView;

    open spec fn view(&self) -> ConsumerView {
        ConsumerView {
            id: self.id@,
            geom_ref: self.geom_ref@,
            provider_ref: self.provider_ref@,
            mode: self.mode@,
        }
    }
}

/// The end of a dependency at the geom that is depended on.
#[derive(Debug, PartialEq)]
pub struct Provider {
    pub id: String,
    pub geom_ref: GeomRef,
    pub mode: String,
    pub name: String,
    pub mediasize: u64,
    pub sectorsize: u64,
    pub stripesize: u64,
    pub stripeoffset: u64,
    pub config: ProviderConfig,
}

pub struct ProviderView {
    pub id: Seq<char>,
    pub geom_ref: Seq<char>,
    pub mode: Seq<char>,
    pub name: Seq<char>,
    pub mediasize: u64,
    pub sectorsize: u64,
    pub stripesize: u64,
    pub stripeoffset: u64,
    pub config: ProviderConfigView,
}

impl View for Provider {
    type V = ProviderView;

    open spec fn view(&self) -> ProviderView {
        ProviderView {
            id: self.id@,
            geom_ref: self.geom_ref@,
            mode: self.mode@,
            name: self.name@,
            mediasize: self.mediasize,
            sectorsize: self.sectorsize,
            stripesize: self.stripesize,
            stripeoffset: self.stripeoffset,
            config: self.config@,
        }
    }
}

/// The fields that a provider may carry: those of a disk, those of a
/// partition and those of a label, all in one record.
#[derive(Debug, PartialEq)]
pub struct ProviderConfig {
    pub fwheads: Option<u64>,
    pub fwsectors: Option<u64>,
    pub rotationrate: Option<u64>,
    pub ident: Option<String>,
    pub lunid: Option<String>,
    pub descr: Option<String>,
    pub start: Option<u64>,
    pub end: Option<u64>,
    pub index: Option<u64>,
    pub type_: Option<String>,
    pub offset: Option<u64>,
    pub length: Option<u64>,
    pub label: Option<String>,
    pub rawtype: Option<String>,
    pub rawuuid: Option<String>,
    pub efimedia: Option<String>,
    pub seclength: Option<u64>,
    pub secoffset: Option<u64>,
}

pub struct ProviderConfigView {
    pub fwheads: Option<u64>,
    pub fwsectors: Option<u64>,
    pub rotationrate: Option<u64>,
    pub ident: Option<Seq<char>>,
    pub lunid: Option<Seq<char>>,
    pub descr: Option<Seq<char>>,
    pub start: Option<u64>,
    pub end: Option<u64>,
    pub index: Option<u64>,
    pub type_: Option<Seq<char>>,
    pub offset: Option<u64>,
    pub length: Option<u64>,
    pub label: Option<Seq<char>>,
    pub rawtype: Option<Seq<char>>,
    pub rawuuid: Option<Seq<char>>,
    pub efimedia: Option<Seq<char>>,
    pub seclength: Option<u64>,
    pub secoffset: Option<u64>,
}

impl View for ProviderConfig {
    type V = ProviderConfigView;

    open spec fn view(&self) -> ProviderConfigView {
        ProviderConfigView {
            fwheads: self.fwheads,
            fwsectors: self.fwsectors,
            rotationrate: self.rotationrate,
            ident: text_of(self.ident),
            lunid: text_of(self.lunid),
            descr: text_of(self.descr),
            start: self.start,
            end: self.end,
            index: self.index,
            type_: text_of(self.type_),
            offset: self.offset,
            length: self.length,
            label: text_of(self.label),
            rawtype: text_of(self.rawtype),
            rawuuid: text_of(self.rawuuid),
            efimedia: text_of(self.efimedia),
            seclength: self.seclength,
            secoffset: self.secoffset,
        }
    }
}

/// A reference to a [`Geom`] by its identifier.
#[derive(Debug, PartialEq)]
pub struct GeomRef {
    pub ref_: String,
}

impl View for GeomRef {
    type V = Seq<char>;

    open spec fn view(&self) -> Seq<char> {
        self.ref_@
    }
}

/// A reference to a [`Provider`] by its identifier.
#[derive(Debug, PartialEq)]
pub struct ProviderRef {
    pub ref_: String,
}

impl View for ProviderRef {
    type V = Seq<char>;

    open spec fn view(&self) -> Seq<char> {
        self.ref_@
    }
}

} // verus!
