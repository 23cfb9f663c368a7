//! Parameter objects, as trees of plain values. The embedding program gives them
//! their wire form.
use vstd::prelude::*;

verus! {

/// The value of a property.
#[derive(Debug, Clone, PartialEq, Eq)]
pub enum PodValue {
    Id(u32),
    Int(i32),
    /// One of several ids: the default one, then its alternatives.
    IdEnum(u32, Vec<u32>),
    /// One of several integers: the default one, then the values to choose from.
    IntEnum(i32, Vec<i32>),
    /// Any integer of a range.
    IntRange { default: i32, min: i32, max: i32 },
    IdArray(Vec<u32>),
}

/// What a [`PodValue`] holds.
pub enum PodValueView {
    Id(u32),
    Int(i32),
    IdEnum(u32, Seq<u32>),
    IntEnum(i32, Seq<i32>),
    IntRange { default: i32, min: i32, max: i32 },
    IdArray(Seq<u32>),
}

impl View for PodValue {
    type V = PodValueView;

    open spec fn view(&self) -> PodValueView {
        match *self {
            PodValue::Id(id) => PodValueView::Id(id),
            PodValue::Int(value) => PodValueView::Int(value),
            PodValue::IdEnum(default, ids) => PodValueView::IdEnum(default, ids@),
            PodValue::IntEnum(default, values) => PodValueView::IntEnum(default, values@),
            PodValue::IntRange { default, min, max } => PodValueView::IntRange {
                default,
                min,
                max,
            },
            PodValue::IdArray(ids) => PodValueView::IdArray(ids@),
        }
    }
}

/// A property of an object.
#[derive(Debug, Clone, PartialEq, Eq)]
pub struct PodProperty {
    pub key: u32,
    pub value: PodValue,
}

/// A parameter object.
#[derive(Debug, Clone, PartialEq, Eq)]
pub struct PodObject {
    pub type_: u32,
    pub id: u32,
    pub properties: Vec<PodProperty>,
}

/// What a [`PodObject`] holds.
pub struct PodObjectView {
    pub type_: u32,
    pub id: u32,
    pub properties: Seq<(u32, PodValueView)>,
}

impl View for PodObject {
    type V = PodObjectView;

    open spec fn view(&self) -> PodObjectView {
        PodObjectView {
            type_: self.type_,
            id: self.id,
            properties: self.properties@.map_values(|p: PodProperty| (p.key, p.value@)),
        }
    }
}

} // verus!
