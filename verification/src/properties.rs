//! The compiled property catalogue of this snapshot.
//!
//! This module is one compiled schema snapshot: the property catalogue as one
//! release of the runtime declares it, with one concrete type per property and
//! the type-erased registry over them. Discriminant values mirror the declared
//! order of the release's full catalogue, entries of other element kinds
//! included.

use vstd::prelude::*;

use crate::control::{
    dyn_entry, EntryDescription, spec_enum_reject, spec_fixed_reject, spec_scalar_reject, spec_vec_reject,
    Property, ControlEntry, DynHandle,
};
use crate::control_value::{
    ControlValue, ControlValueError, ErrorView, ValueView, TYPE_BOOL, TYPE_BYTE, TYPE_INT32,
    TYPE_INT64, TYPE_POINT, TYPE_RECTANGLE, TYPE_SIZE, TYPE_STRING,
};
use crate::geometry::{Point, Rectangle, Size};

verus! {

/// The property discriminants this snapshot compiles in.
#[derive(Debug, Clone, Copy, PartialEq, Eq, Structural)]
pub enum PropertyId {
    Location,
    Rotation,
    Model,
    UnitCellSize,
    PixelArraySize,
    PixelArrayOpticalBlackRectangles,
    PixelArrayActiveAreas,
    ScalerCropMaximum,
    SystemDevices,
    ColorFilterArrangement,
}

impl PropertyId {
    /// The numeric discriminant the runtime knows this property by.
    pub open spec fn spec_id_value(self) -> u32 {
        match self {
            PropertyId::Location => 1,
            PropertyId::Rotation => 2,
            PropertyId::Model => 3,
            PropertyId::UnitCellSize => 4,
            PropertyId::PixelArraySize => 5,
            PropertyId::PixelArrayOpticalBlackRectangles => 6,
            PropertyId::PixelArrayActiveAreas => 7,
            PropertyId::ScalerCropMaximum => 8,
            PropertyId::SystemDevices => 10,
            PropertyId::ColorFilterArrangement => 11,
        }
    }

    /// The numeric discriminant the runtime knows this property by.
    pub fn id(&self) -> (r: u32)
        ensures
            r == self.spec_id_value(),
    {
        match self {
            PropertyId::Location => 1,
            PropertyId::Rotation => 2,
            PropertyId::Model => 3,
            PropertyId::UnitCellSize => 4,
            PropertyId::PixelArraySize => 5,
            PropertyId::PixelArrayOpticalBlackRectangles => 6,
            PropertyId::PixelArrayActiveAreas => 7,
            PropertyId::ScalerCropMaximum => 8,
            PropertyId::SystemDevices => 10,
            PropertyId::ColorFilterArrangement => 11,
        }
    }

    /// The compiled property a numeric id names, if any: an id this snapshot
    /// does not know is not an error, merely unrecognized.
    pub open spec fn spec_from_id(id: u32) -> Option<PropertyId> {
        if id == 1 {
            Some(PropertyId::Location)
        } else
        if id == 2 {
            Some(PropertyId::Rotation)
        } else
        if id == 3 {
            Some(PropertyId::Model)
        } else
        if id == 4 {
            Some(PropertyId::UnitCellSize)
        } else
        if id == 5 {
            Some(PropertyId::PixelArraySize)
        } else
        if id == 6 {
            Some(PropertyId::PixelArrayOpticalBlackRectangles)
        } else
        if id == 7 {
            Some(PropertyId::PixelArrayActiveAreas)
        } else
        if id == 8 {
            Some(PropertyId::ScalerCropMaximum)
        } else
        if id == 10 {
            Some(PropertyId::SystemDevices)
        } else
        if id == 11 {
            Some(PropertyId::ColorFilterArrangement)
        } else {
            None
        }
    }

    /// The compiled property a numeric id names, if any.
    pub fn from_id(id: u32) -> (r: Option<PropertyId>)
        ensures
            r == Self::spec_from_id(id),
    {
        if id == 1 {
            Some(PropertyId::Location)
        } else
        if id == 2 {
            Some(PropertyId::Rotation)
        } else
        if id == 3 {
            Some(PropertyId::Model)
        } else
        if id == 4 {
            Some(PropertyId::UnitCellSize)
        } else
        if id == 5 {
            Some(PropertyId::PixelArraySize)
        } else
        if id == 6 {
            Some(PropertyId::PixelArrayOpticalBlackRectangles)
        } else
        if id == 7 {
            Some(PropertyId::PixelArrayActiveAreas)
        } else
        if id == 8 {
            Some(PropertyId::ScalerCropMaximum)
        } else
        if id == 10 {
            Some(PropertyId::SystemDevices)
        } else
        if id == 11 {
            Some(PropertyId::ColorFilterArrangement)
        } else {
            None
        }
    }
}

/// Camera mounting location.
#[derive(Debug, Clone, Copy, PartialEq, Eq, Structural)]
pub enum Location {
    CameraFront,
    CameraBack,
    CameraExternal,
}

impl Location {
    /// The wire value of each variant.
    pub open spec fn spec_wire(self) -> i32 {
        match self {
            Location::CameraFront => 0,
            Location::CameraBack => 1,
            Location::CameraExternal => 2,
        }
    }

    /// The variant a wire value names, if any.
    pub open spec fn spec_from_wire(x: i32) -> Option<Location> {
        if x == 0 {
            Some(Location::CameraFront)
        } else
        if x == 1 {
            Some(Location::CameraBack)
        } else
        if x == 2 {
            Some(Location::CameraExternal)
        } else {
            None
        }
    }

    fn from_wire(x: i32) -> (r: Option<Location>)
        ensures
            r == Self::spec_from_wire(x),
    {
        if x == 0 {
            Some(Location::CameraFront)
        } else
        if x == 1 {
            Some(Location::CameraBack)
        } else
        if x == 2 {
            Some(Location::CameraExternal)
        } else {
            None
        }
    }

    fn wire(self) -> (r: i32)
        ensures
            r == self.spec_wire(),
    {
        match self {
            Location::CameraFront => 0,
            Location::CameraBack => 1,
            Location::CameraExternal => 2,
        }
    }
}

impl ControlEntry for Location {
    open spec fn spec_id() -> u32 {
        1
    }

    open spec fn spec_accepts(v: ValueView) -> bool {
        v matches ValueView::Int32(s) && s.len() == 1 && Self::spec_from_wire(s[0]) is Some
    }

    open spec fn spec_reject(v: ValueView) -> ErrorView {
        spec_enum_reject(TYPE_INT32, v)
    }

    open spec fn spec_value(self) -> ValueView {
        ValueView::Int32(seq![self.spec_wire()])
    }

    fn entry_id() -> (r: u32) {
        1
    }

    fn try_from_value(value: ControlValue) -> (r: Result<Self, ControlValueError>) {
        let ghost v0 = value@;
        let orig = value.clone();
        match value.try_into_i32() {
            Ok(x) => match Self::from_wire(x) {
                Some(m) => {
                    proof {
                        assert(ValueView::Int32(seq![m.spec_wire()]) =~= v0);
                    }
                    Ok(m)
                },
                None => Err(ControlValueError::UnknownVariant(orig)),
            },
            Err(e) => Err(e),
        }
    }

    fn into_value(self) -> (r: ControlValue) {
        ControlValue::from_i32(self.wire())
    }
}

impl Property for Location {

}

/// Camera mounting rotation, in degrees.
#[derive(Debug, Clone)]
pub struct Rotation(pub i32);

impl ControlEntry for Rotation {
    open spec fn spec_id() -> u32 {
        2
    }

    open spec fn spec_accepts(v: ValueView) -> bool {
        v matches ValueView::Int32(s) && s.len() == 1
    }

    open spec fn spec_reject(v: ValueView) -> ErrorView {
        spec_scalar_reject(TYPE_INT32, v)
    }

    open spec fn spec_value(self) -> ValueView {
        ValueView::Int32(seq![self.0])
    }

    fn entry_id() -> (r: u32) {
        2
    }

    fn try_from_value(value: ControlValue) -> (r: Result<Self, ControlValueError>) {
        let ghost v0 = value@;
        match value.try_into_i32() {
            Ok(x) => {
                proof {
                    assert(ValueView::Int32(seq![x]) =~= v0);
                }
                Ok(Rotation(x))
            },
            Err(e) => Err(e),
        }
    }

    fn into_value(self) -> (r: ControlValue) {
        ControlValue::from_i32(self.0)
    }
}

impl Property for Rotation {

}

/// Model name of the camera sensor.
#[derive(Debug, Clone)]
pub struct Model(pub String);

impl ControlEntry for Model {
    open spec fn spec_id() -> u32 {
        3
    }

    open spec fn spec_accepts(v: ValueView) -> bool {
        v matches ValueView::Str(_)
    }

    open spec fn spec_reject(v: ValueView) -> ErrorView {
        spec_vec_reject(TYPE_STRING, v)
    }

    open spec fn spec_value(self) -> ValueView {
        ValueView::Str(self.0@)
    }

    fn entry_id() -> (r: u32) {
        3
    }

    fn try_from_value(value: ControlValue) -> (r: Result<Self, ControlValueError>) {
        match value.try_into_string() {
            Ok(s) => Ok(Model(s)),
            Err(e) => Err(e),
        }
    }

    fn into_value(self) -> (r: ControlValue) {
        ControlValue::from_string(self.0)
    }
}

impl Property for Model {

}

/// Physical size of one pixel cell, in nanometres.
#[derive(Debug, Clone)]
pub struct UnitCellSize(pub Size);

impl ControlEntry for UnitCellSize {
    open spec fn spec_id() -> u32 {
        4
    }

    open spec fn spec_accepts(v: ValueView) -> bool {
        v matches ValueView::Size(s) && s.len() == 1
    }

    open spec fn spec_reject(v: ValueView) -> ErrorView {
        spec_scalar_reject(TYPE_SIZE, v)
    }

    open spec fn spec_value(self) -> ValueView {
        ValueView::Size(seq![self.0])
    }

    fn entry_id() -> (r: u32) {
        4
    }

    fn try_from_value(value: ControlValue) -> (r: Result<Self, ControlValueError>) {
        let ghost v0 = value@;
        match value.try_into_size() {
            Ok(x) => {
                proof {
                    assert(ValueView::Size(seq![x]) =~= v0);
                }
                Ok(UnitCellSize(x))
            },
            Err(e) => Err(e),
        }
    }

    fn into_value(self) -> (r: ControlValue) {
        ControlValue::from_size(self.0)
    }
}

impl Property for UnitCellSize {

}

/// Total size of the sensor's pixel array.
#[derive(Debug, Clone)]
pub struct PixelArraySize(pub Size);

impl ControlEntry for PixelArraySize {
    open spec fn spec_id() -> u32 {
        5
    }

    open spec fn spec_accepts(v: ValueView) -> bool {
        v matches ValueView::Size(s) && s.len() == 1
    }

    open spec fn spec_reject(v: ValueView) -> ErrorView {
        spec_scalar_reject(TYPE_SIZE, v)
    }

    open spec fn spec_value(self) -> ValueView {
        ValueView::Size(seq![self.0])
    }

    fn entry_id() -> (r: u32) {
        5
    }

    fn try_from_value(value: ControlValue) -> (r: Result<Self, ControlValueError>) {
        let ghost v0 = value@;
        match value.try_into_size() {
            Ok(x) => {
                proof {
                    assert(ValueView::Size(seq![x]) =~= v0);
                }
                Ok(PixelArraySize(x))
            },
            Err(e) => Err(e),
        }
    }

    fn into_value(self) -> (r: ControlValue) {
        ControlValue::from_size(self.0)
    }
}

impl Property for PixelArraySize {

}

/// Optical black regions of the pixel array.
#[derive(Debug, Clone)]
pub struct PixelArrayOpticalBlackRectangles(pub Vec<Rectangle>);

impl ControlEntry for PixelArrayOpticalBlackRectangles {
    open spec fn spec_id() -> u32 {
        6
    }

    open spec fn spec_accepts(v: ValueView) -> bool {
        v matches ValueView::Rectangle(_)
    }

    open spec fn spec_reject(v: ValueView) -> ErrorView {
        spec_vec_reject(TYPE_RECTANGLE, v)
    }

    open spec fn spec_value(self) -> ValueView {
        ValueView::Rectangle(self.0@)
    }

    fn entry_id() -> (r: u32) {
        6
    }

    fn try_from_value(value: ControlValue) -> (r: Result<Self, ControlValueError>) {
        match value.try_into_rectangle_vec() {
            Ok(v) => Ok(PixelArrayOpticalBlackRectangles(v)),
            Err(e) => Err(e),
        }
    }

    fn into_value(self) -> (r: ControlValue) {
        ControlValue::from_rectangle_vec(self.0)
    }
}

impl Property for PixelArrayOpticalBlackRectangles {

}

/// Active areas of the pixel array.
#[derive(Debug, Clone)]
pub struct PixelArrayActiveAreas(pub Vec<Rectangle>);

impl ControlEntry for PixelArrayActiveAreas {
    open spec fn spec_id() -> u32 {
        7
    }

    open spec fn spec_accepts(v: ValueView) -> bool {
        v matches ValueView::Rectangle(_)
    }

    open spec fn spec_reject(v: ValueView) -> ErrorView {
        spec_vec_reject(TYPE_RECTANGLE, v)
    }

    open spec fn spec_value(self) -> ValueView {
        ValueView::Rectangle(self.0@)
    }

    fn entry_id() -> (r: u32) {
        7
    }

    fn try_from_value(value: ControlValue) -> (r: Result<Self, ControlValueError>) {
        match value.try_into_rectangle_vec() {
            Ok(v) => Ok(PixelArrayActiveAreas(v)),
            Err(e) => Err(e),
        }
    }

    fn into_value(self) -> (r: ControlValue) {
        ControlValue::from_rectangle_vec(self.0)
    }
}

impl Property for PixelArrayActiveAreas {

}

/// Largest crop rectangle the scaler can take.
#[derive(Debug, Clone)]
pub struct ScalerCropMaximum(pub Rectangle);

impl ControlEntry for ScalerCropMaximum {
    open spec fn spec_id() -> u32 {
        8
    }

    open spec fn spec_accepts(v: ValueView) -> bool {
        v matches ValueView::Rectangle(s) && s.len() == 1
    }

    open spec fn spec_reject(v: ValueView) -> ErrorView {
        spec_scalar_reject(TYPE_RECTANGLE, v)
    }

    open spec fn spec_value(self) -> ValueView {
        ValueView::Rectangle(seq![self.0])
    }

    fn entry_id() -> (r: u32) {
        8
    }

    fn try_from_value(value: ControlValue) -> (r: Result<Self, ControlValueError>) {
        let ghost v0 = value@;
        match value.try_into_rectangle() {
            Ok(x) => {
                proof {
                    assert(ValueView::Rectangle(seq![x]) =~= v0);
                }
                Ok(ScalerCropMaximum(x))
            },
            Err(e) => Err(e),
        }
    }

    fn into_value(self) -> (r: ControlValue) {
        ControlValue::from_rectangle(self.0)
    }
}

impl Property for ScalerCropMaximum {

}

/// Major and minor numbers of the devices backing this camera.
#[derive(Debug, Clone)]
pub struct SystemDevices(pub Vec<i64>);

impl ControlEntry for SystemDevices {
    open spec fn spec_id() -> u32 {
        10
    }

    open spec fn spec_accepts(v: ValueView) -> bool {
        v matches ValueView::Int64(_)
    }

    open spec fn spec_reject(v: ValueView) -> ErrorView {
        spec_vec_reject(TYPE_INT64, v)
    }

    open spec fn spec_value(self) -> ValueView {
        ValueView::Int64(self.0@)
    }

    fn entry_id() -> (r: u32) {
        10
    }

    fn try_from_value(value: ControlValue) -> (r: Result<Self, ControlValueError>) {
        match value.try_into_i64_vec() {
            Ok(v) => Ok(SystemDevices(v)),
            Err(e) => Err(e),
        }
    }

    fn into_value(self) -> (r: ControlValue) {
        ControlValue::from_i64_vec(self.0)
    }
}

impl Property for SystemDevices {

}

/// Arrangement of colour filters on the sensor.
#[derive(Debug, Clone, Copy, PartialEq, Eq, Structural)]
pub enum ColorFilterArrangement {
    RGGB,
    GRBG,
    GBRG,
    BGGR,
    RGB,
    MONO,
}

impl ColorFilterArrangement {
    /// The wire value of each variant.
    pub open spec fn spec_wire(self) -> i32 {
        match self {
            ColorFilterArrangement::RGGB => 0,
            ColorFilterArrangement::GRBG => 1,
            ColorFilterArrangement::GBRG => 2,
            ColorFilterArrangement::BGGR => 3,
            ColorFilterArrangement::RGB => 4,
            ColorFilterArrangement::MONO => 5,
        }
    }

    /// The variant a wire value names, if any.
    pub open spec fn spec_from_wire(x: i32) -> Option<ColorFilterArrangement> {
        if x == 0 {
            Some(ColorFilterArrangement::RGGB)
        } else
        if x == 1 {
            Some(ColorFilterArrangement::GRBG)
        } else
        if x == 2 {
            Some(ColorFilterArrangement::GBRG)
        } else
        if x == 3 {
            Some(ColorFilterArrangement::BGGR)
        } else
        if x == 4 {
            Some(ColorFilterArrangement::RGB)
        } else
        if x == 5 {
            Some(ColorFilterArrangement::MONO)
        } else {
            None
        }
    }

    fn from_wire(x: i32) -> (r: Option<ColorFilterArrangement>)
        ensures
            r == Self::spec_from_wire(x),
    {
        if x == 0 {
            Some(ColorFilterArrangement::RGGB)
        } else
        if x == 1 {
            Some(ColorFilterArrangement::GRBG)
        } else
        if x == 2 {
            Some(ColorFilterArrangement::GBRG)
        } else
        if x == 3 {
            Some(ColorFilterArrangement::BGGR)
        } else
        if x == 4 {
            Some(ColorFilterArrangement::RGB)
        } else
        if x == 5 {
            Some(ColorFilterArrangement::MONO)
        } else {
            None
        }
    }

    fn wire(self) -> (r: i32)
        ensures
            r == self.spec_wire(),
    {
        match self {
            ColorFilterArrangement::RGGB => 0,
            ColorFilterArrangement::GRBG => 1,
            ColorFilterArrangement::GBRG => 2,
            ColorFilterArrangement::BGGR => 3,
            ColorFilterArrangement::RGB => 4,
            ColorFilterArrangement::MONO => 5,
        }
    }
}

impl ControlEntry for ColorFilterArrangement {
    open spec fn spec_id() -> u32 {
        11
    }

    open spec fn spec_accepts(v: ValueView) -> bool {
        v matches ValueView::Int32(s) && s.len() == 1 && Self::spec_from_wire(s[0]) is Some
    }

    open spec fn spec_reject(v: ValueView) -> ErrorView {
        spec_enum_reject(TYPE_INT32, v)
    }

    open spec fn spec_value(self) -> ValueView {
        ValueView::Int32(seq![self.spec_wire()])
    }

    fn entry_id() -> (r: u32) {
        11
    }

    fn try_from_value(value: ControlValue) -> (r: Result<Self, ControlValueError>) {
        let ghost v0 = value@;
        let orig = value.clone();
        match value.try_into_i32() {
            Ok(x) => match Self::from_wire(x) {
                Some(m) => {
                    proof {
                        assert(ValueView::Int32(seq![m.spec_wire()]) =~= v0);
                    }
                    Ok(m)
                },
                None => Err(ControlValueError::UnknownVariant(orig)),
            },
            Err(e) => Err(e),
        }
    }

    fn into_value(self) -> (r: ControlValue) {
        ControlValue::from_i32(self.wire())
    }
}

impl Property for ColorFilterArrangement {

}

/// Whether the property named by `id` accepts the value `v`.
pub open spec fn spec_dyn_accepts(id: PropertyId, v: ValueView) -> bool {
    match id {
        PropertyId::Location => <Location as ControlEntry>::spec_accepts(v),
        PropertyId::Rotation => <Rotation as ControlEntry>::spec_accepts(v),
        PropertyId::Model => <Model as ControlEntry>::spec_accepts(v),
        PropertyId::UnitCellSize => <UnitCellSize as ControlEntry>::spec_accepts(v),
        PropertyId::PixelArraySize => <PixelArraySize as ControlEntry>::spec_accepts(v),
        PropertyId::PixelArrayOpticalBlackRectangles => <PixelArrayOpticalBlackRectangles as ControlEntry>::spec_accepts(v),
        PropertyId::PixelArrayActiveAreas => <PixelArrayActiveAreas as ControlEntry>::spec_accepts(v),
        PropertyId::ScalerCropMaximum => <ScalerCropMaximum as ControlEntry>::spec_accepts(v),
        PropertyId::SystemDevices => <SystemDevices as ControlEntry>::spec_accepts(v),
        PropertyId::ColorFilterArrangement => <ColorFilterArrangement as ControlEntry>::spec_accepts(v),
    }
}

/// The error the property named by `id` raises on a value it does not accept.
pub open spec fn spec_dyn_reject(id: PropertyId, v: ValueView) -> ErrorView {
    match id {
        PropertyId::Location => <Location as ControlEntry>::spec_reject(v),
        PropertyId::Rotation => <Rotation as ControlEntry>::spec_reject(v),
        PropertyId::Model => <Model as ControlEntry>::spec_reject(v),
        PropertyId::UnitCellSize => <UnitCellSize as ControlEntry>::spec_reject(v),
        PropertyId::PixelArraySize => <PixelArraySize as ControlEntry>::spec_reject(v),
        PropertyId::PixelArrayOpticalBlackRectangles => <PixelArrayOpticalBlackRectangles as ControlEntry>::spec_reject(v),
        PropertyId::PixelArrayActiveAreas => <PixelArrayActiveAreas as ControlEntry>::spec_reject(v),
        PropertyId::ScalerCropMaximum => <ScalerCropMaximum as ControlEntry>::spec_reject(v),
        PropertyId::SystemDevices => <SystemDevices as ControlEntry>::spec_reject(v),
        PropertyId::ColorFilterArrangement => <ColorFilterArrangement as ControlEntry>::spec_reject(v),
    }
}

/// The dynamic registry of this snapshot: attempt the typed conversion of the
/// property named by `id` and hand back a type-erased handle. On success the
/// handle carries the numeric id and the value unchanged; on failure the
/// property's own conversion error comes back, never a panic.
pub fn make_dyn(id: PropertyId, val: ControlValue) -> (r: Result<DynHandle, ControlValueError>)
    ensures
        spec_dyn_accepts(id, val@) ==> (r matches Ok(h) && h.id == id.spec_id_value() && h.value@
            == val@),
        !spec_dyn_accepts(id, val@) ==> (r matches Err(e) && e@ == spec_dyn_reject(id, val@)),
{
    match id {
        PropertyId::Location => dyn_entry::<Location>(val),
        PropertyId::Rotation => dyn_entry::<Rotation>(val),
        PropertyId::Model => dyn_entry::<Model>(val),
        PropertyId::UnitCellSize => dyn_entry::<UnitCellSize>(val),
        PropertyId::PixelArraySize => dyn_entry::<PixelArraySize>(val),
        PropertyId::PixelArrayOpticalBlackRectangles => dyn_entry::<PixelArrayOpticalBlackRectangles>(val),
        PropertyId::PixelArrayActiveAreas => dyn_entry::<PixelArrayActiveAreas>(val),
        PropertyId::ScalerCropMaximum => dyn_entry::<ScalerCropMaximum>(val),
        PropertyId::SystemDevices => dyn_entry::<SystemDevices>(val),
        PropertyId::ColorFilterArrangement => dyn_entry::<ColorFilterArrangement>(val),
    }
}

/// A compiled id always spells back the number it was read from.
pub proof fn lemma_from_id_inverse(id: u32)
    ensures
        PropertyId::spec_from_id(id) matches Some(c) ==> c.spec_id_value() == id,
{
}

/// Whether introspection shows a raw pair as a typed entry: its id names a
/// compiled property and the value converts.
pub open spec fn spec_describes_typed(id: u32, v: ValueView) -> bool {
    PropertyId::spec_from_id(id) matches Some(c) && spec_dyn_accepts(c, v)
}

/// Introspect a collection of raw pairs of numeric id and value: each known id
/// whose value converts becomes a typed handle; an unknown id, or a known id
/// whose conversion fails, falls back to the raw pair. One bad entry never
/// aborts the walk of the whole collection.
pub fn describe_entries(items: &Vec<(u32, ControlValue)>) -> (r: Vec<EntryDescription>)
    ensures
        r@.len() == items@.len(),
        forall|i: int|
            0 <= i < items@.len() ==> if spec_describes_typed(
                (#[trigger] items@[i]).0,
                items@[i].1@,
            ) {
                (r@[i] matches EntryDescription::Typed(h) && h.id == items@[i].0 && h.value@
                    == items@[i].1@)
            } else {
                (r@[i] matches EntryDescription::Raw(id, v) && id == items@[i].0 && v@
                    == items@[i].1@)
            },
{
    let n = items.len();
    let mut out: Vec<EntryDescription> = Vec::new();
    let mut i: usize = 0;
    while i < n
        invariant
            n == items@.len(),
            0 <= i <= n,
            out@.len() == i,
            forall|j: int|
                0 <= j < i ==> if spec_describes_typed(
                    (#[trigger] items@[j]).0,
                    items@[j].1@,
                ) {
                    (out@[j] matches EntryDescription::Typed(h) && h.id == items@[j].0 && h.value@
                        == items@[j].1@)
                } else {
                    (out@[j] matches EntryDescription::Raw(id, v) && id == items@[j].0 && v@
                        == items@[j].1@)
                },
        decreases n - i,
    {
        let id = items[i].0;
        let val = items[i].1.clone();
        match PropertyId::from_id(id) {
            Some(c) => {
                match make_dyn(c, val) {
                    Ok(h) => {
                        proof {
                            lemma_from_id_inverse(id);
                        }
                        out.push(EntryDescription::Typed(h));
                    },
                    Err(_) => {
                        out.push(EntryDescription::Raw(id, items[i].1.clone()));
                    },
                }
            },
            None => {
                out.push(EntryDescription::Raw(id, val));
            },
        }
        i += 1;
    }
    out
}

} // verus!
