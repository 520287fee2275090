//! The compiled control catalogue of this snapshot.
//!
//! This module is one compiled schema snapshot: the control catalogue as one
//! release of the runtime declares it, with one concrete type per control and
//! the type-erased registry over them. Discriminant values mirror the declared
//! order of the release's full catalogue, entries of other element kinds
//! included.

use vstd::prelude::*;

use crate::control::{
    dyn_entry, EntryDescription, spec_enum_reject, spec_fixed_reject, spec_scalar_reject, spec_vec_reject,
    Control, ControlEntry, DynHandle,
};
use crate::control_value::{
    ControlValue, ControlValueError, ErrorView, ValueView, TYPE_BOOL, TYPE_BYTE, TYPE_INT32,
    TYPE_INT64, TYPE_POINT, TYPE_RECTANGLE, TYPE_SIZE, TYPE_STRING,
};
use crate::geometry::{Point, Rectangle, Size};

verus! {

/// The control discriminants this snapshot compiles in.
#[derive(Debug, Clone, Copy, PartialEq, Eq, Structural)]
pub enum ControlId {
    AeEnable,
    AeLocked,
    AeMeteringMode,
    AeConstraintMode,
    AeExposureMode,
    ExposureTime,
    AeFlickerMode,
    AeFlickerPeriod,
    AeFlickerDetected,
    AwbEnable,
    AwbMode,
    AwbLocked,
    ColourTemperature,
    SensorBlackLevels,
    FocusFoM,
    ScalerCrop,
    FrameDuration,
    FrameDurationLimits,
    SensorTimestamp,
    AfMode,
    AfRange,
    AfSpeed,
    AfMetering,
    AfWindows,
    AfTrigger,
    AfPause,
    AfState,
    AfPauseState,
    HdrMode,
    HdrChannel,
    DebugMetadataEnable,
    AePrecaptureTrigger,
    NoiseReductionMode,
    ColorCorrectionAberrationMode,
    AeState,
    AwbState,
    SensorRollingShutterSkew,
    LensShadingMapMode,
    PipelineDepth,
    MaxLatency,
    TestPatternMode,
    FaceDetectMode,
    FaceDetectFaceRectangles,
    FaceDetectFaceScores,
    FaceDetectFaceLandmarks,
    FaceDetectFaceIds,
    StatsOutputEnable,
    Bcm2835StatsOutput,
    ScalerCrops,
}

impl ControlId {
    /// The numeric discriminant the runtime knows this control by.
    pub open spec fn spec_id_value(self) -> u32 {
        match self {
            ControlId::AeEnable => 1,
            ControlId::AeLocked => 2,
            ControlId::AeMeteringMode => 3,
            ControlId::AeConstraintMode => 4,
            ControlId::AeExposureMode => 5,
            ControlId::ExposureTime => 7,
            ControlId::AeFlickerMode => 9,
            ControlId::AeFlickerPeriod => 10,
            ControlId::AeFlickerDetected => 11,
            ControlId::AwbEnable => 15,
            ControlId::AwbMode => 16,
            ControlId::AwbLocked => 17,
            ControlId::ColourTemperature => 19,
            ControlId::SensorBlackLevels => 21,
            ControlId::FocusFoM => 23,
            ControlId::ScalerCrop => 25,
            ControlId::FrameDuration => 27,
            ControlId::FrameDurationLimits => 28,
            ControlId::SensorTimestamp => 30,
            ControlId::AfMode => 31,
            ControlId::AfRange => 32,
            ControlId::AfSpeed => 33,
            ControlId::AfMetering => 34,
            ControlId::AfWindows => 35,
            ControlId::AfTrigger => 36,
            ControlId::AfPause => 37,
            ControlId::AfState => 39,
            ControlId::AfPauseState => 40,
            ControlId::HdrMode => 41,
            ControlId::HdrChannel => 42,
            ControlId::DebugMetadataEnable => 44,
            ControlId::AePrecaptureTrigger => 45,
            ControlId::NoiseReductionMode => 46,
            ControlId::ColorCorrectionAberrationMode => 47,
            ControlId::AeState => 48,
            ControlId::AwbState => 49,
            ControlId::SensorRollingShutterSkew => 50,
            ControlId::LensShadingMapMode => 51,
            ControlId::PipelineDepth => 52,
            ControlId::MaxLatency => 53,
            ControlId::TestPatternMode => 54,
            ControlId::FaceDetectMode => 55,
            ControlId::FaceDetectFaceRectangles => 56,
            ControlId::FaceDetectFaceScores => 57,
            ControlId::FaceDetectFaceLandmarks => 58,
            ControlId::FaceDetectFaceIds => 59,
            ControlId::StatsOutputEnable => 60,
            ControlId::Bcm2835StatsOutput => 61,
            ControlId::ScalerCrops => 62,
        }
    }

    /// The numeric discriminant the runtime knows this control by.
    pub fn id(&self) -> (r: u32)
        ensures
            r == self.spec_id_value(),
    {
        match self {
            ControlId::AeEnable => 1,
            ControlId::AeLocked => 2,
            ControlId::AeMeteringMode => 3,
            ControlId::AeConstraintMode => 4,
            ControlId::AeExposureMode => 5,
            ControlId::ExposureTime => 7,
            ControlId::AeFlickerMode => 9,
            ControlId::AeFlickerPeriod => 10,
            ControlId::AeFlickerDetected => 11,
            ControlId::AwbEnable => 15,
            ControlId::AwbMode => 16,
            ControlId::AwbLocked => 17,
            ControlId::ColourTemperature => 19,
            ControlId::SensorBlackLevels => 21,
            ControlId::FocusFoM => 23,
            ControlId::ScalerCrop => 25,
            ControlId::FrameDuration => 27,
            ControlId::FrameDurationLimits => 28,
            ControlId::SensorTimestamp => 30,
            ControlId::AfMode => 31,
            ControlId::AfRange => 32,
            ControlId::AfSpeed => 33,
            ControlId::AfMetering => 34,
            ControlId::AfWindows => 35,
            ControlId::AfTrigger => 36,
            ControlId::AfPause => 37,
            ControlId::AfState => 39,
            ControlId::AfPauseState => 40,
            ControlId::HdrMode => 41,
            ControlId::HdrChannel => 42,
            ControlId::DebugMetadataEnable => 44,
            ControlId::AePrecaptureTrigger => 45,
            ControlId::NoiseReductionMode => 46,
            ControlId::ColorCorrectionAberrationMode => 47,
            ControlId::AeState => 48,
            ControlId::AwbState => 49,
            ControlId::SensorRollingShutterSkew => 50,
            ControlId::LensShadingMapMode => 51,
            ControlId::PipelineDepth => 52,
            ControlId::MaxLatency => 53,
            ControlId::TestPatternMode => 54,
            ControlId::FaceDetectMode => 55,
            ControlId::FaceDetectFaceRectangles => 56,
            ControlId::FaceDetectFaceScores => 57,
            ControlId::FaceDetectFaceLandmarks => 58,
            ControlId::FaceDetectFaceIds => 59,
            ControlId::StatsOutputEnable => 60,
            ControlId::Bcm2835StatsOutput => 61,
            ControlId::ScalerCrops => 62,
        }
    }

    /// The compiled control a numeric id names, if any: an id this snapshot
    /// does not know is not an error, merely unrecognized.
    pub open spec fn spec_from_id(id: u32) -> Option<ControlId> {
        if id == 1 {
            Some(ControlId::AeEnable)
        } else
        if id == 2 {
            Some(ControlId::AeLocked)
        } else
        if id == 3 {
            Some(ControlId::AeMeteringMode)
        } else
        if id == 4 {
            Some(ControlId::AeConstraintMode)
        } else
        if id == 5 {
            Some(ControlId::AeExposureMode)
        } else
        if id == 7 {
            Some(ControlId::ExposureTime)
        } else
        if id == 9 {
            Some(ControlId::AeFlickerMode)
        } else
        if id == 10 {
            Some(ControlId::AeFlickerPeriod)
        } else
        if id == 11 {
            Some(ControlId::AeFlickerDetected)
        } else
        if id == 15 {
            Some(ControlId::AwbEnable)
        } else
        if id == 16 {
            Some(ControlId::AwbMode)
        } else
        if id == 17 {
            Some(ControlId::AwbLocked)
        } else
        if id == 19 {
            Some(ControlId::ColourTemperature)
        } else
        if id == 21 {
            Some(ControlId::SensorBlackLevels)
        } else
        if id == 23 {
            Some(ControlId::FocusFoM)
        } else
        if id == 25 {
            Some(ControlId::ScalerCrop)
        } else
        if id == 27 {
            Some(ControlId::FrameDuration)
        } else
        if id == 28 {
            Some(ControlId::FrameDurationLimits)
        } else
        if id == 30 {
            Some(ControlId::SensorTimestamp)
        } else
        if id == 31 {
            Some(ControlId::AfMode)
        } else
        if id == 32 {
            Some(ControlId::AfRange)
        } else
        if id == 33 {
            Some(ControlId::AfSpeed)
        } else
        if id == 34 {
            Some(ControlId::AfMetering)
        } else
        if id == 35 {
            Some(ControlId::AfWindows)
        } else
        if id == 36 {
            Some(ControlId::AfTrigger)
        } else
        if id == 37 {
            Some(ControlId::AfPause)
        } else
        if id == 39 {
            Some(ControlId::AfState)
        } else
        if id == 40 {
            Some(ControlId::AfPauseState)
        } else
        if id == 41 {
            Some(ControlId::HdrMode)
        } else
        if id == 42 {
            Some(ControlId::HdrChannel)
        } else
        if id == 44 {
            Some(ControlId::DebugMetadataEnable)
        } else
        if id == 45 {
            Some(ControlId::AePrecaptureTrigger)
        } else
        if id == 46 {
            Some(ControlId::NoiseReductionMode)
        } else
        if id == 47 {
            Some(ControlId::ColorCorrectionAberrationMode)
        } else
        if id == 48 {
            Some(ControlId::AeState)
        } else
        if id == 49 {
            Some(ControlId::AwbState)
        } else
        if id == 50 {
            Some(ControlId::SensorRollingShutterSkew)
        } else
        if id == 51 {
            Some(ControlId::LensShadingMapMode)
        } else
        if id == 52 {
            Some(ControlId::PipelineDepth)
        } else
        if id == 53 {
            Some(ControlId::MaxLatency)
        } else
        if id == 54 {
            Some(ControlId::TestPatternMode)
        } else
        if id == 55 {
            Some(ControlId::FaceDetectMode)
        } else
        if id == 56 {
            Some(ControlId::FaceDetectFaceRectangles)
        } else
        if id == 57 {
            Some(ControlId::FaceDetectFaceScores)
        } else
        if id == 58 {
            Some(ControlId::FaceDetectFaceLandmarks)
        } else
        if id == 59 {
            Some(ControlId::FaceDetectFaceIds)
        } else
        if id == 60 {
            Some(ControlId::StatsOutputEnable)
        } else
        if id == 61 {
            Some(ControlId::Bcm2835StatsOutput)
        } else
        if id == 62 {
            Some(ControlId::ScalerCrops)
        } else {
            None
        }
    }

    /// The compiled control a numeric id names, if any.
    pub fn from_id(id: u32) -> (r: Option<ControlId>)
        ensures
            r == Self::spec_from_id(id),
    {
        if id == 1 {
            Some(ControlId::AeEnable)
        } else
        if id == 2 {
            Some(ControlId::AeLocked)
        } else
        if id == 3 {
            Some(ControlId::AeMeteringMode)
        } else
        if id == 4 {
            Some(ControlId::AeConstraintMode)
        } else
        if id == 5 {
            Some(ControlId::AeExposureMode)
        } else
        if id == 7 {
            Some(ControlId::ExposureTime)
        } else
        if id == 9 {
            Some(ControlId::AeFlickerMode)
        } else
        if id == 10 {
            Some(ControlId::AeFlickerPeriod)
        } else
        if id == 11 {
            Some(ControlId::AeFlickerDetected)
        } else
        if id == 15 {
            Some(ControlId::AwbEnable)
        } else
        if id == 16 {
            Some(ControlId::AwbMode)
        } else
        if id == 17 {
            Some(ControlId::AwbLocked)
        } else
        if id == 19 {
            Some(ControlId::ColourTemperature)
        } else
        if id == 21 {
            Some(ControlId::SensorBlackLevels)
        } else
        if id == 23 {
            Some(ControlId::FocusFoM)
        } else
        if id == 25 {
            Some(ControlId::ScalerCrop)
        } else
        if id == 27 {
            Some(ControlId::FrameDuration)
        } else
        if id == 28 {
            Some(ControlId::FrameDurationLimits)
        } else
        if id == 30 {
            Some(ControlId::SensorTimestamp)
        } else
        if id == 31 {
            Some(ControlId::AfMode)
        } else
        if id == 32 {
            Some(ControlId::AfRange)
        } else
        if id == 33 {
            Some(ControlId::AfSpeed)
        } else
        if id == 34 {
            Some(ControlId::AfMetering)
        } else
        if id == 35 {
            Some(ControlId::AfWindows)
        } else
        if id == 36 {
            Some(ControlId::AfTrigger)
        } else
        if id == 37 {
            Some(ControlId::AfPause)
        } else
        if id == 39 {
            Some(ControlId::AfState)
        } else
        if id == 40 {
            Some(ControlId::AfPauseState)
        } else
        if id == 41 {
            Some(ControlId::HdrMode)
        } else
        if id == 42 {
            Some(ControlId::HdrChannel)
        } else
        if id == 44 {
            Some(ControlId::DebugMetadataEnable)
        } else
        if id == 45 {
            Some(ControlId::AePrecaptureTrigger)
        } else
        if id == 46 {
            Some(ControlId::NoiseReductionMode)
        } else
        if id == 47 {
            Some(ControlId::ColorCorrectionAberrationMode)
        } else
        if id == 48 {
            Some(ControlId::AeState)
        } else
        if id == 49 {
            Some(ControlId::AwbState)
        } else
        if id == 50 {
            Some(ControlId::SensorRollingShutterSkew)
        } else
        if id == 51 {
            Some(ControlId::LensShadingMapMode)
        } else
        if id == 52 {
            Some(ControlId::PipelineDepth)
        } else
        if id == 53 {
            Some(ControlId::MaxLatency)
        } else
        if id == 54 {
            Some(ControlId::TestPatternMode)
        } else
        if id == 55 {
            Some(ControlId::FaceDetectMode)
        } else
        if id == 56 {
            Some(ControlId::FaceDetectFaceRectangles)
        } else
        if id == 57 {
            Some(ControlId::FaceDetectFaceScores)
        } else
        if id == 58 {
            Some(ControlId::FaceDetectFaceLandmarks)
        } else
        if id == 59 {
            Some(ControlId::FaceDetectFaceIds)
        } else
        if id == 60 {
            Some(ControlId::StatsOutputEnable)
        } else
        if id == 61 {
            Some(ControlId::Bcm2835StatsOutput)
        } else
        if id == 62 {
            Some(ControlId::ScalerCrops)
        } else {
            None
        }
    }
}

/// Enable or disable the automatic exposure algorithm.
#[derive(Debug, Clone)]
pub struct AeEnable(pub bool);

impl ControlEntry for AeEnable {
    open spec fn spec_id() -> u32 {
        1
    }

    open spec fn spec_accepts(v: ValueView) -> bool {
        v matches ValueView::Bool(s) && s.len() == 1
    }

    open spec fn spec_reject(v: ValueView) -> ErrorView {
        spec_scalar_reject(TYPE_BOOL, v)
    }

    open spec fn spec_value(self) -> ValueView {
        ValueView::Bool(seq![self.0])
    }

    fn entry_id() -> (r: u32) {
        1
    }

    fn try_from_value(value: ControlValue) -> (r: Result<Self, ControlValueError>) {
        let ghost v0 = value@;
        match value.try_into_bool() {
            Ok(x) => {
                proof {
                    assert(ValueView::Bool(seq![x]) =~= v0);
                }
                Ok(AeEnable(x))
            },
            Err(e) => Err(e),
        }
    }

    fn into_value(self) -> (r: ControlValue) {
        ControlValue::from_bool(self.0)
    }
}

impl Control for AeEnable {

}

/// Report the lock status of a running automatic exposure algorithm.
#[derive(Debug, Clone)]
pub struct AeLocked(pub bool);

impl ControlEntry for AeLocked {
    open spec fn spec_id() -> u32 {
        2
    }

    open spec fn spec_accepts(v: ValueView) -> bool {
        v matches ValueView::Bool(s) && s.len() == 1
    }

    open spec fn spec_reject(v: ValueView) -> ErrorView {
        spec_scalar_reject(TYPE_BOOL, v)
    }

    open spec fn spec_value(self) -> ValueView {
        ValueView::Bool(seq![self.0])
    }

    fn entry_id() -> (r: u32) {
        2
    }

    fn try_from_value(value: ControlValue) -> (r: Result<Self, ControlValueError>) {
        let ghost v0 = value@;
        match value.try_into_bool() {
            Ok(x) => {
                proof {
                    assert(ValueView::Bool(seq![x]) =~= v0);
                }
                Ok(AeLocked(x))
            },
            Err(e) => Err(e),
        }
    }

    fn into_value(self) -> (r: ControlValue) {
        ControlValue::from_bool(self.0)
    }
}

impl Control for AeLocked {

}

/// Metering mode for the automatic exposure algorithm.
#[derive(Debug, Clone, Copy, PartialEq, Eq, Structural)]
pub enum AeMeteringMode {
    MeteringCentreWeighted,
    MeteringSpot,
    MeteringMatrix,
    MeteringCustom,
}

impl AeMeteringMode {
    /// The wire value of each variant.
    pub open spec fn spec_wire(self) -> i32 {
        match self {
            AeMeteringMode::MeteringCentreWeighted => 0,
            AeMeteringMode::MeteringSpot => 1,
            AeMeteringMode::MeteringMatrix => 2,
            AeMeteringMode::MeteringCustom => 3,
        }
    }

    /// The variant a wire value names, if any.
    pub open spec fn spec_from_wire(x: i32) -> Option<AeMeteringMode> {
        if x == 0 {
            Some(AeMeteringMode::MeteringCentreWeighted)
        } else
        if x == 1 {
            Some(AeMeteringMode::MeteringSpot)
        } else
        if x == 2 {
            Some(AeMeteringMode::MeteringMatrix)
        } else
        if x == 3 {
            Some(AeMeteringMode::MeteringCustom)
        } else {
            None
        }
    }

    fn from_wire(x: i32) -> (r: Option<AeMeteringMode>)
        ensures
            r == Self::spec_from_wire(x),
    {
        if x == 0 {
            Some(AeMeteringMode::MeteringCentreWeighted)
        } else
        if x == 1 {
            Some(AeMeteringMode::MeteringSpot)
        } else
        if x == 2 {
            Some(AeMeteringMode::MeteringMatrix)
        } else
        if x == 3 {
            Some(AeMeteringMode::MeteringCustom)
        } else {
            None
        }
    }

    fn wire(self) -> (r: i32)
        ensures
            r == self.spec_wire(),
    {
        match self {
            AeMeteringMode::MeteringCentreWeighted => 0,
            AeMeteringMode::MeteringSpot => 1,
            AeMeteringMode::MeteringMatrix => 2,
            AeMeteringMode::MeteringCustom => 3,
        }
    }
}

impl ControlEntry for AeMeteringMode {
    open spec fn spec_id() -> u32 {
        3
    }

    open spec fn spec_accepts(v: ValueView) -> bool {
        v matches ValueView::Int32(s) && s.len() == 1 && Self::spec_from_wire(s[0]) is Some
    }

    open spec fn spec_reject(v: ValueView) -> ErrorView {
        spec_enum_reject(TYPE_INT32, v)
    }

    open spec fn spec_value(self) -> ValueView {
        ValueView::Int32(seq![self.spec_wire()])
    }

    fn entry_id() -> (r: u32) {
        3
    }

    fn try_from_value(value: ControlValue) -> (r: Result<Self, ControlValueError>) {
        let ghost v0 = value@;
        let orig = value.clone();
        match value.try_into_i32() {
            Ok(x) => match Self::from_wire(x) {
                Some(m) => {
                    proof {
                        assert(ValueView::Int32(seq![m.spec_wire()]) =~= v0);
                    }
                    Ok(m)
                },
                None => Err(ControlValueError::UnknownVariant(orig)),
            },
            Err(e) => Err(e),
        }
    }

    fn into_value(self) -> (r: ControlValue) {
        ControlValue::from_i32(self.wire())
    }
}

impl Control for AeMeteringMode {

}

/// Constraint mode for the automatic exposure algorithm.
#[derive(Debug, Clone, Copy, PartialEq, Eq, Structural)]
pub enum AeConstraintMode {
    ConstraintNormal,
    ConstraintHighlight,
    ConstraintShadows,
    ConstraintCustom,
}

impl AeConstraintMode {
    /// The wire value of each variant.
    pub open spec fn spec_wire(self) -> i32 {
        match self {
            AeConstraintMode::ConstraintNormal => 0,
            AeConstraintMode::ConstraintHighlight => 1,
            AeConstraintMode::ConstraintShadows => 2,
            AeConstraintMode::ConstraintCustom => 3,
        }
    }

    /// The variant a wire value names, if any.
    pub open spec fn spec_from_wire(x: i32) -> Option<AeConstraintMode> {
        if x == 0 {
            Some(AeConstraintMode::ConstraintNormal)
        } else
        if x == 1 {
            Some(AeConstraintMode::ConstraintHighlight)
        } else
        if x == 2 {
            Some(AeConstraintMode::ConstraintShadows)
        } else
        if x == 3 {
            Some(AeConstraintMode::ConstraintCustom)
        } else {
            None
        }
    }

    fn from_wire(x: i32) -> (r: Option<AeConstraintMode>)
        ensures
            r == Self::spec_from_wire(x),
    {
        if x == 0 {
            Some(AeConstraintMode::ConstraintNormal)
        } else
        if x == 1 {
            Some(AeConstraintMode::ConstraintHighlight)
        } else
        if x == 2 {
            Some(AeConstraintMode::ConstraintShadows)
        } else
        if x == 3 {
            Some(AeConstraintMode::ConstraintCustom)
        } else {
            None
        }
    }

    fn wire(self) -> (r: i32)
        ensures
            r == self.spec_wire(),
    {
        match self {
            AeConstraintMode::ConstraintNormal => 0,
            AeConstraintMode::ConstraintHighlight => 1,
            AeConstraintMode::ConstraintShadows => 2,
            AeConstraintMode::ConstraintCustom => 3,
        }
    }
}

impl ControlEntry for AeConstraintMode {
    open spec fn spec_id() -> u32 {
        4
    }

    open spec fn spec_accepts(v: ValueView) -> bool {
        v matches ValueView::Int32(s) && s.len() == 1 && Self::spec_from_wire(s[0]) is Some
    }

    open spec fn spec_reject(v: ValueView) -> ErrorView {
        spec_enum_reject(TYPE_INT32, v)
    }

    open spec fn spec_value(self) -> ValueView {
        ValueView::Int32(seq![self.spec_wire()])
    }

    fn entry_id() -> (r: u32) {
        4
    }

    fn try_from_value(value: ControlValue) -> (r: Result<Self, ControlValueError>) {
        let ghost v0 = value@;
        let orig = value.clone();
        match value.try_into_i32() {
            Ok(x) => match Self::from_wire(x) {
                Some(m) => {
                    proof {
                        assert(ValueView::Int32(seq![m.spec_wire()]) =~= v0);
                    }
                    Ok(m)
                },
                None => Err(ControlValueError::UnknownVariant(orig)),
            },
            Err(e) => Err(e),
        }
    }

    fn into_value(self) -> (r: ControlValue) {
        ControlValue::from_i32(self.wire())
    }
}

impl Control for AeConstraintMode {

}

/// Exposure mode for the automatic exposure algorithm.
#[derive(Debug, Clone, Copy, PartialEq, Eq, Structural)]
pub enum AeExposureMode {
    ExposureNormal,
    ExposureShort,
    ExposureLong,
    ExposureCustom,
}

impl AeExposureMode {
    /// The wire value of each variant.
    pub open spec fn spec_wire(self) -> i32 {
        match self {
            AeExposureMode::ExposureNormal => 0,
            AeExposureMode::ExposureShort => 1,
            AeExposureMode::ExposureLong => 2,
            AeExposureMode::ExposureCustom => 3,
        }
    }

    /// The variant a wire value names, if any.
    pub open spec fn spec_from_wire(x: i32) -> Option<AeExposureMode> {
        if x == 0 {
            Some(AeExposureMode::ExposureNormal)
        } else
        if x == 1 {
            Some(AeExposureMode::ExposureShort)
        } else
        if x == 2 {
            Some(AeExposureMode::ExposureLong)
        } else
        if x == 3 {
            Some(AeExposureMode::ExposureCustom)
        } else {
            None
        }
    }

    fn from_wire(x: i32) -> (r: Option<AeExposureMode>)
        ensures
            r == Self::spec_from_wire(x),
    {
        if x == 0 {
            Some(AeExposureMode::ExposureNormal)
        } else
        if x == 1 {
            Some(AeExposureMode::ExposureShort)
        } else
        if x == 2 {
            Some(AeExposureMode::ExposureLong)
        } else
        if x == 3 {
            Some(AeExposureMode::ExposureCustom)
        } else {
            None
        }
    }

    fn wire(self) -> (r: i32)
        ensures
            r == self.spec_wire(),
    {
        match self {
            AeExposureMode::ExposureNormal => 0,
            AeExposureMode::ExposureShort => 1,
            AeExposureMode::ExposureLong => 2,
            AeExposureMode::ExposureCustom => 3,
        }
    }
}

impl ControlEntry for AeExposureMode {
    open spec fn spec_id() -> u32 {
        5
    }

    open spec fn spec_accepts(v: ValueView) -> bool {
        v matches ValueView::Int32(s) && s.len() == 1 && Self::spec_from_wire(s[0]) is Some
    }

    open spec fn spec_reject(v: ValueView) -> ErrorView {
        spec_enum_reject(TYPE_INT32, v)
    }

    open spec fn spec_value(self) -> ValueView {
        ValueView::Int32(seq![self.spec_wire()])
    }

    fn entry_id() -> (r: u32) {
        5
    }

    fn try_from_value(value: ControlValue) -> (r: Result<Self, ControlValueError>) {
        let ghost v0 = value@;
        let orig = value.clone();
        match value.try_into_i32() {
            Ok(x) => match Self::from_wire(x) {
                Some(m) => {
                    proof {
                        assert(ValueView::Int32(seq![m.spec_wire()]) =~= v0);
                    }
                    Ok(m)
                },
                None => Err(ControlValueError::UnknownVariant(orig)),
            },
            Err(e) => Err(e),
        }
    }

    fn into_value(self) -> (r: ControlValue) {
        ControlValue::from_i32(self.wire())
    }
}

impl Control for AeExposureMode {

}

/// Exposure time for the frame, in microseconds.
#[derive(Debug, Clone)]
pub struct ExposureTime(pub i32);

impl ControlEntry for ExposureTime {
    open spec fn spec_id() -> u32 {
        7
    }

    open spec fn spec_accepts(v: ValueView) -> bool {
        v matches ValueView::Int32(s) && s.len() == 1
    }

    open spec fn spec_reject(v: ValueView) -> ErrorView {
        spec_scalar_reject(TYPE_INT32, v)
    }

    open spec fn spec_value(self) -> ValueView {
        ValueView::Int32(seq![self.0])
    }

    fn entry_id() -> (r: u32) {
        7
    }

    fn try_from_value(value: ControlValue) -> (r: Result<Self, ControlValueError>) {
        let ghost v0 = value@;
        match value.try_into_i32() {
            Ok(x) => {
                proof {
                    assert(ValueView::Int32(seq![x]) =~= v0);
                }
                Ok(ExposureTime(x))
            },
            Err(e) => Err(e),
        }
    }

    fn into_value(self) -> (r: ControlValue) {
        ControlValue::from_i32(self.0)
    }
}

impl Control for ExposureTime {

}

/// Flicker avoidance mode for AGC/AEC.
#[derive(Debug, Clone, Copy, PartialEq, Eq, Structural)]
pub enum AeFlickerMode {
    FlickerOff,
    FlickerManual,
    FlickerAuto,
}

impl AeFlickerMode {
    /// The wire value of each variant.
    pub open spec fn spec_wire(self) -> i32 {
        match self {
            AeFlickerMode::FlickerOff => 0,
            AeFlickerMode::FlickerManual => 1,
            AeFlickerMode::FlickerAuto => 2,
        }
    }

    /// The variant a wire value names, if any.
    pub open spec fn spec_from_wire(x: i32) -> Option<AeFlickerMode> {
        if x == 0 {
            Some(AeFlickerMode::FlickerOff)
        } else
        if x == 1 {
            Some(AeFlickerMode::FlickerManual)
        } else
        if x == 2 {
            Some(AeFlickerMode::FlickerAuto)
        } else {
            None
        }
    }

    fn from_wire(x: i32) -> (r: Option<AeFlickerMode>)
        ensures
            r == Self::spec_from_wire(x),
    {
        if x == 0 {
            Some(AeFlickerMode::FlickerOff)
        } else
        if x == 1 {
            Some(AeFlickerMode::FlickerManual)
        } else
        if x == 2 {
            Some(AeFlickerMode::FlickerAuto)
        } else {
            None
        }
    }

    fn wire(self) -> (r: i32)
        ensures
            r == self.spec_wire(),
    {
        match self {
            AeFlickerMode::FlickerOff => 0,
            AeFlickerMode::FlickerManual => 1,
            AeFlickerMode::FlickerAuto => 2,
        }
    }
}

impl ControlEntry for AeFlickerMode {
    open spec fn spec_id() -> u32 {
        9
    }

    open spec fn spec_accepts(v: ValueView) -> bool {
        v matches ValueView::Int32(s) && s.len() == 1 && Self::spec_from_wire(s[0]) is Some
    }

    open spec fn spec_reject(v: ValueView) -> ErrorView {
        spec_enum_reject(TYPE_INT32, v)
    }

    open spec fn spec_value(self) -> ValueView {
        ValueView::Int32(seq![self.spec_wire()])
    }

    fn entry_id() -> (r: u32) {
        9
    }

    fn try_from_value(value: ControlValue) -> (r: Result<Self, ControlValueError>) {
        let ghost v0 = value@;
        let orig = value.clone();
        match value.try_into_i32() {
            Ok(x) => match Self::from_wire(x) {
                Some(m) => {
                    proof {
                        assert(ValueView::Int32(seq![m.spec_wire()]) =~= v0);
                    }
                    Ok(m)
                },
                None => Err(ControlValueError::UnknownVariant(orig)),
            },
            Err(e) => Err(e),
        }
    }

    fn into_value(self) -> (r: ControlValue) {
        ControlValue::from_i32(self.wire())
    }
}

impl Control for AeFlickerMode {

}

/// Manual flicker period to avoid, in microseconds.
#[derive(Debug, Clone)]
pub struct AeFlickerPeriod(pub i32);

impl ControlEntry for AeFlickerPeriod {
    open spec fn spec_id() -> u32 {
        10
    }

    open spec fn spec_accepts(v: ValueView) -> bool {
        v matches ValueView::Int32(s) && s.len() == 1
    }

    open spec fn spec_reject(v: ValueView) -> ErrorView {
        spec_scalar_reject(TYPE_INT32, v)
    }

    open spec fn spec_value(self) -> ValueView {
        ValueView::Int32(seq![self.0])
    }

    fn entry_id() -> (r: u32) {
        10
    }

    fn try_from_value(value: ControlValue) -> (r: Result<Self, ControlValueError>) {
        let ghost v0 = value@;
        match value.try_into_i32() {
            Ok(x) => {
                proof {
                    assert(ValueView::Int32(seq![x]) =~= v0);
                }
                Ok(AeFlickerPeriod(x))
            },
            Err(e) => Err(e),
        }
    }

    fn into_value(self) -> (r: ControlValue) {
        ControlValue::from_i32(self.0)
    }
}

impl Control for AeFlickerPeriod {

}

/// Flicker period detected, in microseconds; zero when none.
#[derive(Debug, Clone)]
pub struct AeFlickerDetected(pub i32);

impl ControlEntry for AeFlickerDetected {
    open spec fn spec_id() -> u32 {
        11
    }

    open spec fn spec_accepts(v: ValueView) -> bool {
        v matches ValueView::Int32(s) && s.len() == 1
    }

    open spec fn spec_reject(v: ValueView) -> ErrorView {
        spec_scalar_reject(TYPE_INT32, v)
    }

    open spec fn spec_value(self) -> ValueView {
        ValueView::Int32(seq![self.0])
    }

    fn entry_id() -> (r: u32) {
        11
    }

    fn try_from_value(value: ControlValue) -> (r: Result<Self, ControlValueError>) {
        let ghost v0 = value@;
        match value.try_into_i32() {
            Ok(x) => {
                proof {
                    assert(ValueView::Int32(seq![x]) =~= v0);
                }
                Ok(AeFlickerDetected(x))
            },
            Err(e) => Err(e),
        }
    }

    fn into_value(self) -> (r: ControlValue) {
        ControlValue::from_i32(self.0)
    }
}

impl Control for AeFlickerDetected {

}

/// Enable or disable the automatic white balance algorithm.
#[derive(Debug, Clone)]
pub struct AwbEnable(pub bool);

impl ControlEntry for AwbEnable {
    open spec fn spec_id() -> u32 {
        15
    }

    open spec fn spec_accepts(v: ValueView) -> bool {
        v matches ValueView::Bool(s) && s.len() == 1
    }

    open spec fn spec_reject(v: ValueView) -> ErrorView {
        spec_scalar_reject(TYPE_BOOL, v)
    }

    open spec fn spec_value(self) -> ValueView {
        ValueView::Bool(seq![self.0])
    }

    fn entry_id() -> (r: u32) {
        15
    }

    fn try_from_value(value: ControlValue) -> (r: Result<Self, ControlValueError>) {
        let ghost v0 = value@;
        match value.try_into_bool() {
            Ok(x) => {
                proof {
                    assert(ValueView::Bool(seq![x]) =~= v0);
                }
                Ok(AwbEnable(x))
            },
            Err(e) => Err(e),
        }
    }

    fn into_value(self) -> (r: ControlValue) {
        ControlValue::from_bool(self.0)
    }
}

impl Control for AwbEnable {

}

/// Mode of the automatic white balance algorithm.
#[derive(Debug, Clone, Copy, PartialEq, Eq, Structural)]
pub enum AwbMode {
    AwbAuto,
    AwbIncandescent,
    AwbTungsten,
    AwbFluorescent,
    AwbIndoor,
    AwbDaylight,
    AwbCloudy,
    AwbCustom,
}

impl AwbMode {
    /// The wire value of each variant.
    pub open spec fn spec_wire(self) -> i32 {
        match self {
            AwbMode::AwbAuto => 0,
            AwbMode::AwbIncandescent => 1,
            AwbMode::AwbTungsten => 2,
            AwbMode::AwbFluorescent => 3,
            AwbMode::AwbIndoor => 4,
            AwbMode::AwbDaylight => 5,
            AwbMode::AwbCloudy => 6,
            AwbMode::AwbCustom => 7,
        }
    }

    /// The variant a wire value names, if any.
    pub open spec fn spec_from_wire(x: i32) -> Option<AwbMode> {
        if x == 0 {
            Some(AwbMode::AwbAuto)
        } else
        if x == 1 {
            Some(AwbMode::AwbIncandescent)
        } else
        if x == 2 {
            Some(AwbMode::AwbTungsten)
        } else
        if x == 3 {
            Some(AwbMode::AwbFluorescent)
        } else
        if x == 4 {
            Some(AwbMode::AwbIndoor)
        } else
        if x == 5 {
            Some(AwbMode::AwbDaylight)
        } else
        if x == 6 {
            Some(AwbMode::AwbCloudy)
        } else
        if x == 7 {
            Some(AwbMode::AwbCustom)
        } else {
            None
        }
    }

    fn from_wire(x: i32) -> (r: Option<AwbMode>)
        ensures
            r == Self::spec_from_wire(x),
    {
        if x == 0 {
            Some(AwbMode::AwbAuto)
        } else
        if x == 1 {
            Some(AwbMode::AwbIncandescent)
        } else
        if x == 2 {
            Some(AwbMode::AwbTungsten)
        } else
        if x == 3 {
            Some(AwbMode::AwbFluorescent)
        } else
        if x == 4 {
            Some(AwbMode::AwbIndoor)
        } else
        if x == 5 {
            Some(AwbMode::AwbDaylight)
        } else
        if x == 6 {
            Some(AwbMode::AwbCloudy)
        } else
        if x == 7 {
            Some(AwbMode::AwbCustom)
        } else {
            None
        }
    }

    fn wire(self) -> (r: i32)
        ensures
            r == self.spec_wire(),
    {
        match self {
            AwbMode::AwbAuto => 0,
            AwbMode::AwbIncandescent => 1,
            AwbMode::AwbTungsten => 2,
            AwbMode::AwbFluorescent => 3,
            AwbMode::AwbIndoor => 4,
            AwbMode::AwbDaylight => 5,
            AwbMode::AwbCloudy => 6,
            AwbMode::AwbCustom => 7,
        }
    }
}

impl ControlEntry for AwbMode {
    open spec fn spec_id() -> u32 {
        16
    }

    open spec fn spec_accepts(v: ValueView) -> bool {
        v matches ValueView::Int32(s) && s.len() == 1 && Self::spec_from_wire(s[0]) is Some
    }

    open spec fn spec_reject(v: ValueView) -> ErrorView {
        spec_enum_reject(TYPE_INT32, v)
    }

    open spec fn spec_value(self) -> ValueView {
        ValueView::Int32(seq![self.spec_wire()])
    }

    fn entry_id() -> (r: u32) {
        16
    }

    fn try_from_value(value: ControlValue) -> (r: Result<Self, ControlValueError>) {
        let ghost v0 = value@;
        let orig = value.clone();
        match value.try_into_i32() {
            Ok(x) => match Self::from_wire(x) {
                Some(m) => {
                    proof {
                        assert(ValueView::Int32(seq![m.spec_wire()]) =~= v0);
                    }
                    Ok(m)
                },
                None => Err(ControlValueError::UnknownVariant(orig)),
            },
            Err(e) => Err(e),
        }
    }

    fn into_value(self) -> (r: ControlValue) {
        ControlValue::from_i32(self.wire())
    }
}

impl Control for AwbMode {

}

/// Report the lock status of a running automatic white balance algorithm.
#[derive(Debug, Clone)]
pub struct AwbLocked(pub bool);

impl ControlEntry for AwbLocked {
    open spec fn spec_id() -> u32 {
        17
    }

    open spec fn spec_accepts(v: ValueView) -> bool {
        v matches ValueView::Bool(s) && s.len() == 1
    }

    open spec fn spec_reject(v: ValueView) -> ErrorView {
        spec_scalar_reject(TYPE_BOOL, v)
    }

    open spec fn spec_value(self) -> ValueView {
        ValueView::Bool(seq![self.0])
    }

    fn entry_id() -> (r: u32) {
        17
    }

    fn try_from_value(value: ControlValue) -> (r: Result<Self, ControlValueError>) {
        let ghost v0 = value@;
        match value.try_into_bool() {
            Ok(x) => {
                proof {
                    assert(ValueView::Bool(seq![x]) =~= v0);
                }
                Ok(AwbLocked(x))
            },
            Err(e) => Err(e),
        }
    }

    fn into_value(self) -> (r: ControlValue) {
        ControlValue::from_bool(self.0)
    }
}

impl Control for AwbLocked {

}

/// Estimate of the colour temperature of the frame, in kelvin.
#[derive(Debug, Clone)]
pub struct ColourTemperature(pub i32);

impl ControlEntry for ColourTemperature {
    open spec fn spec_id() -> u32 {
        19
    }

    open spec fn spec_accepts(v: ValueView) -> bool {
        v matches ValueView::Int32(s) && s.len() == 1
    }

    open spec fn spec_reject(v: ValueView) -> ErrorView {
        spec_scalar_reject(TYPE_INT32, v)
    }

    open spec fn spec_value(self) -> ValueView {
        ValueView::Int32(seq![self.0])
    }

    fn entry_id() -> (r: u32) {
        19
    }

    fn try_from_value(value: ControlValue) -> (r: Result<Self, ControlValueError>) {
        let ghost v0 = value@;
        match value.try_into_i32() {
            Ok(x) => {
                proof {
                    assert(ValueView::Int32(seq![x]) =~= v0);
                }
                Ok(ColourTemperature(x))
            },
            Err(e) => Err(e),
        }
    }

    fn into_value(self) -> (r: ControlValue) {
        ControlValue::from_i32(self.0)
    }
}

impl Control for ColourTemperature {

}

/// Black levels of the frame, one per colour channel, in 16-bit scale.
#[derive(Debug, Clone)]
pub struct SensorBlackLevels(pub [i32; 4]);

impl ControlEntry for SensorBlackLevels {
    open spec fn spec_id() -> u32 {
        21
    }

    open spec fn spec_accepts(v: ValueView) -> bool {
        v matches ValueView::Int32(s) && s.len() == 4
    }

    open spec fn spec_reject(v: ValueView) -> ErrorView {
        spec_fixed_reject(TYPE_INT32, 4, v)
    }

    open spec fn spec_value(self) -> ValueView {
        ValueView::Int32(self.0@)
    }

    fn entry_id() -> (r: u32) {
        21
    }

    fn try_from_value(value: ControlValue) -> (r: Result<Self, ControlValueError>) {
        let ghost v0 = value@;
        match value.try_into_i32_vec() {
            Ok(v) => {
                if v.len() == 4 {
                    let arr = [v[0], v[1], v[2], v[3]];
                    proof {
                        assert(arr@ =~= v@);
                    }
                    Ok(SensorBlackLevels(arr))
                } else {
                    let found = v.len();
                    Err(ControlValueError::InvalidLength { expected: 4, found })
                }
            },
            Err(e) => Err(e),
        }
    }

    fn into_value(self) -> (r: ControlValue) {
        let mut v: Vec<i32> = Vec::new();
        v.push(self.0[0]);
        v.push(self.0[1]);
        v.push(self.0[2]);
        v.push(self.0[3]);
        proof {
            assert(v@ =~= self.0@);
        }
        ControlValue::from_i32_vec(v)
    }
}

impl Control for SensorBlackLevels {

}

/// Figure of merit of the focus of the frame.
#[derive(Debug, Clone)]
pub struct FocusFoM(pub i32);

impl ControlEntry for FocusFoM {
    open spec fn spec_id() -> u32 {
        23
    }

    open spec fn spec_accepts(v: ValueView) -> bool {
        v matches ValueView::Int32(s) && s.len() == 1
    }

    open spec fn spec_reject(v: ValueView) -> ErrorView {
        spec_scalar_reject(TYPE_INT32, v)
    }

    open spec fn spec_value(self) -> ValueView {
        ValueView::Int32(seq![self.0])
    }

    fn entry_id() -> (r: u32) {
        23
    }

    fn try_from_value(value: ControlValue) -> (r: Result<Self, ControlValueError>) {
        let ghost v0 = value@;
        match value.try_into_i32() {
            Ok(x) => {
                proof {
                    assert(ValueView::Int32(seq![x]) =~= v0);
                }
                Ok(FocusFoM(x))
            },
            Err(e) => Err(e),
        }
    }

    fn into_value(self) -> (r: ControlValue) {
        ControlValue::from_i32(self.0)
    }
}

impl Control for FocusFoM {

}

/// Region of the sensor used for the output image.
#[derive(Debug, Clone)]
pub struct ScalerCrop(pub Rectangle);

impl ControlEntry for ScalerCrop {
    open spec fn spec_id() -> u32 {
        25
    }

    open spec fn spec_accepts(v: ValueView) -> bool {
        v matches ValueView::Rectangle(s) && s.len() == 1
    }

    open spec fn spec_reject(v: ValueView) -> ErrorView {
        spec_scalar_reject(TYPE_RECTANGLE, v)
    }

    open spec fn spec_value(self) -> ValueView {
        ValueView::Rectangle(seq![self.0])
    }

    fn entry_id() -> (r: u32) {
        25
    }

    fn try_from_value(value: ControlValue) -> (r: Result<Self, ControlValueError>) {
        let ghost v0 = value@;
        match value.try_into_rectangle() {
            Ok(x) => {
                proof {
                    assert(ValueView::Rectangle(seq![x]) =~= v0);
                }
                Ok(ScalerCrop(x))
            },
            Err(e) => Err(e),
        }
    }

    fn into_value(self) -> (r: ControlValue) {
        ControlValue::from_rectangle(self.0)
    }
}

impl Control for ScalerCrop {

}

/// Duration of the frame, in microseconds.
#[derive(Debug, Clone)]
pub struct FrameDuration(pub i64);

impl ControlEntry for FrameDuration {
    open spec fn spec_id() -> u32 {
        27
    }

    open spec fn spec_accepts(v: ValueView) -> bool {
        v matches ValueView::Int64(s) && s.len() == 1
    }

    open spec fn spec_reject(v: ValueView) -> ErrorView {
        spec_scalar_reject(TYPE_INT64, v)
    }

    open spec fn spec_value(self) -> ValueView {
        ValueView::Int64(seq![self.0])
    }

    fn entry_id() -> (r: u32) {
        27
    }

    fn try_from_value(value: ControlValue) -> (r: Result<Self, ControlValueError>) {
        let ghost v0 = value@;
        match value.try_into_i64() {
            Ok(x) => {
                proof {
                    assert(ValueView::Int64(seq![x]) =~= v0);
                }
                Ok(FrameDuration(x))
            },
            Err(e) => Err(e),
        }
    }

    fn into_value(self) -> (r: ControlValue) {
        ControlValue::from_i64(self.0)
    }
}

impl Control for FrameDuration {

}

/// Minimum and maximum frame duration, in microseconds.
#[derive(Debug, Clone)]
pub struct FrameDurationLimits(pub [i64; 2]);

impl ControlEntry for FrameDurationLimits {
    open spec fn spec_id() -> u32 {
        28
    }

    open spec fn spec_accepts(v: ValueView) -> bool {
        v matches ValueView::Int64(s) && s.len() == 2
    }

    open spec fn spec_reject(v: ValueView) -> ErrorView {
        spec_fixed_reject(TYPE_INT64, 2, v)
    }

    open spec fn spec_value(self) -> ValueView {
        ValueView::Int64(self.0@)
    }

    fn entry_id() -> (r: u32) {
        28
    }

    fn try_from_value(value: ControlValue) -> (r: Result<Self, ControlValueError>) {
        let ghost v0 = value@;
        match value.try_into_i64_vec() {
            Ok(v) => {
                if v.len() == 2 {
                    let arr = [v[0], v[1]];
                    proof {
                        assert(arr@ =~= v@);
                    }
                    Ok(FrameDurationLimits(arr))
                } else {
                    let found = v.len();
                    Err(ControlValueError::InvalidLength { expected: 2, found })
                }
            },
            Err(e) => Err(e),
        }
    }

    fn into_value(self) -> (r: ControlValue) {
        let mut v: Vec<i64> = Vec::new();
        v.push(self.0[0]);
        v.push(self.0[1]);
        proof {
            assert(v@ =~= self.0@);
        }
        ControlValue::from_i64_vec(v)
    }
}

impl Control for FrameDurationLimits {

}

/// Timestamp of the frame's first sample, in nanoseconds.
#[derive(Debug, Clone)]
pub struct SensorTimestamp(pub i64);

impl ControlEntry for SensorTimestamp {
    open spec fn spec_id() -> u32 {
        30
    }

    open spec fn spec_accepts(v: ValueView) -> bool {
        v matches ValueView::Int64(s) && s.len() == 1
    }

    open spec fn spec_reject(v: ValueView) -> ErrorView {
        spec_scalar_reject(TYPE_INT64, v)
    }

    open spec fn spec_value(self) -> ValueView {
        ValueView::Int64(seq![self.0])
    }

    fn entry_id() -> (r: u32) {
        30
    }

    fn try_from_value(value: ControlValue) -> (r: Result<Self, ControlValueError>) {
        let ghost v0 = value@;
        match value.try_into_i64() {
            Ok(x) => {
                proof {
                    assert(ValueView::Int64(seq![x]) =~= v0);
                }
                Ok(SensorTimestamp(x))
            },
            Err(e) => Err(e),
        }
    }

    fn into_value(self) -> (r: ControlValue) {
        ControlValue::from_i64(self.0)
    }
}

impl Control for SensorTimestamp {

}

/// Mode of the autofocus algorithm.
#[derive(Debug, Clone, Copy, PartialEq, Eq, Structural)]
pub enum AfMode {
    Manual,
    Auto,
    Continuous,
}

impl AfMode {
    /// The wire value of each variant.
    pub open spec fn spec_wire(self) -> i32 {
        match self {
            AfMode::Manual => 0,
            AfMode::Auto => 1,
            AfMode::Continuous => 2,
        }
    }

    /// The variant a wire value names, if any.
    pub open spec fn spec_from_wire(x: i32) -> Option<AfMode> {
        if x == 0 {
            Some(AfMode::Manual)
        } else
        if x == 1 {
            Some(AfMode::Auto)
        } else
        if x == 2 {
            Some(AfMode::Continuous)
        } else {
            None
        }
    }

    fn from_wire(x: i32) -> (r: Option<AfMode>)
        ensures
            r == Self::spec_from_wire(x),
    {
        if x == 0 {
            Some(AfMode::Manual)
        } else
        if x == 1 {
            Some(AfMode::Auto)
        } else
        if x == 2 {
            Some(AfMode::Continuous)
        } else {
            None
        }
    }

    fn wire(self) -> (r: i32)
        ensures
            r == self.spec_wire(),
    {
        match self {
            AfMode::Manual => 0,
            AfMode::Auto => 1,
            AfMode::Continuous => 2,
        }
    }
}

impl ControlEntry for AfMode {
    open spec fn spec_id() -> u32 {
        31
    }

    open spec fn spec_accepts(v: ValueView) -> bool {
        v matches ValueView::Int32(s) && s.len() == 1 && Self::spec_from_wire(s[0]) is Some
    }

    open spec fn spec_reject(v: ValueView) -> ErrorView {
        spec_enum_reject(TYPE_INT32, v)
    }

    open spec fn spec_value(self) -> ValueView {
        ValueView::Int32(seq![self.spec_wire()])
    }

    fn entry_id() -> (r: u32) {
        31
    }

    fn try_from_value(value: ControlValue) -> (r: Result<Self, ControlValueError>) {
        let ghost v0 = value@;
        let orig = value.clone();
        match value.try_into_i32() {
            Ok(x) => match Self::from_wire(x) {
                Some(m) => {
                    proof {
                        assert(ValueView::Int32(seq![m.spec_wire()]) =~= v0);
                    }
                    Ok(m)
                },
                None => Err(ControlValueError::UnknownVariant(orig)),
            },
            Err(e) => Err(e),
        }
    }

    fn into_value(self) -> (r: ControlValue) {
        ControlValue::from_i32(self.wire())
    }
}

impl Control for AfMode {

}

/// Focus range the autofocus algorithm searches.
#[derive(Debug, Clone, Copy, PartialEq, Eq, Structural)]
pub enum AfRange {
    Normal,
    Macro,
    Full,
}

impl AfRange {
    /// The wire value of each variant.
    pub open spec fn spec_wire(self) -> i32 {
        match self {
            AfRange::Normal => 0,
            AfRange::Macro => 1,
            AfRange::Full => 2,
        }
    }

    /// The variant a wire value names, if any.
    pub open spec fn spec_from_wire(x: i32) -> Option<AfRange> {
        if x == 0 {
            Some(AfRange::Normal)
        } else
        if x == 1 {
            Some(AfRange::Macro)
        } else
        if x == 2 {
            Some(AfRange::Full)
        } else {
            None
        }
    }

    fn from_wire(x: i32) -> (r: Option<AfRange>)
        ensures
            r == Self::spec_from_wire(x),
    {
        if x == 0 {
            Some(AfRange::Normal)
        } else
        if x == 1 {
            Some(AfRange::Macro)
        } else
        if x == 2 {
            Some(AfRange::Full)
        } else {
            None
        }
    }

    fn wire(self) -> (r: i32)
        ensures
            r == self.spec_wire(),
    {
        match self {
            AfRange::Normal => 0,
            AfRange::Macro => 1,
            AfRange::Full => 2,
        }
    }
}

impl ControlEntry for AfRange {
    open spec fn spec_id() -> u32 {
        32
    }

    open spec fn spec_accepts(v: ValueView) -> bool {
        v matches ValueView::Int32(s) && s.len() == 1 && Self::spec_from_wire(s[0]) is Some
    }

    open spec fn spec_reject(v: ValueView) -> ErrorView {
        spec_enum_reject(TYPE_INT32, v)
    }

    open spec fn spec_value(self) -> ValueView {
        ValueView::Int32(seq![self.spec_wire()])
    }

    fn entry_id() -> (r: u32) {
        32
    }

    fn try_from_value(value: ControlValue) -> (r: Result<Self, ControlValueError>) {
        let ghost v0 = value@;
        let orig = value.clone();
        match value.try_into_i32() {
            Ok(x) => match Self::from_wire(x) {
                Some(m) => {
                    proof {
                        assert(ValueView::Int32(seq![m.spec_wire()]) =~= v0);
                    }
                    Ok(m)
                },
                None => Err(ControlValueError::UnknownVariant(orig)),
            },
            Err(e) => Err(e),
        }
    }

    fn into_value(self) -> (r: ControlValue) {
        ControlValue::from_i32(self.wire())
    }
}

impl Control for AfRange {

}

/// How quickly the autofocus algorithm moves the lens.
#[derive(Debug, Clone, Copy, PartialEq, Eq, Structural)]
pub enum AfSpeed {
    Normal,
    Fast,
}

impl AfSpeed {
    /// The wire value of each variant.
    pub open spec fn spec_wire(self) -> i32 {
        match self {
            AfSpeed::Normal => 0,
            AfSpeed::Fast => 1,
        }
    }

    /// The variant a wire value names, if any.
    pub open spec fn spec_from_wire(x: i32) -> Option<AfSpeed> {
        if x == 0 {
            Some(AfSpeed::Normal)
        } else
        if x == 1 {
            Some(AfSpeed::Fast)
        } else {
            None
        }
    }

    fn from_wire(x: i32) -> (r: Option<AfSpeed>)
        ensures
            r == Self::spec_from_wire(x),
    {
        if x == 0 {
            Some(AfSpeed::Normal)
        } else
        if x == 1 {
            Some(AfSpeed::Fast)
        } else {
            None
        }
    }

    fn wire(self) -> (r: i32)
        ensures
            r == self.spec_wire(),
    {
        match self {
            AfSpeed::Normal => 0,
            AfSpeed::Fast => 1,
        }
    }
}

impl ControlEntry for AfSpeed {
    open spec fn spec_id() -> u32 {
        33
    }

    open spec fn spec_accepts(v: ValueView) -> bool {
        v matches ValueView::Int32(s) && s.len() == 1 && Self::spec_from_wire(s[0]) is Some
    }

    open spec fn spec_reject(v: ValueView) -> ErrorView {
        spec_enum_reject(TYPE_INT32, v)
    }

    open spec fn spec_value(self) -> ValueView {
        ValueView::Int32(seq![self.spec_wire()])
    }

    fn entry_id() -> (r: u32) {
        33
    }

    fn try_from_value(value: ControlValue) -> (r: Result<Self, ControlValueError>) {
        let ghost v0 = value@;
        let orig = value.clone();
        match value.try_into_i32() {
            Ok(x) => match Self::from_wire(x) {
                Some(m) => {
                    proof {
                        assert(ValueView::Int32(seq![m.spec_wire()]) =~= v0);
                    }
                    Ok(m)
                },
                None => Err(ControlValueError::UnknownVariant(orig)),
            },
            Err(e) => Err(e),
        }
    }

    fn into_value(self) -> (r: ControlValue) {
        ControlValue::from_i32(self.wire())
    }
}

impl Control for AfSpeed {

}

/// Which part of the image the autofocus algorithm measures.
#[derive(Debug, Clone, Copy, PartialEq, Eq, Structural)]
pub enum AfMetering {
    Auto,
    Windows,
}

impl AfMetering {
    /// The wire value of each variant.
    pub open spec fn spec_wire(self) -> i32 {
        match self {
            AfMetering::Auto => 0,
            AfMetering::Windows => 1,
        }
    }

    /// The variant a wire value names, if any.
    pub open spec fn spec_from_wire(x: i32) -> Option<AfMetering> {
        if x == 0 {
            Some(AfMetering::Auto)
        } else
        if x == 1 {
            Some(AfMetering::Windows)
        } else {
            None
        }
    }

    fn from_wire(x: i32) -> (r: Option<AfMetering>)
        ensures
            r == Self::spec_from_wire(x),
    {
        if x == 0 {
            Some(AfMetering::Auto)
        } else
        if x == 1 {
            Some(AfMetering::Windows)
        } else {
            None
        }
    }

    fn wire(self) -> (r: i32)
        ensures
            r == self.spec_wire(),
    {
        match self {
            AfMetering::Auto => 0,
            AfMetering::Windows => 1,
        }
    }
}

impl ControlEntry for AfMetering {
    open spec fn spec_id() -> u32 {
        34
    }

    open spec fn spec_accepts(v: ValueView) -> bool {
        v matches ValueView::Int32(s) && s.len() == 1 && Self::spec_from_wire(s[0]) is Some
    }

    open spec fn spec_reject(v: ValueView) -> ErrorView {
        spec_enum_reject(TYPE_INT32, v)
    }

    open spec fn spec_value(self) -> ValueView {
        ValueView::Int32(seq![self.spec_wire()])
    }

    fn entry_id() -> (r: u32) {
        34
    }

    fn try_from_value(value: ControlValue) -> (r: Result<Self, ControlValueError>) {
        let ghost v0 = value@;
        let orig = value.clone();
        match value.try_into_i32() {
            Ok(x) => match Self::from_wire(x) {
                Some(m) => {
                    proof {
                        assert(ValueView::Int32(seq![m.spec_wire()]) =~= v0);
                    }
                    Ok(m)
                },
                None => Err(ControlValueError::UnknownVariant(orig)),
            },
            Err(e) => Err(e),
        }
    }

    fn into_value(self) -> (r: ControlValue) {
        ControlValue::from_i32(self.wire())
    }
}

impl Control for AfMetering {

}

/// Focus windows used when the autofocus metering mode is windows.
#[derive(Debug, Clone)]
pub struct AfWindows(pub Vec<Rectangle>);

impl ControlEntry for AfWindows {
    open spec fn spec_id() -> u32 {
        35
    }

    open spec fn spec_accepts(v: ValueView) -> bool {
        v matches ValueView::Rectangle(_)
    }

    open spec fn spec_reject(v: ValueView) -> ErrorView {
        spec_vec_reject(TYPE_RECTANGLE, v)
    }

    open spec fn spec_value(self) -> ValueView {
        ValueView::Rectangle(self.0@)
    }

    fn entry_id() -> (r: u32) {
        35
    }

    fn try_from_value(value: ControlValue) -> (r: Result<Self, ControlValueError>) {
        match value.try_into_rectangle_vec() {
            Ok(v) => Ok(AfWindows(v)),
            Err(e) => Err(e),
        }
    }

    fn into_value(self) -> (r: ControlValue) {
        ControlValue::from_rectangle_vec(self.0)
    }
}

impl Control for AfWindows {

}

/// Start or cancel an autofocus scan.
#[derive(Debug, Clone, Copy, PartialEq, Eq, Structural)]
pub enum AfTrigger {
    Start,
    Cancel,
}

impl AfTrigger {
    /// The wire value of each variant.
    pub open spec fn spec_wire(self) -> i32 {
        match self {
            AfTrigger::Start => 0,
            AfTrigger::Cancel => 1,
        }
    }

    /// The variant a wire value names, if any.
    pub open spec fn spec_from_wire(x: i32) -> Option<AfTrigger> {
        if x == 0 {
            Some(AfTrigger::Start)
        } else
        if x == 1 {
            Some(AfTrigger::Cancel)
        } else {
            None
        }
    }

    fn from_wire(x: i32) -> (r: Option<AfTrigger>)
        ensures
            r == Self::spec_from_wire(x),
    {
        if x == 0 {
            Some(AfTrigger::Start)
        } else
        if x == 1 {
            Some(AfTrigger::Cancel)
        } else {
            None
        }
    }

    fn wire(self) -> (r: i32)
        ensures
            r == self.spec_wire(),
    {
        match self {
            AfTrigger::Start => 0,
            AfTrigger::Cancel => 1,
        }
    }
}

impl ControlEntry for AfTrigger {
    open spec fn spec_id() -> u32 {
        36
    }

    open spec fn spec_accepts(v: ValueView) -> bool {
        v matches ValueView::Int32(s) && s.len() == 1 && Self::spec_from_wire(s[0]) is Some
    }

    open spec fn spec_reject(v: ValueView) -> ErrorView {
        spec_enum_reject(TYPE_INT32, v)
    }

    open spec fn spec_value(self) -> ValueView {
        ValueView::Int32(seq![self.spec_wire()])
    }

    fn entry_id() -> (r: u32) {
        36
    }

    fn try_from_value(value: ControlValue) -> (r: Result<Self, ControlValueError>) {
        let ghost v0 = value@;
        let orig = value.clone();
        match value.try_into_i32() {
            Ok(x) => match Self::from_wire(x) {
                Some(m) => {
                    proof {
                        assert(ValueView::Int32(seq![m.spec_wire()]) =~= v0);
                    }
                    Ok(m)
                },
                None => Err(ControlValueError::UnknownVariant(orig)),
            },
            Err(e) => Err(e),
        }
    }

    fn into_value(self) -> (r: ControlValue) {
        ControlValue::from_i32(self.wire())
    }
}

impl Control for AfTrigger {

}

/// Pause or resume a continuous autofocus scan.
#[derive(Debug, Clone, Copy, PartialEq, Eq, Structural)]
pub enum AfPause {
    Immediate,
    Deferred,
    Resume,
}

impl AfPause {
    /// The wire value of each variant.
    pub open spec fn spec_wire(self) -> i32 {
        match self {
            AfPause::Immediate => 0,
            AfPause::Deferred => 1,
            AfPause::Resume => 2,
        }
    }

    /// The variant a wire value names, if any.
    pub open spec fn spec_from_wire(x: i32) -> Option<AfPause> {
        if x == 0 {
            Some(AfPause::Immediate)
        } else
        if x == 1 {
            Some(AfPause::Deferred)
        } else
        if x == 2 {
            Some(AfPause::Resume)
        } else {
            None
        }
    }

    fn from_wire(x: i32) -> (r: Option<AfPause>)
        ensures
            r == Self::spec_from_wire(x),
    {
        if x == 0 {
            Some(AfPause::Immediate)
        } else
        if x == 1 {
            Some(AfPause::Deferred)
        } else
        if x == 2 {
            Some(AfPause::Resume)
        } else {
            None
        }
    }

    fn wire(self) -> (r: i32)
        ensures
            r == self.spec_wire(),
    {
        match self {
            AfPause::Immediate => 0,
            AfPause::Deferred => 1,
            AfPause::Resume => 2,
        }
    }
}

impl ControlEntry for AfPause {
    open spec fn spec_id() -> u32 {
        37
    }

    open spec fn spec_accepts(v: ValueView) -> bool {
        v matches ValueView::Int32(s) && s.len() == 1 && Self::spec_from_wire(s[0]) is Some
    }

    open spec fn spec_reject(v: ValueView) -> ErrorView {
        spec_enum_reject(TYPE_INT32, v)
    }

    open spec fn spec_value(self) -> ValueView {
        ValueView::Int32(seq![self.spec_wire()])
    }

    fn entry_id() -> (r: u32) {
        37
    }

    fn try_from_value(value: ControlValue) -> (r: Result<Self, ControlValueError>) {
        let ghost v0 = value@;
        let orig = value.clone();
        match value.try_into_i32() {
            Ok(x) => match Self::from_wire(x) {
                Some(m) => {
                    proof {
                        assert(ValueView::Int32(seq![m.spec_wire()]) =~= v0);
                    }
                    Ok(m)
                },
                None => Err(ControlValueError::UnknownVariant(orig)),
            },
            Err(e) => Err(e),
        }
    }

    fn into_value(self) -> (r: ControlValue) {
        ControlValue::from_i32(self.wire())
    }
}

impl Control for AfPause {

}

/// State of the autofocus algorithm.
#[derive(Debug, Clone, Copy, PartialEq, Eq, Structural)]
pub enum AfState {
    Idle,
    Scanning,
    Focused,
    Failed,
}

impl AfState {
    /// The wire value of each variant.
    pub open spec fn spec_wire(self) -> i32 {
        match self {
            AfState::Idle => 0,
            AfState::Scanning => 1,
            AfState::Focused => 2,
            AfState::Failed => 3,
        }
    }

    /// The variant a wire value names, if any.
    pub open spec fn spec_from_wire(x: i32) -> Option<AfState> {
        if x == 0 {
            Some(AfState::Idle)
        } else
        if x == 1 {
            Some(AfState::Scanning)
        } else
        if x == 2 {
            Some(AfState::Focused)
        } else
        if x == 3 {
            Some(AfState::Failed)
        } else {
            None
        }
    }

    fn from_wire(x: i32) -> (r: Option<AfState>)
        ensures
            r == Self::spec_from_wire(x),
    {
        if x == 0 {
            Some(AfState::Idle)
        } else
        if x == 1 {
            Some(AfState::Scanning)
        } else
        if x == 2 {
            Some(AfState::Focused)
        } else
        if x == 3 {
            Some(AfState::Failed)
        } else {
            None
        }
    }

    fn wire(self) -> (r: i32)
        ensures
            r == self.spec_wire(),
    {
        match self {
            AfState::Idle => 0,
            AfState::Scanning => 1,
            AfState::Focused => 2,
            AfState::Failed => 3,
        }
    }
}

impl ControlEntry for AfState {
    open spec fn spec_id() -> u32 {
        39
    }

    open spec fn spec_accepts(v: ValueView) -> bool {
        v matches ValueView::Int32(s) && s.len() == 1 && Self::spec_from_wire(s[0]) is Some
    }

    open spec fn spec_reject(v: ValueView) -> ErrorView {
        spec_enum_reject(TYPE_INT32, v)
    }

    open spec fn spec_value(self) -> ValueView {
        ValueView::Int32(seq![self.spec_wire()])
    }

    fn entry_id() -> (r: u32) {
        39
    }

    fn try_from_value(value: ControlValue) -> (r: Result<Self, ControlValueError>) {
        let ghost v0 = value@;
        let orig = value.clone();
        match value.try_into_i32() {
            Ok(x) => match Self::from_wire(x) {
                Some(m) => {
                    proof {
                        assert(ValueView::Int32(seq![m.spec_wire()]) =~= v0);
                    }
                    Ok(m)
                },
                None => Err(ControlValueError::UnknownVariant(orig)),
            },
            Err(e) => Err(e),
        }
    }

    fn into_value(self) -> (r: ControlValue) {
        ControlValue::from_i32(self.wire())
    }
}

impl Control for AfState {

}

/// Pause state of a continuous autofocus scan.
#[derive(Debug, Clone, Copy, PartialEq, Eq, Structural)]
pub enum AfPauseState {
    Running,
    Pausing,
    Paused,
}

impl AfPauseState {
    /// The wire value of each variant.
    pub open spec fn spec_wire(self) -> i32 {
        match self {
            AfPauseState::Running => 0,
            AfPauseState::Pausing => 1,
            AfPauseState::Paused => 2,
        }
    }

    /// The variant a wire value names, if any.
    pub open spec fn spec_from_wire(x: i32) -> Option<AfPauseState> {
        if x == 0 {
            Some(AfPauseState::Running)
        } else
        if x == 1 {
            Some(AfPauseState::Pausing)
        } else
        if x == 2 {
            Some(AfPauseState::Paused)
        } else {
            None
        }
    }

    fn from_wire(x: i32) -> (r: Option<AfPauseState>)
        ensures
            r == Self::spec_from_wire(x),
    {
        if x == 0 {
            Some(AfPauseState::Running)
        } else
        if x == 1 {
            Some(AfPauseState::Pausing)
        } else
        if x == 2 {
            Some(AfPauseState::Paused)
        } else {
            None
        }
    }

    fn wire(self) -> (r: i32)
        ensures
            r == self.spec_wire(),
    {
        match self {
            AfPauseState::Running => 0,
            AfPauseState::Pausing => 1,
            AfPauseState::Paused => 2,
        }
    }
}

impl ControlEntry for AfPauseState {
    open spec fn spec_id() -> u32 {
        40
    }

    open spec fn spec_accepts(v: ValueView) -> bool {
        v matches ValueView::Int32(s) && s.len() == 1 && Self::spec_from_wire(s[0]) is Some
    }

    open spec fn spec_reject(v: ValueView) -> ErrorView {
        spec_enum_reject(TYPE_INT32, v)
    }

    open spec fn spec_value(self) -> ValueView {
        ValueView::Int32(seq![self.spec_wire()])
    }

    fn entry_id() -> (r: u32) {
        40
    }

    fn try_from_value(value: ControlValue) -> (r: Result<Self, ControlValueError>) {
        let ghost v0 = value@;
        let orig = value.clone();
        match value.try_into_i32() {
            Ok(x) => match Self::from_wire(x) {
                Some(m) => {
                    proof {
                        assert(ValueView::Int32(seq![m.spec_wire()]) =~= v0);
                    }
                    Ok(m)
                },
                None => Err(ControlValueError::UnknownVariant(orig)),
            },
            Err(e) => Err(e),
        }
    }

    fn into_value(self) -> (r: ControlValue) {
        ControlValue::from_i32(self.wire())
    }
}

impl Control for AfPauseState {

}

/// High dynamic range mode.
#[derive(Debug, Clone, Copy, PartialEq, Eq, Structural)]
pub enum HdrMode {
    Off,
    MultiExposureUnmerged,
    MultiExposure,
    SingleExposure,
    Night,
}

impl HdrMode {
    /// The wire value of each variant.
    pub open spec fn spec_wire(self) -> i32 {
        match self {
            HdrMode::Off => 0,
            HdrMode::MultiExposureUnmerged => 1,
            HdrMode::MultiExposure => 2,
            HdrMode::SingleExposure => 3,
            HdrMode::Night => 4,
        }
    }

    /// The variant a wire value names, if any.
    pub open spec fn spec_from_wire(x: i32) -> Option<HdrMode> {
        if x == 0 {
            Some(HdrMode::Off)
        } else
        if x == 1 {
            Some(HdrMode::MultiExposureUnmerged)
        } else
        if x == 2 {
            Some(HdrMode::MultiExposure)
        } else
        if x == 3 {
            Some(HdrMode::SingleExposure)
        } else
        if x == 4 {
            Some(HdrMode::Night)
        } else {
            None
        }
    }

    fn from_wire(x: i32) -> (r: Option<HdrMode>)
        ensures
            r == Self::spec_from_wire(x),
    {
        if x == 0 {
            Some(HdrMode::Off)
        } else
        if x == 1 {
            Some(HdrMode::MultiExposureUnmerged)
        } else
        if x == 2 {
            Some(HdrMode::MultiExposure)
        } else
        if x == 3 {
            Some(HdrMode::SingleExposure)
        } else
        if x == 4 {
            Some(HdrMode::Night)
        } else {
            None
        }
    }

    fn wire(self) -> (r: i32)
        ensures
            r == self.spec_wire(),
    {
        match self {
            HdrMode::Off => 0,
            HdrMode::MultiExposureUnmerged => 1,
            HdrMode::MultiExposure => 2,
            HdrMode::SingleExposure => 3,
            HdrMode::Night => 4,
        }
    }
}

impl ControlEntry for HdrMode {
    open spec fn spec_id() -> u32 {
        41
    }

    open spec fn spec_accepts(v: ValueView) -> bool {
        v matches ValueView::Int32(s) && s.len() == 1 && Self::spec_from_wire(s[0]) is Some
    }

    open spec fn spec_reject(v: ValueView) -> ErrorView {
        spec_enum_reject(TYPE_INT32, v)
    }

    open spec fn spec_value(self) -> ValueView {
        ValueView::Int32(seq![self.spec_wire()])
    }

    fn entry_id() -> (r: u32) {
        41
    }

    fn try_from_value(value: ControlValue) -> (r: Result<Self, ControlValueError>) {
        let ghost v0 = value@;
        let orig = value.clone();
        match value.try_into_i32() {
            Ok(x) => match Self::from_wire(x) {
                Some(m) => {
                    proof {
                        assert(ValueView::Int32(seq![m.spec_wire()]) =~= v0);
                    }
                    Ok(m)
                },
                None => Err(ControlValueError::UnknownVariant(orig)),
            },
            Err(e) => Err(e),
        }
    }

    fn into_value(self) -> (r: ControlValue) {
        ControlValue::from_i32(self.wire())
    }
}

impl Control for HdrMode {

}

/// High dynamic range channel the frame belongs to.
#[derive(Debug, Clone, Copy, PartialEq, Eq, Structural)]
pub enum HdrChannel {
    ChannelNone,
    Short,
    Medium,
    Long,
}

impl HdrChannel {
    /// The wire value of each variant.
    pub open spec fn spec_wire(self) -> i32 {
        match self {
            HdrChannel::ChannelNone => 0,
            HdrChannel::Short => 1,
            HdrChannel::Medium => 2,
            HdrChannel::Long => 3,
        }
    }

    /// The variant a wire value names, if any.
    pub open spec fn spec_from_wire(x: i32) -> Option<HdrChannel> {
        if x == 0 {
            Some(HdrChannel::ChannelNone)
        } else
        if x == 1 {
            Some(HdrChannel::Short)
        } else
        if x == 2 {
            Some(HdrChannel::Medium)
        } else
        if x == 3 {
            Some(HdrChannel::Long)
        } else {
            None
        }
    }

    fn from_wire(x: i32) -> (r: Option<HdrChannel>)
        ensures
            r == Self::spec_from_wire(x),
    {
        if x == 0 {
            Some(HdrChannel::ChannelNone)
        } else
        if x == 1 {
            Some(HdrChannel::Short)
        } else
        if x == 2 {
            Some(HdrChannel::Medium)
        } else
        if x == 3 {
            Some(HdrChannel::Long)
        } else {
            None
        }
    }

    fn wire(self) -> (r: i32)
        ensures
            r == self.spec_wire(),
    {
        match self {
            HdrChannel::ChannelNone => 0,
            HdrChannel::Short => 1,
            HdrChannel::Medium => 2,
            HdrChannel::Long => 3,
        }
    }
}

impl ControlEntry for HdrChannel {
    open spec fn spec_id() -> u32 {
        42
    }

    open spec fn spec_accepts(v: ValueView) -> bool {
        v matches ValueView::Int32(s) && s.len() == 1 && Self::spec_from_wire(s[0]) is Some
    }

    open spec fn spec_reject(v: ValueView) -> ErrorView {
        spec_enum_reject(TYPE_INT32, v)
    }

    open spec fn spec_value(self) -> ValueView {
        ValueView::Int32(seq![self.spec_wire()])
    }

    fn entry_id() -> (r: u32) {
        42
    }

    fn try_from_value(value: ControlValue) -> (r: Result<Self, ControlValueError>) {
        let ghost v0 = value@;
        let orig = value.clone();
        match value.try_into_i32() {
            Ok(x) => match Self::from_wire(x) {
                Some(m) => {
                    proof {
                        assert(ValueView::Int32(seq![m.spec_wire()]) =~= v0);
                    }
                    Ok(m)
                },
                None => Err(ControlValueError::UnknownVariant(orig)),
            },
            Err(e) => Err(e),
        }
    }

    fn into_value(self) -> (r: ControlValue) {
        ControlValue::from_i32(self.wire())
    }
}

impl Control for HdrChannel {

}

/// Enable or disable debug metadata.
#[derive(Debug, Clone)]
pub struct DebugMetadataEnable(pub bool);

impl ControlEntry for DebugMetadataEnable {
    open spec fn spec_id() -> u32 {
        44
    }

    open spec fn spec_accepts(v: ValueView) -> bool {
        v matches ValueView::Bool(s) && s.len() == 1
    }

    open spec fn spec_reject(v: ValueView) -> ErrorView {
        spec_scalar_reject(TYPE_BOOL, v)
    }

    open spec fn spec_value(self) -> ValueView {
        ValueView::Bool(seq![self.0])
    }

    fn entry_id() -> (r: u32) {
        44
    }

    fn try_from_value(value: ControlValue) -> (r: Result<Self, ControlValueError>) {
        let ghost v0 = value@;
        match value.try_into_bool() {
            Ok(x) => {
                proof {
                    assert(ValueView::Bool(seq![x]) =~= v0);
                }
                Ok(DebugMetadataEnable(x))
            },
            Err(e) => Err(e),
        }
    }

    fn into_value(self) -> (r: ControlValue) {
        ControlValue::from_bool(self.0)
    }
}

impl Control for DebugMetadataEnable {

}

/// Precapture trigger of the automatic exposure algorithm.
#[derive(Debug, Clone, Copy, PartialEq, Eq, Structural)]
pub enum AePrecaptureTrigger {
    Idle,
    Start,
    Cancel,
}

impl AePrecaptureTrigger {
    /// The wire value of each variant.
    pub open spec fn spec_wire(self) -> i32 {
        match self {
            AePrecaptureTrigger::Idle => 0,
            AePrecaptureTrigger::Start => 1,
            AePrecaptureTrigger::Cancel => 2,
        }
    }

    /// The variant a wire value names, if any.
    pub open spec fn spec_from_wire(x: i32) -> Option<AePrecaptureTrigger> {
        if x == 0 {
            Some(AePrecaptureTrigger::Idle)
        } else
        if x == 1 {
            Some(AePrecaptureTrigger::Start)
        } else
        if x == 2 {
            Some(AePrecaptureTrigger::Cancel)
        } else {
            None
        }
    }

    fn from_wire(x: i32) -> (r: Option<AePrecaptureTrigger>)
        ensures
            r == Self::spec_from_wire(x),
    {
        if x == 0 {
            Some(AePrecaptureTrigger::Idle)
        } else
        if x == 1 {
            Some(AePrecaptureTrigger::Start)
        } else
        if x == 2 {
            Some(AePrecaptureTrigger::Cancel)
        } else {
            None
        }
    }

    fn wire(self) -> (r: i32)
        ensures
            r == self.spec_wire(),
    {
        match self {
            AePrecaptureTrigger::Idle => 0,
            AePrecaptureTrigger::Start => 1,
            AePrecaptureTrigger::Cancel => 2,
        }
    }
}

impl ControlEntry for AePrecaptureTrigger {
    open spec fn spec_id() -> u32 {
        45
    }

    open spec fn spec_accepts(v: ValueView) -> bool {
        v matches ValueView::Int32(s) && s.len() == 1 && Self::spec_from_wire(s[0]) is Some
    }

    open spec fn spec_reject(v: ValueView) -> ErrorView {
        spec_enum_reject(TYPE_INT32, v)
    }

    open spec fn spec_value(self) -> ValueView {
        ValueView::Int32(seq![self.spec_wire()])
    }

    fn entry_id() -> (r: u32) {
        45
    }

    fn try_from_value(value: ControlValue) -> (r: Result<Self, ControlValueError>) {
        let ghost v0 = value@;
        let orig = value.clone();
        match value.try_into_i32() {
            Ok(x) => match Self::from_wire(x) {
                Some(m) => {
                    proof {
                        assert(ValueView::Int32(seq![m.spec_wire()]) =~= v0);
                    }
                    Ok(m)
                },
                None => Err(ControlValueError::UnknownVariant(orig)),
            },
            Err(e) => Err(e),
        }
    }

    fn into_value(self) -> (r: ControlValue) {
        ControlValue::from_i32(self.wire())
    }
}

impl Control for AePrecaptureTrigger {

}

/// Noise reduction mode.
#[derive(Debug, Clone, Copy, PartialEq, Eq, Structural)]
pub enum NoiseReductionMode {
    Off,
    Fast,
    HighQuality,
    Minimal,
    ZSL,
}

impl NoiseReductionMode {
    /// The wire value of each variant.
    pub open spec fn spec_wire(self) -> i32 {
        match self {
            NoiseReductionMode::Off => 0,
            NoiseReductionMode::Fast => 1,
            NoiseReductionMode::HighQuality => 2,
            NoiseReductionMode::Minimal => 3,
            NoiseReductionMode::ZSL => 4,
        }
    }

    /// The variant a wire value names, if any.
    pub open spec fn spec_from_wire(x: i32) -> Option<NoiseReductionMode> {
        if x == 0 {
            Some(NoiseReductionMode::Off)
        } else
        if x == 1 {
            Some(NoiseReductionMode::Fast)
        } else
        if x == 2 {
            Some(NoiseReductionMode::HighQuality)
        } else
        if x == 3 {
            Some(NoiseReductionMode::Minimal)
        } else
        if x == 4 {
            Some(NoiseReductionMode::ZSL)
        } else {
            None
        }
    }

    fn from_wire(x: i32) -> (r: Option<NoiseReductionMode>)
        ensures
            r == Self::spec_from_wire(x),
    {
        if x == 0 {
            Some(NoiseReductionMode::Off)
        } else
        if x == 1 {
            Some(NoiseReductionMode::Fast)
        } else
        if x == 2 {
            Some(NoiseReductionMode::HighQuality)
        } else
        if x == 3 {
            Some(NoiseReductionMode::Minimal)
        } else
        if x == 4 {
            Some(NoiseReductionMode::ZSL)
        } else {
            None
        }
    }

    fn wire(self) -> (r: i32)
        ensures
            r == self.spec_wire(),
    {
        match self {
            NoiseReductionMode::Off => 0,
            NoiseReductionMode::Fast => 1,
            NoiseReductionMode::HighQuality => 2,
            NoiseReductionMode::Minimal => 3,
            NoiseReductionMode::ZSL => 4,
        }
    }
}

impl ControlEntry for NoiseReductionMode {
    open spec fn spec_id() -> u32 {
        46
    }

    open spec fn spec_accepts(v: ValueView) -> bool {
        v matches ValueView::Int32(s) && s.len() == 1 && Self::spec_from_wire(s[0]) is Some
    }

    open spec fn spec_reject(v: ValueView) -> ErrorView {
        spec_enum_reject(TYPE_INT32, v)
    }

    open spec fn spec_value(self) -> ValueView {
        ValueView::Int32(seq![self.spec_wire()])
    }

    fn entry_id() -> (r: u32) {
        46
    }

    fn try_from_value(value: ControlValue) -> (r: Result<Self, ControlValueError>) {
        let ghost v0 = value@;
        let orig = value.clone();
        match value.try_into_i32() {
            Ok(x) => match Self::from_wire(x) {
                Some(m) => {
                    proof {
                        assert(ValueView::Int32(seq![m.spec_wire()]) =~= v0);
                    }
                    Ok(m)
                },
                None => Err(ControlValueError::UnknownVariant(orig)),
            },
            Err(e) => Err(e),
        }
    }

    fn into_value(self) -> (r: ControlValue) {
        ControlValue::from_i32(self.wire())
    }
}

impl Control for NoiseReductionMode {

}

/// Colour correction aberration mode.
#[derive(Debug, Clone, Copy, PartialEq, Eq, Structural)]
pub enum ColorCorrectionAberrationMode {
    ColorCorrectionAberrationOff,
    ColorCorrectionAberrationFast,
    ColorCorrectionAberrationHighQuality,
}

impl ColorCorrectionAberrationMode {
    /// The wire value of each variant.
    pub open spec fn spec_wire(self) -> i32 {
        match self {
            ColorCorrectionAberrationMode::ColorCorrectionAberrationOff => 0,
            ColorCorrectionAberrationMode::ColorCorrectionAberrationFast => 1,
            ColorCorrectionAberrationMode::ColorCorrectionAberrationHighQuality => 2,
        }
    }

    /// The variant a wire value names, if any.
    pub open spec fn spec_from_wire(x: i32) -> Option<ColorCorrectionAberrationMode> {
        if x == 0 {
            Some(ColorCorrectionAberrationMode::ColorCorrectionAberrationOff)
        } else
        if x == 1 {
            Some(ColorCorrectionAberrationMode::ColorCorrectionAberrationFast)
        } else
        if x == 2 {
            Some(ColorCorrectionAberrationMode::ColorCorrectionAberrationHighQuality)
        } else {
            None
        }
    }

    fn from_wire(x: i32) -> (r: Option<ColorCorrectionAberrationMode>)
        ensures
            r == Self::spec_from_wire(x),
    {
        if x == 0 {
            Some(ColorCorrectionAberrationMode::ColorCorrectionAberrationOff)
        } else
        if x == 1 {
            Some(ColorCorrectionAberrationMode::ColorCorrectionAberrationFast)
        } else
        if x == 2 {
            Some(ColorCorrectionAberrationMode::ColorCorrectionAberrationHighQuality)
        } else {
            None
        }
    }

    fn wire(self) -> (r: i32)
        ensures
            r == self.spec_wire(),
    {
        match self {
            ColorCorrectionAberrationMode::ColorCorrectionAberrationOff => 0,
            ColorCorrectionAberrationMode::ColorCorrectionAberrationFast => 1,
            ColorCorrectionAberrationMode::ColorCorrectionAberrationHighQuality => 2,
        }
    }
}

impl ControlEntry for ColorCorrectionAberrationMode {
    open spec fn spec_id() -> u32 {
        47
    }

    open spec fn spec_accepts(v: ValueView) -> bool {
        v matches ValueView::Int32(s) && s.len() == 1 && Self::spec_from_wire(s[0]) is Some
    }

    open spec fn spec_reject(v: ValueView) -> ErrorView {
        spec_enum_reject(TYPE_INT32, v)
    }

    open spec fn spec_value(self) -> ValueView {
        ValueView::Int32(seq![self.spec_wire()])
    }

    fn entry_id() -> (r: u32) {
        47
    }

    fn try_from_value(value: ControlValue) -> (r: Result<Self, ControlValueError>) {
        let ghost v0 = value@;
        let orig = value.clone();
        match value.try_into_i32() {
            Ok(x) => match Self::from_wire(x) {
                Some(m) => {
                    proof {
                        assert(ValueView::Int32(seq![m.spec_wire()]) =~= v0);
                    }
                    Ok(m)
                },
                None => Err(ControlValueError::UnknownVariant(orig)),
            },
            Err(e) => Err(e),
        }
    }

    fn into_value(self) -> (r: ControlValue) {
        ControlValue::from_i32(self.wire())
    }
}

impl Control for ColorCorrectionAberrationMode {

}

/// State of the automatic exposure algorithm.
#[derive(Debug, Clone, Copy, PartialEq, Eq, Structural)]
pub enum AeState {
    Inactive,
    Searching,
    Converged,
    Locked,
    FlashRequired,
    Precapture,
}

impl AeState {
    /// The wire value of each variant.
    pub open spec fn spec_wire(self) -> i32 {
        match self {
            AeState::Inactive => 0,
            AeState::Searching => 1,
            AeState::Converged => 2,
            AeState::Locked => 3,
            AeState::FlashRequired => 4,
            AeState::Precapture => 5,
        }
    }

    /// The variant a wire value names, if any.
    pub open spec fn spec_from_wire(x: i32) -> Option<AeState> {
        if x == 0 {
            Some(AeState::Inactive)
        } else
        if x == 1 {
            Some(AeState::Searching)
        } else
        if x == 2 {
            Some(AeState::Converged)
        } else
        if x == 3 {
            Some(AeState::Locked)
        } else
        if x == 4 {
            Some(AeState::FlashRequired)
        } else
        if x == 5 {
            Some(AeState::Precapture)
        } else {
            None
        }
    }

    fn from_wire(x: i32) -> (r: Option<AeState>)
        ensures
            r == Self::spec_from_wire(x),
    {
        if x == 0 {
            Some(AeState::Inactive)
        } else
        if x == 1 {
            Some(AeState::Searching)
        } else
        if x == 2 {
            Some(AeState::Converged)
        } else
        if x == 3 {
            Some(AeState::Locked)
        } else
        if x == 4 {
            Some(AeState::FlashRequired)
        } else
        if x == 5 {
            Some(AeState::Precapture)
        } else {
            None
        }
    }

    fn wire(self) -> (r: i32)
        ensures
            r == self.spec_wire(),
    {
        match self {
            AeState::Inactive => 0,
            AeState::Searching => 1,
            AeState::Converged => 2,
            AeState::Locked => 3,
            AeState::FlashRequired => 4,
            AeState::Precapture => 5,
        }
    }
}

impl ControlEntry for AeState {
    open spec fn spec_id() -> u32 {
        48
    }

    open spec fn spec_accepts(v: ValueView) -> bool {
        v matches ValueView::Int32(s) && s.len() == 1 && Self::spec_from_wire(s[0]) is Some
    }

    open spec fn spec_reject(v: ValueView) -> ErrorView {
        spec_enum_reject(TYPE_INT32, v)
    }

    open spec fn spec_value(self) -> ValueView {
        ValueView::Int32(seq![self.spec_wire()])
    }

    fn entry_id() -> (r: u32) {
        48
    }

    fn try_from_value(value: ControlValue) -> (r: Result<Self, ControlValueError>) {
        let ghost v0 = value@;
        let orig = value.clone();
        match value.try_into_i32() {
            Ok(x) => match Self::from_wire(x) {
                Some(m) => {
                    proof {
                        assert(ValueView::Int32(seq![m.spec_wire()]) =~= v0);
                    }
                    Ok(m)
                },
                None => Err(ControlValueError::UnknownVariant(orig)),
            },
            Err(e) => Err(e),
        }
    }

    fn into_value(self) -> (r: ControlValue) {
        ControlValue::from_i32(self.wire())
    }
}

impl Control for AeState {

}

/// State of the automatic white balance algorithm.
#[derive(Debug, Clone, Copy, PartialEq, Eq, Structural)]
pub enum AwbState {
    Inactive,
    Searching,
    AwbConverged,
    AwbLocked,
}

impl AwbState {
    /// The wire value of each variant.
    pub open spec fn spec_wire(self) -> i32 {
        match self {
            AwbState::Inactive => 0,
            AwbState::Searching => 1,
            AwbState::AwbConverged => 2,
            AwbState::AwbLocked => 3,
        }
    }

    /// The variant a wire value names, if any.
    pub open spec fn spec_from_wire(x: i32) -> Option<AwbState> {
        if x == 0 {
            Some(AwbState::Inactive)
        } else
        if x == 1 {
            Some(AwbState::Searching)
        } else
        if x == 2 {
            Some(AwbState::AwbConverged)
        } else
        if x == 3 {
            Some(AwbState::AwbLocked)
        } else {
            None
        }
    }

    fn from_wire(x: i32) -> (r: Option<AwbState>)
        ensures
            r == Self::spec_from_wire(x),
    {
        if x == 0 {
            Some(AwbState::Inactive)
        } else
        if x == 1 {
            Some(AwbState::Searching)
        } else
        if x == 2 {
            Some(AwbState::AwbConverged)
        } else
        if x == 3 {
            Some(AwbState::AwbLocked)
        } else {
            None
        }
    }

    fn wire(self) -> (r: i32)
        ensures
            r == self.spec_wire(),
    {
        match self {
            AwbState::Inactive => 0,
            AwbState::Searching => 1,
            AwbState::AwbConverged => 2,
            AwbState::AwbLocked => 3,
        }
    }
}

impl ControlEntry for AwbState {
    open spec fn spec_id() -> u32 {
        49
    }

    open spec fn spec_accepts(v: ValueView) -> bool {
        v matches ValueView::Int32(s) && s.len() == 1 && Self::spec_from_wire(s[0]) is Some
    }

    open spec fn spec_reject(v: ValueView) -> ErrorView {
        spec_enum_reject(TYPE_INT32, v)
    }

    open spec fn spec_value(self) -> ValueView {
        ValueView::Int32(seq![self.spec_wire()])
    }

    fn entry_id() -> (r: u32) {
        49
    }

    fn try_from_value(value: ControlValue) -> (r: Result<Self, ControlValueError>) {
        let ghost v0 = value@;
        let orig = value.clone();
        match value.try_into_i32() {
            Ok(x) => match Self::from_wire(x) {
                Some(m) => {
                    proof {
                        assert(ValueView::Int32(seq![m.spec_wire()]) =~= v0);
                    }
                    Ok(m)
                },
                None => Err(ControlValueError::UnknownVariant(orig)),
            },
            Err(e) => Err(e),
        }
    }

    fn into_value(self) -> (r: ControlValue) {
        ControlValue::from_i32(self.wire())
    }
}

impl Control for AwbState {

}

/// Time between the start of the first and last row exposure, in nanoseconds.
#[derive(Debug, Clone)]
pub struct SensorRollingShutterSkew(pub i64);

impl ControlEntry for SensorRollingShutterSkew {
    open spec fn spec_id() -> u32 {
        50
    }

    open spec fn spec_accepts(v: ValueView) -> bool {
        v matches ValueView::Int64(s) && s.len() == 1
    }

    open spec fn spec_reject(v: ValueView) -> ErrorView {
        spec_scalar_reject(TYPE_INT64, v)
    }

    open spec fn spec_value(self) -> ValueView {
        ValueView::Int64(seq![self.0])
    }

    fn entry_id() -> (r: u32) {
        50
    }

    fn try_from_value(value: ControlValue) -> (r: Result<Self, ControlValueError>) {
        let ghost v0 = value@;
        match value.try_into_i64() {
            Ok(x) => {
                proof {
                    assert(ValueView::Int64(seq![x]) =~= v0);
                }
                Ok(SensorRollingShutterSkew(x))
            },
            Err(e) => Err(e),
        }
    }

    fn into_value(self) -> (r: ControlValue) {
        ControlValue::from_i64(self.0)
    }
}

impl Control for SensorRollingShutterSkew {

}

/// Lens shading map mode.
#[derive(Debug, Clone, Copy, PartialEq, Eq, Structural)]
pub enum LensShadingMapMode {
    Off,
    On,
}

impl LensShadingMapMode {
    /// The wire value of each variant.
    pub open spec fn spec_wire(self) -> i32 {
        match self {
            LensShadingMapMode::Off => 0,
            LensShadingMapMode::On => 1,
        }
    }

    /// The variant a wire value names, if any.
    pub open spec fn spec_from_wire(x: i32) -> Option<LensShadingMapMode> {
        if x == 0 {
            Some(LensShadingMapMode::Off)
        } else
        if x == 1 {
            Some(LensShadingMapMode::On)
        } else {
            None
        }
    }

    fn from_wire(x: i32) -> (r: Option<LensShadingMapMode>)
        ensures
            r == Self::spec_from_wire(x),
    {
        if x == 0 {
            Some(LensShadingMapMode::Off)
        } else
        if x == 1 {
            Some(LensShadingMapMode::On)
        } else {
            None
        }
    }

    fn wire(self) -> (r: i32)
        ensures
            r == self.spec_wire(),
    {
        match self {
            LensShadingMapMode::Off => 0,
            LensShadingMapMode::On => 1,
        }
    }
}

impl ControlEntry for LensShadingMapMode {
    open spec fn spec_id() -> u32 {
        51
    }

    open spec fn spec_accepts(v: ValueView) -> bool {
        v matches ValueView::Int32(s) && s.len() == 1 && Self::spec_from_wire(s[0]) is Some
    }

    open spec fn spec_reject(v: ValueView) -> ErrorView {
        spec_enum_reject(TYPE_INT32, v)
    }

    open spec fn spec_value(self) -> ValueView {
        ValueView::Int32(seq![self.spec_wire()])
    }

    fn entry_id() -> (r: u32) {
        51
    }

    fn try_from_value(value: ControlValue) -> (r: Result<Self, ControlValueError>) {
        let ghost v0 = value@;
        let orig = value.clone();
        match value.try_into_i32() {
            Ok(x) => match Self::from_wire(x) {
                Some(m) => {
                    proof {
                        assert(ValueView::Int32(seq![m.spec_wire()]) =~= v0);
                    }
                    Ok(m)
                },
                None => Err(ControlValueError::UnknownVariant(orig)),
            },
            Err(e) => Err(e),
        }
    }

    fn into_value(self) -> (r: ControlValue) {
        ControlValue::from_i32(self.wire())
    }
}

impl Control for LensShadingMapMode {

}

/// Number of pipeline stages the frame went through.
#[derive(Debug, Clone)]
pub struct PipelineDepth(pub i32);

impl ControlEntry for PipelineDepth {
    open spec fn spec_id() -> u32 {
        52
    }

    open spec fn spec_accepts(v: ValueView) -> bool {
        v matches ValueView::Int32(s) && s.len() == 1
    }

    open spec fn spec_reject(v: ValueView) -> ErrorView {
        spec_scalar_reject(TYPE_INT32, v)
    }

    open spec fn spec_value(self) -> ValueView {
        ValueView::Int32(seq![self.0])
    }

    fn entry_id() -> (r: u32) {
        52
    }

    fn try_from_value(value: ControlValue) -> (r: Result<Self, ControlValueError>) {
        let ghost v0 = value@;
        match value.try_into_i32() {
            Ok(x) => {
                proof {
                    assert(ValueView::Int32(seq![x]) =~= v0);
                }
                Ok(PipelineDepth(x))
            },
            Err(e) => Err(e),
        }
    }

    fn into_value(self) -> (r: ControlValue) {
        ControlValue::from_i32(self.0)
    }
}

impl Control for PipelineDepth {

}

/// Maximum number of frames before a submitted control takes effect.
#[derive(Debug, Clone)]
pub struct MaxLatency(pub i32);

impl ControlEntry for MaxLatency {
    open spec fn spec_id() -> u32 {
        53
    }

    open spec fn spec_accepts(v: ValueView) -> bool {
        v matches ValueView::Int32(s) && s.len() == 1
    }

    open spec fn spec_reject(v: ValueView) -> ErrorView {
        spec_scalar_reject(TYPE_INT32, v)
    }

    open spec fn spec_value(self) -> ValueView {
        ValueView::Int32(seq![self.0])
    }

    fn entry_id() -> (r: u32) {
        53
    }

    fn try_from_value(value: ControlValue) -> (r: Result<Self, ControlValueError>) {
        let ghost v0 = value@;
        match value.try_into_i32() {
            Ok(x) => {
                proof {
                    assert(ValueView::Int32(seq![x]) =~= v0);
                }
                Ok(MaxLatency(x))
            },
            Err(e) => Err(e),
        }
    }

    fn into_value(self) -> (r: ControlValue) {
        ControlValue::from_i32(self.0)
    }
}

impl Control for MaxLatency {

}

/// Sensor test pattern mode.
#[derive(Debug, Clone, Copy, PartialEq, Eq, Structural)]
pub enum TestPatternMode {
    Off,
    SolidColor,
    ColorBars,
    ColorBarsFadeToGray,
    Pn9,
    Custom1,
}

impl TestPatternMode {
    /// The wire value of each variant.
    pub open spec fn spec_wire(self) -> i32 {
        match self {
            TestPatternMode::Off => 0,
            TestPatternMode::SolidColor => 1,
            TestPatternMode::ColorBars => 2,
            TestPatternMode::ColorBarsFadeToGray => 3,
            TestPatternMode::Pn9 => 4,
            TestPatternMode::Custom1 => 256,
        }
    }

    /// The variant a wire value names, if any.
    pub open spec fn spec_from_wire(x: i32) -> Option<TestPatternMode> {
        if x == 0 {
            Some(TestPatternMode::Off)
        } else
        if x == 1 {
            Some(TestPatternMode::SolidColor)
        } else
        if x == 2 {
            Some(TestPatternMode::ColorBars)
        } else
        if x == 3 {
            Some(TestPatternMode::ColorBarsFadeToGray)
        } else
        if x == 4 {
            Some(TestPatternMode::Pn9)
        } else
        if x == 256 {
            Some(TestPatternMode::Custom1)
        } else {
            None
        }
    }

    fn from_wire(x: i32) -> (r: Option<TestPatternMode>)
        ensures
            r == Self::spec_from_wire(x),
    {
        if x == 0 {
            Some(TestPatternMode::Off)
        } else
        if x == 1 {
            Some(TestPatternMode::SolidColor)
        } else
        if x == 2 {
            Some(TestPatternMode::ColorBars)
        } else
        if x == 3 {
            Some(TestPatternMode::ColorBarsFadeToGray)
        } else
        if x == 4 {
            Some(TestPatternMode::Pn9)
        } else
        if x == 256 {
            Some(TestPatternMode::Custom1)
        } else {
            None
        }
    }

    fn wire(self) -> (r: i32)
        ensures
            r == self.spec_wire(),
    {
        match self {
            TestPatternMode::Off => 0,
            TestPatternMode::SolidColor => 1,
            TestPatternMode::ColorBars => 2,
            TestPatternMode::ColorBarsFadeToGray => 3,
            TestPatternMode::Pn9 => 4,
            TestPatternMode::Custom1 => 256,
        }
    }
}

impl ControlEntry for TestPatternMode {
    open spec fn spec_id() -> u32 {
        54
    }

    open spec fn spec_accepts(v: ValueView) -> bool {
        v matches ValueView::Int32(s) && s.len() == 1 && Self::spec_from_wire(s[0]) is Some
    }

    open spec fn spec_reject(v: ValueView) -> ErrorView {
        spec_enum_reject(TYPE_INT32, v)
    }

    open spec fn spec_value(self) -> ValueView {
        ValueView::Int32(seq![self.spec_wire()])
    }

    fn entry_id() -> (r: u32) {
        54
    }

    fn try_from_value(value: ControlValue) -> (r: Result<Self, ControlValueError>) {
        let ghost v0 = value@;
        let orig = value.clone();
        match value.try_into_i32() {
            Ok(x) => match Self::from_wire(x) {
                Some(m) => {
                    proof {
                        assert(ValueView::Int32(seq![m.spec_wire()]) =~= v0);
                    }
                    Ok(m)
                },
                None => Err(ControlValueError::UnknownVariant(orig)),
            },
            Err(e) => Err(e),
        }
    }

    fn into_value(self) -> (r: ControlValue) {
        ControlValue::from_i32(self.wire())
    }
}

impl Control for TestPatternMode {

}

/// Face detection mode.
#[derive(Debug, Clone, Copy, PartialEq, Eq, Structural)]
pub enum FaceDetectMode {
    Off,
    Simple,
    Full,
}

impl FaceDetectMode {
    /// The wire value of each variant.
    pub open spec fn spec_wire(self) -> i32 {
        match self {
            FaceDetectMode::Off => 0,
            FaceDetectMode::Simple => 1,
            FaceDetectMode::Full => 2,
        }
    }

    /// The variant a wire value names, if any.
    pub open spec fn spec_from_wire(x: i32) -> Option<FaceDetectMode> {
        if x == 0 {
            Some(FaceDetectMode::Off)
        } else
        if x == 1 {
            Some(FaceDetectMode::Simple)
        } else
        if x == 2 {
            Some(FaceDetectMode::Full)
        } else {
            None
        }
    }

    fn from_wire(x: i32) -> (r: Option<FaceDetectMode>)
        ensures
            r == Self::spec_from_wire(x),
    {
        if x == 0 {
            Some(FaceDetectMode::Off)
        } else
        if x == 1 {
            Some(FaceDetectMode::Simple)
        } else
        if x == 2 {
            Some(FaceDetectMode::Full)
        } else {
            None
        }
    }

    fn wire(self) -> (r: i32)
        ensures
            r == self.spec_wire(),
    {
        match self {
            FaceDetectMode::Off => 0,
            FaceDetectMode::Simple => 1,
            FaceDetectMode::Full => 2,
        }
    }
}

impl ControlEntry for FaceDetectMode {
    open spec fn spec_id() -> u32 {
        55
    }

    open spec fn spec_accepts(v: ValueView) -> bool {
        v matches ValueView::Int32(s) && s.len() == 1 && Self::spec_from_wire(s[0]) is Some
    }

    open spec fn spec_reject(v: ValueView) -> ErrorView {
        spec_enum_reject(TYPE_INT32, v)
    }

    open spec fn spec_value(self) -> ValueView {
        ValueView::Int32(seq![self.spec_wire()])
    }

    fn entry_id() -> (r: u32) {
        55
    }

    fn try_from_value(value: ControlValue) -> (r: Result<Self, ControlValueError>) {
        let ghost v0 = value@;
        let orig = value.clone();
        match value.try_into_i32() {
            Ok(x) => match Self::from_wire(x) {
                Some(m) => {
                    proof {
                        assert(ValueView::Int32(seq![m.spec_wire()]) =~= v0);
                    }
                    Ok(m)
                },
                None => Err(ControlValueError::UnknownVariant(orig)),
            },
            Err(e) => Err(e),
        }
    }

    fn into_value(self) -> (r: ControlValue) {
        ControlValue::from_i32(self.wire())
    }
}

impl Control for FaceDetectMode {

}

/// Bounding rectangles of detected faces.
#[derive(Debug, Clone)]
pub struct FaceDetectFaceRectangles(pub Vec<Rectangle>);

impl ControlEntry for FaceDetectFaceRectangles {
    open spec fn spec_id() -> u32 {
        56
    }

    open spec fn spec_accepts(v: ValueView) -> bool {
        v matches ValueView::Rectangle(_)
    }

    open spec fn spec_reject(v: ValueView) -> ErrorView {
        spec_vec_reject(TYPE_RECTANGLE, v)
    }

    open spec fn spec_value(self) -> ValueView {
        ValueView::Rectangle(self.0@)
    }

    fn entry_id() -> (r: u32) {
        56
    }

    fn try_from_value(value: ControlValue) -> (r: Result<Self, ControlValueError>) {
        match value.try_into_rectangle_vec() {
            Ok(v) => Ok(FaceDetectFaceRectangles(v)),
            Err(e) => Err(e),
        }
    }

    fn into_value(self) -> (r: ControlValue) {
        ControlValue::from_rectangle_vec(self.0)
    }
}

impl Control for FaceDetectFaceRectangles {

}

/// Confidence score of each detected face.
#[derive(Debug, Clone)]
pub struct FaceDetectFaceScores(pub Vec<u8>);

impl ControlEntry for FaceDetectFaceScores {
    open spec fn spec_id() -> u32 {
        57
    }

    open spec fn spec_accepts(v: ValueView) -> bool {
        v matches ValueView::Byte(_)
    }

    open spec fn spec_reject(v: ValueView) -> ErrorView {
        spec_vec_reject(TYPE_BYTE, v)
    }

    open spec fn spec_value(self) -> ValueView {
        ValueView::Byte(self.0@)
    }

    fn entry_id() -> (r: u32) {
        57
    }

    fn try_from_value(value: ControlValue) -> (r: Result<Self, ControlValueError>) {
        match value.try_into_byte_vec() {
            Ok(v) => Ok(FaceDetectFaceScores(v)),
            Err(e) => Err(e),
        }
    }

    fn into_value(self) -> (r: ControlValue) {
        ControlValue::from_byte_vec(self.0)
    }
}

impl Control for FaceDetectFaceScores {

}

/// Landmark positions of detected faces.
#[derive(Debug, Clone)]
pub struct FaceDetectFaceLandmarks(pub Vec<Point>);

impl ControlEntry for FaceDetectFaceLandmarks {
    open spec fn spec_id() -> u32 {
        58
    }

    open spec fn spec_accepts(v: ValueView) -> bool {
        v matches ValueView::Point(_)
    }

    open spec fn spec_reject(v: ValueView) -> ErrorView {
        spec_vec_reject(TYPE_POINT, v)
    }

    open spec fn spec_value(self) -> ValueView {
        ValueView::Point(self.0@)
    }

    fn entry_id() -> (r: u32) {
        58
    }

    fn try_from_value(value: ControlValue) -> (r: Result<Self, ControlValueError>) {
        match value.try_into_point_vec() {
            Ok(v) => Ok(FaceDetectFaceLandmarks(v)),
            Err(e) => Err(e),
        }
    }

    fn into_value(self) -> (r: ControlValue) {
        ControlValue::from_point_vec(self.0)
    }
}

impl Control for FaceDetectFaceLandmarks {

}

/// Stable identifier of each detected face.
#[derive(Debug, Clone)]
pub struct FaceDetectFaceIds(pub Vec<i32>);

impl ControlEntry for FaceDetectFaceIds {
    open spec fn spec_id() -> u32 {
        59
    }

    open spec fn spec_accepts(v: ValueView) -> bool {
        v matches ValueView::Int32(_)
    }

    open spec fn spec_reject(v: ValueView) -> ErrorView {
        spec_vec_reject(TYPE_INT32, v)
    }

    open spec fn spec_value(self) -> ValueView {
        ValueView::Int32(self.0@)
    }

    fn entry_id() -> (r: u32) {
        59
    }

    fn try_from_value(value: ControlValue) -> (r: Result<Self, ControlValueError>) {
        match value.try_into_i32_vec() {
            Ok(v) => Ok(FaceDetectFaceIds(v)),
            Err(e) => Err(e),
        }
    }

    fn into_value(self) -> (r: ControlValue) {
        ControlValue::from_i32_vec(self.0)
    }
}

impl Control for FaceDetectFaceIds {

}

/// Enable or disable the sensor statistics output.
#[derive(Debug, Clone)]
pub struct StatsOutputEnable(pub bool);

impl ControlEntry for StatsOutputEnable {
    open spec fn spec_id() -> u32 {
        60
    }

    open spec fn spec_accepts(v: ValueView) -> bool {
        v matches ValueView::Bool(s) && s.len() == 1
    }

    open spec fn spec_reject(v: ValueView) -> ErrorView {
        spec_scalar_reject(TYPE_BOOL, v)
    }

    open spec fn spec_value(self) -> ValueView {
        ValueView::Bool(seq![self.0])
    }

    fn entry_id() -> (r: u32) {
        60
    }

    fn try_from_value(value: ControlValue) -> (r: Result<Self, ControlValueError>) {
        let ghost v0 = value@;
        match value.try_into_bool() {
            Ok(x) => {
                proof {
                    assert(ValueView::Bool(seq![x]) =~= v0);
                }
                Ok(StatsOutputEnable(x))
            },
            Err(e) => Err(e),
        }
    }

    fn into_value(self) -> (r: ControlValue) {
        ControlValue::from_bool(self.0)
    }
}

impl Control for StatsOutputEnable {

}

/// Raw statistics block of the imaging pipeline.
#[derive(Debug, Clone)]
pub struct Bcm2835StatsOutput(pub Vec<u8>);

impl ControlEntry for Bcm2835StatsOutput {
    open spec fn spec_id() -> u32 {
        61
    }

    open spec fn spec_accepts(v: ValueView) -> bool {
        v matches ValueView::Byte(_)
    }

    open spec fn spec_reject(v: ValueView) -> ErrorView {
        spec_vec_reject(TYPE_BYTE, v)
    }

    open spec fn spec_value(self) -> ValueView {
        ValueView::Byte(self.0@)
    }

    fn entry_id() -> (r: u32) {
        61
    }

    fn try_from_value(value: ControlValue) -> (r: Result<Self, ControlValueError>) {
        match value.try_into_byte_vec() {
            Ok(v) => Ok(Bcm2835StatsOutput(v)),
            Err(e) => Err(e),
        }
    }

    fn into_value(self) -> (r: ControlValue) {
        ControlValue::from_byte_vec(self.0)
    }
}

impl Control for Bcm2835StatsOutput {

}

/// Per-stream regions of the sensor used for the output images.
#[derive(Debug, Clone)]
pub struct ScalerCrops(pub Vec<Rectangle>);

impl ControlEntry for ScalerCrops {
    open spec fn spec_id() -> u32 {
        62
    }

    open spec fn spec_accepts(v: ValueView) -> bool {
        v matches ValueView::Rectangle(_)
    }

    open spec fn spec_reject(v: ValueView) -> ErrorView {
        spec_vec_reject(TYPE_RECTANGLE, v)
    }

    open spec fn spec_value(self) -> ValueView {
        ValueView::Rectangle(self.0@)
    }

    fn entry_id() -> (r: u32) {
        62
    }

    fn try_from_value(value: ControlValue) -> (r: Result<Self, ControlValueError>) {
        match value.try_into_rectangle_vec() {
            Ok(v) => Ok(ScalerCrops(v)),
            Err(e) => Err(e),
        }
    }

    fn into_value(self) -> (r: ControlValue) {
        ControlValue::from_rectangle_vec(self.0)
    }
}

impl Control for ScalerCrops {

}

/// Whether the control named by `id` accepts the value `v`.
pub open spec fn spec_dyn_accepts(id: ControlId, v: ValueView) -> bool {
    match id {
        ControlId::AeEnable => <AeEnable as ControlEntry>::spec_accepts(v),
        ControlId::AeLocked => <AeLocked as ControlEntry>::spec_accepts(v),
        ControlId::AeMeteringMode => <AeMeteringMode as ControlEntry>::spec_accepts(v),
        ControlId::AeConstraintMode => <AeConstraintMode as ControlEntry>::spec_accepts(v),
        ControlId::AeExposureMode => <AeExposureMode as ControlEntry>::spec_accepts(v),
        ControlId::ExposureTime => <ExposureTime as ControlEntry>::spec_accepts(v),
        ControlId::AeFlickerMode => <AeFlickerMode as ControlEntry>::spec_accepts(v),
        ControlId::AeFlickerPeriod => <AeFlickerPeriod as ControlEntry>::spec_accepts(v),
        ControlId::AeFlickerDetected => <AeFlickerDetected as ControlEntry>::spec_accepts(v),
        ControlId::AwbEnable => <AwbEnable as ControlEntry>::spec_accepts(v),
        ControlId::AwbMode => <AwbMode as ControlEntry>::spec_accepts(v),
        ControlId::AwbLocked => <AwbLocked as ControlEntry>::spec_accepts(v),
        ControlId::ColourTemperature => <ColourTemperature as ControlEntry>::spec_accepts(v),
        ControlId::SensorBlackLevels => <SensorBlackLevels as ControlEntry>::spec_accepts(v),
        ControlId::FocusFoM => <FocusFoM as ControlEntry>::spec_accepts(v),
        ControlId::ScalerCrop => <ScalerCrop as ControlEntry>::spec_accepts(v),
        ControlId::FrameDuration => <FrameDuration as ControlEntry>::spec_accepts(v),
        ControlId::FrameDurationLimits => <FrameDurationLimits as ControlEntry>::spec_accepts(v),
        ControlId::SensorTimestamp => <SensorTimestamp as ControlEntry>::spec_accepts(v),
        ControlId::AfMode => <AfMode as ControlEntry>::spec_accepts(v),
        ControlId::AfRange => <AfRange as ControlEntry>::spec_accepts(v),
        ControlId::AfSpeed => <AfSpeed as ControlEntry>::spec_accepts(v),
        ControlId::AfMetering => <AfMetering as ControlEntry>::spec_accepts(v),
        ControlId::AfWindows => <AfWindows as ControlEntry>::spec_accepts(v),
        ControlId::AfTrigger => <AfTrigger as ControlEntry>::spec_accepts(v),
        ControlId::AfPause => <AfPause as ControlEntry>::spec_accepts(v),
        ControlId::AfState => <AfState as ControlEntry>::spec_accepts(v),
        ControlId::AfPauseState => <AfPauseState as ControlEntry>::spec_accepts(v),
        ControlId::HdrMode => <HdrMode as ControlEntry>::spec_accepts(v),
        ControlId::HdrChannel => <HdrChannel as ControlEntry>::spec_accepts(v),
        ControlId::DebugMetadataEnable => <DebugMetadataEnable as ControlEntry>::spec_accepts(v),
        ControlId::AePrecaptureTrigger => <AePrecaptureTrigger as ControlEntry>::spec_accepts(v),
        ControlId::NoiseReductionMode => <NoiseReductionMode as ControlEntry>::spec_accepts(v),
        ControlId::ColorCorrectionAberrationMode => <ColorCorrectionAberrationMode as ControlEntry>::spec_accepts(v),
        ControlId::AeState => <AeState as ControlEntry>::spec_accepts(v),
        ControlId::AwbState => <AwbState as ControlEntry>::spec_accepts(v),
        ControlId::SensorRollingShutterSkew => <SensorRollingShutterSkew as ControlEntry>::spec_accepts(v),
        ControlId::LensShadingMapMode => <LensShadingMapMode as ControlEntry>::spec_accepts(v),
        ControlId::PipelineDepth => <PipelineDepth as ControlEntry>::spec_accepts(v),
        ControlId::MaxLatency => <MaxLatency as ControlEntry>::spec_accepts(v),
        ControlId::TestPatternMode => <TestPatternMode as ControlEntry>::spec_accepts(v),
        ControlId::FaceDetectMode => <FaceDetectMode as ControlEntry>::spec_accepts(v),
        ControlId::FaceDetectFaceRectangles => <FaceDetectFaceRectangles as ControlEntry>::spec_accepts(v),
        ControlId::FaceDetectFaceScores => <FaceDetectFaceScores as ControlEntry>::spec_accepts(v),
        ControlId::FaceDetectFaceLandmarks => <FaceDetectFaceLandmarks as ControlEntry>::spec_accepts(v),
        ControlId::FaceDetectFaceIds => <FaceDetectFaceIds as ControlEntry>::spec_accepts(v),
        ControlId::StatsOutputEnable => <StatsOutputEnable as ControlEntry>::spec_accepts(v),
        ControlId::Bcm2835StatsOutput => <Bcm2835StatsOutput as ControlEntry>::spec_accepts(v),
        ControlId::ScalerCrops => <ScalerCrops as ControlEntry>::spec_accepts(v),
    }
}

/// The error the control named by `id` raises on a value it does not accept.
pub open spec fn spec_dyn_reject(id: ControlId, v: ValueView) -> ErrorView {
    match id {
        ControlId::AeEnable => <AeEnable as ControlEntry>::spec_reject(v),
        ControlId::AeLocked => <AeLocked as ControlEntry>::spec_reject(v),
        ControlId::AeMeteringMode => <AeMeteringMode as ControlEntry>::spec_reject(v),
        ControlId::AeConstraintMode => <AeConstraintMode as ControlEntry>::spec_reject(v),
        ControlId::AeExposureMode => <AeExposureMode as ControlEntry>::spec_reject(v),
        ControlId::ExposureTime => <ExposureTime as ControlEntry>::spec_reject(v),
        ControlId::AeFlickerMode => <AeFlickerMode as ControlEntry>::spec_reject(v),
        ControlId::AeFlickerPeriod => <AeFlickerPeriod as ControlEntry>::spec_reject(v),
        ControlId::AeFlickerDetected => <AeFlickerDetected as ControlEntry>::spec_reject(v),
        ControlId::AwbEnable => <AwbEnable as ControlEntry>::spec_reject(v),
        ControlId::AwbMode => <AwbMode as ControlEntry>::spec_reject(v),
        ControlId::AwbLocked => <AwbLocked as ControlEntry>::spec_reject(v),
        ControlId::ColourTemperature => <ColourTemperature as ControlEntry>::spec_reject(v),
        ControlId::SensorBlackLevels => <SensorBlackLevels as ControlEntry>::spec_reject(v),
        ControlId::FocusFoM => <FocusFoM as ControlEntry>::spec_reject(v),
        ControlId::ScalerCrop => <ScalerCrop as ControlEntry>::spec_reject(v),
        ControlId::FrameDuration => <FrameDuration as ControlEntry>::spec_reject(v),
        ControlId::FrameDurationLimits => <FrameDurationLimits as ControlEntry>::spec_reject(v),
        ControlId::SensorTimestamp => <SensorTimestamp as ControlEntry>::spec_reject(v),
        ControlId::AfMode => <AfMode as ControlEntry>::spec_reject(v),
        ControlId::AfRange => <AfRange as ControlEntry>::spec_reject(v),
        ControlId::AfSpeed => <AfSpeed as ControlEntry>::spec_reject(v),
        ControlId::AfMetering => <AfMetering as ControlEntry>::spec_reject(v),
        ControlId::AfWindows => <AfWindows as ControlEntry>::spec_reject(v),
        ControlId::AfTrigger => <AfTrigger as ControlEntry>::spec_reject(v),
        ControlId::AfPause => <AfPause as ControlEntry>::spec_reject(v),
        ControlId::AfState => <AfState as ControlEntry>::spec_reject(v),
        ControlId::AfPauseState => <AfPauseState as ControlEntry>::spec_reject(v),
        ControlId::HdrMode => <HdrMode as ControlEntry>::spec_reject(v),
        ControlId::HdrChannel => <HdrChannel as ControlEntry>::spec_reject(v),
        ControlId::DebugMetadataEnable => <DebugMetadataEnable as ControlEntry>::spec_reject(v),
        ControlId::AePrecaptureTrigger => <AePrecaptureTrigger as ControlEntry>::spec_reject(v),
        ControlId::NoiseReductionMode => <NoiseReductionMode as ControlEntry>::spec_reject(v),
        ControlId::ColorCorrectionAberrationMode => <ColorCorrectionAberrationMode as ControlEntry>::spec_reject(v),
        ControlId::AeState => <AeState as ControlEntry>::spec_reject(v),
        ControlId::AwbState => <AwbState as ControlEntry>::spec_reject(v),
        ControlId::SensorRollingShutterSkew => <SensorRollingShutterSkew as ControlEntry>::spec_reject(v),
        ControlId::LensShadingMapMode => <LensShadingMapMode as ControlEntry>::spec_reject(v),
        ControlId::PipelineDepth => <PipelineDepth as ControlEntry>::spec_reject(v),
        ControlId::MaxLatency => <MaxLatency as ControlEntry>::spec_reject(v),
        ControlId::TestPatternMode => <TestPatternMode as ControlEntry>::spec_reject(v),
        ControlId::FaceDetectMode => <FaceDetectMode as ControlEntry>::spec_reject(v),
        ControlId::FaceDetectFaceRectangles => <FaceDetectFaceRectangles as ControlEntry>::spec_reject(v),
        ControlId::FaceDetectFaceScores => <FaceDetectFaceScores as ControlEntry>::spec_reject(v),
        ControlId::FaceDetectFaceLandmarks => <FaceDetectFaceLandmarks as ControlEntry>::spec_reject(v),
        ControlId::FaceDetectFaceIds => <FaceDetectFaceIds as ControlEntry>::spec_reject(v),
        ControlId::StatsOutputEnable => <StatsOutputEnable as ControlEntry>::spec_reject(v),
        ControlId::Bcm2835StatsOutput => <Bcm2835StatsOutput as ControlEntry>::spec_reject(v),
        ControlId::ScalerCrops => <ScalerCrops as ControlEntry>::spec_reject(v),
    }
}

/// The dynamic registry of this snapshot: attempt the typed conversion of the
/// control named by `id` and hand back a type-erased handle. On success the
/// handle carries the numeric id and the value unchanged; on failure the
/// control's own conversion error comes back, never a panic.
pub fn make_dyn(id: ControlId, val: ControlValue) -> (r: Result<DynHandle, ControlValueError>)
    ensures
        spec_dyn_accepts(id, val@) ==> (r matches Ok(h) && h.id == id.spec_id_value() && h.value@
            == val@),
        !spec_dyn_accepts(id, val@) ==> (r matches Err(e) && e@ == spec_dyn_reject(id, val@)),
{
    match id {
        ControlId::AeEnable => dyn_entry::<AeEnable>(val),
        ControlId::AeLocked => dyn_entry::<AeLocked>(val),
        ControlId::AeMeteringMode => dyn_entry::<AeMeteringMode>(val),
        ControlId::AeConstraintMode => dyn_entry::<AeConstraintMode>(val),
        ControlId::AeExposureMode => dyn_entry::<AeExposureMode>(val),
        ControlId::ExposureTime => dyn_entry::<ExposureTime>(val),
        ControlId::AeFlickerMode => dyn_entry::<AeFlickerMode>(val),
        ControlId::AeFlickerPeriod => dyn_entry::<AeFlickerPeriod>(val),
        ControlId::AeFlickerDetected => dyn_entry::<AeFlickerDetected>(val),
        ControlId::AwbEnable => dyn_entry::<AwbEnable>(val),
        ControlId::AwbMode => dyn_entry::<AwbMode>(val),
        ControlId::AwbLocked => dyn_entry::<AwbLocked>(val),
        ControlId::ColourTemperature => dyn_entry::<ColourTemperature>(val),
        ControlId::SensorBlackLevels => dyn_entry::<SensorBlackLevels>(val),
        ControlId::FocusFoM => dyn_entry::<FocusFoM>(val),
        ControlId::ScalerCrop => dyn_entry::<ScalerCrop>(val),
        ControlId::FrameDuration => dyn_entry::<FrameDuration>(val),
        ControlId::FrameDurationLimits => dyn_entry::<FrameDurationLimits>(val),
        ControlId::SensorTimestamp => dyn_entry::<SensorTimestamp>(val),
        ControlId::AfMode => dyn_entry::<AfMode>(val),
        ControlId::AfRange => dyn_entry::<AfRange>(val),
        ControlId::AfSpeed => dyn_entry::<AfSpeed>(val),
        ControlId::AfMetering => dyn_entry::<AfMetering>(val),
        ControlId::AfWindows => dyn_entry::<AfWindows>(val),
        ControlId::AfTrigger => dyn_entry::<AfTrigger>(val),
        ControlId::AfPause => dyn_entry::<AfPause>(val),
        ControlId::AfState => dyn_entry::<AfState>(val),
        ControlId::AfPauseState => dyn_entry::<AfPauseState>(val),
        ControlId::HdrMode => dyn_entry::<HdrMode>(val),
        ControlId::HdrChannel => dyn_entry::<HdrChannel>(val),
        ControlId::DebugMetadataEnable => dyn_entry::<DebugMetadataEnable>(val),
        ControlId::AePrecaptureTrigger => dyn_entry::<AePrecaptureTrigger>(val),
        ControlId::NoiseReductionMode => dyn_entry::<NoiseReductionMode>(val),
        ControlId::ColorCorrectionAberrationMode => dyn_entry::<ColorCorrectionAberrationMode>(val),
        ControlId::AeState => dyn_entry::<AeState>(val),
        ControlId::AwbState => dyn_entry::<AwbState>(val),
        ControlId::SensorRollingShutterSkew => dyn_entry::<SensorRollingShutterSkew>(val),
        ControlId::LensShadingMapMode => dyn_entry::<LensShadingMapMode>(val),
        ControlId::PipelineDepth => dyn_entry::<PipelineDepth>(val),
        ControlId::MaxLatency => dyn_entry::<MaxLatency>(val),
        ControlId::TestPatternMode => dyn_entry::<TestPatternMode>(val),
        ControlId::FaceDetectMode => dyn_entry::<FaceDetectMode>(val),
        ControlId::FaceDetectFaceRectangles => dyn_entry::<FaceDetectFaceRectangles>(val),
        ControlId::FaceDetectFaceScores => dyn_entry::<FaceDetectFaceScores>(val),
        ControlId::FaceDetectFaceLandmarks => dyn_entry::<FaceDetectFaceLandmarks>(val),
        ControlId::FaceDetectFaceIds => dyn_entry::<FaceDetectFaceIds>(val),
        ControlId::StatsOutputEnable => dyn_entry::<StatsOutputEnable>(val),
        ControlId::Bcm2835StatsOutput => dyn_entry::<Bcm2835StatsOutput>(val),
        ControlId::ScalerCrops => dyn_entry::<ScalerCrops>(val),
    }
}

/// A compiled id always spells back the number it was read from.
pub proof fn lemma_from_id_inverse(id: u32)
    ensures
        ControlId::spec_from_id(id) matches Some(c) ==> c.spec_id_value() == id,
{
}

/// Whether introspection shows a raw pair as a typed entry: its id names a
/// compiled control and the value converts.
pub open spec fn spec_describes_typed(id: u32, v: ValueView) -> bool {
    ControlId::spec_from_id(id) matches Some(c) && spec_dyn_accepts(c, v)
}

/// Introspect a collection of raw pairs of numeric id and value: each known id
/// whose value converts becomes a typed handle; an unknown id, or a known id
/// whose conversion fails, falls back to the raw pair. One bad entry never
/// aborts the walk of the whole collection.
pub fn describe_entries(items: &Vec<(u32, ControlValue)>) -> (r: Vec<EntryDescription>)
    ensures
        r@.len() == items@.len(),
        forall|i: int|
            0 <= i < items@.len() ==> if spec_describes_typed(
                (#[trigger] items@[i]).0,
                items@[i].1@,
            ) {
                (r@[i] matches EntryDescription::Typed(h) && h.id == items@[i].0 && h.value@
                    == items@[i].1@)
            } else {
                (r@[i] matches EntryDescription::Raw(id, v) && id == items@[i].0 && v@
                    == items@[i].1@)
            },
{
    let n = items.len();
    let mut out: Vec<EntryDescription> = Vec::new();
    let mut i: usize = 0;
    while i < n
        invariant
            n == items@.len(),
            0 <= i <= n,
            out@.len() == i,
            forall|j: int|
                0 <= j < i ==> if spec_describes_typed(
                    (#[trigger] items@[j]).0,
                    items@[j].1@,
                ) {
                    (out@[j] matches EntryDescription::Typed(h) && h.id == items@[j].0 && h.value@
                        == items@[j].1@)
                } else {
                    (out@[j] matches EntryDescription::Raw(id, v) && id == items@[j].0 && v@
                        == items@[j].1@)
                },
        decreases n - i,
    {
        let id = items[i].0;
        let val = items[i].1.clone();
        match ControlId::from_id(id) {
            Some(c) => {
                match make_dyn(c, val) {
                    Ok(h) => {
                        proof {
                            lemma_from_id_inverse(id);
                        }
                        out.push(EntryDescription::Typed(h));
                    },
                    Err(_) => {
                        out.push(EntryDescription::Raw(id, items[i].1.clone()));
                    },
                }
            },
            None => {
                out.push(EntryDescription::Raw(id, val));
            },
        }
        i += 1;
    }
    out
}

} // verus!
