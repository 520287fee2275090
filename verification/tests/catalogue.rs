use libcamera_core::control::{ControlEntry, DynHandle, EntryDescription};
use libcamera_core::control_value::{ControlValue, ControlValueError};
use libcamera_core::controls::{make_dyn, AeEnable, AfMode, AwbMode, ControlId, SensorBlackLevels};
use libcamera_core::controls::describe_entries;
use libcamera_core::geometry::{Rectangle, Size};
use libcamera_core::properties;
use libcamera_core::properties::{Location, Model, PropertyId, ScalerCropMaximum};

#[test]
fn typed_conversion_round_trips() {
    let c = AeEnable::try_from_value(ControlValue::from_bool(true)).unwrap();
    assert_eq!(c.0, true);
    assert_eq!(c.into_value().try_into_bool().unwrap(), true);

    let m = AwbMode::try_from_value(ControlValue::from_i32(5)).unwrap();
    assert!(matches!(m, AwbMode::AwbDaylight));
    assert_eq!(m.into_value().try_into_i32().unwrap(), 5);

    let b = SensorBlackLevels::try_from_value(ControlValue::from_i32_vec(vec![1, 2, 3, 4]))
        .unwrap();
    assert_eq!(b.0, [1, 2, 3, 4]);
}

#[test]
fn enum_out_of_range_keeps_value() {
    // AfMode knows the variants 0..=2; decoding the underlying value 3 reports
    // the unknown variant and keeps the whole original value for diagnosis.
    let r = AfMode::try_from_value(ControlValue::from_i32(3));
    match r {
        Err(ControlValueError::UnknownVariant(v)) => {
            assert_eq!(v.try_into_i32().unwrap(), 3);
        }
        other => panic!("unexpected result: {other:?}"),
    }
}

#[test]
fn enum_wrong_tag_is_invalid_type() {
    let r = AwbMode::try_from_value(ControlValue::from_bool(true));
    assert!(matches!(r, Err(ControlValueError::InvalidType { .. })));
}

#[test]
fn catalogue_ids_are_stable() {
    assert_eq!(ControlId::AeEnable.id(), 1);
    assert_eq!(ControlId::AwbMode.id(), 16);
    assert_eq!(ControlId::ScalerCrops.id(), 62);
    assert_eq!(PropertyId::Location.id(), 1);
    assert_eq!(PropertyId::ColorFilterArrangement.id(), 11);
    assert_eq!(AeEnable::entry_id(), 1);
    assert_eq!(Location::entry_id(), 1);

    assert!(matches!(ControlId::from_id(16), Some(ControlId::AwbMode)));
    // Ids of entries compiled out of this snapshot are merely unrecognized.
    assert!(ControlId::from_id(6).is_none());
    assert!(ControlId::from_id(9999).is_none());
    assert!(matches!(PropertyId::from_id(8), Some(PropertyId::ScalerCropMaximum)));
    assert!(PropertyId::from_id(9).is_none());
}

#[test]
fn make_dyn_round_trips_value() {
    let h: DynHandle = make_dyn(ControlId::AwbMode, ControlValue::from_i32(2)).unwrap();
    assert_eq!(h.id(), 16);
    assert_eq!(h.value().try_into_i32().unwrap(), 2);

    let h = properties::make_dyn(PropertyId::Model, ControlValue::from_string(String::from(
        "imx290",
    )))
    .unwrap();
    assert_eq!(h.id(), 3);
    assert_eq!(h.value().try_into_string().unwrap(), "imx290");
}

#[test]
fn make_dyn_rejects_without_panicking() {
    // A known id with a value that fails the typed conversion is an error, not
    // a panic: out-of-range enum value ...
    let r = make_dyn(ControlId::AfMode, ControlValue::from_i32(3));
    assert!(matches!(r, Err(ControlValueError::UnknownVariant(_))));
    // ... and mismatched tag likewise.
    let r = make_dyn(ControlId::AeEnable, ControlValue::from_i32(1));
    assert!(matches!(r, Err(ControlValueError::InvalidType { .. })));
}

#[test]
fn introspection_falls_back_to_raw() {
    let items: Vec<(u32, ControlValue)> = vec![
        (1, ControlValue::from_bool(true)),       // AeEnable: converts
        (31, ControlValue::from_i32(3)),          // AfMode: unknown variant
        (9999, ControlValue::from_i32(7)),        // unknown id
        (16, ControlValue::from_i32(6)),          // AwbMode: converts
    ];
    let described = describe_entries(&items);
    assert_eq!(described.len(), 4);
    match &described[0] {
        EntryDescription::Typed(h) => {
            assert_eq!(h.id(), 1);
            assert_eq!(h.value().try_into_bool().unwrap(), true);
        }
        other => panic!("unexpected: {other:?}"),
    }
    match &described[1] {
        EntryDescription::Raw(id, v) => {
            assert_eq!(*id, 31);
            assert_eq!(v.clone().try_into_i32().unwrap(), 3);
        }
        other => panic!("unexpected: {other:?}"),
    }
    assert!(matches!(&described[2], EntryDescription::Raw(9999, _)));
    match &described[3] {
        EntryDescription::Typed(h) => assert_eq!(h.id(), 16),
        other => panic!("unexpected: {other:?}"),
    }
}

#[test]
fn property_conversions() {
    let l = Location::try_from_value(ControlValue::from_i32(1)).unwrap();
    assert!(matches!(l, Location::CameraBack));

    let r = Location::try_from_value(ControlValue::from_i32(3));
    assert!(matches!(r, Err(ControlValueError::UnknownVariant(_))));

    let c = ScalerCropMaximum::try_from_value(ControlValue::from_rectangle(Rectangle {
        x: 0,
        y: 0,
        width: 4056,
        height: 3040,
    }))
    .unwrap();
    assert_eq!(c.0.width, 4056);

    let m = Model::try_from_value(ControlValue::from_string(String::from("ov5647"))).unwrap();
    assert_eq!(m.0, "ov5647");

    let u = properties::UnitCellSize::try_from_value(ControlValue::from_size(Size {
        width: 1120,
        height: 1120,
    }))
    .unwrap();
    assert_eq!(u.0, Size { width: 1120, height: 1120 });
}
