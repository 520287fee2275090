use libcamera_core::codegen::{
    format_docstring, generate_controls, generate_controls_file, map_dimensionality, to_rust_type,
    DimensionalitySpec, GenError,
};
use libcamera_core::ident::to_c_type_name;
use libcamera_core::meta::{Control, ControlEnumValue, ControlSize, ControlType, ControlsType};

#[test]
fn identifier_transform_examples() {
    assert_eq!(to_c_type_name("AeEnable"), "ae_enable");
    assert_eq!(to_c_type_name("AwbMode"), "awb_mode");
    assert_eq!(to_c_type_name("FocusFoM"), "focus_fo_m");
    assert_eq!(to_c_type_name("ColourFX"), "colour_fx");
}

#[test]
fn identifier_transform_splits_after_digits() {
    // A digit-to-letter boundary always splits.
    assert_eq!(to_c_type_name("Bcm2835StatsOutput"), "bcm2835_stats_output");
    assert_eq!(to_c_type_name("Mode3A"), "mode3_a");
}

#[test]
fn type_mapper_rendering() {
    assert_eq!(to_rust_type(ControlType::Bool, &None).unwrap(), "bool");
    assert_eq!(to_rust_type(ControlType::String, &None).unwrap(), "String");
    assert_eq!(
        to_rust_type(ControlType::Int32, &Some(vec![ControlSize::Fixed(4)])).unwrap(),
        "[i32; 4]"
    );
    assert_eq!(
        to_rust_type(
            ControlType::Float,
            &Some(vec![ControlSize::Fixed(3), ControlSize::Fixed(3)])
        )
        .unwrap(),
        "[[f32; 3]; 3]"
    );
    assert_eq!(
        to_rust_type(ControlType::Rectangle, &Some(vec![ControlSize::Dynamic])).unwrap(),
        "Vec<Rectangle>"
    );
}

#[test]
fn dimensionality_violations_abort() {
    assert_eq!(
        to_rust_type(ControlType::Byte, &Some(vec![])).unwrap_err(),
        GenError::ZeroDimensions
    );
    assert_eq!(
        to_rust_type(
            ControlType::Byte,
            &Some(vec![ControlSize::Dynamic, ControlSize::Fixed(2)])
        )
        .unwrap_err(),
        GenError::DynamicMultiDimension
    );
    assert_eq!(
        to_rust_type(
            ControlType::Byte,
            &Some(vec![ControlSize::Fixed(2), ControlSize::Dynamic])
        )
        .unwrap_err(),
        GenError::DynamicMultiDimension
    );
    assert_eq!(
        to_rust_type(ControlType::Byte, &Some(vec![ControlSize::Fixed(0)])).unwrap_err(),
        GenError::ZeroExtent
    );
    assert!(matches!(
        map_dimensionality(&Some(vec![ControlSize::Dynamic])),
        Ok(DimensionalitySpec::Dynamic)
    ));
    assert!(matches!(map_dimensionality(&None), Ok(DimensionalitySpec::Scalar)));
}

#[test]
fn docstring_formatting() {
    let out = format_docstring("One line.", 4);
    assert_eq!(out, "    /// One line.\n");

    let out = format_docstring("Lead.\n  literal block\nTail.", 0);
    assert_eq!(
        out,
        "/// Lead.\n/// ```text\n///   literal block\n/// ```\n/// Tail.\n"
    );
}

fn sample_controls() -> Vec<Control> {
    vec![
        Control {
            name: String::from("AeEnable"),
            vendor: String::from("libcamera"),
            typ: ControlType::Bool,
            description: String::from("Enable the AE algorithm."),
            size: None,
            enumeration: None,
        },
        Control {
            name: String::from("AwbMode"),
            vendor: String::from("libcamera"),
            typ: ControlType::Int32,
            description: String::from("White balance mode."),
            size: None,
            enumeration: Some(vec![
                ControlEnumValue {
                    name: String::from("AwbModeAuto"),
                    value: 0,
                    description: String::from("Search over the whole range."),
                },
                ControlEnumValue {
                    name: String::from("AwbModeIncandescent"),
                    value: 1,
                    description: String::from("Incandescent lighting."),
                },
            ]),
        },
        Control {
            name: String::from("ScalerCrops"),
            vendor: String::from("rpi"),
            typ: ControlType::Rectangle,
            description: String::from("Per-stream crop regions."),
            size: Some(vec![ControlSize::Dynamic]),
            enumeration: None,
        },
    ]
}

#[test]
fn generator_emits_catalogue_and_dispatcher() {
    let out = generate_controls(&sample_controls(), ControlsType::Control).unwrap();
    assert!(out.contains("pub enum ControlId {"));
    assert!(out.contains("AeEnable = AE_ENABLE,"));
    assert!(out.contains("AwbMode = AWB_MODE,"));
    assert!(out.contains("pub struct AeEnable(pub bool);"));
    // The owning control's name prefix is stripped from each variant.
    assert!(out.contains("Auto = 0,"));
    assert!(out.contains("Incandescent = 1,"));
    assert!(out.contains("pub fn make_dyn(id: ControlId"));
    assert!(out.contains("ControlId::AeEnable => Ok(Box::new(AeEnable::try_from(val)?)),"));
    assert!(out.contains("impl ControlEntry for AwbMode"));
    assert!(out.contains("impl Control for AeEnable"));
}

#[test]
fn generator_gates_vendors_consistently() {
    let out = generate_controls(&sample_controls(), ControlsType::Control).unwrap();
    let gate = "#[cfg(feature=\"vendor_rpi\")]";
    // One gate on the catalogue entry, five on the wrapper block's items, two
    // on the entry impls, one on the dispatcher arm: the vendor control is
    // gated everywhere it appears, and nothing else is.
    assert_eq!(out.matches(gate).count(), 9);
    assert!(!out.contains("vendor_libcamera"));
    // The gated pieces name only the vendor control.
    for piece in out.split(gate).skip(1) {
        assert!(piece.contains("ScalerCrops"));
    }
}

#[test]
fn generator_aborts_on_bad_dimensionality() {
    let mut controls = sample_controls();
    controls.push(Control {
        name: String::from("Broken"),
        vendor: String::from("libcamera"),
        typ: ControlType::Byte,
        description: String::from("A declaration with zero dimensions."),
        size: Some(vec![]),
        enumeration: None,
    });
    assert_eq!(
        generate_controls(&controls, ControlsType::Control).unwrap_err(),
        GenError::ZeroDimensions
    );
}

#[test]
fn generated_file_is_formatted_source() {
    let out = generate_controls_file(&sample_controls(), ControlsType::Control).unwrap();
    // The formatter really ran: the emitted text is normalized, not the raw
    // assembly handed to it.
    let raw = generate_controls(&sample_controls(), ControlsType::Control).unwrap();
    assert!(!out.ends_with(&raw));
    // The assembled artifact parses as a source file and comes back formatted.
    assert!(out.starts_with("use std::ops::{Deref, DerefMut};\n"));
    assert!(out.contains("pub enum ControlId {"));
    assert!(out.contains("pub fn make_dyn("));

    let props = generate_controls_file(&sample_controls(), ControlsType::Property).unwrap();
    assert!(props.contains("pub enum PropertyId {"));
    assert!(props.contains("impl Property for AeEnable"));
}
