use libcamera_core::control_value::{
    decode, ControlValue, ControlValueError, TYPE_BOOL, TYPE_INT32, TYPE_POINT, TYPE_RECTANGLE,
    TYPE_SIZE, TYPE_STRING,
};
use libcamera_core::geometry::{Point, Rectangle, Size};

fn round_trip(v: ControlValue) -> ControlValue {
    let cell = v.encode();
    decode(cell.tag, cell.num_elements, cell.data.as_slice()).expect("decode of encoded value")
}

#[test]
fn round_trip_bool_scalar() {
    let back = round_trip(ControlValue::from_bool(true));
    assert_eq!(back.try_into_bool().unwrap(), true);
    let back = round_trip(ControlValue::from_bool(false));
    assert_eq!(back.try_into_bool().unwrap(), false);
}

#[test]
fn round_trip_byte_scalar() {
    let back = round_trip(ControlValue::from_byte(0xa7));
    assert_eq!(back.try_into_byte().unwrap(), 0xa7);
}

#[test]
fn round_trip_i32_scalar() {
    for v in [0i32, 1, -1, i32::MAX, i32::MIN, 123456789] {
        let back = round_trip(ControlValue::from_i32(v));
        assert_eq!(back.try_into_i32().unwrap(), v);
    }
}

#[test]
fn round_trip_i64_scalar() {
    for v in [0i64, -1, i64::MAX, i64::MIN, 1 << 40] {
        let back = round_trip(ControlValue::from_i64(v));
        assert_eq!(back.try_into_i64().unwrap(), v);
    }
}

#[test]
fn round_trip_float_bits_scalar() {
    let bits = 1.5f32.to_bits();
    let back = round_trip(ControlValue::from_float_bits(bits));
    assert_eq!(f32::from_bits(back.try_into_float_bits().unwrap()), 1.5f32);
}

#[test]
fn round_trip_string() {
    let back = round_trip(ControlValue::from_string(String::from("imx219 sensor")));
    assert_eq!(back.try_into_string().unwrap(), "imx219 sensor");
}

#[test]
fn round_trip_geometry_scalars() {
    let r = Rectangle { x: -4, y: 7, width: 640, height: 480 };
    let back = round_trip(ControlValue::from_rectangle(r));
    assert_eq!(back.try_into_rectangle().unwrap(), r);

    let s = Size { width: 1920, height: 1080 };
    let back = round_trip(ControlValue::from_size(s));
    assert_eq!(back.try_into_size().unwrap(), s);

    let p = Point { x: -3, y: 11 };
    let back = round_trip(ControlValue::from_point(p));
    assert_eq!(back.try_into_point().unwrap(), p);
}

#[test]
fn round_trip_fixed_arrays_preserve_order() {
    let back = round_trip(ControlValue::from_i32_vec(vec![4, 3, 2, 1]));
    assert_eq!(back.try_into_i32_vec().unwrap(), vec![4, 3, 2, 1]);

    let back = round_trip(ControlValue::from_i64_vec(vec![33333, -1]));
    assert_eq!(back.try_into_i64_vec().unwrap(), vec![33333, -1]);

    let rects = vec![
        Rectangle { x: 0, y: 0, width: 1, height: 1 },
        Rectangle { x: 5, y: 6, width: 7, height: 8 },
    ];
    let back = round_trip(ControlValue::from_rectangle_vec(rects.clone()));
    assert_eq!(back.try_into_rectangle_vec().unwrap(), rects);
}

#[test]
fn round_trip_grid_row_major() {
    let rows = vec![vec![1, 2, 3], vec![4, 5, 6]];
    let v = ControlValue::from_i32_grid(&rows);
    // Row-major flattening: the second row follows the first.
    assert_eq!(v.clone().try_into_i32_vec().unwrap(), vec![1, 2, 3, 4, 5, 6]);
    let back = round_trip(v);
    assert_eq!(back.try_into_i32_grid(2, 3).unwrap(), rows);
}

#[test]
fn grid_wrong_arity_is_invalid_length() {
    let v = ControlValue::from_i32_vec(vec![1, 2, 3, 4, 5]);
    match v.try_into_i32_grid(2, 3) {
        Err(ControlValueError::InvalidLength { expected, found }) => {
            assert_eq!(expected, 6);
            assert_eq!(found, 5);
        }
        other => panic!("unexpected result: {other:?}"),
    }
}

#[test]
fn mismatched_decode_is_invalid_type() {
    // A cell tagged Bool decodes as a boolean value; extracting an Int32 from
    // it reports the type mismatch and never reinterprets the bytes.
    let cell = ControlValue::from_bool(true).encode();
    assert_eq!(cell.tag, TYPE_BOOL);
    let decoded = decode(cell.tag, cell.num_elements, cell.data.as_slice()).unwrap();
    match decoded.try_into_i32() {
        Err(ControlValueError::InvalidType { expected, found }) => {
            assert_eq!(expected, TYPE_INT32);
            assert_eq!(found, TYPE_BOOL);
        }
        other => panic!("unexpected result: {other:?}"),
    }
}

#[test]
fn scalar_extraction_requires_one_element() {
    let v = ControlValue::from_i32_vec(vec![1, 2]);
    match v.try_into_i32() {
        Err(ControlValueError::InvalidLength { expected, found }) => {
            assert_eq!(expected, 1);
            assert_eq!(found, 2);
        }
        other => panic!("unexpected result: {other:?}"),
    }
}

#[test]
fn unknown_tag_is_reported() {
    match decode(77, 0, &[]) {
        Err(ControlValueError::UnknownType(t)) => assert_eq!(t, 77),
        other => panic!("unexpected result: {other:?}"),
    }
}

#[test]
fn invalid_utf8_is_invalid_data() {
    match decode(TYPE_STRING, 2, &[0xff, 0xfe]) {
        Err(ControlValueError::InvalidData) => {}
        other => panic!("unexpected result: {other:?}"),
    }
}

#[test]
fn short_byte_run_is_invalid_length() {
    match decode(TYPE_INT32, 2, &[1, 2, 3, 4, 5]) {
        Err(ControlValueError::InvalidLength { expected, found }) => {
            assert_eq!(expected, 2);
            assert_eq!(found, 1);
        }
        other => panic!("unexpected result: {other:?}"),
    }
}

#[test]
fn encode_flags_and_layout() {
    let cell = ControlValue::from_i32(7).encode();
    assert_eq!(cell.tag, TYPE_INT32);
    assert!(!cell.is_array);
    assert_eq!(cell.num_elements, 1);
    assert_eq!(cell.data, vec![7, 0, 0, 0]);

    let cell = ControlValue::from_i32_vec(vec![7]).encode();
    assert!(!cell.is_array);

    let cell = ControlValue::from_i32_vec(vec![7, 8]).encode();
    assert!(cell.is_array);
    assert_eq!(cell.num_elements, 2);

    // A string cell is always an array, even of one byte.
    let cell = ControlValue::from_string(String::from("x")).encode();
    assert_eq!(cell.tag, TYPE_STRING);
    assert!(cell.is_array);
    assert_eq!(cell.num_elements, 1);

    let cell = ControlValue::from_point(Point { x: 1, y: -1 }).encode();
    assert_eq!(cell.tag, TYPE_POINT);
    assert_eq!(cell.data.len(), 8);

    let cell = ControlValue::from_size(Size { width: 2, height: 3 }).encode();
    assert_eq!(cell.tag, TYPE_SIZE);
    assert_eq!(cell.data, vec![2, 0, 0, 0, 3, 0, 0, 0]);

    let cell = ControlValue::from_rectangle(Rectangle { x: -1, y: 0, width: 1, height: 2 })
        .encode();
    assert_eq!(cell.tag, TYPE_RECTANGLE);
    assert_eq!(cell.data.len(), 16);
    assert_eq!(&cell.data[0..4], &[0xff, 0xff, 0xff, 0xff]);
}

#[test]
fn empty_value_encodes_empty() {
    let cell = ControlValue::Empty.encode();
    assert_eq!(cell.tag, 0);
    assert_eq!(cell.num_elements, 0);
    assert!(cell.data.is_empty());
    assert!(cell.is_array);
    let back = decode(cell.tag, cell.num_elements, cell.data.as_slice()).unwrap();
    assert!(matches!(back, ControlValue::Empty));
}
