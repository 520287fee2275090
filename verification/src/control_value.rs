//! The runtime tagged value: the wire-level representation of one control or
//! property value, with its encode/decode logic and the typed extraction used
//! by generated per-control types.
//!
//! A native cell holds a type tag, an element count and a run of raw bytes.
//! Decoding copies those bytes into a self-contained [`ControlValue`]; it never
//! retains a borrow of the cell and never reinterprets bytes under a mismatched
//! tag. Encoding lays a value back out as tag, is-array flag, element count and
//! bytes. Tag numbers follow the runtime's declaration order of the element
//! kinds; element bytes are little-endian.

use vstd::bytes::{
    lemma_auto_spec_u32_to_from_le_bytes, lemma_auto_spec_u64_to_from_le_bytes,
    spec_u32_from_le_bytes, spec_u32_to_le_bytes, spec_u64_from_le_bytes, spec_u64_to_le_bytes,
    u32_from_le_bytes, u32_to_le_bytes, u64_from_le_bytes, u64_to_le_bytes,
};
use vstd::prelude::*;
use vstd::slice::{slice_index_get, slice_subrange, slice_to_vec};
use vstd::utf8::{decode_utf8, encode_utf8, encode_utf8_decode_utf8, encode_utf8_valid_utf8, valid_utf8};

use crate::geometry::{Point, Rectangle, Size};

verus! {

/// Native tag of an empty value.
pub const TYPE_NONE: u32 = 0;

/// Native tag of a boolean cell.
pub const TYPE_BOOL: u32 = 1;

/// Native tag of a byte cell.
pub const TYPE_BYTE: u32 = 2;

/// Native tag of a 32-bit signed integer cell.
pub const TYPE_INT32: u32 = 3;

/// Native tag of a 64-bit signed integer cell.
pub const TYPE_INT64: u32 = 4;

/// Native tag of a 32-bit floating point cell. The library carries such
/// elements as their IEEE-754 bit patterns and never interprets them
/// arithmetically.
pub const TYPE_FLOAT: u32 = 5;

/// Native tag of a UTF-8 string cell.
pub const TYPE_STRING: u32 = 6;

/// Native tag of a rectangle cell.
pub const TYPE_RECTANGLE: u32 = 7;

/// Native tag of a size cell.
pub const TYPE_SIZE: u32 = 8;

/// Native tag of a point cell.
pub const TYPE_POINT: u32 = 9;

/// A value of a control or a property: a tagged union over the element kinds
/// the runtime knows, each non-`String` variant holding an ordered sequence of
/// elements (one element in the common scalar case).
///
/// `Float` elements are IEEE-754 single-precision bit patterns; the library
/// moves them but never computes with them.
#[derive(Debug)]
pub enum ControlValue {
    Empty,
    Bool(Vec<bool>),
    Byte(Vec<u8>),
    Int32(Vec<i32>),
    Int64(Vec<i64>),
    Float(Vec<u32>),
    String(String),
    Rectangle(Vec<Rectangle>),
    Size(Vec<Size>),
    Point(Vec<Point>),
}

/// The mathematical value of a [`ControlValue`]: the same union over sequences.
#[verifier::ext_equal]
pub enum ValueView {
    Empty,
    Bool(Seq<bool>),
    Byte(Seq<u8>),
    Int32(Seq<i32>),
    Int64(Seq<i64>),
    Float(Seq<u32>),
    Str(Seq<char>),
    Rectangle(Seq<Rectangle>),
    Size(Seq<Size>),
    Point(Seq<Point>),
}

impl View for ControlValue {
    type V = ValueView;

    open spec fn view(&self) -> ValueView {
        match self {
            ControlValue::Empty => ValueView::Empty,
            ControlValue::Bool(v) => ValueView::Bool(v@),
            ControlValue::Byte(v) => ValueView::Byte(v@),
            ControlValue::Int32(v) => ValueView::Int32(v@),
            ControlValue::Int64(v) => ValueView::Int64(v@),
            ControlValue::Float(v) => ValueView::Float(v@),
            ControlValue::String(s) => ValueView::Str(s@),
            ControlValue::Rectangle(v) => ValueView::Rectangle(v@),
            ControlValue::Size(v) => ValueView::Size(v@),
            ControlValue::Point(v) => ValueView::Point(v@),
        }
    }
}

impl Clone for ControlValue {
    /// A clone carries the same mathematical value.
    fn clone(&self) -> (r: Self)
        ensures
            r@ == self@,
    {
        match self {
            ControlValue::Empty => ControlValue::Empty,
            ControlValue::Bool(v) => ControlValue::Bool(v.clone()),
            ControlValue::Byte(v) => ControlValue::Byte(v.clone()),
            ControlValue::Int32(v) => ControlValue::Int32(v.clone()),
            ControlValue::Int64(v) => ControlValue::Int64(v.clone()),
            ControlValue::Float(v) => ControlValue::Float(v.clone()),
            ControlValue::String(s) => ControlValue::String(s.clone()),
            ControlValue::Rectangle(v) => ControlValue::Rectangle(v.clone()),
            ControlValue::Size(v) => ControlValue::Size(v.clone()),
            ControlValue::Point(v) => ControlValue::Point(v.clone()),
        }
    }
}

/// Error raised when a tagged cell or a [`ControlValue`] cannot be read as
/// requested. Malformed input is an expected, recoverable condition: none of
/// these conversions panic.
#[derive(Debug, Clone)]
pub enum ControlValueError {
    /// The value's tag does not match the one being read or written.
    InvalidType { expected: u32, found: u32 },
    /// The cell's tag is not recognized.
    UnknownType(u32),
    /// The value holds a different number of elements than requested.
    InvalidLength { expected: usize, found: usize },
    /// The element kind is right but the value does not name a known variant
    /// of the target enumeration; carries the offending value for diagnosis.
    UnknownVariant(ControlValue),
    /// The cell's bytes are not valid UTF-8 although its tag says string.
    InvalidData,
}

/// The mathematical value of a [`ControlValueError`].
#[verifier::ext_equal]
pub enum ErrorView {
    InvalidType { expected: u32, found: u32 },
    UnknownType(u32),
    InvalidLength { expected: usize, found: usize },
    UnknownVariant(ValueView),
    InvalidData,
}

impl View for ControlValueError {
    type V = ErrorView;

    open spec fn view(&self) -> ErrorView {
        match self {
            ControlValueError::InvalidType { expected, found } => ErrorView::InvalidType {
                expected: *expected,
                found: *found,
            },
            ControlValueError::UnknownType(t) => ErrorView::UnknownType(*t),
            ControlValueError::InvalidLength { expected, found } => ErrorView::InvalidLength {
                expected: *expected,
                found: *found,
            },
            ControlValueError::UnknownVariant(v) => ErrorView::UnknownVariant(v@),
            ControlValueError::InvalidData => ErrorView::InvalidData,
        }
    }
}

/// The native tag a value carries.
pub open spec fn spec_tag(v: ValueView) -> u32 {
    match v {
        ValueView::Empty => TYPE_NONE,
        ValueView::Bool(_) => TYPE_BOOL,
        ValueView::Byte(_) => TYPE_BYTE,
        ValueView::Int32(_) => TYPE_INT32,
        ValueView::Int64(_) => TYPE_INT64,
        ValueView::Float(_) => TYPE_FLOAT,
        ValueView::Str(_) => TYPE_STRING,
        ValueView::Rectangle(_) => TYPE_RECTANGLE,
        ValueView::Size(_) => TYPE_SIZE,
        ValueView::Point(_) => TYPE_POINT,
    }
}

/// How many native elements a value holds; a string counts its UTF-8 bytes.
pub open spec fn spec_num_elements(v: ValueView) -> nat {
    match v {
        ValueView::Empty => 0,
        ValueView::Bool(s) => s.len(),
        ValueView::Byte(s) => s.len(),
        ValueView::Int32(s) => s.len(),
        ValueView::Int64(s) => s.len(),
        ValueView::Float(s) => s.len(),
        ValueView::Str(s) => encode_utf8(s).len(),
        ValueView::Rectangle(s) => s.len(),
        ValueView::Size(s) => s.len(),
        ValueView::Point(s) => s.len(),
    }
}

/// Byte width of one element of a known tag.
pub open spec fn spec_elem_size(tag: u32) -> nat {
    if tag == TYPE_BOOL {
        1
    } else if tag == TYPE_BYTE {
        1
    } else if tag == TYPE_INT32 {
        4
    } else if tag == TYPE_INT64 {
        8
    } else if tag == TYPE_FLOAT {
        4
    } else if tag == TYPE_STRING {
        1
    } else if tag == TYPE_RECTANGLE {
        16
    } else if tag == TYPE_SIZE {
        8
    } else if tag == TYPE_POINT {
        8
    } else {
        0
    }
}

impl ControlValue {
    /// Native tag of this value.
    pub fn ty(&self) -> (r: u32)
        ensures
            r == spec_tag(self@),
    {
        match self {
            ControlValue::Empty => TYPE_NONE,
            ControlValue::Bool(_) => TYPE_BOOL,
            ControlValue::Byte(_) => TYPE_BYTE,
            ControlValue::Int32(_) => TYPE_INT32,
            ControlValue::Int64(_) => TYPE_INT64,
            ControlValue::Float(_) => TYPE_FLOAT,
            ControlValue::String(_) => TYPE_STRING,
            ControlValue::Rectangle(_) => TYPE_RECTANGLE,
            ControlValue::Size(_) => TYPE_SIZE,
            ControlValue::Point(_) => TYPE_POINT,
        }
    }

    /// Number of native elements this value holds.
    pub fn num_elements(&self) -> (r: usize)
        ensures
            r == spec_num_elements(self@),
    {
        match self {
            ControlValue::Empty => 0,
            ControlValue::Bool(v) => v.len(),
            ControlValue::Byte(v) => v.len(),
            ControlValue::Int32(v) => v.len(),
            ControlValue::Int64(v) => v.len(),
            ControlValue::Float(v) => v.len(),
            ControlValue::String(s) => s.as_str().as_bytes().len(),
            ControlValue::Rectangle(v) => v.len(),
            ControlValue::Size(v) => v.len(),
            ControlValue::Point(v) => v.len(),
        }
    }
}

/// Two's-complement bit pattern of a 32-bit signed integer.
pub open spec fn spec_i32_bits(x: i32) -> u32 {
    if x >= 0 {
        x as u32
    } else {
        (x + 0x1_0000_0000) as u32
    }
}

/// The 32-bit signed integer a bit pattern spells.
pub open spec fn spec_bits_i32(u: u32) -> i32 {
    if u < 0x8000_0000 {
        u as i32
    } else {
        (u - 0x1_0000_0000) as i32
    }
}

/// Two's-complement bit pattern of a 64-bit signed integer.
pub open spec fn spec_i64_bits(x: i64) -> u64 {
    if x >= 0 {
        x as u64
    } else {
        (x + 0x1_0000_0000_0000_0000) as u64
    }
}

/// The 64-bit signed integer a bit pattern spells.
pub open spec fn spec_bits_i64(u: u64) -> i64 {
    if u < 0x8000_0000_0000_0000 {
        u as i64
    } else {
        (u - 0x1_0000_0000_0000_0000) as i64
    }
}

fn i32_bits(x: i32) -> (r: u32)
    ensures
        r == spec_i32_bits(x),
{
    if x >= 0 {
        x as u32
    } else {
        ((x as i64) + 0x1_0000_0000) as u32
    }
}

fn bits_i32(u: u32) -> (r: i32)
    ensures
        r == spec_bits_i32(u),
{
    if u < 0x8000_0000 {
        u as i32
    } else {
        ((u as i64) - 0x1_0000_0000) as i32
    }
}

fn i64_bits(x: i64) -> (r: u64)
    ensures
        r == spec_i64_bits(x),
{
    if x >= 0 {
        x as u64
    } else {
        ((x as i128) + 0x1_0000_0000_0000_0000) as u64
    }
}

fn bits_i64(u: u64) -> (r: i64)
    ensures
        r == spec_bits_i64(u),
{
    if u < 0x8000_0000_0000_0000 {
        u as i64
    } else {
        ((u as i128) - 0x1_0000_0000_0000_0000) as i64
    }
}

/// Little-endian bytes of one element.
pub open spec fn spec_enc_bool(b: bool) -> Seq<u8> {
    seq![if b { 1u8 } else { 0u8 }]
}

pub open spec fn spec_enc_byte(x: u8) -> Seq<u8> {
    seq![x]
}

pub open spec fn spec_enc_u32(x: u32) -> Seq<u8> {
    spec_u32_to_le_bytes(x)
}

pub open spec fn spec_enc_i32(x: i32) -> Seq<u8> {
    spec_u32_to_le_bytes(spec_i32_bits(x))
}

pub open spec fn spec_enc_i64(x: i64) -> Seq<u8> {
    spec_u64_to_le_bytes(spec_i64_bits(x))
}

pub open spec fn spec_enc_rectangle(r: Rectangle) -> Seq<u8> {
    spec_enc_i32(r.x) + spec_enc_i32(r.y) + spec_enc_u32(r.width) + spec_enc_u32(r.height)
}

pub open spec fn spec_enc_size(s: Size) -> Seq<u8> {
    spec_enc_u32(s.width) + spec_enc_u32(s.height)
}

pub open spec fn spec_enc_point(p: Point) -> Seq<u8> {
    spec_enc_i32(p.x) + spec_enc_i32(p.y)
}

/// One element read back from its little-endian bytes.
pub open spec fn spec_dec_bool(b: Seq<u8>) -> bool {
    b[0] != 0
}

pub open spec fn spec_dec_byte(b: Seq<u8>) -> u8 {
    b[0]
}

pub open spec fn spec_dec_u32(b: Seq<u8>) -> u32 {
    spec_u32_from_le_bytes(b)
}

pub open spec fn spec_dec_i32(b: Seq<u8>) -> i32 {
    spec_bits_i32(spec_u32_from_le_bytes(b))
}

pub open spec fn spec_dec_i64(b: Seq<u8>) -> i64 {
    spec_bits_i64(spec_u64_from_le_bytes(b))
}

pub open spec fn spec_dec_rectangle(b: Seq<u8>) -> Rectangle {
    Rectangle {
        x: spec_dec_i32(b.subrange(0, 4)),
        y: spec_dec_i32(b.subrange(4, 8)),
        width: spec_dec_u32(b.subrange(8, 12)),
        height: spec_dec_u32(b.subrange(12, 16)),
    }
}

pub open spec fn spec_dec_size(b: Seq<u8>) -> Size {
    Size { width: spec_dec_u32(b.subrange(0, 4)), height: spec_dec_u32(b.subrange(4, 8)) }
}

pub open spec fn spec_dec_point(b: Seq<u8>) -> Point {
    Point { x: spec_dec_i32(b.subrange(0, 4)), y: spec_dec_i32(b.subrange(4, 8)) }
}

/// The bytes of a whole element sequence, element by element.
pub open spec fn concat_bytes<T>(s: Seq<T>, f: spec_fn(T) -> Seq<u8>) -> Seq<u8>
    decreases s.len(),
{
    if s.len() == 0 {
        Seq::empty()
    } else {
        f(s[0]) + concat_bytes(s.drop_first(), f)
    }
}

/// The element sequence read back from bytes, `width` bytes per element.
pub open spec fn split_bytes<T>(b: Seq<u8>, width: int, g: spec_fn(Seq<u8>) -> T) -> Seq<T> {
    Seq::new((b.len() as int / width) as nat, |i: int| g(b.subrange(width * i, width * i + width)))
}

pub proof fn lemma_concat_bytes_len<T>(s: Seq<T>, f: spec_fn(T) -> Seq<u8>, width: int)
    requires
        forall|t: T| (#[trigger] f(t)).len() == width,
    ensures
        concat_bytes(s, f).len() == s.len() * width,
    decreases s.len(),
{
    if s.len() == 0 {
    } else {
        lemma_concat_bytes_len(s.drop_first(), f, width);
        assert(s.drop_first().len() * width == (s.len() - 1) * width);
        assert((s.len() - 1) * width + width == s.len() * width) by (nonlinear_arith);
    }
}

pub proof fn lemma_concat_bytes_index<T>(s: Seq<T>, f: spec_fn(T) -> Seq<u8>, width: int, i: int)
    requires
        forall|t: T| (#[trigger] f(t)).len() == width,
        width > 0,
        0 <= i < s.len(),
    ensures
        concat_bytes(s, f).subrange(width * i, width * i + width) == f(s[i]),
    decreases i,
{
    lemma_concat_bytes_len(s, f, width);
    lemma_concat_bytes_len(s.drop_first(), f, width);
    assert(s.len() * width >= width * i + width) by (nonlinear_arith)
        requires
            width > 0,
            0 <= i < s.len(),
    ;
    assert(concat_bytes(s, f) == f(s[0]) + concat_bytes(s.drop_first(), f));
    if i == 0 {
        assert(width * 0 == 0);
        assert(concat_bytes(s, f).subrange(0, width) =~= f(s[0]));
        assert(concat_bytes(s, f).subrange(width * i, width * i + width) == f(s[i]));
    } else {
        lemma_concat_bytes_index(s.drop_first(), f, width, i - 1);
        assert(width * (i - 1) == width * i - width) by (nonlinear_arith);
        assert(concat_bytes(s, f).subrange(width * i, width * i + width) =~= concat_bytes(
            s.drop_first(),
            f,
        ).subrange(width * (i - 1), width * (i - 1) + width));
        assert(s.drop_first()[i - 1] == s[i]);
    }
}

/// Splitting what was concatenated recovers every element, provided decoding
/// one element inverts encoding it.
pub proof fn lemma_split_concat_bytes<T>(
    s: Seq<T>,
    f: spec_fn(T) -> Seq<u8>,
    g: spec_fn(Seq<u8>) -> T,
    width: int,
)
    requires
        width > 0,
        forall|t: T| (#[trigger] f(t)).len() == width,
        forall|t: T| #[trigger] g(f(t)) == t,
    ensures
        split_bytes(concat_bytes(s, f), width, g) == s,
{
    lemma_concat_bytes_len(s, f, width);
    assert(s.len() * width / width == s.len()) by (nonlinear_arith)
        requires
            width > 0,
    ;
    assert forall|i: int| 0 <= i < s.len() implies split_bytes(concat_bytes(s, f), width, g)[i]
        == s[i] by {
        lemma_concat_bytes_index(s, f, width, i);
    }
    assert(split_bytes(concat_bytes(s, f), width, g) =~= s);
}

pub proof fn lemma_concat_bytes_push<T>(s: Seq<T>, x: T, f: spec_fn(T) -> Seq<u8>)
    ensures
        concat_bytes(s.push(x), f) == concat_bytes(s, f) + f(x),
    decreases s.len(),
{
    if s.len() == 0 {
        assert(s.push(x).drop_first() =~= s);
        assert(s.push(x)[0] == x);
        assert(concat_bytes(s.push(x), f) == f(x) + concat_bytes(s, f));
        assert(concat_bytes(s, f) =~= Seq::<u8>::empty());
        assert(f(x) + concat_bytes(s, f) =~= concat_bytes(s, f) + f(x));
    } else {
        lemma_concat_bytes_push(s.drop_first(), x, f);
        assert(s.push(x).drop_first() =~= s.drop_first().push(x));
        assert(concat_bytes(s.push(x), f) =~= f(s[0]) + concat_bytes(s.drop_first().push(x), f));
        assert(f(s[0]) + (concat_bytes(s.drop_first(), f) + f(x)) =~= (f(s[0]) + concat_bytes(
            s.drop_first(),
            f,
        )) + f(x));
    }
}

/// Element codecs as function values, for use with [`concat_bytes`] and
/// [`split_bytes`].
pub open spec fn enc_bool_fn() -> spec_fn(bool) -> Seq<u8> {
    |t: bool| spec_enc_bool(t)
}

pub open spec fn dec_bool_fn() -> spec_fn(Seq<u8>) -> bool {
    |b: Seq<u8>| spec_dec_bool(b)
}

pub open spec fn enc_u32_fn() -> spec_fn(u32) -> Seq<u8> {
    |t: u32| spec_enc_u32(t)
}

pub open spec fn dec_u32_fn() -> spec_fn(Seq<u8>) -> u32 {
    |b: Seq<u8>| spec_dec_u32(b)
}

pub open spec fn enc_i32_fn() -> spec_fn(i32) -> Seq<u8> {
    |t: i32| spec_enc_i32(t)
}

pub open spec fn dec_i32_fn() -> spec_fn(Seq<u8>) -> i32 {
    |b: Seq<u8>| spec_dec_i32(b)
}

pub open spec fn enc_i64_fn() -> spec_fn(i64) -> Seq<u8> {
    |t: i64| spec_enc_i64(t)
}

pub open spec fn dec_i64_fn() -> spec_fn(Seq<u8>) -> i64 {
    |b: Seq<u8>| spec_dec_i64(b)
}

pub open spec fn enc_rectangle_fn() -> spec_fn(Rectangle) -> Seq<u8> {
    |t: Rectangle| spec_enc_rectangle(t)
}

pub open spec fn dec_rectangle_fn() -> spec_fn(Seq<u8>) -> Rectangle {
    |b: Seq<u8>| spec_dec_rectangle(b)
}

pub open spec fn enc_size_fn() -> spec_fn(Size) -> Seq<u8> {
    |t: Size| spec_enc_size(t)
}

pub open spec fn dec_size_fn() -> spec_fn(Seq<u8>) -> Size {
    |b: Seq<u8>| spec_dec_size(b)
}

pub open spec fn enc_point_fn() -> spec_fn(Point) -> Seq<u8> {
    |t: Point| spec_enc_point(t)
}

pub open spec fn dec_point_fn() -> spec_fn(Seq<u8>) -> Point {
    |b: Seq<u8>| spec_dec_point(b)
}

/// The raw bytes a value lays out on the wire: its elements' little-endian
/// bytes in order, or the UTF-8 bytes of a string.
pub open spec fn spec_encoded_bytes(v: ValueView) -> Seq<u8> {
    match v {
        ValueView::Empty => Seq::empty(),
        ValueView::Bool(s) => concat_bytes(s, enc_bool_fn()),
        ValueView::Byte(s) => s,
        ValueView::Int32(s) => concat_bytes(s, enc_i32_fn()),
        ValueView::Int64(s) => concat_bytes(s, enc_i64_fn()),
        ValueView::Float(s) => concat_bytes(s, enc_u32_fn()),
        ValueView::Str(s) => encode_utf8(s),
        ValueView::Rectangle(s) => concat_bytes(s, enc_rectangle_fn()),
        ValueView::Size(s) => concat_bytes(s, enc_size_fn()),
        ValueView::Point(s) => concat_bytes(s, enc_point_fn()),
    }
}

/// What decoding a cell yields, for every tag, element count and byte run:
/// the matching value, or the error that names what was wrong. Decoding never
/// interprets bytes under a tag they do not carry.
pub open spec fn spec_decode(tag: u32, count: usize, b: Seq<u8>) -> Result<ValueView, ErrorView> {
    if tag == TYPE_NONE {
        Ok(ValueView::Empty)
    } else if tag > TYPE_POINT {
        Err(ErrorView::UnknownType(tag))
    } else {
        let width = spec_elem_size(tag) as int;
        if !((b.len() as int) % width == 0 && (b.len() as int) / width == count) {
            Err(
                ErrorView::InvalidLength {
                    expected: count,
                    found: ((b.len() as int) / width) as usize,
                },
            )
        } else if tag == TYPE_BOOL {
            Ok(ValueView::Bool(split_bytes(b, width, dec_bool_fn())))
        } else if tag == TYPE_BYTE {
            Ok(ValueView::Byte(b))
        } else if tag == TYPE_INT32 {
            Ok(ValueView::Int32(split_bytes(b, width, dec_i32_fn())))
        } else if tag == TYPE_INT64 {
            Ok(ValueView::Int64(split_bytes(b, width, dec_i64_fn())))
        } else if tag == TYPE_FLOAT {
            Ok(ValueView::Float(split_bytes(b, width, dec_u32_fn())))
        } else if tag == TYPE_STRING {
            if valid_utf8(b) {
                Ok(ValueView::Str(decode_utf8(b)))
            } else {
                Err(ErrorView::InvalidData)
            }
        } else if tag == TYPE_RECTANGLE {
            Ok(ValueView::Rectangle(split_bytes(b, width, dec_rectangle_fn())))
        } else if tag == TYPE_SIZE {
            Ok(ValueView::Size(split_bytes(b, width, dec_size_fn())))
        } else {
            Ok(ValueView::Point(split_bytes(b, width, dec_point_fn())))
        }
    }
}

/// The mathematical value of a decode result.
pub open spec fn spec_result_view(r: Result<ControlValue, ControlValueError>) -> Result<
    ValueView,
    ErrorView,
> {
    match r {
        Ok(v) => Ok(v@),
        Err(e) => Err(e@),
    }
}

/// A value laid out for the native cell: tag, is-array flag, element count and
/// raw bytes.
pub struct EncodedCell {
    pub tag: u32,
    pub is_array: bool,
    pub num_elements: usize,
    pub data: Vec<u8>,
}

/// Relies on std's `String::from_utf8`: it succeeds exactly on valid UTF-8 and
/// returns the string those bytes spell.
#[verifier::external_body]
fn string_from_utf8(bytes: Vec<u8>) -> (r: Option<String>)
    ensures
        r is Some <==> valid_utf8(bytes@),
        r matches Some(s) ==> s@ == decode_utf8(bytes@),
{
    String::from_utf8(bytes).ok()
}

fn elem_size(tag: u32) -> (r: usize)
    ensures
        r == spec_elem_size(tag),
{
    if tag == TYPE_BOOL || tag == TYPE_BYTE || tag == TYPE_STRING {
        1
    } else if tag == TYPE_INT32 || tag == TYPE_FLOAT {
        4
    } else if tag == TYPE_INT64 || tag == TYPE_SIZE || tag == TYPE_POINT {
        8
    } else if tag == TYPE_RECTANGLE {
        16
    } else {
        0
    }
}

impl ControlValue {
    /// Lay this value out for a native cell: its tag, whether the cell is an
    /// array (a string always is; anything else is one exactly when its element
    /// count differs from one), the element count and the elements' bytes.
    pub fn encode(&self) -> (r: EncodedCell)
        ensures
            r.tag == spec_tag(self@),
            r.num_elements == spec_num_elements(self@),
            r.is_array == (spec_tag(self@) == TYPE_STRING || spec_num_elements(self@) != 1),
            r.data@ == spec_encoded_bytes(self@),
    {
        let tag = self.ty();
        let data: Vec<u8> = match self {
            ControlValue::Empty => Vec::new(),
            ControlValue::Bool(v) => encode_bool_elems(v),
            ControlValue::Byte(v) => slice_to_vec(v.as_slice()),
            ControlValue::Int32(v) => encode_i32_elems(v),
            ControlValue::Int64(v) => encode_i64_elems(v),
            ControlValue::Float(v) => encode_u32_elems(v),
            ControlValue::String(s) => slice_to_vec(s.as_str().as_bytes()),
            ControlValue::Rectangle(v) => encode_rectangle_elems(v),
            ControlValue::Size(v) => encode_size_elems(v),
            ControlValue::Point(v) => encode_point_elems(v),
        };
        let num_elements = self.num_elements();
        let is_array = if tag == TYPE_STRING {
            true
        } else {
            num_elements != 1
        };
        EncodedCell { tag, is_array, num_elements, data }
    }
}

fn encode_bool_elems(v: &Vec<bool>) -> (r: Vec<u8>)
    ensures
        r@ == concat_bytes(v@, enc_bool_fn()),
{
    let mut data: Vec<u8> = Vec::new();
    let n = v.len();
    let mut i: usize = 0;
    while i < n
        invariant
            n == v@.len(),
            0 <= i <= n,
            data@ == concat_bytes(v@.take(i as int), enc_bool_fn()),
        decreases n - i,
    {
        data.push(if v[i] { 1u8 } else { 0u8 });
        proof {
            assert(v@.take(i + 1 as int) =~= v@.take(i as int).push(v@[i as int]));
            lemma_concat_bytes_push(v@.take(i as int), v@[i as int], enc_bool_fn());
        }
        i += 1;
    }
    proof {
        assert(v@.take(n as int) =~= v@);
    }
    data
}

fn encode_u32_elems(v: &Vec<u32>) -> (r: Vec<u8>)
    ensures
        r@ == concat_bytes(v@, enc_u32_fn()),
{
    let mut data: Vec<u8> = Vec::new();
    let n = v.len();
    let mut i: usize = 0;
    while i < n
        invariant
            n == v@.len(),
            0 <= i <= n,
            data@ == concat_bytes(v@.take(i as int), enc_u32_fn()),
        decreases n - i,
    {
        let mut piece = u32_to_le_bytes(v[i]);
        data.append(&mut piece);
        proof {
            assert(v@.take(i + 1 as int) =~= v@.take(i as int).push(v@[i as int]));
            lemma_concat_bytes_push(v@.take(i as int), v@[i as int], enc_u32_fn());
        }
        i += 1;
    }
    proof {
        assert(v@.take(n as int) =~= v@);
    }
    data
}

fn encode_i32_elems(v: &Vec<i32>) -> (r: Vec<u8>)
    ensures
        r@ == concat_bytes(v@, enc_i32_fn()),
{
    let mut data: Vec<u8> = Vec::new();
    let n = v.len();
    let mut i: usize = 0;
    while i < n
        invariant
            n == v@.len(),
            0 <= i <= n,
            data@ == concat_bytes(v@.take(i as int), enc_i32_fn()),
        decreases n - i,
    {
        let mut piece = u32_to_le_bytes(i32_bits(v[i]));
        data.append(&mut piece);
        proof {
            assert(v@.take(i + 1 as int) =~= v@.take(i as int).push(v@[i as int]));
            lemma_concat_bytes_push(v@.take(i as int), v@[i as int], enc_i32_fn());
        }
        i += 1;
    }
    proof {
        assert(v@.take(n as int) =~= v@);
    }
    data
}

fn encode_i64_elems(v: &Vec<i64>) -> (r: Vec<u8>)
    ensures
        r@ == concat_bytes(v@, enc_i64_fn()),
{
    let mut data: Vec<u8> = Vec::new();
    let n = v.len();
    let mut i: usize = 0;
    while i < n
        invariant
            n == v@.len(),
            0 <= i <= n,
            data@ == concat_bytes(v@.take(i as int), enc_i64_fn()),
        decreases n - i,
    {
        let mut piece = u64_to_le_bytes(i64_bits(v[i]));
        data.append(&mut piece);
        proof {
            assert(v@.take(i + 1 as int) =~= v@.take(i as int).push(v@[i as int]));
            lemma_concat_bytes_push(v@.take(i as int), v@[i as int], enc_i64_fn());
        }
        i += 1;
    }
    proof {
        assert(v@.take(n as int) =~= v@);
    }
    data
}

fn push_u32_le(data: &mut Vec<u8>, x: u32)
    ensures
        final(data)@ == old(data)@ + spec_enc_u32(x),
{
    let mut piece = u32_to_le_bytes(x);
    data.append(&mut piece);
}

fn push_i32_le(data: &mut Vec<u8>, x: i32)
    ensures
        final(data)@ == old(data)@ + spec_enc_i32(x),
{
    let mut piece = u32_to_le_bytes(i32_bits(x));
    data.append(&mut piece);
}

fn encode_rectangle_elems(v: &Vec<Rectangle>) -> (r: Vec<u8>)
    ensures
        r@ == concat_bytes(v@, enc_rectangle_fn()),
{
    let mut data: Vec<u8> = Vec::new();
    let n = v.len();
    let mut i: usize = 0;
    while i < n
        invariant
            n == v@.len(),
            0 <= i <= n,
            data@ == concat_bytes(v@.take(i as int), enc_rectangle_fn()),
        decreases n - i,
    {
        let rect = v[i];
        push_i32_le(&mut data, rect.x);
        push_i32_le(&mut data, rect.y);
        push_u32_le(&mut data, rect.width);
        push_u32_le(&mut data, rect.height);
        proof {
            assert(v@.take(i + 1 as int) =~= v@.take(i as int).push(v@[i as int]));
            lemma_concat_bytes_push(v@.take(i as int), v@[i as int], enc_rectangle_fn());
            assert(data@ == concat_bytes(v@.take(i as int), enc_rectangle_fn())
                + spec_enc_rectangle(rect));
        }
        i += 1;
    }
    proof {
        assert(v@.take(n as int) =~= v@);
    }
    data
}

fn encode_size_elems(v: &Vec<Size>) -> (r: Vec<u8>)
    ensures
        r@ == concat_bytes(v@, enc_size_fn()),
{
    let mut data: Vec<u8> = Vec::new();
    let n = v.len();
    let mut i: usize = 0;
    while i < n
        invariant
            n == v@.len(),
            0 <= i <= n,
            data@ == concat_bytes(v@.take(i as int), enc_size_fn()),
        decreases n - i,
    {
        let sz = v[i];
        push_u32_le(&mut data, sz.width);
        push_u32_le(&mut data, sz.height);
        proof {
            assert(v@.take(i + 1 as int) =~= v@.take(i as int).push(v@[i as int]));
            lemma_concat_bytes_push(v@.take(i as int), v@[i as int], enc_size_fn());
            assert(data@ == concat_bytes(v@.take(i as int), enc_size_fn()) + spec_enc_size(sz));
        }
        i += 1;
    }
    proof {
        assert(v@.take(n as int) =~= v@);
    }
    data
}

fn encode_point_elems(v: &Vec<Point>) -> (r: Vec<u8>)
    ensures
        r@ == concat_bytes(v@, enc_point_fn()),
{
    let mut data: Vec<u8> = Vec::new();
    let n = v.len();
    let mut i: usize = 0;
    while i < n
        invariant
            n == v@.len(),
            0 <= i <= n,
            data@ == concat_bytes(v@.take(i as int), enc_point_fn()),
        decreases n - i,
    {
        let p = v[i];
        push_i32_le(&mut data, p.x);
        push_i32_le(&mut data, p.y);
        proof {
            assert(v@.take(i + 1 as int) =~= v@.take(i as int).push(v@[i as int]));
            lemma_concat_bytes_push(v@.take(i as int), v@[i as int], enc_point_fn());
            assert(data@ == concat_bytes(v@.take(i as int), enc_point_fn()) + spec_enc_point(p));
        }
        i += 1;
    }
    proof {
        assert(v@.take(n as int) =~= v@);
    }
    data
}

fn decode_bool_elems(data: &[u8]) -> (r: Vec<bool>)
    ensures
        r@ == split_bytes(data@, 1, dec_bool_fn()),
{
    let n = data.len();
    let mut out: Vec<bool> = Vec::new();
    let mut i: usize = 0;
    while i < n
        invariant
            n == data@.len(),
            0 <= i <= n,
            out@.len() == i,
            forall|j: int| 0 <= j < i ==> out@[j] == spec_dec_bool(data@.subrange(j, j + 1)),
        decreases n - i,
    {
        let b = *slice_index_get(data, i);
        out.push(b != 0);
        proof {
            assert(data@.subrange(i as int, i + 1)[0] == data@[i as int]);
        }
        i += 1;
    }
    proof {
        assert(out@ =~= split_bytes(data@, 1, dec_bool_fn()));
    }
    out
}

fn decode_u32_elems(data: &[u8]) -> (r: Vec<u32>)
    requires
        data@.len() % 4 == 0,
    ensures
        r@ == split_bytes(data@, 4, dec_u32_fn()),
{
    let len = data.len();
    let n = len / 4;
    let mut out: Vec<u32> = Vec::new();
    let mut i: usize = 0;
    while i < n
        invariant
            len == data@.len(),
            len % 4 == 0,
            n == len / 4,
            0 <= i <= n,
            out@.len() == i,
            forall|j: int| 0 <= j < i ==> out@[j] == spec_dec_u32(data@.subrange(4 * j, 4 * j + 4)),
        decreases n - i,
    {
        proof {
            assert(4 * (i as int) + 4 <= 4 * (n as int));
        }
        let chunk = slice_subrange(data, 4 * i, 4 * i + 4);
        out.push(u32_from_le_bytes(chunk));
        i += 1;
    }
    proof {
        assert(out@ =~= split_bytes(data@, 4, dec_u32_fn()));
    }
    out
}

fn decode_i32_elems(data: &[u8]) -> (r: Vec<i32>)
    requires
        data@.len() % 4 == 0,
    ensures
        r@ == split_bytes(data@, 4, dec_i32_fn()),
{
    let len = data.len();
    let n = len / 4;
    let mut out: Vec<i32> = Vec::new();
    let mut i: usize = 0;
    while i < n
        invariant
            len == data@.len(),
            len % 4 == 0,
            n == len / 4,
            0 <= i <= n,
            out@.len() == i,
            forall|j: int| 0 <= j < i ==> out@[j] == spec_dec_i32(data@.subrange(4 * j, 4 * j + 4)),
        decreases n - i,
    {
        proof {
            assert(4 * (i as int) + 4 <= 4 * (n as int));
        }
        let chunk = slice_subrange(data, 4 * i, 4 * i + 4);
        out.push(bits_i32(u32_from_le_bytes(chunk)));
        i += 1;
    }
    proof {
        assert(out@ =~= split_bytes(data@, 4, dec_i32_fn()));
    }
    out
}

fn decode_i64_elems(data: &[u8]) -> (r: Vec<i64>)
    requires
        data@.len() % 8 == 0,
    ensures
        r@ == split_bytes(data@, 8, dec_i64_fn()),
{
    let len = data.len();
    let n = len / 8;
    let mut out: Vec<i64> = Vec::new();
    let mut i: usize = 0;
    while i < n
        invariant
            len == data@.len(),
            len % 8 == 0,
            n == len / 8,
            0 <= i <= n,
            out@.len() == i,
            forall|j: int| 0 <= j < i ==> out@[j] == spec_dec_i64(data@.subrange(8 * j, 8 * j + 8)),
        decreases n - i,
    {
        proof {
            assert(8 * (i as int) + 8 <= 8 * (n as int));
        }
        let chunk = slice_subrange(data, 8 * i, 8 * i + 8);
        out.push(bits_i64(u64_from_le_bytes(chunk)));
        i += 1;
    }
    proof {
        assert(out@ =~= split_bytes(data@, 8, dec_i64_fn()));
    }
    out
}

fn decode_one_rectangle(chunk: &[u8]) -> (r: Rectangle)
    requires
        chunk@.len() == 16,
    ensures
        r == spec_dec_rectangle(chunk@),
{
    let x = bits_i32(u32_from_le_bytes(slice_subrange(chunk, 0, 4)));
    let y = bits_i32(u32_from_le_bytes(slice_subrange(chunk, 4, 8)));
    let width = u32_from_le_bytes(slice_subrange(chunk, 8, 12));
    let height = u32_from_le_bytes(slice_subrange(chunk, 12, 16));
    Rectangle { x, y, width, height }
}

fn decode_rectangle_elems(data: &[u8]) -> (r: Vec<Rectangle>)
    requires
        data@.len() % 16 == 0,
    ensures
        r@ == split_bytes(data@, 16, dec_rectangle_fn()),
{
    let len = data.len();
    let n = len / 16;
    let mut out: Vec<Rectangle> = Vec::new();
    let mut i: usize = 0;
    while i < n
        invariant
            len == data@.len(),
            len % 16 == 0,
            n == len / 16,
            0 <= i <= n,
            out@.len() == i,
            forall|j: int|
                0 <= j < i ==> out@[j] == spec_dec_rectangle(
                    data@.subrange(16 * j, 16 * j + 16),
                ),
        decreases n - i,
    {
        proof {
            assert(16 * (i as int) + 16 <= 16 * (n as int));
        }
        let chunk = slice_subrange(data, 16 * i, 16 * i + 16);
        out.push(decode_one_rectangle(chunk));
        i += 1;
    }
    proof {
        assert(out@ =~= split_bytes(data@, 16, dec_rectangle_fn()));
    }
    out
}

fn decode_size_elems(data: &[u8]) -> (r: Vec<Size>)
    requires
        data@.len() % 8 == 0,
    ensures
        r@ == split_bytes(data@, 8, dec_size_fn()),
{
    let len = data.len();
    let n = len / 8;
    let mut out: Vec<Size> = Vec::new();
    let mut i: usize = 0;
    while i < n
        invariant
            len == data@.len(),
            len % 8 == 0,
            n == len / 8,
            0 <= i <= n,
            out@.len() == i,
            forall|j: int| 0 <= j < i ==> out@[j] == spec_dec_size(data@.subrange(8 * j, 8 * j + 8)),
        decreases n - i,
    {
        proof {
            assert(8 * (i as int) + 8 <= 8 * (n as int));
        }
        let chunk = slice_subrange(data, 8 * i, 8 * i + 8);
        let width = u32_from_le_bytes(slice_subrange(chunk, 0, 4));
        let height = u32_from_le_bytes(slice_subrange(chunk, 4, 8));
        out.push(Size { width, height });
        i += 1;
    }
    proof {
        assert(out@ =~= split_bytes(data@, 8, dec_size_fn()));
    }
    out
}

fn decode_point_elems(data: &[u8]) -> (r: Vec<Point>)
    requires
        data@.len() % 8 == 0,
    ensures
        r@ == split_bytes(data@, 8, dec_point_fn()),
{
    let len = data.len();
    let n = len / 8;
    let mut out: Vec<Point> = Vec::new();
    let mut i: usize = 0;
    while i < n
        invariant
            len == data@.len(),
            len % 8 == 0,
            n == len / 8,
            0 <= i <= n,
            out@.len() == i,
            forall|j: int|
                0 <= j < i ==> out@[j] == spec_dec_point(data@.subrange(8 * j, 8 * j + 8)),
        decreases n - i,
    {
        proof {
            assert(8 * (i as int) + 8 <= 8 * (n as int));
        }
        let chunk = slice_subrange(data, 8 * i, 8 * i + 8);
        let x = bits_i32(u32_from_le_bytes(slice_subrange(chunk, 0, 4)));
        let y = bits_i32(u32_from_le_bytes(slice_subrange(chunk, 4, 8)));
        out.push(Point { x, y });
        i += 1;
    }
    proof {
        assert(out@ =~= split_bytes(data@, 8, dec_point_fn()));
    }
    out
}

/// Read a native cell's tag, element count and raw bytes back into a
/// self-contained value. Dispatches exhaustively on the tag; an unrecognized
/// tag, a byte run that does not hold exactly `num_elements` elements of the
/// tag's width, or string bytes that are not UTF-8 are reported as errors and
/// never reinterpreted.
pub fn decode(tag: u32, num_elements: usize, data: &[u8]) -> (r: Result<
    ControlValue,
    ControlValueError,
>)
    ensures
        spec_result_view(r) == spec_decode(tag, num_elements, data@),
{
    if tag == TYPE_NONE {
        return Ok(ControlValue::Empty);
    }
    if tag > TYPE_POINT {
        return Err(ControlValueError::UnknownType(tag));
    }
    let width = elem_size(tag);
    let len = data.len();
    if !(len % width == 0 && len / width == num_elements) {
        return Err(
            ControlValueError::InvalidLength { expected: num_elements, found: len / width },
        );
    }
    if tag == TYPE_BOOL {
        Ok(ControlValue::Bool(decode_bool_elems(data)))
    } else if tag == TYPE_BYTE {
        proof {
            assert(data@ =~= split_bytes(data@, 1, |b: Seq<u8>| spec_dec_byte(b)));
        }
        Ok(ControlValue::Byte(slice_to_vec(data)))
    } else if tag == TYPE_INT32 {
        Ok(ControlValue::Int32(decode_i32_elems(data)))
    } else if tag == TYPE_INT64 {
        Ok(ControlValue::Int64(decode_i64_elems(data)))
    } else if tag == TYPE_FLOAT {
        Ok(ControlValue::Float(decode_u32_elems(data)))
    } else if tag == TYPE_STRING {
        match string_from_utf8(slice_to_vec(data)) {
            Some(s) => Ok(ControlValue::String(s)),
            None => Err(ControlValueError::InvalidData),
        }
    } else if tag == TYPE_RECTANGLE {
        Ok(ControlValue::Rectangle(decode_rectangle_elems(data)))
    } else if tag == TYPE_SIZE {
        Ok(ControlValue::Size(decode_size_elems(data)))
    } else {
        Ok(ControlValue::Point(decode_point_elems(data)))
    }
}

/// A two-dimensional block of elements laid out row-major: the rows joined in
/// order.
pub open spec fn spec_flatten_rows(rows: Seq<Seq<i32>>) -> Seq<i32>
    decreases rows.len(),
{
    if rows.len() == 0 {
        Seq::empty()
    } else {
        rows[0] + spec_flatten_rows(rows.drop_first())
    }
}

/// A flat sequence cut back into `n` rows of `m` elements each.
pub open spec fn spec_unflatten_rows(s: Seq<i32>, n: int, m: int) -> Seq<Seq<i32>> {
    Seq::new(n as nat, |i: int| s.subrange(m * i, m * i + m))
}

pub proof fn lemma_flatten_rows_len(rows: Seq<Seq<i32>>, m: int)
    requires
        forall|i: int| 0 <= i < rows.len() ==> (#[trigger] rows[i]).len() == m,
    ensures
        spec_flatten_rows(rows).len() == rows.len() * m,
    decreases rows.len(),
{
    if rows.len() == 0 {
    } else {
        lemma_flatten_rows_len(rows.drop_first(), m);
        assert(rows.drop_first().len() * m == (rows.len() - 1) * m);
        assert((rows.len() - 1) * m + m == rows.len() * m) by (nonlinear_arith);
    }
}

proof fn lemma_flatten_rows_index(rows: Seq<Seq<i32>>, m: int, i: int)
    requires
        m > 0,
        forall|k: int| 0 <= k < rows.len() ==> (#[trigger] rows[k]).len() == m,
        0 <= i < rows.len(),
    ensures
        spec_flatten_rows(rows).subrange(m * i, m * i + m) == rows[i],
    decreases i,
{
    lemma_flatten_rows_len(rows, m);
    lemma_flatten_rows_len(rows.drop_first(), m);
    assert(rows.len() * m >= m * i + m) by (nonlinear_arith)
        requires
            m > 0,
            0 <= i < rows.len(),
    ;
    assert(spec_flatten_rows(rows) == rows[0] + spec_flatten_rows(rows.drop_first()));
    if i == 0 {
        assert(spec_flatten_rows(rows).subrange(0, m) =~= rows[0]);
        assert(m * 0 == 0);
    } else {
        lemma_flatten_rows_index(rows.drop_first(), m, i - 1);
        assert(m * (i - 1) == m * i - m) by (nonlinear_arith);
        assert(spec_flatten_rows(rows).subrange(m * i, m * i + m) =~= spec_flatten_rows(
            rows.drop_first(),
        ).subrange(m * (i - 1), m * (i - 1) + m));
        assert(rows.drop_first()[i - 1] == rows[i]);
    }
}

/// Cutting a row-major layout back into rows recovers every row: element order
/// is preserved through the two-dimensional round trip.
pub proof fn lemma_unflatten_flatten_rows(rows: Seq<Seq<i32>>, m: int)
    requires
        m > 0,
        forall|i: int| 0 <= i < rows.len() ==> (#[trigger] rows[i]).len() == m,
    ensures
        spec_unflatten_rows(spec_flatten_rows(rows), rows.len() as int, m) == rows,
{
    lemma_flatten_rows_len(rows, m);
    assert forall|i: int| 0 <= i < rows.len() implies spec_unflatten_rows(
        spec_flatten_rows(rows),
        rows.len() as int,
        m,
    )[i] == rows[i] by {
        lemma_flatten_rows_index(rows, m, i);
    }
    assert(spec_unflatten_rows(spec_flatten_rows(rows), rows.len() as int, m) =~= rows);
}

impl ControlValue {
    /// Wrap a two-dimensional block of 32-bit integers, row-major. Every row
    /// must have the same, positive width.
    pub fn from_i32_grid(rows: &Vec<Vec<i32>>) -> (r: ControlValue)
        requires
            rows@.len() > 0,
            forall|i: int|
                0 <= i < rows@.len() ==> (#[trigger] rows@[i])@.len() == rows@[0]@.len(),
        ensures
            r@ == ValueView::Int32(spec_flatten_rows(rows.deep_view())),
    {
        let mut flat: Vec<i32> = Vec::new();
        let n = rows.len();
        let mut i: usize = 0;
        proof {
            assert(rows.deep_view().skip(0) =~~= rows.deep_view());
            assert(flat@ + Seq::<i32>::empty() =~= flat@);
        }
        while i < n
            invariant
                n == rows@.len(),
                0 <= i <= n,
                spec_flatten_rows(rows.deep_view()) == flat@ + spec_flatten_rows(
                    rows.deep_view().skip(i as int),
                ),
            decreases n - i,
        {
            proof {
                assert(rows.deep_view().skip(i as int)[0] == rows.deep_view()[i as int]);
                assert(rows.deep_view()[i as int] == rows@[i as int]@);
                assert(rows.deep_view().skip(i as int).drop_first() =~~= rows.deep_view().skip(
                    i + 1 as int,
                ));
            }
            let ghost prev = flat@;
            let row = &rows[i];
            let mut j: usize = 0;
            let m = row.len();
            while j < m
                invariant
                    m == row@.len(),
                    0 <= j <= m,
                    flat@ == prev + row@.take(j as int),
                decreases m - j,
            {
                flat.push(row[j]);
                proof {
                    assert(prev + row@.take(j + 1 as int) =~= prev + row@.take(j as int).push(
                        row@[j as int],
                    ));
                }
                j += 1;
            }
            proof {
                assert(row@.take(m as int) =~= row@);
                match spec_flatten_rows(rows.deep_view().skip(i + 1 as int)) {
                    rest => {
                        assert(prev + (rows.deep_view()[i as int] + rest) =~= flat@ + rest);
                    },
                }
            }
            i += 1;
        }
        proof {
            assert(rows.deep_view().skip(n as int) =~~= Seq::<Seq<i32>>::empty());
            assert(flat@ + Seq::<i32>::empty() =~= flat@);
        }
        ControlValue::Int32(flat)
    }

    /// Extract a two-dimensional block of 32-bit integers: the tag must match
    /// and exactly `n * m` elements be stored, consumed row-major.
    pub fn try_into_i32_grid(self, n: usize, m: usize) -> (r: Result<
        Vec<Vec<i32>>,
        ControlValueError,
    >)
        requires
            m > 0,
            n * m <= usize::MAX,
        ensures
            match self@ {
                ValueView::Int32(s) => {
                    if s.len() == n * m {
                        (r matches Ok(rows) && rows.deep_view() == spec_unflatten_rows(
                            s,
                            n as int,
                            m as int,
                        ))
                    } else {
                        (r matches Err(e) && e@ == ErrorView::InvalidLength {
                            expected: (n * m) as usize,
                            found: s.len() as usize,
                        })
                    }
                },
                _ => (r matches Err(e) && e@ == ErrorView::InvalidType {
                    expected: TYPE_INT32,
                    found: spec_tag(self@),
                }),
            },
    {
        let flat = match self {
            ControlValue::Int32(v) => v,
            other => {
                return Err(
                    ControlValueError::InvalidType { expected: TYPE_INT32, found: other.ty() },
                );
            },
        };
        proof {
            assert(n * m == (n * m) as usize) by (nonlinear_arith)
                requires
                    n * m <= usize::MAX,
                    n >= 0,
                    m >= 0,
            ;
        }
        let want = n * m;
        if flat.len() != want {
            let found = flat.len();
            return Err(ControlValueError::InvalidLength { expected: want, found });
        }
        let mut rows: Vec<Vec<i32>> = Vec::new();
        let mut i: usize = 0;
        while i < n
            invariant
                m > 0,
                flat@.len() == n * m,
                n * m <= usize::MAX,
                0 <= i <= n,
                rows.deep_view().len() == i,
                forall|k: int|
                    0 <= k < i ==> rows.deep_view()[k] == flat@.subrange(
                        m * k,
                        m * k + m,
                    ),
            decreases n - i,
        {
            proof {
                assert(m * (i as int) + m <= m * (n as int)) by (nonlinear_arith)
                    requires
                        m > 0,
                        0 <= i < n,
                ;
                assert(m * (n as int) == n * m) by (nonlinear_arith);
            }
            let mut row: Vec<i32> = Vec::new();
            let start = m * i;
            let mut j: usize = 0;
            while j < m
                invariant
                    m > 0,
                    flat@.len() >= start + m,
                    flat@.len() <= usize::MAX,
                    start == m * i,
                    0 <= j <= m,
                    row@ == flat@.subrange(start as int, start + j as int),
                decreases m - j,
            {
                row.push(flat[start + j]);
                proof {
                    assert(flat@.subrange(start as int, start + (j + 1) as int) =~= flat@.subrange(
                        start as int,
                        start + j as int,
                    ).push(flat@[start + j as int]));
                }
                j += 1;
            }
            let ghost prevr = rows.deep_view();
            rows.push(row);
            proof {
                assert(rows.deep_view() =~~= prevr.push(flat@.subrange(
                    m * (i as int),
                    m * (i as int) + m,
                )));
            }
            i += 1;
        }
        proof {
            assert(rows.deep_view() =~~= spec_unflatten_rows(flat@, n as int, m as int));
        }
        Ok(rows)
    }
}

/// Round trip of the wire layout: decoding the tag, element count and bytes
/// that a value encodes yields exactly that value back, for every value whose
/// element count is representable. Element order is preserved: element `i` of
/// the value is read back from the `i`-th chunk of its bytes.
pub proof fn lemma_decode_encode(v: ValueView)
    requires
        spec_num_elements(v) <= usize::MAX,
    ensures
        spec_decode(spec_tag(v), spec_num_elements(v) as usize, spec_encoded_bytes(v)) == Ok::<
            ValueView,
            ErrorView,
        >(v),
{
    lemma_auto_spec_u32_to_from_le_bytes();
    lemma_auto_spec_u64_to_from_le_bytes();
    match v {
        ValueView::Empty => {},
        ValueView::Bool(s) => {
            assert forall|t: bool| (#[trigger] enc_bool_fn()(t)).len() == 1 by {}
            assert forall|t: bool| #[trigger] dec_bool_fn()(enc_bool_fn()(t)) == t by {
                assert(spec_enc_bool(t)[0] == if t {
                    1u8
                } else {
                    0u8
                });
            }
            lemma_concat_bytes_len(s, enc_bool_fn(), 1);
            lemma_split_concat_bytes(s, enc_bool_fn(), dec_bool_fn(), 1);
        },
        ValueView::Byte(s) => {},
        ValueView::Int32(s) => {
            assert forall|t: i32| (#[trigger] enc_i32_fn()(t)).len() == 4 by {}
            assert forall|t: i32| #[trigger] dec_i32_fn()(enc_i32_fn()(t)) == t by {}
            lemma_concat_bytes_len(s, enc_i32_fn(), 4);
            lemma_div_exact(s.len() as int, 4);
            lemma_split_concat_bytes(s, enc_i32_fn(), dec_i32_fn(), 4);
        },
        ValueView::Int64(s) => {
            assert forall|t: i64| (#[trigger] enc_i64_fn()(t)).len() == 8 by {}
            assert forall|t: i64| #[trigger] dec_i64_fn()(enc_i64_fn()(t)) == t by {}
            lemma_concat_bytes_len(s, enc_i64_fn(), 8);
            lemma_div_exact(s.len() as int, 8);
            lemma_split_concat_bytes(s, enc_i64_fn(), dec_i64_fn(), 8);
        },
        ValueView::Float(s) => {
            assert forall|t: u32| (#[trigger] enc_u32_fn()(t)).len() == 4 by {}
            assert forall|t: u32| #[trigger] dec_u32_fn()(enc_u32_fn()(t)) == t by {}
            lemma_concat_bytes_len(s, enc_u32_fn(), 4);
            lemma_div_exact(s.len() as int, 4);
            lemma_split_concat_bytes(s, enc_u32_fn(), dec_u32_fn(), 4);
        },
        ValueView::Str(s) => {
            encode_utf8_valid_utf8(s);
            encode_utf8_decode_utf8(s);
        },
        ValueView::Rectangle(s) => {
            assert forall|t: Rectangle| (#[trigger] enc_rectangle_fn()(t)).len() == 16 by {}
            assert forall|t: Rectangle| #[trigger] dec_rectangle_fn()(enc_rectangle_fn()(t))
                == t by {
                let b = spec_enc_rectangle(t);
                assert(b.subrange(0, 4) =~= spec_enc_i32(t.x));
                assert(b.subrange(4, 8) =~= spec_enc_i32(t.y));
                assert(b.subrange(8, 12) =~= spec_enc_u32(t.width));
                assert(b.subrange(12, 16) =~= spec_enc_u32(t.height));
            }
            lemma_concat_bytes_len(s, enc_rectangle_fn(), 16);
            lemma_div_exact(s.len() as int, 16);
            lemma_split_concat_bytes(s, enc_rectangle_fn(), dec_rectangle_fn(), 16);
        },
        ValueView::Size(s) => {
            assert forall|t: Size| (#[trigger] enc_size_fn()(t)).len() == 8 by {}
            assert forall|t: Size| #[trigger] dec_size_fn()(enc_size_fn()(t)) == t by {
                let b = spec_enc_size(t);
                assert(b.subrange(0, 4) =~= spec_enc_u32(t.width));
                assert(b.subrange(4, 8) =~= spec_enc_u32(t.height));
            }
            lemma_concat_bytes_len(s, enc_size_fn(), 8);
            lemma_div_exact(s.len() as int, 8);
            lemma_split_concat_bytes(s, enc_size_fn(), dec_size_fn(), 8);
        },
        ValueView::Point(s) => {
            assert forall|t: Point| (#[trigger] enc_point_fn()(t)).len() == 8 by {}
            assert forall|t: Point| #[trigger] dec_point_fn()(enc_point_fn()(t)) == t by {
                let b = spec_enc_point(t);
                assert(b.subrange(0, 4) =~= spec_enc_i32(t.x));
                assert(b.subrange(4, 8) =~= spec_enc_i32(t.y));
            }
            lemma_concat_bytes_len(s, enc_point_fn(), 8);
            lemma_div_exact(s.len() as int, 8);
            lemma_split_concat_bytes(s, enc_point_fn(), dec_point_fn(), 8);
        },
    }
}

proof fn lemma_div_exact(n: int, w: int)
    requires
        w > 0,
        n >= 0,
    ensures
        (n * w) % w == 0,
        (n * w) / w == n,
{
    assert((n * w) % w == 0 && (n * w) / w == n) by (nonlinear_arith)
        requires
            w > 0,
            n >= 0,
    ;
}

/// Map a conversion result to its mathematical value, keeping the payload.
pub open spec fn spec_err_view<T>(r: Result<T, ControlValueError>) -> Result<T, ErrorView> {
    match r {
        Ok(t) => Ok(t),
        Err(e) => Err(e@),
    }
}

/// What extracting a single element of the given tag from a value yields: the
/// element when the tag matches and exactly one element is stored; otherwise
/// the error naming the mismatch.
pub open spec fn spec_scalar_bool(v: ValueView) -> Result<bool, ErrorView> {
    match v {
        ValueView::Bool(s) => if s.len() == 1 {
            Ok(s[0])
        } else {
            Err(ErrorView::InvalidLength { expected: 1, found: s.len() as usize })
        },
        _ => Err(ErrorView::InvalidType { expected: TYPE_BOOL, found: spec_tag(v) }),
    }
}

pub open spec fn spec_scalar_byte(v: ValueView) -> Result<u8, ErrorView> {
    match v {
        ValueView::Byte(s) => if s.len() == 1 {
            Ok(s[0])
        } else {
            Err(ErrorView::InvalidLength { expected: 1, found: s.len() as usize })
        },
        _ => Err(ErrorView::InvalidType { expected: TYPE_BYTE, found: spec_tag(v) }),
    }
}

pub open spec fn spec_scalar_i32(v: ValueView) -> Result<i32, ErrorView> {
    match v {
        ValueView::Int32(s) => if s.len() == 1 {
            Ok(s[0])
        } else {
            Err(ErrorView::InvalidLength { expected: 1, found: s.len() as usize })
        },
        _ => Err(ErrorView::InvalidType { expected: TYPE_INT32, found: spec_tag(v) }),
    }
}

pub open spec fn spec_scalar_i64(v: ValueView) -> Result<i64, ErrorView> {
    match v {
        ValueView::Int64(s) => if s.len() == 1 {
            Ok(s[0])
        } else {
            Err(ErrorView::InvalidLength { expected: 1, found: s.len() as usize })
        },
        _ => Err(ErrorView::InvalidType { expected: TYPE_INT64, found: spec_tag(v) }),
    }
}

pub open spec fn spec_scalar_float_bits(v: ValueView) -> Result<u32, ErrorView> {
    match v {
        ValueView::Float(s) => if s.len() == 1 {
            Ok(s[0])
        } else {
            Err(ErrorView::InvalidLength { expected: 1, found: s.len() as usize })
        },
        _ => Err(ErrorView::InvalidType { expected: TYPE_FLOAT, found: spec_tag(v) }),
    }
}

pub open spec fn spec_scalar_rectangle(v: ValueView) -> Result<Rectangle, ErrorView> {
    match v {
        ValueView::Rectangle(s) => if s.len() == 1 {
            Ok(s[0])
        } else {
            Err(ErrorView::InvalidLength { expected: 1, found: s.len() as usize })
        },
        _ => Err(ErrorView::InvalidType { expected: TYPE_RECTANGLE, found: spec_tag(v) }),
    }
}

pub open spec fn spec_scalar_size(v: ValueView) -> Result<Size, ErrorView> {
    match v {
        ValueView::Size(s) => if s.len() == 1 {
            Ok(s[0])
        } else {
            Err(ErrorView::InvalidLength { expected: 1, found: s.len() as usize })
        },
        _ => Err(ErrorView::InvalidType { expected: TYPE_SIZE, found: spec_tag(v) }),
    }
}

pub open spec fn spec_scalar_point(v: ValueView) -> Result<Point, ErrorView> {
    match v {
        ValueView::Point(s) => if s.len() == 1 {
            Ok(s[0])
        } else {
            Err(ErrorView::InvalidLength { expected: 1, found: s.len() as usize })
        },
        _ => Err(ErrorView::InvalidType { expected: TYPE_POINT, found: spec_tag(v) }),
    }
}

impl ControlValue {
    pub fn from_bool(val: bool) -> (r: ControlValue)
        ensures
            r@ == ValueView::Bool(seq![val]),
    {
        let mut v: Vec<bool> = Vec::new();
        v.push(val);
        proof {
            assert(v@ =~= seq![val]);
        }
        ControlValue::Bool(v)
    }

    pub fn from_bool_vec(val: Vec<bool>) -> (r: ControlValue)
        ensures
            r@ == ValueView::Bool(val@),
    {
        ControlValue::Bool(val)
    }

    /// Extract a single boolean; the tag must be boolean and exactly one
    /// element stored.
    pub fn try_into_bool(self) -> (r: Result<bool, ControlValueError>)
        ensures
            spec_err_view(r) == spec_scalar_bool(self@),
    {
        match self {
            ControlValue::Bool(v) => {
                if v.len() == 1 {
                    Ok(v[0])
                } else {
                    let found = v.len();
                    Err(ControlValueError::InvalidLength { expected: 1, found })
                }
            },
            _ => Err(
                ControlValueError::InvalidType { expected: TYPE_BOOL, found: self.ty() },
            ),
        }
    }

    /// Extract the whole boolean sequence; only the tag must match.
    pub fn try_into_bool_vec(self) -> (r: Result<Vec<bool>, ControlValueError>)
        ensures
            match self@ {
                ValueView::Bool(s) => r matches Ok(v) && v@ == s,
                _ => (r matches Err(e) && e@ == ErrorView::InvalidType {
                    expected: TYPE_BOOL,
                    found: spec_tag(self@),
                }),
            },
    {
        match self {
            ControlValue::Bool(v) => Ok(v),
            _ => Err(
                ControlValueError::InvalidType { expected: TYPE_BOOL, found: self.ty() },
            ),
        }
    }

    pub fn from_byte(val: u8) -> (r: ControlValue)
        ensures
            r@ == ValueView::Byte(seq![val]),
    {
        let mut v: Vec<u8> = Vec::new();
        v.push(val);
        proof {
            assert(v@ =~= seq![val]);
        }
        ControlValue::Byte(v)
    }

    pub fn from_byte_vec(val: Vec<u8>) -> (r: ControlValue)
        ensures
            r@ == ValueView::Byte(val@),
    {
        ControlValue::Byte(val)
    }

    pub fn try_into_byte(self) -> (r: Result<u8, ControlValueError>)
        ensures
            spec_err_view(r) == spec_scalar_byte(self@),
    {
        match self {
            ControlValue::Byte(v) => {
                if v.len() == 1 {
                    Ok(v[0])
                } else {
                    let found = v.len();
                    Err(ControlValueError::InvalidLength { expected: 1, found })
                }
            },
            _ => Err(
                ControlValueError::InvalidType { expected: TYPE_BYTE, found: self.ty() },
            ),
        }
    }

    pub fn try_into_byte_vec(self) -> (r: Result<Vec<u8>, ControlValueError>)
        ensures
            match self@ {
                ValueView::Byte(s) => r matches Ok(v) && v@ == s,
                _ => (r matches Err(e) && e@ == ErrorView::InvalidType {
                    expected: TYPE_BYTE,
                    found: spec_tag(self@),
                }),
            },
    {
        match self {
            ControlValue::Byte(v) => Ok(v),
            _ => Err(
                ControlValueError::InvalidType { expected: TYPE_BYTE, found: self.ty() },
            ),
        }
    }

    pub fn from_i32(val: i32) -> (r: ControlValue)
        ensures
            r@ == ValueView::Int32(seq![val]),
    {
        let mut v: Vec<i32> = Vec::new();
        v.push(val);
        proof {
            assert(v@ =~= seq![val]);
        }
        ControlValue::Int32(v)
    }

    pub fn from_i32_vec(val: Vec<i32>) -> (r: ControlValue)
        ensures
            r@ == ValueView::Int32(val@),
    {
        ControlValue::Int32(val)
    }

    pub fn try_into_i32(self) -> (r: Result<i32, ControlValueError>)
        ensures
            spec_err_view(r) == spec_scalar_i32(self@),
    {
        match self {
            ControlValue::Int32(v) => {
                if v.len() == 1 {
                    Ok(v[0])
                } else {
                    let found = v.len();
                    Err(ControlValueError::InvalidLength { expected: 1, found })
                }
            },
            _ => Err(
                ControlValueError::InvalidType { expected: TYPE_INT32, found: self.ty() },
            ),
        }
    }

    pub fn try_into_i32_vec(self) -> (r: Result<Vec<i32>, ControlValueError>)
        ensures
            match self@ {
                ValueView::Int32(s) => r matches Ok(v) && v@ == s,
                _ => (r matches Err(e) && e@ == ErrorView::InvalidType {
                    expected: TYPE_INT32,
                    found: spec_tag(self@),
                }),
            },
    {
        match self {
            ControlValue::Int32(v) => Ok(v),
            _ => Err(
                ControlValueError::InvalidType { expected: TYPE_INT32, found: self.ty() },
            ),
        }
    }

    pub fn from_i64(val: i64) -> (r: ControlValue)
        ensures
            r@ == ValueView::Int64(seq![val]),
    {
        let mut v: Vec<i64> = Vec::new();
        v.push(val);
        proof {
            assert(v@ =~= seq![val]);
        }
        ControlValue::Int64(v)
    }

    pub fn from_i64_vec(val: Vec<i64>) -> (r: ControlValue)
        ensures
            r@ == ValueView::Int64(val@),
    {
        ControlValue::Int64(val)
    }

    pub fn try_into_i64(self) -> (r: Result<i64, ControlValueError>)
        ensures
            spec_err_view(r) == spec_scalar_i64(self@),
    {
        match self {
            ControlValue::Int64(v) => {
                if v.len() == 1 {
                    Ok(v[0])
                } else {
                    let found = v.len();
                    Err(ControlValueError::InvalidLength { expected: 1, found })
                }
            },
            _ => Err(
                ControlValueError::InvalidType { expected: TYPE_INT64, found: self.ty() },
            ),
        }
    }

    pub fn try_into_i64_vec(self) -> (r: Result<Vec<i64>, ControlValueError>)
        ensures
            match self@ {
                ValueView::Int64(s) => r matches Ok(v) && v@ == s,
                _ => (r matches Err(e) && e@ == ErrorView::InvalidType {
                    expected: TYPE_INT64,
                    found: spec_tag(self@),
                }),
            },
    {
        match self {
            ControlValue::Int64(v) => Ok(v),
            _ => Err(
                ControlValueError::InvalidType { expected: TYPE_INT64, found: self.ty() },
            ),
        }
    }

    /// Wrap one 32-bit float given as its IEEE-754 bit pattern.
    pub fn from_float_bits(val: u32) -> (r: ControlValue)
        ensures
            r@ == ValueView::Float(seq![val]),
    {
        let mut v: Vec<u32> = Vec::new();
        v.push(val);
        proof {
            assert(v@ =~= seq![val]);
        }
        ControlValue::Float(v)
    }

    pub fn from_float_bits_vec(val: Vec<u32>) -> (r: ControlValue)
        ensures
            r@ == ValueView::Float(val@),
    {
        ControlValue::Float(val)
    }

    pub fn try_into_float_bits(self) -> (r: Result<u32, ControlValueError>)
        ensures
            spec_err_view(r) == spec_scalar_float_bits(self@),
    {
        match self {
            ControlValue::Float(v) => {
                if v.len() == 1 {
                    Ok(v[0])
                } else {
                    let found = v.len();
                    Err(ControlValueError::InvalidLength { expected: 1, found })
                }
            },
            _ => Err(
                ControlValueError::InvalidType { expected: TYPE_FLOAT, found: self.ty() },
            ),
        }
    }

    pub fn try_into_float_bits_vec(self) -> (r: Result<Vec<u32>, ControlValueError>)
        ensures
            match self@ {
                ValueView::Float(s) => r matches Ok(v) && v@ == s,
                _ => (r matches Err(e) && e@ == ErrorView::InvalidType {
                    expected: TYPE_FLOAT,
                    found: spec_tag(self@),
                }),
            },
    {
        match self {
            ControlValue::Float(v) => Ok(v),
            _ => Err(
                ControlValueError::InvalidType { expected: TYPE_FLOAT, found: self.ty() },
            ),
        }
    }

    pub fn from_string(val: String) -> (r: ControlValue)
        ensures
            r@ == ValueView::Str(val@),
    {
        ControlValue::String(val)
    }

    pub fn try_into_string(self) -> (r: Result<String, ControlValueError>)
        ensures
            match self@ {
                ValueView::Str(s) => r matches Ok(v) && v@ == s,
                _ => (r matches Err(e) && e@ == ErrorView::InvalidType {
                    expected: TYPE_STRING,
                    found: spec_tag(self@),
                }),
            },
    {
        match self {
            ControlValue::String(v) => Ok(v),
            _ => Err(
                ControlValueError::InvalidType { expected: TYPE_STRING, found: self.ty() },
            ),
        }
    }

    pub fn from_rectangle(val: Rectangle) -> (r: ControlValue)
        ensures
            r@ == ValueView::Rectangle(seq![val]),
    {
        let mut v: Vec<Rectangle> = Vec::new();
        v.push(val);
        proof {
            assert(v@ =~= seq![val]);
        }
        ControlValue::Rectangle(v)
    }

    pub fn from_rectangle_vec(val: Vec<Rectangle>) -> (r: ControlValue)
        ensures
            r@ == ValueView::Rectangle(val@),
    {
        ControlValue::Rectangle(val)
    }

    pub fn try_into_rectangle(self) -> (r: Result<Rectangle, ControlValueError>)
        ensures
            spec_err_view(r) == spec_scalar_rectangle(self@),
    {
        match self {
            ControlValue::Rectangle(v) => {
                if v.len() == 1 {
                    Ok(v[0])
                } else {
                    let found = v.len();
                    Err(ControlValueError::InvalidLength { expected: 1, found })
                }
            },
            _ => Err(
                ControlValueError::InvalidType { expected: TYPE_RECTANGLE, found: self.ty() },
            ),
        }
    }

    pub fn try_into_rectangle_vec(self) -> (r: Result<Vec<Rectangle>, ControlValueError>)
        ensures
            match self@ {
                ValueView::Rectangle(s) => r matches Ok(v) && v@ == s,
                _ => (r matches Err(e) && e@ == ErrorView::InvalidType {
                    expected: TYPE_RECTANGLE,
                    found: spec_tag(self@),
                }),
            },
    {
        match self {
            ControlValue::Rectangle(v) => Ok(v),
            _ => Err(
                ControlValueError::InvalidType { expected: TYPE_RECTANGLE, found: self.ty() },
            ),
        }
    }

    pub fn from_size(val: Size) -> (r: ControlValue)
        ensures
            r@ == ValueView::Size(seq![val]),
    {
        let mut v: Vec<Size> = Vec::new();
        v.push(val);
        proof {
            assert(v@ =~= seq![val]);
        }
        ControlValue::Size(v)
    }

    pub fn from_size_vec(val: Vec<Size>) -> (r: ControlValue)
        ensures
            r@ == ValueView::Size(val@),
    {
        ControlValue::Size(val)
    }

    pub fn try_into_size(self) -> (r: Result<Size, ControlValueError>)
        ensures
            spec_err_view(r) == spec_scalar_size(self@),
    {
        match self {
            ControlValue::Size(v) => {
                if v.len() == 1 {
                    Ok(v[0])
                } else {
                    let found = v.len();
                    Err(ControlValueError::InvalidLength { expected: 1, found })
                }
            },
            _ => Err(
                ControlValueError::InvalidType { expected: TYPE_SIZE, found: self.ty() },
            ),
        }
    }

    pub fn try_into_size_vec(self) -> (r: Result<Vec<Size>, ControlValueError>)
        ensures
            match self@ {
                ValueView::Size(s) => r matches Ok(v) && v@ == s,
                _ => (r matches Err(e) && e@ == ErrorView::InvalidType {
                    expected: TYPE_SIZE,
                    found: spec_tag(self@),
                }),
            },
    {
        match self {
            ControlValue::Size(v) => Ok(v),
            _ => Err(
                ControlValueError::InvalidType { expected: TYPE_SIZE, found: self.ty() },
            ),
        }
    }

    pub fn from_point(val: Point) -> (r: ControlValue)
        ensures
            r@ == ValueView::Point(seq![val]),
    {
        let mut v: Vec<Point> = Vec::new();
        v.push(val);
        proof {
            assert(v@ =~= seq![val]);
        }
        ControlValue::Point(v)
    }

    pub fn from_point_vec(val: Vec<Point>) -> (r: ControlValue)
        ensures
            r@ == ValueView::Point(val@),
    {
        ControlValue::Point(val)
    }

    pub fn try_into_point(self) -> (r: Result<Point, ControlValueError>)
        ensures
            spec_err_view(r) == spec_scalar_point(self@),
    {
        match self {
            ControlValue::Point(v) => {
                if v.len() == 1 {
                    Ok(v[0])
                } else {
                    let found = v.len();
                    Err(ControlValueError::InvalidLength { expected: 1, found })
                }
            },
            _ => Err(
                ControlValueError::InvalidType { expected: TYPE_POINT, found: self.ty() },
            ),
        }
    }

    pub fn try_into_point_vec(self) -> (r: Result<Vec<Point>, ControlValueError>)
        ensures
            match self@ {
                ValueView::Point(s) => r matches Ok(v) && v@ == s,
                _ => (r matches Err(e) && e@ == ErrorView::InvalidType {
                    expected: TYPE_POINT,
                    found: spec_tag(self@),
                }),
            },
    {
        match self {
            ControlValue::Point(v) => Ok(v),
            _ => Err(
                ControlValueError::InvalidType { expected: TYPE_POINT, found: self.ty() },
            ),
        }
    }
}

} // verus!
