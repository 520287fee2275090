//! The code generator: turns one snapshot's parsed control definitions into
//! the source text of a compiled catalogue — a discriminant enumeration, one
//! concrete type per control with its conversions, and the dynamic dispatcher
//! over them — with non-core vendors consistently feature-gated.

use vstd::prelude::*;

use crate::ident::{spec_transform_identifier, spec_upper_seq, to_c_type_name, to_uppercase_ascii};
use crate::meta::{Control, ControlEnumValue, ControlSize, ControlType, ControlView, ControlsType, EnumValueView};
use crate::strutil::{push_decimal, spec_decimal, spec_decimal_signed, spec_split_lines, spec_strip_prefix, spec_trim, split_lines, str_eq, string_push_char, strip_prefix_str, trim_str, push_decimal_i32};

verus! {

/// Why generation was aborted. A missing control would silently desynchronize
/// the catalogue from the runtime's constants, so nothing partial is emitted.
#[derive(Debug, Clone, Copy, PartialEq, Eq, Structural)]
pub enum GenError {
    /// An array-like declaration with zero dimensions.
    ZeroDimensions,
    /// A variable-length marker combined with any other dimension.
    DynamicMultiDimension,
    /// A fixed dimension of extent zero.
    ZeroExtent,
    /// The assembled source was rejected by the formatter.
    Unformattable,
}

/// The dimensionality a control declares: a plain scalar, a fixed-size
/// multi-dimensional array, or a variable-length one-dimensional sequence.
#[derive(Debug, Clone)]
pub enum DimensionalitySpec {
    Scalar,
    Fixed(Vec<usize>),
    Dynamic,
}

/// Whether every dimension is a fixed, positive extent.
pub open spec fn spec_all_fixed_positive(s: Seq<ControlSize>) -> bool {
    forall|i: int| 0 <= i < s.len() ==> ((#[trigger] s[i]) matches ControlSize::Fixed(n) && n > 0)
}

/// The fixed extents of a dimension list.
pub open spec fn spec_fixed_extents(s: Seq<ControlSize>) -> Seq<usize> {
    s.map_values(|c: ControlSize| c->Fixed_0)
}

/// Normalize a declared `size` into a dimensionality, enforcing the
/// invariants: a declaration with zero dimensions is invalid, the
/// variable-length marker may stand only as the sole dimension, and every
/// fixed extent is positive.
#[verifier::loop_isolation(false)]
pub fn map_dimensionality(size: &Option<Vec<ControlSize>>) -> (r: Result<
    DimensionalitySpec,
    GenError,
>)
    ensures
        match size {
            Option::None => (r matches Ok(d) && d is Scalar),
            Option::Some(v) => {
                if v@.len() == 0 {
                    r == Err::<DimensionalitySpec, GenError>(GenError::ZeroDimensions)
                } else if v@.len() == 1 && v@[0] is Dynamic {
                    (r matches Ok(d) && d is Dynamic)
                } else if v@.contains(ControlSize::Dynamic) {
                    r == Err::<DimensionalitySpec, GenError>(GenError::DynamicMultiDimension)
                } else if !spec_all_fixed_positive(v@) {
                    r == Err::<DimensionalitySpec, GenError>(GenError::ZeroExtent)
                } else {
                    (r matches Ok(d) && d matches DimensionalitySpec::Fixed(dims) && dims@
                        == spec_fixed_extents(v@))
                }
            },
        },
{
    match size {
        Option::None => Ok(DimensionalitySpec::Scalar),
        Option::Some(v) => {
            let n = v.len();
            if n == 0 {
                return Err(GenError::ZeroDimensions);
            }
            let mut has_dynamic = false;
            let mut i: usize = 0;
            while i < n
                invariant
                    n == v@.len(),
                    0 <= i <= n,
                    has_dynamic == exists|j: int| 0 <= j < i && v@[j] is Dynamic,
                decreases n - i,
            {
                if matches!(v[i], ControlSize::Dynamic) {
                    has_dynamic = true;
                }
                i += 1;
            }
            if has_dynamic {
                if n == 1 {
                    return Ok(DimensionalitySpec::Dynamic);
                }
                proof {
                    let j = choose|j: int| 0 <= j < n && v@[j] is Dynamic;
                    assert(v@.contains(ControlSize::Dynamic)) by {
                        assert(v@[j] == ControlSize::Dynamic);
                    }
                }
                return Err(GenError::DynamicMultiDimension);
            }
            proof {
                assert(!v@.contains(ControlSize::Dynamic)) by {
                    if v@.contains(ControlSize::Dynamic) {
                        let j = choose|j: int| 0 <= j < v@.len() && v@[j] == ControlSize::Dynamic;
                        assert(v@[j] is Dynamic);
                    }
                }
            }
            let mut dims: Vec<usize> = Vec::new();
            let mut i: usize = 0;
            while i < n
                invariant
                    n == v@.len(),
                    0 <= i <= n,
                    forall|j: int| 0 <= j < n ==> !(v@[j] is Dynamic),
                    forall|j: int| 0 <= j < i ==> ((#[trigger] v@[j]) matches ControlSize::Fixed(m) && m > 0),
                    dims@ == spec_fixed_extents(v@.take(i as int)),
                decreases n - i,
            {
                match v[i] {
                    ControlSize::Fixed(m) => {
                        if m == 0 {
                            proof {
                                assert(!v@.contains(ControlSize::Dynamic)) by {
                                    if v@.contains(ControlSize::Dynamic) {
                                        let j = choose|j: int|
                                            0 <= j < v@.len() && v@[j] == ControlSize::Dynamic;
                                        assert(v@[j] is Dynamic);
                                    }
                                }
                                assert(!spec_all_fixed_positive(v@)) by {
                                    assert((v@[i as int]) matches ControlSize::Fixed(z) && z == 0);
                                }
                            }
                            return Err(GenError::ZeroExtent);
                        }
                        dims.push(m);
                    },
                    ControlSize::Dynamic => {
                        proof {
                            assert(false);
                        }
                    },
                }
                proof {
                    assert(dims@ =~= spec_fixed_extents(v@.take(i + 1 as int)));
                }
                i += 1;
            }
            proof {
                assert(v@.take(n as int) =~= v@);
                assert(spec_all_fixed_positive(v@));
            }
            Ok(DimensionalitySpec::Fixed(dims))
        },
    }
}

/// The source name of each scalar kind's element type.
pub open spec fn spec_inner_type_name(t: ControlType) -> Seq<char> {
    match t {
        ControlType::Bool => "bool"@,
        ControlType::Byte => "u8"@,
        ControlType::Int32 => "i32"@,
        ControlType::Int64 => "i64"@,
        ControlType::Float => "f32"@,
        ControlType::String => "String"@,
        ControlType::Rectangle => "Rectangle"@,
        ControlType::Size => "Size"@,
        ControlType::Point => "Point"@,
    }
}

fn inner_type_name(t: ControlType) -> (r: &'static str)
    ensures
        r@ == spec_inner_type_name(t),
{
    match t {
        ControlType::Bool => "bool",
        ControlType::Byte => "u8",
        ControlType::Int32 => "i32",
        ControlType::Int64 => "i64",
        ControlType::Float => "f32",
        ControlType::String => "String",
        ControlType::Rectangle => "Rectangle",
        ControlType::Size => "Size",
        ControlType::Point => "Point",
    }
}

/// The element type wrapped in one array layer per fixed extent, first extent
/// innermost.
pub open spec fn spec_wrap_fixed(inner: Seq<char>, dims: Seq<usize>) -> Seq<char>
    decreases dims.len(),
{
    if dims.len() == 0 {
        inner
    } else {
        spec_wrap_fixed(
            "["@ + inner + "; "@ + spec_decimal(dims[0] as nat) + "]"@,
            dims.drop_first(),
        )
    }
}

/// The source type a control's values take, given its scalar kind and its
/// normalized dimensionality.
pub open spec fn spec_rust_type(t: ControlType, size: Option<Seq<ControlSize>>) -> Result<
    Seq<char>,
    GenError,
> {
    match size {
        Option::None => Ok(spec_inner_type_name(t)),
        Option::Some(v) => {
            if v.len() == 0 {
                Err(GenError::ZeroDimensions)
            } else if v.len() == 1 && v[0] is Dynamic {
                Ok("Vec<"@ + spec_inner_type_name(t) + ">"@)
            } else if v.contains(ControlSize::Dynamic) {
                Err(GenError::DynamicMultiDimension)
            } else if !spec_all_fixed_positive(v) {
                Err(GenError::ZeroExtent)
            } else {
                Ok(spec_wrap_fixed(spec_inner_type_name(t), spec_fixed_extents(v)))
            }
        },
    }
}

/// The view of an `Option<Vec<ControlSize>>` declaration.
pub open spec fn spec_size_view(size: &Option<Vec<ControlSize>>) -> Option<Seq<ControlSize>> {
    match size {
        Option::None => None,
        Option::Some(v) => Some(v@),
    }
}

/// Render the source type of a control's values: the element type for a
/// scalar, `Vec<..>` for a variable-length declaration, one nested array layer
/// per fixed extent otherwise. Any dimensionality violation aborts generation.
pub fn to_rust_type(t: ControlType, size: &Option<Vec<ControlSize>>) -> (r: Result<
    String,
    GenError,
>)
    ensures
        match spec_rust_type(t, spec_size_view(size)) {
            Ok(s) => (r matches Ok(out) && out@ == s),
            Err(e) => r == Err::<String, GenError>(e),
        },
{
    let dim = map_dimensionality(size)?;
    match dim {
        DimensionalitySpec::Scalar => {
            let mut out = String::new();
            out.append(inner_type_name(t));
            proof {
                assert(out@ =~= spec_inner_type_name(t));
            }
            Ok(out)
        },
        DimensionalitySpec::Dynamic => {
            let mut out = String::new();
            out.append("Vec<");
            out.append(inner_type_name(t));
            out.append(">");
            proof {
                assert(out@ =~= "Vec<"@ + spec_inner_type_name(t) + ">"@);
            }
            Ok(out)
        },
        DimensionalitySpec::Fixed(dims) => {
            let mut ty = String::new();
            ty.append(inner_type_name(t));
            let n = dims.len();
            let mut i: usize = 0;
            proof {
                assert(dims@.skip(0) =~= dims@);
            }
            while i < n
                invariant
                    n == dims@.len(),
                    0 <= i <= n,
                    spec_wrap_fixed(spec_inner_type_name(t), dims@) == spec_wrap_fixed(
                        ty@,
                        dims@.skip(i as int),
                    ),
                decreases n - i,
            {
                let mut wrapped = String::new();
                wrapped.append("[");
                wrapped.append(ty.as_str());
                wrapped.append("; ");
                push_decimal(&mut wrapped, dims[i]);
                wrapped.append("]");
                proof {
                    assert(wrapped@ =~= "["@ + ty@ + "; "@ + spec_decimal(dims@[i as int] as nat)
                        + "]"@);
                    assert(dims@.skip(i as int).drop_first() =~= dims@.skip(i + 1 as int));
                    assert(dims@.skip(i as int)[0] == dims@[i as int]);
                }
                ty = wrapped;
                i += 1;
            }
            proof {
                assert(dims@.skip(n as int) =~= Seq::<usize>::empty());
            }
            Ok(ty)
        },
    }
}

/// `n` spaces.
pub open spec fn spec_spaces(n: nat) -> Seq<char> {
    Seq::new(n, |i: int| ' ')
}

fn spaces(n: usize) -> (r: String)
    ensures
        r@ == spec_spaces(n as nat),
{
    let mut out = String::new();
    let mut i: usize = 0;
    while i < n
        invariant
            0 <= i <= n,
            out@ == spec_spaces(i as nat),
        decreases n - i,
    {
        string_push_char(&mut out, ' ');
        proof {
            assert(out@ =~= spec_spaces((i + 1) as nat));
        }
        i += 1;
    }
    out
}

/// Whether a description line opens or continues an indented text block.
pub open spec fn spec_block_line(line: Seq<char>) -> bool {
    line.len() >= 2 && line[0] == ' ' && line[1] == ' '
}

/// One doc-comment line per description line, each prefixed by the indent and
/// `/// `; runs of indented lines are fenced as literal text blocks.
pub open spec fn spec_fmt_lines(lines: Seq<Seq<char>>, ind: Seq<char>, in_text: bool) -> Seq<char>
    decreases lines.len(),
{
    if lines.len() == 0 {
        Seq::empty()
    } else {
        let line = lines[0];
        let opens = !in_text && spec_block_line(line);
        let closes = in_text && !spec_block_line(line);
        let fence = if opens {
            ind + "/// ```text\n"@
        } else if closes {
            ind + "/// ```\n"@
        } else {
            Seq::<char>::empty()
        };
        fence + ind + "/// "@ + line + "\n"@ + spec_fmt_lines(
            lines.drop_first(),
            ind,
            spec_block_line(line),
        )
    }
}

/// The doc comment of one description: trimmed, split into lines, each line
/// prefixed, indented text blocks fenced.
pub open spec fn spec_format_docstring(desc: Seq<char>, indent: nat) -> Seq<char> {
    spec_fmt_lines(spec_split_lines(spec_trim(desc)), spec_spaces(indent), false)
}

fn line_is_block(line: &String) -> (r: bool)
    ensures
        r == spec_block_line(line@),
{
    let ls = line.as_str();
    ls.unicode_len() >= 2 && ls.get_char(0) == ' ' && ls.get_char(1) == ' '
}

/// Render one description as a doc comment at the given indent.
pub fn format_docstring(desc: &str, indent: usize) -> (r: String)
    ensures
        r@ == spec_format_docstring(desc@, indent as nat),
{
    let trimmed = trim_str(desc);
    let lines = split_lines(trimmed);
    let ind = spaces(indent);
    let mut out = String::new();
    let mut in_text = false;
    let n = lines.len();
    let mut i: usize = 0;
    proof {
        assert(lines.deep_view().skip(0) =~~= lines.deep_view());
    }
    while i < n
        invariant
            n == lines.len(),
            0 <= i <= n,
            spec_fmt_lines(lines.deep_view(), ind@, false) == out@ + spec_fmt_lines(
                lines.deep_view().skip(i as int),
                ind@,
                in_text,
            ),
        decreases n - i,
    {
        let line = &lines[i];
        proof {
            assert(lines.deep_view().skip(i as int)[0] == lines.deep_view()[i as int]);
            assert(lines.deep_view()[i as int] == line@);
            assert(lines.deep_view().skip(i as int).drop_first() =~~= lines.deep_view().skip(
                i + 1 as int,
            ));
        }
        let ghost pre = out@;
        let ghost was_text = in_text;
        let block = line_is_block(line);
        if !in_text && block {
            out.append(ind.as_str());
            out.append("/// ```text\n");
            in_text = true;
        } else if in_text && !block {
            out.append(ind.as_str());
            out.append("/// ```\n");
            in_text = false;
        }
        out.append(ind.as_str());
        out.append("/// ");
        out.append(line.as_str());
        out.append("\n");
        proof {
            assert(out@ =~= pre + (out@.skip(pre.len() as int)));
            assert(spec_fmt_lines(lines.deep_view().skip(i as int), ind@, was_text) == (out@.skip(
                pre.len() as int,
            )) + spec_fmt_lines(lines.deep_view().skip(i + 1 as int), ind@, block)) by {
                assert(out@.skip(pre.len() as int) =~= if !was_text && spec_block_line(line@) {
                    ind@ + "/// ```text\n"@ + ind@ + "/// "@ + line@ + "\n"@
                } else if was_text && !spec_block_line(line@) {
                    ind@ + "/// ```\n"@ + ind@ + "/// "@ + line@ + "\n"@
                } else {
                    ind@ + "/// "@ + line@ + "\n"@
                });
            }
        }
        i += 1;
    }
    proof {
        assert(lines.deep_view().skip(n as int) =~~= Seq::<Seq<char>>::empty());
    }
    out
}

/// The feature gate one control's emitted items carry: nothing for the core
/// vendor, one `cfg` attribute line for any other vendor, so that non-default
/// vendor extensions can be compiled out.
pub open spec fn spec_gate(vendor: Seq<char>) -> Seq<char> {
    if vendor == "libcamera"@ {
        Seq::empty()
    } else {
        "#[cfg(feature=\"vendor_"@ + vendor + "\")]\n"@
    }
}

fn push_gate(out: &mut String, vendor: &str)
    ensures
        final(out)@ == old(out)@ + spec_gate(vendor@),
{
    let ghost pre = out@;
    if str_eq(vendor, "libcamera") {
    } else {
        out.append("#[cfg(feature=\"vendor_");
        out.append(vendor);
        out.append("\")]\n");
        proof {
            assert(out@ =~= pre + spec_gate(vendor@));
        }
    }
}

/// The name of the discriminant enumeration of a category.
pub open spec fn spec_id_type_name(ty: ControlsType) -> Seq<char> {
    match ty {
        ControlsType::Control => "ControlId"@,
        ControlsType::Property => "PropertyId"@,
    }
}

fn id_type_name(ty: ControlsType) -> (r: &'static str)
    ensures
        r@ == spec_id_type_name(ty),
{
    match ty {
        ControlsType::Control => "ControlId",
        ControlsType::Property => "PropertyId",
    }
}

/// The name of the marker trait of a category.
pub open spec fn spec_trait_name(ty: ControlsType) -> Seq<char> {
    match ty {
        ControlsType::Control => "Control"@,
        ControlsType::Property => "Property"@,
    }
}

fn trait_name(ty: ControlsType) -> (r: &'static str)
    ensures
        r@ == spec_trait_name(ty),
{
    match ty {
        ControlsType::Control => "Control",
        ControlsType::Property => "Property",
    }
}

/// The part of a catalogue entry that follows its gate: the control's name
/// bound to the upper-cased linkage constant its id resolves to.
pub open spec fn spec_catalogue_entry_rest(c: ControlView) -> Seq<char> {
    "    "@ + c.name + " = "@ + spec_upper_seq(spec_transform_identifier(c.name)) + ",\n"@
}

/// One catalogue entry: the control's description, its gate, and the entry.
pub open spec fn spec_catalogue_entry(c: ControlView) -> Seq<char> {
    spec_format_docstring(c.description, 4) + spec_gate(c.vendor) + spec_catalogue_entry_rest(c)
}

fn push_catalogue_entry(out: &mut String, c: &Control)
    ensures
        final(out)@ == old(out)@ + spec_catalogue_entry(c@),
{
    let ghost pre = out@;
    let doc = format_docstring(c.description.as_str(), 4);
    out.append(doc.as_str());
    push_gate(out, c.vendor.as_str());
    out.append("    ");
    out.append(c.name.as_str());
    out.append(" = ");
    let linkage = to_c_type_name(c.name.as_str());
    let upper = to_uppercase_ascii(linkage.as_str());
    out.append(upper.as_str());
    out.append(",\n");
    proof {
        assert(out@ =~= pre + spec_catalogue_entry(c@));
    }
}

/// All catalogue entries, in schema order.
pub open spec fn spec_catalogue_entries(cs: Seq<ControlView>) -> Seq<char>
    decreases cs.len(),
{
    if cs.len() == 0 {
        Seq::empty()
    } else {
        spec_catalogue_entry(cs[0]) + spec_catalogue_entries(cs.drop_first())
    }
}

/// The discriminant enumeration of one category.
pub open spec fn spec_id_enum(cs: Seq<ControlView>, ty: ControlsType) -> Seq<char> {
    "#[derive(Debug, Clone, Copy, Eq, PartialEq, TryFromPrimitive, IntoPrimitive)]\n#[repr(u32)]\npub enum "@
        + spec_id_type_name(ty) + " {\n"@ + spec_catalogue_entries(cs) + "}\n"@
}

fn push_id_enum(out: &mut String, controls: &Vec<Control>, ty: ControlsType)
    ensures
        final(out)@ == old(out)@ + spec_id_enum(controls.deep_view(), ty),
{
    let ghost pre = out@;
    out.append(
        "#[derive(Debug, Clone, Copy, Eq, PartialEq, TryFromPrimitive, IntoPrimitive)]\n#[repr(u32)]\npub enum ",
    );
    out.append(id_type_name(ty));
    out.append(" {\n");
    let ghost head = out@;
    let n = controls.len();
    let mut i: usize = 0;
    proof {
        assert(controls.deep_view().skip(0) =~~= controls.deep_view());
    }
    while i < n
        invariant
            n == controls.len(),
            0 <= i <= n,
            spec_catalogue_entries(controls.deep_view()) == out@.skip(head.len() as int)
                + spec_catalogue_entries(controls.deep_view().skip(i as int)),
            head.len() <= out@.len(),
            out@.take(head.len() as int) == head,
        decreases n - i,
    {
        let ghost prei = out@;
        push_catalogue_entry(out, &controls[i]);
        proof {
            assert(controls.deep_view().skip(i as int)[0] == controls.deep_view()[i as int]);
            assert(controls.deep_view()[i as int] == controls[i as int]@);
            assert(controls.deep_view().skip(i as int).drop_first() =~~= controls.deep_view().skip(
                i + 1 as int,
            ));
            assert(out@.skip(head.len() as int) =~= prei.skip(head.len() as int)
                + spec_catalogue_entry(controls.deep_view()[i as int]));
            assert(out@.take(head.len() as int) =~= head);
        }
        i += 1;
    }
    proof {
        assert(controls.deep_view().skip(n as int) =~~= Seq::<ControlView>::empty());
        assert(out@ =~= head + out@.skip(head.len() as int));
    }
    out.append("}\n");
    proof {
        assert(out@ =~= pre + spec_id_enum(controls.deep_view(), ty));
    }
}

/// One enumerator line: its description, then the variant (the owning
/// control's name prefix stripped) bound to its wire value.
pub open spec fn spec_variant_line(e: EnumValueView, owner: Seq<char>) -> Seq<char> {
    spec_format_docstring(e.description, 4) + "    "@ + spec_strip_prefix(e.name, owner) + " = "@
        + spec_decimal_signed(e.value as int) + ",\n"@
}

fn push_variant_line(out: &mut String, e: &ControlEnumValue, owner: &str)
    ensures
        final(out)@ == old(out)@ + spec_variant_line(e@, owner@),
{
    let ghost pre = out@;
    let doc = format_docstring(e.description.as_str(), 4);
    out.append(doc.as_str());
    out.append("    ");
    let variant = strip_prefix_str(e.name.as_str(), owner);
    out.append(variant.as_str());
    out.append(" = ");
    push_decimal_i32(out, e.value);
    out.append(",\n");
    proof {
        assert(out@ =~= pre + spec_variant_line(e@, owner@));
    }
}

/// All enumerator lines, in schema order.
pub open spec fn spec_variant_lines(en: Seq<EnumValueView>, owner: Seq<char>) -> Seq<char>
    decreases en.len(),
{
    if en.len() == 0 {
        Seq::empty()
    } else {
        spec_variant_line(en[0], owner) + spec_variant_lines(en.drop_first(), owner)
    }
}

fn push_variant_lines(out: &mut String, en: &Vec<ControlEnumValue>, owner: &str)
    ensures
        final(out)@ == old(out)@ + spec_variant_lines(en.deep_view(), owner@),
{
    let ghost pre = out@;
    let n = en.len();
    let mut i: usize = 0;
    proof {
        assert(en.deep_view().skip(0) =~= en.deep_view());
    }
    while i < n
        invariant
            n == en.len(),
            0 <= i <= n,
            spec_variant_lines(en.deep_view(), owner@) == out@.skip(pre.len() as int)
                + spec_variant_lines(en.deep_view().skip(i as int), owner@),
            pre.len() <= out@.len(),
            out@.take(pre.len() as int) == pre,
        decreases n - i,
    {
        let ghost prei = out@;
        push_variant_line(out, &en[i], owner);
        proof {
            assert(en.deep_view().skip(i as int)[0] == en.deep_view()[i as int]);
            assert(en.deep_view()[i as int] == en[i as int]@);
            assert(en.deep_view().skip(i as int).drop_first() =~= en.deep_view().skip(
                i + 1 as int,
            ));
            assert(out@.skip(pre.len() as int) =~= prei.skip(pre.len() as int)
                + spec_variant_line(en.deep_view()[i as int], owner@));
            assert(out@.take(pre.len() as int) =~= pre);
        }
        i += 1;
    }
    proof {
        assert(en.deep_view().skip(n as int) =~= Seq::<EnumValueView>::empty());
        assert(out@ =~= pre + out@.skip(pre.len() as int));
    }
}

/// The rest of a closed enumeration's block, after its leading gate: the
/// enumeration itself, the gated fallible conversion from the tagged value
/// (unknown wire values keep the whole original value in the error), and the
/// gated conversion back.
pub open spec fn spec_enum_block_rest(c: ControlView, tytext: Seq<char>) -> Seq<char> {
    "#[derive(Debug, Clone, Copy, Eq, PartialEq, TryFromPrimitive, IntoPrimitive)]\n#[repr("@
        + tytext + ")]\npub enum "@ + c.name + " {\n"@ + spec_variant_lines(
        c.enumeration->Some_0,
        c.name,
    ) + "}\n"@ + spec_gate(c.vendor)
        + "impl TryFrom<ControlValue> for "@ + c.name
        + " {\n    type Error = ControlValueError;\n    fn try_from(value: ControlValue) -> Result<Self, Self::Error> {\n        Self::try_from("@
        + tytext
        + "::try_from(value.clone())?).map_err(|_| ControlValueError::UnknownVariant(value))\n    }\n}\n"@
        + spec_gate(c.vendor) + "impl From<"@ + c.name + "> for ControlValue {\n    fn from(val: "@
        + c.name + ") -> Self {\n        ControlValue::from(<"@ + tytext
        + ">::from(val))\n    }\n}\n"@
}

fn push_enum_block_rest(out: &mut String, c: &Control, tytext: &str, en: &Vec<ControlEnumValue>)
    requires
        c@.enumeration matches Some(e) && e == en.deep_view(),
    ensures
        final(out)@ == old(out)@ + spec_enum_block_rest(c@, tytext@),
{
    let ghost pre = out@;
    out.append(
        "#[derive(Debug, Clone, Copy, Eq, PartialEq, TryFromPrimitive, IntoPrimitive)]\n#[repr(",
    );
    out.append(tytext);
    out.append(")]\npub enum ");
    out.append(c.name.as_str());
    out.append(" {\n");
    push_variant_lines(out, en, c.name.as_str());
    out.append("}\n");
    push_gate(out, c.vendor.as_str());
    out.append("impl TryFrom<ControlValue> for ");
    out.append(c.name.as_str());
    out.append(
        " {\n    type Error = ControlValueError;\n    fn try_from(value: ControlValue) -> Result<Self, Self::Error> {\n        Self::try_from(",
    );
    out.append(tytext);
    out.append(
        "::try_from(value.clone())?).map_err(|_| ControlValueError::UnknownVariant(value))\n    }\n}\n",
    );
    push_gate(out, c.vendor.as_str());
    out.append("impl From<");
    out.append(c.name.as_str());
    out.append("> for ControlValue {\n    fn from(val: ");
    out.append(c.name.as_str());
    out.append(") -> Self {\n        ControlValue::from(<");
    out.append(tytext);
    out.append(">::from(val))\n    }\n}\n");
    proof {
        assert(out@ =~= pre + spec_enum_block_rest(c@, tytext@));
    }
}

/// The rest of a wrapper type's block, after its leading gate: the single-field
/// wrapper, its gated deref impls, and the gated conversions from and into the
/// tagged value.
pub open spec fn spec_wrapper_block_rest(c: ControlView, tytext: Seq<char>) -> Seq<char> {
    "#[derive(Debug, Clone)]\npub struct "@ + c.name + "(pub "@ + tytext + ");\n"@ + spec_gate(
        c.vendor,
    ) + "impl Deref for "@ + c.name + " {\n    type Target = "@ + tytext
        + ";\n    fn deref(&self) -> &Self::Target {\n        &self.0\n    }\n}\n"@ + spec_gate(
        c.vendor,
    ) + "impl DerefMut for "@ + c.name
        + " {\n    fn deref_mut(&mut self) -> &mut Self::Target {\n        &mut self.0\n    }\n}\n"@
        + spec_gate(c.vendor) + "impl TryFrom<ControlValue> for "@ + c.name
        + " {\n    type Error = ControlValueError;\n    fn try_from(value: ControlValue) -> Result<Self, Self::Error> {\n        Ok(Self(<"@
        + tytext + ">::try_from(value)?))\n    }\n}\n"@ + spec_gate(c.vendor) + "impl From<"@
        + c.name + "> for ControlValue {\n    fn from(val: "@ + c.name
        + ") -> Self {\n        ControlValue::from(val.0)\n    }\n}\n"@
}

fn push_wrapper_block_rest(out: &mut String, c: &Control, tytext: &str)
    ensures
        final(out)@ == old(out)@ + spec_wrapper_block_rest(c@, tytext@),
{
    let ghost pre = out@;
    out.append("#[derive(Debug, Clone)]\npub struct ");
    out.append(c.name.as_str());
    out.append("(pub ");
    out.append(tytext);
    out.append(");\n");
    push_gate(out, c.vendor.as_str());
    out.append("impl Deref for ");
    out.append(c.name.as_str());
    out.append(" {\n    type Target = ");
    out.append(tytext);
    out.append(";\n    fn deref(&self) -> &Self::Target {\n        &self.0\n    }\n}\n");
    push_gate(out, c.vendor.as_str());
    out.append("impl DerefMut for ");
    out.append(c.name.as_str());
    out.append(
        " {\n    fn deref_mut(&mut self) -> &mut Self::Target {\n        &mut self.0\n    }\n}\n",
    );
    push_gate(out, c.vendor.as_str());
    out.append("impl TryFrom<ControlValue> for ");
    out.append(c.name.as_str());
    out.append(
        " {\n    type Error = ControlValueError;\n    fn try_from(value: ControlValue) -> Result<Self, Self::Error> {\n        Ok(Self(<",
    );
    out.append(tytext);
    out.append(">::try_from(value)?))\n    }\n}\n");
    push_gate(out, c.vendor.as_str());
    out.append("impl From<");
    out.append(c.name.as_str());
    out.append("> for ControlValue {\n    fn from(val: ");
    out.append(c.name.as_str());
    out.append(") -> Self {\n        ControlValue::from(val.0)\n    }\n}\n");
    proof {
        assert(out@ =~= pre + spec_wrapper_block_rest(c@, tytext@));
    }
}

/// The gated binding of a generated type to its discriminant, and its gated
/// category marker impl.
pub open spec fn spec_entry_impls(c: ControlView, ty: ControlsType) -> Seq<char> {
    spec_gate(c.vendor) + "impl ControlEntry for "@ + c.name + " {\n    const ID: u32 = "@
        + spec_id_type_name(ty) + "::"@ + c.name + " as _;\n}\n"@ + spec_gate(c.vendor) + "impl "@
        + spec_trait_name(ty) + " for "@ + c.name + " {}\n"@
}

fn push_entry_impls(out: &mut String, c: &Control, ty: ControlsType)
    ensures
        final(out)@ == old(out)@ + spec_entry_impls(c@, ty),
{
    let ghost pre = out@;
    push_gate(out, c.vendor.as_str());
    out.append("impl ControlEntry for ");
    out.append(c.name.as_str());
    out.append(" {\n    const ID: u32 = ");
    out.append(id_type_name(ty));
    out.append("::");
    out.append(c.name.as_str());
    out.append(" as _;\n}\n");
    push_gate(out, c.vendor.as_str());
    out.append("impl ");
    out.append(trait_name(ty));
    out.append(" for ");
    out.append(c.name.as_str());
    out.append(" {}\n");
    proof {
        assert(out@ =~= pre + spec_entry_impls(c@, ty));
    }
}

/// One control's whole emitted block: its description, its gate, then the
/// enumeration or wrapper with conversions, then the discriminant binding and
/// category marker. A dimensionality violation aborts with its error.
pub open spec fn spec_type_block(c: ControlView, ty: ControlsType) -> Result<Seq<char>, GenError> {
    match spec_rust_type(c.typ, c.size) {
        Err(e) => Err(e),
        Ok(tytext) => Ok(
            spec_format_docstring(c.description, 0) + spec_gate(c.vendor) + (match c.enumeration {
                Some(_) => spec_enum_block_rest(c, tytext),
                None => spec_wrapper_block_rest(c, tytext),
            }) + spec_entry_impls(c, ty),
        ),
    }
}

#[verifier::rlimit(50)]
fn push_type_block(out: &mut String, c: &Control, ty: ControlsType) -> (r: Result<(), GenError>)
    ensures
        match spec_type_block(c@, ty) {
            Ok(t) => r is Ok && final(out)@ == old(out)@ + t,
            Err(e) => r == Err::<(), GenError>(e) && final(out)@ == old(out)@,
        },
{
    let ghost pre = out@;
    let tytext = match to_rust_type(c.typ, &c.size) {
        Ok(t) => t,
        Err(e) => {
            return Err(e);
        },
    };
    let doc = format_docstring(c.description.as_str(), 0);
    out.append(doc.as_str());
    push_gate(out, c.vendor.as_str());
    match &c.enumeration {
        Option::Some(en) => {
            push_enum_block_rest(out, c, tytext.as_str(), en);
        },
        Option::None => {
            push_wrapper_block_rest(out, c, tytext.as_str());
        },
    }
    push_entry_impls(out, c, ty);
    proof {
        assert(out@ =~= pre + (spec_type_block(c@, ty)->Ok_0));
    }
    Ok(())
}

/// All control blocks in schema order; the first dimensionality violation
/// aborts the whole generation.
pub open spec fn spec_type_blocks(cs: Seq<ControlView>, ty: ControlsType) -> Result<
    Seq<char>,
    GenError,
>
    decreases cs.len(),
{
    if cs.len() == 0 {
        Ok(Seq::empty())
    } else {
        match spec_type_block(cs[0], ty) {
            Err(e) => Err(e),
            Ok(t) => match spec_type_blocks(cs.drop_first(), ty) {
                Err(e) => Err(e),
                Ok(rest) => Ok(t + rest),
            },
        }
    }
}

/// One dispatcher arm: under the control's gate, its discriminant routed to
/// the control's typed conversion.
pub open spec fn spec_dyn_arm_rest(c: ControlView, ty: ControlsType) -> Seq<char> {
    spec_id_type_name(ty) + "::"@ + c.name + " => Ok(Box::new("@ + c.name
        + "::try_from(val)?)),\n"@
}

pub open spec fn spec_dyn_arm(c: ControlView, ty: ControlsType) -> Seq<char> {
    spec_gate(c.vendor) + spec_dyn_arm_rest(c, ty)
}

fn push_dyn_arm(out: &mut String, c: &Control, ty: ControlsType)
    ensures
        final(out)@ == old(out)@ + spec_dyn_arm(c@, ty),
{
    let ghost pre = out@;
    push_gate(out, c.vendor.as_str());
    out.append(id_type_name(ty));
    out.append("::");
    out.append(c.name.as_str());
    out.append(" => Ok(Box::new(");
    out.append(c.name.as_str());
    out.append("::try_from(val)?)),\n");
    proof {
        assert(out@ =~= pre + spec_dyn_arm(c@, ty));
    }
}

/// All dispatcher arms, in schema order.
pub open spec fn spec_dyn_arms(cs: Seq<ControlView>, ty: ControlsType) -> Seq<char>
    decreases cs.len(),
{
    if cs.len() == 0 {
        Seq::empty()
    } else {
        spec_dyn_arm(cs[0], ty) + spec_dyn_arms(cs.drop_first(), ty)
    }
}

/// The dynamic registry of the emitted catalogue.
pub open spec fn spec_make_dyn_fn(cs: Seq<ControlView>, ty: ControlsType) -> Seq<char> {
    "pub fn make_dyn(id: "@ + spec_id_type_name(ty)
        + ", val: ControlValue) -> Result<Box<dyn DynControlEntry>, ControlValueError> {\n    match id {\n"@
        + spec_dyn_arms(cs, ty) + "    }\n}\n"@
}

/// The whole emitted source of one category: the discriminant enumeration,
/// every control's block, and the dispatcher.
pub open spec fn spec_generate_controls(cs: Seq<ControlView>, ty: ControlsType) -> Result<
    Seq<char>,
    GenError,
> {
    match spec_type_blocks(cs, ty) {
        Err(e) => Err(e),
        Ok(blocks) => Ok(spec_id_enum(cs, ty) + blocks + spec_make_dyn_fn(cs, ty)),
    }
}

/// Emit the source of one category's compiled catalogue, control by control in
/// schema order. Any dimensionality violation aborts generation: a partial
/// catalogue would silently desynchronize from the runtime's constants.
#[verifier::rlimit(100)]
pub fn generate_controls(controls: &Vec<Control>, ty: ControlsType) -> (r: Result<
    String,
    GenError,
>)
    ensures
        match spec_generate_controls(controls.deep_view(), ty) {
            Ok(s) => (r matches Ok(out) && out@ == s),
            Err(e) => r == Err::<String, GenError>(e),
        },
{
    let ghost cs = controls.deep_view();
    let mut out = String::new();
    push_id_enum(&mut out, controls, ty);
    let ghost head = out@;
    let mut dyn_arms = String::new();
    let n = controls.len();
    let mut i: usize = 0;
    proof {
        assert(cs.skip(0) =~~= cs);
    }
    while i < n
        invariant
            n == controls.len(),
            cs == controls.deep_view(),
            head == spec_id_enum(cs, ty),
            0 <= i <= n,
            head.len() <= out@.len(),
            out@.take(head.len() as int) == head,
            spec_type_blocks(cs, ty) == (match spec_type_blocks(cs.skip(i as int), ty) {
                Ok(t) => Ok::<Seq<char>, GenError>(out@.skip(head.len() as int) + t),
                Err(e) => Err::<Seq<char>, GenError>(e),
            }),
            spec_dyn_arms(cs, ty) == dyn_arms@ + spec_dyn_arms(cs.skip(i as int), ty),
        decreases n - i,
    {
        proof {
            assert(cs.skip(i as int)[0] == cs[i as int]);
            assert(cs[i as int] == controls[i as int]@);
            assert(cs.skip(i as int).drop_first() =~~= cs.skip(i + 1 as int));
        }
        let ghost prei = out@;
        match push_type_block(&mut out, &controls[i], ty) {
            Ok(_) => {},
            Err(e) => {
                return Err(e);
            },
        }
        push_dyn_arm(&mut dyn_arms, &controls[i], ty);
        proof {
            assert(out@.skip(head.len() as int) =~= prei.skip(head.len() as int)
                + (spec_type_block(cs[i as int], ty)->Ok_0));
            assert(out@.take(head.len() as int) =~= head);
            match spec_type_blocks(cs.skip(i + 1 as int), ty) {
                Ok(rest) => {
                    assert(prei.skip(head.len() as int) + ((spec_type_block(cs[i as int], ty)->Ok_0)
                        + rest) =~= out@.skip(head.len() as int) + rest);
                },
                Err(_) => {},
            }
        }
        i += 1;
    }
    proof {
        assert(cs.skip(n as int) =~~= Seq::<ControlView>::empty());
        assert(spec_dyn_arms(cs, ty) =~= dyn_arms@);
        assert(out@ =~= head + out@.skip(head.len() as int));
    }
    let ghost blocks_text = out@.skip(head.len() as int);
    out.append("pub fn make_dyn(id: ");
    out.append(id_type_name(ty));
    out.append(
        ", val: ControlValue) -> Result<Box<dyn DynControlEntry>, ControlValueError> {\n    match id {\n",
    );
    out.append(dyn_arms.as_str());
    out.append("    }\n}\n");
    proof {
        assert(out@ =~= spec_id_enum(cs, ty) + blocks_text + spec_make_dyn_fn(cs, ty));
    }
    Ok(out)
}

/// The fixed header of an emitted file: the imports the generated items rely
/// on.
pub open spec fn spec_file_header() -> Seq<char> {
    "use std::ops::{Deref, DerefMut};\nuse num_enum::{IntoPrimitive, TryFromPrimitive};\n#[allow(unused_imports)]\nuse crate::control::{Control, Property, ControlEntry, DynControlEntry};\nuse crate::control_value::{ControlValue, ControlValueError};\n#[allow(unused_imports)]\nuse crate::geometry::{Rectangle, Size};\n"@
}

fn file_header() -> (r: &'static str)
    ensures
        r@ == spec_file_header(),
{
    "use std::ops::{Deref, DerefMut};\nuse num_enum::{IntoPrimitive, TryFromPrimitive};\n#[allow(unused_imports)]\nuse crate::control::{Control, Property, ControlEntry, DynControlEntry};\nuse crate::control_value::{ControlValue, ControlValueError};\n#[allow(unused_imports)]\nuse crate::geometry::{Rectangle, Size};\n"
}

/// What the outside formatter makes of a source text: the normalized text, or
/// nothing when the text does not parse as a source file. A pure function of
/// the text.
pub uninterp spec fn spec_pretty(source: Seq<char>) -> Option<Seq<char>>;

/// Relies on syn's `parse_file` and prettyplease's `unparse`: whether a source
/// text parses, and the formatted text it prints back as, depend on the text
/// alone.
#[verifier::external_body]
fn pretty_format(source: &str) -> (r: Option<String>)
    ensures
        match r {
            Some(t) => spec_pretty(source@) == Some(t@),
            None => spec_pretty(source@) is None,
        },
{
    syn::parse_file(source).ok().map(|file| prettyplease::unparse(&file))
}

/// The whole formatted artifact of one category.
pub open spec fn spec_generate_controls_file(cs: Seq<ControlView>, ty: ControlsType) -> Result<
    Seq<char>,
    GenError,
> {
    match spec_generate_controls(cs, ty) {
        Err(e) => Err(e),
        Ok(body) => match spec_pretty(spec_file_header() + body) {
            Some(t) => Ok(t),
            None => Err(GenError::Unformattable),
        },
    }
}

/// Emit one category's whole artifact: the fixed import header, the generated
/// catalogue, normalized by the source formatter.
pub fn generate_controls_file(controls: &Vec<Control>, ty: ControlsType) -> (r: Result<
    String,
    GenError,
>)
    ensures
        match spec_generate_controls_file(controls.deep_view(), ty) {
            Ok(s) => (r matches Ok(out) && out@ == s),
            Err(e) => r == Err::<String, GenError>(e),
        },
{
    let body = match generate_controls(controls, ty) {
        Ok(b) => b,
        Err(e) => {
            return Err(e);
        },
    };
    let mut src = String::new();
    src.append(file_header());
    src.append(body.as_str());
    match pretty_format(src.as_str()) {
        Some(t) => Ok(t),
        None => Err(GenError::Unformattable),
    }
}

/// Vendor gating is consistent: one control's catalogue entry, its emitted
/// type block and its dispatcher arm all carry one and the same feature gate,
/// which stands right after the doc comment of the entry or of the block, and
/// which is empty for the core vendor alone. A control is never partially
/// gated.
pub proof fn lemma_vendor_gating_consistent(c: ControlView, ty: ControlsType)
    ensures
        (spec_gate(c.vendor) == Seq::<char>::empty()) <==> c.vendor == "libcamera"@,
        spec_catalogue_entry(c) == spec_format_docstring(c.description, 4) + spec_gate(c.vendor)
            + spec_catalogue_entry_rest(c),
        spec_type_block(c, ty) matches Ok(tb) ==> tb == spec_format_docstring(c.description, 0)
            + spec_gate(c.vendor) + (match c.enumeration {
            Some(_) => spec_enum_block_rest(c, spec_rust_type(c.typ, c.size)->Ok_0),
            None => spec_wrapper_block_rest(c, spec_rust_type(c.typ, c.size)->Ok_0),
        }) + spec_entry_impls(c, ty),
        spec_dyn_arm(c, ty) == spec_gate(c.vendor) + spec_dyn_arm_rest(c, ty),
{
    if c.vendor == "libcamera"@ {
    } else {
        reveal_strlit("#[cfg(feature=\"vendor_");
        assert(spec_gate(c.vendor).len() > 0);
    }
}

} // verus!
