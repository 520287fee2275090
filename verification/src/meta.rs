//! The schema type mapper: the scalar kinds a control can declare, the
//! dimensionality a `size` entry can declare, and the parsed form of one
//! control definition.

use vstd::prelude::*;

use crate::ident::{spec_lower_seq, to_lowercase_ascii};
use crate::strutil::str_eq;
use crate::yaml::{YamlValue, YamlView};

verus! {

/// The scalar kind of a control's elements.
#[derive(Debug, Clone, Copy, PartialEq, Eq, Structural)]
pub enum ControlType {
    Bool,
    Byte,
    Int32,
    Int64,
    Float,
    String,
    Rectangle,
    Size,
    Point,
}

/// The scalar kind a schema type name denotes, alias-tolerant and
/// case-insensitive; `None` for a name no kind answers to.
pub open spec fn spec_map_type(s: Seq<char>) -> Option<ControlType> {
    let l = spec_lower_seq(s);
    if l == "bool"@ {
        Some(ControlType::Bool)
    } else if l == "byte"@ || l == "uint8"@ || l == "uint8_t"@ || l == "u8"@ {
        Some(ControlType::Byte)
    } else if l == "int32"@ || l == "int32_t"@ || l == "i32"@ {
        Some(ControlType::Int32)
    } else if l == "int64"@ || l == "int64_t"@ || l == "i64"@ {
        Some(ControlType::Int64)
    } else if l == "float"@ || l == "f32"@ {
        Some(ControlType::Float)
    } else if l == "string"@ {
        Some(ControlType::String)
    } else if l == "rectangle"@ {
        Some(ControlType::Rectangle)
    } else if l == "size"@ {
        Some(ControlType::Size)
    } else if l == "point"@ {
        Some(ControlType::Point)
    } else {
        None
    }
}

impl ControlType {
    /// Map a schema type name to its scalar kind. Aliases of one kind are
    /// accepted case-insensitively; an unrecognized name is an error naming it,
    /// and generation must not proceed past one.
    pub fn try_from(value: &str) -> (r: Result<ControlType, String>)
        ensures
            match spec_map_type(value@) {
                Some(t) => r == Ok::<ControlType, String>(t),
                None => (r matches Err(e) && e@ == "Unknown control type "@ + value@),
            },
    {
        let l = to_lowercase_ascii(value);
        let ls = l.as_str();
        if str_eq(ls, "bool") {
            Ok(ControlType::Bool)
        } else if str_eq(ls, "byte") || str_eq(ls, "uint8") || str_eq(ls, "uint8_t") || str_eq(
            ls,
            "u8",
        ) {
            Ok(ControlType::Byte)
        } else if str_eq(ls, "int32") || str_eq(ls, "int32_t") || str_eq(ls, "i32") {
            Ok(ControlType::Int32)
        } else if str_eq(ls, "int64") || str_eq(ls, "int64_t") || str_eq(ls, "i64") {
            Ok(ControlType::Int64)
        } else if str_eq(ls, "float") || str_eq(ls, "f32") {
            Ok(ControlType::Float)
        } else if str_eq(ls, "string") {
            Ok(ControlType::String)
        } else if str_eq(ls, "rectangle") {
            Ok(ControlType::Rectangle)
        } else if str_eq(ls, "size") {
            Ok(ControlType::Size)
        } else if str_eq(ls, "point") {
            Ok(ControlType::Point)
        } else {
            let mut msg = String::new();
            msg.append("Unknown control type ");
            msg.append(value);
            Err(msg)
        }
    }
}

/// One dimension of a control's `size` entry: a fixed positive extent, or the
/// variable-length marker.
#[derive(Debug, Clone, Copy, PartialEq, Eq, Structural)]
pub enum ControlSize {
    Dynamic,
    Fixed(usize),
}

/// The dimension a `size` list entry denotes: an integer in machine range is a
/// fixed extent, the string `n` is the variable-length marker, and anything
/// else is an error.
pub open spec fn spec_map_size(v: YamlView) -> Result<ControlSize, Seq<char>> {
    match v {
        YamlView::Int(i) => if 0 <= i <= usize::MAX {
            Ok(ControlSize::Fixed(i as usize))
        } else {
            Err("Invalid ControlSize integer"@)
        },
        YamlView::Str(s) => if s == "n"@ {
            Ok(ControlSize::Dynamic)
        } else {
            Err("Unknown ControlSize string "@ + s)
        },
        _ => Err("Unknown ControlSize type"@),
    }
}

impl ControlSize {
    /// Read one dimension out of a parsed `size` entry.
    pub fn try_from(value: &YamlValue) -> (r: Result<ControlSize, String>)
        ensures
            match spec_map_size(value@) {
                Ok(s) => r == Ok::<ControlSize, String>(s),
                Err(m) => (r matches Err(e) && e@ == m),
            },
    {
        match value {
            YamlValue::Int(i) => {
                let i = *i;
                if 0 <= i && (i as u64) <= (usize::MAX as u64) {
                    Ok(ControlSize::Fixed(i as usize))
                } else {
                    let mut msg = String::new();
                    msg.append("Invalid ControlSize integer");
                    Err(msg)
                }
            },
            YamlValue::Str(s) => {
                if str_eq(s.as_str(), "n") {
                    Ok(ControlSize::Dynamic)
                } else {
                    let mut msg = String::new();
                    msg.append("Unknown ControlSize string ");
                    msg.append(s.as_str());
                    Err(msg)
                }
            },
            _ => {
                let mut msg = String::new();
                msg.append("Unknown ControlSize type");
                Err(msg)
            },
        }
    }
}

/// One enumerator of a control that declares a closed enumeration: its schema
/// name (prefixed by the owning control's name), its wire value and its
/// description.
#[derive(Debug)]
pub struct ControlEnumValue {
    pub name: String,
    pub value: i32,
    pub description: String,
}

/// One parsed control definition: everything the code generator needs to emit
/// the control's catalogue entry, type and conversions.
#[derive(Debug)]
pub struct Control {
    pub name: String,
    pub vendor: String,
    pub typ: ControlType,
    pub description: String,
    pub size: Option<Vec<ControlSize>>,
    pub enumeration: Option<Vec<ControlEnumValue>>,
}

/// The mathematical value of one enumerator.
#[verifier::ext_equal]
pub struct EnumValueView {
    pub name: Seq<char>,
    pub value: i32,
    pub description: Seq<char>,
}

impl View for ControlEnumValue {
    type V = EnumValueView;

    open spec fn view(&self) -> EnumValueView {
        EnumValueView { name: self.name@, value: self.value, description: self.description@ }
    }
}

impl DeepView for ControlEnumValue {
    type V = EnumValueView;

    open spec fn deep_view(&self) -> EnumValueView {
        self@
    }
}

/// The mathematical value of one control definition.
#[verifier::ext_equal]
pub struct ControlView {
    pub name: Seq<char>,
    pub vendor: Seq<char>,
    pub typ: ControlType,
    pub description: Seq<char>,
    pub size: Option<Seq<ControlSize>>,
    pub enumeration: Option<Seq<EnumValueView>>,
}

impl View for Control {
    type V = ControlView;

    open spec fn view(&self) -> ControlView {
        ControlView {
            name: self.name@,
            vendor: self.vendor@,
            typ: self.typ,
            description: self.description@,
            size: match self.size {
                Option::None => None,
                Option::Some(v) => Some(v@),
            },
            enumeration: match self.enumeration {
                Option::None => None,
                Option::Some(v) => Some(v.deep_view()),
            },
        }
    }
}

impl DeepView for Control {
    type V = ControlView;

    open spec fn deep_view(&self) -> ControlView {
        self@
    }
}

/// Which of the two catalogue categories a document describes.
#[derive(Debug, Clone, Copy, PartialEq, Eq, Structural)]
pub enum ControlsType {
    Control,
    Property,
}

} // verus!
