//! The typed face of the control surface: the trait every generated
//! per-control type implements, the type-erased handle the dynamic registry
//! hands out, and the error a control lookup can raise.

use vstd::prelude::*;

use crate::control_value::{
    spec_num_elements, spec_tag, ControlValue, ControlValueError, ErrorView, ValueView,
};

verus! {

/// The error a mismatched single-element extraction raises: the wrong tag is
/// named first; with the right tag, the arity is.
pub open spec fn spec_scalar_reject(tag: u32, v: ValueView) -> ErrorView {
    if spec_tag(v) != tag {
        ErrorView::InvalidType { expected: tag, found: spec_tag(v) }
    } else {
        ErrorView::InvalidLength { expected: 1, found: spec_num_elements(v) as usize }
    }
}

/// The error a mismatched fixed-arity extraction raises.
pub open spec fn spec_fixed_reject(tag: u32, n: usize, v: ValueView) -> ErrorView {
    if spec_tag(v) != tag {
        ErrorView::InvalidType { expected: tag, found: spec_tag(v) }
    } else {
        ErrorView::InvalidLength { expected: n, found: spec_num_elements(v) as usize }
    }
}

/// The error a mismatched whole-sequence extraction raises.
pub open spec fn spec_vec_reject(tag: u32, v: ValueView) -> ErrorView {
    ErrorView::InvalidType { expected: tag, found: spec_tag(v) }
}

/// The error a closed-enumeration conversion raises: tag and arity mismatches
/// come first; a sound cell whose value names no variant keeps the whole
/// original value for diagnosis.
pub open spec fn spec_enum_reject(tag: u32, v: ValueView) -> ErrorView {
    if spec_tag(v) != tag {
        ErrorView::InvalidType { expected: tag, found: spec_tag(v) }
    } else if spec_num_elements(v) != 1 {
        ErrorView::InvalidLength { expected: 1, found: spec_num_elements(v) as usize }
    } else {
        ErrorView::UnknownVariant(v)
    }
}

/// One entry of the compiled control surface: a concrete generated type tied
/// to its catalogue discriminant, convertible from and into the runtime tagged
/// value. The conversion from a value succeeds exactly on the values the type
/// accepts, and converting back returns that value unchanged.
pub trait ControlEntry: Sized {
    /// The catalogue discriminant this type is bound to.
    spec fn spec_id() -> u32;

    /// The tagged values this type's conversion accepts.
    spec fn spec_accepts(v: ValueView) -> bool;

    /// The error raised for a value this type does not accept.
    spec fn spec_reject(v: ValueView) -> ErrorView;

    /// The tagged value this instance converts into.
    spec fn spec_value(self) -> ValueView;

    fn entry_id() -> (r: u32)
        ensures
            r == Self::spec_id(),
    ;

    fn try_from_value(value: ControlValue) -> (r: Result<Self, ControlValueError>)
        ensures
            Self::spec_accepts(value@) ==> (r matches Ok(c) && c.spec_value() == value@),
            !Self::spec_accepts(value@) ==> (r matches Err(e) && e@ == Self::spec_reject(value@)),
    ;

    fn into_value(self) -> (r: ControlValue)
        ensures
            r@ == self.spec_value(),
    ;
}

/// A settable control of the camera surface.
pub trait Control: ControlEntry {

}

/// A read-only property of the camera surface.
pub trait Property: ControlEntry {

}

/// A type-erased, self-describing handle: the numeric id of a control and its
/// value, after a round trip through the control's concrete generated type.
#[derive(Debug, Clone)]
pub struct DynHandle {
    pub id: u32,
    pub value: ControlValue,
}

impl DynHandle {
    /// The numeric id of the control this handle describes.
    pub fn id(&self) -> (r: u32)
        ensures
            r == self.id,
    {
        self.id
    }

    /// The control's value.
    pub fn value(&self) -> (r: ControlValue)
        ensures
            r@ == self.value@,
    {
        self.value.clone()
    }
}

/// Attempt one entry's typed conversion and erase the type on success. The
/// handle keeps the value unchanged: the typed round trip loses nothing.
pub fn dyn_entry<C: ControlEntry>(val: ControlValue) -> (r: Result<DynHandle, ControlValueError>)
    ensures
        C::spec_accepts(val@) ==> (r matches Ok(h) && h.id == C::spec_id() && h.value@ == val@),
        !C::spec_accepts(val@) ==> (r matches Err(e) && e@ == C::spec_reject(val@)),
{
    match C::try_from_value(val) {
        Ok(c) => Ok(DynHandle { id: C::entry_id(), value: c.into_value() }),
        Err(e) => Err(e),
    }
}

/// One entry of a raw collection as introspection shows it: a typed handle
/// where the id is known and its value converts, the raw pair otherwise.
#[derive(Debug, Clone)]
pub enum EntryDescription {
    Typed(DynHandle),
    Raw(u32, ControlValue),
}

/// The error a control lookup can raise: the id is not in the collection, or
/// its cell could not be read.
#[derive(Debug, Clone)]
pub enum ControlError {
    NotFound(u32),
    ValueError(ControlValueError),
}

impl From<ControlValueError> for ControlError {
    fn from(e: ControlValueError) -> (r: ControlError) {
        ControlError::ValueError(e)
    }
}

impl vstd::std_specs::convert::FromSpecImpl<ControlValueError> for ControlError {
    open spec fn obeys_from_spec() -> bool {
        true
    }

    open spec fn from_spec(e: ControlValueError) -> ControlError {
        ControlError::ValueError(e)
    }
}

} // verus!
