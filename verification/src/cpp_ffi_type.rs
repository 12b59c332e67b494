//! Reshaping a native type so that it can cross the foreign-function
//! boundary.
use vstd::prelude::*;
use crate::cpp_type::{CppType, CppTypeBase, CppTypeBaseView, CppTypeIndirection, CppTypeView};
use crate::errors::BridgeError;

verus! {

/// What was done to a native type to make it fit the boundary.
#[derive(Debug, Clone, Copy, PartialEq, Eq, Structural, Hash)]
pub enum CppToFfiTypeConversion {
    /// Nothing: the type crosses as it is.
    NoConversion,
    /// A class passed by value crosses as a pointer to it.
    ValueToPointer,
    /// A reference crosses as a pointer.
    ReferenceToPointer,
    /// A set of bit flags crosses as its integer.
    QFlagsToUInt,
}

/// A native type in the shape in which it crosses the boundary, with what
/// was done to get there.
#[derive(Debug, PartialEq, Eq, Hash)]
pub struct CppFfiType {
    /// The reshaped type.
    pub ffi_type: CppType,
    /// How the reshaped type came from the original one.
    pub conversion: CppToFfiTypeConversion,
}

/// The mathematical value of a [`CppFfiType`].
pub struct CppFfiTypeView {
    pub ffi_type: CppTypeView,
    pub conversion: CppToFfiTypeConversion,
}

impl View for CppFfiType {
    type V = CppFfiTypeView;

    open spec fn view(&self) -> CppFfiTypeView {
        CppFfiTypeView { ffi_type: self.ffi_type@, conversion: self.conversion }
    }
}

/// Whether a parameter of a template occurs in `t`: as its base type, or in
/// one of its template arguments, at any depth.
pub open spec fn has_template_parameter(t: CppTypeView) -> bool
    decreases t,
{
    match t.base {
        CppTypeBaseView::TemplateParameter { .. } => true,
        CppTypeBaseView::Class { template_arguments: Some(arguments), .. } => exists|i: int|
            0 <= i < arguments.len() && has_template_parameter(#[trigger] arguments[i]),
        _ => false,
    }
}

/// The type `t` with the indirection `indirection`.
pub open spec fn with_indirection(t: CppTypeView, indirection: CppTypeIndirection) -> CppTypeView {
    CppTypeView { is_const: t.is_const, indirection, base: t.base }
}

/// The shape in which the native type `t` crosses the boundary.
///
/// A type in which a template parameter occurs stands for no type yet, and a
/// reference to `void` is no type: both are unsupported. Of the others, a
/// reference becomes a pointer; a class passed by value becomes a pointer to
/// it; bit flags passed by value become their integer; everything else
/// crosses unchanged.
pub open spec fn to_cpp_ffi_type(t: CppTypeView) -> Result<CppFfiTypeView, BridgeError> {
    if has_template_parameter(t) {
        Err(BridgeError::UnsupportedType)
    } else {
        match t.indirection {
            CppTypeIndirection::Ref => {
                if t.base is Void {
                    Err(BridgeError::UnsupportedType)
                } else {
                    Ok(
                        CppFfiTypeView {
                            ffi_type: with_indirection(t, CppTypeIndirection::Ptr),
                            conversion: CppToFfiTypeConversion::ReferenceToPointer,
                        },
                    )
                }
            },
            CppTypeIndirection::NoIndirection => match t.base {
                CppTypeBaseView::Class { .. } => Ok(
                    CppFfiTypeView {
                        ffi_type: with_indirection(t, CppTypeIndirection::Ptr),
                        conversion: CppToFfiTypeConversion::ValueToPointer,
                    },
                ),
                CppTypeBaseView::Flags { integer, .. } => Ok(
                    CppFfiTypeView {
                        ffi_type: CppTypeView {
                            is_const: t.is_const,
                            indirection: CppTypeIndirection::NoIndirection,
                            base: CppTypeBaseView::Scalar { name: integer },
                        },
                        conversion: CppToFfiTypeConversion::QFlagsToUInt,
                    },
                ),
                _ => Ok(
                    CppFfiTypeView {
                        ffi_type: t,
                        conversion: CppToFfiTypeConversion::NoConversion,
                    },
                ),
            },
            _ => Ok(
                CppFfiTypeView { ffi_type: t, conversion: CppToFfiTypeConversion::NoConversion },
            ),
        }
    }
}

impl CppType {
    /// Whether a parameter of a template occurs in the type.
    pub fn has_template_parameter(&self) -> (found: bool)
        ensures
            found == has_template_parameter(self@),
        decreases self,
    {
        match &self.base {
            CppTypeBase::TemplateParameter { .. } => true,
            CppTypeBase::Class { template_arguments: Some(arguments), .. } => {
                let ghost views = crate::cpp_type::cpp_type_views(arguments@);
                let mut i: usize = 0;
                while i < arguments.len()
                    invariant
                        i <= arguments@.len(),
                        views == crate::cpp_type::cpp_type_views(arguments@),
                        self@.base matches CppTypeBaseView::Class {
                            template_arguments: Some(all),
                            ..
                        } && all == views,
                        forall|k: int| 0 <= k < i ==> !has_template_parameter(#[trigger] views[k]),
                        forall|k: int|
                            0 <= k < arguments@.len() ==> decreases_to!(self => arguments@[k]),
                    decreases arguments@.len() - i,
                {
                    if arguments[i].has_template_parameter() {
                        proof {
                            assert(has_template_parameter(views[i as int]));
                        }
                        return true;
                    }
                    i = i + 1;
                }
                false
            },
            _ => false,
        }
    }

    /// The shape in which the type crosses the boundary, or `UnsupportedType`
    /// where it cannot cross: where a template parameter occurs in it, and for
    /// a reference to `void`.
    pub fn to_cpp_ffi_type(&self) -> (reshaped: Result<CppFfiType, BridgeError>)
        ensures
            match reshaped {
                Ok(ffi) => to_cpp_ffi_type(self@) == Ok::<CppFfiTypeView, BridgeError>(ffi@),
                Err(e) => to_cpp_ffi_type(self@) == Err::<CppFfiTypeView, BridgeError>(e),
            },
    {
        if self.has_template_parameter() {
            return Err(BridgeError::UnsupportedType);
        }
        match self.indirection {
            CppTypeIndirection::Ref => {
                match &self.base {
                    CppTypeBase::Void => Err(BridgeError::UnsupportedType),
                    base => Ok(
                        CppFfiType {
                            ffi_type: CppType {
                                is_const: self.is_const,
                                indirection: CppTypeIndirection::Ptr,
                                base: base.clone(),
                            },
                            conversion: CppToFfiTypeConversion::ReferenceToPointer,
                        },
                    ),
                }
            },
            CppTypeIndirection::NoIndirection => match &self.base {
                CppTypeBase::Class { .. } => Ok(
                    CppFfiType {
                        ffi_type: CppType {
                            is_const: self.is_const,
                            indirection: CppTypeIndirection::Ptr,
                            base: self.base.clone(),
                        },
                        conversion: CppToFfiTypeConversion::ValueToPointer,
                    },
                ),
                CppTypeBase::Flags { integer, .. } => Ok(
                    CppFfiType {
                        ffi_type: CppType {
                            is_const: self.is_const,
                            indirection: CppTypeIndirection::NoIndirection,
                            base: CppTypeBase::Scalar { name: integer.clone() },
                        },
                        conversion: CppToFfiTypeConversion::QFlagsToUInt,
                    },
                ),
                _ => Ok(
                    CppFfiType {
                        ffi_type: self.clone(),
                        conversion: CppToFfiTypeConversion::NoConversion,
                    },
                ),
            },
            _ => Ok(
                CppFfiType {
                    ffi_type: self.clone(),
                    conversion: CppToFfiTypeConversion::NoConversion,
                },
            ),
        }
    }
}

} // verus!
