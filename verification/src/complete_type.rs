//! The four representations of one declaration's type, and how each comes
//! from the one before.
//!
//! A native type is first reshaped for the foreign-function boundary, the
//! reshaped type is mirrored in the host language, and from the mirror comes
//! the type that is offered to users of the host language.
use vstd::prelude::*;
use crate::cpp_ffi_type::{
    has_template_parameter,
    to_cpp_ffi_type,
    with_indirection,
    CppFfiTypeView,
    CppToFfiTypeConversion,
};
use crate::cpp_type::{CppType, CppTypeBase, CppTypeBaseView, CppTypeIndirection, CppTypeView};
use crate::errors::BridgeError;
use crate::rust_name::RustName;
use crate::rust_type::{
    is_ffi_safe,
    set_indirection,
    IndirectionView,
    RustToCTypeConversion,
    RustType,
    RustTypeIndirection,
    RustTypeView,
};
use crate::text::views;

verus! {

/// The host name of what a pointer to `void` points to: `libc::c_void`.
pub open spec fn c_void_name() -> Seq<Seq<char>> {
    seq![seq!['l', 'i', 'b', 'c'], seq!['c', '_', 'v', 'o', 'i', 'd']]
}

/// The host indirection that mirrors the native indirection `indirection`.
pub open spec fn mirror_indirection(indirection: CppTypeIndirection) -> IndirectionView {
    match indirection {
        CppTypeIndirection::NoIndirection => IndirectionView::NoIndirection,
        CppTypeIndirection::Ptr => IndirectionView::Ptr,
        CppTypeIndirection::Ref => IndirectionView::Ref { lifetime: None },
        CppTypeIndirection::PtrPtr => IndirectionView::PtrPtr,
    }
}

/// The host type named `base` with the constness and indirection of the
/// native type `t`, without generic arguments, and not optional.
pub open spec fn mirror_named(base: Seq<Seq<char>>, t: CppTypeView) -> RustTypeView {
    RustTypeView::NonVoid {
        base,
        generic_arguments: None,
        is_const: t.is_const,
        indirection: mirror_indirection(t.indirection),
        is_option: false,
    }
}

/// Whether the native type `t` has the shape of a type that crosses the
/// boundary: no reference, no template parameter, and no class or set of bit
/// flags by value.
pub open spec fn is_ffi_shaped(t: CppTypeView) -> bool {
    &&& !(t.indirection is Ref)
    &&& !(t.base is TemplateParameter)
    &&& (t.base is Class || t.base is Flags) ==> !(t.indirection is NoIndirection)
}

/// The host type that mirrors the native type `t`, pointer for pointer and
/// `const` for `const`.
///
/// Only a type in the shape that crosses the boundary has a mirror. The
/// mirror has no generic arguments, so an instantiation of a template has
/// none either. `void` by value is mirrored by `Void`, a pointer to `void` by
/// a pointer to `libc::c_void`, every other type by the host type of the same
/// name.
pub open spec fn to_rust_ffi_type(t: CppTypeView) -> Result<RustTypeView, BridgeError> {
    if !is_ffi_shaped(t) {
        Err(BridgeError::UnsupportedType)
    } else {
        match t.base {
            CppTypeBaseView::Void => {
                if t.indirection is NoIndirection {
                    Ok(RustTypeView::Void)
                } else {
                    Ok(mirror_named(c_void_name(), t))
                }
            },
            CppTypeBaseView::Scalar { name } => Ok(mirror_named(name, t)),
            CppTypeBaseView::Flags { name, .. } => Ok(mirror_named(name, t)),
            CppTypeBaseView::Class { name, template_arguments: None } => Ok(mirror_named(name, t)),
            CppTypeBaseView::Class { template_arguments: Some(_), .. } => Err(
                BridgeError::UnsupportedType,
            ),
            CppTypeBaseView::TemplateParameter { .. } => Err(BridgeError::UnsupportedType),
        }
    }
}

/// The host-side counterpart of a reshaping of the native type.
pub open spec fn host_conversion(conversion: CppToFfiTypeConversion) -> RustToCTypeConversion {
    match conversion {
        CppToFfiTypeConversion::NoConversion => RustToCTypeConversion::NoConversion,
        CppToFfiTypeConversion::ValueToPointer => RustToCTypeConversion::ValueToPtr,
        CppToFfiTypeConversion::ReferenceToPointer => RustToCTypeConversion::RefToPtr,
        CppToFfiTypeConversion::QFlagsToUInt => RustToCTypeConversion::QFlagsToUInt,
    }
}

/// The type offered to users of the host language for the native type
/// `cpp_type`, whose reshaping was `conversion` and whose mirror across the
/// boundary is `rust_ffi_type`.
///
/// What was a reference on the native side is a reference again, without a
/// lifetime yet; what was a value is a value again; bit flags are the type of
/// the flags in place of their integer; anything else is the mirror itself.
pub open spec fn to_rust_api_type(
    cpp_type: CppTypeView,
    conversion: CppToFfiTypeConversion,
    rust_ffi_type: RustTypeView,
) -> RustTypeView {
    match conversion {
        CppToFfiTypeConversion::NoConversion => rust_ffi_type,
        CppToFfiTypeConversion::ReferenceToPointer => set_indirection(
            rust_ffi_type,
            IndirectionView::Ref { lifetime: None },
        ),
        CppToFfiTypeConversion::ValueToPointer => set_indirection(
            rust_ffi_type,
            IndirectionView::NoIndirection,
        ),
        CppToFfiTypeConversion::QFlagsToUInt => match cpp_type.base {
            CppTypeBaseView::Flags { name, .. } => mirror_named(name, cpp_type),
            _ => rust_ffi_type,
        },
    }
}

impl CppTypeIndirection {
    /// The host indirection that mirrors this one.
    pub fn to_rust(&self) -> (mirror: RustTypeIndirection)
        ensures
            mirror@ == mirror_indirection(*self),
    {
        match self {
            CppTypeIndirection::NoIndirection => RustTypeIndirection::NoIndirection,
            CppTypeIndirection::Ptr => RustTypeIndirection::Ptr,
            CppTypeIndirection::Ref => RustTypeIndirection::Ref { lifetime: None },
            CppTypeIndirection::PtrPtr => RustTypeIndirection::PtrPtr,
        }
    }
}

impl CppToFfiTypeConversion {
    /// The host-side counterpart of this reshaping.
    pub fn to_rust(&self) -> (counterpart: RustToCTypeConversion)
        ensures
            counterpart == host_conversion(*self),
    {
        match self {
            CppToFfiTypeConversion::NoConversion => RustToCTypeConversion::NoConversion,
            CppToFfiTypeConversion::ValueToPointer => RustToCTypeConversion::ValueToPtr,
            CppToFfiTypeConversion::ReferenceToPointer => RustToCTypeConversion::RefToPtr,
            CppToFfiTypeConversion::QFlagsToUInt => RustToCTypeConversion::QFlagsToUInt,
        }
    }
}

/// The host name `libc::c_void`.
fn c_void() -> (name: RustName)
    ensures
        name@ == c_void_name(),
{
    let mut parts: Vec<String> = Vec::new();
    parts.push(String::from_str("libc"));
    parts.push(String::from_str("c_void"));
    proof {
        reveal_strlit("libc");
        reveal_strlit("c_void");
        assert("libc"@ =~= c_void_name()[0]);
        assert("c_void"@ =~= c_void_name()[1]);
    }
    RustName::new(parts)
}

impl CppType {
    /// The host type named `base` with the constness and indirection of this
    /// type.
    fn mirror_named(&self, base: RustName) -> (mirror: RustType)
        ensures
            mirror@ == mirror_named(base@, self@),
    {
        RustType::NonVoid {
            base,
            generic_arguments: None,
            is_const: self.is_const,
            indirection: self.indirection.to_rust(),
            is_option: false,
        }
    }

    /// The host type that mirrors this type across the boundary, or
    /// `UnsupportedType` where it has none: where the type has not the shape
    /// that crosses the boundary, and for an instantiation of a template.
    pub fn to_rust_ffi_type(&self) -> (mirror: Result<RustType, BridgeError>)
        ensures
            match mirror {
                Ok(t) => to_rust_ffi_type(self@) == Ok::<RustTypeView, BridgeError>(t@),
                Err(e) => to_rust_ffi_type(self@) == Err::<RustTypeView, BridgeError>(e),
            },
    {
        let by_value = match self.indirection {
            CppTypeIndirection::NoIndirection => true,
            _ => false,
        };
        let by_reference = match self.indirection {
            CppTypeIndirection::Ref => true,
            _ => false,
        };
        if by_reference {
            return Err(BridgeError::UnsupportedType);
        }
        match &self.base {
            CppTypeBase::Void => {
                if by_value {
                    Ok(RustType::Void)
                } else {
                    Ok(self.mirror_named(c_void()))
                }
            },
            CppTypeBase::Scalar { name } => Ok(self.mirror_named(name.clone())),
            CppTypeBase::Flags { name, .. } => {
                if by_value {
                    Err(BridgeError::UnsupportedType)
                } else {
                    Ok(self.mirror_named(name.clone()))
                }
            },
            CppTypeBase::Class { name, template_arguments: None } => {
                if by_value {
                    Err(BridgeError::UnsupportedType)
                } else {
                    Ok(self.mirror_named(name.clone()))
                }
            },
            CppTypeBase::Class { template_arguments: Some(_), .. } => Err(
                BridgeError::UnsupportedType,
            ),
            CppTypeBase::TemplateParameter { .. } => Err(BridgeError::UnsupportedType),
        }
    }

    /// The type offered to users of the host language for this type, given
    /// its reshaping `conversion` and its mirror `rust_ffi_type`.
    pub fn to_rust_api_type(
        &self,
        conversion: CppToFfiTypeConversion,
        rust_ffi_type: &RustType,
    ) -> (api: RustType)
        ensures
            api@ == to_rust_api_type(self@, conversion, rust_ffi_type@),
    {
        match conversion {
            CppToFfiTypeConversion::NoConversion => rust_ffi_type.clone(),
            CppToFfiTypeConversion::ReferenceToPointer => rust_ffi_type.with_indirection(
                RustTypeIndirection::Ref { lifetime: None },
            ),
            CppToFfiTypeConversion::ValueToPointer => rust_ffi_type.with_indirection(
                RustTypeIndirection::NoIndirection,
            ),
            CppToFfiTypeConversion::QFlagsToUInt => match &self.base {
                CppTypeBase::Flags { name, .. } => self.mirror_named(name.clone()),
                _ => rust_ffi_type.clone(),
            },
        }
    }
}

/// The mathematical value of a [`CompleteType`].
pub struct CompleteTypeView {
    pub cpp_type: CppTypeView,
    pub cpp_ffi_type: CppTypeView,
    pub cpp_to_ffi_conversion: CppToFfiTypeConversion,
    pub rust_ffi_type: RustTypeView,
    pub rust_api_type: RustTypeView,
    pub rust_api_to_c_conversion: RustToCTypeConversion,
}

/// The record of the native type `t`: its four representations and the two
/// conversions between them, or `UnsupportedType` where one of them does not
/// exist.
pub open spec fn complete_type(t: CppTypeView) -> Result<CompleteTypeView, BridgeError> {
    match to_cpp_ffi_type(t) {
        Err(e) => Err(e),
        Ok(ffi) => match to_rust_ffi_type(ffi.ffi_type) {
            Err(e) => Err(e),
            Ok(rust_ffi_type) => Ok(
                CompleteTypeView {
                    cpp_type: t,
                    cpp_ffi_type: ffi.ffi_type,
                    cpp_to_ffi_conversion: ffi.conversion,
                    rust_ffi_type,
                    rust_api_type: to_rust_api_type(t, ffi.conversion, rust_ffi_type),
                    rust_api_to_c_conversion: host_conversion(ffi.conversion),
                },
            ),
        },
    }
}

/// The native types that have a record: those in which no template parameter
/// occurs, that are no reference to `void`, and that are not made from an
/// instantiation of a template.
pub open spec fn is_supported(t: CppTypeView) -> bool {
    &&& !has_template_parameter(t)
    &&& !(t.indirection is Ref && t.base is Void)
    &&& !(t.base matches CppTypeBaseView::Class { template_arguments: Some(_), .. })
}

/// The number of pointers or references around a native base type.
pub open spec fn cpp_depth(indirection: CppTypeIndirection) -> nat {
    match indirection {
        CppTypeIndirection::NoIndirection => 0,
        CppTypeIndirection::Ptr => 1,
        CppTypeIndirection::Ref => 1,
        CppTypeIndirection::PtrPtr => 2,
    }
}

/// The number of pointers or references around the base type of a host type.
pub open spec fn rust_depth(t: RustTypeView) -> nat {
    match t {
        RustTypeView::Void => 0,
        RustTypeView::NonVoid { indirection: IndirectionView::NoIndirection, .. } => 0,
        RustTypeView::NonVoid { indirection: IndirectionView::Ptr, .. } => 1,
        RustTypeView::NonVoid { indirection: IndirectionView::Ref { .. }, .. } => 1,
        RustTypeView::NonVoid { indirection: IndirectionView::PtrPtr, .. } => 2,
    }
}

/// Whether the host type `t` can stand in a foreign function's signature
/// after mirroring: it has no generic arguments, is no reference, and is not
/// optional.
pub open spec fn is_plain(t: RustTypeView) -> bool {
    match t {
        RustTypeView::Void => true,
        RustTypeView::NonVoid { generic_arguments, indirection, is_option, .. } => {
            &&& generic_arguments is None
            &&& !(indirection is Ref)
            &&& !is_option
        },
    }
}

/// Whether the representations in `r` fit each other.
///
/// The reshaped native type comes from the native type as the first
/// conversion says. The mirror has neither generic arguments nor references,
/// and as many pointers and the same constness as the reshaped type. The
/// second conversion is the counterpart of the first, and the type offered to
/// users comes from the mirror as it says.
pub open spec fn is_consistent(r: CompleteTypeView) -> bool {
    &&& match r.cpp_to_ffi_conversion {
        CppToFfiTypeConversion::NoConversion => r.cpp_ffi_type == r.cpp_type,
        CppToFfiTypeConversion::ReferenceToPointer => {
            &&& r.cpp_type.indirection is Ref
            &&& r.cpp_ffi_type == with_indirection(r.cpp_type, CppTypeIndirection::Ptr)
        },
        CppToFfiTypeConversion::ValueToPointer => {
            &&& r.cpp_type.indirection is NoIndirection
            &&& r.cpp_type.base is Class
            &&& r.cpp_ffi_type == with_indirection(r.cpp_type, CppTypeIndirection::Ptr)
        },
        CppToFfiTypeConversion::QFlagsToUInt => {
            &&& r.cpp_type.indirection is NoIndirection
            &&& r.cpp_type.base is Flags
            &&& r.cpp_ffi_type.indirection is NoIndirection
            &&& r.cpp_ffi_type.base is Scalar
            &&& r.cpp_ffi_type.is_const == r.cpp_type.is_const
        },
    }
    &&& is_ffi_shaped(r.cpp_ffi_type)
    &&& is_plain(r.rust_ffi_type)
    &&& rust_depth(r.rust_ffi_type) == cpp_depth(r.cpp_ffi_type.indirection)
    &&& r.rust_ffi_type is Void <==> r.cpp_ffi_type.base is Void
        && r.cpp_ffi_type.indirection is NoIndirection
    &&& r.rust_ffi_type matches RustTypeView::NonVoid { is_const, .. } ==> is_const
        == r.cpp_ffi_type.is_const
    &&& r.rust_api_to_c_conversion == host_conversion(r.cpp_to_ffi_conversion)
    &&& match r.rust_api_to_c_conversion {
        RustToCTypeConversion::NoConversion => r.rust_api_type == r.rust_ffi_type,
        RustToCTypeConversion::RefToPtr => {
            &&& r.rust_ffi_type matches RustTypeView::NonVoid {
                indirection: IndirectionView::Ptr,
                ..
            }
            &&& r.rust_api_type == set_indirection(
                r.rust_ffi_type,
                IndirectionView::Ref { lifetime: None },
            )
        },
        RustToCTypeConversion::ValueToPtr => {
            &&& r.rust_ffi_type matches RustTypeView::NonVoid {
                indirection: IndirectionView::Ptr,
                ..
            }
            &&& r.rust_api_type == set_indirection(r.rust_ffi_type, IndirectionView::NoIndirection)
        },
        RustToCTypeConversion::QFlagsToUInt => {
            &&& rust_depth(r.rust_ffi_type) == 0
            &&& rust_depth(r.rust_api_type) == 0
            &&& r.rust_ffi_type is NonVoid
            &&& r.rust_api_type is NonVoid
            &&& is_plain(r.rust_api_type)
        },
    }
}

/// A native type reshaped for the boundary has the shape that crosses it.
pub proof fn lemma_reshaped_is_ffi_shaped(t: CppTypeView)
    ensures
        to_cpp_ffi_type(t) matches Ok(ffi) ==> is_ffi_shaped(ffi.ffi_type),
{
}

/// The native types that have a record are the supported ones, and the only
/// failure is `UnsupportedType`.
pub proof fn lemma_record_exists_iff_supported(t: CppTypeView)
    ensures
        complete_type(t) is Ok <==> is_supported(t),
        complete_type(t) matches Err(e) ==> e == BridgeError::UnsupportedType,
{
}

/// A record is never partial: the native type either has all four
/// representations, and they fit each other, or it has no record and the
/// failure is `UnsupportedType`.
pub proof fn lemma_record_is_whole(t: CppTypeView)
    ensures
        match complete_type(t) {
            Ok(r) => r.cpp_type == t && is_consistent(r),
            Err(e) => e == BridgeError::UnsupportedType,
        },
{
}

/// The mirror in a record can stand in the signature of a foreign function.
pub proof fn lemma_mirror_is_ffi_safe(t: CppTypeView)
    ensures
        complete_type(t) matches Ok(r) ==> is_ffi_safe(r.rust_ffi_type),
{
}

/// The four representations of one declaration's type, with the conversions
/// between them. A value of this type is always the whole record of its
/// native type.
#[derive(Debug, PartialEq, Eq, Hash)]
pub struct CompleteType {
    cpp_type: CppType,
    cpp_ffi_type: CppType,
    cpp_to_ffi_conversion: CppToFfiTypeConversion,
    rust_ffi_type: RustType,
    rust_api_type: RustType,
    rust_api_to_c_conversion: RustToCTypeConversion,
}

impl View for CompleteType {
    type V = CompleteTypeView;

    closed spec fn view(&self) -> CompleteTypeView {
        CompleteTypeView {
            cpp_type: self.cpp_type@,
            cpp_ffi_type: self.cpp_ffi_type@,
            cpp_to_ffi_conversion: self.cpp_to_ffi_conversion,
            rust_ffi_type: self.rust_ffi_type@,
            rust_api_type: self.rust_api_type@,
            rust_api_to_c_conversion: self.rust_api_to_c_conversion,
        }
    }
}

impl CompleteType {
    #[verifier::type_invariant]
    spec fn is_record(self) -> bool {
        complete_type(self.cpp_type@) == Ok::<CompleteTypeView, BridgeError>(self@)
    }

    /// Builds the record of the native type `cpp_type`, stage by stage, or
    /// reports `UnsupportedType` where a stage has no result.
    pub fn new(cpp_type: CppType) -> (record: Result<CompleteType, BridgeError>)
        ensures
            match record {
                Ok(r) => complete_type(cpp_type@) == Ok::<CompleteTypeView, BridgeError>(r@),
                Err(e) => complete_type(cpp_type@) == Err::<CompleteTypeView, BridgeError>(e),
            },
    {
        let ffi = match cpp_type.to_cpp_ffi_type() {
            Ok(ffi) => ffi,
            Err(e) => {
                return Err(e);
            },
        };
        let rust_ffi_type = match ffi.ffi_type.to_rust_ffi_type() {
            Ok(mirror) => mirror,
            Err(e) => {
                return Err(e);
            },
        };
        let rust_api_type = cpp_type.to_rust_api_type(ffi.conversion, &rust_ffi_type);
        Ok(
            CompleteType {
                cpp_type,
                cpp_ffi_type: ffi.ffi_type,
                cpp_to_ffi_conversion: ffi.conversion,
                rust_ffi_type,
                rust_api_type,
                rust_api_to_c_conversion: ffi.conversion.to_rust(),
            },
        )
    }

    /// The native type as the analyzer reported it.
    pub fn cpp_type(&self) -> (t: &CppType)
        ensures
            t@ == self@.cpp_type,
            complete_type(t@) == Ok::<CompleteTypeView, BridgeError>(self@),
    {
        proof {
            use_type_invariant(self);
        }
        &self.cpp_type
    }

    /// The native type in the shape in which it crosses the boundary.
    pub fn cpp_ffi_type(&self) -> (t: &CppType)
        ensures
            t@ == self@.cpp_ffi_type,
    {
        &self.cpp_ffi_type
    }

    /// How the reshaped native type came from the native type.
    pub fn cpp_to_ffi_conversion(&self) -> (conversion: CppToFfiTypeConversion)
        ensures
            conversion == self@.cpp_to_ffi_conversion,
    {
        self.cpp_to_ffi_conversion
    }

    /// The host type that mirrors the reshaped native type.
    pub fn rust_ffi_type(&self) -> (t: &RustType)
        ensures
            t@ == self@.rust_ffi_type,
            is_ffi_safe(t@),
    {
        proof {
            use_type_invariant(self);
        }
        &self.rust_ffi_type
    }

    /// The host type that is offered to users.
    pub fn rust_api_type(&self) -> (t: &RustType)
        ensures
            t@ == self@.rust_api_type,
    {
        &self.rust_api_type
    }

    /// What a call does to a value of the offered type to pass it across the
    /// boundary.
    pub fn rust_api_to_c_conversion(&self) -> (conversion: RustToCTypeConversion)
        ensures
            conversion == self@.rust_api_to_c_conversion,
    {
        self.rust_api_to_c_conversion
    }
}

} // verus!
