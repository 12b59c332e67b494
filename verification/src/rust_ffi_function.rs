//! Signatures of foreign functions as the host language declares them.
use vstd::prelude::*;
use crate::errors::BridgeError;
use crate::rust_type::{is_ffi_safe, RustType, RustTypeView};

verus! {

/// One parameter of a foreign function.
#[derive(Debug, PartialEq, Eq, Hash)]
pub struct RustFFIArgument {
    /// The parameter's name.
    pub name: String,
    /// The parameter's type.
    pub argument_type: RustType,
}

/// The mathematical value of a [`RustFFIArgument`].
pub struct RustFFIArgumentView {
    pub name: Seq<char>,
    pub argument_type: RustTypeView,
}

impl View for RustFFIArgument {
    type V = RustFFIArgumentView;

    open spec fn view(&self) -> RustFFIArgumentView {
        RustFFIArgumentView { name: self.name@, argument_type: self.argument_type@ }
    }
}

/// The values of the parameters of `arguments`, in order.
pub open spec fn argument_views(arguments: Seq<RustFFIArgument>) -> Seq<RustFFIArgumentView> {
    arguments.map_values(|a: RustFFIArgument| a@)
}

/// The mathematical value of a [`RustFFIFunction`].
pub struct RustFFIFunctionView {
    pub return_type: RustTypeView,
    pub name: Seq<char>,
    pub arguments: Seq<RustFFIArgumentView>,
}

/// Whether the result type and every parameter type of `f` can stand in the
/// signature of a foreign function.
pub open spec fn is_ffi_signature(f: RustFFIFunctionView) -> bool {
    &&& is_ffi_safe(f.return_type)
    &&& forall|i: int|
        0 <= i < f.arguments.len() ==> is_ffi_safe(#[trigger] f.arguments[i].argument_type)
}

/// The signature of a foreign function. Its types are those that cross the
/// boundary: none has generic arguments, binds a lifetime other than the
/// static one, or is optional.
#[derive(Debug, PartialEq, Eq, Hash)]
pub struct RustFFIFunction {
    return_type: RustType,
    name: String,
    arguments: Vec<RustFFIArgument>,
}

impl View for RustFFIFunction {
    type V = RustFFIFunctionView;

    closed spec fn view(&self) -> RustFFIFunctionView {
        RustFFIFunctionView {
            return_type: self.return_type@,
            name: self.name@,
            arguments: argument_views(self.arguments@),
        }
    }
}

impl RustFFIFunction {
    #[verifier::type_invariant]
    spec fn crosses_boundary(self) -> bool {
        is_ffi_signature(self@)
    }

    /// Assembles the signature of the function `name` from its result type
    /// and its parameters, which are taken as they are. Where one of the types
    /// cannot stand in the signature of a foreign function, nothing is
    /// assembled and the failure is `UnsupportedType`.
    pub fn build(return_type: RustType, name: String, arguments: Vec<RustFFIArgument>) -> (built:
        Result<RustFFIFunction, BridgeError>)
        ensures
            match built {
                Ok(f) => {
                    &&& f@ == (RustFFIFunctionView {
                        return_type: return_type@,
                        name: name@,
                        arguments: argument_views(arguments@),
                    })
                    &&& is_ffi_signature(f@)
                },
                Err(e) => {
                    &&& e == BridgeError::UnsupportedType
                    &&& !is_ffi_signature(
                        RustFFIFunctionView {
                            return_type: return_type@,
                            name: name@,
                            arguments: argument_views(arguments@),
                        },
                    )
                },
            },
    {
        let ghost signature = RustFFIFunctionView {
            return_type: return_type@,
            name: name@,
            arguments: argument_views(arguments@),
        };
        if !return_type.is_ffi_safe() {
            return Err(BridgeError::UnsupportedType);
        }
        let mut i: usize = 0;
        while i < arguments.len()
            invariant
                i <= arguments@.len(),
                signature.arguments == argument_views(arguments@),
                forall|k: int|
                    0 <= k < i ==> is_ffi_safe(#[trigger] signature.arguments[k].argument_type),
            decreases arguments@.len() - i,
        {
            if !arguments[i].argument_type.is_ffi_safe() {
                proof {
                    assert(!is_ffi_safe(signature.arguments[i as int].argument_type));
                }
                return Err(BridgeError::UnsupportedType);
            }
            i = i + 1;
        }
        Ok(RustFFIFunction { return_type, name, arguments })
    }

    /// The type of the function's result.
    pub fn return_type(&self) -> (t: &RustType)
        ensures
            t@ == self@.return_type,
            is_ffi_safe(t@),
    {
        proof {
            use_type_invariant(self);
        }
        &self.return_type
    }

    /// The function's name.
    pub fn name(&self) -> (name: &String)
        ensures
            name@ == self@.name,
    {
        &self.name
    }

    /// The function's parameters, in order.
    pub fn arguments(&self) -> (arguments: &Vec<RustFFIArgument>)
        ensures
            argument_views(arguments@) == self@.arguments,
            is_ffi_signature(self@),
    {
        proof {
            use_type_invariant(self);
        }
        &self.arguments
    }
}

} // verus!
