//! Host-language types: their shape, their captions and the lifetimes of
//! their references.
//!
//! The names of host items, the signatures of foreign functions and the
//! record of a declaration's type have modules of their own and can be had
//! from here too.
use vstd::prelude::*;
pub use crate::complete_type::CompleteType;
use crate::errors::BridgeError;
pub use crate::rust_ffi_function::{RustFFIArgument, RustFFIFunction};
pub use crate::rust_name::RustName;
use crate::text::{join, join_strings};

verus! {

/// How a host type refers to its base type.
#[derive(Debug, Eq, Hash)]
pub enum RustTypeIndirection {
    /// The value itself.
    NoIndirection,
    /// A raw pointer.
    Ptr,
    /// A reference, with the name of its lifetime once one is assigned.
    Ref { lifetime: Option<String> },
    /// A raw pointer to a raw pointer.
    PtrPtr,
}

/// The mathematical value of a [`RustTypeIndirection`].
pub enum IndirectionView {
    NoIndirection,
    Ptr,
    Ref { lifetime: Option<Seq<char>> },
    PtrPtr,
}

impl View for RustTypeIndirection {
    type V = IndirectionView;

    open spec fn view(&self) -> IndirectionView {
        match self {
            RustTypeIndirection::NoIndirection => IndirectionView::NoIndirection,
            RustTypeIndirection::Ptr => IndirectionView::Ptr,
            RustTypeIndirection::Ref { lifetime: Some(name) } => IndirectionView::Ref {
                lifetime: Some(name@),
            },
            RustTypeIndirection::Ref { lifetime: None } => IndirectionView::Ref { lifetime: None },
            RustTypeIndirection::PtrPtr => IndirectionView::PtrPtr,
        }
    }
}

/// The indirection `ind` after the lifetime `name` is assigned to it.
///
/// A reference without a lifetime takes the name. A reference that has one
/// keeps it, and the assignment is a `LifetimeConflict`. Anything that is no
/// reference carries no lifetime and stays as it is.
pub open spec fn assign_lifetime(ind: IndirectionView, name: Seq<char>) -> Result<
    IndirectionView,
    BridgeError,
> {
    match ind {
        IndirectionView::Ref { lifetime: None } => Ok(
            IndirectionView::Ref { lifetime: Some(name) },
        ),
        IndirectionView::Ref { lifetime: Some(_) } => Err(BridgeError::LifetimeConflict),
        other => Ok(other),
    }
}

/// Two indirections are equal where they have the same shape and, for
/// references, the same lifetime or none.
impl PartialEq for RustTypeIndirection {
    fn eq(&self, other: &Self) -> (same: bool) {
        match (self, other) {
            (RustTypeIndirection::NoIndirection, RustTypeIndirection::NoIndirection) => true,
            (RustTypeIndirection::Ptr, RustTypeIndirection::Ptr) => true,
            (RustTypeIndirection::PtrPtr, RustTypeIndirection::PtrPtr) => true,
            (
                RustTypeIndirection::Ref { lifetime: None },
                RustTypeIndirection::Ref { lifetime: None },
            ) => true,
            (
                RustTypeIndirection::Ref { lifetime: Some(a) },
                RustTypeIndirection::Ref { lifetime: Some(b) },
            ) => *a == *b,
            _ => false,
        }
    }
}

impl vstd::std_specs::cmp::PartialEqSpecImpl for RustTypeIndirection {
    open spec fn obeys_eq_spec() -> bool {
        true
    }

    open spec fn eq_spec(&self, other: &Self) -> bool {
        self@ == other@
    }
}

impl Clone for RustTypeIndirection {
    fn clone(&self) -> (copy: Self)
        ensures
            copy@ == self@,
    {
        match self {
            RustTypeIndirection::NoIndirection => RustTypeIndirection::NoIndirection,
            RustTypeIndirection::Ptr => RustTypeIndirection::Ptr,
            RustTypeIndirection::Ref { lifetime: Some(name) } => RustTypeIndirection::Ref {
                lifetime: Some(name.clone()),
            },
            RustTypeIndirection::Ref { lifetime: None } => RustTypeIndirection::Ref {
                lifetime: None,
            },
            RustTypeIndirection::PtrPtr => RustTypeIndirection::PtrPtr,
        }
    }
}

impl RustTypeIndirection {
    /// Assigns the lifetime `name` to this indirection and returns the result;
    /// `self` is left as it was.
    ///
    /// Only a reference without a lifetime takes one. Assigning to a reference
    /// that already has a lifetime is a `LifetimeConflict`. A value, a pointer
    /// and a pointer to a pointer have no lifetime: for them the call changes
    /// nothing and succeeds.
    pub fn assign_lifetime(&self, name: String) -> (assigned: Result<
        RustTypeIndirection,
        BridgeError,
    >)
        ensures
            match assigned {
                Ok(ind) => assign_lifetime(self@, name@) == Ok::<IndirectionView, BridgeError>(
                    ind@,
                ),
                Err(e) => assign_lifetime(self@, name@) == Err::<IndirectionView, BridgeError>(e),
            },
    {
        match self {
            RustTypeIndirection::Ref { lifetime: None } => Ok(
                RustTypeIndirection::Ref { lifetime: Some(name) },
            ),
            RustTypeIndirection::Ref { lifetime: Some(_) } => Err(BridgeError::LifetimeConflict),
            _ => Ok(self.clone()),
        }
    }
}

/// A lifetime can be assigned to a reference once: the result carries it, and
/// a second assignment to that result is a `LifetimeConflict`, whatever the
/// two names are.
pub proof fn lemma_lifetime_assigned_once(
    reference: IndirectionView,
    first: Seq<char>,
    second: Seq<char>,
)
    requires
        reference is Ref,
    ensures
        reference->lifetime is None ==> assign_lifetime(reference, first) == Ok::<
            IndirectionView,
            BridgeError,
        >(IndirectionView::Ref { lifetime: Some(first) }),
        assign_lifetime(reference, first) matches Ok(once) ==> assign_lifetime(once, second)
            == Err::<IndirectionView, BridgeError>(BridgeError::LifetimeConflict),
{
}

/// A type of the host language.
#[derive(Debug, PartialEq, Eq, Hash)]
pub enum RustType {
    /// No value: what a function without a result returns.
    Void,
    /// A named type, with what surrounds it.
    NonVoid {
        /// The qualified name of the base type.
        base: RustName,
        /// The arguments of a generic base type.
        generic_arguments: Option<Vec<RustType>>,
        /// Whether the value behind a pointer or reference may not be changed.
        is_const: bool,
        /// How the type refers to its base type.
        indirection: RustTypeIndirection,
        /// Whether the type is wrapped so that it can be absent.
        is_option: bool,
    },
}

/// The mathematical value of a [`RustType`].
pub enum RustTypeView {
    Void,
    NonVoid {
        base: Seq<Seq<char>>,
        generic_arguments: Option<Seq<RustTypeView>>,
        is_const: bool,
        indirection: IndirectionView,
        is_option: bool,
    },
}

/// The values of the types of `types`, in order.
pub open spec fn type_views(types: Seq<RustType>) -> Seq<RustTypeView>
    decreases types,
{
    Seq::new(
        types.len(),
        |i: int|
            if 0 <= i < types.len() {
                types[i]@
            } else {
                RustTypeView::Void
            },
    )
}

impl View for RustType {
    type V = RustTypeView;

    open spec fn view(&self) -> RustTypeView
        decreases self,
    {
        match self {
            RustType::Void => RustTypeView::Void,
            RustType::NonVoid { base, generic_arguments, is_const, indirection, is_option } => {
                RustTypeView::NonVoid {
                    base: base@,
                    generic_arguments: match generic_arguments {
                        Some(arguments) => Some(type_views(arguments@)),
                        None => None,
                    },
                    is_const: *is_const,
                    indirection: indirection@,
                    is_option: *is_option,
                }
            },
        }
    }
}

/// The text between the pieces of a caption.
pub open spec fn caption_separator() -> Seq<char> {
    seq!['_']
}

/// The caption of `t` as text: the empty text where `t` has no caption.
pub open spec fn caption_text(t: RustTypeView) -> Seq<char>
    decreases t, 1nat,
{
    match caption(t) {
        Some(text) => text,
        None => Seq::empty(),
    }
}

/// The captions of `arguments`, in order, each as text.
pub open spec fn argument_captions(arguments: Seq<RustTypeView>) -> Seq<Seq<char>>
    decreases arguments, 2nat,
{
    Seq::new(
        arguments.len(),
        |i: int|
            if 0 <= i < arguments.len() {
                caption_text(arguments[i])
            } else {
                Seq::empty()
            },
    )
}

/// The caption of a type: a short text that stands for it in the names of
/// generated helpers.
///
/// `Void` has none. A type without generic arguments is captioned by the last
/// segment of its base name. A generic type is captioned by that segment, an
/// underscore, and the captions of its arguments joined by underscores.
pub open spec fn caption(t: RustTypeView) -> Option<Seq<char>>
    decreases t, 0nat,
{
    match t {
        RustTypeView::Void => None,
        RustTypeView::NonVoid { base, generic_arguments: None, .. } => Some(base.last()),
        RustTypeView::NonVoid { base, generic_arguments: Some(arguments), .. } => Some(
            base.last() + caption_separator() + join(
                argument_captions(arguments),
                caption_separator(),
            ),
        ),
    }
}

/// The type `t` with the lifetime `name` assigned to its reference.
///
/// `Void` and types that are no references stay as they are; for a reference
/// that has a lifetime the assignment is a `LifetimeConflict`.
pub open spec fn with_lifetime(t: RustTypeView, name: Seq<char>) -> Result<
    RustTypeView,
    BridgeError,
> {
    match t {
        RustTypeView::Void => Ok(t),
        RustTypeView::NonVoid { base, generic_arguments, is_const, indirection, is_option } => {
            match assign_lifetime(indirection, name) {
                Ok(assigned) => Ok(
                    RustTypeView::NonVoid {
                        base,
                        generic_arguments,
                        is_const,
                        indirection: assigned,
                        is_option,
                    },
                ),
                Err(e) => Err(e),
            }
        },
    }
}

/// Whether `t` is a reference that has a lifetime.
pub open spec fn has_lifetime(t: RustTypeView) -> bool {
    t matches RustTypeView::NonVoid { indirection: IndirectionView::Ref { lifetime: Some(_) }, .. }
}

/// Copies of the types of `types`, in order.
fn clone_types(types: &Vec<RustType>) -> (copies: Vec<RustType>)
    ensures
        type_views(copies@) == type_views(types@),
    decreases types, 1nat,
{
    let mut copies: Vec<RustType> = Vec::new();
    let mut i: usize = 0;
    while i < types.len()
        invariant
            i <= types@.len(),
            copies@.len() == i,
            forall|k: int| 0 <= k < i ==> copies@[k]@ == types@[k]@,
        decreases types@.len() - i,
    {
        copies.push(types[i].clone());
        i = i + 1;
    }
    copies
}

impl Clone for RustType {
    fn clone(&self) -> (copy: Self)
        ensures
            copy@ == self@,
        decreases self, 0nat,
    {
        match self {
            RustType::Void => RustType::Void,
            RustType::NonVoid { base, generic_arguments, is_const, indirection, is_option } => {
                RustType::NonVoid {
                    base: base.clone(),
                    generic_arguments: match generic_arguments {
                        Some(arguments) => Some(clone_types(arguments)),
                        None => None,
                    },
                    is_const: *is_const,
                    indirection: indirection.clone(),
                    is_option: *is_option,
                }
            },
        }
    }
}

impl RustType {
    /// The caption of the type, if it has one.
    pub fn caption(&self) -> (text: Option<String>)
        ensures
            match text {
                Some(text) => caption(self@) == Some(text@),
                None => caption(self@) is None,
            },
        decreases self,
    {
        match self {
            RustType::Void => None,
            RustType::NonVoid { base, generic_arguments, .. } => {
                let mut name = base.last_name().clone();
                if let Some(arguments) = generic_arguments {
                    let mut captions: Vec<String> = Vec::new();
                    let mut i: usize = 0;
                    while i < arguments.len()
                        invariant
                            i <= arguments@.len(),
                            captions@.len() == i,
                            forall|k: int|
                                0 <= k < i ==> captions@[k]@ == caption_text(arguments@[k]@),
                            forall|k: int|
                                0 <= k < arguments@.len() ==> decreases_to!(self => arguments@[k]),
                        decreases arguments@.len() - i,
                    {
                        let argument = match arguments[i].caption() {
                            Some(text) => text,
                            None => String::new(),
                        };
                        captions.push(argument);
                        i = i + 1;
                    }
                    proof {
                        reveal_strlit("_");
                        assert("_"@ =~= caption_separator());
                        assert(crate::text::views(captions@) =~= argument_captions(
                            type_views(arguments@),
                        ));
                    }
                    let joined = join_strings(&captions, "_");
                    name.append("_");
                    name.append(joined.as_str());
                }
                Some(name)
            },
        }
    }

    /// The type with the lifetime `new_lifetime` assigned to its reference, or
    /// `LifetimeConflict` where the reference already has a lifetime. A type
    /// that is no reference is returned unchanged.
    pub fn try_with_lifetime(&self, new_lifetime: String) -> (assigned: Result<
        RustType,
        BridgeError,
    >)
        ensures
            match assigned {
                Ok(t) => with_lifetime(self@, new_lifetime@) == Ok::<RustTypeView, BridgeError>(t@),
                Err(e) => with_lifetime(self@, new_lifetime@) == Err::<RustTypeView, BridgeError>(
                    e,
                ),
            },
    {
        match self {
            RustType::Void => Ok(RustType::Void),
            RustType::NonVoid { base, generic_arguments, is_const, indirection, is_option } => {
                match indirection.assign_lifetime(new_lifetime) {
                    Ok(assigned) => Ok(
                        RustType::NonVoid {
                            base: base.clone(),
                            generic_arguments: match generic_arguments {
                                Some(arguments) => Some(clone_types(arguments)),
                                None => None,
                            },
                            is_const: *is_const,
                            indirection: assigned,
                            is_option: *is_option,
                        },
                    ),
                    Err(e) => Err(e),
                }
            },
        }
    }

    /// The type with the lifetime `new_lifetime` assigned to its reference. A
    /// type that is no reference is returned unchanged.
    ///
    /// A reference takes a lifetime once: the caller has to know that this
    /// type has none yet.
    pub fn with_lifetime(&self, new_lifetime: String) -> (assigned: RustType)
        requires
            !has_lifetime(self@),
        ensures
            with_lifetime(self@, new_lifetime@) == Ok::<RustTypeView, BridgeError>(assigned@),
    {
        match self.try_with_lifetime(new_lifetime) {
            Ok(assigned) => assigned,
            Err(_) => self.clone(),
        }
    }
}

/// What a call has to do to a value of the type offered to users so that it
/// fits the type that crosses the boundary.
#[derive(Debug, Clone, Copy, PartialEq, Eq, Structural, Hash)]
pub enum RustToCTypeConversion {
    /// Nothing: both types are the same.
    NoConversion,
    /// A reference is passed as a pointer.
    RefToPtr,
    /// A value is passed as a pointer to it.
    ValueToPtr,
    /// A set of bit flags is passed as its integer.
    QFlagsToUInt,
}

/// The type `t` with `indirection` in place of its own; `Void` stays `Void`.
pub open spec fn set_indirection(t: RustTypeView, indirection: IndirectionView) -> RustTypeView {
    match t {
        RustTypeView::Void => t,
        RustTypeView::NonVoid { base, generic_arguments, is_const, is_option, .. } => {
            RustTypeView::NonVoid { base, generic_arguments, is_const, indirection, is_option }
        },
    }
}

impl RustType {
    /// The type with `indirection` in place of its own; `Void` stays `Void`.
    pub fn with_indirection(&self, indirection: RustTypeIndirection) -> (changed: RustType)
        ensures
            changed@ == set_indirection(self@, indirection@),
    {
        match self {
            RustType::Void => RustType::Void,
            RustType::NonVoid { base, generic_arguments, is_const, is_option, .. } => {
                RustType::NonVoid {
                    base: base.clone(),
                    generic_arguments: match generic_arguments {
                        Some(arguments) => Some(clone_types(arguments)),
                        None => None,
                    },
                    is_const: *is_const,
                    indirection,
                    is_option: *is_option,
                }
            },
        }
    }
}

/// The name of the lifetime that lasts as long as the program.
pub open spec fn static_lifetime() -> Seq<char> {
    seq!['s', 't', 'a', 't', 'i', 'c']
}

/// Whether `indirection` binds no lifetime but, at most, the static one.
pub open spec fn has_trivial_lifetime(indirection: IndirectionView) -> bool {
    match indirection {
        IndirectionView::Ref { lifetime: Some(name) } => name == static_lifetime(),
        _ => true,
    }
}

/// Whether `t` can stand in the signature of a foreign function: it has no
/// generic arguments, binds no lifetime but the static one, and shows its
/// indirection openly, not behind an optional type.
pub open spec fn is_ffi_safe(t: RustTypeView) -> bool {
    match t {
        RustTypeView::Void => true,
        RustTypeView::NonVoid { generic_arguments, indirection, is_option, .. } => {
            &&& generic_arguments is None
            &&& has_trivial_lifetime(indirection)
            &&& !is_option
        },
    }
}

impl RustTypeIndirection {
    /// Whether the indirection binds no lifetime but, at most, the static one.
    pub fn has_trivial_lifetime(&self) -> (trivial: bool)
        ensures
            trivial == has_trivial_lifetime(self@),
    {
        match self {
            RustTypeIndirection::Ref { lifetime: Some(name) } => {
                proof {
                    reveal_strlit("static");
                    assert("static"@ =~= static_lifetime());
                }
                let longest = String::from_str("static");
                *name == longest
            },
            _ => true,
        }
    }
}

impl RustType {
    /// Whether the type can stand in the signature of a foreign function.
    pub fn is_ffi_safe(&self) -> (safe: bool)
        ensures
            safe == is_ffi_safe(self@),
    {
        match self {
            RustType::Void => true,
            RustType::NonVoid { generic_arguments, indirection, is_option, .. } => {
                generic_arguments.is_none() && indirection.has_trivial_lifetime() && !*is_option
            },
        }
    }
}

} // verus!
