//! Native types as the analyzer of native declarations reports them.
use vstd::prelude::*;
use crate::rust_name::RustName;
use crate::text::{
    hex8,
    is_identifier_text,
    lemma_hex8_cancel,
    lemma_hex8_is_identifier_text,
    lemma_identifier_text_concat,
    lemma_words_are_identifier_text,
    lemma_words_cancel,
    push_hex8,
    push_words,
    words,
};

verus! {

/// How a native type refers to its base type.
#[derive(Debug, Clone, Copy, PartialEq, Eq, Structural, Hash)]
pub enum CppTypeIndirection {
    /// The value itself.
    NoIndirection,
    /// A pointer.
    Ptr,
    /// A reference.
    Ref,
    /// A pointer to a pointer.
    PtrPtr,
}

/// What a native type is made of, before `const` and indirection.
///
/// A named type carries the qualified name under which the host language
/// knows it.
#[derive(Debug, PartialEq, Eq, Hash)]
pub enum CppTypeBase {
    /// `void`.
    Void,
    /// A number, a boolean or an enumeration: a value that crosses the
    /// foreign-function boundary as it is.
    Scalar {
        /// The name of the type.
        name: RustName,
    },
    /// A set of bit flags over an enumeration. It crosses the boundary as an
    /// integer.
    Flags {
        /// The name of the type of the flags.
        name: RustName,
        /// The name of the integer type that holds the flags.
        integer: RustName,
    },
    /// A class or struct.
    Class {
        /// The name of the class.
        name: RustName,
        /// The template arguments, where the class is an instantiation of a
        /// template.
        template_arguments: Option<Vec<CppType>>,
    },
    /// A parameter of an enclosing template, which stands for no type yet.
    TemplateParameter {
        /// How many templates enclose the one that declares the parameter.
        nested_level: u32,
        /// The position of the parameter among those of its template.
        index: u32,
    },
}

/// A native type.
#[derive(Debug, PartialEq, Eq, Hash)]
pub struct CppType {
    /// Whether the value may not be changed.
    pub is_const: bool,
    /// How the type refers to its base type.
    pub indirection: CppTypeIndirection,
    /// The base type.
    pub base: CppTypeBase,
}

/// The mathematical value of a [`CppTypeBase`].
pub enum CppTypeBaseView {
    Void,
    Scalar { name: Seq<Seq<char>> },
    Flags { name: Seq<Seq<char>>, integer: Seq<Seq<char>> },
    Class { name: Seq<Seq<char>>, template_arguments: Option<Seq<CppTypeView>> },
    TemplateParameter { nested_level: u32, index: u32 },
}

/// The mathematical value of a [`CppType`].
pub struct CppTypeView {
    pub is_const: bool,
    pub indirection: CppTypeIndirection,
    pub base: CppTypeBaseView,
}

/// The values of the types of `types`, in order.
pub open spec fn cpp_type_views(types: Seq<CppType>) -> Seq<CppTypeView>
    decreases types,
{
    Seq::new(
        types.len(),
        |i: int|
            if 0 <= i < types.len() {
                types[i]@
            } else {
                arbitrary()
            },
    )
}

impl View for CppTypeBase {
    type V = CppTypeBaseView;

    open spec fn view(&self) -> CppTypeBaseView
        decreases self,
    {
        match self {
            CppTypeBase::Void => CppTypeBaseView::Void,
            CppTypeBase::Scalar { name } => CppTypeBaseView::Scalar { name: name@ },
            CppTypeBase::Flags { name, integer } => CppTypeBaseView::Flags {
                name: name@,
                integer: integer@,
            },
            CppTypeBase::Class { name, template_arguments } => CppTypeBaseView::Class {
                name: name@,
                template_arguments: match template_arguments {
                    Some(arguments) => Some(cpp_type_views(arguments@)),
                    None => None,
                },
            },
            CppTypeBase::TemplateParameter { nested_level, index } => {
                CppTypeBaseView::TemplateParameter { nested_level: *nested_level, index: *index }
            },
        }
    }
}

impl View for CppType {
    type V = CppTypeView;

    open spec fn view(&self) -> CppTypeView
        decreases self,
    {
        CppTypeView { is_const: self.is_const, indirection: self.indirection, base: self.base@ }
    }
}

/// Copies of the types of `types`, in order.
fn clone_cpp_types(types: &Vec<CppType>) -> (copies: Vec<CppType>)
    ensures
        cpp_type_views(copies@) == cpp_type_views(types@),
    decreases types, 2nat,
{
    let mut copies: Vec<CppType> = Vec::new();
    let mut i: usize = 0;
    while i < types.len()
        invariant
            i <= types@.len(),
            copies@.len() == i,
            forall|k: int| 0 <= k < i ==> copies@[k]@ == types@[k]@,
        decreases types@.len() - i,
    {
        copies.push(types[i].clone());
        i = i + 1;
    }
    copies
}

impl Clone for CppTypeBase {
    fn clone(&self) -> (copy: Self)
        ensures
            copy@ == self@,
        decreases self, 0nat,
    {
        match self {
            CppTypeBase::Void => CppTypeBase::Void,
            CppTypeBase::Scalar { name } => CppTypeBase::Scalar { name: name.clone() },
            CppTypeBase::Flags { name, integer } => CppTypeBase::Flags {
                name: name.clone(),
                integer: integer.clone(),
            },
            CppTypeBase::Class { name, template_arguments } => CppTypeBase::Class {
                name: name.clone(),
                template_arguments: match template_arguments {
                    Some(arguments) => Some(clone_cpp_types(arguments)),
                    None => None,
                },
            },
            CppTypeBase::TemplateParameter { nested_level, index } => {
                CppTypeBase::TemplateParameter { nested_level: *nested_level, index: *index }
            },
        }
    }
}

impl Clone for CppType {
    fn clone(&self) -> (copy: Self)
        ensures
            copy@ == self@,
        decreases self, 1nat,
    {
        CppType { is_const: self.is_const, indirection: self.indirection, base: self.base.clone() }
    }
}

/// The character that says in a caption whether a type is `const`: `c` where
/// it is, `m` where it is not.
pub open spec fn const_tag(is_const: bool) -> char {
    if is_const {
        'c'
    } else {
        'm'
    }
}

/// The character that says in a caption how a type refers to its base type:
/// `v` for a value, `p` for a pointer, `r` for a reference, `q` for a pointer
/// to a pointer.
pub open spec fn indirection_tag(indirection: CppTypeIndirection) -> char {
    match indirection {
        CppTypeIndirection::NoIndirection => 'v',
        CppTypeIndirection::Ptr => 'p',
        CppTypeIndirection::Ref => 'r',
        CppTypeIndirection::PtrPtr => 'q',
    }
}

/// What closes a list of captions: `E`, with which no caption begins.
pub open spec fn captions_end() -> Seq<char> {
    seq!['E']
}

/// The caption of a base type: a letter for its kind, and what the kind
/// holds.
///
/// `V` for `void`. `S` and the name for a scalar. `F`, the name and the name
/// of the integer for bit flags. `C` and the name for a class. `G`, the name
/// and the captions of the arguments for an instantiation of a template. `T`,
/// the nesting level and the index for a template parameter. A name is
/// written as a list of words, a number in eight hexadecimal digits.
pub open spec fn cpp_base_caption(base: CppTypeBaseView) -> Seq<char>
    decreases base, 0nat,
{
    match base {
        CppTypeBaseView::Void => seq!['V'],
        CppTypeBaseView::Scalar { name } => seq!['S'] + words(name),
        CppTypeBaseView::Flags { name, integer } => seq!['F'] + words(name) + words(integer),
        CppTypeBaseView::Class { name, template_arguments: None } => seq!['C'] + words(name),
        CppTypeBaseView::Class { name, template_arguments: Some(arguments) } => seq!['G'] + words(
            name,
        ) + cpp_captions(arguments, 0),
        CppTypeBaseView::TemplateParameter { nested_level, index } => seq!['T'] + hex8(
            nested_level,
        ) + hex8(index),
    }
}

/// The captions of the types of `types` from index `from` on, one after the
/// other, and the end of the list.
pub open spec fn cpp_captions(types: Seq<CppTypeView>, from: int) -> Seq<char>
    decreases types, types.len() - from,
{
    if 0 <= from < types.len() {
        cpp_caption(types[from]) + cpp_captions(types, from + 1)
    } else {
        captions_end()
    }
}

/// The caption of a native type: a text that stands for it, and for no other
/// type, in the names of generated functions. It is made of the characters of
/// an identifier: the character for the constness, the character for the
/// indirection, and the caption of the base type.
pub open spec fn cpp_caption(t: CppTypeView) -> Seq<char>
    decreases t, 1nat,
{
    seq![const_tag(t.is_const), indirection_tag(t.indirection)] + cpp_base_caption(t.base)
}

/// Two base types with captions that are written alike are the same base
/// type, and what follows the captions is the same.
pub proof fn lemma_base_caption_cancel(
    a: CppTypeBaseView,
    b: CppTypeBaseView,
    x: Seq<char>,
    y: Seq<char>,
)
    requires
        cpp_base_caption(a) + x == cpp_base_caption(b) + y,
    ensures
        a == b,
        x == y,
    decreases a, 0nat,
{
    let l = cpp_base_caption(a) + x;
    let r = cpp_base_caption(b) + y;
    assert(l[0] == cpp_base_caption(a)[0]);
    assert(r[0] == cpp_base_caption(b)[0]);
    let rest_l = l.skip(1);
    let rest_r = r.skip(1);
    match a {
        CppTypeBaseView::Void => {
            assert(b is Void);
            assert(x =~= rest_l);
            assert(y =~= rest_r);
        },
        CppTypeBaseView::Scalar { name } => {
            assert(b is Scalar);
            assert(rest_l =~= words(name) + x);
            assert(rest_r =~= words(b->Scalar_name) + y);
            lemma_words_cancel(name, b->Scalar_name, x, y);
        },
        CppTypeBaseView::Flags { name, integer } => {
            assert(b is Flags);
            assert(rest_l =~= words(name) + (words(integer) + x));
            assert(rest_r =~= words(b->Flags_name) + (words(b->integer) + y));
            lemma_words_cancel(name, b->Flags_name, words(integer) + x, words(b->integer) + y);
            lemma_words_cancel(integer, b->integer, x, y);
        },
        CppTypeBaseView::Class { name, template_arguments: None } => {
            assert(b is Class && b->template_arguments is None);
            assert(rest_l =~= words(name) + x);
            assert(rest_r =~= words(b->Class_name) + y);
            lemma_words_cancel(name, b->Class_name, x, y);
        },
        CppTypeBaseView::Class { name, template_arguments: Some(arguments) } => {
            assert(b is Class && b->template_arguments is Some);
            let others = b->template_arguments->Some_0;
            assert(rest_l =~= words(name) + (cpp_captions(arguments, 0) + x));
            assert(rest_r =~= words(b->Class_name) + (cpp_captions(others, 0) + y));
            lemma_words_cancel(
                name,
                b->Class_name,
                cpp_captions(arguments, 0) + x,
                cpp_captions(others, 0) + y,
            );
            lemma_captions_cancel(arguments, others, 0, x, y);
            assert(arguments =~= others);
        },
        CppTypeBaseView::TemplateParameter { nested_level, index } => {
            assert(b is TemplateParameter);
            assert(rest_l =~= hex8(nested_level) + (hex8(index) + x));
            assert(rest_r =~= hex8(b->nested_level) + (hex8(b->index) + y));
            lemma_hex8_cancel(nested_level, b->nested_level, hex8(index) + x, hex8(b->index) + y);
            lemma_hex8_cancel(index, b->index, x, y);
        },
    }
}

/// Two lists of types with captions that are written alike from index `from`
/// on hold the same types from there on, and what follows the captions is the
/// same.
pub proof fn lemma_captions_cancel(
    a: Seq<CppTypeView>,
    b: Seq<CppTypeView>,
    from: int,
    x: Seq<char>,
    y: Seq<char>,
)
    requires
        0 <= from <= a.len(),
        from <= b.len(),
        cpp_captions(a, from) + x == cpp_captions(b, from) + y,
    ensures
        a.len() == b.len(),
        forall|i: int| from <= i < a.len() ==> a[i] == b[i],
        x == y,
    decreases a, a.len() - from,
{
    let l = cpp_captions(a, from) + x;
    let r = cpp_captions(b, from) + y;
    if from < a.len() && from < b.len() {
        let rest_l = cpp_captions(a, from + 1) + x;
        let rest_r = cpp_captions(b, from + 1) + y;
        assert(l =~= cpp_caption(a[from]) + rest_l);
        assert(r =~= cpp_caption(b[from]) + rest_r);
        lemma_caption_cancel(a[from], b[from], rest_l, rest_r);
        lemma_captions_cancel(a, b, from + 1, x, y);
    } else if from < a.len() {
        assert(l[0] == cpp_caption(a[from])[0]);
        assert(r[0] == 'E');
        assert(false);
    } else if from < b.len() {
        assert(r[0] == cpp_caption(b[from])[0]);
        assert(l[0] == 'E');
        assert(false);
    } else {
        assert(x =~= l.skip(1));
        assert(y =~= r.skip(1));
    }
}

/// Two types with captions that are written alike are the same type, and
/// what follows the captions is the same.
pub proof fn lemma_caption_cancel(a: CppTypeView, b: CppTypeView, x: Seq<char>, y: Seq<char>)
    requires
        cpp_caption(a) + x == cpp_caption(b) + y,
    ensures
        a == b,
        x == y,
    decreases a, 1nat,
{
    let l = cpp_caption(a) + x;
    let r = cpp_caption(b) + y;
    assert(l[0] == const_tag(a.is_const) && l[1] == indirection_tag(a.indirection));
    assert(r[0] == const_tag(b.is_const) && r[1] == indirection_tag(b.indirection));
    assert(l.skip(2) =~= cpp_base_caption(a.base) + x);
    assert(r.skip(2) =~= cpp_base_caption(b.base) + y);
    lemma_base_caption_cancel(a.base, b.base, x, y);
}

/// Captions tell types apart: two native types with the same caption are the
/// same type.
pub proof fn lemma_caption_injective(a: CppTypeView, b: CppTypeView)
    requires
        cpp_caption(a) == cpp_caption(b),
    ensures
        a == b,
{
    lemma_caption_cancel(a, b, Seq::empty(), Seq::empty());
}

/// The caption of a base type is made of the characters of an identifier.
pub proof fn lemma_base_caption_is_identifier_text(base: CppTypeBaseView)
    ensures
        is_identifier_text(cpp_base_caption(base)),
    decreases base, 0nat,
{
    match base {
        CppTypeBaseView::Void => {},
        CppTypeBaseView::Scalar { name } => {
            lemma_words_are_identifier_text(name);
            lemma_identifier_text_concat(seq!['S'], words(name));
        },
        CppTypeBaseView::Flags { name, integer } => {
            lemma_words_are_identifier_text(name);
            lemma_words_are_identifier_text(integer);
            lemma_identifier_text_concat(seq!['F'], words(name));
            lemma_identifier_text_concat(seq!['F'] + words(name), words(integer));
        },
        CppTypeBaseView::Class { name, template_arguments: None } => {
            lemma_words_are_identifier_text(name);
            lemma_identifier_text_concat(seq!['C'], words(name));
        },
        CppTypeBaseView::Class { name, template_arguments: Some(arguments) } => {
            lemma_words_are_identifier_text(name);
            lemma_captions_are_identifier_text(arguments, 0);
            lemma_identifier_text_concat(seq!['G'], words(name));
            lemma_identifier_text_concat(seq!['G'] + words(name), cpp_captions(arguments, 0));
        },
        CppTypeBaseView::TemplateParameter { nested_level, index } => {
            lemma_hex8_is_identifier_text(nested_level);
            lemma_hex8_is_identifier_text(index);
            lemma_identifier_text_concat(seq!['T'], hex8(nested_level));
            lemma_identifier_text_concat(seq!['T'] + hex8(nested_level), hex8(index));
        },
    }
}

/// A list of captions is made of the characters of an identifier.
pub proof fn lemma_captions_are_identifier_text(types: Seq<CppTypeView>, from: int)
    ensures
        is_identifier_text(cpp_captions(types, from)),
    decreases types, types.len() - from,
{
    if 0 <= from < types.len() {
        lemma_caption_is_identifier_text(types[from]);
        lemma_captions_are_identifier_text(types, from + 1);
        lemma_identifier_text_concat(cpp_caption(types[from]), cpp_captions(types, from + 1));
    }
}

/// The caption of a type is made of the characters of an identifier.
pub proof fn lemma_caption_is_identifier_text(t: CppTypeView)
    ensures
        is_identifier_text(cpp_caption(t)),
    decreases t, 1nat,
{
    lemma_base_caption_is_identifier_text(t.base);
    lemma_identifier_text_concat(
        seq![const_tag(t.is_const), indirection_tag(t.indirection)],
        cpp_base_caption(t.base),
    );
}

/// Appends the captions of the types of `types` and the end of the list to
/// `text`.
fn push_captions(text: &mut String, types: &Vec<CppType>)
    ensures
        final(text)@ == old(text)@ + cpp_captions(cpp_type_views(types@), 0),
    decreases types, 3nat,
{
    let ghost all = cpp_type_views(types@);
    let mut i: usize = 0;
    while i < types.len()
        invariant
            i <= types@.len(),
            all == cpp_type_views(types@),
            text@ + cpp_captions(all, i as int) == old(text)@ + cpp_captions(all, 0),
        decreases types@.len() - i,
    {
        types[i].push_caption(text);
        i = i + 1;
    }
    proof {
        reveal_strlit("E");
    }
    text.append("E");
}

impl CppTypeBase {
    /// Appends the caption of the base type to `text`.
    fn push_caption(&self, text: &mut String)
        ensures
            final(text)@ == old(text)@ + cpp_base_caption(self@),
        decreases self, 0nat,
    {
        proof {
            reveal_strlit("V");
            reveal_strlit("S");
            reveal_strlit("F");
            reveal_strlit("C");
            reveal_strlit("G");
            reveal_strlit("T");
        }
        match self {
            CppTypeBase::Void => {
                text.append("V");
            },
            CppTypeBase::Scalar { name } => {
                text.append("S");
                push_words(text, name.parts());
            },
            CppTypeBase::Flags { name, integer } => {
                text.append("F");
                push_words(text, name.parts());
                push_words(text, integer.parts());
            },
            CppTypeBase::Class { name, template_arguments: None } => {
                text.append("C");
                push_words(text, name.parts());
            },
            CppTypeBase::Class { name, template_arguments: Some(arguments) } => {
                text.append("G");
                push_words(text, name.parts());
                push_captions(text, arguments);
            },
            CppTypeBase::TemplateParameter { nested_level, index } => {
                text.append("T");
                push_hex8(text, *nested_level);
                push_hex8(text, *index);
            },
        }
    }

    /// The caption of the base type.
    pub fn caption(&self) -> (text: String)
        ensures
            text@ == cpp_base_caption(self@),
    {
        let mut text = String::new();
        self.push_caption(&mut text);
        text
    }
}

impl CppType {
    /// Appends the caption of the type to `text`.
    fn push_caption(&self, text: &mut String)
        ensures
            final(text)@ == old(text)@ + cpp_caption(self@),
        decreases self, 1nat,
    {
        proof {
            reveal_strlit("c");
            reveal_strlit("m");
            reveal_strlit("v");
            reveal_strlit("p");
            reveal_strlit("r");
            reveal_strlit("q");
        }
        text.append(if self.is_const { "c" } else { "m" });
        text.append(
            match self.indirection {
                CppTypeIndirection::NoIndirection => "v",
                CppTypeIndirection::Ptr => "p",
                CppTypeIndirection::Ref => "r",
                CppTypeIndirection::PtrPtr => "q",
            },
        );
        self.base.push_caption(text);
    }

    /// The caption of the type.
    pub fn caption(&self) -> (text: String)
        ensures
            text@ == cpp_caption(self@),
    {
        let mut text = String::new();
        self.push_caption(&mut text);
        text
    }
}

} // verus!
