//! The declaration of an enumeration, as the engine receives it.
//!
//! These types hold, as plain values, what the engine reads from a parsed
//! declaration: names, spans, the attributes with their arguments, and the
//! variants with their fields and discriminants.

use vstd::prelude::*;
use vstd::string::*;
use crate::expr::Expr;
use crate::span::Span;
use crate::text::str_eq;

verus! {

/// An identifier and where it stands.
#[derive(Debug, PartialEq, Eq)]
pub struct Ident {
    pub name: String,
    pub span: Span,
}

/// What an [`Ident`] says.
pub struct IdentView {
    pub name: Seq<char>,
    pub span: Span,
}

impl View for Ident {
    type V = IdentView;

    open spec fn view(&self) -> IdentView {
        IdentView { name: self.name@, span: self.span }
    }
}

impl Ident {
    /// The identifier `name` at `span`.
    pub fn new(name: &str, span: Span) -> (r: Ident)
        ensures
            r@ == (IdentView { name: name@, span }),
    {
        Ident { name: name.to_owned(), span }
    }

    /// A copy of the identifier.
    pub fn duplicate(&self) -> (r: Ident)
        ensures
            r@ == self@,
    {
        Ident { name: self.name.clone(), span: self.span }
    }
}

/// A path such as `repr` or `core::fmt::Debug`, as its segments.
#[derive(Debug, PartialEq, Eq)]
pub struct Path {
    pub segments: Vec<Ident>,
}

impl Path {
    /// The path as one identifier, where it is made of exactly one segment.
    pub open spec fn spec_get_ident(&self) -> Option<Ident> {
        if self.segments@.len() == 1 {
            Some(self.segments@[0])
        } else {
            None
        }
    }

    /// Whether the path is the one identifier `name`.
    pub open spec fn spec_is_ident(&self, name: Seq<char>) -> bool {
        self.segments@.len() == 1 && self.segments@[0].name@ == name
    }

    /// The path made of the one identifier `name`.
    pub fn from_ident(name: &str, span: Span) -> (r: Path)
        ensures
            r.spec_is_ident(name@),
            r.segments@.len() == 1,
            r.segments@[0]@ == (IdentView { name: name@, span }),
    {
        let mut segments: Vec<Ident> = Vec::new();
        segments.push(Ident::new(name, span));
        Path { segments }
    }

    /// The path as one identifier, where it is made of exactly one segment.
    pub fn get_ident(&self) -> (r: Option<&Ident>)
        ensures
            match r {
                Some(ident) => self.spec_get_ident() == Some(*ident),
                None => self.spec_get_ident() is None,
            },
    {
        if self.segments.len() == 1 {
            Some(&self.segments[0])
        } else {
            None
        }
    }

    /// Whether the path is the one identifier `name`.
    pub fn is_ident(&self, name: &str) -> (r: bool)
        ensures
            r == self.spec_is_ident(name@),
    {
        self.segments.len() == 1 && str_eq(self.segments[0].name.as_str(), name)
    }
}

/// One item in the argument list of an attribute. Only its kind and its path
/// are kept.
#[derive(Debug, PartialEq, Eq)]
pub enum Meta {
    /// A bare path, such as `u8` in `#[repr(u8)]`.
    Path(Path),
    /// A path with arguments of its own, such as `align(4)`.
    List(Path),
    /// A path with a value, such as `packed = 2`.
    NameValue(Path),
}

/// The argument list of an attribute.
#[derive(Debug, PartialEq, Eq)]
pub enum Nested {
    /// The items of the list, in order.
    Metas(Vec<Meta>),
    /// The attribute has no argument list that can be read as meta items;
    /// the span and the message say what is wrong with it.
    Invalid(Span, String),
}

impl Meta {
    /// The path of the item.
    pub open spec fn spec_path(&self) -> Path {
        match self {
            Meta::Path(path) => *path,
            Meta::List(path) => *path,
            Meta::NameValue(path) => *path,
        }
    }

    /// Where the item stands: where its path begins.
    pub open spec fn spec_span(&self) -> Span {
        if self.spec_path().segments@.len() > 0 {
            self.spec_path().segments@[0].span
        } else {
            Span::call_site()
        }
    }

    /// The path of the item.
    pub fn path(&self) -> (r: &Path)
        ensures
            *r == self.spec_path(),
    {
        match self {
            Meta::Path(path) => path,
            Meta::List(path) => path,
            Meta::NameValue(path) => path,
        }
    }

    /// Where the item stands: where its path begins.
    pub fn span(&self) -> (r: Span)
        ensures
            r == self.spec_span(),
    {
        let path: &Path = self.path();
        if path.segments.len() > 0 {
            path.segments[0].span
        } else {
            Span::call_site()
        }
    }
}

/// An attribute on the declaration.
#[derive(Debug, PartialEq, Eq)]
pub struct Attribute {
    pub path: Path,
    pub nested: Nested,
    /// Where the attribute stands.
    pub span: Span,
}

impl Attribute {
    /// The attribute `#[repr(name)]`.
    pub fn repr(name: &str) -> (r: Attribute)
        ensures
            r.path.spec_is_ident("repr"@),
            r.span == Span::call_site(),
            r.nested matches Nested::Metas(metas) && metas@.len() == 1 && (metas@[0] matches Meta::Path(
                path,
            ) && path.segments@.len() == 1 && path.segments@[0]@ == (IdentView {
                name: name@,
                span: Span::call_site(),
            })),
    {
        let mut metas: Vec<Meta> = Vec::new();
        metas.push(Meta::Path(Path::from_ident(name, Span::call_site())));
        Attribute {
            path: Path::from_ident("repr", Span::call_site()),
            nested: Nested::Metas(metas),
            span: Span::call_site(),
        }
    }
}

/// What kind of fields a variant has.
#[derive(Clone, Copy, Debug, PartialEq, Eq, Structural)]
pub enum Fields {
    /// No fields: `A`
    Unit,
    /// Named fields: `A { x: u8 }`
    Named,
    /// Unnamed fields: `A(u8)`
    Unnamed,
}

/// A variant as declared.
#[derive(Debug, PartialEq, Eq)]
pub struct RawVariant {
    pub ident: Ident,
    pub fields: Fields,
    /// Where the fields stand.
    pub fields_span: Span,
    /// The discriminant, where one is written.
    pub discriminant: Option<Expr>,
}

impl RawVariant {
    /// The variant `name` with fields of the given kind and without a
    /// discriminant.
    pub fn with_fields(name: &str, fields: Fields, fields_span: Span) -> (r: RawVariant)
        ensures
            r.ident@ == (IdentView { name: name@, span: Span::call_site() }),
            r.fields == fields,
            r.fields_span == fields_span,
            r.discriminant is None,
    {
        RawVariant {
            ident: Ident::new(name, Span::call_site()),
            fields,
            fields_span,
            discriminant: None,
        }
    }

    /// The fieldless variant `name` with the given discriminant.
    pub fn unit(name: &str, discriminant: Option<Expr>) -> (r: RawVariant)
        ensures
            r.ident@ == (IdentView { name: name@, span: Span::call_site() }),
            r.fields == Fields::Unit,
            r.fields_span == Span::call_site(),
            r.discriminant == discriminant,
    {
        RawVariant {
            ident: Ident::new(name, Span::call_site()),
            fields: Fields::Unit,
            fields_span: Span::call_site(),
            discriminant,
        }
    }
}

/// The generic parameters of the declaration, as the texts that an impl
/// block for the type is put together from.
#[derive(Debug, PartialEq, Eq)]
pub struct Generics {
    /// The parameters with their bounds, as they stand between the angle
    /// brackets of the declaration: `T: Copy, const N: usize`. Empty where
    /// there are none.
    pub params: String,
    /// The parameters as they are handed to the type: `T, N`. Empty where
    /// there are none.
    pub args: String,
    /// The `where` clause with its keyword, or nothing.
    pub where_clause: String,
}

/// `inner` between angle brackets, or nothing where `inner` is empty.
pub open spec fn bracketed(inner: Seq<char>) -> Seq<char> {
    if inner.len() == 0 {
        inner
    } else {
        "<"@ + inner + ">"@
    }
}

/// `first` and `rest` as one list between angle brackets.
pub open spec fn bracketed_after(first: Seq<char>, rest: Seq<char>) -> Seq<char> {
    if rest.len() == 0 {
        "<"@ + first + ">"@
    } else {
        "<"@ + first + ", "@ + rest + ">"@
    }
}

/// `clause` with a space before it, or nothing where `clause` is empty.
pub open spec fn spaced(clause: Seq<char>) -> Seq<char> {
    if clause.len() == 0 {
        clause
    } else {
        " "@ + clause
    }
}

impl Generics {
    /// No generic parameters.
    pub fn none() -> (r: Generics)
        ensures
            r.params@ == Seq::<char>::empty(),
            r.args@ == Seq::<char>::empty(),
            r.where_clause@ == Seq::<char>::empty(),
    {
        Generics { params: String::new(), args: String::new(), where_clause: String::new() }
    }

    /// What follows `impl` in an impl block for the type.
    pub open spec fn spec_impl_generics(&self) -> Seq<char> {
        bracketed(self.params@)
    }

    /// What follows `impl` in an impl block for the type that has the
    /// parameter `first` of its own.
    pub open spec fn spec_impl_generics_with(&self, first: Seq<char>) -> Seq<char> {
        bracketed_after(first, self.params@)
    }

    /// What follows the name of the type in an impl block for it.
    pub open spec fn spec_type_generics(&self) -> Seq<char> {
        bracketed(self.args@)
    }

    /// The `where` clause as it follows the type in an impl block.
    pub open spec fn spec_where_clause(&self) -> Seq<char> {
        spaced(self.where_clause@)
    }

    /// What follows `impl` in an impl block for the type.
    pub fn impl_generics(&self) -> (s: String)
        ensures
            s@ == self.spec_impl_generics(),
    {
        bracket(self.params.as_str())
    }

    /// What follows `impl` in an impl block for the type that has the
    /// parameter `first` of its own.
    pub fn impl_generics_with(&self, first: &str) -> (s: String)
        ensures
            s@ == self.spec_impl_generics_with(first@),
    {
        let mut s: String = "<".to_owned();
        s.append(first);
        if self.params.as_str().unicode_len() != 0 {
            s.append(", ");
            s.append(self.params.as_str());
        }
        s.append(">");
        s
    }

    /// What follows the name of the type in an impl block for it.
    pub fn type_generics(&self) -> (s: String)
        ensures
            s@ == self.spec_type_generics(),
    {
        bracket(self.args.as_str())
    }

    /// The `where` clause as it follows the type in an impl block.
    pub fn spaced_where_clause(&self) -> (s: String)
        ensures
            s@ == self.spec_where_clause(),
    {
        if self.where_clause.as_str().unicode_len() == 0 {
            self.where_clause.clone()
        } else {
            let mut s: String = " ".to_owned();
            s.append(self.where_clause.as_str());
            s
        }
    }

    /// A copy of the generics.
    pub fn duplicate(&self) -> (r: Generics)
        ensures
            r.params@ == self.params@,
            r.args@ == self.args@,
            r.where_clause@ == self.where_clause@,
    {
        Generics {
            params: self.params.clone(),
            args: self.args.clone(),
            where_clause: self.where_clause.clone(),
        }
    }
}

/// `inner` between angle brackets, or nothing where `inner` is empty.
fn bracket(inner: &str) -> (s: String)
    ensures
        s@ == bracketed(inner@),
{
    if inner.unicode_len() == 0 {
        inner.to_owned()
    } else {
        let mut s: String = "<".to_owned();
        s.append(inner);
        s.append(">");
        s
    }
}

/// The body of an enumeration.
#[derive(Debug, PartialEq, Eq)]
pub struct DataEnum {
    pub variants: Vec<RawVariant>,
}

/// What kind of type a declaration declares.
#[derive(Debug, PartialEq, Eq)]
pub enum Data {
    Enum(DataEnum),
    Struct,
    Union,
}

/// A declaration handed to the engine.
#[derive(Debug, PartialEq, Eq)]
pub struct DeriveInput {
    /// Where the whole declaration stands.
    pub span: Span,
    pub attrs: Vec<Attribute>,
    pub ident: Ident,
    pub generics: Generics,
    pub data: Data,
}

/// The declaration of an enumeration.
#[derive(Debug, PartialEq, Eq)]
pub struct EnumInput {
    /// Where the whole declaration stands.
    pub span: Span,
    pub attrs: Vec<Attribute>,
    pub ident: Ident,
    pub generics: Generics,
    pub data: DataEnum,
}

impl EnumInput {
    /// The declaration of the enumeration `name` without generic
    /// parameters, with the given attributes and variants.
    pub fn new(name: &str, attrs: Vec<Attribute>, variants: Vec<RawVariant>) -> (r: EnumInput)
        ensures
            r.span == Span::call_site(),
            r.attrs == attrs,
            r.ident@ == (IdentView { name: name@, span: Span::call_site() }),
            r.generics.params@.len() == 0,
            r.generics.args@.len() == 0,
            r.generics.where_clause@.len() == 0,
            r.data.variants == variants,
    {
        EnumInput {
            span: Span::call_site(),
            attrs,
            ident: Ident::new(name, Span::call_site()),
            generics: Generics::none(),
            data: DataEnum { variants },
        }
    }
}

impl DeriveInput {
    /// The declaration `input` as one of any kind.
    pub fn from_enum(input: EnumInput) -> (r: DeriveInput)
        ensures
            r.span == input.span,
            r.attrs == input.attrs,
            r.ident == input.ident,
            r.generics == input.generics,
            r.data == Data::Enum(input.data),
    {
        DeriveInput {
            span: input.span,
            attrs: input.attrs,
            ident: input.ident,
            generics: input.generics,
            data: Data::Enum(input.data),
        }
    }
}

} // verus!
