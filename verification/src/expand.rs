//! The generated conversions, as source text.
//!
//! The conversion to the integer is a match over the variants that gives
//! each its discriminant. The conversion from an integer compares the
//! integer with each discriminant in turn and ends in one error arm. Both
//! write the discriminants as they stand in the resolved enumeration, so
//! that the compiler evaluates them where the generated code is compiled.

use vstd::prelude::*;
use vstd::string::*;
use crate::ast::{Data, DeriveInput, EnumInput, Generics, Ident, RawVariant};
use crate::diagnostic::{error_report, Diagnostic, DiagnosticView};
use crate::convert::distinct;
use crate::input::{is_resolution, resolvable, Input, Variant};
use crate::laws::law_written_conversions;
use crate::repr::ReprView;
use crate::serde::{serde_impl, spec_serde_impl};
use crate::span::Span;
use crate::policy::{scan, ReprPolicy};
use crate::text::strip_prefix;

verus! {

/// The type of the enumeration as an impl block names it: its name with its
/// generic arguments.
pub open spec fn spec_target(input: &Input) -> Seq<char> {
    input.ident.name@ + input.generics.spec_type_generics()
}

/// The opening of an impl block of `trait_path` for `target`, up to and
/// with its brace.
pub open spec fn spec_impl_head(
    impl_generics: Seq<char>,
    trait_path: Seq<char>,
    target: Seq<char>,
    where_clause: Seq<char>,
) -> Seq<char> {
    "#[automatically_derived]\nimpl"@ + impl_generics + " "@ + trait_path + " for "@ + target
        + where_clause + " {\n"@
}

/// The arm that takes the variant `variant` to the discriminant `value`.
pub open spec fn spec_to_int_arm(enum_ty: Seq<char>, variant: Seq<char>, value: Seq<char>) -> Seq<
    char,
> {
    "            "@ + enum_ty + "::"@ + variant + " => { "@ + value + " }\n"@
}

/// The arm that takes an integer equal to the discriminant `value` to the
/// variant `variant`. A discriminant that is a literal stands as the
/// pattern of the arm. Any other expression cannot stand as a pattern, and
/// is compared with in the guard of the arm.
pub open spec fn spec_from_int_arm(
    int_enum: Seq<char>,
    enum_ty: Seq<char>,
    variant: Seq<char>,
    value: Seq<char>,
    literal: bool,
) -> Seq<char> {
    if literal {
        "            "@ + value + " => { "@ + int_enum + "::__private::Result::Ok("@ + enum_ty
            + "::"@ + variant + ") }\n"@
    } else {
        "            n if n == ("@ + value + ") => { "@ + int_enum + "::__private::Result::Ok("@
            + enum_ty + "::"@ + variant + ") }\n"@
    }
}

/// The arms of the conversion to the integer for the first `n` variants.
pub open spec fn spec_to_int_arms(input: &Input, n: int) -> Seq<char>
    decreases n,
{
    if n <= 0 {
        Seq::empty()
    } else {
        spec_to_int_arms(input, n - 1) + spec_to_int_arm(
            input.ident.name@,
            input.variants@[n - 1].ident.name@,
            input.variants@[n - 1].discriminant.spec_text(),
        )
    }
}

/// The arms of the conversion from an integer for the first `n` variants.
pub open spec fn spec_from_int_arms(int_enum: Seq<char>, input: &Input, n: int) -> Seq<char>
    decreases n,
{
    if n <= 0 {
        Seq::empty()
    } else {
        spec_from_int_arms(int_enum, input, n - 1) + spec_from_int_arm(
            int_enum,
            input.ident.name@,
            input.variants@[n - 1].ident.name@,
            input.variants@[n - 1].discriminant.spec_text(),
            input.variants@[n - 1].discriminant.spec_is_literal(),
        )
    }
}

/// What the arm written for the variant at position `i` gives when the
/// generated code runs: the integer that the discriminant written in it
/// evaluates to in the representation. `None` where the engine does not
/// evaluate the discriminant.
pub open spec fn written_int_value(input: &Input, i: int) -> Option<int> {
    input.variants@[i].discriminant.eval(input.ty())
}

/// The variant that the arms written for the conversion from an integer
/// take `n` to, going through them from position `from` on: the first whose
/// discriminant evaluates to `n`. This is what the generated code computes
/// where the engine evaluates every discriminant.
pub open spec fn written_from_int(input: &Input, n: int, from: int) -> Option<int>
    decreases input.variants@.len() - from,
{
    if from < 0 || from >= input.variants@.len() {
        None
    } else if written_int_value(input, from) == Some(n) {
        Some(from)
    } else {
        written_from_int(input, n, from + 1)
    }
}

/// Whether, in the code written for `input`, converting any variant to its
/// integer and that integer back gives the variant again.
pub open spec fn arms_round_trip(input: &Input) -> bool {
    forall|i: int|
        0 <= i < input.variants@.len() ==> (#[trigger] written_int_value(input, i) matches Some(n)
            && written_from_int(input, n, 0) == Some(i))
}

/// Whether, in the code written for `input`, an integer that no variant
/// stands for is taken to no variant, which leaves it to the arm of the
/// error that hands the integer on as it came.
pub open spec fn arms_refuse_unknown(input: &Input) -> bool {
    forall|n: int|
        (forall|i: int| 0 <= i < input.variants@.len() ==> written_int_value(input, i) != Some(n))
            ==> (#[trigger] written_from_int(input, n, 0)) is None
}

/// Whether the code written for `input` converts as it is meant to: an
/// integer that no variant stands for is refused, and every variant comes
/// back from its integer. The second is owed where the engine evaluates
/// every discriminant and no two variants stand for the same integer.
pub open spec fn converts_faithfully(input: &Input) -> bool {
    &&& input.evaluated() ==> arms_refuse_unknown(input)
    &&& input.evaluated() && distinct(input.known_values()) ==> arms_round_trip(input)
}

/// The impl block that holds the two conversions.
pub open spec fn spec_base(int_enum: Seq<char>, input: &Input) -> Seq<char> {
    spec_impl_head(
        input.generics.spec_impl_generics(),
        int_enum + "::IntEnum"@,
        spec_target(input),
        input.generics.spec_where_clause(),
    ) + "    type Int = "@ + input.repr.ident.name@
        + ";\n\n    #[inline]\n    fn int_value(self) -> Self::Int {\n        match self {\n"@
        + spec_to_int_arms(input, input.variants@.len() as int)
        + "        }\n    }\n\n    #[inline]\n    fn from_int(n: Self::Int) -> "@ + int_enum
        + "::__private::Result<Self, "@ + int_enum
        + "::IntEnumError<Self>>\n    where\n        Self: Sized,\n    {\n        match n {\n"@
        + spec_from_int_arms(int_enum, input, input.variants@.len() as int)
        + "            _ => { "@ + int_enum + "::__private::Result::Err("@ + int_enum
        + "::IntEnumError::__new(n)) }\n        }\n    }\n}\n"@
}

/// The impl blocks that offer the two conversions through the standard
/// conversion traits.
pub open spec fn spec_convert(int_enum: Seq<char>, input: &Input) -> Seq<char> {
    spec_impl_head(
        input.generics.spec_impl_generics(),
        int_enum + "::__private::From<"@ + spec_target(input) + ">"@,
        input.repr.ident.name@,
        input.generics.spec_where_clause(),
    ) + "    #[inline]\n    fn from(n: "@ + spec_target(input) + ") -> Self {\n        "@
        + int_enum + "::IntEnum::int_value(n)\n    }\n}\n\n"@ + spec_impl_head(
        input.generics.spec_impl_generics(),
        int_enum + "::__private::TryFrom<"@ + input.repr.ident.name@ + ">"@,
        spec_target(input),
        input.generics.spec_where_clause(),
    ) + "    type Error = "@ + int_enum
        + "::IntEnumError<Self>;\n\n    #[inline]\n    fn try_from(n: "@ + input.repr.ident.name@
        + ") -> "@ + int_enum + "::__private::Result<Self, Self::Error> {\n        "@ + int_enum
        + "::IntEnum::from_int(n)\n    }\n}\n"@
}

/// `s` without any number of leading `prefix`, for a `prefix` that is not
/// empty.
pub open spec fn trimmed_start(s: Seq<char>, prefix: Seq<char>) -> Seq<char>
    decreases s.len(),
{
    if prefix.len() > 0 && crate::text::starts_with(s, prefix) {
        trimmed_start(s.subrange(prefix.len() as int, s.len() as int), prefix)
    } else {
        s
    }
}

/// `code` inside a constant of its own, in which the library is reachable
/// as `_int_enum` whatever the crate `crate_name` is called elsewhere.
pub open spec fn spec_wrap_in_const(
    crate_name: Seq<char>,
    trait_: Seq<char>,
    ty: Seq<char>,
    code: Seq<char>,
) -> Seq<char> {
    "#[allow(non_upper_case_globals, unused_attributes, unused_qualifications)]\nconst _IMPL_"@
        + trait_ + "_FOR_"@ + trimmed_start(ty, "r#"@)
        + ": () = {\n    #[allow(unknown_lints)]\n    #[cfg_attr(feature = \"cargo-clippy\", allow(useless_attribute))]\n    #[allow(rust_2018_idioms)]\n    extern crate "@
        + crate_name + " as _int_enum;\n"@ + code + "};\n"@
}

/// The type of the enumeration as an impl block names it.
pub fn target(input: &Input) -> (s: String)
    ensures
        s@ == spec_target(input),
{
    let mut s: String = input.ident.name.clone();
    let args: String = input.generics.type_generics();
    s.append(args.as_str());
    s
}

/// The opening of an impl block of `trait_path` for `target`.
pub fn impl_head(impl_generics: &str, trait_path: &str, target: &str, where_clause: &str) -> (s:
    String)
    ensures
        s@ == spec_impl_head(impl_generics@, trait_path@, target@, where_clause@),
{
    let mut s: String = "#[automatically_derived]\nimpl".to_owned();
    s.append(impl_generics);
    s.append(" ");
    s.append(trait_path);
    s.append(" for ");
    s.append(target);
    s.append(where_clause);
    s.append(" {\n");
    s
}

fn to_int_arm(enum_ty: &str, variant: &str, value: &str) -> (s: String)
    ensures
        s@ == spec_to_int_arm(enum_ty@, variant@, value@),
{
    let mut s: String = "            ".to_owned();
    s.append(enum_ty);
    s.append("::");
    s.append(variant);
    s.append(" => { ");
    s.append(value);
    s.append(" }\n");
    s
}

fn from_int_arm(int_enum: &str, enum_ty: &str, variant: &str, value: &str, literal: bool) -> (s:
    String)
    ensures
        s@ == spec_from_int_arm(int_enum@, enum_ty@, variant@, value@, literal),
{
    let mut s: String = "            ".to_owned();
    if literal {
        s.append(value);
        s.append(" => { ");
    } else {
        s.append("n if n == (");
        s.append(value);
        s.append(") => { ");
        proof {
            reveal_strlit("            ");
            reveal_strlit("n if n == (");
            reveal_strlit("            n if n == (");
            assert("            "@ + "n if n == ("@ =~= "            n if n == ("@);
        }
    }
    s.append(int_enum);
    s.append("::__private::Result::Ok(");
    s.append(enum_ty);
    s.append("::");
    s.append(variant);
    s.append(") }\n");
    s
}

fn to_int_arms(input: &Input) -> (s: String)
    ensures
        s@ == spec_to_int_arms(input, input.variants@.len() as int),
{
    let mut s: String = String::new();
    let mut i: usize = 0;
    while i < input.variants.len()
        invariant
            0 <= i <= input.variants@.len(),
            s@ == spec_to_int_arms(input, i as int),
        decreases input.variants@.len() - i,
    {
        let variant: &Variant = &input.variants[i];
        let value: String = variant.discriminant.text();
        let arm: String = to_int_arm(
            input.ident.name.as_str(),
            variant.ident.name.as_str(),
            value.as_str(),
        );
        s.append(arm.as_str());
        i = i + 1;
    }
    s
}

fn from_int_arms(int_enum: &str, input: &Input) -> (s: String)
    ensures
        s@ == spec_from_int_arms(int_enum@, input, input.variants@.len() as int),
{
    let mut s: String = String::new();
    let mut i: usize = 0;
    while i < input.variants.len()
        invariant
            0 <= i <= input.variants@.len(),
            s@ == spec_from_int_arms(int_enum@, input, i as int),
        decreases input.variants@.len() - i,
    {
        let variant: &Variant = &input.variants[i];
        let value: String = variant.discriminant.text();
        let arm: String = from_int_arm(
            int_enum,
            input.ident.name.as_str(),
            variant.ident.name.as_str(),
            value.as_str(),
            variant.discriminant.is_literal(),
        );
        s.append(arm.as_str());
        i = i + 1;
    }
    s
}

/// Writes the impl block that holds the two conversions of `input`, with
/// the library reachable at the path `int_enum`.
pub fn base(int_enum: &str, input: &Input) -> (s: String)
    ensures
        s@ == spec_base(int_enum@, input),
        input.wf() ==> converts_faithfully(input),
{
    proof {
        if input.wf() {
            law_written_conversions(*input);
        }
    }
    let mut trait_path: String = int_enum.to_owned();
    trait_path.append("::IntEnum");
    let impl_generics: String = input.generics.impl_generics();
    let enum_ty: String = target(input);
    let where_clause: String = input.generics.spaced_where_clause();
    let mut s: String = impl_head(
        impl_generics.as_str(),
        trait_path.as_str(),
        enum_ty.as_str(),
        where_clause.as_str(),
    );
    s.append("    type Int = ");
    s.append(input.repr.ident.name.as_str());
    s.append(";\n\n    #[inline]\n    fn int_value(self) -> Self::Int {\n        match self {\n");
    let to_int: String = to_int_arms(input);
    s.append(to_int.as_str());
    s.append("        }\n    }\n\n    #[inline]\n    fn from_int(n: Self::Int) -> ");
    s.append(int_enum);
    s.append("::__private::Result<Self, ");
    s.append(int_enum);
    s.append(
        "::IntEnumError<Self>>\n    where\n        Self: Sized,\n    {\n        match n {\n",
    );
    let from_int: String = from_int_arms(int_enum, input);
    s.append(from_int.as_str());
    s.append("            _ => { ");
    s.append(int_enum);
    s.append("::__private::Result::Err(");
    s.append(int_enum);
    s.append("::IntEnumError::__new(n)) }\n        }\n    }\n}\n");
    s
}

/// Writes the impl blocks that offer the two conversions of `input` through
/// the standard conversion traits.
pub fn convert(int_enum: &str, input: &Input) -> (s: String)
    ensures
        s@ == spec_convert(int_enum@, input),
{
    let impl_generics: String = input.generics.impl_generics();
    let enum_ty: String = target(input);
    let where_clause: String = input.generics.spaced_where_clause();
    let int_ty: &str = input.repr.ident.name.as_str();

    let mut from_path: String = int_enum.to_owned();
    from_path.append("::__private::From<");
    from_path.append(enum_ty.as_str());
    from_path.append(">");
    let mut s: String = impl_head(
        impl_generics.as_str(),
        from_path.as_str(),
        int_ty,
        where_clause.as_str(),
    );
    s.append("    #[inline]\n    fn from(n: ");
    s.append(enum_ty.as_str());
    s.append(") -> Self {\n        ");
    s.append(int_enum);
    s.append("::IntEnum::int_value(n)\n    }\n}\n\n");

    let mut try_from_path: String = int_enum.to_owned();
    try_from_path.append("::__private::TryFrom<");
    try_from_path.append(int_ty);
    try_from_path.append(">");
    let try_from_head: String = impl_head(
        impl_generics.as_str(),
        try_from_path.as_str(),
        enum_ty.as_str(),
        where_clause.as_str(),
    );
    s.append(try_from_head.as_str());
    s.append("    type Error = ");
    s.append(int_enum);
    s.append("::IntEnumError<Self>;\n\n    #[inline]\n    fn try_from(n: ");
    s.append(int_ty);
    s.append(") -> ");
    s.append(int_enum);
    s.append("::__private::Result<Self, Self::Error> {\n        ");
    s.append(int_enum);
    s.append("::IntEnum::from_int(n)\n    }\n}\n");
    s
}

/// `s` without any number of leading `prefix`.
pub fn trim_start_matches<'a>(s: &'a str, prefix: &str) -> (r: &'a str)
    ensures
        r@ == trimmed_start(s@, prefix@),
{
    let k: usize = prefix.unicode_len();
    if k == 0 {
        return s;
    }
    let mut cur: &'a str = s;
    loop
        invariant
            k == prefix@.len(),
            k > 0,
            trimmed_start(s@, prefix@) == trimmed_start(cur@, prefix@),
        decreases cur@.len(),
    {
        let next: &'a str = strip_prefix(cur, prefix);
        if next.unicode_len() == cur.unicode_len() {
            return cur;
        }
        cur = next;
    }
}

/// Writes `code` inside a constant of its own, named after the trait
/// `trait_` and the type `ty`, in which the library is reachable as
/// `_int_enum` whatever the crate `crate_name` is called elsewhere.
pub fn wrap_in_const(crate_name: &str, trait_: &str, ty: &Ident, code: &str) -> (s: String)
    ensures
        s@ == spec_wrap_in_const(crate_name@, trait_@, ty.name@, code@),
{
    let unraw_ty: &str = trim_start_matches(ty.name.as_str(), "r#");
    let mut s: String =
        "#[allow(non_upper_case_globals, unused_attributes, unused_qualifications)]\nconst _IMPL_".to_owned();
    s.append(trait_);
    s.append("_FOR_");
    s.append(unraw_ty);
    s.append(
        ": () = {\n    #[allow(unknown_lints)]\n    #[cfg_attr(feature = \"cargo-clippy\", allow(useless_attribute))]\n    #[allow(rust_2018_idioms)]\n    extern crate ",
    );
    s.append(crate_name);
    s.append(" as _int_enum;\n");
    s.append(code);
    s.append("};\n");
    s
}

/// Writes the two conversions of `input` inside a constant of their own.
pub fn int_enum_impl(crate_name: &str, input: &Input) -> (s: String)
    ensures
        s@ == spec_wrap_in_const(
            crate_name@,
            "IntEnum"@,
            input.ident.name@,
            spec_base("_int_enum"@, input),
        ),
{
    let code: String = base("_int_enum", input);
    wrap_in_const(crate_name, "IntEnum", &input.ident, code.as_str())
}

/// Writes the standard conversion traits for `input` inside a constant of
/// their own.
pub fn inner_impl(crate_name: &str, input: &Input) -> (s: String)
    ensures
        s@ == spec_wrap_in_const(
            crate_name@,
            "CONVERT"@,
            input.ident.name@,
            spec_convert("_int_enum"@, input),
        ),
{
    let code: String = convert("_int_enum", input);
    wrap_in_const(crate_name, "CONVERT", &input.ident, code.as_str())
}

/// Writes the standard conversion traits for `input` inside a constant of
/// their own where `enabled` asks for them, and nothing otherwise.
pub fn convert_impl(enabled: bool, crate_name: &str, input: &Input) -> (s: String)
    ensures
        s@ == (if enabled {
            spec_wrap_in_const(
                crate_name@,
                "CONVERT"@,
                input.ident.name@,
                spec_convert("_int_enum"@, input),
            )
        } else {
            Seq::empty()
        }),
{
    if enabled {
        inner_impl(crate_name, input)
    } else {
        String::new()
    }
}

/// How the crate that holds the library was found among the dependencies of
/// the crate that is being compiled.
#[derive(Debug, PartialEq, Eq)]
pub enum FoundCrate {
    /// The crate that is being compiled is the library itself.
    Itself,
    /// The library is a dependency, known under this name.
    Name(String),
}

/// The path at which generated code reaches the library.
pub open spec fn spec_crate_path(found: Option<FoundCrate>) -> Seq<char> {
    match found {
        Some(FoundCrate::Name(name)) => "::"@ + name@,
        _ => "::int_enum"@,
    }
}

/// The path at which generated code reaches the library: under the name it
/// was found by, and under its own name where it was not found or is the
/// crate being compiled.
pub fn with_crate_path(found: &Option<FoundCrate>) -> (s: String)
    ensures
        s@ == spec_crate_path(*found),
{
    match found {
        Some(FoundCrate::Name(name)) => {
            let mut s: String = "::".to_owned();
            s.append(name.as_str());
            s
        },
        _ => "::int_enum".to_owned(),
    }
}

/// Which parts of the generated code are asked for, and how the
/// representation is looked for.
#[derive(Clone, Copy, Debug, PartialEq, Eq, Structural)]
pub struct Options {
    /// Whether to offer the conversions through the standard conversion
    /// traits too.
    pub convert: bool,
    /// Whether to write the code for the wire format.
    pub serde: bool,
    /// How the representation is looked for.
    pub repr: ReprPolicy,
}

/// The message for a declaration of a struct.
pub const NOT_FOR_STRUCTS: &'static str = "this trait cannot be derived for structs";

/// The message for a declaration of a union.
pub const NOT_FOR_UNIONS: &'static str = "this trait cannot be derived for unions";

/// Everything that is generated for `input`: the two conversions, then
/// what the options ask for.
pub open spec fn spec_derived(int_enum: Seq<char>, input: &Input, options: Options) -> Seq<char> {
    let with_base: Seq<char> = spec_base(int_enum, input);
    let with_convert: Seq<char> = if options.convert {
        with_base + "\n"@ + spec_convert(int_enum, input)
    } else {
        with_base
    };
    if options.serde {
        with_convert + "\n"@ + spec_serde_impl(int_enum, input)
    } else {
        with_convert
    }
}

/// Generates the code for the resolved enumeration `input`.
pub fn synthesize(int_enum: &str, input: &Input, options: Options) -> (s: String)
    ensures
        s@ == spec_derived(int_enum@, input, options),
{
    let mut s: String = base(int_enum, input);
    if options.convert {
        s.append("\n");
        let conversions: String = convert(int_enum, input);
        s.append(conversions.as_str());
    }
    if options.serde {
        s.append("\n");
        let wire: String = serde_impl(int_enum, input);
        s.append(wire.as_str());
    }
    s
}

/// Whether `r` is the outcome of deriving for the enumeration with the
/// given name, generics and variants, after the scan for its
/// representation has ended in `scan`: the error of resolving it, or else
/// the code written for what it resolves to, which converts faithfully.
pub open spec fn is_derivation(
    scan: Result<ReprView, DiagnosticView>,
    ident: Ident,
    generics: Generics,
    raws: Seq<RawVariant>,
    int_enum: Seq<char>,
    options: Options,
    r: Result<String, Diagnostic>,
) -> bool {
    ||| r matches Err(d) && is_resolution(scan, ident, generics, raws, Err(d))
    ||| r matches Ok(s) && exists|input: Input| #[trigger]
        is_resolution(scan, ident, generics, raws, Ok(input)) && s@ == spec_derived(
            int_enum,
            &input,
            options,
        ) && input.wf() && converts_faithfully(&input)
}

/// Derives the conversions for the enumeration `input`.
pub fn derive_enum(input: &EnumInput, found: &Option<FoundCrate>, options: Options) -> (r: Result<
    String,
    Diagnostic,
>)
    ensures
        is_derivation(
            scan(options.repr, input.attrs@, input.span),
            input.ident,
            input.generics,
            input.data.variants@,
            spec_crate_path(*found),
            options,
            r,
        ),
        r is Ok <==> resolvable(
            scan(options.repr, input.attrs@, input.span),
            input.data.variants@,
        ),
{
    match Input::from_enum(input, options.repr) {
        Ok(resolved) => {
            proof {
                law_written_conversions(resolved);
            }
            let int_enum: String = with_crate_path(found);
            Ok(synthesize(int_enum.as_str(), &resolved, options))
        },
        Err(d) => Err(d),
    }
}

/// Derives the conversions for the declaration `node`, which has to be that
/// of an enumeration.
pub fn derive(node: &DeriveInput, found: &Option<FoundCrate>, options: Options) -> (r: Result<
    String,
    Diagnostic,
>)
    ensures
        match node.data {
            Data::Enum(data) => is_derivation(
                scan(options.repr, node.attrs@, node.span),
                node.ident,
                node.generics,
                data.variants@,
                spec_crate_path(*found),
                options,
                r,
            ),
            Data::Struct => r matches Err(d) && d@ == error_report(
                Span::call_site(),
                NOT_FOR_STRUCTS@,
            ),
            Data::Union => r matches Err(d) && d@ == error_report(
                Span::call_site(),
                NOT_FOR_UNIONS@,
            ),
        },
        r is Ok <==> (node.data matches Data::Enum(data) && resolvable(
            scan(options.repr, node.attrs@, node.span),
            data.variants@,
        )),
{
    match &node.data {
        Data::Enum(_) => {},
        Data::Struct => {
            return Err(Diagnostic::error(Span::call_site(), NOT_FOR_STRUCTS));
        },
        Data::Union => {
            return Err(Diagnostic::error(Span::call_site(), NOT_FOR_UNIONS));
        },
    }
    match Input::from_syn(node, options.repr) {
        Ok(resolved) => {
            proof {
                law_written_conversions(resolved);
            }
            let int_enum: String = with_crate_path(found);
            Ok(synthesize(int_enum.as_str(), &resolved, options))
        },
        Err(d) => Err(d),
    }
}

} // verus!
