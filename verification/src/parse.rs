//! The declaration model: per-variant annotations, attribute extraction,
//! and the shape checks that precede codec generation.
//!
//! A declaration arrives as a [`RawDecl`].  [`Input::parse`] checks that it
//! is a non-empty enum and extracts each variant's annotations;
//! [`LabeledStringInput::parse`] additionally demands that every variant is
//! unit-shaped and carries a canonical string, as labeled-string codecs
//! require.

use vstd::prelude::*;
use crate::text::str_eq;

verus! {

/// The value carried by one annotation on a variant, as the host
/// declaration presents it.
pub enum AttrValue {
    /// A name-value annotation whose value is a string literal.
    Str(String),
    /// A name-value annotation whose value is not a string literal.
    NotAString,
    /// An annotation not of name-value form; skipped, unless it is named
    /// `string` or `alias`, which demand a string-literal value.
    NotNameValue,
}

/// One annotation on a variant: a name together with its value.
pub struct RawAttr {
    pub name: String,
    pub value: AttrValue,
}

/// The shape of a variant's fields.
#[derive(Clone, Copy, Debug)]
pub enum Fields {
    Unit,
    Named,
    Unnamed,
}

/// One variant of a declaration, before its annotations are interpreted.
pub struct RawVariant {
    pub ident: String,
    pub attrs: Vec<RawAttr>,
    pub fields: Fields,
}

/// A declaration handed to the derive functions: a name, whether it is an
/// enum, and its variants in declaration order.
pub struct RawDecl {
    pub ident: String,
    pub is_enum: bool,
    pub variants: Vec<RawVariant>,
}

/// A failure while interpreting a declaration.  No codec is produced.
#[derive(Debug, PartialEq, Eq)]
pub enum GenError {
    /// The declaration is not an enum.
    NotAnEnum,
    /// The enum has no variants.
    EmptyEnum,
    /// A variant carries fields, which labeled-string codecs do not allow.
    NonUnitVariant,
    /// A variant lacks a `string = "..."` annotation in labeled mode.
    MissingCanonicalString,
    /// A `string` or `alias` annotation whose value is not a string literal.
    MalformedAttribute { attr: String },
}

impl GenError {
    /// The diagnostic text of this error.
    pub fn message(&self) -> (r: String)
        ensures
            r@ == self.spec_message(),
    {
        match self {
            GenError::NotAnEnum => String::from_str("input must be an enum"),
            GenError::EmptyEnum => String::from_str("enum must have at least one variant"),
            GenError::NonUnitVariant => String::from_str("all variants must be a unit variant"),
            GenError::MissingCanonicalString => String::from_str(
                "all variants must have \"string\" attribute",
            ),
            GenError::MalformedAttribute { attr } => {
                let mut m = String::from_str("\"");
                m.append(attr.as_str());
                m.append("\" attribute must be a string literal");
                m
            },
        }
    }

    /// What `message` returns, for each error.
    pub open spec fn spec_message(self) -> Seq<char> {
        match self {
            GenError::NotAnEnum => "input must be an enum"@,
            GenError::EmptyEnum => "enum must have at least one variant"@,
            GenError::NonUnitVariant => "all variants must be a unit variant"@,
            GenError::MissingCanonicalString => "all variants must have \"string\" attribute"@,
            GenError::MalformedAttribute { attr } => "\""@ + attr@
                + "\" attribute must be a string literal"@,
        }
    }
}

/// The annotations extracted from one variant: the canonical string, if
/// declared, and the alias strings in declaration order.
#[derive(Debug)]
pub struct VariantAttrs {
    pub string: Option<String>,
    pub aliases: Vec<String>,
}

/// The mathematical content of a [`VariantAttrs`].
pub struct AttrsModel {
    pub string: Option<Seq<char>>,
    pub aliases: Seq<Seq<char>>,
}

impl VariantAttrs {
    pub fn new() -> (r: Self)
        ensures
            r.model() == (AttrsModel {
                string: None::<Seq<char>>,
                aliases: Seq::<Seq<char>>::empty(),
            }),
    {
        let r = Self { string: None, aliases: Vec::new() };
        proof {
            assert(r.model().aliases =~= Seq::<Seq<char>>::empty());
        }
        r
    }

    pub open spec fn model(self) -> AttrsModel {
        AttrsModel {
            string: match self.string {
                Some(s) => Some(s@),
                None => None,
            },
            aliases: self.aliases@.map_values(|a: String| a@),
        }
    }
}

/// Interpreting a sequence of annotations, starting from what has been
/// collected so far: a later `string` annotation replaces an earlier one,
/// each `alias` annotation appends, annotations of other names are
/// skipped, and a `string` or `alias` annotation that does not carry
/// exactly one string-literal value stops everything with the name of
/// the offending annotation.
pub open spec fn spec_attrs_from(attrs: Seq<RawAttr>, acc: AttrsModel) -> Result<
    AttrsModel,
    Seq<char>,
>
    decreases attrs.len(),
{
    if attrs.len() == 0 {
        Ok(acc)
    } else {
        let a = attrs[0];
        let rest = attrs.drop_first();
        match a.value {
            AttrValue::Str(s) => if a.name@ == "string"@ {
                spec_attrs_from(rest, AttrsModel { string: Some(s@), aliases: acc.aliases })
            } else if a.name@ == "alias"@ {
                spec_attrs_from(rest, AttrsModel { string: acc.string, aliases: acc.aliases.push(s@) })
            } else {
                spec_attrs_from(rest, acc)
            },
            _ => if a.name@ == "string"@ {
                Err("string"@)
            } else if a.name@ == "alias"@ {
                Err("alias"@)
            } else {
                spec_attrs_from(rest, acc)
            },
        }
    }
}

/// Interpreting a variant's annotations from scratch.
pub open spec fn spec_attrs(attrs: Seq<RawAttr>) -> Result<AttrsModel, Seq<char>> {
    spec_attrs_from(attrs, AttrsModel { string: None, aliases: Seq::empty() })
}

pub open spec fn attrs_ok(attrs: Seq<RawAttr>) -> bool {
    spec_attrs(attrs) is Ok
}

/// The value of a well-formed annotation.  The caller has already
/// checked the annotation's name; only a name-value annotation carrying
/// a string literal is accepted.
fn get_string_literal_from_name_value_attr(attribute_name: &str, value: &AttrValue) -> (r: Result<
    String,
    GenError,
>)
    ensures
        match r {
            Ok(s) => value matches AttrValue::Str(v) && s@ == v@,
            Err(e) => !(value is Str) && (e matches GenError::MalformedAttribute { attr }
                && attr@ == attribute_name@),
        },
{
    match value {
        AttrValue::Str(s) => Ok(s.clone()),
        _ => Err(GenError::MalformedAttribute { attr: String::from_str(attribute_name) }),
    }
}

/// Extracts the canonical string and the aliases from one variant's
/// annotation list, exactly as [`spec_attrs`] describes.
pub fn parse_variant_attrs(attrs: &Vec<RawAttr>) -> (r: Result<VariantAttrs, GenError>)
    ensures
        match r {
            Ok(va) => spec_attrs(attrs@) == Ok::<AttrsModel, Seq<char>>(va.model()),
            Err(e) => e matches GenError::MalformedAttribute { attr } && spec_attrs(attrs@)
                == Err::<AttrsModel, Seq<char>>(attr@),
        },
{
    let mut out = VariantAttrs::new();
    let mut i: usize = 0;
    proof {
        assert(attrs@.skip(0) =~= attrs@);
    }
    while i < attrs.len()
        invariant
            i <= attrs@.len(),
            spec_attrs(attrs@) == spec_attrs_from(attrs@.skip(i as int), out.model()),
        decreases attrs@.len() - i,
    {
        let ghost pre = out.model();
        proof {
            assert(attrs@.skip(i as int)[0] == attrs@[i as int]);
            assert(attrs@.skip(i as int).drop_first() =~= attrs@.skip(i as int + 1));
        }
        let a = &attrs[i];
        if str_eq(a.name.as_str(), "string") {
            match get_string_literal_from_name_value_attr("string", &a.value) {
                Ok(s) => {
                    out.string = Some(s);
                    proof {
                        assert(out.model().aliases =~= pre.aliases);
                    }
                },
                Err(e) => {
                    return Err(e);
                },
            }
        } else if str_eq(a.name.as_str(), "alias") {
            match get_string_literal_from_name_value_attr("alias", &a.value) {
                Ok(s) => {
                    let ghost sv = s@;
                    out.aliases.push(s);
                    proof {
                        assert(out.model().aliases =~= pre.aliases.push(sv));
                    }
                },
                Err(e) => {
                    return Err(e);
                },
            }
        }
        i += 1;
    }
    proof {
        assert(attrs@.skip(i as int) =~= Seq::<RawAttr>::empty());
    }
    Ok(out)
}

/// One variant after its annotations have been extracted.
#[derive(Debug)]
pub struct Variant {
    pub ident: String,
    pub attrs: VariantAttrs,
    pub fields: Fields,
}

/// `v` is what extraction makes of the declared variant `rv`.
pub open spec fn variant_models(v: Variant, rv: RawVariant) -> bool {
    &&& v.ident@ == rv.ident@
    &&& v.fields == rv.fields
    &&& spec_attrs(rv.attrs@) == Ok::<AttrsModel, Seq<char>>(v.attrs.model())
}

/// Every variant's annotation list is well-formed.
pub open spec fn all_attrs_ok(vs: Seq<RawVariant>) -> bool {
    forall|i: int| 0 <= i < vs.len() ==> attrs_ok(#[trigger] vs[i].attrs@)
}

/// Every variant is unit-shaped.
pub open spec fn all_unit(vs: Seq<RawVariant>) -> bool {
    forall|i: int| 0 <= i < vs.len() ==> (#[trigger] vs[i].fields) is Unit
}

/// Every variant's annotations carry a canonical string.
pub open spec fn all_have_string(vs: Seq<RawVariant>) -> bool {
    forall|i: int| 0 <= i < vs.len() ==> ((#[trigger] spec_attrs(vs[i].attrs@)) matches Ok(m)
        && m.string is Some)
}

/// A declaration found to be a non-empty enum, each variant's annotations
/// extracted.  This is all that custom-mode codec generation needs.
#[derive(Debug)]
pub struct Input {
    pub ident: String,
    pub variants: Vec<Variant>,
}

/// `inp` is what validation makes of the declaration `decl`.
pub open spec fn input_models(inp: Input, decl: RawDecl) -> bool {
    &&& inp.ident@ == decl.ident@
    &&& inp.variants@.len() == decl.variants@.len()
    &&& forall|i: int|
        0 <= i < decl.variants@.len() ==> variant_models(
            #[trigger] inp.variants@[i],
            decl.variants@[i],
        )
}

/// The declaration has a variant whose annotations are malformed; the first
/// such variant's error names the annotation `attr`.
pub open spec fn first_attr_error(vs: Seq<RawVariant>, attr: Seq<char>) -> bool {
    exists|i: int|
        0 <= i < vs.len() && spec_attrs(#[trigger] vs[i].attrs@) == Err::<AttrsModel, Seq<char>>(
            attr,
        ) && (forall|j: int| 0 <= j < i ==> attrs_ok(#[trigger] vs[j].attrs@))
}

impl Input {
    /// Checks that the declaration is an enum with at least one variant and
    /// extracts every variant's annotations, in declaration order; the
    /// first malformed annotation aborts everything.
    pub fn parse(decl: &RawDecl) -> (r: Result<Input, GenError>)
        ensures
            match r {
                Ok(inp) => decl.is_enum && decl.variants@.len() > 0 && all_attrs_ok(decl.variants@)
                    && input_models(inp, *decl),
                Err(e) => match e {
                    GenError::NotAnEnum => !decl.is_enum,
                    GenError::MalformedAttribute { attr } => decl.is_enum && first_attr_error(
                        decl.variants@,
                        attr@,
                    ),
                    GenError::EmptyEnum => decl.is_enum && decl.variants@.len() == 0,
                    _ => false,
                },
            },
    {
        if !decl.is_enum {
            return Err(GenError::NotAnEnum);
        }
        let mut variants: Vec<Variant> = Vec::new();
        let mut i: usize = 0;
        while i < decl.variants.len()
            invariant
                decl.is_enum,
                i <= decl.variants@.len(),
                variants@.len() == i,
                forall|j: int|
                    0 <= j < i ==> variant_models(#[trigger] variants@[j], decl.variants@[j]),
            decreases decl.variants@.len() - i,
        {
            let rv = &decl.variants[i];
            match parse_variant_attrs(&rv.attrs) {
                Ok(attrs) => {
                    variants.push(Variant { ident: rv.ident.clone(), attrs, fields: rv.fields });
                },
                Err(e) => {
                    proof {
                        assert forall|j: int|
                            0 <= j < i implies attrs_ok(#[trigger] decl.variants@[j].attrs@) by {
                            assert(variant_models(variants@[j], decl.variants@[j]));
                        }
                        let a = e->MalformedAttribute_attr;
                        assert(spec_attrs(decl.variants@[i as int].attrs@) == Err::<
                            AttrsModel,
                            Seq<char>,
                        >(a@));
                        assert(first_attr_error(decl.variants@, a@));
                    }
                    return Err(e);
                },
            }
            i += 1;
        }
        if variants.len() == 0 {
            return Err(GenError::EmptyEnum);
        }
        proof {
            assert forall|j: int|
                0 <= j < decl.variants@.len() implies attrs_ok(
                #[trigger] decl.variants@[j].attrs@,
            ) by {
                assert(variant_models(variants@[j], decl.variants@[j]));
            }
        }
        Ok(Input { ident: decl.ident.clone(), variants })
    }
}

/// A declaration validated for labeled-string codec generation: a
/// non-empty enum whose variants are all unit-shaped and all carry a
/// canonical string.
#[derive(Debug)]
pub struct LabeledStringInput {
    pub ident: String,
    pub variants: Vec<Variant>,
}

/// From a validated input, every declared variant's annotations are
/// well-formed.
proof fn lemma_input_models_attrs_ok(inp: Input, decl: RawDecl)
    requires
        input_models(inp, decl),
    ensures
        all_attrs_ok(decl.variants@),
{
    assert forall|j: int|
        0 <= j < decl.variants@.len() implies attrs_ok(#[trigger] decl.variants@[j].attrs@) by {
        assert(variant_models(inp.variants@[j], decl.variants@[j]));
    }
}

/// `lsi` is what labeled-mode validation makes of the declaration `decl`.
pub open spec fn labeled_models(lsi: LabeledStringInput, decl: RawDecl) -> bool {
    &&& lsi.ident@ == decl.ident@
    &&& lsi.variants@.len() == decl.variants@.len()
    &&& forall|i: int|
        0 <= i < decl.variants@.len() ==> variant_models(
            #[trigger] lsi.variants@[i],
            decl.variants@[i],
        )
}

impl LabeledStringInput {
    /// Validates a declaration for labeled mode: everything
    /// [`Input::parse`] checks, and further that every variant is
    /// unit-shaped and that every variant carries a canonical string.  The
    /// checks run in that order, each over all variants.
    pub fn parse(decl: &RawDecl) -> (r: Result<LabeledStringInput, GenError>)
        ensures
            match r {
                Ok(lsi) => decl.is_enum && decl.variants@.len() > 0 && all_attrs_ok(decl.variants@)
                    && all_unit(decl.variants@) && all_have_string(decl.variants@)
                    && labeled_models(lsi, *decl),
                Err(e) => match e {
                    GenError::NotAnEnum => !decl.is_enum,
                    GenError::MalformedAttribute { attr } => decl.is_enum && first_attr_error(
                        decl.variants@,
                        attr@,
                    ),
                    GenError::EmptyEnum => decl.is_enum && decl.variants@.len() == 0,
                    GenError::NonUnitVariant => decl.is_enum && decl.variants@.len() > 0
                        && all_attrs_ok(decl.variants@) && !all_unit(decl.variants@),
                    GenError::MissingCanonicalString => decl.is_enum && decl.variants@.len() > 0
                        && all_attrs_ok(decl.variants@) && all_unit(decl.variants@)
                        && !all_have_string(decl.variants@),
                },
            },
    {
        let inp = match Input::parse(decl) {
            Ok(inp) => inp,
            Err(e) => {
                return Err(e);
            },
        };
        proof {
            lemma_input_models_attrs_ok(inp, *decl);
        }
        let mut i: usize = 0;
        while i < inp.variants.len()
            invariant
                decl.is_enum,
                decl.variants@.len() > 0,
                all_attrs_ok(decl.variants@),
                input_models(inp, *decl),
                i <= inp.variants@.len(),
                forall|j: int| 0 <= j < i ==> (#[trigger] decl.variants@[j].fields) is Unit,
            decreases inp.variants@.len() - i,
        {
            match inp.variants[i].fields {
                Fields::Unit => {},
                _ => {
                    proof {
                        assert(variant_models(inp.variants@[i as int], decl.variants@[i as int]));
                        assert(!((decl.variants@[i as int].fields) is Unit));
                    }
                    return Err(GenError::NonUnitVariant);
                },
            }
            i += 1;
        }
        let mut i: usize = 0;
        while i < inp.variants.len()
            invariant
                decl.is_enum,
                decl.variants@.len() > 0,
                all_attrs_ok(decl.variants@),
                all_unit(decl.variants@),
                input_models(inp, *decl),
                i <= inp.variants@.len(),
                forall|j: int|
                    0 <= j < i ==> ((#[trigger] spec_attrs(decl.variants@[j].attrs@)) matches Ok(m)
                        && m.string is Some),
            decreases inp.variants@.len() - i,
        {
            match &inp.variants[i].attrs.string {
                Some(_) => {},
                None => {
                    proof {
                        assert(variant_models(inp.variants@[i as int], decl.variants@[i as int]));
                        assert((spec_attrs(decl.variants@[i as int].attrs@)) matches Ok(m)
                            && m.string is None);
                    }
                    return Err(GenError::MissingCanonicalString);
                },
            }
            i += 1;
        }
        Ok(LabeledStringInput { ident: inp.ident, variants: inp.variants })
    }
}

} // verus!
