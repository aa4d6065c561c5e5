//! A table-driven codec that maps enum variants to textual string
//! representations and back, for use by string-based serialization.
//!
//! A declaration is described by [`parse::RawDecl`]: an enum's name, its
//! variants, and the `string = "..."` / `alias = "..."` annotations each
//! variant carries.  From a declaration the derive functions below build
//! either a labeled codec, whose rendering and parsing are driven entirely
//! by the declared canonical and alias strings, or thin adapters around a
//! caller-supplied render/parse pair.

use vstd::prelude::*;

pub mod codec;
pub mod parse;
pub mod text;

use crate::codec::{
    build_labeled, codec_models, CasePolicy, CustomDeserializer, CustomSerializer, ErrorTier,
    LabeledCodec,
};
use crate::parse::{
    all_attrs_ok, all_have_string, all_unit, first_attr_error, spec_attrs, variant_models,
    GenError, Input, LabeledStringInput, RawDecl,
};

verus! {

/// Custom-mode serializer generation: checks that the declaration is a
/// non-empty enum, extracting every variant's annotations on the way, and
/// emits the serializer adapter around the caller-supplied rendering.
pub fn derive_serialize(decl: &RawDecl) -> (r: Result<CustomSerializer, GenError>)
    ensures
        match r {
            Ok(c) => decl.is_enum && decl.variants@.len() > 0 && all_attrs_ok(decl.variants@)
                && c.ident@ == decl.ident@,
            Err(e) => match e {
                GenError::NotAnEnum => !decl.is_enum,
                GenError::MalformedAttribute { attr } => decl.is_enum && first_attr_error(
                    decl.variants@,
                    attr@,
                ),
                GenError::EmptyEnum => decl.is_enum && decl.variants@.len() == 0,
                _ => false,
            },
        },
{
    match Input::parse(decl) {
        Ok(inp) => Ok(CustomSerializer { ident: inp.ident }),
        Err(e) => Err(e),
    }
}

/// Custom-mode deserializer generation: checks that the declaration is a
/// non-empty enum and emits the deserializer adapter around the
/// caller-supplied parse.
pub fn derive_deserialize(decl: &RawDecl) -> (r: Result<CustomDeserializer, GenError>)
    ensures
        match r {
            Ok(c) => decl.is_enum && decl.variants@.len() > 0 && all_attrs_ok(decl.variants@)
                && c.ident@ == decl.ident@,
            Err(e) => match e {
                GenError::NotAnEnum => !decl.is_enum,
                GenError::MalformedAttribute { attr } => decl.is_enum && first_attr_error(
                    decl.variants@,
                    attr@,
                ),
                GenError::EmptyEnum => decl.is_enum && decl.variants@.len() == 0,
                _ => false,
            },
        },
{
    match Input::parse(decl) {
        Ok(inp) => Ok(CustomDeserializer { ident: inp.ident }),
        Err(e) => Err(e),
    }
}

/// What every labeled derive demands of the declaration: a non-empty
/// enum, well-formed annotations, unit variants only, and a canonical
/// string on every variant.
pub open spec fn labeled_decl_ok(decl: RawDecl) -> bool {
    &&& decl.is_enum
    &&& decl.variants@.len() > 0
    &&& all_attrs_ok(decl.variants@)
    &&& all_unit(decl.variants@)
    &&& all_have_string(decl.variants@)
}

/// The error a labeled derive reports, if and only if the declaration
/// earns it; the checks run in this order.
pub open spec fn labeled_decl_error(decl: RawDecl, e: GenError) -> bool {
    match e {
        GenError::NotAnEnum => !decl.is_enum,
        GenError::MalformedAttribute { attr } => decl.is_enum && first_attr_error(
            decl.variants@,
            attr@,
        ),
        GenError::EmptyEnum => decl.is_enum && decl.variants@.len() == 0,
        GenError::NonUnitVariant => decl.is_enum && decl.variants@.len() > 0 && all_attrs_ok(
            decl.variants@,
        ) && !all_unit(decl.variants@),
        GenError::MissingCanonicalString => decl.is_enum && decl.variants@.len() > 0
            && all_attrs_ok(decl.variants@) && all_unit(decl.variants@) && !all_have_string(
            decl.variants@,
        ),
    }
}

/// Validates a declaration for labeled mode and builds the codec table
/// with the requested case policy and error tier.
fn derive_labeled(decl: &RawDecl, case: CasePolicy, tier: ErrorTier) -> (r: Result<
    LabeledCodec,
    GenError,
>)
    ensures
        match r {
            Ok(c) => labeled_decl_ok(*decl) && codec_models(c, *decl) && c.case == case && c.tier
                == tier,
            Err(e) => labeled_decl_error(*decl, e),
        },
{
    let lsi = match LabeledStringInput::parse(decl) {
        Ok(lsi) => lsi,
        Err(e) => {
            return Err(e);
        },
    };
    proof {
        assert forall|i: int|
            0 <= i < lsi.variants@.len() implies (#[trigger] lsi.variants@[i]).attrs.string
            is Some by {
            assert(variant_models(lsi.variants@[i], decl.variants@[i]));
            assert((spec_attrs(decl.variants@[i].attrs@)) matches Ok(m) && m.string is Some);
        }
    }
    let c = build_labeled(&lsi, case, tier);
    proof {
        assert forall|i: int|
            0 <= i < decl.variants@.len() implies crate::codec::codec_variant_models(
            #[trigger] c.variants@[i],
            decl.variants@[i],
        ) by {
            assert(variant_models(lsi.variants@[i], decl.variants@[i]));
            assert(crate::codec::entry_of_variant(c.variants@[i], lsi.variants@[i]));
        }
    }
    Ok(c)
}

/// Labeled-mode serializer generation: validates the declaration and
/// emits the codec whose rendering side the serializer adapter uses.
/// Rendering reads neither the case policy nor the error tier; the
/// emitted codec carries the defaults (byte-for-byte comparison, fully
/// formatted errors).
pub fn derive_labeled_serialize(decl: &RawDecl) -> (r: Result<LabeledCodec, GenError>)
    ensures
        match r {
            Ok(c) => labeled_decl_ok(*decl) && codec_models(c, *decl) && c.case
                is CaseSensitive && c.tier is FullAlloc,
            Err(e) => labeled_decl_error(*decl, e),
        },
{
    derive_labeled(decl, CasePolicy::CaseSensitive, ErrorTier::FullAlloc)
}

/// Labeled-mode deserializer generation: validates the declaration and
/// emits the codec whose parsing side the deserializer adapter uses, with
/// the requested case policy and error tier.
pub fn derive_labeled_deserialize(decl: &RawDecl, case: CasePolicy, tier: ErrorTier) -> (r: Result<
    LabeledCodec,
    GenError,
>)
    ensures
        match r {
            Ok(c) => labeled_decl_ok(*decl) && codec_models(c, *decl) && c.case == case && c.tier
                == tier,
            Err(e) => labeled_decl_error(*decl, e),
        },
{
    derive_labeled(decl, case, tier)
}

} // verus!
