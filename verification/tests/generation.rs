//! Generation-time validation: the shape checks and the attribute parser
//! reject malformed declarations with the documented errors.

use serde_string_enum::codec::{CasePolicy, ErrorTier};
use serde_string_enum::parse::{
    parse_variant_attrs, AttrValue, Fields, GenError, Input, LabeledStringInput, RawAttr, RawDecl,
    RawVariant, VariantAttrs,
};
use serde_string_enum::{derive_labeled_deserialize, derive_serialize};

fn attr(name: &str, value: &str) -> RawAttr {
    RawAttr { name: name.to_string(), value: AttrValue::Str(value.to_string()) }
}

fn bad_attr(name: &str) -> RawAttr {
    RawAttr { name: name.to_string(), value: AttrValue::NotAString }
}

fn unit_variant(ident: &str, attrs: Vec<RawAttr>) -> RawVariant {
    RawVariant { ident: ident.to_string(), attrs, fields: Fields::Unit }
}

fn labeled(decl: &RawDecl) -> Result<serde_string_enum::codec::LabeledCodec, GenError> {
    derive_labeled_deserialize(decl, CasePolicy::CaseSensitive, ErrorTier::FullAlloc)
}

#[test]
fn rejects_missing_string_attr() {
    let decl = RawDecl {
        ident: "Type".to_string(),
        is_enum: true,
        variants: vec![
            unit_variant("Grass", vec![attr("string", "Grass")]),
            unit_variant("Fire", vec![]),
            unit_variant("Water", vec![]),
        ],
    };
    let e = labeled(&decl).unwrap_err();
    assert_eq!(e, GenError::MissingCanonicalString);
    assert_eq!(e.message(), "all variants must have \"string\" attribute");
}

#[test]
fn rejects_non_unit_variant() {
    let decl = RawDecl {
        ident: "Type".to_string(),
        is_enum: true,
        variants: vec![
            unit_variant("Grass", vec![attr("string", "Grass")]),
            RawVariant {
                ident: "Fire".to_string(),
                attrs: vec![attr("string", "Fire")],
                fields: Fields::Unnamed,
            },
        ],
    };
    let e = labeled(&decl).unwrap_err();
    assert_eq!(e, GenError::NonUnitVariant);
    assert_eq!(e.message(), "all variants must be a unit variant");
}

#[test]
fn rejects_non_string_alias() {
    let decl = RawDecl {
        ident: "Type".to_string(),
        is_enum: true,
        variants: vec![
            unit_variant("Grass", vec![attr("string", "Grass")]),
            unit_variant("Fire", vec![attr("string", "Fire"), bad_attr("alias")]),
            unit_variant("Water", vec![attr("string", "Water")]),
        ],
    };
    let e = labeled(&decl).unwrap_err();
    assert_eq!(e, GenError::MalformedAttribute { attr: "alias".to_string() });
    assert_eq!(e.message(), "\"alias\" attribute must be a string literal");
}

#[test]
fn rejects_non_string_literal() {
    let decl = RawDecl {
        ident: "Type".to_string(),
        is_enum: true,
        variants: vec![
            unit_variant("Grass", vec![attr("string", "Grass")]),
            unit_variant("Fire", vec![bad_attr("string")]),
            unit_variant("Water", vec![attr("string", "Water")]),
        ],
    };
    let e = labeled(&decl).unwrap_err();
    assert_eq!(e, GenError::MalformedAttribute { attr: "string".to_string() });
    assert_eq!(e.message(), "\"string\" attribute must be a string literal");
}

#[test]
fn rejects_not_an_enum() {
    let decl = RawDecl { ident: "Point".to_string(), is_enum: false, variants: vec![] };
    assert_eq!(labeled(&decl).unwrap_err(), GenError::NotAnEnum);
    assert_eq!(derive_serialize(&decl).unwrap_err(), GenError::NotAnEnum);
    assert_eq!(GenError::NotAnEnum.message(), "input must be an enum");
}

#[test]
fn rejects_empty_enum() {
    let decl = RawDecl { ident: "Never".to_string(), is_enum: true, variants: vec![] };
    assert_eq!(labeled(&decl).unwrap_err(), GenError::EmptyEnum);
    assert_eq!(derive_serialize(&decl).unwrap_err(), GenError::EmptyEnum);
    assert_eq!(GenError::EmptyEnum.message(), "enum must have at least one variant");
}

#[test]
fn later_string_attr_replaces_earlier() {
    let attrs = vec![attr("string", "First"), attr("string", "Second")];
    let va = parse_variant_attrs(&attrs).unwrap();
    assert_eq!(va.string.as_deref(), Some("Second"));
    assert!(va.aliases.is_empty());
}

#[test]
fn unrelated_annotations_are_skipped() {
    let attrs = vec![
        RawAttr { name: "doc".to_string(), value: AttrValue::NotNameValue },
        RawAttr { name: "derive".to_string(), value: AttrValue::NotNameValue },
        attr("serde", "rename"),
        attr("string", "Grass"),
        attr("alias", "Leaf"),
    ];
    let va = parse_variant_attrs(&attrs).unwrap();
    assert_eq!(va.string.as_deref(), Some("Grass"));
    assert_eq!(va.aliases, vec!["Leaf".to_string()]);
}

#[test]
fn rejects_value_less_string_annotation() {
    // A `string` annotation not of name-value form carries no string
    // literal, so it is malformed rather than skipped.
    let attrs = vec![RawAttr { name: "string".to_string(), value: AttrValue::NotNameValue }];
    assert_eq!(
        parse_variant_attrs(&attrs).unwrap_err(),
        GenError::MalformedAttribute { attr: "string".to_string() }
    );
}

#[test]
fn rejects_value_less_alias_annotation() {
    let attrs = vec![
        attr("string", "Grass"),
        RawAttr { name: "alias".to_string(), value: AttrValue::NotNameValue },
    ];
    assert_eq!(
        parse_variant_attrs(&attrs).unwrap_err(),
        GenError::MalformedAttribute { attr: "alias".to_string() }
    );
}

#[test]
fn aliases_keep_declaration_order() {
    let attrs = vec![attr("string", "Fire"), attr("alias", "Flame"), attr("alias", "Hot")];
    let va = parse_variant_attrs(&attrs).unwrap();
    assert_eq!(va.aliases, vec!["Flame".to_string(), "Hot".to_string()]);
}

#[test]
fn variant_attrs_new_is_empty() {
    let va = VariantAttrs::new();
    assert!(va.string.is_none());
    assert!(va.aliases.is_empty());
}

#[test]
fn input_parse_keeps_variants() {
    let decl = RawDecl {
        ident: "Type".to_string(),
        is_enum: true,
        variants: vec![
            unit_variant("Grass", vec![attr("string", "Grass")]),
            RawVariant { ident: "Fire".to_string(), attrs: vec![], fields: Fields::Named },
        ],
    };
    let inp = Input::parse(&decl).unwrap();
    assert_eq!(inp.ident, "Type");
    assert_eq!(inp.variants.len(), 2);
    assert_eq!(inp.variants[0].ident, "Grass");
    assert_eq!(inp.variants[0].attrs.string.as_deref(), Some("Grass"));
    assert_eq!(inp.variants[1].ident, "Fire");
    assert!(inp.variants[1].attrs.string.is_none());
}

#[test]
fn labeled_parse_accepts_valid_decl() {
    let decl = RawDecl {
        ident: "Type".to_string(),
        is_enum: true,
        variants: vec![unit_variant("Grass", vec![attr("string", "Grass"), attr("alias", "Leaf")])],
    };
    let lsi = LabeledStringInput::parse(&decl).unwrap();
    assert_eq!(lsi.ident, "Type");
    assert_eq!(lsi.variants[0].attrs.aliases, vec!["Leaf".to_string()]);
}

#[test]
fn first_malformed_attribute_wins() {
    // The non-string `string` value on the first variant is reported, not
    // the one on the second.
    let decl = RawDecl {
        ident: "Type".to_string(),
        is_enum: true,
        variants: vec![
            unit_variant("Grass", vec![bad_attr("string")]),
            unit_variant("Fire", vec![bad_attr("alias")]),
        ],
    };
    assert_eq!(
        labeled(&decl).unwrap_err(),
        GenError::MalformedAttribute { attr: "string".to_string() }
    );
}
