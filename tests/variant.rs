use proc_macro2::TokenStream;
use steit::context::Context;
use steit::directive::{parse_u32_digits, Directive, Lit};
use steit::string_util::to_snake_case;
use steit::tag::{LARGE_TAG_MESSAGE, ZERO_TAG_MESSAGE};
use steit::variant::{RawVariant, Variant, VariantAttrs, MISSING_TAG_MESSAGE, TAG_LITERAL_MESSAGE};

fn tokens(s: &str) -> TokenStream {
    s.parse().unwrap()
}

fn tag(digits: &str) -> Directive {
    Directive::NameValue {
        name: "tag".to_string(),
        lit: Lit::Int(digits.to_string()),
        tokens: tokens(digits),
    }
}

fn bare(name: &str) -> Directive {
    Directive::Path {
        name: name.to_string(),
        tokens: tokens(name),
    }
}

fn flag(name: &str, value: bool) -> Directive {
    Directive::NameValue {
        name: name.to_string(),
        lit: Lit::Bool(value),
        tokens: tokens(if value { "true" } else { "false" }),
    }
}

fn raw(name: &str, directives: Vec<Directive>) -> RawVariant {
    RawVariant {
        name: name.to_string(),
        directives,
        tokens: tokens(name),
    }
}

#[test]
fn tag_five_without_default() {
    let mut context = Context::new();
    let (variant, unknown) = Variant::parse(&mut context, raw("Foo", vec![tag("5")])).unwrap();
    assert_eq!(variant.tag(), 5);
    let (value, at) = variant.tag_with_tokens();
    assert_eq!(value, 5);
    assert_eq!(at.to_string(), "5");
    let (default, default_at) = variant.default_with_tokens();
    assert!(!default);
    assert!(default_at.is_none());
    assert!(unknown.is_empty());
    assert!(context.check().is_ok());
}

#[test]
fn missing_tag_is_reported_at_the_variant() {
    let mut context = Context::new();
    let result = Variant::parse(&mut context, raw("Foo", vec![bare("default")]));
    assert!(result.is_err());
    let errors = context.check().unwrap_err();
    assert_eq!(errors.len(), 1);
    assert_eq!(errors[0].message, MISSING_TAG_MESSAGE);
    assert_eq!(errors[0].tokens.to_string(), "Foo");
}

#[test]
fn variant_without_directives_is_reported_once() {
    let mut context = Context::new();
    assert!(Variant::parse(&mut context, raw("Bar", vec![])).is_err());
    let errors = context.check().unwrap_err();
    assert_eq!(errors.len(), 1);
    assert_eq!(errors[0].tokens.to_string(), "Bar");
}

#[test]
fn zero_tag_is_reported_at_the_literal() {
    let mut context = Context::new();
    assert!(Variant::parse(&mut context, raw("Foo", vec![tag("0")])).is_err());
    let errors = context.check().unwrap_err();
    assert_eq!(errors.len(), 1);
    assert_eq!(errors[0].message, ZERO_TAG_MESSAGE);
    assert_eq!(errors[0].tokens.to_string(), "0");
}

#[test]
fn reserved_tag_is_reported_at_the_literal() {
    let mut context = Context::new();
    assert!(Variant::parse(&mut context, raw("Foo", vec![tag("536870912")])).is_err());
    let errors = context.check().unwrap_err();
    assert_eq!(errors.len(), 1);
    assert_eq!(errors[0].message, LARGE_TAG_MESSAGE);
    assert_eq!(errors[0].tokens.to_string(), "536870912");
}

#[test]
fn oversized_tag_literal_is_reported() {
    let mut context = Context::new();
    assert!(Variant::parse(&mut context, raw("Foo", vec![tag("4294967296"), tag("3")])).is_ok());
    let errors = context.check().unwrap_err();
    assert_eq!(errors.len(), 1);
    assert_eq!(errors[0].message, TAG_LITERAL_MESSAGE);
    assert_eq!(errors[0].tokens.to_string(), "4294967296");
}

#[test]
fn duplicate_tag_keeps_the_first() {
    let mut context = Context::new();
    let (variant, _) = Variant::parse(&mut context, raw("Foo", vec![tag("2"), tag("9")])).unwrap();
    assert_eq!(variant.tag(), 2);
    let errors = context.check().unwrap_err();
    assert_eq!(errors.len(), 1);
    assert_eq!(errors[0].message, "duplicate attribute `tag`");
    assert_eq!(errors[0].tokens.to_string(), "9");
}

#[test]
fn default_forms_are_read() {
    let mut context = Context::new();
    let (bare_default, _) = Variant::parse(&mut context, raw("A", vec![tag("1"), bare("default")])).unwrap();
    assert_eq!(bare_default.default_with_tokens().0, true);
    assert_eq!(bare_default.default_with_tokens().1.unwrap().to_string(), "default");
    let (explicit, _) = Variant::parse(&mut context, raw("B", vec![flag("default", false), tag("2")])).unwrap();
    let (value, at) = explicit.default_with_tokens();
    assert!(!value);
    assert_eq!(at.unwrap().to_string(), "false");
    assert!(context.check().is_ok());
}

#[test]
fn duplicate_default_is_reported() {
    let mut context = Context::new();
    let (variant, _) =
        Variant::parse(&mut context, raw("A", vec![bare("default"), tag("1"), flag("default", false)])).unwrap();
    assert_eq!(variant.default_with_tokens().0, true);
    let errors = context.check().unwrap_err();
    assert_eq!(errors.len(), 1);
    assert_eq!(errors[0].message, "duplicate attribute `default`");
    assert_eq!(errors[0].tokens.to_string(), "false");
}

#[test]
fn unknown_directives_come_back_in_order() {
    let mut context = Context::new();
    let directives = vec![
        bare("skip"),
        tag("4"),
        flag("rename", true),
        Directive::NameValue { name: "tag".to_string(), lit: Lit::Other, tokens: tokens("\"x\"") },
        Directive::Other { tokens: tokens("list(a, b)") },
    ];
    let (variant, unknown) = Variant::parse(&mut context, raw("Foo", directives)).unwrap();
    assert_eq!(variant.tag(), 4);
    assert_eq!(unknown.len(), 4);
    assert!(matches!(&unknown[0], Directive::Path { name, .. } if name == "skip"));
    assert!(matches!(&unknown[1], Directive::NameValue { name, lit: Lit::Bool(true), .. } if name == "rename"));
    assert!(matches!(&unknown[2], Directive::NameValue { lit: Lit::Other, .. }));
    assert!(matches!(&unknown[3], Directive::Other { .. }));
    assert!(context.check().is_ok());
}

#[test]
fn sibling_variants_may_share_a_tag() {
    let mut context = Context::new();
    let (a, _) = Variant::parse(&mut context, raw("A", vec![tag("1")])).unwrap();
    let (b, _) = Variant::parse(&mut context, raw("B", vec![tag("1"), bare("default")])).unwrap();
    assert_eq!(a.tag(), 1);
    assert_eq!(b.tag(), 1);
    assert!(!a.default_with_tokens().0);
    assert!(a.default_with_tokens().1.is_none());
    assert!(b.default_with_tokens().0);
    assert!(context.check().is_ok());
}

#[test]
fn failed_variant_does_not_stop_the_pass() {
    let mut context = Context::new();
    assert!(Variant::parse(&mut context, raw("A", vec![])).is_err());
    assert!(Variant::parse(&mut context, raw("B", vec![tag("0")])).is_err());
    assert!(Variant::parse(&mut context, raw("C", vec![tag("3")])).is_ok());
    let errors = context.check().unwrap_err();
    assert_eq!(errors.len(), 2);
    assert_eq!(errors[0].tokens.to_string(), "A");
    assert_eq!(errors[1].tokens.to_string(), "0");
}

#[test]
fn variant_attrs_parse_reads_the_tag() {
    let mut context = Context::new();
    let (attrs, unknown) = VariantAttrs::parse(&mut context, vec![tag("7"), bare("skip")], tokens("V")).unwrap();
    let _ = attrs;
    assert_eq!(unknown.len(), 1);
    assert!(context.check().is_ok());
}

#[test]
fn generated_names() {
    let mut context = Context::new();
    let (variant, _) = Variant::parse(&mut context, raw("FooBar", vec![tag("1")])).unwrap();
    assert_eq!(variant.snake_case_name(), "foo_bar");
    assert_eq!(variant.qual(), "::FooBar");
    assert_eq!(variant.ctor_name(), "new_foo_bar");
    assert!(context.check().is_ok());
}

#[test]
fn snake_case_conversion() {
    assert_eq!(to_snake_case(""), "");
    assert_eq!(to_snake_case("A"), "a");
    assert_eq!(to_snake_case("already_snake"), "already_snake");
    assert_eq!(to_snake_case("HttpRequest2Xx"), "http_request2_xx");
}

#[test]
fn digit_parsing() {
    assert_eq!(parse_u32_digits("0"), Some(0));
    assert_eq!(parse_u32_digits("4294967295"), Some(u32::MAX));
    assert_eq!(parse_u32_digits("4294967296"), None);
    assert_eq!(parse_u32_digits(""), None);
    assert_eq!(parse_u32_digits("1a"), None);
}
