use eap::attributes::{
    collect_fields, plan_fields, AttributeKind, AttributeValue, ConfigField, EapAttribute, FieldInput,
    FieldType, GenericArgument, NestedMeta, ParseAttributeError, ParseFieldError, PathArguments,
    PathSegment, Retrieval, Unsupported, VarAttribute,
};

fn default_meta(expr: &str) -> NestedMeta {
    NestedMeta { ident: Some("default".to_string()), has_eq: true, expr: Some(expr.to_string()) }
}

fn bare_default() -> NestedMeta {
    NestedMeta { ident: Some("default".to_string()), has_eq: false, expr: None }
}

fn path_type(text: &str, ident: &str, arguments: PathArguments) -> FieldType {
    FieldType::Path {
        text: text.to_string(),
        first: PathSegment { ident: ident.to_string(), arguments },
    }
}

fn u16_type() -> FieldType {
    path_type("u16", "u16", PathArguments::Bare)
}

fn option_of(inner: &str) -> FieldType {
    path_type(
        &format!("Option < {} >", inner),
        "Option",
        PathArguments::AngleBracketed(vec![GenericArgument::Type(inner.to_string())]),
    )
}

fn field(name: &str, ty: FieldType, attrs: Vec<Vec<NestedMeta>>) -> FieldInput {
    FieldInput { name: name.to_string(), ty, attrs }
}

fn read(f: FieldInput) -> ConfigField {
    ConfigField::try_from_field(f).unwrap()
}

#[test]
fn error_messages() {
    assert_eq!(ParseAttributeError::InvalidAttribute.message(), "Invalid attribute");
    assert_eq!(ParseAttributeError::InvalidValue.message(), "Invalid value");
    assert_eq!(
        ParseFieldError::InvalidAttribute(ParseAttributeError::InvalidAttribute).message(),
        "Invalid attribute: Invalid attribute"
    );
    assert_eq!(ParseFieldError::InvalidValue.message(), "Invalid value");
    assert_eq!(Unsupported::RequiredField.message(), "not implemented: Required fields are not yet supported");
}

#[test]
fn default_meta_reads_as_default_expression() {
    let attr = EapAttribute::try_from_meta(&default_meta("443")).unwrap();
    assert_eq!(attr.name, AttributeKind::Var(VarAttribute::Default));
    assert!(matches!(attr.value, AttributeValue::Expr(ref e) if e == "443"));
    assert!(default_meta("1").is_default());
    assert!(!NestedMeta { ident: Some("rename".to_string()), has_eq: true, expr: None }.is_default());
}

#[test]
fn default_without_eq_is_invalid_attribute() {
    assert_eq!(
        EapAttribute::try_from_meta(&bare_default()).err(),
        Some(ParseAttributeError::InvalidAttribute)
    );
}

#[test]
fn attribute_without_items_is_invalid() {
    assert_eq!(
        EapAttribute::try_from_attribute(&vec![]).err(),
        Some(ParseAttributeError::InvalidAttribute)
    );
}

#[test]
fn last_item_of_an_attribute_decides() {
    let attr = EapAttribute::try_from_attribute(&vec![default_meta("1"), default_meta("2")]).unwrap();
    assert!(matches!(attr.value, AttributeValue::Expr(ref e) if e == "2"));
    assert!(EapAttribute::try_from_attribute(&vec![default_meta("1"), bare_default()]).is_err());
    assert!(EapAttribute::try_from_attribute(&vec![bare_default(), default_meta("3")]).is_ok());
}

#[test]
fn field_with_default_is_try_get_or() {
    let f = read(field("port", u16_type(), vec![vec![default_meta("443")]]));
    assert_eq!(f.unsupported(), None);
    match f.build_backend_retrieval_syntax() {
        Retrieval::TryGetOr { name, ty, default } => {
            assert_eq!((name.as_str(), ty.as_str(), default.as_str()), ("port", "u16", "443"))
        }
        other => panic!("unexpected {:?}", other),
    }
}

#[test]
fn first_default_attribute_wins() {
    let f = read(field(
        "host",
        option_of("String"),
        vec![vec![default_meta("a()")], vec![default_meta("b()")]],
    ));
    match f.build_backend_retrieval_syntax() {
        Retrieval::TryGetOr { default, ty, .. } => {
            assert_eq!(default, "a()");
            assert_eq!(ty, "Option < String >");
        }
        other => panic!("unexpected {:?}", other),
    }
}

#[test]
fn option_field_without_default_is_try_get_of_inner_type() {
    let f = read(field("qps_limit", option_of("usize"), vec![]));
    assert_eq!(f.unsupported(), None);
    match f.build_backend_retrieval_syntax() {
        Retrieval::TryGet { name, inner } => {
            assert_eq!((name.as_str(), inner.as_str()), ("qps_limit", "usize"))
        }
        other => panic!("unexpected {:?}", other),
    }
}

#[test]
fn unsupported_fields() {
    assert_eq!(read(field("port", u16_type(), vec![])).unsupported(), Some(Unsupported::RequiredField));
    let other = FieldType::Other { text: "[u8; 4]".to_string() };
    assert_eq!(read(field("raw", other, vec![])).unsupported(), Some(Unsupported::RequiredField));
    let bare_option = path_type("Option", "Option", PathArguments::Bare);
    assert_eq!(read(field("o", bare_option, vec![])).unsupported(), Some(Unsupported::NotAngleBracketed));
    let empty_args = path_type("Option<>", "Option", PathArguments::AngleBracketed(vec![]));
    assert_eq!(read(field("o", empty_args, vec![])).unsupported(), Some(Unsupported::NoTypeArgument));
    let lifetime = path_type("Option<'a>", "Option", PathArguments::AngleBracketed(vec![GenericArgument::Other]));
    assert_eq!(read(field("o", lifetime, vec![])).unsupported(), Some(Unsupported::NoTypeArgument));
    let literal = ConfigField {
        name: "s".to_string(),
        ty: u16_type(),
        attributes: vec![EapAttribute {
            name: AttributeKind::Var(VarAttribute::Default),
            value: AttributeValue::Literal("\"x\"".to_string()),
        }],
    };
    assert_eq!(literal.unsupported(), Some(Unsupported::LiteralDefault));
}

#[test]
fn field_error_is_its_first_failing_attribute() {
    let r = ConfigField::try_from_field(field(
        "port",
        u16_type(),
        vec![vec![default_meta("1")], vec![], vec![bare_default()]],
    ));
    assert_eq!(
        r.err(),
        Some(ParseFieldError::InvalidAttribute(ParseAttributeError::InvalidAttribute))
    );
}

#[test]
fn collect_fields_reads_all_or_fails_on_first() {
    let fields = collect_fields(vec![
        field("port", u16_type(), vec![vec![default_meta("443")]]),
        field("qps", option_of("usize"), vec![]),
    ])
    .unwrap();
    assert_eq!(fields.len(), 2);
    assert_eq!(fields[0].name, "port");
    assert_eq!(fields[1].attributes.len(), 0);

    let r = collect_fields(vec![
        field("ok", u16_type(), vec![vec![default_meta("1")]]),
        field("bad", u16_type(), vec![vec![bare_default()]]),
        field("later", u16_type(), vec![vec![]]),
    ]);
    assert_eq!(
        r.err(),
        Some(ParseFieldError::InvalidAttribute(ParseAttributeError::InvalidAttribute))
    );
}

#[test]
fn plan_fields_plans_all_or_stops_at_first_unsupported() {
    let fields = vec![
        read(field("port", u16_type(), vec![vec![default_meta("443")]])),
        read(field("qps", option_of("usize"), vec![])),
    ];
    let plans = plan_fields(fields).unwrap();
    assert_eq!(plans.len(), 2);
    assert!(matches!(&plans[1], Retrieval::TryGet { inner, .. } if inner == "usize"));

    let fields = vec![
        read(field("ok", u16_type(), vec![vec![default_meta("1")]])),
        read(field("required", u16_type(), vec![])),
        read(field("o", path_type("Option", "Option", PathArguments::Bare), vec![])),
    ];
    assert_eq!(plan_fields(fields).err(), Some(Unsupported::RequiredField));
}
