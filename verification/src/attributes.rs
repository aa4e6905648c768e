use vstd::prelude::*;

verus! {

/// What reading one `#[..]` attribute of a field can fail with.
#[derive(Debug, Clone, Copy, PartialEq, Eq, Structural)]
pub enum ParseAttributeError {
    InvalidAttribute,
    InvalidValue,
}

impl ParseAttributeError {
    /// The error's text.
    pub open spec fn message_text(self) -> Seq<char> {
        match self {
            ParseAttributeError::InvalidAttribute => "Invalid attribute"@,
            ParseAttributeError::InvalidValue => "Invalid value"@,
        }
    }

    /// The error's text.
    pub fn message(&self) -> (text: String)
        ensures
            text@ == self.message_text(),
    {
        match self {
            ParseAttributeError::InvalidAttribute => "Invalid attribute".to_owned(),
            ParseAttributeError::InvalidValue => "Invalid value".to_owned(),
        }
    }
}

/// What reading a field of a `Config` struct can fail with.
#[derive(Debug, Clone, Copy, PartialEq, Eq, Structural)]
pub enum ParseFieldError {
    /// One of the field's attributes could not be read.
    InvalidAttribute(ParseAttributeError),
    InvalidValue,
}

impl ParseFieldError {
    /// The error's text.
    pub open spec fn message_text(self) -> Seq<char> {
        match self {
            ParseFieldError::InvalidAttribute(e) => "Invalid attribute: "@ + e.message_text(),
            ParseFieldError::InvalidValue => "Invalid value"@,
        }
    }

    /// The error's text.
    pub fn message(&self) -> (text: String)
        ensures
            text@ == self.message_text(),
    {
        match self {
            ParseFieldError::InvalidAttribute(e) => {
                let mut text = "Invalid attribute: ".to_owned();
                let inner = e.message();
                text.append(inner.as_str());
                text
            },
            ParseFieldError::InvalidValue => "Invalid value".to_owned(),
        }
    }
}

/// The attributes that the derive knows.
#[derive(Debug, Clone, Copy, PartialEq, Eq, Structural)]
pub enum VarAttribute {
    /// `default = <expression>`: the value to use when the key gives none.
    Default,
}

/// The kind of a field attribute.
#[derive(Debug, Clone, Copy, PartialEq, Eq, Structural)]
pub enum AttributeKind {
    Var(VarAttribute),
}

/// The value of a field attribute, as source text.
#[derive(Debug)]
pub enum AttributeValue {
    Literal(String),
    Expr(String),
}

/// A field attribute that was read.
#[derive(Debug)]
pub struct EapAttribute {
    pub name: AttributeKind,
    pub value: AttributeValue,
}

/// One `path = value` item of an attribute's argument list, as the derive
/// meets it while parsing.
#[derive(Debug)]
pub struct NestedMeta {
    /// The item's path, when the path is a single identifier.
    pub ident: Option<String>,
    /// Whether `=` follows the path.
    pub has_eq: bool,
    /// The expression after `=`, as source text, when one parses there.
    pub expr: Option<String>,
}

impl NestedMeta {
    /// The path is the identifier `default`.
    pub open spec fn names_default(&self) -> bool {
        self.ident matches Some(i) && i@ == "default"@
    }

    /// The item can be read without the derive aborting: its path is
    /// `default`, and an expression parses after any `=`.
    pub open spec fn readable(&self) -> bool {
        self.names_default() && (self.has_eq ==> self.expr is Some)
    }

    /// Whether the path is the identifier `default`.
    pub fn is_default(&self) -> (b: bool)
        ensures
            b == self.names_default(),
    {
        match &self.ident {
            Some(i) => *i == "default".to_owned(),
            None => false,
        }
    }
}

/// What one argument item makes of the attribute: `default = <expr>`, or
/// `InvalidAttribute` when no `=` follows `default`.
pub open spec fn meta_result(meta: NestedMeta) -> Result<EapAttribute, ParseAttributeError> {
    if meta.has_eq {
        Ok(
            EapAttribute {
                name: AttributeKind::Var(VarAttribute::Default),
                value: AttributeValue::Expr(meta.expr->0),
            },
        )
    } else {
        Err(ParseAttributeError::InvalidAttribute)
    }
}

/// What an attribute's argument items make of it: the last item decides, and
/// an attribute without items is `InvalidAttribute`.
pub open spec fn attribute_result(metas: Seq<NestedMeta>) -> Result<EapAttribute, ParseAttributeError> {
    if metas.len() == 0 {
        Err(ParseAttributeError::InvalidAttribute)
    } else {
        meta_result(metas.last())
    }
}

/// Every item of the attribute can be read.
pub open spec fn metas_readable(metas: Seq<NestedMeta>) -> bool {
    forall|i: int| 0 <= i < metas.len() ==> #[trigger] metas[i].readable()
}

impl EapAttribute {
    /// Reads one argument item of an attribute.
    pub fn try_from_meta(meta: &NestedMeta) -> (r: Result<EapAttribute, ParseAttributeError>)
        requires
            meta.readable(),
        ensures
            r == meta_result(*meta),
    {
        if meta.has_eq {
            let text = match &meta.expr {
                Some(e) => e.clone(),
                None => "".to_owned(),
            };
            Ok(
                EapAttribute {
                    name: AttributeKind::Var(VarAttribute::Default),
                    value: AttributeValue::Expr(text),
                },
            )
        } else {
            Err(ParseAttributeError::InvalidAttribute)
        }
    }

    /// Reads an attribute from its argument items, in order; each item's
    /// outcome replaces the one before.
    pub fn try_from_attribute(metas: &Vec<NestedMeta>) -> (r: Result<EapAttribute, ParseAttributeError>)
        requires
            metas_readable(metas@),
        ensures
            r == attribute_result(metas@),
    {
        let mut result: Result<EapAttribute, ParseAttributeError> = Err(
            ParseAttributeError::InvalidAttribute,
        );
        let mut i: usize = 0;
        while i < metas.len()
            invariant
                i <= metas@.len(),
                metas_readable(metas@),
                result == attribute_result(metas@.take(i as int)),
            decreases metas@.len() - i,
        {
            result = EapAttribute::try_from_meta(&metas[i]);
            proof {
                assert(metas@.take(i + 1).last() == metas@[i as int]);
            }
            i = i + 1;
        }
        proof {
            assert(metas@.take(metas@.len() as int) =~= metas@);
        }
        result
    }
}

/// A generic argument of a path segment.
#[derive(Debug)]
pub enum GenericArgument {
    /// A type, as source text.
    Type(String),
    /// Any other argument (a lifetime, a constant, a binding, ..).
    Other,
}

/// The arguments of a path segment.
#[derive(Debug)]
pub enum PathArguments {
    /// No arguments.
    Bare,
    AngleBracketed(Vec<GenericArgument>),
    Parenthesized,
}

/// A segment of a type path.
#[derive(Debug)]
pub struct PathSegment {
    pub ident: String,
    pub arguments: PathArguments,
}

/// The declared type of a field.
#[derive(Debug)]
pub enum FieldType {
    /// A path type: its source text and its first segment.
    Path { text: String, first: PathSegment },
    /// Any other type, as source text.
    Other { text: String },
}

impl FieldType {
    /// The type's source text.
    pub open spec fn spec_text(&self) -> String {
        match self {
            FieldType::Path { text, .. } => *text,
            FieldType::Other { text } => *text,
        }
    }

    /// The type's source text.
    pub fn text(&self) -> (text: &String)
        ensures
            *text == self.spec_text(),
    {
        match self {
            FieldType::Path { text, .. } => text,
            FieldType::Other { text } => text,
        }
    }
}

/// A named field of a `Config` struct, as the derive meets it: its name, its
/// type, and the argument items of each of its attributes, in order.
#[derive(Debug)]
pub struct FieldInput {
    pub name: String,
    pub ty: FieldType,
    pub attrs: Vec<Vec<NestedMeta>>,
}

/// Every item of every attribute can be read.
pub open spec fn attrs_readable(attrs: Seq<Vec<NestedMeta>>) -> bool {
    forall|i: int| 0 <= i < attrs.len() ==> metas_readable(#[trigger] attrs[i]@)
}

/// The error of the first attribute that cannot be read, if any.
pub open spec fn first_attr_error(attrs: Seq<Vec<NestedMeta>>) -> Option<ParseAttributeError>
    decreases attrs.len(),
{
    if attrs.len() == 0 {
        None
    } else {
        match attribute_result(attrs[0]@) {
            Err(e) => Some(e),
            Ok(_) => first_attr_error(attrs.drop_first()),
        }
    }
}

/// The error that reading the field gives, if any.
pub open spec fn field_error(field: FieldInput) -> Option<ParseFieldError> {
    match first_attr_error(field.attrs@) {
        Some(e) => Some(ParseFieldError::InvalidAttribute(e)),
        None => None,
    }
}

/// `read` is what reading `field` gives when no attribute fails: the same name
/// and type, and each attribute as read.
pub open spec fn field_read_as(field: FieldInput, read: ConfigField) -> bool {
    &&& read.name == field.name
    &&& read.ty == field.ty
    &&& read.attributes@.len() == field.attrs@.len()
    &&& forall|i: int|
        0 <= i < field.attrs@.len() ==> attribute_result(#[trigger] field.attrs@[i]@) == Ok::<
            EapAttribute,
            ParseAttributeError,
        >(read.attributes@[i])
}

/// A field of a `Config` struct with its attributes read.
#[derive(Debug)]
pub struct ConfigField {
    pub name: String,
    pub ty: FieldType,
    pub attributes: Vec<EapAttribute>,
}

/// How the derive reads a field from the backend.
#[derive(Debug)]
pub enum Retrieval {
    /// `name: backend.try_get_or::<ty>("name", default)`.
    TryGetOr { name: String, ty: String, default: String },
    /// `name: backend.try_get::<inner>("name").expect(..)`, for a field of type
    /// `Option<inner>`.
    TryGet { name: String, inner: String },
}

/// Why the derive cannot read a field; each aborts the derive.
#[derive(Debug, Clone, Copy, PartialEq, Eq, Structural)]
pub enum Unsupported {
    /// The default is a string literal, which the derive does not implement.
    LiteralDefault,
    /// An `Option` field without angle-bracketed arguments.
    NotAngleBracketed,
    /// An `Option` field whose first argument is missing or is not a type.
    NoTypeArgument,
    /// A field with no default whose type is not `Option<..>`.
    RequiredField,
}

impl Unsupported {
    /// The text that the derive aborts with.
    pub open spec fn message_text(self) -> Seq<char> {
        match self {
            Unsupported::LiteralDefault => "not implemented"@,
            Unsupported::NotAngleBracketed => "Expected angle bracketed type arguments"@,
            Unsupported::NoTypeArgument => "Expected one type argument"@,
            Unsupported::RequiredField => "not implemented: Required fields are not yet supported"@,
        }
    }

    /// The text that the derive aborts with.
    pub fn message(&self) -> (text: String)
        ensures
            text@ == self.message_text(),
    {
        match self {
            Unsupported::LiteralDefault => "not implemented".to_owned(),
            Unsupported::NotAngleBracketed => "Expected angle bracketed type arguments".to_owned(),
            Unsupported::NoTypeArgument => "Expected one type argument".to_owned(),
            Unsupported::RequiredField => "not implemented: Required fields are not yet supported".to_owned(),
        }
    }
}

/// The value of the first `default` attribute, if any.
pub open spec fn default_value(attributes: Seq<EapAttribute>) -> Option<AttributeValue>
    decreases attributes.len(),
{
    if attributes.len() == 0 {
        None
    } else if attributes[0].name == AttributeKind::Var(VarAttribute::Default) {
        Some(attributes[0].value)
    } else {
        default_value(attributes.drop_first())
    }
}

impl ConfigField {
    /// Why the derive cannot read this field, if it cannot.
    pub open spec fn unsupported_reason(&self) -> Option<Unsupported> {
        match default_value(self.attributes@) {
            Some(AttributeValue::Literal(_)) => Some(Unsupported::LiteralDefault),
            Some(AttributeValue::Expr(_)) => None,
            None => match self.ty {
                FieldType::Path { first, .. } => if first.ident@ == "Option"@ {
                    match first.arguments {
                        PathArguments::AngleBracketed(args) => if args@.len() > 0
                            && args@[0] is Type {
                            None
                        } else {
                            Some(Unsupported::NoTypeArgument)
                        },
                        _ => Some(Unsupported::NotAngleBracketed),
                    }
                } else {
                    Some(Unsupported::RequiredField)
                },
                FieldType::Other { .. } => Some(Unsupported::RequiredField),
            },
        }
    }

    /// How the derive reads this field, when it is supported: with the first
    /// `default` attribute's expression as the fallback, whatever the type;
    /// without one, as `try_get` of the `Option`'s argument type.
    pub open spec fn planned(&self) -> Retrieval {
        match default_value(self.attributes@) {
            Some(AttributeValue::Expr(e)) => Retrieval::TryGetOr {
                name: self.name,
                ty: self.ty.spec_text(),
                default: e,
            },
            _ => Retrieval::TryGet {
                name: self.name,
                inner: match self.ty {
                    FieldType::Path { first, .. } => match first.arguments {
                        PathArguments::AngleBracketed(args) => args@[0]->Type_0,
                        _ => self.name,
                    },
                    FieldType::Other { .. } => self.name,
                },
            },
        }
    }

    /// Reads a field's attributes, in order; the first one that fails fails
    /// the field.
    pub fn try_from_field(field: FieldInput) -> (r: Result<ConfigField, ParseFieldError>)
        requires
            attrs_readable(field.attrs@),
        ensures
            match field_error(field) {
                Some(e) => r == Err::<ConfigField, ParseFieldError>(e),
                None => r matches Ok(read) && field_read_as(field, read),
            },
    {
        let ghost all = field.attrs@;
        let mut attributes: Vec<EapAttribute> = Vec::new();
        let mut i: usize = 0;
        proof {
            assert(all.skip(0) =~= all);
        }
        while i < field.attrs.len()
            invariant
                i <= all.len(),
                all == field.attrs@,
                attrs_readable(all),
                first_attr_error(all) == first_attr_error(all.skip(i as int)),
                attributes@.len() == i,
                forall|j: int|
                    0 <= j < i ==> attribute_result(#[trigger] all[j]@) == Ok::<
                        EapAttribute,
                        ParseAttributeError,
                    >(attributes@[j]),
            decreases all.len() - i,
        {
            let metas = &field.attrs[i];
            assert(metas_readable(all[i as int]@));
            let result = EapAttribute::try_from_attribute(metas);
            proof {
                assert(all.skip(i as int)[0] == all[i as int]);
                assert(all.skip(i as int).drop_first() =~= all.skip(i + 1));
            }
            match result {
                Ok(attribute) => {
                    attributes.push(attribute);
                },
                Err(e) => {
                    return Err(ParseFieldError::InvalidAttribute(e));
                },
            }
            i = i + 1;
        }
        proof {
            assert(all.skip(all.len() as int).len() == 0);
        }
        Ok(ConfigField { name: field.name, ty: field.ty, attributes })
    }

    /// The position of the first `default` attribute, if any.
    fn default_position(&self) -> (found: Option<usize>)
        ensures
            match found {
                Some(i) => i < self.attributes@.len() && default_value(self.attributes@) == Some(
                    self.attributes@[i as int].value,
                ),
                None => default_value(self.attributes@) is None,
            },
    {
        let ghost all = self.attributes@;
        let mut i: usize = 0;
        proof {
            assert(all.skip(0) =~= all);
        }
        while i < self.attributes.len()
            invariant
                i <= all.len(),
                all == self.attributes@,
                default_value(all) == default_value(all.skip(i as int)),
            decreases all.len() - i,
        {
            proof {
                assert(all.skip(i as int)[0] == all[i as int]);
                assert(all.skip(i as int).drop_first() =~= all.skip(i + 1));
            }
            if self.attributes[i].name == AttributeKind::Var(VarAttribute::Default) {
                return Some(i);
            }
            i = i + 1;
        }
        None
    }

    /// Why the derive cannot read this field, if it cannot.
    pub fn unsupported(&self) -> (reason: Option<Unsupported>)
        ensures
            reason == self.unsupported_reason(),
    {
        match self.default_position() {
            Some(i) => match &self.attributes[i].value {
                AttributeValue::Literal(_) => Some(Unsupported::LiteralDefault),
                AttributeValue::Expr(_) => None,
            },
            None => match &self.ty {
                FieldType::Path { first, .. } => {
                    if first.ident == "Option".to_owned() {
                        match &first.arguments {
                            PathArguments::AngleBracketed(args) => {
                                if args.len() > 0 {
                                    match &args[0] {
                                        GenericArgument::Type(_) => None,
                                        GenericArgument::Other => Some(Unsupported::NoTypeArgument),
                                    }
                                } else {
                                    Some(Unsupported::NoTypeArgument)
                                }
                            },
                            _ => Some(Unsupported::NotAngleBracketed),
                        }
                    } else {
                        Some(Unsupported::RequiredField)
                    }
                },
                FieldType::Other { .. } => Some(Unsupported::RequiredField),
            },
        }
    }

    /// How the derive reads this field from the backend.
    pub fn build_backend_retrieval_syntax(self) -> (plan: Retrieval)
        requires
            self.unsupported_reason() is None,
        ensures
            plan == self.planned(),
    {
        match self.default_position() {
            Some(i) => {
                let default = match &self.attributes[i].value {
                    AttributeValue::Expr(e) => e.clone(),
                    AttributeValue::Literal(l) => l.clone(),
                };
                let ty = self.ty.text().clone();
                Retrieval::TryGetOr { name: self.name, ty, default }
            },
            None => {
                let inner = match &self.ty {
                    FieldType::Path { first, .. } => match &first.arguments {
                        PathArguments::AngleBracketed(args) => match &args[0] {
                            GenericArgument::Type(p) => p.clone(),
                            GenericArgument::Other => self.name.clone(),
                        },
                        _ => self.name.clone(),
                    },
                    FieldType::Other { .. } => self.name.clone(),
                };
                Retrieval::TryGet { name: self.name, inner }
            },
        }
    }
}

/// A field read with at least one attribute is always supported, whatever its
/// type, and reads with the expression of its first attribute as the default.
pub proof fn law_attributed_field_uses_first_default(field: FieldInput, read: ConfigField)
    requires
        field_read_as(field, read),
        field.attrs@.len() > 0,
    ensures
        read.unsupported_reason() is None,
        read.planned() == (Retrieval::TryGetOr {
            name: field.name,
            ty: field.ty.spec_text(),
            default: attribute_result(field.attrs@[0]@)->Ok_0.value->Expr_0,
        }),
{
    assert(attribute_result(field.attrs@[0]@) == Ok::<EapAttribute, ParseAttributeError>(
        read.attributes@[0],
    ));
    let metas = field.attrs@[0]@;
    assert(metas.len() > 0);
    assert(meta_result(metas.last()) is Ok);
}

/// The error of the first field that cannot be read, if any.
pub open spec fn first_field_error(fields: Seq<FieldInput>) -> Option<ParseFieldError>
    decreases fields.len(),
{
    if fields.len() == 0 {
        None
    } else {
        match field_error(fields[0]) {
            Some(e) => Some(e),
            None => first_field_error(fields.drop_first()),
        }
    }
}

/// Every attribute of every field can be read.
pub open spec fn fields_readable(fields: Seq<FieldInput>) -> bool {
    forall|i: int| 0 <= i < fields.len() ==> attrs_readable(#[trigger] fields[i].attrs@)
}

/// Reads the fields of a `Config` struct, in order: the first field that
/// fails fails them all; otherwise each field as read.
pub fn collect_fields(fields: Vec<FieldInput>) -> (r: Result<Vec<ConfigField>, ParseFieldError>)
    requires
        fields_readable(fields@),
    ensures
        match first_field_error(fields@) {
            Some(e) => r == Err::<Vec<ConfigField>, ParseFieldError>(e),
            None => r matches Ok(read) && read@.len() == fields@.len() && forall|i: int|
                0 <= i < fields@.len() ==> field_read_as(fields@[i], #[trigger] read@[i]),
        },
{
    let ghost all = fields@;
    let total = fields.len();
    let mut rest = fields;

    let mut read: Vec<ConfigField> = Vec::new();
    let mut i: usize = 0;
    proof {
        assert(all.skip(0) =~= all);
    }
    while rest.len() > 0
        invariant
            all == fields@,
            total == all.len(),
            i + rest@.len() == all.len(),
            rest@ == all.skip(i as int),
            fields_readable(all),
            first_field_error(all) == first_field_error(rest@),
            read@.len() == i,
            forall|j: int| 0 <= j < i ==> field_read_as(all[j], #[trigger] read@[j]),
        decreases rest@.len(),
    {
        let ghost before = rest@;
        let field = rest.remove(0);
        proof {
            assert(before[0] == all[i as int]);
            assert(attrs_readable(all[i as int].attrs@));
            assert(rest@ =~= before.drop_first());
            assert(rest@ =~= all.skip(i + 1));
        }
        let ghost this = field;
        let result = ConfigField::try_from_field(field);
        proof {
            assert(this == before[0]);
            assert(first_field_error(before) == match field_error(this) {
                Some(e) => Some(e),
                None => first_field_error(before.drop_first()),
            });
        }
        match result {
            Ok(f) => {
                read.push(f);
            },
            Err(e) => {
                proof {
                    assert(field_error(this) == Some(e));
                    assert(first_field_error(all) == Some(e));
                }
                return Err(e);
            },
        }
        i = i + 1;
    }
    Ok(read)
}

/// The type's first path segment is named `Option`.
pub open spec fn names_option(ty: FieldType) -> bool {
    match ty {
        FieldType::Path { first, .. } => first.ident@ == "Option"@,
        FieldType::Other { .. } => false,
    }
}

/// The type argument of `Option<..>`: the first argument of a first path
/// segment named `Option`, when it is a type.
pub open spec fn option_argument(ty: FieldType) -> Option<String> {
    match ty {
        FieldType::Path { first, .. } => if first.ident@ == "Option"@ {
            match first.arguments {
                PathArguments::AngleBracketed(args) => if args@.len() > 0 {
                    match args@[0] {
                        GenericArgument::Type(inner) => Some(inner),
                        GenericArgument::Other => None,
                    }
                } else {
                    None
                },
                _ => None,
            }
        } else {
            None
        },
        FieldType::Other { .. } => None,
    }
}

/// A field without a default is read only when its type's first path segment
/// is `Option` with a type as its first argument; any other field without a
/// default is a required field, whatever its segment's arguments, or a
/// malformed `Option`.
pub proof fn law_field_without_default_must_be_option(field: ConfigField)
    requires
        default_value(field.attributes@) is None,
    ensures
        !names_option(field.ty) ==> field.unsupported_reason() == Some(
            Unsupported::RequiredField,
        ),
        field.unsupported_reason() is None ==> option_argument(field.ty) is Some
            && field.planned() == (Retrieval::TryGet {
                name: field.name,
                inner: option_argument(field.ty)->Some_0,
            }),
{
}

/// Planning stops at a required field: when the first field that cannot be
/// read is a field without a default whose type is not `Option`, planning
/// fails with `RequiredField`, and a plan exists only when every field can
/// be read.
pub proof fn law_plan_needs_every_field_readable(fields: Seq<ConfigField>, i: int)
    requires
        0 <= i < fields.len(),
        forall|j: int| 0 <= j < i ==> (#[trigger] fields[j]).unsupported_reason() is None,
        default_value(fields[i].attributes@) is None,
        !names_option(fields[i].ty),
    ensures
        first_unsupported(fields) == Some(Unsupported::RequiredField),
    decreases i,
{
    if i > 0 {
        law_plan_needs_every_field_readable(fields.drop_first(), i - 1);
    }
}

/// The reason of the first field that the derive cannot read, if any.
pub open spec fn first_unsupported(fields: Seq<ConfigField>) -> Option<Unsupported>
    decreases fields.len(),
{
    if fields.len() == 0 {
        None
    } else {
        match fields[0].unsupported_reason() {
            Some(u) => Some(u),
            None => first_unsupported(fields.drop_first()),
        }
    }
}

/// What each field becomes, in order; the first field that the derive cannot
/// read aborts it with its reason.
pub fn plan_fields(fields: Vec<ConfigField>) -> (r: Result<Vec<Retrieval>, Unsupported>)
    ensures
        match first_unsupported(fields@) {
            Some(u) => r == Err::<Vec<Retrieval>, Unsupported>(u),
            None => r matches Ok(plans) && plans@.len() == fields@.len() && forall|i: int|
                0 <= i < fields@.len() ==> #[trigger] plans@[i] == fields@[i].planned(),
        },
{
    let ghost all = fields@;
    let total = fields.len();
    let mut rest = fields;
    let mut plans: Vec<Retrieval> = Vec::new();
    let mut i: usize = 0;
    proof {
        assert(all.skip(0) =~= all);
    }
    while rest.len() > 0
        invariant
            all == fields@,
            total == all.len(),
            i + rest@.len() == all.len(),
            rest@ == all.skip(i as int),
            first_unsupported(all) == first_unsupported(rest@),
            plans@.len() == i,
            forall|j: int| 0 <= j < i ==> #[trigger] plans@[j] == all[j].planned(),
        decreases rest@.len(),
    {
        let ghost before = rest@;
        let field = rest.remove(0);
        proof {
            assert(before[0] == all[i as int]);
            assert(rest@ =~= all.skip(i + 1));
            assert(rest@ =~= before.drop_first());
        }
        match field.unsupported() {
            Some(reason) => {
                return Err(reason);
            },
            None => {
                plans.push(field.build_backend_retrieval_syntax());
            },
        }
        i = i + 1;
    }
    Ok(plans)
}

} // verus!
