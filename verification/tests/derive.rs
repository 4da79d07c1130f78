use fungraph::derive::{
    get_data_type, get_data_type_inner, get_description, get_option_type, impl_tool_parameters,
    is_required, AttributeSyntax, DataSyntax, DeriveError, DeriveInput, FieldSyntax,
    TypeArguments, TypeSyntax,
};
use fungraph::schema::Parameters;

fn path(name: &str) -> TypeSyntax {
    TypeSyntax::Path {
        first: Some(name.to_string()),
        arguments: TypeArguments::Absent,
    }
}

fn option_of(inner: TypeSyntax) -> TypeSyntax {
    TypeSyntax::Path {
        first: Some("Option".to_string()),
        arguments: TypeArguments::One(Box::new(inner)),
    }
}

fn doc(text: &str) -> AttributeSyntax {
    AttributeSyntax::NameValue {
        name: "doc".to_string(),
        text: text.to_string(),
    }
}

fn field(attrs: Vec<AttributeSyntax>, ident: &str, ty: TypeSyntax) -> FieldSyntax {
    FieldSyntax {
        attrs,
        ident: ident.to_string(),
        ty,
    }
}

#[test]
fn test_get_description() {
    let field = field(
        vec![
            doc("This is a test description."),
            doc("It has multiple lines."),
        ],
        "field_name",
        path("String"),
    );
    let description = get_description(&field);
    assert_eq!(
        description,
        Some("This is a test description.\nIt has multiple lines.".to_string())
    );
}

#[test]
fn test_get_description_slash_comment() {
    // what `///` comments leave in the attributes
    let field = field(
        vec![
            doc(" This is a test description."),
            doc(" It has multiple lines."),
        ],
        "field_name",
        path("String"),
    );
    let description = get_description(&field);
    assert_eq!(
        description,
        Some("This is a test description.\nIt has multiple lines.".to_string())
    );
}

#[test]
fn test_get_description_no_doc() {
    let field = field(vec![], "field_name", path("String"));
    let description = get_description(&field);
    assert_eq!(description, None);
}

#[test]
fn test_get_description_other_attribute() {
    // #[serde(default)]
    let field = field(vec![AttributeSyntax::Other], "field_name", path("String"));
    let description = get_description(&field);
    assert_eq!(description, None);
}

#[test]
fn descriptions_skip_what_is_no_documentation() {
    let described = field(
        vec![
            AttributeSyntax::NameValue {
                name: "path".to_string(),
                text: "x".to_string(),
            },
            doc("\t first \n"),
            AttributeSyntax::Other,
            doc(""),
            doc("third"),
        ],
        "f",
        path("u32"),
    );
    assert_eq!(
        get_description(&described),
        Some("first\n\nthird".to_string())
    );
    let blank = field(vec![doc("   ")], "f", path("u32"));
    assert_eq!(get_description(&blank), None);
}

fn my_tool() -> DeriveInput {
    DeriveInput {
        ident: "MyTool".to_string(),
        data: DataSyntax::NamedStruct(vec![
            field(
                vec![doc(" This is a test description.")],
                "name",
                path("String"),
            ),
            field(vec![], "age", path("i32")),
        ]),
    }
}

fn my_option_tool() -> DeriveInput {
    DeriveInput {
        ident: "MyOptionTool".to_string(),
        data: DataSyntax::NamedStruct(vec![
            field(
                vec![doc(" This is a test description.")],
                "name",
                option_of(path("String")),
            ),
            field(vec![], "age", option_of(path("i32"))),
        ]),
    }
}

#[test]
fn test_generated_parameters() {
    let parameters: Parameters = impl_tool_parameters(&my_tool()).unwrap();

    assert_eq!(parameters.kind, "object".to_string());

    assert_eq!(
        parameters.required,
        Some(vec!["name".to_string(), "age".to_string()])
    );

    assert_eq!(parameters.properties.len(), 2);

    let name_property = parameters.properties.get("name").unwrap();
    assert_eq!(name_property.kind, "string".to_string());
    assert_eq!(
        name_property.description,
        Some("This is a test description.".to_string())
    );
    assert_eq!(name_property.enum_values, None);

    let age_property = parameters.properties.get("age").unwrap();
    assert_eq!(age_property.kind, "number".to_string());
    assert_eq!(age_property.description, None);
    assert_eq!(age_property.enum_values, None);
}

#[test]
fn test_option_parameter() {
    let parameters: Parameters = impl_tool_parameters(&my_option_tool()).unwrap();
    assert_eq!(parameters.kind, "object".to_string());
    assert_eq!(
        parameters.required,
        Some(vec!["name".to_string(), "age".to_string()])
    );
    assert_eq!(parameters.properties.len(), 2);
    let name_property = parameters.properties.get("name").unwrap();
    assert_eq!(name_property.kind, "string".to_string());
    assert_eq!(
        name_property.description,
        Some("This is a test description.".to_string())
    );
    assert_eq!(name_property.enum_values, None);
    let age_property = parameters.properties.get("age").unwrap();
    assert_eq!(age_property.kind, "number".to_string());
    assert_eq!(age_property.description, None);
}

#[test]
fn types_map_to_json_types() {
    let kind = |ty: TypeSyntax| get_data_type_inner(&ty);
    for name in ["String", "str"] {
        assert_eq!(kind(path(name)), Ok("string".to_string()));
    }
    for name in ["i32", "i64", "u32", "u64", "usize", "isize", "f32", "f64"] {
        assert_eq!(kind(path(name)), Ok("number".to_string()));
    }
    assert_eq!(kind(path("bool")), Ok("boolean".to_string()));
    assert_eq!(kind(path("Vec")), Ok("array".to_string()));
    assert_eq!(kind(path("MyType")), Ok("object".to_string()));
    assert_eq!(kind(path("u8")), Ok("object".to_string()));
    assert_eq!(
        kind(TypeSyntax::Path {
            first: None,
            arguments: TypeArguments::Absent
        }),
        Ok("object".to_string())
    );
    assert_eq!(kind(TypeSyntax::Other), Err(DeriveError::UnsupportedType));
    assert_eq!(
        kind(option_of(option_of(path("bool")))),
        Ok("boolean".to_string())
    );
    assert_eq!(
        kind(option_of(TypeSyntax::Other)),
        Err(DeriveError::UnsupportedType)
    );
    assert_eq!(kind(path("Option")), Err(DeriveError::UnsupportedType));
    assert_eq!(
        get_option_type(&TypeArguments::Other),
        Err(DeriveError::UnsupportedType)
    );
    assert_eq!(
        get_option_type(&TypeArguments::One(Box::new(path("Vec")))),
        Ok("array".to_string())
    );
    let f = field(vec![], "f", option_of(path("u64")));
    assert_eq!(get_data_type(&f), Ok("number".to_string()));
    assert!(is_required(&f));
}

#[test]
fn only_structs_with_named_fields_have_a_schema() {
    let derive = |data: DataSyntax| {
        impl_tool_parameters(&DeriveInput {
            ident: "T".to_string(),
            data,
        })
    };
    assert_eq!(
        derive(DataSyntax::OtherStruct),
        Err(DeriveError::NamedFieldsOnly)
    );
    assert_eq!(derive(DataSyntax::NotStruct), Err(DeriveError::StructsOnly));
    assert_eq!(
        derive(DataSyntax::NamedStruct(vec![
            field(vec![], "a", path("String")),
            field(vec![], "b", TypeSyntax::Other),
        ])),
        Err(DeriveError::UnsupportedType)
    );
    let empty = derive(DataSyntax::NamedStruct(vec![])).unwrap();
    assert_eq!(empty.required, Some(vec![]));
    assert!(empty.properties.is_empty());
    assert_eq!(
        DeriveError::NamedFieldsOnly.to_string(),
        "ToolParameters derive only supports named fields"
    );
    assert_eq!(
        DeriveError::StructsOnly.to_string(),
        "ToolParameters derive only supports structs"
    );
    assert_eq!(
        DeriveError::UnsupportedType.to_string(),
        "Unsupported type for ToolParameters derive"
    );
}
