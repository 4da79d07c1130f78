//! The schema of a tool's parameters, worked out from the declaration of a
//! struct: every named field becomes a property whose type follows from the
//! type of the field and whose description is the field's documentation.
use crate::schema::{entries_with, Parameters, ParametersView, Property, PropertyMap, PropertyView};
use crate::text::same_text;
use vstd::prelude::*;
use vstd::string::StringExecFns;

verus! {

/// What stands in angle brackets behind the first segment of a path.
#[derive(Debug, PartialEq)]
pub enum TypeArguments {
    /// The segment has no angle brackets.
    Absent,
    /// The brackets hold one argument, and it is a type.
    One(Box<TypeSyntax>),
    /// The brackets hold anything else.
    Other,
}

/// The type of a field as it is written.
#[derive(Debug, PartialEq)]
pub enum TypeSyntax {
    /// A path: the name of its first segment, if it has one, and what stands
    /// in angle brackets behind that segment.
    Path { first: Option<String>, arguments: TypeArguments },
    /// Anything that is no path: a reference, a tuple, an array.
    Other,
}

/// An attribute of a field.
#[derive(Debug, PartialEq)]
pub enum AttributeSyntax {
    /// `#[name = "text"]`, the form that documentation takes.
    NameValue { name: String, text: String },
    /// Any other attribute.
    Other,
}

/// A field of a struct as it is declared.
#[derive(Debug, PartialEq)]
pub struct FieldSyntax {
    pub attrs: Vec<AttributeSyntax>,
    pub ident: String,
    pub ty: TypeSyntax,
}

/// What a declaration declares.
#[derive(Debug, PartialEq)]
pub enum DataSyntax {
    /// A struct with named fields.
    NamedStruct(Vec<FieldSyntax>),
    /// A tuple struct or a unit struct.
    OtherStruct,
    /// An enum or a union.
    NotStruct,
}

/// A declaration that a schema is derived from.
#[derive(Debug, PartialEq)]
pub struct DeriveInput {
    pub ident: String,
    pub data: DataSyntax,
}

/// Why no schema can be derived.
#[derive(Debug, Clone, Copy, PartialEq, Eq)]
pub enum DeriveError {
    /// The declaration is a struct without named fields.
    NamedFieldsOnly,
    /// The declaration is no struct.
    StructsOnly,
    /// The type of a field is no path, or an `Option` without its one type.
    UnsupportedType,
}

impl DeriveError {
    /// The message of the error.
    pub open spec fn message(self) -> Seq<char> {
        match self {
            DeriveError::NamedFieldsOnly => "ToolParameters derive only supports named fields"@,
            DeriveError::StructsOnly => "ToolParameters derive only supports structs"@,
            DeriveError::UnsupportedType => "Unsupported type for ToolParameters derive"@,
        }
    }

    /// The message of the error.
    pub fn to_string(&self) -> (text: String)
        ensures
            text@ == self.message(),
    {
        match self {
            DeriveError::NamedFieldsOnly => "ToolParameters derive only supports named fields".to_owned(),
            DeriveError::StructsOnly => "ToolParameters derive only supports structs".to_owned(),
            DeriveError::UnsupportedType => "Unsupported type for ToolParameters derive".to_owned(),
        }
    }
}

/// `text` without the white space at its two ends, as `str::trim` leaves it.
pub uninterp spec fn trimmed(text: Seq<char>) -> Seq<char>;

/// `str::trim`: the text without leading and trailing white space. The
/// contract only names the result.
#[verifier::external_body]
fn trim(text: &str) -> (short: String)
    ensures
        short@ == trimmed(text@),
{
    text.trim().to_string()
}

/// The JSON type for a type named `name`.
pub open spec fn named_type(name: Seq<char>) -> Seq<char> {
    if name == "String"@ || name == "str"@ {
        "string"@
    } else if name == "i32"@ || name == "i64"@ || name == "u32"@ || name == "u64"@ || name
        == "usize"@ || name == "isize"@ || name == "f32"@ || name == "f64"@ {
        "number"@
    } else if name == "bool"@ {
        "boolean"@
    } else if name == "Vec"@ {
        "array"@
    } else {
        "object"@
    }
}

/// The JSON type for a type as it is written: texts are strings, the
/// numeric types numbers, `bool` a boolean, `Vec` an array; an `Option` has
/// the type of what it holds; every other path is an object.
pub open spec fn data_type_of(ty: TypeSyntax) -> Result<Seq<char>, DeriveError>
    decreases ty,
{
    match ty {
        TypeSyntax::Other => Err(DeriveError::UnsupportedType),
        TypeSyntax::Path { first: None, arguments } => Ok("object"@),
        TypeSyntax::Path { first: Some(name), arguments } => if name@ == "Option"@ {
            match arguments {
                TypeArguments::One(inner) => data_type_of(*inner),
                _ => Err(DeriveError::UnsupportedType),
            }
        } else {
            Ok(named_type(name@))
        },
    }
}

/// The documentation among `attrs`: the trimmed texts of the attributes
/// named `doc`, in order.
pub open spec fn doc_lines(attrs: Seq<AttributeSyntax>) -> Seq<Seq<char>>
    decreases attrs.len(),
{
    if attrs.len() == 0 {
        Seq::empty()
    } else {
        match attrs.last() {
            AttributeSyntax::NameValue { name, text } => if name@ == "doc"@ {
                doc_lines(attrs.drop_last()).push(trimmed(text@))
            } else {
                doc_lines(attrs.drop_last())
            },
            AttributeSyntax::Other => doc_lines(attrs.drop_last()),
        }
    }
}

/// The lines with a line break between each two.
pub open spec fn joined_lines(lines: Seq<Seq<char>>) -> Seq<char>
    decreases lines.len(),
{
    if lines.len() == 0 {
        Seq::empty()
    } else if lines.len() == 1 {
        lines[0]
    } else {
        joined_lines(lines.drop_last()) + "\n"@ + lines.last()
    }
}

/// The description of a field: its documentation, unless that is empty.
pub open spec fn description_of(attrs: Seq<AttributeSyntax>) -> Option<Seq<char>> {
    if joined_lines(doc_lines(attrs)).len() == 0 {
        None
    } else {
        Some(joined_lines(doc_lines(attrs)))
    }
}

/// The property that a field becomes.
pub open spec fn field_property(field: FieldSyntax) -> Result<PropertyView, DeriveError> {
    match data_type_of(field.ty) {
        Err(error) => Err(error),
        Ok(kind) => Ok(
            PropertyView {
                kind,
                items: None,
                description: description_of(field.attrs@),
                enum_values: None,
            },
        ),
    }
}

/// The properties that the fields become, by name: the first error, or the
/// properties put under the names of their fields in order.
pub open spec fn fields_properties(fields: Seq<FieldSyntax>) -> Result<
    Seq<(Seq<char>, PropertyView)>,
    DeriveError,
>
    decreases fields.len(),
{
    if fields.len() == 0 {
        Ok(Seq::empty())
    } else {
        match fields_properties(fields.drop_last()) {
            Err(error) => Err(error),
            Ok(entries) => match field_property(fields.last()) {
                Err(error) => Err(error),
                Ok(property) => Ok(entries_with(entries, fields.last().ident@, property)),
            },
        }
    }
}

/// The names of the fields, in order.
pub open spec fn field_names(fields: Seq<FieldSyntax>) -> Seq<Seq<char>> {
    Seq::new(fields.len(), |i: int| fields[i].ident@)
}

/// The schema that a declaration gives: an object whose properties are the
/// named fields of the struct, all of them required.
pub open spec fn derived_parameters(input: DeriveInput) -> Result<ParametersView, DeriveError> {
    match input.data {
        DataSyntax::NotStruct => Err(DeriveError::StructsOnly),
        DataSyntax::OtherStruct => Err(DeriveError::NamedFieldsOnly),
        DataSyntax::NamedStruct(fields) => match fields_properties(fields@) {
            Err(error) => Err(error),
            Ok(properties) => Ok(
                ParametersView {
                    kind: "object"@,
                    properties,
                    required: Some(field_names(fields@)),
                },
            ),
        },
    }
}

/// The JSON type for a type named `name`.
fn named_type_text(name: &str) -> (kind: String)
    ensures
        kind@ == named_type(name@),
{
    if same_text(name, "String") || same_text(name, "str") {
        "string".to_owned()
    } else if same_text(name, "i32") || same_text(name, "i64") || same_text(name, "u32")
        || same_text(name, "u64") || same_text(name, "usize") || same_text(name, "isize")
        || same_text(name, "f32") || same_text(name, "f64") {
        "number".to_owned()
    } else if same_text(name, "bool") {
        "boolean".to_owned()
    } else if same_text(name, "Vec") {
        "array".to_owned()
    } else {
        "object".to_owned()
    }
}

/// The JSON type of what an `Option` holds.
pub fn get_option_type(arguments: &TypeArguments) -> (outcome: Result<String, DeriveError>)
    ensures
        match outcome {
            Ok(kind) => arguments matches TypeArguments::One(inner) && data_type_of(**inner)
                == Ok::<Seq<char>, DeriveError>(kind@),
            Err(error) => match arguments {
                TypeArguments::One(inner) => data_type_of(**inner) == Err::<
                    Seq<char>,
                    DeriveError,
                >(error),
                _ => error == DeriveError::UnsupportedType,
            },
        },
    decreases arguments, 0nat,
{
    match arguments {
        TypeArguments::One(inner) => get_data_type_inner(&**inner),
        _ => Err(DeriveError::UnsupportedType),
    }
}

/// The JSON type for a type as it is written.
pub fn get_data_type_inner(ty: &TypeSyntax) -> (outcome: Result<String, DeriveError>)
    ensures
        match outcome {
            Ok(kind) => data_type_of(*ty) == Ok::<Seq<char>, DeriveError>(kind@),
            Err(error) => data_type_of(*ty) == Err::<Seq<char>, DeriveError>(error),
        },
    decreases ty, 1nat,
{
    match ty {
        TypeSyntax::Other => Err(DeriveError::UnsupportedType),
        TypeSyntax::Path { first: None, arguments } => Ok("object".to_owned()),
        TypeSyntax::Path { first: Some(name), arguments } => {
            if same_text(name.as_str(), "Option") {
                get_option_type(arguments)
            } else {
                Ok(named_type_text(name.as_str()))
            }
        },
    }
}

/// The JSON type of a field.
pub fn get_data_type(field: &FieldSyntax) -> (outcome: Result<String, DeriveError>)
    ensures
        match outcome {
            Ok(kind) => data_type_of(field.ty) == Ok::<Seq<char>, DeriveError>(kind@),
            Err(error) => data_type_of(field.ty) == Err::<Seq<char>, DeriveError>(error),
        },
{
    get_data_type_inner(&field.ty)
}

/// The description of a field: the texts of its documentation, each
/// without the white space at its ends, one per line; none where there is
/// no documentation or it is empty.
pub fn get_description(field: &FieldSyntax) -> (description: Option<String>)
    ensures
        description.deep_view() == description_of(field.attrs@),
{
    let ghost all = field.attrs@;
    let mut text = String::new();
    let mut count: usize = 0;
    let mut i: usize = 0;
    assert(all.take(0) =~= Seq::empty());
    while i < field.attrs.len()
        invariant
            i <= field.attrs.len(),
            all == field.attrs@,
            count == doc_lines(all.take(i as int)).len(),
            count <= i,
            text@ == joined_lines(doc_lines(all.take(i as int))),
        decreases field.attrs.len() - i,
    {
        proof {
            assert(all.take(i + 1).drop_last() =~= all.take(i as int));
            assert(all.take(i + 1).last() == all[i as int]);
        }
        match &field.attrs[i] {
            AttributeSyntax::NameValue { name, text: value } => {
                if same_text(name.as_str(), "doc") {
                    let line = trim(value.as_str());
                    let ghost before = doc_lines(all.take(i as int));
                    proof {
                        assert(before.push(line@).drop_last() =~= before);
                    }
                    if count > 0 {
                        text.append("\n");
                    } else {
                        assert(before =~= Seq::empty());
                        assert(text@ + line@ =~= line@);
                    }
                    text.append(line.as_str());
                    count += 1;
                }
            },
            AttributeSyntax::Other => {},
        }
        i += 1;
    }
    assert(all.take(field.attrs.len() as int) =~= all);
    if text.as_str().is_empty() {
        None
    } else {
        Some(text)
    }
}

/// Whether a field is required. Every named field is, a field of an
/// `Option` type too.
pub fn is_required(field: &FieldSyntax) -> (required: bool)
    ensures
        required,
{
    true
}

/// An error among the first fields is the error of all fields.
proof fn lemma_fields_properties_fails(fields: Seq<FieldSyntax>, i: int)
    requires
        0 <= i <= fields.len(),
        fields_properties(fields.take(i)) is Err,
    ensures
        fields_properties(fields) == fields_properties(fields.take(i)),
    decreases fields.len(),
{
    if i == fields.len() {
        assert(fields.take(i) =~= fields);
    } else {
        assert(fields.drop_last().take(i) =~= fields.take(i));
        lemma_fields_properties_fails(fields.drop_last(), i);
    }
}

/// The schema that a declaration gives.
pub fn impl_tool_parameters(ast: &DeriveInput) -> (outcome: Result<Parameters, DeriveError>)
    ensures
        match outcome {
            Ok(parameters) => derived_parameters(*ast) == Ok::<ParametersView, DeriveError>(
                parameters.deep_view(),
            ),
            Err(error) => derived_parameters(*ast) == Err::<ParametersView, DeriveError>(error),
        },
{
    let fields = match &ast.data {
        DataSyntax::NamedStruct(fields) => fields,
        DataSyntax::OtherStruct => {
            return Err(DeriveError::NamedFieldsOnly);
        },
        DataSyntax::NotStruct => {
            return Err(DeriveError::StructsOnly);
        },
    };
    let ghost all = fields@;
    let mut properties = PropertyMap::new();
    let mut required: Vec<String> = Vec::new();
    let mut i: usize = 0;
    assert(all.take(0) =~= Seq::empty());
    while i < fields.len()
        invariant
            i <= fields.len(),
            all == fields@,
            ast.data == DataSyntax::NamedStruct(*fields),
            fields_properties(all.take(i as int)) == Ok::<
                Seq<(Seq<char>, PropertyView)>,
                DeriveError,
            >(properties.deep_view()),
            required.len() == i,
            forall|k: int| 0 <= k < i ==> required@[k]@ == all[k].ident@,
        decreases fields.len() - i,
    {
        proof {
            assert(all.take(i + 1).drop_last() =~= all.take(i as int));
            assert(all.take(i + 1).last() == all[i as int]);
        }
        let field = &fields[i];
        let kind = match get_data_type(field) {
            Ok(kind) => kind,
            Err(error) => {
                proof {
                    lemma_fields_properties_fails(all, i + 1);
                }
                return Err(error);
            },
        };
        let property = Property {
            kind,
            items: None,
            description: get_description(field),
            enum_values: None,
        };
        properties.insert(field.ident.clone(), property);
        if is_required(field) {
            required.push(field.ident.clone());
        }
        i += 1;
    }
    assert(all.take(fields.len() as int) =~= all);
    assert(required.deep_view() =~= field_names(all));
    Ok(Parameters { kind: "object".to_owned(), properties, required: Some(required) })
}

} // verus!
