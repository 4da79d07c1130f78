//! The schema of a tool's parameters as a JSON document, there and back.
use crate::json::{
    find_member, lemma_find_member_push, lemma_texts_of_doc, member, members_view, text_member,
    texts_member, DecodeError, Json, JsonMember, JsonView,
};
use crate::schema::{
    entries_map, entries_with, lemma_entries_insert, lemma_entries_push, Items, ItemsView,
    Parameters, ParametersView, Property, PropertyMap, PropertyView,
};
use crate::wire::{
    failed, is_object, optional_text_doc, optional_text_json, optional_texts_doc,
    optional_texts_json, push_optional, read_required_text, reads, required_text, with_optional,
};
use vstd::prelude::*;

verus! {

/// The element type of an array property as a document.
pub open spec fn items_doc(items: ItemsView) -> JsonView {
    JsonView::Object(seq![("type"@, JsonView::Str(items.kind))])
}

/// The element type as a document, where it is given.
pub open spec fn optional_items_doc(items: Option<ItemsView>) -> Option<JsonView> {
    match items {
        Some(items) => Some(items_doc(items)),
        None => None,
    }
}

/// A property as a document: its type, then what is given of the element
/// type, the description and the allowed values.
pub open spec fn property_doc(property: PropertyView) -> JsonView {
    JsonView::Object(
        with_optional(
            with_optional(
                with_optional(
                    seq![("type"@, JsonView::Str(property.kind))],
                    "items"@,
                    optional_items_doc(property.items),
                ),
                "description"@,
                optional_text_doc(property.description),
            ),
            "enum"@,
            optional_texts_doc(property.enum_values),
        ),
    )
}

/// The properties as the members of an object, in order.
pub open spec fn properties_members(properties: Seq<(Seq<char>, PropertyView)>) -> Seq<
    (Seq<char>, JsonView),
> {
    Seq::new(properties.len(), |i: int| (properties[i].0, property_doc(properties[i].1)))
}

/// The parameters of a tool as a document.
pub open spec fn parameters_doc(parameters: ParametersView) -> JsonView {
    JsonView::Object(
        with_optional(
            seq![
                ("type"@, JsonView::Str(parameters.kind)),
                ("properties"@, JsonView::Object(properties_members(parameters.properties))),
            ],
            "required"@,
            optional_texts_doc(parameters.required),
        ),
    )
}

impl Items {
    /// The element type as a document.
    pub fn to_json(&self) -> (doc: Json)
        ensures
            doc.deep_view() == items_doc(self.deep_view()),
    {
        let mut members: Vec<JsonMember> = Vec::new();
        Json::push_member(&mut members, "type", Json::Str(self.kind.clone()));
        let doc = Json::from_members(members);
        assert(doc.deep_view()->Object_0 =~= items_doc(self.deep_view())->Object_0);
        doc
    }
}

impl Property {
    /// The property as a document.
    pub fn to_json(&self) -> (doc: Json)
        ensures
            doc.deep_view() == property_doc(self.deep_view()),
    {
        let mut members: Vec<JsonMember> = Vec::new();
        Json::push_member(&mut members, "type", Json::Str(self.kind.clone()));
        assert(members_view(members@) =~= seq![("type"@, JsonView::Str(self.kind@))]);
        let items = match &self.items {
            Some(items) => Some(items.to_json()),
            None => None,
        };
        push_optional(&mut members, "items", items);
        push_optional(&mut members, "description", optional_text_json(&self.description));
        push_optional(&mut members, "enum", optional_texts_json(&self.enum_values));
        Json::from_members(members)
    }
}

impl PropertyMap {
    /// The properties as an object, in order.
    pub fn to_json(&self) -> (doc: Json)
        ensures
            doc.deep_view() == JsonView::Object(properties_members(self.deep_view())),
    {
        let mut members: Vec<JsonMember> = Vec::new();
        let mut i: usize = 0;
        while i < self.len()
            invariant
                i <= self.deep_view().len(),
                members.len() == i,
                forall|k: int|
                    0 <= k < i ==> (#[trigger] members_view(members@)[k]) == (
                        self.deep_view()[k].0,
                        property_doc(self.deep_view()[k].1),
                    ),
            decreases self.deep_view().len() - i,
        {
            let ghost before = members_view(members@);
            Json::push_member(&mut members, self.name_at(i).as_str(), self.property_at(i).to_json());
            assert(forall|k: int| 0 <= k < i ==> members_view(members@)[k] == before[k]);
            i += 1;
        }
        assert(members_view(members@) =~= properties_members(self.deep_view()));
        Json::from_members(members)
    }
}

impl Parameters {
    /// The parameters as a document.
    pub fn to_json(&self) -> (doc: Json)
        ensures
            doc.deep_view() == parameters_doc(self.deep_view()),
    {
        let mut members: Vec<JsonMember> = Vec::new();
        Json::push_member(&mut members, "type", Json::Str(self.kind.clone()));
        Json::push_member(&mut members, "properties", self.properties.to_json());
        assert(members_view(members@) =~= seq![
            ("type"@, JsonView::Str(self.kind@)),
            ("properties"@, JsonView::Object(properties_members(self.properties.deep_view()))),
        ]);
        push_optional(&mut members, "required", optional_texts_json(&self.required));
        Json::from_members(members)
    }
}

/// The element type of an array property: its type must be given.
pub open spec fn items_of(doc: JsonView) -> Result<ItemsView, DecodeError> {
    if !(doc is Object) {
        Err(DecodeError::NotAnObject("items"))
    } else if required_text(doc, "type") is Err {
        failed(required_text(doc, "type"))
    } else {
        Ok(ItemsView { kind: required_text(doc, "type")->Ok_0 })
    }
}

/// The element type of a property, if it is given.
pub open spec fn items_member(doc: JsonView) -> Result<Option<ItemsView>, DecodeError> {
    match member(doc, "items"@) {
        None => Ok(None),
        Some(items) => match items_of(items) {
            Err(error) => Err(error),
            Ok(items) => Ok(Some(items)),
        },
    }
}

/// A property: its type must be given.
pub open spec fn property_of(doc: JsonView) -> Result<PropertyView, DecodeError> {
    if !(doc is Object) {
        Err(DecodeError::NotAnObject("properties"))
    } else if required_text(doc, "type") is Err {
        failed(required_text(doc, "type"))
    } else if items_member(doc) is Err {
        failed(items_member(doc))
    } else if text_member(doc, "description") is Err {
        failed(text_member(doc, "description"))
    } else if texts_member(doc, "enum") is Err {
        failed(texts_member(doc, "enum"))
    } else {
        Ok(
            PropertyView {
                kind: required_text(doc, "type")->Ok_0,
                items: items_member(doc)->Ok_0,
                description: text_member(doc, "description")->Ok_0,
                enum_values: texts_member(doc, "enum")->Ok_0,
            },
        )
    }
}

/// The properties that the members of an object describe, by name: the
/// first error, or the properties put under their names in order.
pub open spec fn properties_of(members: Seq<(Seq<char>, JsonView)>) -> Result<
    Seq<(Seq<char>, PropertyView)>,
    DecodeError,
>
    decreases members.len(),
{
    if members.len() == 0 {
        Ok(Seq::empty())
    } else {
        match properties_of(members.drop_last()) {
            Err(error) => Err(error),
            Ok(entries) => match property_of(members.last().1) {
                Err(error) => Err(error),
                Ok(property) => Ok(entries_with(entries, members.last().0, property)),
            },
        }
    }
}

/// The properties of a schema, which must be given as an object.
pub open spec fn properties_member(doc: JsonView) -> Result<
    Seq<(Seq<char>, PropertyView)>,
    DecodeError,
> {
    match member(doc, "properties"@) {
        None => Err(DecodeError::Missing("properties")),
        Some(JsonView::Object(members)) => properties_of(members),
        Some(_) => Err(DecodeError::WrongType("properties")),
    }
}

/// The parameters of a tool: the type and the properties must be given.
pub open spec fn parameters_of(doc: JsonView) -> Result<ParametersView, DecodeError> {
    if !(doc is Object) {
        Err(DecodeError::NotAnObject("parameters"))
    } else if required_text(doc, "type") is Err {
        failed(required_text(doc, "type"))
    } else if properties_member(doc) is Err {
        failed(properties_member(doc))
    } else if texts_member(doc, "required") is Err {
        failed(texts_member(doc, "required"))
    } else {
        Ok(
            ParametersView {
                kind: required_text(doc, "type")->Ok_0,
                properties: properties_member(doc)->Ok_0,
                required: texts_member(doc, "required")->Ok_0,
            },
        )
    }
}

impl Items {
    /// Reads the element type of an array property.
    pub fn from_json(doc: &Json) -> (outcome: Result<Items, DecodeError>)
        ensures
            reads(outcome, items_of(doc.deep_view())),
    {
        if !is_object(doc) {
            return Err(DecodeError::NotAnObject("items"));
        }
        let kind = read_required_text(doc, "type")?;
        Ok(Items { kind })
    }
}

impl Property {
    /// Reads a property.
    pub fn from_json(doc: &Json) -> (outcome: Result<Property, DecodeError>)
        ensures
            reads(outcome, property_of(doc.deep_view())),
    {
        if !is_object(doc) {
            return Err(DecodeError::NotAnObject("properties"));
        }
        let kind = read_required_text(doc, "type")?;
        let items = match doc.get("items") {
            None => None,
            Some(items) => Some(Items::from_json(items)?),
        };
        let description = doc.text_member("description")?;
        let enum_values = doc.texts_member("enum")?;
        Ok(Property { kind, items, description, enum_values })
    }
}

impl PropertyMap {
    /// Reads the properties that the members of an object describe.
    pub fn from_members(members: &Vec<JsonMember>) -> (outcome: Result<PropertyMap, DecodeError>)
        ensures
            reads(outcome, properties_of(members_view(members@))),
    {
        let ghost all = members_view(members@);
        let mut map = PropertyMap::new();
        let mut i: usize = 0;
        assert(all.take(0) =~= Seq::empty());
        while i < members.len()
            invariant
                i <= members.len(),
                all == members_view(members@),
                properties_of(all.take(i as int)) == Ok::<
                    Seq<(Seq<char>, PropertyView)>,
                    DecodeError,
                >(map.deep_view()),
            decreases members.len() - i,
        {
            proof {
                assert(all.take(i + 1).drop_last() =~= all.take(i as int));
                assert(all.take(i + 1).last() == all[i as int]);
            }
            match Property::from_json(&members[i].value) {
                Ok(property) => {
                    map.insert(members[i].key.clone(), property);
                },
                Err(error) => {
                    proof {
                        lemma_properties_of_fails(all, i + 1);
                    }
                    return Err(error);
                },
            }
            i += 1;
        }
        assert(all.take(members.len() as int) =~= all);
        Ok(map)
    }
}

/// An error among the first members is the error of the whole object.
pub proof fn lemma_properties_of_fails(members: Seq<(Seq<char>, JsonView)>, i: int)
    requires
        0 <= i <= members.len(),
        properties_of(members.take(i)) is Err,
    ensures
        properties_of(members) == properties_of(members.take(i)),
    decreases members.len(),
{
    if i == members.len() {
        assert(members.take(i) =~= members);
    } else {
        assert(members.drop_last().take(i) =~= members.take(i));
        lemma_properties_of_fails(members.drop_last(), i);
    }
}

impl Parameters {
    /// Reads the parameters of a tool.
    pub fn from_json(doc: &Json) -> (outcome: Result<Parameters, DecodeError>)
        ensures
            reads(outcome, parameters_of(doc.deep_view())),
    {
        if !is_object(doc) {
            return Err(DecodeError::NotAnObject("parameters"));
        }
        let kind = read_required_text(doc, "type")?;
        let properties = match doc.get("properties") {
            None => {
                return Err(DecodeError::Missing("properties"));
            },
            Some(value) => match value.members() {
                None => {
                    return Err(DecodeError::WrongType("properties"));
                },
                Some(members) => PropertyMap::from_members(members)?,
            },
        };
        let required = doc.texts_member("required")?;
        Ok(Parameters { kind, properties, required })
    }
}

/// The names of the members of the schema documents are different texts.
proof fn lemma_schema_keys()
    ensures
        "type"@ != "items"@,
        "type"@ != "description"@,
        "type"@ != "enum"@,
        "type"@ != "properties"@,
        "type"@ != "required"@,
        "items"@ != "description"@,
        "items"@ != "enum"@,
        "description"@ != "enum"@,
        "properties"@ != "required"@,
{
    reveal_strlit("type");
    reveal_strlit("items");
    reveal_strlit("description");
    reveal_strlit("enum");
    reveal_strlit("properties");
    reveal_strlit("required");
    assert("type"@[0] == 't');
    assert("items"@[0] == 'i');
    assert("description"@[0] == 'd');
    assert("enum"@[0] == 'e');
    assert("properties"@[0] == 'p');
    assert("required"@[0] == 'r');
}

/// What is found under `key` in an object that got an optional member last.
proof fn lemma_find_optional(
    members: Seq<(Seq<char>, JsonView)>,
    key: Seq<char>,
    value: Option<JsonView>,
    wanted: Seq<char>,
)
    ensures
        find_member(with_optional(members, key, value), wanted) == if value is Some && key == wanted {
            value
        } else {
            find_member(members, wanted)
        },
{
    if value is Some {
        lemma_find_member_push(members, key, value->0, wanted);
    }
}

/// A property that is written and read again is the same property.
pub proof fn lemma_property_round_trip(property: PropertyView)
    ensures
        property_of(property_doc(property)) == Ok::<PropertyView, DecodeError>(property),
{
    lemma_schema_keys();
    let m0 = seq![("type"@, JsonView::Str(property.kind))];
    let m1 = with_optional(m0, "items"@, optional_items_doc(property.items));
    let m2 = with_optional(m1, "description"@, optional_text_doc(property.description));
    let m3 = with_optional(m2, "enum"@, optional_texts_doc(property.enum_values));
    let doc = property_doc(property);
    assert(doc == JsonView::Object(m3));
    assert(m0 =~= Seq::<(Seq<char>, JsonView)>::empty().push(("type"@, JsonView::Str(property.kind))));
    assert forall|wanted: Seq<char>| #[trigger]
        find_member(m0, wanted) == if wanted == "type"@ {
            Some(JsonView::Str(property.kind))
        } else {
            None
        } by {
        lemma_find_member_push(Seq::empty(), "type"@, JsonView::Str(property.kind), wanted);
    }
    assert forall|wanted: Seq<char>| #[trigger]
        find_member(m3, wanted) == if wanted == "enum"@ && property.enum_values is Some {
            optional_texts_doc(property.enum_values)
        } else if wanted == "description"@ && property.description is Some {
            optional_text_doc(property.description)
        } else if wanted == "items"@ && property.items is Some {
            optional_items_doc(property.items)
        } else {
            find_member(m0, wanted)
        } by {
        lemma_find_optional(m2, "enum"@, optional_texts_doc(property.enum_values), wanted);
        lemma_find_optional(m1, "description"@, optional_text_doc(property.description), wanted);
        lemma_find_optional(m0, "items"@, optional_items_doc(property.items), wanted);
    }
    assert(find_member(m3, "type"@) == Some(JsonView::Str(property.kind)));
    if property.items is Some {
        let items = property.items->0;
        let inner = seq![("type"@, JsonView::Str(items.kind))];
        assert(inner =~= Seq::<(Seq<char>, JsonView)>::empty().push(("type"@, JsonView::Str(items.kind))));
        lemma_find_member_push(Seq::empty(), "type"@, JsonView::Str(items.kind), "type"@);
        assert(items_of(items_doc(items)) == Ok::<ItemsView, DecodeError>(items));
    }
    if property.enum_values is Some {
        lemma_texts_of_doc(property.enum_values->0, "enum");
    }
    assert(find_member(m3, "description"@) == optional_text_doc(property.description));
    assert(find_member(m3, "items"@) == optional_items_doc(property.items));
    assert(find_member(m3, "enum"@) == optional_texts_doc(property.enum_values));
}

/// The properties that are written as members and read again speak for the
/// same names with the same properties.
pub proof fn lemma_properties_round_trip(properties: Seq<(Seq<char>, PropertyView)>)
    ensures
        properties_of(properties_members(properties)) is Ok,
        entries_map(properties_of(properties_members(properties))->Ok_0) == entries_map(properties),
    decreases properties.len(),
{
    let members = properties_members(properties);
    if properties.len() == 0 {
        assert(entries_map(Seq::<(Seq<char>, PropertyView)>::empty()) =~= entries_map(properties));
    } else {
        let last = properties.last();
        assert(members.drop_last() =~= properties_members(properties.drop_last()));
        assert(members.last() == (last.0, property_doc(last.1)));
        lemma_properties_round_trip(properties.drop_last());
        lemma_property_round_trip(last.1);
        let read = properties_of(members.drop_last())->Ok_0;
        lemma_entries_insert(read, last.0, last.1);
        lemma_entries_push(properties.drop_last(), last.0, last.1);
        assert(properties.drop_last().push(last) =~= properties);
    }
}

/// The schema of a tool's parameters survives the way into JSON and back:
/// the type, the required names, and for every name its property with its
/// type, description, allowed values and element type are the same.
pub proof fn lemma_parameters_round_trip(parameters: ParametersView)
    ensures
        parameters_of(parameters_doc(parameters)) is Ok,
        parameters_of(parameters_doc(parameters))->Ok_0.kind == parameters.kind,
        parameters_of(parameters_doc(parameters))->Ok_0.required == parameters.required,
        entries_map(parameters_of(parameters_doc(parameters))->Ok_0.properties) == entries_map(
            parameters.properties,
        ),
{
    lemma_schema_keys();
    let m0 = seq![
        ("type"@, JsonView::Str(parameters.kind)),
        ("properties"@, JsonView::Object(properties_members(parameters.properties))),
    ];
    let m1 = with_optional(m0, "required"@, optional_texts_doc(parameters.required));
    assert(m0 =~= Seq::<(Seq<char>, JsonView)>::empty().push(
        ("type"@, JsonView::Str(parameters.kind)),
    ).push(("properties"@, JsonView::Object(properties_members(parameters.properties)))));
    assert forall|wanted: Seq<char>| #[trigger]
        find_member(m1, wanted) == if wanted == "required"@ && parameters.required is Some {
            optional_texts_doc(parameters.required)
        } else if wanted == "properties"@ {
            Some(JsonView::Object(properties_members(parameters.properties)))
        } else if wanted == "type"@ {
            Some(JsonView::Str(parameters.kind))
        } else {
            None
        } by {
        lemma_find_optional(m0, "required"@, optional_texts_doc(parameters.required), wanted);
        lemma_find_member_push(
            Seq::<(Seq<char>, JsonView)>::empty().push(("type"@, JsonView::Str(parameters.kind))),
            "properties"@,
            JsonView::Object(properties_members(parameters.properties)),
            wanted,
        );
        lemma_find_member_push(Seq::empty(), "type"@, JsonView::Str(parameters.kind), wanted);
    }
    assert(find_member(m1, "type"@) == Some(JsonView::Str(parameters.kind)));
    assert(find_member(m1, "properties"@) == Some(
        JsonView::Object(properties_members(parameters.properties)),
    ));
    assert(find_member(m1, "required"@) == optional_texts_doc(parameters.required));
    lemma_properties_round_trip(parameters.properties);
    if parameters.required is Some {
        lemma_texts_of_doc(parameters.required->0, "required");
    }
}

} // verus!
