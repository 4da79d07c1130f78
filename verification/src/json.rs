//! JSON documents as plain data, parsed and rendered by `serde_json`.
use crate::text::join;
use serde_json::Value;
use vstd::prelude::*;

verus! {

/// `serde_json::Value`, a parsed document; its inside is not looked at.
#[verifier::external_type_specification]
#[verifier::external_body]
pub struct ExValue(Value);

/// What `serde_json::from_str` makes of a text: the document it reads, or the
/// message of the error it reports.
pub uninterp spec fn parsed_json(text: Seq<char>) -> Result<JsonView, Seq<char>>;

/// The compact text that `serde_json` prints for a document.
pub uninterp spec fn rendered_json(doc: JsonView) -> Seq<char>;

/// A JSON number, in the three forms that `serde_json` tells apart.
#[derive(Debug, PartialEq)]
pub enum JsonNumber {
    /// A non-negative integer.
    PosInt(u64),
    /// A negative integer.
    NegInt(i64),
    /// Any other number, kept as its decimal text.
    Float(String),
}

/// A JSON document.
#[derive(Debug, PartialEq)]
pub enum Json {
    Null,
    Bool(bool),
    Number(JsonNumber),
    Str(String),
    Array(Vec<Json>),
    Object(Vec<JsonMember>),
}

/// One `"key": value` pair of a JSON object.
#[derive(Debug, PartialEq)]
pub struct JsonMember {
    pub key: String,
    pub value: Json,
}

/// The mathematical value of a [`JsonNumber`].
pub enum JsonNumberView {
    PosInt(nat),
    NegInt(int),
    Float(Seq<char>),
}

/// The mathematical value of a [`Json`] document.
pub enum JsonView {
    Null,
    Bool(bool),
    Number(JsonNumberView),
    Str(Seq<char>),
    Array(Seq<JsonView>),
    Object(Seq<(Seq<char>, JsonView)>),
}

impl DeepView for JsonNumber {
    type V = JsonNumberView;

    open spec fn deep_view(&self) -> JsonNumberView {
        match self {
            JsonNumber::PosInt(n) => JsonNumberView::PosInt(*n as nat),
            JsonNumber::NegInt(n) => JsonNumberView::NegInt(*n as int),
            JsonNumber::Float(text) => JsonNumberView::Float(text@),
        }
    }
}

/// The values of the first `upto` of `items`.
pub open spec fn array_view(items: Vec<Json>, upto: nat) -> Seq<JsonView>
    decreases items, upto,
{
    if upto == 0 || upto > items@.len() {
        Seq::empty()
    } else {
        array_view(items, (upto - 1) as nat).push(items@[upto - 1].deep_view())
    }
}

/// The keys and values of the first `upto` of `members`.
pub open spec fn object_view(members: Vec<JsonMember>, upto: nat) -> Seq<(Seq<char>, JsonView)>
    decreases members, upto,
{
    if upto == 0 || upto > members@.len() {
        Seq::empty()
    } else {
        object_view(members, (upto - 1) as nat).push(
            (members@[upto - 1].key@, members@[upto - 1].value.deep_view()),
        )
    }
}

impl DeepView for Json {
    type V = JsonView;

    open spec fn deep_view(&self) -> JsonView
        decreases self, 0nat,
    {
        match self {
            Json::Null => JsonView::Null,
            Json::Bool(b) => JsonView::Bool(*b),
            Json::Number(n) => JsonView::Number(n.deep_view()),
            Json::Str(s) => JsonView::Str(s@),
            Json::Array(items) => JsonView::Array(array_view(*items, items@.len())),
            Json::Object(members) => JsonView::Object(object_view(*members, members@.len())),
        }
    }
}

/// The keys and values of `members`, in order.
pub open spec fn members_view(members: Seq<JsonMember>) -> Seq<(Seq<char>, JsonView)> {
    Seq::new(members.len(), |i: int| (members[i].key@, members[i].value.deep_view()))
}

/// The first `upto` values of a list are the values of its first `upto`
/// items, in order.
pub proof fn lemma_array_view(items: Vec<Json>, upto: nat)
    requires
        upto <= items@.len(),
    ensures
        array_view(items, upto) == items.deep_view().take(upto as int),
    decreases upto,
{
    if upto > 0 {
        lemma_array_view(items, (upto - 1) as nat);
        assert(items.deep_view().take(upto as int) =~= items.deep_view().take(upto - 1).push(
            items@[upto - 1].deep_view(),
        ));
    } else {
        assert(items.deep_view().take(0) =~= Seq::<JsonView>::empty());
    }
}

/// The first `upto` members of an object are its first `upto` keys and
/// values, in order.
pub proof fn lemma_object_view(members: Vec<JsonMember>, upto: nat)
    requires
        upto <= members@.len(),
    ensures
        object_view(members, upto) == members_view(members@).take(upto as int),
    decreases upto,
{
    if upto > 0 {
        lemma_object_view(members, (upto - 1) as nat);
        assert(members_view(members@).take(upto as int) =~= members_view(members@).take(
            upto - 1,
        ).push((members@[upto - 1].key@, members@[upto - 1].value.deep_view())));
    } else {
        assert(members_view(members@).take(0) =~= Seq::<(Seq<char>, JsonView)>::empty());
    }
}

/// An array is a list of documents, and an object a list of keys with their
/// documents.
pub broadcast proof fn lemma_json_view(doc: Json)
    ensures
        #![trigger doc.deep_view()]
        doc matches Json::Array(items) ==> doc.deep_view() == JsonView::Array(items.deep_view()),
        doc matches Json::Object(members) ==> doc.deep_view() == JsonView::Object(
            members_view(members@),
        ),
{
    match doc {
        Json::Array(items) => {
            lemma_array_view(items, items@.len());
            assert(items.deep_view().take(items@.len() as int) =~= items.deep_view());
        },
        Json::Object(members) => {
            lemma_object_view(members, members@.len());
            assert(members_view(members@).take(members@.len() as int) =~= members_view(members@));
        },
        _ => {},
    }
}

/// Copies a `serde_json::Value` into a [`Json`], variant by variant. The
/// three forms of a number are told apart by `as_u64` and `as_i64`; a number
/// that is neither keeps the text that `to_string` gives. Object members
/// come in the order in which the value's map hands them out.
#[verifier::external_body]
fn json_from_value(value: &Value) -> Json {
    match value {
        Value::Null => Json::Null,
        Value::Bool(b) => Json::Bool(*b),
        Value::Number(n) => Json::Number(match (n.as_u64(), n.as_i64()) {
            (Some(u), _) => JsonNumber::PosInt(u),
            (_, Some(i)) => JsonNumber::NegInt(i),
            _ => JsonNumber::Float(n.to_string()),
        }),
        Value::String(s) => Json::Str(s.clone()),
        Value::Array(a) => Json::Array(a.iter().map(json_from_value).collect()),
        Value::Object(o) => Json::Object(
            o.iter().map(|(k, v)| JsonMember { key: k.clone(), value: json_from_value(v) }).collect(),
        ),
    }
}

/// Copies a [`Json`] into a `serde_json::Value`, variant by variant. A
/// `Float` whose text `serde_json` does not read as a number becomes `null`;
/// of two members with one key the later stays.
#[verifier::external_body]
fn json_to_value(doc: &Json) -> Value {
    match doc {
        Json::Null => Value::Null,
        Json::Bool(b) => Value::Bool(*b),
        Json::Number(JsonNumber::PosInt(u)) => Value::from(*u),
        Json::Number(JsonNumber::NegInt(i)) => Value::from(*i),
        Json::Number(JsonNumber::Float(t)) => t.parse().map(Value::Number).unwrap_or(Value::Null),
        Json::Str(s) => Value::String(s.clone()),
        Json::Array(a) => Value::Array(a.iter().map(json_to_value).collect()),
        Json::Object(o) => Value::Object(
            o.iter().map(|m| (m.key.clone(), json_to_value(&m.value))).collect(),
        ),
    }
}

/// `serde_json::from_str` on `text`, with the value it reads copied into a
/// [`Json`] and the error it reports turned into its message. The contract
/// only names the outcome: the same text always gives the same outcome.
#[verifier::external_body]
fn parse_json(text: &str) -> (outcome: Result<Json, String>)
    ensures
        match outcome {
            Ok(doc) => parsed_json(text@) == Ok::<JsonView, Seq<char>>(doc.deep_view()),
            Err(message) => parsed_json(text@) == Err::<JsonView, Seq<char>>(message@),
        },
{
    match serde_json::from_str::<Value>(text) {
        Ok(value) => Ok(json_from_value(&value)),
        Err(error) => Err(error.to_string()),
    }
}

/// The compact text of `doc` as `serde_json` prints it (`Value`'s
/// `to_string`). The contract only names the text.
#[verifier::external_body]
fn render_json(doc: &Json) -> (text: String)
    ensures
        text@ == rendered_json(doc.deep_view()),
{
    json_to_value(doc).to_string()
}

/// The value of the last member under `key`, if there is one.
pub open spec fn find_member(members: Seq<(Seq<char>, JsonView)>, key: Seq<char>) -> Option<
    JsonView,
>
    decreases members.len(),
{
    if members.len() == 0 {
        None
    } else if members.last().0 == key {
        Some(members.last().1)
    } else {
        find_member(members.drop_last(), key)
    }
}

/// What an object holds under `key`: nothing where `doc` is no object, has no
/// such member, or has `null` there.
pub open spec fn member(doc: JsonView, key: Seq<char>) -> Option<JsonView> {
    match doc {
        JsonView::Object(members) => match find_member(members, key) {
            Some(JsonView::Null) => None,
            found => found,
        },
        _ => None,
    }
}

/// Why a document does not have the expected shape; each names the member
/// or the place concerned.
#[derive(Debug, Clone, Copy, PartialEq, Eq)]
pub enum DecodeError {
    /// An object was expected.
    NotAnObject(&'static str),
    /// The member holds a value of another type, or a number out of range.
    WrongType(&'static str),
    /// The member holds a text that is not among the known ones.
    UnknownValue(&'static str),
    /// The member is not there.
    Missing(&'static str),
}

impl DecodeError {
    /// The message of the error.
    pub open spec fn message(self) -> Seq<char> {
        match self {
            DecodeError::NotAnObject(place) => "expected an object: "@ + place@,
            DecodeError::WrongType(place) => "invalid type: "@ + place@,
            DecodeError::UnknownValue(place) => "unknown variant: "@ + place@,
            DecodeError::Missing(place) => "missing field: "@ + place@,
        }
    }

    /// The message of the error.
    pub fn to_string(&self) -> (text: String)
        ensures
            text@ == self.message(),
    {
        match self {
            DecodeError::NotAnObject(place) => join("expected an object: ", place),
            DecodeError::WrongType(place) => join("invalid type: ", place),
            DecodeError::UnknownValue(place) => join("unknown variant: ", place),
            DecodeError::Missing(place) => join("missing field: ", place),
        }
    }
}

/// The text under `key`, if the object holds a value there.
pub open spec fn text_member(doc: JsonView, key: &'static str) -> Result<
    Option<Seq<char>>,
    DecodeError,
> {
    match member(doc, key@) {
        None => Ok(None),
        Some(JsonView::Str(text)) => Ok(Some(text)),
        Some(_) => Err(DecodeError::WrongType(key)),
    }
}

/// The number under `key` as a `u32`, if the object holds a value there.
pub open spec fn u32_member(doc: JsonView, key: &'static str) -> Result<Option<u32>, DecodeError> {
    match member(doc, key@) {
        None => Ok(None),
        Some(JsonView::Number(JsonNumberView::PosInt(n))) => if n <= u32::MAX {
            Ok(Some(n as u32))
        } else {
            Err(DecodeError::WrongType(key))
        },
        Some(_) => Err(DecodeError::WrongType(key)),
    }
}

/// The number under `key` as an `i32`, if the object holds a value there.
pub open spec fn i32_member(doc: JsonView, key: &'static str) -> Result<Option<i32>, DecodeError> {
    match member(doc, key@) {
        None => Ok(None),
        Some(JsonView::Number(JsonNumberView::PosInt(n))) => if n <= i32::MAX {
            Ok(Some(n as i32))
        } else {
            Err(DecodeError::WrongType(key))
        },
        Some(JsonView::Number(JsonNumberView::NegInt(n))) => if i32::MIN <= n < 0 {
            Ok(Some(n as i32))
        } else {
            Err(DecodeError::WrongType(key))
        },
        Some(_) => Err(DecodeError::WrongType(key)),
    }
}

/// The items of the array under `key`, if the object holds a value there.
pub open spec fn array_member(doc: JsonView, key: &'static str) -> Result<
    Option<Seq<JsonView>>,
    DecodeError,
> {
    match member(doc, key@) {
        None => Ok(None),
        Some(JsonView::Array(items)) => Ok(Some(items)),
        Some(_) => Err(DecodeError::WrongType(key)),
    }
}

/// The texts of a list of documents, if each is a text.
pub open spec fn texts_of(items: Seq<JsonView>, place: &'static str) -> Result<
    Seq<Seq<char>>,
    DecodeError,
>
    decreases items.len(),
{
    if items.len() == 0 {
        Ok(Seq::empty())
    } else {
        match texts_of(items.drop_last(), place) {
            Err(error) => Err(error),
            Ok(texts) => match items.last() {
                JsonView::Str(text) => Ok(texts.push(text)),
                _ => Err(DecodeError::WrongType(place)),
            },
        }
    }
}

/// The list of texts under `key`, if the object holds a value there.
pub open spec fn texts_member(doc: JsonView, key: &'static str) -> Result<
    Option<Seq<Seq<char>>>,
    DecodeError,
> {
    match array_member(doc, key) {
        Err(error) => Err(error),
        Ok(None) => Ok(None),
        Ok(Some(items)) => match texts_of(items, key) {
            Err(error) => Err(error),
            Ok(texts) => Ok(Some(texts)),
        },
    }
}

/// Each of `items` read by `read`, in order: the first error, or all that was
/// read.
pub open spec fn read_all<T>(
    items: Seq<JsonView>,
    read: spec_fn(JsonView) -> Result<T, DecodeError>,
) -> Result<Seq<T>, DecodeError>
    decreases items.len(),
{
    if items.len() == 0 {
        Ok(Seq::empty())
    } else {
        match read_all(items.drop_last(), read) {
            Err(error) => Err(error),
            Ok(values) => match read(items.last()) {
                Err(error) => Err(error),
                Ok(value) => Ok(values.push(value)),
            },
        }
    }
}

/// Reading one item more: the items before it, then the item.
pub proof fn lemma_read_all_step<T>(
    items: Seq<JsonView>,
    read: spec_fn(JsonView) -> Result<T, DecodeError>,
    i: int,
)
    requires
        0 <= i < items.len(),
    ensures
        read_all(items.take(i + 1), read) == match read_all(items.take(i), read) {
            Err(error) => Err::<Seq<T>, DecodeError>(error),
            Ok(values) => match read(items[i]) {
                Err(error) => Err(error),
                Ok(value) => Ok(values.push(value)),
            },
        },
{
    assert(items.take(i + 1).drop_last() =~= items.take(i));
    assert(items.take(i + 1).last() == items[i]);
}

/// An error among the first items is the error of the whole list.
pub proof fn lemma_read_all_fails<T>(
    items: Seq<JsonView>,
    read: spec_fn(JsonView) -> Result<T, DecodeError>,
    i: int,
)
    requires
        0 <= i <= items.len(),
        read_all(items.take(i), read) is Err,
    ensures
        read_all(items, read) == read_all(items.take(i), read),
    decreases items.len(),
{
    if i == items.len() {
        assert(items.take(i) =~= items);
    } else {
        assert(items.drop_last().take(i) =~= items.take(i));
        lemma_read_all_fails(items.drop_last(), read, i);
    }
}

/// The last member that was added under a key is the one found there.
pub broadcast proof fn lemma_find_member_push(
    members: Seq<(Seq<char>, JsonView)>,
    key: Seq<char>,
    value: JsonView,
    wanted: Seq<char>,
)
    ensures
        #[trigger] find_member(members.push((key, value)), wanted) == if key == wanted {
            Some(value)
        } else {
            find_member(members, wanted)
        },
{
    assert(members.push((key, value)).drop_last() =~= members);
}

/// The document that holds the text `text`.
pub open spec fn text_doc(text: Seq<char>) -> JsonView {
    JsonView::Str(text)
}

/// The document that holds the texts `texts`, in order.
pub open spec fn texts_doc(texts: Seq<Seq<char>>) -> JsonView {
    JsonView::Array(Seq::new(texts.len(), |i: int| JsonView::Str(texts[i])))
}

/// The document that holds the number `n`.
pub open spec fn number_doc(n: nat) -> JsonView {
    JsonView::Number(JsonNumberView::PosInt(n))
}

impl Clone for JsonNumber {
    fn clone(&self) -> (copy: Self)
        ensures
            copy == *self,
    {
        match self {
            JsonNumber::PosInt(n) => JsonNumber::PosInt(*n),
            JsonNumber::NegInt(n) => JsonNumber::NegInt(*n),
            JsonNumber::Float(text) => JsonNumber::Float(text.clone()),
        }
    }
}

impl Json {
    /// A deep copy of the document.
    pub fn duplicate(&self) -> (copy: Json)
        ensures
            copy.deep_view() == self.deep_view(),
        decreases self,
    {
        match self {
            Json::Null => Json::Null,
            Json::Bool(b) => Json::Bool(*b),
            Json::Number(n) => Json::Number(n.clone()),
            Json::Str(s) => Json::Str(s.clone()),
            Json::Array(items) => {
                let mut copies: Vec<Json> = Vec::new();
                let mut i: usize = 0;
                while i < items.len()
                    invariant
                        self is Array,
                        self->Array_0 == *items,
                        i <= items.len(),
                        copies.len() == i,
                        forall|k: int| 0 <= k < i ==> copies@[k].deep_view() == items@[k].deep_view(),
                    decreases items.len() - i,
                {
                    copies.push(items[i].duplicate());
                    i += 1;
                }
                let copy = Json::Array(copies);
                proof {
                    lemma_json_view(copy);
                    lemma_json_view(*self);
                    assert(copies.deep_view() =~= items.deep_view());
                }
                copy
            },
            Json::Object(members) => {
                let mut copies: Vec<JsonMember> = Vec::new();
                let mut i: usize = 0;
                while i < members.len()
                    invariant
                        self is Object,
                        self->Object_0 == *members,
                        i <= members.len(),
                        copies.len() == i,
                        forall|k: int|
                            0 <= k < i ==> copies@[k].key@ == members@[k].key@
                                && copies@[k].value.deep_view() == members@[k].value.deep_view(),
                    decreases members.len() - i,
                {
                    copies.push(
                        JsonMember { key: members[i].key.clone(), value: members[i].value.duplicate() },
                    );
                    i += 1;
                }
                let copy = Json::Object(copies);
                proof {
                    lemma_json_view(copy);
                    lemma_json_view(*self);
                    assert(members_view(copies@) =~= members_view(members@));
                }
                copy
            },
        }
    }
}

impl Json {
    /// What the object holds under `key`, unless that is `null`.
    pub fn get(&self, key: &str) -> (found: Option<&Json>)
        ensures
            match found {
                Some(value) => member(self.deep_view(), key@) == Some(value.deep_view()),
                None => member(self.deep_view(), key@) is None,
            },
    {
        match self {
            Json::Object(members) => {
                let wanted = key.to_owned();
                let ghost all = members_view(members@);
                proof {
                    lemma_json_view(*self);
                }
                assert(all.take(members.len() as int) =~= all);
                let mut i: usize = members.len();
                while i > 0
                    invariant
                        i <= members.len(),
                        all == members_view(members@),
                        self.deep_view() == JsonView::Object(all),
                        wanted@ == key@,
                        find_member(all, key@) == find_member(all.take(i as int), key@),
                    decreases i,
                {
                    i -= 1;
                    assert(all.take(i + 1).drop_last() =~= all.take(i as int));
                    assert(all.take(i + 1).last() == all[i as int]);
                    if members[i].key == wanted {
                        return match &members[i].value {
                            Json::Null => None,
                            value => Some(value),
                        };
                    }
                }
                assert(all.take(0).len() == 0);
                None
            },
            _ => None,
        }
    }

    /// The text under `key`, if the object holds a value there.
    pub fn text_member(&self, key: &'static str) -> (outcome: Result<Option<String>, DecodeError>)
        ensures
            match outcome {
                Ok(found) => text_member(self.deep_view(), key) == Ok::<
                    Option<Seq<char>>,
                    DecodeError,
                >(found.deep_view()),
                Err(error) => text_member(self.deep_view(), key) == Err::<
                    Option<Seq<char>>,
                    DecodeError,
                >(error),
            },
    {
        match self.get(key) {
            None => Ok(None),
            Some(Json::Str(text)) => Ok(Some(text.clone())),
            Some(_) => Err(DecodeError::WrongType(key)),
        }
    }

    /// The number under `key` as a `u32`, if the object holds a value there.
    pub fn u32_member(&self, key: &'static str) -> (outcome: Result<Option<u32>, DecodeError>)
        ensures
            outcome == u32_member(self.deep_view(), key),
    {
        match self.get(key) {
            None => Ok(None),
            Some(Json::Number(JsonNumber::PosInt(n))) => if *n <= 0xffff_ffff {
                Ok(Some(*n as u32))
            } else {
                Err(DecodeError::WrongType(key))
            },
            Some(_) => Err(DecodeError::WrongType(key)),
        }
    }

    /// The number under `key` as an `i32`, if the object holds a value there.
    pub fn i32_member(&self, key: &'static str) -> (outcome: Result<Option<i32>, DecodeError>)
        ensures
            outcome == i32_member(self.deep_view(), key),
    {
        match self.get(key) {
            None => Ok(None),
            Some(Json::Number(JsonNumber::PosInt(n))) => if *n <= 0x7fff_ffff {
                Ok(Some(*n as i32))
            } else {
                Err(DecodeError::WrongType(key))
            },
            Some(Json::Number(JsonNumber::NegInt(n))) => if -0x8000_0000 <= *n && *n < 0 {
                Ok(Some(*n as i32))
            } else {
                Err(DecodeError::WrongType(key))
            },
            Some(_) => Err(DecodeError::WrongType(key)),
        }
    }

    /// The items of the array under `key`, if the object holds a value there.
    pub fn array_member(&self, key: &'static str) -> (outcome: Result<
        Option<&Vec<Json>>,
        DecodeError,
    >)
        ensures
            match outcome {
                Ok(found) => array_member(self.deep_view(), key) == Ok::<
                    Option<Seq<JsonView>>,
                    DecodeError,
                >(found.deep_view()),
                Err(error) => array_member(self.deep_view(), key) == Err::<
                    Option<Seq<JsonView>>,
                    DecodeError,
                >(error),
            },
    {
        match self.get(key) {
            None => Ok(None),
            Some(Json::Array(items)) => {
                proof {
                    lemma_json_view(Json::Array(*items));
                }
                Ok(Some(items))
            },
            Some(_) => Err(DecodeError::WrongType(key)),
        }
    }

    /// The list of texts under `key`, if the object holds a value there.
    pub fn texts_member(&self, key: &'static str) -> (outcome: Result<
        Option<Vec<String>>,
        DecodeError,
    >)
        ensures
            match outcome {
                Ok(found) => texts_member(self.deep_view(), key) == Ok::<
                    Option<Seq<Seq<char>>>,
                    DecodeError,
                >(found.deep_view()),
                Err(error) => texts_member(self.deep_view(), key) == Err::<
                    Option<Seq<Seq<char>>>,
                    DecodeError,
                >(error),
            },
    {
        let items = match self.array_member(key) {
            Err(error) => { return Err(error); },
            Ok(None) => { return Ok(None); },
            Ok(Some(items)) => items,
        };
        let ghost all = items.deep_view();
        let mut texts: Vec<String> = Vec::new();
        let mut i: usize = 0;
        assert(all.take(0) =~= Seq::<JsonView>::empty());
        assert(texts.deep_view() =~= Seq::<Seq<char>>::empty());
        while i < items.len()
            invariant
                i <= items.len(),
                all == items.deep_view(),
                array_member(self.deep_view(), key) == Ok::<Option<Seq<JsonView>>, DecodeError>(
                    Some(all),
                ),
                texts_of(all.take(i as int), key) == Ok::<Seq<Seq<char>>, DecodeError>(
                    texts.deep_view(),
                ),
            decreases items.len() - i,
        {
            assert(all.take(i + 1).drop_last() =~= all.take(i as int));
            assert(all.take(i + 1).last() == items@[i as int].deep_view());
            match &items[i] {
                Json::Str(text) => {
                    let ghost before = texts.deep_view();
                    texts.push(text.clone());
                    assert(texts.deep_view() =~= before.push(text@));
                },
                _ => {
                    proof {
                        assert(all[i as int] == items@[i as int].deep_view());
                        assert(!(all[i as int] is Str));
                        lemma_texts_of_fails(all, key, i as int);
                    }
                    return Err(DecodeError::WrongType(key));
                },
            }
            i += 1;
        }
        assert(all.take(items.len() as int) =~= all);
        Ok(Some(texts))
    }

    /// The members of the object, if the document is one.
    pub fn members(&self) -> (found: Option<&Vec<JsonMember>>)
        ensures
            match found {
                Some(members) => self.deep_view() == JsonView::Object(members_view(members@)),
                None => !(self.deep_view() is Object),
            },
    {
        proof {
            lemma_json_view(*self);
        }
        match self {
            Json::Object(members) => Some(members),
            _ => None,
        }
    }

    /// An object without members.
    pub fn object() -> (doc: Json)
        ensures
            doc.deep_view() == JsonView::Object(Seq::empty()),
    {
        let doc = Json::Object(Vec::new());
        proof {
            lemma_json_view(doc);
            assert(members_view(doc->Object_0@) =~= Seq::empty());
        }
        doc
    }

    /// Adds the member `key` with `value` at the end of `members`.
    pub fn push_member(members: &mut Vec<JsonMember>, key: &str, value: Json)
        ensures
            final(members)@.len() == old(members)@.len() + 1,
            members_view(final(members)@) == members_view(old(members)@).push(
                (key@, value.deep_view()),
            ),
    {
        members.push(JsonMember { key: key.to_owned(), value });
        assert(members_view(members@) =~= members_view(old(members)@).push(
            (key@, value.deep_view()),
        ));
    }

    /// The object that holds `members`.
    pub fn from_members(members: Vec<JsonMember>) -> (doc: Json)
        ensures
            doc.deep_view() == JsonView::Object(members_view(members@)),
    {
        let doc = Json::Object(members);
        proof {
            lemma_json_view(doc);
        }
        doc
    }

    /// The array that holds `items`.
    pub fn from_items(items: Vec<Json>) -> (doc: Json)
        ensures
            doc.deep_view() == JsonView::Array(items.deep_view()),
    {
        let doc = Json::Array(items);
        proof {
            lemma_json_view(doc);
        }
        doc
    }

    /// The document that holds the texts `texts`, in order.
    pub fn from_texts(texts: &Vec<String>) -> (doc: Json)
        ensures
            doc.deep_view() == texts_doc(texts.deep_view()),
    {
        let mut items: Vec<Json> = Vec::new();
        let mut i: usize = 0;
        while i < texts.len()
            invariant
                i <= texts.len(),
                items.len() == i,
                forall|k: int| 0 <= k < i ==> items@[k].deep_view() == JsonView::Str(texts@[k]@),
            decreases texts.len() - i,
        {
            items.push(Json::Str(texts[i].clone()));
            i += 1;
        }
        let doc = Json::Array(items);
        proof {
            lemma_json_view(doc);
            assert(items.deep_view() =~= texts_doc(texts.deep_view())->Array_0);
        }
        doc
    }

    /// The document that holds `text`.
    pub fn from_text(text: &str) -> (doc: Json)
        ensures
            doc.deep_view() == text_doc(text@),
    {
        Json::Str(text.to_owned())
    }

    /// The document that holds the number `n`.
    pub fn from_u32(n: u32) -> (doc: Json)
        ensures
            doc.deep_view() == number_doc(n as nat),
    {
        Json::Number(JsonNumber::PosInt(n as u64))
    }

    /// Reads a JSON text.
    pub fn parse(text: &str) -> (outcome: Result<Json, String>)
        ensures
            match outcome {
                Ok(doc) => parsed_json(text@) == Ok::<JsonView, Seq<char>>(doc.deep_view()),
                Err(message) => parsed_json(text@) == Err::<JsonView, Seq<char>>(message@),
            },
    {
        parse_json(text)
    }

    /// Prints the document as compact JSON text.
    pub fn render(&self) -> (text: String)
        ensures
            text@ == rendered_json(self.deep_view()),
    {
        render_json(self)
    }
}

/// Where one of the first items is no text, the list has no texts.
pub proof fn lemma_texts_of_fails(items: Seq<JsonView>, place: &'static str, i: int)
    requires
        0 <= i < items.len(),
        !(items[i] is Str),
        texts_of(items.take(i), place) is Ok,
    ensures
        texts_of(items, place) == Err::<Seq<Seq<char>>, DecodeError>(DecodeError::WrongType(place)),
    decreases items.len(),
{
    if i == items.len() - 1 {
        assert(items.drop_last() =~= items.take(i));
    } else {
        assert(items.drop_last().take(i) =~= items.take(i));
        lemma_texts_of_fails(items.drop_last(), place, i);
    }
}

/// The texts of a list of text documents are the texts.
pub proof fn lemma_texts_of_doc(texts: Seq<Seq<char>>, place: &'static str)
    ensures
        texts_of(texts_doc(texts)->Array_0, place) == Ok::<Seq<Seq<char>>, DecodeError>(texts),
    decreases texts.len(),
{
    let items = texts_doc(texts)->Array_0;
    if texts.len() > 0 {
        assert(items.drop_last() =~= texts_doc(texts.drop_last())->Array_0);
        lemma_texts_of_doc(texts.drop_last(), place);
        assert(texts.drop_last().push(texts.last()) =~= texts);
    } else {
        assert(texts =~= Seq::empty());
    }
}

impl Clone for Json {
    fn clone(&self) -> (copy: Self)
        ensures
            copy.deep_view() == self.deep_view(),
    {
        self.duplicate()
    }
}

} // verus!
