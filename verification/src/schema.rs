//! The JSON-schema-like description of a tool's parameters.
use vstd::prelude::*;

verus! {

/// The element type of an array property.
#[derive(Debug, PartialEq)]
pub struct Items {
    pub kind: String,
}

pub struct ItemsView {
    pub kind: Seq<char>,
}

impl DeepView for Items {
    type V = ItemsView;

    open spec fn deep_view(&self) -> ItemsView {
        ItemsView { kind: self.kind@ }
    }
}

impl Clone for Items {
    fn clone(&self) -> (copy: Self)
        ensures
            copy.deep_view() == self.deep_view(),
    {
        Items { kind: self.kind.clone() }
    }
}

/// One parameter of a tool.
#[derive(Debug, PartialEq)]
pub struct Property {
    pub kind: String,
    pub items: Option<Items>,
    pub description: Option<String>,
    pub enum_values: Option<Vec<String>>,
}

pub struct PropertyView {
    pub kind: Seq<char>,
    pub items: Option<ItemsView>,
    pub description: Option<Seq<char>>,
    pub enum_values: Option<Seq<Seq<char>>>,
}

impl DeepView for Property {
    type V = PropertyView;

    open spec fn deep_view(&self) -> PropertyView {
        PropertyView {
            kind: self.kind@,
            items: self.items.deep_view(),
            description: self.description.deep_view(),
            enum_values: self.enum_values.deep_view(),
        }
    }
}

/// A copy of a list of texts.
pub fn clone_strings(texts: &Vec<String>) -> (copy: Vec<String>)
    ensures
        copy.deep_view() == texts.deep_view(),
{
    let mut copy: Vec<String> = Vec::new();
    let mut i: usize = 0;
    while i < texts.len()
        invariant
            i <= texts.len(),
            copy.len() == i,
            forall|k: int| 0 <= k < i ==> copy@[k]@ == texts@[k]@,
        decreases texts.len() - i,
    {
        copy.push(texts[i].clone());
        i += 1;
    }
    assert(copy.deep_view() =~= texts.deep_view());
    copy
}

impl Clone for Property {
    fn clone(&self) -> (copy: Self)
        ensures
            copy.deep_view() == self.deep_view(),
    {
        Property {
            kind: self.kind.clone(),
            items: match &self.items {
                Some(items) => Some(items.clone()),
                None => None,
            },
            description: self.description.clone(),
            enum_values: match &self.enum_values {
                Some(values) => Some(clone_strings(values)),
                None => None,
            },
        }
    }
}

impl Default for Property {
    fn default() -> (property: Self)
        ensures
            property.kind@ == Seq::<char>::empty(),
            property.items is None,
            property.description is None,
            property.enum_values is None,
    {
        Property { kind: String::new(), items: None, description: None, enum_values: None }
    }
}

/// A property under its name.
#[derive(Debug, PartialEq)]
pub struct PropertyEntry {
    pub name: String,
    pub property: Property,
}

/// The properties of a schema by name, in the order in which their names
/// first came. `insert` leaves no name twice.
#[derive(Debug, PartialEq)]
pub struct PropertyMap {
    entries: Vec<PropertyEntry>,
}

/// Whether `i` is the last place among `entries` that holds `name`.
pub open spec fn is_place_of(entries: Seq<(Seq<char>, PropertyView)>, name: Seq<char>, i: int) -> bool {
    &&& 0 <= i < entries.len()
    &&& entries[i].0 == name
    &&& forall|j: int| i < j < entries.len() ==> (#[trigger] entries[j]).0 != name
}

/// The place among `entries` that speaks for `name`, if there is one.
pub open spec fn position_of(entries: Seq<(Seq<char>, PropertyView)>, name: Seq<char>) -> Option<
    int,
> {
    if exists|i: int| is_place_of(entries, name, i) {
        Some(choose|i: int| is_place_of(entries, name, i))
    } else {
        None
    }
}

/// `entries` as a map from names to properties.
pub open spec fn entries_map(entries: Seq<(Seq<char>, PropertyView)>) -> Map<
    Seq<char>,
    PropertyView,
> {
    Map::new(
        |name: Seq<char>| position_of(entries, name) is Some,
        |name: Seq<char>| entries[position_of(entries, name)->0].1,
    )
}

/// A place that holds `name` shows that `name` has a place, and the last
/// such place is the one that speaks for it.
pub proof fn lemma_position_of(entries: Seq<(Seq<char>, PropertyView)>, name: Seq<char>)
    ensures
        match position_of(entries, name) {
            Some(i) => is_place_of(entries, name, i),
            None => forall|j: int| 0 <= j < entries.len() ==> (#[trigger] entries[j]).0 != name,
        },
        forall|i: int| is_place_of(entries, name, i) ==> position_of(entries, name) == Some(i),
    decreases entries.len(),
{
    if position_of(entries, name) is None {
        assert forall|j: int| 0 <= j < entries.len() implies (#[trigger] entries[j]).0 != name by {
            if entries[j].0 == name {
                lemma_last_holder(entries, name, j);
            }
        }
    }
}

/// If some place holds `name`, then a last one does.
proof fn lemma_last_holder(entries: Seq<(Seq<char>, PropertyView)>, name: Seq<char>, j: int)
    requires
        0 <= j < entries.len(),
        entries[j].0 == name,
    ensures
        exists|i: int| is_place_of(entries, name, i),
    decreases entries.len() - j,
{
    if exists|k: int| j < k < entries.len() && (#[trigger] entries[k]).0 == name {
        let k = choose|k: int| j < k < entries.len() && (#[trigger] entries[k]).0 == name;
        lemma_last_holder(entries, name, k);
    } else {
        assert(is_place_of(entries, name, j));
    }
}

/// Putting a property under a name at the place that speaks for it, or at the
/// end where the name is new, is an insertion into the map.
pub proof fn lemma_entries_insert(
    before: Seq<(Seq<char>, PropertyView)>,
    name: Seq<char>,
    property: PropertyView,
)
    ensures
        match position_of(before, name) {
            Some(i) => entries_map(before.update(i, (name, property))) == entries_map(
                before,
            ).insert(name, property),
            None => entries_map(before.push((name, property))) == entries_map(before).insert(
                name,
                property,
            ),
        },
{
    lemma_position_of(before, name);
    let after = match position_of(before, name) {
        Some(i) => before.update(i, (name, property)),
        None => before.push((name, property)),
    };
    let place = match position_of(before, name) {
        Some(i) => i,
        None => before.len() as int,
    };
    assert(is_place_of(after, name, place));
    assert forall|key: Seq<char>|
        #![trigger position_of(after, key)]
        (position_of(after, key) is Some) == (key == name || position_of(before, key) is Some)
            && (position_of(after, key) is Some ==> after[position_of(after, key)->0].1 == (if key
            == name {
            property
        } else {
            before[position_of(before, key)->0].1
        })) by {
        lemma_position_of(after, key);
        lemma_position_of(before, key);
        if key != name {
            if position_of(before, key) is Some {
                let k = position_of(before, key)->0;
                assert(is_place_of(after, key, k));
            }
            if position_of(after, key) is Some {
                let k = position_of(after, key)->0;
                assert(is_place_of(before, key, k));
            }
        }
    }
    assert(entries_map(after) =~= entries_map(before).insert(name, property));
}

/// `entries` with `property` under `name`: at the place that speaks for the
/// name, or at the end where the name is new.
pub open spec fn entries_with(
    entries: Seq<(Seq<char>, PropertyView)>,
    name: Seq<char>,
    property: PropertyView,
) -> Seq<(Seq<char>, PropertyView)> {
    match position_of(entries, name) {
        Some(place) => entries.update(place, (name, property)),
        None => entries.push((name, property)),
    }
}

/// A property that is added at the end speaks for its name.
pub proof fn lemma_entries_push(
    before: Seq<(Seq<char>, PropertyView)>,
    name: Seq<char>,
    property: PropertyView,
)
    ensures
        entries_map(before.push((name, property))) == entries_map(before).insert(name, property),
{
    let after = before.push((name, property));
    assert(is_place_of(after, name, before.len() as int));
    assert forall|key: Seq<char>|
        #![trigger position_of(after, key)]
        (position_of(after, key) is Some) == (key == name || position_of(before, key) is Some)
            && (position_of(after, key) is Some ==> after[position_of(after, key)->0].1 == (if key
            == name {
            property
        } else {
            before[position_of(before, key)->0].1
        })) by {
        lemma_position_of(after, key);
        lemma_position_of(before, key);
        if key != name {
            if position_of(before, key) is Some {
                let k = position_of(before, key)->0;
                assert(is_place_of(after, key, k));
            }
            if position_of(after, key) is Some {
                let k = position_of(after, key)->0;
                assert(is_place_of(before, key, k));
            }
        }
    }
    assert(entries_map(after) =~= entries_map(before).insert(name, property));
}

impl DeepView for PropertyMap {
    type V = Seq<(Seq<char>, PropertyView)>;

    closed spec fn deep_view(&self) -> Seq<(Seq<char>, PropertyView)> {
        Seq::new(
            self.entries@.len(),
            |i: int| (self.entries@[i].name@, self.entries@[i].property.deep_view()),
        )
    }
}

impl PropertyMap {
    /// The map as a mathematical map from names to properties.
    pub open spec fn as_map(&self) -> Map<Seq<char>, PropertyView> {
        entries_map(self.deep_view())
    }

    /// An empty map.
    pub fn new() -> (map: PropertyMap)
        ensures
            map.deep_view() == Seq::<(Seq<char>, PropertyView)>::empty(),
    {
        let map = PropertyMap { entries: Vec::new() };
        assert(map.deep_view() =~= Seq::<(Seq<char>, PropertyView)>::empty());
        map
    }

    /// The number of properties.
    pub fn len(&self) -> (n: usize)
        ensures
            n == self.deep_view().len(),
    {
        self.entries.len()
    }

    /// Whether the map holds no property.
    pub fn is_empty(&self) -> (empty: bool)
        ensures
            empty == (self.deep_view().len() == 0),
    {
        self.entries.len() == 0
    }

    /// The place that speaks for `name`, if the map holds it.
    fn find(&self, name: &String) -> (place: Option<usize>)
        ensures
            match place {
                Some(i) => position_of(self.deep_view(), name@) == Some(i as int) && i
                    < self.deep_view().len(),
                None => position_of(self.deep_view(), name@) is None,
            },
    {
        let mut i: usize = self.entries.len();
        while i > 0
            invariant
                i <= self.entries.len(),
                forall|k: int|
                    i <= k < self.deep_view().len() ==> (#[trigger] self.deep_view()[k]).0 != name@,
            decreases i,
        {
            i -= 1;
            if self.entries[i].name == *name {
                proof {
                    assert(is_place_of(self.deep_view(), name@, i as int));
                    lemma_position_of(self.deep_view(), name@);
                }
                return Some(i);
            }
        }
        proof {
            lemma_position_of(self.deep_view(), name@);
        }
        None
    }

    /// The property under `name`, if the map holds one.
    pub fn get(&self, name: &str) -> (found: Option<&Property>)
        ensures
            found.is_some() == self.as_map().dom().contains(name@),
            found matches Some(property) ==> property.deep_view() == self.as_map()[name@],
    {
        let key = name.to_owned();
        match self.find(&key) {
            Some(i) => Some(&self.entries[i].property),
            None => None,
        }
    }

    /// Whether the map holds a property under `name`.
    pub fn contains_key(&self, name: &str) -> (held: bool)
        ensures
            held == self.as_map().dom().contains(name@),
    {
        let key = name.to_owned();
        self.find(&key).is_some()
    }

    /// Puts `property` under `name`. A property that stood under that name
    /// leaves, and the new one takes its place in the order; a new name goes
    /// to the end.
    pub fn insert(&mut self, name: String, property: Property) -> (previous: Option<Property>)
        ensures
            match position_of(old(self).deep_view(), name@) {
                Some(i) => {
                    &&& previous matches Some(p) && p.deep_view() == old(self).deep_view()[i].1
                    &&& final(self).deep_view() == old(self).deep_view().update(
                        i,
                        (name@, property.deep_view()),
                    )
                },
                None => {
                    &&& previous is None
                    &&& final(self).deep_view() == old(self).deep_view().push(
                        (name@, property.deep_view()),
                    )
                },
            },
            final(self).as_map() == old(self).as_map().insert(name@, property.deep_view()),
    {
        let ghost before = self.deep_view();
        let ghost added = (name@, property.deep_view());
        proof {
            lemma_entries_insert(before, added.0, added.1);
        }
        match self.find(&name) {
            Some(i) => {
                let mut entry = PropertyEntry { name, property };
                std::mem::swap(&mut self.entries[i], &mut entry);
                proof {
                    assert(self.deep_view() =~= before.update(i as int, added));
                }
                Some(entry.property)
            },
            None => {
                self.entries.push(PropertyEntry { name, property });
                proof {
                    assert(self.deep_view() =~= before.push(added));
                }
                None
            },
        }
    }

    /// The name of the property at place `i`.
    pub fn name_at(&self, i: usize) -> (name: &String)
        requires
            i < self.deep_view().len(),
        ensures
            name@ == self.deep_view()[i as int].0,
    {
        &self.entries[i].name
    }

    /// The property at place `i`.
    pub fn property_at(&self, i: usize) -> (property: &Property)
        requires
            i < self.deep_view().len(),
        ensures
            property.deep_view() == self.deep_view()[i as int].1,
    {
        &self.entries[i].property
    }
}

impl Clone for PropertyMap {
    fn clone(&self) -> (copy: Self)
        ensures
            copy.deep_view() == self.deep_view(),
    {
        let mut entries: Vec<PropertyEntry> = Vec::new();
        let mut i: usize = 0;
        while i < self.entries.len()
            invariant
                i <= self.entries.len(),
                entries.len() == i,
                forall|k: int|
                    0 <= k < i ==> entries@[k].name@ == self.entries@[k].name@
                        && entries@[k].property.deep_view()
                        == self.entries@[k].property.deep_view(),
            decreases self.entries.len() - i,
        {
            entries.push(
                PropertyEntry {
                    name: self.entries[i].name.clone(),
                    property: self.entries[i].property.clone(),
                },
            );
            i += 1;
        }
        let copy = PropertyMap { entries };
        assert(copy.deep_view() =~= self.deep_view());
        copy
    }
}

/// The parameters of a tool: an object schema.
#[derive(Debug, PartialEq)]
pub struct Parameters {
    pub kind: String,
    pub properties: PropertyMap,
    pub required: Option<Vec<String>>,
}

pub struct ParametersView {
    pub kind: Seq<char>,
    pub properties: Seq<(Seq<char>, PropertyView)>,
    pub required: Option<Seq<Seq<char>>>,
}

impl DeepView for Parameters {
    type V = ParametersView;

    open spec fn deep_view(&self) -> ParametersView {
        ParametersView {
            kind: self.kind@,
            properties: self.properties.deep_view(),
            required: self.required.deep_view(),
        }
    }
}

impl Clone for Parameters {
    fn clone(&self) -> (copy: Self)
        ensures
            copy.deep_view() == self.deep_view(),
    {
        Parameters {
            kind: self.kind.clone(),
            properties: self.properties.clone(),
            required: match &self.required {
                Some(names) => Some(clone_strings(names)),
                None => None,
            },
        }
    }
}

} // verus!
