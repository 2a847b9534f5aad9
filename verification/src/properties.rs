//! Custom properties: named, typed values that a map, a layer or an object
//! may carry.

use vstd::prelude::*;
use crate::color::{channels_of, without_hash, Color};
use crate::json::{
    is_text, items_data, json_data, member, number_data, text_member, JsonData, JsonNumber,
};

verus! {

/// The value of a custom property.
#[derive(Debug, PartialEq, Clone)]
pub enum Property {
    Bool(bool),
    Float(serde_json::Number),
    Int(i32),
    Color(Color),
    String(String),
    File(String),
}

/// What a `Property` holds.
pub enum PropertyView {
    Bool(bool),
    Float(JsonNumber),
    Int(i32),
    Color(Seq<u8>),
    String(Seq<char>),
    File(Seq<char>),
}

impl View for Property {
    type V = PropertyView;

    open spec fn view(&self) -> PropertyView {
        match self {
            Property::Bool(b) => PropertyView::Bool(*b),
            Property::Float(n) => PropertyView::Float(number_data(*n)),
            Property::Int(i) => PropertyView::Int(*i),
            Property::Color(c) => PropertyView::Color(c@),
            Property::String(s) => PropertyView::String(s@),
            Property::File(s) => PropertyView::File(s@),
        }
    }
}

/// A value as a signed 32-bit integer, where it is one.
pub open spec fn as_i32(value: JsonData) -> Option<i32> {
    match value.as_i64() {
        Some(n) if i32::MIN <= n <= i32::MAX => Some(n as i32),
        _ => None,
    }
}

/// The property value that a value spells under a type tag: a boolean under
/// `bool`, any number under `float`, a 32-bit integer under `int`, a colour
/// string under `color`, a string under `string` and `file`. No other tag
/// spells a value.
pub open spec fn property_value(kind: Seq<char>, value: JsonData) -> Option<PropertyView> {
    if kind == "bool"@ {
        match value.as_bool() {
            Some(b) => Some(PropertyView::Bool(b)),
            None => None,
        }
    } else if kind == "float"@ {
        match value.as_number() {
            Some(n) => Some(PropertyView::Float(n)),
            None => None,
        }
    } else if kind == "int"@ {
        match as_i32(value) {
            Some(i) => Some(PropertyView::Int(i)),
            None => None,
        }
    } else if kind == "color"@ {
        match value.as_text() {
            Some(text) => match channels_of(without_hash(text)) {
                Some(channels) => Some(PropertyView::Color(channels)),
                None => None,
            },
            None => None,
        }
    } else if kind == "string"@ {
        match value.as_text() {
            Some(text) => Some(PropertyView::String(text)),
            None => None,
        }
    } else if kind == "file"@ {
        match value.as_text() {
            Some(text) => Some(PropertyView::File(text)),
            None => None,
        }
    } else {
        None
    }
}

/// The named property that a record spells: a string `name`, a string
/// `type`, and a `value` that the type tag fits.
pub open spec fn property_of(record: JsonData) -> Option<(Seq<char>, PropertyView)> {
    match (record.text_field("name"@), record.text_field("type"@), record.field("value"@)) {
        (Some(name), Some(kind), Some(value)) => match property_value(kind, value) {
            Some(property) => Some((name, property)),
            None => None,
        },
        _ => None,
    }
}

/// The mapping that records of properties build up, each entered under its
/// name in turn, so that of two with one name the later stays.
pub open spec fn collected(records: Seq<JsonData>) -> Map<Seq<char>, PropertyView>
    decreases records.len(),
{
    if records.len() == 0 {
        Map::empty()
    } else {
        let (name, property) = property_of(records.last()).unwrap();
        collected(records.drop_last()).insert(name, property)
    }
}

/// The properties that a value spells: an array of which every element
/// spells a named property. Any other value spells none.
pub open spec fn properties_of(data: JsonData) -> Option<Map<Seq<char>, PropertyView>> {
    match data.as_items() {
        Some(records) => if forall|i: int| 0 <= i < records.len() ==> (#[trigger] property_of(
            records[i],
        )) is Some {
            Some(collected(records))
        } else {
            None
        },
        None => None,
    }
}

impl Property {
    /// Reads a property value under its type tag.
    pub fn decode_value(kind: &str, value: &serde_json::Value) -> (res: Option<Property>)
        ensures
            match property_value(kind@, json_data(*value)) {
                Some(property) => res matches Some(p) && p@ == property,
                None => res is None,
            },
    {
        if is_text(kind, "bool") {
            match value.as_bool() {
                Some(b) => Some(Property::Bool(b)),
                None => None,
            }
        } else if is_text(kind, "float") {
            match value.as_number() {
                Some(n) => Some(Property::Float(n.clone())),
                None => None,
            }
        } else if is_text(kind, "int") {
            match value.as_i64() {
                Some(n) => if -0x8000_0000 <= n && n <= 0x7fff_ffff {
                    Some(Property::Int(n as i32))
                } else {
                    None
                },
                None => None,
            }
        } else if is_text(kind, "color") {
            match value.as_str() {
                Some(text) => match Color::from_str(text) {
                    Ok(color) => Some(Property::Color(color)),
                    Err(_) => None,
                },
                None => None,
            }
        } else if is_text(kind, "string") {
            match value.as_str() {
                Some(text) => Some(Property::String(text.to_owned())),
                None => None,
            }
        } else if is_text(kind, "file") {
            match value.as_str() {
                Some(text) => Some(Property::File(text.to_owned())),
                None => None,
            }
        } else {
            None
        }
    }

    /// Reads a named property from its record.
    pub fn decode(record: &serde_json::Value) -> (res: Option<(String, Property)>)
        ensures
            match property_of(json_data(*record)) {
                Some((name, property)) => res matches Some(found) && found.0@ == name && found.1@
                    == property,
                None => res is None,
            },
    {
        let name = match text_member(record, "name") {
            Some(name) => name,
            None => { return None; },
        };
        let kind = match text_member(record, "type") {
            Some(kind) => kind,
            None => { return None; },
        };
        let value = match member(record, "value") {
            Some(value) => value,
            None => { return None; },
        };
        match Property::decode_value(kind.as_str(), value) {
            Some(property) => Some((name, property)),
            None => None,
        }
    }
}

/// The entries of a mapping as they were entered, each under its name.
pub open spec fn entered(entries: Seq<(String, Property)>) -> Map<Seq<char>, PropertyView>
    decreases entries.len(),
{
    if entries.len() == 0 {
        Map::empty()
    } else {
        entered(entries.drop_last()).insert(entries.last().0@, entries.last().1@)
    }
}

/// Whether no two entries have one name.
pub open spec fn distinct_names(entries: Seq<(String, Property)>) -> bool {
    forall|i: int, j: int|
        0 <= i < j < entries.len() ==> (#[trigger] entries[i]).0@ != (#[trigger] entries[j]).0@
}

/// A name is in the mapping exactly if an entry has it.
proof fn lemma_entered_names(entries: Seq<(String, Property)>, name: Seq<char>)
    ensures
        entered(entries).contains_key(name) <==> exists|i: int|
            0 <= i < entries.len() && (#[trigger] entries[i]).0@ == name,
    decreases entries.len(),
{
    if entries.len() > 0 {
        let front = entries.drop_last();
        lemma_entered_names(front, name);
        if entered(entries).contains_key(name) {
            if entries.last().0@ == name {
                assert(entries[entries.len() - 1].0@ == name);
            } else {
                let i = choose|i: int| 0 <= i < front.len() && (#[trigger] front[i]).0@ == name;
                assert(entries[i].0@ == name);
            }
        }
        if exists|i: int| 0 <= i < entries.len() && (#[trigger] entries[i]).0@ == name {
            let i = choose|i: int| 0 <= i < entries.len() && (#[trigger] entries[i]).0@ == name;
            if i < entries.len() - 1 {
                assert(front[i].0@ == name);
            }
        }
    }
}

/// Where names are distinct, each entry's value is the one under its name.
proof fn lemma_entered_value(entries: Seq<(String, Property)>, i: int)
    requires
        distinct_names(entries),
        0 <= i < entries.len(),
    ensures
        entered(entries).contains_key(entries[i].0@),
        entered(entries)[entries[i].0@] == entries[i].1@,
    decreases entries.len(),
{
    let front = entries.drop_last();
    if i < entries.len() - 1 {
        assert(distinct_names(front)) by {
            assert forall|a: int, b: int| 0 <= a < b < front.len() implies (#[trigger] front[a]).0@
                != (#[trigger] front[b]).0@ by {
                assert(entries[a].0@ != entries[b].0@);
            }
        }
        lemma_entered_value(front, i);
        assert(front[i] == entries[i]);
        assert(entries[i].0@ != entries[entries.len() - 1].0@);
    }
}

/// Where names are distinct, the mapping has as many names as entries.
proof fn lemma_entered_len(entries: Seq<(String, Property)>)
    requires
        distinct_names(entries),
    ensures
        entered(entries).dom().finite(),
        entered(entries).len() == entries.len(),
    decreases entries.len(),
{
    if entries.len() > 0 {
        let front = entries.drop_last();
        assert(distinct_names(front)) by {
            assert forall|a: int, b: int| 0 <= a < b < front.len() implies (#[trigger] front[a]).0@
                != (#[trigger] front[b]).0@ by {
                assert(entries[a].0@ != entries[b].0@);
            }
        }
        lemma_entered_len(front);
        lemma_entered_names(front, entries.last().0@);
        if entered(front).contains_key(entries.last().0@) {
            let i = choose|i: int|
                0 <= i < front.len() && (#[trigger] front[i]).0@ == entries.last().0@;
            assert(entries[i].0@ == entries[entries.len() - 1].0@);
        }
    }
}

/// A mapping from property names to values.
#[derive(Debug)]
pub struct Properties {
    entries: Vec<(String, Property)>,
}

impl View for Properties {
    type V = Map<Seq<char>, PropertyView>;

    closed spec fn view(&self) -> Map<Seq<char>, PropertyView> {
        entered(self.entries@)
    }
}

impl Properties {
    #[verifier::type_invariant]
    spec fn names_are_distinct(&self) -> bool {
        distinct_names(self.entries@)
    }

    /// The empty mapping, with room for `capacity` properties.
    pub fn with_capacity(capacity: usize) -> (res: Properties)
        ensures
            res@ == Map::<Seq<char>, PropertyView>::empty(),
    {
        Properties { entries: Vec::with_capacity(capacity) }
    }

    /// The number of properties.
    pub fn len(&self) -> (res: usize)
        ensures
            self@.dom().finite(),
            res == self@.len(),
    {
        proof {
            use_type_invariant(self);
            lemma_entered_len(self.entries@);
        }
        self.entries.len()
    }

    /// Whether there is no property.
    pub fn is_empty(&self) -> (res: bool)
        ensures
            res == (self@.len() == 0),
    {
        proof {
            use_type_invariant(self);
            lemma_entered_len(self.entries@);
        }
        self.entries.len() == 0
    }

    /// Where the entry with the given name stands.
    fn position(&self, name: &String) -> (res: Option<usize>)
        ensures
            match res {
                Some(i) => i < self.entries@.len() && self.entries@[i as int].0@ == name@,
                None => forall|i: int|
                    0 <= i < self.entries@.len() ==> (#[trigger] self.entries@[i]).0@ != name@,
            },
    {
        let mut i: usize = 0;
        while i < self.entries.len()
            invariant
                i <= self.entries@.len(),
                forall|j: int| 0 <= j < i ==> (#[trigger] self.entries@[j]).0@ != name@,
            decreases self.entries@.len() - i,
        {
            if self.entries[i].0 == *name {
                return Some(i);
            }
            i = i + 1;
        }
        None
    }

    /// The value of the property with the given name.
    pub fn get(&self, name: &str) -> (res: Option<&Property>)
        ensures
            match res {
                Some(property) => self@.contains_key(name@) && property@ == self@[name@],
                None => !self@.contains_key(name@),
            },
    {
        let wanted = name.to_owned();
        proof {
            use_type_invariant(self);
            lemma_entered_names(self.entries@, name@);
        }
        match self.position(&wanted) {
            Some(i) => {
                proof {
                    lemma_entered_value(self.entries@, i as int);
                }
                Some(&self.entries[i].1)
            },
            None => None,
        }
    }

    /// The names of the properties, each once.
    pub fn names(&self) -> (res: Vec<String>)
        ensures
            res@.len() == self@.len(),
            forall|i: int| 0 <= i < res@.len() ==> self@.contains_key(#[trigger] res@[i]@),
            forall|name: Seq<char>|
                self@.contains_key(name) ==> exists|i: int|
                    0 <= i < res@.len() && (#[trigger] res@[i])@ == name,
            forall|i: int, j: int|
                0 <= i < j < res@.len() ==> (#[trigger] res@[i])@ != (#[trigger] res@[j])@,
    {
        proof {
            use_type_invariant(self);
            lemma_entered_len(self.entries@);
        }
        let mut out: Vec<String> = Vec::with_capacity(self.entries.len());
        let mut i: usize = 0;
        while i < self.entries.len()
            invariant
                i <= self.entries@.len(),
                out@.len() == i,
                forall|j: int| 0 <= j < i ==> (#[trigger] out@[j])@ == self.entries@[j].0@,
            decreases self.entries@.len() - i,
        {
            out.push(self.entries[i].0.clone());
            i = i + 1;
        }
        proof {
            let entries = self.entries@;
            assert forall|j: int| 0 <= j < out@.len() implies self@.contains_key(
                #[trigger] out@[j]@,
            ) by {
                lemma_entered_value(entries, j);
            }
            assert forall|name: Seq<char>| self@.contains_key(name) implies exists|j: int|
                0 <= j < out@.len() && (#[trigger] out@[j])@ == name by {
                lemma_entered_names(entries, name);
                let j = choose|j: int| 0 <= j < entries.len() && (#[trigger] entries[j]).0@ == name;
                assert(out@[j]@ == name);
            }
            assert forall|a: int, b: int| 0 <= a < b < out@.len() implies (#[trigger] out@[a])@ != (
            #[trigger] out@[b])@ by {
                assert(entries[a].0@ != entries[b].0@);
            }
        }
        out
    }

    /// Whether there is a property with the given name.
    pub fn contains_key(&self, name: &str) -> (res: bool)
        ensures
            res == self@.contains_key(name@),
    {
        self.get(name).is_some()
    }

    /// Enters a property under its name, in place of the one that had the
    /// name before, if any.
    pub fn insert(&mut self, name: String, property: Property)
        ensures
            final(self)@ == old(self)@.insert(name@, property@),
    {
        proof {
            use_type_invariant(&*self);
        }
        let ghost before = self.entries@;
        let found = self.position(&name);
        let mut taken = Properties { entries: Vec::new() };
        std::mem::swap(self, &mut taken);
        let Properties { entries: mut entries } = taken;
        match found {
            Some(i) => {
                let ghost name_view = name@;
                let ghost property_view = property@;
                entries.set(i, (name, property));
                proof {
                    let after = entries@;
                    assert(distinct_names(after)) by {
                        assert forall|a: int, b: int| 0 <= a < b < after.len() implies (
                        #[trigger] after[a]).0@ != (#[trigger] after[b]).0@ by {
                            assert(before[a].0@ != before[b].0@);
                        }
                    }
                    assert forall|key: Seq<char>|
                        entered(after).contains_key(key) <==> entered(before).insert(
                            name_view,
                            property_view,
                        ).contains_key(key) by {
                        lemma_entered_names(after, key);
                        lemma_entered_names(before, key);
                        if exists|j: int| 0 <= j < after.len() && (#[trigger] after[j]).0@ == key {
                            let j = choose|j: int|
                                0 <= j < after.len() && (#[trigger] after[j]).0@ == key;
                            assert(before[j].0@ == key);
                        }
                        if exists|j: int| 0 <= j < before.len() && (#[trigger] before[j]).0@ == key {
                            let j = choose|j: int|
                                0 <= j < before.len() && (#[trigger] before[j]).0@ == key;
                            assert(after[j].0@ == key);
                        }
                        if key == name_view {
                            assert(after[i as int].0@ == key);
                        }
                    }
                    assert forall|key: Seq<char>| entered(after).contains_key(key) implies entered(
                        after,
                    )[key] == entered(before).insert(name_view, property_view)[key] by {
                        lemma_entered_names(after, key);
                        let j = choose|j: int|
                            0 <= j < after.len() && (#[trigger] after[j]).0@ == key;
                        lemma_entered_value(after, j);
                        if j != i {
                            assert(before[j] == after[j]);
                            lemma_entered_value(before, j);
                            assert(before[j].0@ != before[i as int].0@);
                        }
                    }
                    assert(entered(after) =~= entered(before).insert(name_view, property_view));
                }
            },
            None => {
                entries.push((name, property));
                proof {
                    let after = entries@;
                    assert(after.drop_last() =~= before);
                    assert(distinct_names(after)) by {
                        assert forall|a: int, b: int| 0 <= a < b < after.len() implies (
                        #[trigger] after[a]).0@ != (#[trigger] after[b]).0@ by {
                            if b < before.len() {
                                assert(before[a].0@ != before[b].0@);
                            } else {
                                assert(before[a].0@ != after[b].0@);
                            }
                        }
                    }
                }
            },
        }
        *self = Properties { entries };
    }
}

impl Clone for Properties {
    fn clone(&self) -> Self {
        let mut copy = Properties::with_capacity(self.entries.len());
        let mut i: usize = 0;
        while i < self.entries.len()
            invariant
                i <= self.entries@.len(),
            decreases self.entries@.len() - i,
        {
            copy.insert(self.entries[i].0.clone(), self.entries[i].1.clone());
            i = i + 1;
        }
        copy
    }
}

/// Reads the properties that a value spells.
///
/// The value must be an array of records, each with a string `name`, a
/// string `type` and a `value` of that type. A value of any other form is
/// no failure: it has no properties.
pub fn deserialize_properties(data: &serde_json::Value) -> (res: Option<Properties>)
    ensures
        match properties_of(json_data(*data)) {
            Some(properties) => res matches Some(found) && found@ == properties,
            None => res is None,
        },
{
    let records = match data.as_array() {
        Some(records) => records,
        None => { return None; },
    };
    let ghost contents = items_data(records@);
    let mut properties = Properties::with_capacity(records.len());
    let mut i: usize = 0;
    assert(contents.take(0) =~= Seq::<JsonData>::empty());
    while i < records.len()
        invariant
            i <= records.len(),
            contents == items_data(records@),
            json_data(*data).as_items() == Some(contents),
            forall|j: int| 0 <= j < i ==> (#[trigger] property_of(contents[j])) is Some,
            properties@ == collected(contents.take(i as int)),
        decreases records.len() - i,
    {
        assert(contents[i as int] == json_data(records@[i as int]));
        match Property::decode(&records[i]) {
            Some((name, property)) => {
                assert(contents.take(i + 1).drop_last() =~= contents.take(i as int));
                assert(contents.take(i + 1).last() == contents[i as int]);
                properties.insert(name, property);
            },
            None => {
                assert(property_of(contents[i as int]) is None);
                return None;
            },
        }
        i = i + 1;
    }
    assert(contents.take(records.len() as int) =~= contents);
    Some(properties)
}

/// What optional properties hold.
pub open spec fn properties_view(properties: Option<Properties>) -> Option<
    Map<Seq<char>, PropertyView>,
> {
    match properties {
        Some(p) => Some(p@),
        None => None,
    }
}

/// The properties under `properties`, where the record has that member and
/// it spells properties.
pub open spec fn properties_field(record: JsonData) -> Option<Map<Seq<char>, PropertyView>> {
    match record.field("properties"@) {
        Some(data) => properties_of(data),
        None => None,
    }
}

/// Reads the properties of a map, layer or object from its record. A record
/// without the member `properties` has none.
pub fn properties_member(record: &serde_json::Value) -> (res: Option<Properties>)
    ensures
        properties_view(res) == properties_field(json_data(*record)),
{
    match member(record, "properties") {
        Some(data) => deserialize_properties(data),
        None => None,
    }
}

} // verus!
