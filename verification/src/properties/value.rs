//! What a property can hold.

use crate::collections::{entries_map, inserted, Key, VecMap, VecSet};
use crate::primitives::Guid;
use vstd::prelude::*;
use vstd::string::*;

verus! {

/// A property bag: property names, each bound to its value.
pub type PropertyMap = VecMap<String, Property>;

/// A key of a map property.
#[derive(Debug, PartialEq, Eq, Hash)]
pub enum MapPropertyKey {
    Struct(Guid),
    Int(i32),
}

/// A value of a map property.
#[derive(Debug)]
pub enum MapPropertyValue {
    Struct(PropertyMap),
    Int(i32),
    /// A 32-bit float, as its bits.
    Float(u32),
    Bool(bool),
}

/// An element of a set property.
#[derive(Debug, PartialEq, Eq, Hash)]
pub enum SetPropertyValue {
    Struct(Guid),
}

/// An element of an array property.
#[derive(Debug)]
pub enum ArrayPropertyValue {
    Int(i32),
    Object(String),
    Struct(StructPropertyValue),
}

/// The value of a struct: one of the two built-in kinds, or a property bag
/// under the struct type's name.
#[derive(Debug)]
pub enum StructPropertyValue {
    DateTime(i64),
    Guid(Guid),
    Foreign { name: String, value: PropertyMap },
}

/// A bound function: the path of an object and the name of one of its
/// functions.
#[derive(Debug)]
pub struct Delegate {
    pub object_path: String,
    pub function_name: String,
}

/// The value of a property.
#[derive(Debug)]
pub enum Property {
    Int(i32),
    UInt32(u32),
    Bool(bool),
    Struct(StructPropertyValue),
    Array(Vec<ArrayPropertyValue>),
    /// A 32-bit float, as its bits.
    Float(u32),
    MulticastInlineDelegate(Vec<Delegate>),
    Str(String),
    MapEntries(VecMap<MapPropertyKey, MapPropertyValue>),
    SetItems(VecSet<SetPropertyValue>),
    Object(String),
    Enum { name: String, value: String },
    Name(String),
}

/// A key of a map property as a mathematical value.
pub enum MapKeyModel {
    Struct(Option<Seq<char>>),
    Int(i32),
}

/// A value of a map property as a mathematical value.
pub enum MapValueModel {
    Struct(Map<Seq<char>, PropertyModel>),
    Int(i32),
    Float(u32),
    Bool(bool),
}

/// An element of a set property as a mathematical value.
pub enum SetValueModel {
    Struct(Option<Seq<char>>),
}

/// An element of an array property as a mathematical value.
pub enum ArrayValueModel {
    Int(i32),
    Object(Seq<char>),
    Struct(StructModel),
}

/// The value of a struct as a mathematical value.
pub enum StructModel {
    DateTime(i64),
    Guid(Option<Seq<char>>),
    Foreign { name: Seq<char>, value: Map<Seq<char>, PropertyModel> },
}

/// A delegate as a mathematical value.
pub struct DelegateModel {
    pub object_path: Seq<char>,
    pub function_name: Seq<char>,
}

/// The value of a property as a mathematical value: text is a sequence of
/// characters, an array a sequence, a bag or map a map, a set a set.
pub enum PropertyModel {
    Int(i32),
    UInt32(u32),
    Bool(bool),
    Struct(StructModel),
    Array(Seq<ArrayValueModel>),
    Float(u32),
    MulticastInlineDelegate(Seq<DelegateModel>),
    Str(Seq<char>),
    MapEntries(Map<MapKeyModel, MapValueModel>),
    SetItems(Set<SetValueModel>),
    Object(Seq<char>),
    Enum { name: Seq<char>, value: Seq<char> },
    Name(Seq<char>),
}

impl View for MapPropertyKey {
    type V = MapKeyModel;

    open spec fn view(&self) -> MapKeyModel {
        match *self {
            MapPropertyKey::Struct(guid) => MapKeyModel::Struct(guid@),
            MapPropertyKey::Int(i) => MapKeyModel::Int(i),
        }
    }
}

impl View for SetPropertyValue {
    type V = SetValueModel;

    open spec fn view(&self) -> SetValueModel {
        match *self {
            SetPropertyValue::Struct(guid) => SetValueModel::Struct(guid@),
        }
    }
}

impl View for Delegate {
    type V = DelegateModel;

    open spec fn view(&self) -> DelegateModel {
        DelegateModel { object_path: self.object_path@, function_name: self.function_name@ }
    }
}

impl Key for MapPropertyKey {
    fn same_key(&self, other: &Self) -> (same: bool) {
        match (self, other) {
            (MapPropertyKey::Struct(a), MapPropertyKey::Struct(b)) => a.same(b),
            (MapPropertyKey::Int(a), MapPropertyKey::Int(b)) => *a == *b,
            _ => false,
        }
    }
}

impl Key for SetPropertyValue {
    fn same_key(&self, other: &Self) -> (same: bool) {
        match (self, other) {
            (SetPropertyValue::Struct(a), SetPropertyValue::Struct(b)) => a.same(b),
        }
    }
}

impl Property {
    /// The mathematical value of the property.
    pub open spec fn model(self) -> PropertyModel
        decreases self,
    {
        match self {
            Property::Int(i) => PropertyModel::Int(i),
            Property::UInt32(u) => PropertyModel::UInt32(u),
            Property::Bool(b) => PropertyModel::Bool(b),
            Property::Struct(value) => PropertyModel::Struct(value.model()),
            Property::Array(items) => PropertyModel::Array(array_model(items@)),
            Property::Float(bits) => PropertyModel::Float(bits),
            Property::MulticastInlineDelegate(delegates) => PropertyModel::MulticastInlineDelegate(
                delegates_model(delegates@),
            ),
            Property::Str(text) => PropertyModel::Str(text@),
            Property::MapEntries(entries) => {
                proof {
                    entries.lemma_entries_decrease();
                }
                PropertyModel::MapEntries(dictionary_model(entries.entries()))
            },
            Property::SetItems(items) => PropertyModel::SetItems(items@),
            Property::Object(path) => PropertyModel::Object(path@),
            Property::Enum { name, value } => PropertyModel::Enum { name: name@, value: value@ },
            Property::Name(text) => PropertyModel::Name(text@),
        }
    }
}

impl StructPropertyValue {
    /// The mathematical value of the struct.
    pub open spec fn model(self) -> StructModel
        decreases self,
    {
        match self {
            StructPropertyValue::DateTime(ticks) => StructModel::DateTime(ticks),
            StructPropertyValue::Guid(guid) => StructModel::Guid(guid@),
            StructPropertyValue::Foreign { name, value } => {
                proof {
                    value.lemma_entries_decrease();
                }
                StructModel::Foreign { name: name@, value: bag_model(value.entries()) }
            },
        }
    }
}

impl ArrayPropertyValue {
    /// The mathematical value of the element.
    pub open spec fn model(self) -> ArrayValueModel
        decreases self,
    {
        match self {
            ArrayPropertyValue::Int(i) => ArrayValueModel::Int(i),
            ArrayPropertyValue::Object(path) => ArrayValueModel::Object(path@),
            ArrayPropertyValue::Struct(value) => ArrayValueModel::Struct(value.model()),
        }
    }
}

impl MapPropertyValue {
    /// The mathematical value of the map's value.
    pub open spec fn model(self) -> MapValueModel
        decreases self,
    {
        match self {
            MapPropertyValue::Struct(value) => {
                proof {
                    value.lemma_entries_decrease();
                }
                MapValueModel::Struct(bag_model(value.entries()))
            },
            MapPropertyValue::Int(i) => MapValueModel::Int(i),
            MapPropertyValue::Float(bits) => MapValueModel::Float(bits),
            MapPropertyValue::Bool(b) => MapValueModel::Bool(b),
        }
    }
}

/// The bag that a list of named properties stands for. Where a name occurs
/// twice, the later property counts.
pub open spec fn bag_model(entries: Seq<(String, Property)>) -> Map<Seq<char>, PropertyModel>
    decreases entries,
{
    if entries.len() == 0 {
        Map::empty()
    } else {
        bag_model(entries.drop_last()).insert(entries.last().0@, entries.last().1.model())
    }
}

/// The map that a list of keyed values stands for. Where a key occurs twice,
/// the later value counts.
pub open spec fn dictionary_model(entries: Seq<(MapPropertyKey, MapPropertyValue)>) -> Map<
    MapKeyModel,
    MapValueModel,
>
    decreases entries,
{
    if entries.len() == 0 {
        Map::empty()
    } else {
        dictionary_model(entries.drop_last()).insert(
            entries.last().0@,
            entries.last().1.model(),
        )
    }
}

/// The bag of a list holds the names that the list's map holds, each with the
/// model of its value.
pub proof fn lemma_bag_model_of_map(entries: Seq<(String, Property)>)
    ensures
        bag_model(entries).dom() == entries_map(entries).dom(),
        forall|name: Seq<char>| #[trigger]
            bag_model(entries).contains_key(name) ==> bag_model(entries)[name] == entries_map(
                entries,
            )[name].model(),
    decreases entries.len(),
{
    if entries.len() > 0 {
        lemma_bag_model_of_map(entries.drop_last());
    }
    assert(bag_model(entries).dom() =~= entries_map(entries).dom());
}

/// The map of a list of keyed values holds the keys that the list's map
/// holds, each with the model of its value.
pub proof fn lemma_dictionary_model_of_map(entries: Seq<(MapPropertyKey, MapPropertyValue)>)
    ensures
        dictionary_model(entries).dom() == entries_map(entries).dom(),
        forall|key: MapKeyModel| #[trigger]
            dictionary_model(entries).contains_key(key) ==> dictionary_model(entries)[key]
                == entries_map(entries)[key].model(),
    decreases entries.len(),
{
    if entries.len() > 0 {
        lemma_dictionary_model_of_map(entries.drop_last());
    }
    assert(dictionary_model(entries).dom() =~= entries_map(entries).dom());
}

/// Binding a name in the list binds it in the bag.
pub proof fn lemma_bag_inserted(
    before: Seq<(String, Property)>,
    after: Seq<(String, Property)>,
    name: String,
    value: Property,
)
    requires
        inserted(before, after, name, value),
    ensures
        bag_model(after) == bag_model(before).insert(name@, value.model()),
    decreases before.len(),
{
    if after == before.push((name, value)) {
        assert(after.drop_last() =~= before);
    } else {
        let i = choose|i: int|
            {
                &&& 0 <= i < before.len()
                &&& (#[trigger] before[i]).0@ == name@
                &&& forall|j: int| i < j < before.len() ==> (#[trigger] before[j]).0@ != name@
                &&& after == before.update(i, (name, value))
            };
        if i == before.len() - 1 {
            assert(after.drop_last() =~= before.drop_last());
            assert(bag_model(after) =~= bag_model(before).insert(name@, value.model()));
        } else {
            assert(after.drop_last() =~= before.drop_last().update(i, (name, value)));
            assert(before.drop_last()[i] == before[i]);
            lemma_bag_inserted(before.drop_last(), after.drop_last(), name, value);
            assert(before.last().0@ != name@);
            assert(bag_model(after) =~= bag_model(before).insert(name@, value.model()));
        }
    }
}

/// Binding a key in the list binds it in the map.
pub proof fn lemma_dictionary_inserted(
    before: Seq<(MapPropertyKey, MapPropertyValue)>,
    after: Seq<(MapPropertyKey, MapPropertyValue)>,
    key: MapPropertyKey,
    value: MapPropertyValue,
)
    requires
        inserted(before, after, key, value),
    ensures
        dictionary_model(after) == dictionary_model(before).insert(key@, value.model()),
    decreases before.len(),
{
    if after == before.push((key, value)) {
        assert(after.drop_last() =~= before);
    } else {
        let i = choose|i: int|
            {
                &&& 0 <= i < before.len()
                &&& (#[trigger] before[i]).0@ == key@
                &&& forall|j: int| i < j < before.len() ==> (#[trigger] before[j]).0@ != key@
                &&& after == before.update(i, (key, value))
            };
        if i == before.len() - 1 {
            assert(after.drop_last() =~= before.drop_last());
            assert(dictionary_model(after) =~= dictionary_model(before).insert(
                key@,
                value.model(),
            ));
        } else {
            assert(after.drop_last() =~= before.drop_last().update(i, (key, value)));
            assert(before.drop_last()[i] == before[i]);
            lemma_dictionary_inserted(before.drop_last(), after.drop_last(), key, value);
            assert(before.last().0@ != key@);
            assert(dictionary_model(after) =~= dictionary_model(before).insert(
                key@,
                value.model(),
            ));
        }
    }
}

/// The sequence that a list of array elements stands for.
pub open spec fn array_model(items: Seq<ArrayPropertyValue>) -> Seq<ArrayValueModel>
    decreases items,
{
    if items.len() == 0 {
        Seq::empty()
    } else {
        array_model(items.drop_last()).push(items.last().model())
    }
}

/// An element at the end of the list is an element at the end of the
/// sequence.
pub proof fn lemma_array_model_push(items: Seq<ArrayPropertyValue>, item: ArrayPropertyValue)
    ensures
        array_model(items.push(item)) == array_model(items).push(item.model()),
{
    assert(items.push(item).drop_last() =~= items);
}

/// The sequence that a list of delegates stands for.
pub open spec fn delegates_model(delegates: Seq<Delegate>) -> Seq<DelegateModel> {
    Seq::new(delegates.len(), |i: int| delegates[i]@)
}

impl View for VecMap<String, Property> {
    type V = Map<Seq<char>, PropertyModel>;

    open spec fn view(&self) -> Map<Seq<char>, PropertyModel> {
        bag_model(self.entries())
    }
}

impl View for VecMap<MapPropertyKey, MapPropertyValue> {
    type V = Map<MapKeyModel, MapValueModel>;

    open spec fn view(&self) -> Map<MapKeyModel, MapValueModel> {
        dictionary_model(self.entries())
    }
}

impl VecMap<String, Property> {
    /// Binds the name `name` to `value`. A property of the same name is
    /// replaced.
    pub fn bind(&mut self, name: String, value: Property)
        ensures
            final(self)@ == old(self)@.insert(name@, value@),
            inserted(old(self).entries(), final(self).entries(), name, value),
    {
        let ghost before = self.entries();
        let ghost bound = (name, value);
        self.insert(name, value);
        proof {
            lemma_bag_inserted(before, self.entries(), bound.0, bound.1);
        }
    }

    /// The property of the name `name`.
    pub fn property(&self, name: &str) -> (found: Option<&Property>)
        ensures
            found is Some == self@.contains_key(name@),
            found matches Some(property) ==> self@[name@] == property@,
    {
        proof {
            lemma_bag_model_of_map(self.entries());
        }
        self.get(&String::from_str(name))
    }
}

impl VecMap<MapPropertyKey, MapPropertyValue> {
    /// Binds the key `key` to `value`. A value under the same key is
    /// replaced.
    pub fn bind(&mut self, key: MapPropertyKey, value: MapPropertyValue)
        ensures
            final(self)@ == old(self)@.insert(key@, value@),
            inserted(old(self).entries(), final(self).entries(), key, value),
    {
        let ghost before = self.entries();
        let ghost bound = (key, value);
        self.insert(key, value);
        proof {
            lemma_dictionary_inserted(before, self.entries(), bound.0, bound.1);
        }
    }

    /// The value under the key `key`.
    pub fn value(&self, key: &MapPropertyKey) -> (found: Option<&MapPropertyValue>)
        ensures
            found is Some == self@.contains_key(key@),
            found matches Some(value) ==> self@[key@] == value@,
    {
        proof {
            lemma_dictionary_model_of_map(self.entries());
        }
        self.get(key)
    }
}

impl View for Property {
    type V = PropertyModel;

    open spec fn view(&self) -> PropertyModel {
        self.model()
    }
}

impl View for StructPropertyValue {
    type V = StructModel;

    open spec fn view(&self) -> StructModel {
        self.model()
    }
}

impl View for ArrayPropertyValue {
    type V = ArrayValueModel;

    open spec fn view(&self) -> ArrayValueModel {
        self.model()
    }
}

impl View for MapPropertyValue {
    type V = MapValueModel;

    open spec fn view(&self) -> MapValueModel {
        self.model()
    }
}

} // verus!
