//! Scalars, lists and maps.

use vstd::hash_set::StringHashSet;
use vstd::prelude::*;

use crate::catalog::DataType;

verus! {

/// A value of some data type in its canonical text encoding: two values of one type are equal
/// exactly if their texts are.
#[derive(Debug, PartialEq, Eq)]
pub struct Scalar {
    pub text: String,
}

impl View for Scalar {
    type V = Seq<char>;

    open spec fn view(&self) -> Seq<char> {
        self.text@
    }
}

impl Clone for Scalar {
    fn clone(&self) -> (copy: Self)
        ensures
            copy@ == self@,
    {
        Scalar { text: self.text.clone() }
    }
}

/// What a value that may be NULL says.
pub open spec fn datum(value: Option<Scalar>) -> Option<Seq<char>> {
    match value {
        Some(scalar) => Some(scalar@),
        None => None,
    }
}

/// What a value that may be NULL, given by reference, says.
pub open spec fn datum_ref(value: Option<&Scalar>) -> Option<Seq<char>> {
    match value {
        Some(scalar) => Some(scalar@),
        None => None,
    }
}

/// A list of values, each of which may be NULL.
#[derive(Debug, PartialEq, Eq)]
pub struct ListValue {
    pub element_type: DataType,
    pub items: Vec<Option<Scalar>>,
}

/// What a [`ListValue`] says.
pub struct ListView {
    pub element_type: Seq<u8>,
    pub items: Seq<Option<Seq<char>>>,
}

impl View for ListValue {
    type V = ListView;

    open spec fn view(&self) -> ListView {
        ListView {
            element_type: self.element_type@,
            items: self.items@.map_values(|value: Option<Scalar>| datum(value)),
        }
    }
}

impl Clone for ListValue {
    fn clone(&self) -> (copy: Self)
        ensures
            copy@ == self@,
    {
        let mut items: Vec<Option<Scalar>> = Vec::new();
        let mut i: usize = 0;
        while i < self.items.len()
            invariant
                i <= self.items@.len(),
                items@.len() == i,
                forall|j: int| 0 <= j < i ==> datum(#[trigger] items@[j]) == datum(self.items@[j]),
            decreases self.items@.len() - i,
        {
            items.push(
                match &self.items[i] {
                    Some(scalar) => Some(scalar.clone()),
                    None => None,
                },
            );
            i += 1;
        }
        let copy = ListValue { element_type: self.element_type.clone(), items };
        assert(copy@.items =~= self@.items);
        copy
    }
}

impl ListValue {
    /// The empty list of this element type.
    pub fn empty(element_type: DataType) -> (list: Self)
        ensures
            list@ == (ListView { element_type: element_type@, items: Seq::empty() }),
    {
        let list = ListValue { element_type, items: Vec::new() };
        assert(list@.items =~= Seq::empty());
        list
    }

    /// Appends a value.
    pub fn append(&mut self, value: Option<&Scalar>)
        ensures
            final(self)@ == (ListView {
                items: old(self)@.items.push(datum_ref(value)),
                ..old(self)@
            }),
    {
        self.items.push(
            match value {
                Some(scalar) => Some(scalar.clone()),
                None => None,
            },
        );
        assert(self@.items =~= old(self)@.items.push(datum_ref(value)));
    }
}

/// The type of maps from one type to another.
#[derive(Debug, PartialEq, Eq)]
pub struct MapType {
    pub key: DataType,
    pub value: DataType,
}

/// The keys and values do not make a map.
#[derive(Debug, PartialEq, Eq, Clone, Copy)]
pub struct NotAMap;

/// A map: keys, of which none is NULL and none occurs twice, each with its value.
#[derive(Debug, PartialEq, Eq)]
pub struct MapValue {
    keys: ListValue,
    values: ListValue,
}

/// What a [`MapValue`] says: the entries in the order in which they were given.
pub struct MapView {
    pub key_type: Seq<u8>,
    pub value_type: Seq<u8>,
    pub entries: Seq<(Seq<char>, Option<Seq<char>>)>,
}

impl MapView {
    /// No key occurs twice.
    pub open spec fn keys_distinct(self) -> bool {
        forall|i: int, j: int|
            0 <= i < j < self.entries.len() ==> (#[trigger] self.entries[i]).0 != (
            #[trigger] self.entries[j]).0
    }
}

/// The keys and the values make a map: there are as many of one as of the other, no key is NULL and
/// no key occurs twice.
pub open spec fn makes_map(keys: ListView, values: ListView) -> bool {
    &&& keys.items.len() == values.items.len()
    &&& forall|i: int| 0 <= i < keys.items.len() ==> #[trigger] keys.items[i] is Some
    &&& keys.items.no_duplicates()
}

/// The map of the keys and values, position by position.
pub open spec fn zipped(keys: ListView, values: ListView) -> MapView {
    MapView {
        key_type: keys.element_type,
        value_type: values.element_type,
        entries: Seq::new(keys.items.len(), |i: int| (keys.items[i]->0, values.items[i])),
    }
}

impl MapValue {
    /// The keys and values make a map.
    #[verifier::type_invariant]
    spec fn is_map(self) -> bool {
        makes_map(self.keys@, self.values@)
    }

    /// The entries of the map.
    pub closed spec fn view(&self) -> MapView {
        zipped(self.keys@, self.values@)
    }

    /// The map of the given keys and values, position by position, if they make one.
    pub fn try_from_kv(keys: ListValue, values: ListValue) -> (result: Result<Self, NotAMap>)
        ensures
            result is Ok <==> makes_map(keys@, values@),
            result matches Ok(map) ==> map@ == zipped(keys@, values@),
    {
        if keys.items.len() != values.items.len() {
            return Err(NotAMap);
        }
        let ghost all = keys@.items;
        let mut seen = StringHashSet::new();
        let mut i: usize = 0;
        while i < keys.items.len()
            invariant
                i <= keys.items@.len(),
                all == keys@.items,
                keys@.items.len() == values@.items.len(),
                forall|j: int| 0 <= j < i ==> #[trigger] all[j] is Some,
                forall|text: Seq<char>|
                    seen@.contains(text) <==> #[trigger] all.take(i as int).contains(Some(text)),
                all.take(i as int).no_duplicates(),
            decreases keys.items@.len() - i,
        {
            let ghost earlier = all.take(i as int);
            assert(all[i as int] == datum(keys.items@[i as int]));
            let Some(key) = &keys.items[i] else {
                return Err(NotAMap);
            };
            let fresh = seen.insert(key.text.clone());
            assert(fresh == !earlier.contains(all[i as int]));
            if !fresh {
                proof {
                    let j = choose|j: int| 0 <= j < earlier.len() && earlier[j] == all[i as int];
                    assert(all[j] == all[i as int]);
                }
                return Err(NotAMap);
            }
            proof {
                let next = all.take(i + 1);
                assert(next =~= earlier.push(all[i as int]));
                assert forall|x: Option<Seq<char>>|
                    next.contains(x) <==> earlier.contains(x) || x == all[i as int] by {
                    if earlier.contains(x) {
                        let j = choose|j: int| 0 <= j < earlier.len() && earlier[j] == x;
                        assert(next[j] == x);
                    }
                    assert(next[i as int] == all[i as int]);
                }
            }
            i += 1;
        }
        assert(all.take(i as int) =~= all);
        Ok(MapValue { keys, values })
    }

    /// The keys, in order.
    pub fn keys(&self) -> (keys: &ListValue)
        ensures
            keys@.element_type == self@.key_type,
            keys@.items == self@.entries.map_values(
                |entry: (Seq<char>, Option<Seq<char>>)| Some(entry.0),
            ),
    {
        proof {
            use_type_invariant(self);
            assert(self.keys@.items =~= self@.entries.map_values(
                |entry: (Seq<char>, Option<Seq<char>>)| Some(entry.0),
            ));
        }
        &self.keys
    }

    /// The values, in the order of their keys.
    pub fn values(&self) -> (values: &ListValue)
        ensures
            values@.element_type == self@.value_type,
            values@.items == self@.entries.map_values(
                |entry: (Seq<char>, Option<Seq<char>>)| entry.1,
            ),
    {
        proof {
            use_type_invariant(self);
            assert(self.values@.items =~= self@.entries.map_values(
                |entry: (Seq<char>, Option<Seq<char>>)| entry.1,
            ));
        }
        &self.values
    }
}

/// A value says its whole text, given by value or by reference, and NULL says nothing.
pub proof fn law_scalars_are_whole(scalar: Scalar)
    ensures
        scalar@ == scalar.text@,
        datum(Some(scalar)) == Some(scalar.text@),
        datum(None) is None,
        datum_ref(Some(&scalar)) == Some(scalar.text@),
        datum_ref(None) is None,
{
}

/// A list says its element type and each value, in its place and by its whole text.
pub proof fn law_lists_are_whole(list: ListValue)
    ensures
        list@.element_type == list.element_type.encoded@,
        list@.items.len() == list.items@.len(),
        forall|i: int|
            0 <= i < list.items@.len() ==> #[trigger] list@.items[i] == match list.items@[i] {
                Some(scalar) => Some(scalar.text@),
                None => None,
            },
{
}

/// Keys and values make a map exactly if they are as many, no key is NULL and no two keys are the
/// same. The map then has the types of both, and as its entries each key with the value in its
/// place.
pub proof fn law_maps_pair_keys_and_values(keys: ListView, values: ListView)
    ensures
        makes_map(keys, values) <==> {
            &&& keys.items.len() == values.items.len()
            &&& forall|i: int| 0 <= i < keys.items.len() ==> #[trigger] keys.items[i] is Some
            &&& forall|i: int, j: int|
                0 <= i < j < keys.items.len() ==> #[trigger] keys.items[i]
                    != #[trigger] keys.items[j]
        },
        zipped(keys, values).key_type == keys.element_type,
        zipped(keys, values).value_type == values.element_type,
        zipped(keys, values).entries.len() == keys.items.len(),
        forall|i: int|
            0 <= i < keys.items.len() && keys.items[i] is Some ==> {
                let entry = #[trigger] zipped(keys, values).entries[i];
                Some(entry.0) == keys.items[i] && entry.1 == values.items[i]
            },
{
}

} // verus!
