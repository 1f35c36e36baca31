//! The `map_agg` aggregate: `(key, value)` rows into a map.

use vstd::hash_set::StringHashSet;
use vstd::prelude::*;

use crate::catalog::DataType;
use crate::map_value::{
    datum_ref, law_maps_pair_keys_and_values, makes_map, zipped, ListValue, ListView, MapType,
    MapValue, MapView, Scalar,
};

verus! {

/// What the aggregate is called with, apart from the rows.
#[derive(Debug, PartialEq, Eq)]
pub struct Context {
    /// The types of the arguments: the key's, then the value's.
    pub arg_types: Vec<DataType>,
}

/// Why a row is rejected.
#[derive(Debug, PartialEq, Eq, Clone, Copy)]
pub enum MapAggError {
    NullKey,
    DuplicateKey,
}

impl MapAggError {
    /// The error as text.
    pub open spec fn text(self) -> Seq<char> {
        match self {
            MapAggError::NullKey => "map keys must not be NULL"@,
            MapAggError::DuplicateKey => "map keys must be unique"@,
        }
    }

    /// The error as text.
    pub fn message(&self) -> (text: String)
        ensures
            text@ == self.text(),
    {
        match self {
            MapAggError::NullKey => "map keys must not be NULL".to_owned(),
            MapAggError::DuplicateKey => "map keys must be unique".to_owned(),
        }
    }
}

/// The rows accepted so far.
pub struct MapAggState {
    keys: Option<ListValue>,
    values: Option<ListValue>,
    seen: StringHashSet,
}

/// What a [`MapAggState`] says: nothing before its lists are made, then the map so far.
pub struct MapAggStateView {
    pub map: Option<MapView>,
}

impl MapAggStateView {
    /// The key is that of an accepted row.
    pub open spec fn has_key(self, key: Seq<char>) -> bool {
        self.map is Some && exists|i: int|
            0 <= i < self.map->0.entries.len() && (#[trigger] self.map->0.entries[i]).0 == key
    }

    /// The number of accepted rows.
    pub open spec fn key_count(self) -> nat {
        match self.map {
            Some(map) => map.entries.len(),
            None => 0,
        }
    }

    /// The map so far, which before the lists are made is empty and typed by `arg_types`.
    pub open spec fn map_or_empty(self, arg_types: Seq<DataType>) -> MapView {
        match self.map {
            Some(map) => map,
            None => MapView {
                key_type: arg_types[0]@,
                value_type: arg_types[1]@,
                entries: Seq::empty(),
            },
        }
    }

    /// The state with its lists made.
    pub open spec fn initialized(self, arg_types: Seq<DataType>) -> MapAggStateView {
        MapAggStateView { map: Some(self.map_or_empty(arg_types)) }
    }

    /// The state after one row, and whether the row was accepted. A rejected row changes nothing.
    pub open spec fn after_row(
        self,
        key: Option<Seq<char>>,
        value: Option<Seq<char>>,
        arg_types: Seq<DataType>,
    ) -> (MapAggStateView, Result<(), MapAggError>) {
        match key {
            None => (self, Err(MapAggError::NullKey)),
            Some(key) => if self.has_key(key) {
                (self, Err(MapAggError::DuplicateKey))
            } else {
                let map = self.map_or_empty(arg_types);
                (
                    MapAggStateView {
                        map: Some(MapView { entries: map.entries.push((key, value)), ..map }),
                    },
                    Ok(()),
                )
            },
        }
    }

    /// There is a map once a row was accepted, and no key occurs twice in it.
    pub open spec fn valid(self) -> bool {
        self.map matches Some(map) ==> map.entries.len() > 0 && map.keys_distinct()
    }
}

impl MapAggState {
    /// The list of keys, if it was made.
    pub closed spec fn key_items(&self) -> Option<ListView> {
        match self.keys {
            Some(keys) => Some(keys@),
            None => None,
        }
    }

    /// The list of values, if it was made.
    pub closed spec fn value_items(&self) -> Option<ListView> {
        match self.values {
            Some(values) => Some(values@),
            None => None,
        }
    }

    /// The keys that were seen.
    pub closed spec fn seen_keys(&self) -> Set<Seq<char>> {
        self.seen@
    }

    /// Keys and values are there together, they make a map, and the keys are those seen.
    pub open spec fn consistent(&self) -> bool {
        match (self.key_items(), self.value_items()) {
            (Some(keys), Some(values)) => {
                &&& makes_map(keys, values)
                &&& forall|text: Seq<char>|
                    self.seen_keys().contains(text) <==> #[trigger] keys.items.contains(Some(text))
            },
            (None, None) => self.seen_keys() == Set::<Seq<char>>::empty(),
            _ => false,
        }
    }

    /// The state is consistent, and its lists were made for a row that was accepted.
    pub open spec fn wf(&self) -> bool {
        &&& self.consistent()
        &&& self.key_items() matches Some(keys) ==> keys.items.len() > 0
    }

    /// The map so far.
    pub open spec fn view(&self) -> MapAggStateView {
        MapAggStateView {
            map: match (self.key_items(), self.value_items()) {
                (Some(keys), Some(values)) => Some(zipped(keys, values)),
                _ => None,
            },
        }
    }

    /// Makes the lists, empty and of the arguments' types, unless they are there. So a second
    /// call changes nothing, and no row is dropped.
    pub fn ensure_initialized(&mut self, ctx: &Context)
        requires
            old(self).key_items() is None ==> ctx.arg_types@.len() >= 2,
        ensures
            final(self).seen_keys() == old(self).seen_keys(),
            final(self).key_items() is Some,
            old(self).key_items() is Some ==> *final(self) == *old(self),
            old(self).key_items() is None ==> {
                &&& final(self).key_items() == Some(
                    ListView { element_type: ctx.arg_types@[0]@, items: Seq::empty() },
                )
                &&& final(self).value_items() == Some(
                    ListView { element_type: ctx.arg_types@[1]@, items: Seq::empty() },
                )
            },
            old(self).consistent() ==> {
                &&& final(self).consistent()
                &&& final(self)@ == old(self)@.initialized(ctx.arg_types@)
            },
    {
        if self.keys.is_none() {
            self.keys = Some(ListValue::empty(ctx.arg_types[0].clone()));
            self.values = Some(ListValue::empty(ctx.arg_types[1].clone()));
            assert(zipped(self.keys->0@, self.values->0@).entries =~= Seq::empty());
        }
    }

    /// Whether the lists were made.
    pub fn is_initialized(&self) -> (result: bool)
        ensures
            result == (self.key_items() is Some),
            self.consistent() ==> result == (self@.map is Some),
    {
        self.keys.is_some()
    }

    /// The result over the accepted rows: NULL before the lists are made, else the rows' map.
    pub fn to_datum(&self) -> (result: Option<MapValue>)
        requires
            self.consistent(),
        ensures
            result is Some <==> self@.map is Some,
            result matches Some(map) ==> map@ == self@.map->0,
    {
        match (&self.keys, &self.values) {
            (Some(keys), Some(values)) => {
                let map = MapValue::try_from_kv(keys.clone(), values.clone());
                Some(map.unwrap())
            },
            _ => None,
        }
    }

    /// A rough size of the state on the heap, from the sizes of its two lists and from the number
    /// of slots that its set of keys holds room for, at 32 bytes each. Room for the accepted keys
    /// counts at least 32 bytes for each of them. The set does not tell its room, so the caller
    /// does.
    pub fn estimated_heap_size(
        &self,
        keys_size: usize,
        values_size: usize,
        seen_capacity: usize,
    ) -> (size: usize)
        requires
            keys_size + values_size + seen_capacity * 32 <= usize::MAX,
        ensures
            size == keys_size + values_size + seen_capacity * 32,
            seen_capacity >= self@.key_count() ==> size >= keys_size + values_size + 32
                * self@.key_count(),
    {
        keys_size + values_size + seen_capacity * 32
    }
}

impl Default for MapAggState {
    /// The state before any row.
    fn default() -> (state: Self)
        ensures
            state.wf(),
            state@ == (MapAggStateView { map: None }),
    {
        MapAggState { keys: None, values: None, seen: StringHashSet::new() }
    }
}

/// The type of the aggregate's result, from the types of its arguments.
pub fn infer_type(arg_types: &Vec<DataType>) -> (map_type: MapType)
    requires
        arg_types@.len() >= 2,
    ensures
        map_type.key@ == arg_types@[0]@,
        map_type.value@ == arg_types@[1]@,
{
    MapType { key: arg_types[0].clone(), value: arg_types[1].clone() }
}

/// Takes one row into the state. A row whose key is NULL, or was there before, is rejected.
pub fn map_agg(
    state: &mut MapAggState,
    key: Option<&Scalar>,
    value: Option<&Scalar>,
    ctx: &Context,
) -> (result: Result<(), MapAggError>)
    requires
        old(state).consistent(),
        key is Some && old(state)@.map is None ==> ctx.arg_types@.len() >= 2,
    ensures
        final(state).consistent(),
        old(state).wf() || result is Ok ==> final(state).wf(),
        (final(state)@, result) == old(state)@.after_row(
            datum_ref(key),
            datum_ref(value),
            ctx.arg_types@,
        ),
        key is None ==> result == Err::<(), MapAggError>(MapAggError::NullKey),
        key matches Some(scalar) ==> {
            let known = old(state)@.map is Some && exists|i: int|
                0 <= i < old(state)@.map->0.entries.len() && (
                #[trigger] old(state)@.map->0.entries[i]).0 == scalar.text@;
            &&& known ==> result == Err::<(), MapAggError>(MapAggError::DuplicateKey)
            &&& !known ==> result is Ok && final(state)@.map->0.entries.last() == (
                scalar.text@,
                match value {
                    Some(scalar) => Some(scalar.text@),
                    None => None,
                },
            )
        },
{
    let Some(key) = key else {
        return Err(MapAggError::NullKey);
    };
    state.ensure_initialized(ctx);
    let ghost keys = state.keys->0@;
    let ghost values = state.values->0@;
    let ghost map = zipped(keys, values);
    proof {
        if old(state).keys is Some {
            assert(old(state)@.map->0 == map);
            if keys.items.contains(Some(key@)) {
                let i = choose|i: int| 0 <= i < keys.items.len() && keys.items[i] == Some(key@);
                assert(old(state)@.map->0.entries[i].0 == key@);
            }
            if old(state)@.has_key(key@) {
                let i = choose|i: int|
                    0 <= i < map.entries.len() && (#[trigger] map.entries[i]).0 == key@;
                assert(keys.items[i] == Some(key@));
                assert(keys.items.contains(Some(key@)));
            }
        }
        assert(state.seen@.contains(key@) == old(state)@.has_key(key@));
    }
    if !state.seen.insert(key.text.clone()) {
        assert(state.seen@ =~= old(state).seen@);
        return Err(MapAggError::DuplicateKey);
    }
    state.keys.as_mut().unwrap().append(Some(key));
    state.values.as_mut().unwrap().append(value);
    proof {
        let now = state.keys->0@;
        assert(now.items == keys.items.push(Some(key@)));
        assert forall|text: Seq<char>|
            state.seen@.contains(text) <==> #[trigger] now.items.contains(Some(text)) by {
            if keys.items.contains(Some(text)) {
                let i = choose|i: int| 0 <= i < keys.items.len() && keys.items[i] == Some(text);
                assert(now.items[i] == Some(text));
            }
            assert(now.items[keys.items.len() as int] == Some(key@));
        }
        assert(!keys.items.contains(Some(key@)));
        assert(map.entries =~= old(state)@.map_or_empty(ctx.arg_types@).entries);
        assert(state@.map->0.entries =~= map.entries.push((key@, datum_ref(value))));
    }
    Ok(())
}

/// In every state no key occurs twice, and the keys are those seen. In a well-formed state there is
/// a map only once a row was accepted.
pub proof fn law_states_are_valid(state: MapAggState)
    requires
        state.consistent(),
    ensures
        state@.map matches Some(map) ==> map.keys_distinct(),
        forall|key: Seq<char>| #[trigger]
            state@.has_key(key) <==> state.seen_keys().contains(key),
        state.wf() ==> state@.valid(),
{
    if state.keys is Some {
        let items = state.keys->0@.items;
        let entries = state@.map->0.entries;
        assert forall|i: int, j: int| 0 <= i < j < entries.len() implies (
        #[trigger] entries[i]).0 != (#[trigger] entries[j]).0 by {
            assert(items[i] is Some && items[j] is Some);
            assert(items[i] != items[j]);
        }
        assert forall|key: Seq<char>| #[trigger]
            state@.has_key(key) <==> state.seen_keys().contains(key) by {
            if state@.has_key(key) {
                let i = choose|i: int|
                    0 <= i < entries.len() && (#[trigger] entries[i]).0 == key;
                assert(items[i] == Some(key));
                assert(items.contains(Some(key)));
            }
            if items.contains(Some(key)) {
                let i = choose|i: int| 0 <= i < items.len() && items[i] == Some(key);
                assert(entries[i].0 == key);
            }
        }
    }
}

/// Rows keep a state valid.
pub proof fn law_rows_keep_validity(
    state: MapAggStateView,
    key: Option<Seq<char>>,
    value: Option<Seq<char>>,
    arg_types: Seq<DataType>,
)
    requires
        state.valid(),
    ensures
        state.after_row(key, value, arg_types).0.valid(),
{
    if key is Some && !state.has_key(key->0) {
        let before = state.map_or_empty(arg_types).entries;
        let after = state.after_row(key, value, arg_types).0.map->0.entries;
        assert forall|i: int, j: int| 0 <= i < j < after.len() implies (#[trigger] after[i]).0 != (
        #[trigger] after[j]).0 by {
            assert(after[i] == before[i]);
            if j < before.len() {
                assert(after[j] == before[j]);
            }
        }
    }
}

/// Making the lists a second time changes nothing, whatever the types then given, and keeps every
/// accepted row.
pub proof fn law_initializing_twice_is_initializing_once(
    state: MapAggStateView,
    arg_types: Seq<DataType>,
    later_types: Seq<DataType>,
)
    ensures
        state.initialized(arg_types).initialized(later_types) == state.initialized(arg_types),
        state.map is Some ==> state.initialized(arg_types) == state,
        state.initialized(arg_types).key_count() == state.key_count(),
        forall|key: Seq<char>|
            #![trigger state.has_key(key)]
            state.initialized(arg_types).has_key(key) == state.has_key(key),
{
}

/// A row with a key makes the lists itself: it is taken alike whether they were made before or not.
pub proof fn law_rows_initialize(
    state: MapAggStateView,
    key: Seq<char>,
    value: Option<Seq<char>>,
    arg_types: Seq<DataType>,
)
    ensures
        state.initialized(arg_types).after_row(Some(key), value, arg_types) == state.after_row(
            Some(key),
            value,
            arg_types,
        ),
{
    assert(state.initialized(arg_types).has_key(key) == state.has_key(key));
}

/// A rejected row changes nothing.
pub proof fn law_rejected_rows_change_nothing(
    state: MapAggStateView,
    key: Option<Seq<char>>,
    value: Option<Seq<char>>,
    arg_types: Seq<DataType>,
)
    requires
        state.after_row(key, value, arg_types).1 is Err,
    ensures
        state.after_row(key, value, arg_types).0 == state,
{
}

/// A row is taken by the whole text of its key and of its value. It is rejected as a duplicate
/// exactly if an entry has that very key; otherwise it is added behind the entries of before, which
/// stay, in a map of the same types, or of the arguments' types if it is the first.
pub proof fn law_rows_are_taken_whole(
    state: MapAggStateView,
    key: Scalar,
    value: Option<&Scalar>,
    arg_types: Seq<DataType>,
)
    ensures
        ({
            let (after, result) = state.after_row(
                datum_ref(Some(&key)),
                datum_ref(value),
                arg_types,
            );
            let known = state.map is Some && exists|i: int|
                0 <= i < state.map->0.entries.len() && (#[trigger] state.map->0.entries[i]).0
                    == key.text@;
            &&& known ==> result == Err::<(), MapAggError>(MapAggError::DuplicateKey) && after
                == state
            &&& !known ==> {
                &&& result is Ok
                &&& after.map matches Some(map)
                &&& map.entries.len() > 0
                &&& map.entries.last().0 == key.text@
                &&& value matches Some(scalar) ==> map.entries.last().1 == Some(scalar.text@)
                &&& value is None ==> map.entries.last().1 is None
                &&& match state.map {
                    Some(before) => {
                        &&& map.entries.len() == before.entries.len() + 1
                        &&& forall|i: int|
                            0 <= i < before.entries.len() ==> #[trigger] map.entries[i]
                                == before.entries[i]
                        &&& map.key_type == before.key_type
                        &&& map.value_type == before.value_type
                    },
                    None => {
                        &&& map.entries.len() == 1
                        &&& map.key_type == arg_types[0].encoded@
                        &&& map.value_type == arg_types[1].encoded@
                    },
                }
            }
        }),
{
}

/// A row without a key is rejected as such and changes nothing, whatever its value.
pub proof fn law_rows_need_keys(
    state: MapAggStateView,
    value: Option<&Scalar>,
    arg_types: Seq<DataType>,
)
    ensures
        state.after_row(datum_ref(None), datum_ref(value), arg_types) == (
            state,
            Err::<(), MapAggError>(MapAggError::NullKey),
        ),
{
}

/// The map of a state has an entry for each key of its list, in the key's place, with the value in
/// the same place.
pub proof fn law_states_pair_keys_and_values(state: MapAggState, i: int)
    requires
        state.consistent(),
        state.key_items() matches Some(keys) && 0 <= i < keys.items.len(),
    ensures
        state@.map matches Some(map) && map.entries.len() == state.key_items()->0.items.len()
            && Some(map.entries[i].0) == state.key_items()->0.items[i] && map.entries[i].1
            == state.value_items()->0.items[i],
{
    law_maps_pair_keys_and_values(state.key_items()->0, state.value_items()->0);
    assert(state.key_items()->0.items[i] is Some);
    assert(state@.map->0.entries[i] == zipped(
        state.key_items()->0,
        state.value_items()->0,
    ).entries[i]);
}

/// A row of the aggregate: a key and a value, each of which may be NULL.
pub type Row = (Option<Seq<char>>, Option<Seq<char>>);

/// The state after the rows, in order, or the error of the first row that is rejected.
pub open spec fn after_rows(rows: Seq<Row>, arg_types: Seq<DataType>) -> Result<
    MapAggStateView,
    MapAggError,
>
    decreases rows.len(),
{
    if rows.len() == 0 {
        Ok(MapAggStateView { map: None })
    } else {
        match after_rows(rows.drop_last(), arg_types) {
            Ok(state) => {
                let (next, result) = state.after_row(rows.last().0, rows.last().1, arg_types);
                match result {
                    Ok(_) => Ok(next),
                    Err(error) => Err(error),
                }
            },
            Err(error) => Err(error),
        }
    }
}

/// `array_agg`: the list of all rows, which is NULL where there is none.
pub open spec fn array_agg(rows: Seq<Row>) -> Option<Seq<Row>> {
    if rows.len() == 0 {
        None
    } else {
        Some(rows)
    }
}

/// `map_from_entries`: the map of a list of entries, NULL for NULL, and an error where a key is
/// NULL or occurs twice.
pub open spec fn map_from_entries(
    entries: Option<Seq<Row>>,
    arg_types: Seq<DataType>,
) -> Result<Option<MapView>, ()> {
    match entries {
        None => Ok(None),
        Some(rows) => {
            let keys = key_list(rows, arg_types);
            let values = value_list(rows, arg_types);
            if makes_map(keys, values) {
                Ok(Some(zipped(keys, values)))
            } else {
                Err(())
            }
        },
    }
}

/// The keys of the rows.
pub open spec fn key_list(rows: Seq<Row>, arg_types: Seq<DataType>) -> ListView {
    ListView { element_type: arg_types[0]@, items: rows.map_values(|row: Row| row.0) }
}

/// The values of the rows.
pub open spec fn value_list(rows: Seq<Row>, arg_types: Seq<DataType>) -> ListView {
    ListView { element_type: arg_types[1]@, items: rows.map_values(|row: Row| row.1) }
}

/// `map_agg(key, value)` is `map_from_entries(array_agg(row(key, value)))`: over the same rows both
/// fail or both give the same result.
pub proof fn law_map_agg_is_map_from_entries(rows: Seq<Row>, arg_types: Seq<DataType>)
    ensures
        match after_rows(rows, arg_types) {
            Ok(state) => map_from_entries(array_agg(rows), arg_types) == Ok::<
                Option<MapView>,
                (),
            >(state.map),
            Err(_) => map_from_entries(array_agg(rows), arg_types) is Err,
        },
    decreases rows.len(),
{
    if rows.len() > 0 {
        let rest = rows.drop_last();
        let last = rows.last();
        law_map_agg_is_map_from_entries(rest, arg_types);
        let keys = key_list(rows, arg_types);
        let values = value_list(rows, arg_types);
        let rest_keys = key_list(rest, arg_types);
        let rest_values = value_list(rest, arg_types);
        assert(keys.items =~= rest_keys.items.push(last.0));
        assert(values.items =~= rest_values.items.push(last.1));
        if after_rows(rest, arg_types) is Err {
            assert(!makes_map(rest_keys, rest_values));
            if makes_map(keys, values) {
                assert forall|i: int| 0 <= i < rest_keys.items.len() implies #[trigger]
                rest_keys.items[i] is Some by {
                    assert(keys.items[i] is Some);
                }
                assert(rest_keys.items.no_duplicates()) by {
                    assert forall|i: int, j: int|
                        0 <= i < rest_keys.items.len() && 0 <= j < rest_keys.items.len() && i
                            != j implies rest_keys.items[i] != rest_keys.items[j] by {
                        assert(keys.items[i] != keys.items[j]);
                    }
                }
            }
        } else {
            let state = after_rows(rest, arg_types)->Ok_0;
            let map = state.map_or_empty(arg_types);
            assert(map == zipped(rest_keys, rest_values)) by {
                if rest.len() == 0 {
                    assert(map.entries =~= zipped(rest_keys, rest_values).entries);
                }
            }
            assert(rest.len() > 0 ==> makes_map(rest_keys, rest_values));
            match last.0 {
                None => {
                    assert(keys.items[rest.len() as int] is None);
                },
                Some(key) => {
                    if state.has_key(key) {
                        let i = choose|i: int|
                            0 <= i < map.entries.len() && (#[trigger] map.entries[i]).0 == key;
                        assert(rest_keys.items[i] is Some);
                        assert(keys.items[i] == keys.items[rest.len() as int]);
                    } else {
                        assert forall|i: int| 0 <= i < rest.len() implies keys.items[i] != Some(
                            key,
                        ) by {
                            assert(rest_keys.items[i] is Some);
                            assert(map.entries[i].0 != key);
                        }
                        assert forall|i: int| 0 <= i < keys.items.len() implies #[trigger]
                        keys.items[i] is Some by {
                            if i < rest.len() {
                                assert(rest_keys.items[i] is Some);
                            }
                        }
                        assert(keys.items.no_duplicates()) by {
                            assert forall|i: int, j: int|
                                0 <= i < keys.items.len() && 0 <= j < keys.items.len() && i
                                    != j implies keys.items[i] != keys.items[j] by {
                                if i < rest.len() && j < rest.len() {
                                    assert(rest_keys.items[i] != rest_keys.items[j]);
                                }
                            }
                        }
                        assert(zipped(keys, values).entries =~= map.entries.push((key, last.1)));
                    }
                },
            }
        }
    }
}

/// Rows are all accepted exactly if none lacks a key and no two have the same key. Then the map has
/// one entry for each row, in the rows' order, with the row's own key and value, and without rows
/// there is no map.
pub proof fn law_accepted_rows_are_the_entries(rows: Seq<Row>, arg_types: Seq<DataType>)
    ensures
        after_rows(rows, arg_types) is Ok <==> {
            &&& forall|i: int| 0 <= i < rows.len() ==> (#[trigger] rows[i]).0 is Some
            &&& forall|i: int, j: int|
                0 <= i < j < rows.len() ==> (#[trigger] rows[i]).0 != (#[trigger] rows[j]).0
        },
        after_rows(rows, arg_types) matches Ok(state) ==> {
            &&& state.map is None <==> rows.len() == 0
            &&& state.map matches Some(map) ==> {
                &&& map.key_type == arg_types[0].encoded@
                &&& map.value_type == arg_types[1].encoded@
                &&& map.entries.len() == rows.len()
                &&& forall|i: int|
                    #![trigger rows[i]]
                    0 <= i < rows.len() ==> {
                        &&& Some(map.entries[i].0) == rows[i].0
                        &&& map.entries[i].1 == rows[i].1
                    }
            }
        },
{
    law_map_agg_is_map_from_entries(rows, arg_types);
    let keys = key_list(rows, arg_types);
    let values = value_list(rows, arg_types);
    law_maps_pair_keys_and_values(keys, values);
    if rows.len() > 0 {
        assert forall|i: int| 0 <= i < rows.len() implies #[trigger] rows[i].0 == keys.items[i]
            && rows[i].1 == values.items[i] by {}
        if makes_map(keys, values) {
            assert forall|i: int| 0 <= i < rows.len() implies (#[trigger] rows[i]).0 is Some by {
                assert(keys.items[i] is Some);
            }
            assert forall|i: int, j: int| 0 <= i < j < rows.len() implies (#[trigger] rows[i]).0
                != (#[trigger] rows[j]).0 by {
                assert(keys.items[i] != keys.items[j]);
            }
            let map = zipped(keys, values);
            assert forall|i: int|
                #![trigger rows[i]]
                0 <= i < rows.len() implies Some(map.entries[i].0) == rows[i].0 && map.entries[i].1
                == rows[i].1 by {
                assert(keys.items[i] is Some);
                assert(map.entries[i] == map.entries[i]);
            }
        } else {
            assert(!((forall|i: int| 0 <= i < rows.len() ==> (#[trigger] rows[i]).0 is Some) && (
            forall|i: int, j: int|
                0 <= i < j < rows.len() ==> (#[trigger] rows[i]).0 != (#[trigger] rows[j]).0))) by {
                if (forall|i: int| 0 <= i < rows.len() ==> (#[trigger] rows[i]).0 is Some) && (
                forall|i: int, j: int|
                    0 <= i < j < rows.len() ==> (#[trigger] rows[i]).0 != (#[trigger] rows[j]).0) {
                    assert forall|i: int| 0 <= i < keys.items.len() implies #[trigger] keys.items[i]
                        is Some by {
                        assert(rows[i].0 is Some);
                    }
                    assert forall|i: int, j: int|
                        0 <= i < j < keys.items.len() implies #[trigger] keys.items[i]
                        != #[trigger] keys.items[j] by {
                        assert(rows[i].0 != rows[j].0);
                    }
                }
            }
        }
    }
}

} // verus!
