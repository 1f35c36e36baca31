use sink_schema::catalog::DataType;
use sink_schema::map_agg::{infer_type, map_agg, Context, MapAggError, MapAggState};
use sink_schema::map_value::{ListValue, MapType, MapValue, NotAMap, Scalar};

fn varchar() -> DataType {
    DataType { encoded: vec![7] }
}

fn int4() -> DataType {
    DataType { encoded: vec![2] }
}

fn ctx() -> Context {
    Context { arg_types: vec![varchar(), int4()] }
}

fn scalar(text: &str) -> Scalar {
    Scalar { text: text.to_string() }
}

fn list(element_type: DataType, items: &[Option<&str>]) -> ListValue {
    ListValue { element_type, items: items.iter().map(|item| item.map(scalar)).collect() }
}

fn feed(
    state: &mut MapAggState,
    rows: &[(Option<&str>, Option<&str>)],
) -> Result<(), MapAggError> {
    for (key, value) in rows {
        let key = key.map(scalar);
        let value = value.map(scalar);
        map_agg(state, key.as_ref(), value.as_ref(), &ctx())?;
    }
    Ok(())
}

#[test]
fn test_map_agg_basic() {
    let mut state = MapAggState::default();
    feed(
        &mut state,
        &[(Some("a"), Some("1")), (Some("b"), Some("2")), (Some("c"), Some("3"))],
    )
    .unwrap();
    assert!(state.to_datum().is_some());
}

#[test]
fn test_map_agg_empty() {
    let state = MapAggState::default();
    assert_eq!(state.to_datum(), None);
}

#[test]
fn entries_keep_the_order_of_the_rows() {
    let mut state = MapAggState::default();
    feed(&mut state, &[(Some("c"), Some("3")), (Some("a"), None), (Some("b"), Some("3"))]).unwrap();
    let map = state.to_datum().unwrap();
    assert_eq!(map.keys(), &list(varchar(), &[Some("c"), Some("a"), Some("b")]));
    assert_eq!(map.values(), &list(int4(), &[Some("3"), None, Some("3")]));
}

#[test]
fn null_key_is_rejected_and_changes_nothing() {
    let mut state = MapAggState::default();
    assert_eq!(map_agg(&mut state, None, Some(&scalar("1")), &ctx()), Err(MapAggError::NullKey));
    assert_eq!(state.to_datum(), None);
    feed(&mut state, &[(Some("a"), Some("1"))]).unwrap();
    assert_eq!(feed(&mut state, &[(None, Some("2"))]), Err(MapAggError::NullKey));
    assert_eq!(state.to_datum().unwrap().keys(), &list(varchar(), &[Some("a")]));
}

#[test]
fn null_key_needs_no_argument_types() {
    let mut state = MapAggState::default();
    let none = Context { arg_types: vec![] };
    assert_eq!(map_agg(&mut state, None, None, &none), Err(MapAggError::NullKey));
}

#[test]
fn duplicate_key_is_rejected_and_changes_nothing() {
    let mut state = MapAggState::default();
    feed(&mut state, &[(Some("a"), Some("1"))]).unwrap();
    assert_eq!(feed(&mut state, &[(Some("a"), Some("2"))]), Err(MapAggError::DuplicateKey));
    let map = state.to_datum().unwrap();
    assert_eq!(map.keys(), &list(varchar(), &[Some("a")]));
    assert_eq!(map.values(), &list(int4(), &[Some("1")]));
    feed(&mut state, &[(Some("b"), Some("2"))]).unwrap();
    assert_eq!(state.to_datum().unwrap().keys(), &list(varchar(), &[Some("a"), Some("b")]));
}

#[test]
fn error_messages() {
    assert_eq!(MapAggError::NullKey.message(), "map keys must not be NULL");
    assert_eq!(MapAggError::DuplicateKey.message(), "map keys must be unique");
}

#[test]
fn agrees_with_the_map_of_all_entries() {
    let mut state = MapAggState::default();
    feed(&mut state, &[(Some("x"), Some("1")), (Some("y"), None)]).unwrap();
    let whole = MapValue::try_from_kv(
        list(varchar(), &[Some("x"), Some("y")]),
        list(int4(), &[Some("1"), None]),
    );
    assert_eq!(state.to_datum(), Some(whole.unwrap()));
}

#[test]
fn keys_and_values_that_make_no_map() {
    assert_eq!(
        MapValue::try_from_kv(list(varchar(), &[Some("a")]), list(int4(), &[])),
        Err(NotAMap)
    );
    assert_eq!(
        MapValue::try_from_kv(
            list(varchar(), &[Some("a"), None, Some("a")]),
            list(int4(), &[None, None, None])
        ),
        Err(NotAMap)
    );
    assert_eq!(
        MapValue::try_from_kv(list(varchar(), &[None, None]), list(int4(), &[None, None])),
        Err(NotAMap)
    );
    assert_eq!(
        MapValue::try_from_kv(list(varchar(), &[Some("a"), None]), list(int4(), &[None, None])),
        Err(NotAMap)
    );
    assert!(MapValue::try_from_kv(list(varchar(), &[]), list(int4(), &[])).is_ok());
}

#[test]
fn heap_size_is_lists_and_slots() {
    let mut state = MapAggState::default();
    assert_eq!(state.estimated_heap_size(0, 0, 0), 0);
    feed(&mut state, &[(Some("a"), Some("1")), (Some("b"), None)]).unwrap();
    assert_eq!(state.estimated_heap_size(100, 20, 7), 344);
}

#[test]
fn result_type_maps_the_first_argument_to_the_second() {
    assert_eq!(
        infer_type(&vec![varchar(), int4()]),
        MapType { key: varchar(), value: int4() }
    );
}

#[test]
fn lists_are_made_once() {
    let mut state = MapAggState::default();
    assert!(!state.is_initialized());
    feed(&mut state, &[(Some("a"), Some("1"))]).unwrap();
    assert!(state.is_initialized());
    let none = Context { arg_types: vec![] };
    assert_eq!(map_agg(&mut state, Some(&scalar("b")), None, &none), Ok(()));
    let map = state.to_datum().unwrap();
    assert_eq!(map.keys(), &list(varchar(), &[Some("a"), Some("b")]));
    assert_eq!(map.values(), &list(int4(), &[Some("1"), None]));
}

#[test]
fn initializing_twice_is_initializing_once() {
    let mut state = MapAggState::default();
    state.ensure_initialized(&ctx());
    assert!(state.is_initialized());
    let map = state.to_datum().unwrap();
    assert_eq!(map.keys(), &list(varchar(), &[]));
    assert_eq!(map.values(), &list(int4(), &[]));

    let swapped = Context { arg_types: vec![int4(), varchar()] };
    state.ensure_initialized(&swapped);
    assert_eq!(state.to_datum(), Some(map));

    feed(&mut state, &[(Some("a"), Some("1"))]).unwrap();
    state.ensure_initialized(&Context { arg_types: vec![] });
    assert_eq!(feed(&mut state, &[(Some("a"), None)]), Err(MapAggError::DuplicateKey));
    let map = state.to_datum().unwrap();
    assert_eq!(map.keys(), &list(varchar(), &[Some("a")]));
    assert_eq!(map.values(), &list(int4(), &[Some("1")]));
}
