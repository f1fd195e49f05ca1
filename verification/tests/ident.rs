use wasmtime_bindings::ident::internal_id;

#[test]
fn internal_ids_are_written_in_decimal() {
    assert_eq!(internal_id(0), "_a0");
    assert_eq!(internal_id(7), "_a7");
    assert_eq!(internal_id(10), "_a10");
    assert_eq!(internal_id(12), "_a12");
    assert_eq!(internal_id(105), "_a105");
    assert_eq!(internal_id(4294967295), "_a4294967295");
}

#[test]
fn internal_ids_differ_for_distinct_positions() {
    let ids: Vec<String> = (0..200).map(internal_id).collect();
    for i in 0..ids.len() {
        for j in 0..ids.len() {
            if i != j {
                assert_ne!(ids[i], ids[j]);
            }
        }
    }
    assert_ne!(internal_id(1), internal_id(10));
}
