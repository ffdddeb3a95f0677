use electrs::batch::select_existing;

#[test]
fn batch_keeps_only_resolved_entries() {
    let ids = vec![1u32, 2, 3, 4];
    let responses: Vec<Option<Result<&str, String>>> =
        vec![Some(Ok("a")), None, Some(Err("not found".to_string())), Some(Ok("d"))];
    assert_eq!(select_existing(ids, responses), vec![(1, "a"), (4, "d")]);
}

#[test]
fn batch_empty_input_is_empty() {
    let ids: Vec<u32> = vec![];
    let responses: Vec<Option<Result<u8, ()>>> = vec![];
    assert!(select_existing(ids, responses).is_empty());
}

#[test]
fn batch_all_missing_raises_nothing() {
    let responses: Vec<Option<Result<u8, ()>>> = vec![None, Some(Err(())), None];
    assert!(select_existing(vec![7u8, 8, 9], responses).is_empty());
}

#[test]
fn batch_pairs_by_position_and_ignores_surplus() {
    let responses: Vec<Option<Result<u8, ()>>> = vec![Some(Ok(10)), Some(Ok(20))];
    assert_eq!(select_existing(vec![1u8, 2, 3], responses), vec![(1, 10), (2, 20)]);
    let responses: Vec<Option<Result<u8, ()>>> = vec![Some(Ok(10)), Some(Ok(20)), Some(Ok(30))];
    assert_eq!(select_existing(vec![5u8], responses), vec![(5, 10)]);
}
