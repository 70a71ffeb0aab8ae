use undocked::lobby::Msg;
use undocked::route::Route;
use undocked::table_info::{TableInfo, Tables};

fn ids(tables: &Tables<&'static str>) -> Vec<u8> {
    tables.tables().iter().map(|t| t.id).collect()
}

fn of(list: &[u8]) -> Tables<&'static str> {
    let mut tables = Tables::new();
    for id in list {
        tables.push(TableInfo::new("w", *id));
    }
    tables
}

#[test]
fn new_registry_is_empty() {
    let tables: Tables<&'static str> = Tables::new();
    assert!(tables.is_empty());
    assert_eq!(tables.tables().len(), 0);
    let by_default: Tables<&'static str> = Tables::default();
    assert!(by_default.is_empty());
}

#[test]
fn push_keeps_creation_order() {
    let mut tables = Tables::new();
    tables.push(TableInfo::new("a", 4));
    tables.push(TableInfo::new("b", 2));
    tables.push(TableInfo::new("c", 9));
    assert_eq!(ids(&tables), vec![4, 2, 9]);
    assert_eq!(tables.tables()[1].window, "b");
    assert!(!tables.is_empty());
}

#[test]
fn remove_hands_back_the_record() {
    let mut tables = Tables::new();
    tables.push(TableInfo::new("a", 0));
    tables.push(TableInfo::new("b", 1));
    tables.push(TableInfo::new("c", 2));
    let removed = tables.remove_by_id(1).expect("table 1 is live");
    assert_eq!(removed.id, 1);
    assert_eq!(removed.window, "b");
    assert_eq!(ids(&tables), vec![0, 2]);
}

#[test]
fn remove_twice_finds_nothing_the_second_time() {
    let mut tables = of(&[0, 1, 2]);
    assert!(tables.remove_by_id(1).is_some());
    assert!(tables.remove_by_id(1).is_none());
    assert_eq!(ids(&tables), vec![0, 2]);
}

#[test]
fn remove_of_an_unknown_id_changes_nothing() {
    let mut tables = of(&[3, 5]);
    assert!(tables.remove_by_id(4).is_none());
    assert_eq!(ids(&tables), vec![3, 5]);
    let mut empty = of(&[]);
    assert!(empty.remove_by_id(0).is_none());
    assert!(empty.is_empty());
}

#[test]
fn remove_takes_the_first_of_two_equal_ids() {
    let mut tables = Tables::new();
    tables.push(TableInfo::new("first", 7));
    tables.push(TableInfo::new("other", 1));
    tables.push(TableInfo::new("second", 7));
    let removed = tables.remove_by_id(7).expect("table 7 is live");
    assert_eq!(removed.window, "first");
    assert_eq!(ids(&tables), vec![1, 7]);
    assert_eq!(tables.tables()[1].window, "second");
}

#[test]
fn neighbors_of_three() {
    let tables = of(&[10, 20, 30]);
    assert_eq!(
        tables.neighbors(),
        vec![
            (None, 10, Some(20)),
            (Some(10), 20, Some(30)),
            (Some(20), 30, None),
        ]
    );
}

#[test]
fn neighbors_of_one_and_of_none() {
    assert_eq!(of(&[8]).neighbors(), vec![(None, 8, None)]);
    assert_eq!(of(&[]).neighbors(), vec![]);
    assert_eq!(
        of(&[1, 2]).neighbors(),
        vec![(None, 1, Some(2)), (Some(1), 2, None)]
    );
}

#[test]
fn left_this_right_gives_routes() {
    let tables = of(&[0, 1, 2]);
    assert_eq!(
        TableInfo::left_this_right(tables.tables()),
        vec![
            (None, 0, Some(Route::Table { id: 1 })),
            (Some(Route::Table { id: 0 }), 1, Some(Route::Table { id: 2 })),
            (Some(Route::Table { id: 1 }), 2, None),
        ]
    );
    let none: Vec<TableInfo<u8>> = Vec::new();
    assert_eq!(TableInfo::left_this_right(&none), vec![]);
}

#[test]
fn html_maps_in_order_and_only_reads() {
    let mut tables = Tables::new();
    tables.push(TableInfo::new("a", 3));
    tables.push(TableInfo::new("b", 1));
    let views = tables.html(|t| format!("{}:{}", t.id, t.window));
    assert_eq!(views, vec!["3:a".to_string(), "1:b".to_string()]);
    assert_eq!(ids(&tables), vec![3, 1]);
    let none: Tables<&'static str> = Tables::new();
    assert_eq!(none.html(|t| t.id), Vec::<u8>::new());
}

#[test]
fn triple_html_maps_neighbourhoods() {
    let tables = of(&[5, 6]);
    let views = tables.triple_html(|(left, this, right)| {
        (left.and_then(|r| r.table_id()), this, right.and_then(|r| r.table_id()))
    });
    assert_eq!(views, vec![(None, 5, Some(6)), (Some(5), 6, None)]);
}

#[test]
fn registries_are_equal_by_their_ids() {
    let mut a = Tables::new();
    a.push(TableInfo::new("x", 1));
    a.push(TableInfo::new("y", 2));
    let mut b = Tables::new();
    b.push(TableInfo::new("p", 1));
    b.push(TableInfo::new("q", 2));
    assert!(a == b);
    b.push(TableInfo::new("r", 3));
    assert!(a != b);
    assert!(of(&[1, 2]) != of(&[2, 1]));
    assert!(of(&[]) == of(&[]));
    assert!(of(&[1]) != of(&[2]));
}

#[test]
fn close_message_names_the_table() {
    let info = TableInfo::new("w", 12);
    assert_eq!(info.close_message(), Msg::CloseWindow(12));
    let mut tables = Tables::new();
    tables.push(TableInfo::new("a", 1));
    tables.push(info);
    tables.remove_by_id(1);
    assert_eq!(tables.tables()[0].close_message(), Msg::CloseWindow(12));
}

#[test]
fn live_ids_stay_distinct() {
    let mut tables = of(&[0, 1, 2, 3]);
    tables.remove_by_id(2);
    tables.push(TableInfo::new("w", 4));
    tables.remove_by_id(0);
    tables.push(TableInfo::new("w", 5));
    let mut seen = ids(&tables);
    assert_eq!(seen, vec![1, 3, 4, 5]);
    seen.dedup();
    assert_eq!(seen.len(), 4);
}
