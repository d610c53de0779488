use arrakis::error::Error;
use arrakis::ordering::Order;
use arrakis::queries::{
    parse_queries, queries_from_hashmap, FetchQueries, Queries, LIMIT, OFFSET, ORDER, SELECT,
};

fn strings(items: &[&str]) -> Vec<String> {
    items.iter().map(|s| s.to_string()).collect()
}

#[test]
fn the_reserved_keys_are_four() {
    assert_eq!(SELECT, "select");
    assert_eq!(LIMIT, "limit");
    assert_eq!(OFFSET, "offset");
    assert_eq!(ORDER, "order");
}

#[test]
fn a_query_string_is_split_at_ampersands_and_equal_signs() {
    let q = parse_queries("age=gt.30&name=like.a*");
    assert_eq!(q.len(), 2);
    assert_eq!(q.get("age"), Some("gt.30"));
    assert_eq!(q.get("name"), Some("like.a*"));
    assert_eq!(q.get("other"), None);
}

#[test]
fn an_empty_query_string_has_no_parameters() {
    let q = parse_queries("");
    assert_eq!(q.len(), 0);
    assert_eq!(q.get(""), None);
}

#[test]
fn a_piece_without_equal_sign_is_a_key() {
    let q = parse_queries("flag&a=1");
    assert_eq!(q.get("flag"), Some(""));
    assert_eq!(q.get("a"), Some("1"));
    let q = parse_queries("&");
    assert_eq!(q.len(), 1);
    assert_eq!(q.get(""), Some(""));
}

#[test]
fn only_the_first_equal_sign_splits() {
    let q = parse_queries("a=b=c&d==");
    assert_eq!(q.get("a"), Some("b=c"));
    assert_eq!(q.get("d"), Some("="));
}

#[test]
fn a_later_value_replaces_an_earlier_one() {
    let q = parse_queries("a=1&b=2&a=3");
    assert_eq!(q.len(), 2);
    assert_eq!(q.get("a"), Some("3"));
    assert_eq!(q.get("b"), Some("2"));
}

#[test]
fn insert_keeps_one_value_for_each_key() {
    let mut q = Queries::new();
    q.insert("b", "1");
    q.insert("a", "2");
    q.insert("c", "3");
    q.insert("b", "4");
    assert_eq!(q.len(), 3);
    assert_eq!(q.get("a"), Some("2"));
    assert_eq!(q.get("b"), Some("4"));
    assert_eq!(q.get("c"), Some("3"));
}

#[test]
fn a_decoded_query_gives_the_first_value_of_each_key() {
    let m = vec![
        ("b".to_string(), strings(&["1", "2"])),
        ("a".to_string(), strings(&["x"])),
        ("b".to_string(), strings(&["3"])),
    ];
    let q = queries_from_hashmap(&m);
    assert_eq!(q.len(), 2);
    assert_eq!(q.get("a"), Some("x"));
    assert_eq!(q.get("b"), Some("3"));
}

#[test]
fn select_is_split_at_commas() {
    assert_eq!(parse_queries("select=a,b,c").select(), Some(strings(&["a", "b", "c"])));
    assert_eq!(parse_queries("select=").select(), Some(strings(&[""])));
    assert_eq!(parse_queries("a=1").select(), None);
}

#[test]
fn limit_and_offset_are_handed_out_raw() {
    let q = parse_queries("limit= 10&offset=x");
    assert_eq!(q.limit(), Some(" 10"));
    assert_eq!(q.offset(), Some("x"));
    let q = parse_queries("a=1");
    assert_eq!(q.limit(), None);
    assert_eq!(q.offset(), None);
}

#[test]
fn orders_that_do_not_read_are_dropped() {
    let orders = parse_queries("order=a,b.desc,c.up,d.e.f,g.ASC").order().unwrap();
    let read: Vec<(String, bool)> = orders
        .iter()
        .map(|o| match o {
            Order::Asc(c) => (c.clone(), true),
            Order::Desc(c) => (c.clone(), false),
        })
        .collect();
    assert_eq!(
        read,
        vec![("a".to_string(), true), ("b".to_string(), false), ("g".to_string(), true)]
    );
    assert!(parse_queries("a=1").order().is_none());
    assert_eq!(parse_queries("order=x.up").order().unwrap().len(), 0);
}

#[test]
fn filters_come_in_the_order_of_their_keys() {
    let q = parse_queries("name=like.a*&select=a&age=gt.30&limit=1&order=a&offset=2&b=eq.1");
    let filters = q.filters().unwrap();
    let written: Vec<(String, String)> =
        filters.iter().map(|(c, f)| (c.clone(), f.to_string(None))).collect();
    assert_eq!(
        written,
        vec![
            ("age".to_string(), "age > '30'".to_string()),
            ("b".to_string(), "b = '1'".to_string()),
            ("name".to_string(), "name LIKE 'a%'".to_string()),
        ]
    );
}

#[test]
fn reserved_keys_are_no_filters() {
    let q = parse_queries("select=a&limit=1&offset=2&order=a");
    assert_eq!(q.filters().unwrap().len(), 0);
}

#[test]
fn the_first_parameter_that_is_no_filter_decides_the_error() {
    let q = parse_queries("z=bogus.1&a=eq&m=eq.1");
    match q.filters() {
        Err(Error::InvalidFilterSyntax(message)) => assert_eq!(
            message,
            "invalid filter syntax, should be a filter and a value at least, separated by a dot"
        ),
        other => panic!("unexpected: {:?}", other),
    }
    let q = parse_queries("z=bogus.1&m=eq.1");
    match q.filters() {
        Err(Error::InvalidFilter(token)) => assert_eq!(token, "bogus"),
        other => panic!("unexpected: {:?}", other),
    }
}

#[test]
fn a_target_is_a_path_and_parameters() {
    let (path, q) = arrakis::queries::parse_path_queries("/people?age=gt.30&select=name");
    assert_eq!(path, "/people");
    assert_eq!(q.len(), 2);
    assert_eq!(q.get("age"), Some("gt.30"));
    assert_eq!(q.get("select"), Some("name"));
    let (path, q) = arrakis::queries::parse_path_queries("/people");
    assert_eq!(path, "/people");
    assert_eq!(q.len(), 0);
    let (path, q) = arrakis::queries::parse_path_queries("/people?");
    assert_eq!(path, "/people");
    assert_eq!(q.len(), 0);
    let (path, q) = arrakis::queries::parse_path_queries("?a=b?c");
    assert_eq!(path, "");
    assert_eq!(q.get("a"), Some("b?c"));
}
