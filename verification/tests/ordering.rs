use arrakis::ordering::{to_string, Order};

fn column(o: &Order) -> (&str, bool) {
    match o {
        Order::Asc(c) => (c.as_str(), true),
        Order::Desc(c) => (c.as_str(), false),
    }
}

#[test]
fn a_column_alone_ascends() {
    let o = Order::from_str("name").unwrap();
    assert_eq!(column(&o), ("name", true));
    let o = Order::from_str("").unwrap();
    assert_eq!(column(&o), ("", true));
}

#[test]
fn the_direction_may_be_in_any_case() {
    assert_eq!(column(&Order::from_str("name.asc").unwrap()), ("name", true));
    assert_eq!(column(&Order::from_str("name.ASC").unwrap()), ("name", true));
    assert_eq!(column(&Order::from_str("name.desc").unwrap()), ("name", false));
    assert_eq!(column(&Order::from_str("name.Desc").unwrap()), ("name", false));
}

#[test]
fn anything_else_is_no_order() {
    assert!(Order::from_str("name.up").is_err());
    assert!(Order::from_str("name.").is_err());
    assert!(Order::from_str("a.b.asc").is_err());
    assert!(Order::from_str("name.asc.").is_err());
}

#[test]
fn with_direction_takes_upper_case_only() {
    assert_eq!(column(&Order::with_direction("a", "ASC").unwrap()), ("a", true));
    assert_eq!(column(&Order::with_direction("a", "DESC").unwrap()), ("a", false));
    assert!(Order::with_direction("a", "asc").is_none());
    assert!(Order::with_direction("a", "").is_none());
}

#[test]
fn an_order_is_written_with_its_direction() {
    assert_eq!(to_string(&Order::Asc("name".to_string()), None), "name ASC");
    assert_eq!(to_string(&Order::Desc("name".to_string()), None), "name DESC");
    assert_eq!(to_string(&Order::Asc("name".to_string()), Some("t")), "t.name ASC");
    assert_eq!(to_string(&Order::Desc("age".to_string()), Some("people")), "people.age DESC");
}
