use ledger_gateway::{
    decimal_string, group_by_values, longest, sample_vehicle, vehicle_get, vehicle_post, with_id,
    Summary, User, Vehicle,
};

#[test]
fn longest_prefers_longer() {
    assert_eq!(longest("valuedd".to_string(), "value2".to_string()), "valuedd");
    assert_eq!(longest("ab".to_string(), "abc".to_string()), "abc");
}

#[test]
fn longest_tie_takes_second() {
    assert_eq!(longest("abc".to_string(), "xyz".to_string()), "xyz");
    assert_eq!(longest(String::new(), String::new()), "");
}

#[test]
fn longest_counts_bytes() {
    // two characters, four bytes, against three one-byte characters
    assert_eq!(longest("éé".to_string(), "abc".to_string()), "éé");
}

#[test]
fn group_by_values_last_wins() {
    let m = group_by_values(vec![
        ("v1".to_string(), 21),
        ("v2".to_string(), 22),
        ("v1".to_string(), -3),
    ]);
    assert_eq!(m.len(), 2);
    assert_eq!(m.get("v1"), Some(&-3));
    assert_eq!(m.get("v2"), Some(&22));
    assert_eq!(m.get("v3"), None);
}

#[test]
fn group_by_values_empty() {
    let m = group_by_values(vec![]);
    assert!(m.is_empty());
}

#[test]
fn decimal_numerals() {
    assert_eq!(decimal_string(0), "0");
    assert_eq!(decimal_string(7), "7");
    assert_eq!(decimal_string(10), "10");
    assert_eq!(decimal_string(2021), "2021");
    assert_eq!(decimal_string(u32::MAX), "4294967295");
}

#[test]
fn user_summary() {
    let u = User::new("Shorya".to_string(), 12);
    assert_eq!(u.summarize(), "name:Shorya,age:12");
    let v = User::new(String::new(), 0);
    assert_eq!(v.summarize(), "name:,age:0");
}

#[test]
fn sample_vehicle_fields() {
    let v = sample_vehicle("id-1".to_string());
    assert_eq!(v.manufacturer, "toyota");
    assert_eq!(v.model, "2024");
    assert_eq!(v.year, 2021);
    assert_eq!(v.id.as_deref(), Some("id-1"));
}

#[test]
fn vehicle_get_has_fresh_id() {
    let a = vehicle_get();
    let b = vehicle_get();
    let ia = a.id.clone().unwrap();
    assert_eq!(ia.len(), 36);
    assert_eq!(ia.matches('-').count(), 4);
    assert_ne!(a.id, b.id);
    assert_eq!(a.manufacturer, "toyota");
}

#[test]
fn vehicle_post_replaces_id() {
    let v = Vehicle {
        manufacturer: "honda".to_string(),
        model: "civic".to_string(),
        year: 1999,
        id: Some("old".to_string()),
    };
    let r = vehicle_post(v);
    assert_eq!(r.manufacturer, "honda");
    assert_eq!(r.model, "civic");
    assert_eq!(r.year, 1999);
    assert_eq!(r.id.as_ref().map(|s| s.len()), Some(36));
    let w = with_id(r, "x".to_string());
    assert_eq!(w.id.as_deref(), Some("x"));
    assert_eq!(w.year, 1999);
}
