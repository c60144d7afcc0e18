use aivory_monitor::agent::merge_context;
use aivory_monitor::context::{Context, ContextValue, Field};

fn integer(context: &Context, key: &str) -> Option<i64> {
    match context.get(key) {
        Some(ContextValue::Integer(n)) => Some(*n),
        _ => None,
    }
}

fn record(context: &Context, key: &str) -> Option<Vec<(String, String)>> {
    match context.get(key) {
        Some(ContextValue::Record(fields)) => {
            Some(fields.iter().map(|f| (f.name.clone(), f.text.clone())).collect())
        }
        _ => None,
    }
}

fn field(name: &str, text: &str) -> Field {
    Field { name: name.to_string(), text: text.to_string() }
}

fn single(key: &str, n: i64) -> Context {
    let mut c = Context::new();
    c.insert(key.to_string(), ContextValue::Integer(n));
    c
}

#[test]
fn new_context_is_empty() {
    let c = Context::new();
    assert!(c.is_empty());
    assert_eq!(c.len(), 0);
    assert!(c.get("a").is_none());
    assert!(!c.contains_key("a"));
}

#[test]
fn insert_adds_and_overwrites() {
    let mut c = Context::new();
    c.insert("a".to_string(), ContextValue::Integer(1));
    c.insert("b".to_string(), ContextValue::Bool(true));
    assert_eq!(c.len(), 2);
    assert!(!c.is_empty());
    assert_eq!(integer(&c, "a"), Some(1));
    c.insert("a".to_string(), ContextValue::Integer(2));
    assert_eq!(c.len(), 2);
    assert_eq!(integer(&c, "a"), Some(2));
    assert!(matches!(c.get("b"), Some(ContextValue::Bool(true))));
    assert!(c.contains_key("b"));
    assert!(!c.contains_key("B"));
}

#[test]
fn extend_prefers_the_other_context() {
    let mut c = single("a", 1);
    c.insert("keep".to_string(), ContextValue::Text("x".to_string()));
    let mut other = single("a", 2);
    other.insert("new".to_string(), ContextValue::Null);
    c.extend(&other);
    assert_eq!(c.len(), 3);
    assert_eq!(integer(&c, "a"), Some(2));
    assert!(matches!(c.get("keep"), Some(ContextValue::Text(t)) if t == "x"));
    assert!(matches!(c.get("new"), Some(ContextValue::Null)));
    assert_eq!(other.len(), 2);
}

#[test]
fn duplicate_and_clone_copy_every_entry() {
    let mut c = single("a", 1);
    c.insert("user".to_string(), ContextValue::Record(vec![field("id", "u1")]));
    c.insert("raw".to_string(), ContextValue::Json("[1,2]".to_string()));
    let copy = c.duplicate();
    assert_eq!(copy.len(), 3);
    assert_eq!(integer(&copy, "a"), Some(1));
    assert_eq!(record(&copy, "user"), Some(vec![("id".to_string(), "u1".to_string())]));
    assert!(matches!(copy.get("raw"), Some(ContextValue::Json(t)) if t == "[1,2]"));
    let cloned = c.clone();
    assert_eq!(cloned.len(), 3);
    assert_eq!(integer(&cloned, "a"), Some(1));
}

#[test]
fn value_duplicate_copies_each_variant() {
    assert!(matches!(ContextValue::Null.duplicate(), ContextValue::Null));
    assert!(matches!(ContextValue::Bool(false).duplicate(), ContextValue::Bool(false)));
    assert!(matches!(ContextValue::Integer(-3).duplicate(), ContextValue::Integer(-3)));
    assert!(matches!(ContextValue::Text("t".to_string()).duplicate(), ContextValue::Text(t) if t == "t"));
    assert!(matches!(ContextValue::Json("{}".to_string()).duplicate(), ContextValue::Json(t) if t == "{}"));
    match ContextValue::Record(vec![field("id", "1"), field("email", "e")]).duplicate() {
        ContextValue::Record(fields) => {
            assert_eq!(fields.len(), 2);
            assert_eq!(fields[1].name, "email");
            assert_eq!(fields[1].text, "e");
        }
        _ => panic!("not a record"),
    }
}

#[test]
fn merge_gives_precedence_to_later_sources() {
    let mut context = Context::new();
    let custom = single("a", 1);
    let user = vec![field("id", "u1")];
    let explicit = single("a", 2);
    merge_context(&mut context, &custom, &user, Some(explicit));
    assert_eq!(integer(&context, "a"), Some(2));
    assert_eq!(record(&context, "user"), Some(vec![("id".to_string(), "u1".to_string())]));
    assert_eq!(context.len(), 2);
}

#[test]
fn merge_without_user_leaves_user_key_out() {
    let mut context = Context::new();
    let custom = single("a", 1);
    merge_context(&mut context, &custom, &Vec::new(), None);
    assert_eq!(integer(&context, "a"), Some(1));
    assert!(context.get("user").is_none());
    assert_eq!(context.len(), 1);
}

#[test]
fn merge_user_overwrites_custom_user_key() {
    let mut context = single("panic", 1);
    let custom = single("user", 7);
    merge_context(&mut context, &custom, &vec![field("email", "e@x")], None);
    assert_eq!(record(&context, "user"), Some(vec![("email".to_string(), "e@x".to_string())]));
    assert_eq!(integer(&context, "panic"), Some(1));
}

#[test]
fn merge_explicit_overwrites_user_key() {
    let mut context = Context::new();
    merge_context(&mut context, &Context::new(), &vec![field("id", "u")], Some(single("user", 9)));
    assert_eq!(integer(&context, "user"), Some(9));
}

#[test]
fn merge_keeps_custom_when_explicit_is_silent() {
    let mut context = Context::new();
    let mut custom = single("a", 1);
    custom.insert("b".to_string(), ContextValue::Integer(5));
    merge_context(&mut context, &custom, &Vec::new(), Some(single("c", 3)));
    assert_eq!(integer(&context, "a"), Some(1));
    assert_eq!(integer(&context, "b"), Some(5));
    assert_eq!(integer(&context, "c"), Some(3));
}

#[test]
fn entries_list_each_key_once_in_first_write_order() {
    let mut c = Context::new();
    c.insert("b".to_string(), ContextValue::Integer(1));
    c.insert("a".to_string(), ContextValue::Integer(2));
    c.insert("b".to_string(), ContextValue::Integer(3));
    let keys: Vec<&str> = c.entries().iter().map(|e| e.key.as_str()).collect();
    assert_eq!(keys, vec!["b", "a"]);
    assert!(matches!(c.entries()[0].value, ContextValue::Integer(3)));
}
