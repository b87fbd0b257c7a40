use desktop_todolist::storage::{
    complete_todo, default_window_config, todos_from_raw, window_config_from_raw, TodoRaw,
    WindowConfig, WindowConfigRaw,
};

#[test]
fn missing_window_record_gives_default() {
    let c = window_config_from_raw(None);
    assert_eq!(c, WindowConfig { x: 100, y: 100, always_on_top: true });
    assert_eq!(default_window_config(), c);
}

#[test]
fn missing_window_fields_take_defaults() {
    let raw = WindowConfigRaw { x: Some(5), y: None, always_on_top: None };
    assert_eq!(window_config_from_raw(Some(raw)), WindowConfig { x: 5, y: 100, always_on_top: true });
    let full = WindowConfigRaw { x: Some(-7), y: Some(9), always_on_top: Some(false) };
    assert_eq!(window_config_from_raw(Some(full)), WindowConfig { x: -7, y: 9, always_on_top: false });
}

#[test]
fn todo_without_fields_is_completed() {
    let raw = vec![TodoRaw { id: None, text: Some("a".to_string()), done: None, order: None }];
    let todos = todos_from_raw(&raw);
    assert_eq!(todos.len(), 1);
    assert!(!todos[0].id.is_empty());
    assert_eq!(todos[0].id.len(), 36);
    assert_eq!(todos[0].text, "a");
    assert!(!todos[0].done);
    assert_eq!(todos[0].order, 0);
}

#[test]
fn present_fields_are_kept_and_order_defaults_to_index() {
    let raw = vec![
        TodoRaw { id: Some("k1".to_string()), text: None, done: Some(true), order: Some(7) },
        TodoRaw { id: None, text: None, done: None, order: None },
        TodoRaw { id: None, text: None, done: None, order: None },
    ];
    let todos = todos_from_raw(&raw);
    assert_eq!(todos.len(), 3);
    assert_eq!(todos[0].id, "k1");
    assert_eq!(todos[0].text, "");
    assert!(todos[0].done);
    assert_eq!(todos[0].order, 7);
    assert_eq!(todos[1].order, 1);
    assert_eq!(todos[2].order, 2);
    assert_ne!(todos[1].id, todos[2].id);
}

#[test]
fn empty_list_stays_empty() {
    assert!(todos_from_raw(&Vec::new()).is_empty());
}

#[test]
fn complete_todo_uses_fresh_id_only_when_missing() {
    let missing = TodoRaw { id: None, text: None, done: None, order: None };
    let t = complete_todo(&missing, 4, "fresh".to_string());
    assert_eq!(t.id, "fresh");
    assert_eq!(t.order, 4);
    let present = TodoRaw { id: Some("own".to_string()), text: Some("t".to_string()), done: Some(false), order: None };
    let t = complete_todo(&present, 0, "fresh".to_string());
    assert_eq!(t.id, "own");
    assert_eq!(t.text, "t");
}
