//! Persisted records: to-do items and the window configuration, and how
//! records read back with missing fields are completed with defaults.

use vstd::prelude::*;

verus! {

/// One to-do item.
#[derive(Debug, Clone)]
pub struct Todo {
    pub id: String,
    pub text: String,
    pub done: bool,
    pub order: u32,
}

/// A to-do item as read from disk: any field may be missing.
#[derive(Debug)]
pub struct TodoRaw {
    pub id: Option<String>,
    pub text: Option<String>,
    pub done: Option<bool>,
    pub order: Option<u32>,
}

/// Window placement and pin state.
#[derive(Debug, Clone, Copy, PartialEq, Eq, Structural)]
pub struct WindowConfig {
    /// x coordinate of the window's top-left corner
    pub x: i32,
    /// y coordinate of the window's top-left corner
    pub y: i32,
    /// whether the window stays above others
    pub always_on_top: bool,
}

/// A window configuration as read from disk: any field may be missing.
#[derive(Debug, Clone, Copy, PartialEq, Eq, Structural)]
pub struct WindowConfigRaw {
    pub x: Option<i32>,
    pub y: Option<i32>,
    pub always_on_top: Option<bool>,
}

/// File name of the to-do list within the application data directory.
pub const TODOS_FILENAME: &'static str = "todos.json";

/// File name of the window configuration within the application data directory.
pub const WINDOW_FILENAME: &'static str = "window.json";

/// Defaults for a window record, or a field of one, that is missing.
pub const DEFAULT_X: i32 = 100;

pub const DEFAULT_Y: i32 = 100;

pub const DEFAULT_ALWAYS_ON_TOP: bool = true;

/// The record used where none is stored.
pub open spec fn default_config() -> WindowConfig {
    WindowConfig { x: DEFAULT_X, y: DEFAULT_Y, always_on_top: DEFAULT_ALWAYS_ON_TOP }
}

/// The value held, or `d` where there is none.
pub open spec fn or_default<T>(v: Option<T>, d: T) -> T {
    match v {
        Some(a) => a,
        None => d,
    }
}

/// The configuration that a record read back (`None`: missing or unreadable)
/// stands for.
pub open spec fn resolved_config(raw: Option<WindowConfigRaw>) -> WindowConfig {
    match raw {
        None => default_config(),
        Some(w) => WindowConfig {
            x: or_default(w.x, DEFAULT_X),
            y: or_default(w.y, DEFAULT_Y),
            always_on_top: or_default(w.always_on_top, DEFAULT_ALWAYS_ON_TOP),
        },
    }
}

/// The text of an optional string, empty where absent.
pub open spec fn text_or_empty(s: Option<String>) -> Seq<char> {
    match s {
        Some(t) => t@,
        None => Seq::empty(),
    }
}

/// `t` completes the raw item at position `index`, with `fresh_id` standing
/// in for a missing identifier.
pub open spec fn completes(t: Todo, raw: TodoRaw, index: int, fresh_id: Seq<char>) -> bool {
    &&& t.id@ == match raw.id {
        Some(i) => i@,
        None => fresh_id,
    }
    &&& t.text@ == text_or_empty(raw.text)
    &&& t.done == or_default(raw.done, false)
    &&& t.order == or_default(raw.order, index as u32)
}

/// The configuration used where none is stored: at (100, 100), pinned.
pub fn default_window_config() -> (r: WindowConfig)
    ensures
        r == default_config(),
{
    WindowConfig { x: DEFAULT_X, y: DEFAULT_Y, always_on_top: DEFAULT_ALWAYS_ON_TOP }
}

/// Completes a configuration read back from disk: a missing or malformed
/// record (`None`) gives the default, a missing field its default.
pub fn window_config_from_raw(raw: Option<WindowConfigRaw>) -> (r: WindowConfig)
    ensures
        r == resolved_config(raw),
{
    match raw {
        None => default_window_config(),
        Some(w) => WindowConfig {
            x: match w.x {
                Some(v) => v,
                None => DEFAULT_X,
            },
            y: match w.y {
                Some(v) => v,
                None => DEFAULT_Y,
            },
            always_on_top: match w.always_on_top {
                Some(v) => v,
                None => DEFAULT_ALWAYS_ON_TOP,
            },
        },
    }
}

/// Relies on uuid's `Uuid::new_v4` and its `Display`: a random identifier,
/// written in the 36-character hyphenated form.
#[verifier::external_body]
fn new_todo_id() -> (r: String)
    ensures
        r@.len() == 36,
{
    uuid::Uuid::new_v4().to_string()
}

/// Completes the raw item at position `index`: a missing text is empty, a
/// missing `done` is false, a missing order is the position, and a missing
/// identifier is `fresh_id`.
pub fn complete_todo(raw: &TodoRaw, index: usize, fresh_id: String) -> (r: Todo)
    ensures
        completes(r, *raw, index as int, fresh_id@),
{
    Todo {
        id: match &raw.id {
            Some(i) => i.clone(),
            None => fresh_id,
        },
        text: match &raw.text {
            Some(t) => t.clone(),
            None => String::new(),
        },
        done: match raw.done {
            Some(d) => d,
            None => false,
        },
        order: match raw.order {
            Some(o) => o,
            None => index as u32,
        },
    }
}

/// Completes a list read back from disk, item by item; an item without an
/// identifier gets a freshly generated one, which is never empty.
pub fn todos_from_raw(raw: &Vec<TodoRaw>) -> (r: Vec<Todo>)
    ensures
        r@.len() == raw@.len(),
        forall|i: int|
            0 <= i < raw@.len() ==> {
                &&& completes(#[trigger] r@[i], raw@[i], i, r@[i].id@)
                &&& raw@[i].id is None ==> r@[i].id@.len() == 36
            },
{
    let mut out: Vec<Todo> = Vec::new();
    let mut i: usize = 0;
    while i < raw.len()
        invariant
            i <= raw@.len(),
            out@.len() == i,
            forall|k: int|
                0 <= k < i ==> {
                    &&& completes(#[trigger] out@[k], raw@[k], k, out@[k].id@)
                    &&& raw@[k].id is None ==> out@[k].id@.len() == 36
                },
        decreases raw@.len() - i,
    {
        let fresh = match &raw[i].id {
            Some(_) => String::new(),
            None => new_todo_id(),
        };
        let t = complete_todo(&raw[i], i, fresh);
        out.push(t);
        i = i + 1;
    }
    out
}

} // verus!
