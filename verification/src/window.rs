//! Window state: which way the maximize button toggles, which geometry is
//! written to the settings store, and what is restored from it.

use vstd::prelude::*;

verus! {

/// The settings file that keeps the window geometry.
pub const STORE_PATH: &'static str = "window-state.json";

pub const KEY_X: &'static str = "x";

pub const KEY_Y: &'static str = "y";

pub const KEY_WIDTH: &'static str = "width";

pub const KEY_HEIGHT: &'static str = "height";

/// The label of the app's main window.
pub const MAIN_WINDOW: &'static str = "main";

/// What the maximize button does.
#[derive(PartialEq, Eq, Structural)]
pub enum MaximizeAction {
    Maximize,
    Unmaximize,
}

/// The action of the maximize button for a window in the given state.
pub open spec fn toggle_plan(is_maximized: bool) -> MaximizeAction {
    if is_maximized {
        MaximizeAction::Unmaximize
    } else {
        MaximizeAction::Maximize
    }
}

/// The maximize button restores a maximized window and maximizes any other.
pub fn toggle_maximize_action(is_maximized: bool) -> (a: MaximizeAction)
    ensures
        a == toggle_plan(is_maximized),
{
    if is_maximized {
        MaximizeAction::Unmaximize
    } else {
        MaximizeAction::Maximize
    }
}

/// Whether the window is maximized after `action`.
pub open spec fn maximized_after(action: MaximizeAction) -> bool {
    action == MaximizeAction::Maximize
}

/// Pressing the maximize button always flips the maximized state, so two
/// presses give back the state that the window started in.
pub proof fn lemma_toggle_flips(is_maximized: bool)
    ensures
        maximized_after(toggle_plan(is_maximized)) == !is_maximized,
        maximized_after(toggle_plan(maximized_after(toggle_plan(is_maximized)))) == is_maximized,
{
}

/// The outer position and size of the window.
pub struct WindowGeometry {
    pub x: i32,
    pub y: i32,
    pub width: u32,
    pub height: u32,
}

/// The entries written to the settings store for `g`, as (key, value).
pub open spec fn geometry_entries(g: WindowGeometry) -> Seq<(Seq<char>, int)> {
    seq![
        (KEY_X@, g.x as int),
        (KEY_Y@, g.y as int),
        (KEY_WIDTH@, g.width as int),
        (KEY_HEIGHT@, g.height as int),
    ]
}

/// The entries that save the window geometry, in the order they are written.
pub fn saved_entries(g: &WindowGeometry) -> (entries: Vec<(&'static str, i64)>)
    ensures
        entries@.map_values(|e: (&'static str, i64)| (e.0@, e.1 as int)) == geometry_entries(*g),
{
    let mut entries: Vec<(&'static str, i64)> = Vec::new();
    entries.push((KEY_X, g.x as i64));
    entries.push((KEY_Y, g.y as i64));
    entries.push((KEY_WIDTH, g.width as i64));
    entries.push((KEY_HEIGHT, g.height as i64));
    assert(entries@.map_values(|e: (&'static str, i64)| (e.0@, e.1 as int)) =~= geometry_entries(
        *g,
    ));
    entries
}

/// The value that the entries keep under `key`: the last one written.
pub open spec fn stored_value(entries: Seq<(Seq<char>, int)>, key: Seq<char>) -> Option<int>
    decreases entries.len(),
{
    if entries.len() == 0 {
        None
    } else if entries.last().0 == key {
        Some(entries.last().1)
    } else {
        stored_value(entries.drop_last(), key)
    }
}

/// The two values as a pair when both are present.
pub open spec fn both<T>(a: Option<T>, b: Option<T>) -> Option<(T, T)> {
    match (a, b) {
        (Some(a), Some(b)) => Some((a, b)),
        _ => None,
    }
}

/// What is restored: the size when both width and height were found, the
/// position when both coordinates were found.
pub struct RestorePlan<T> {
    pub size: Option<(T, T)>,
    pub position: Option<(T, T)>,
}

/// Decides what to restore from the values found in the settings store.
pub fn restore_plan<T>(x: Option<T>, y: Option<T>, width: Option<T>, height: Option<T>) -> (p:
    RestorePlan<T>)
    ensures
        p.size == both(width, height),
        p.position == both(x, y),
{
    let size = match (width, height) {
        (Some(w), Some(h)) => Some((w, h)),
        _ => None,
    };
    let position = match (x, y) {
        (Some(x), Some(y)) => Some((x, y)),
        _ => None,
    };
    RestorePlan { size, position }
}

/// Restoring from what was saved gives back the saved geometry: size and
/// position are both restored, with the saved values.
pub proof fn lemma_restore_after_save(g: WindowGeometry)
    ensures
        ({
            let e = geometry_entries(g);
            &&& both(stored_value(e, KEY_WIDTH@), stored_value(e, KEY_HEIGHT@)) == Some(
                (g.width as int, g.height as int),
            )
            &&& both(stored_value(e, KEY_X@), stored_value(e, KEY_Y@)) == Some(
                (g.x as int, g.y as int),
            )
        }),
{
    reveal_strlit("x");
    reveal_strlit("y");
    reveal_strlit("width");
    reveal_strlit("height");
    assert(KEY_X@ == "x"@ && KEY_Y@ == "y"@ && KEY_WIDTH@ == "width"@ && KEY_HEIGHT@ == "height"@);
    assert(KEY_X@.len() == 1 && KEY_Y@.len() == 1 && KEY_WIDTH@.len() == 5 && KEY_HEIGHT@.len() == 6);
    assert(KEY_X@[0] == 'x' && KEY_Y@[0] == 'y');
    assert(KEY_X@ != KEY_Y@);
    reveal_with_fuel(stored_value, 5);
}

} // verus!
