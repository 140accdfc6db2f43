//! Input dispatcher: a flat mapping from one discrete key press to exactly
//! one model transition or side-effect request. Unrecognized keys are
//! ignored. The only context-sensitive key is Enter: visit the website from
//! the trailing row, open an expanded article's link, or expand a collapsed
//! article.

use crate::model::{App, expand_frame, nav_frame, next_sel, page_down_sel, page_up_sel, prev_sel,
    toggle_set};
use vstd::prelude::*;

verus! {

/// A key identifier, as delivered by the terminal.
#[derive(Debug, Clone, Copy, PartialEq, Eq)]
pub enum KeyCode {
    Char(char),
    Up,
    Down,
    PageUp,
    PageDown,
    Enter,
    Esc,
}

/// One discrete key press: the key and whether Control was held.
#[derive(Debug, Clone, Copy, PartialEq, Eq)]
pub struct KeyPress {
    pub code: KeyCode,
    pub ctrl: bool,
}

/// What a key press asks of the model or of the surrounding loop.
#[derive(Debug, Clone, Copy, PartialEq, Eq)]
pub enum Action {
    Quit,
    Next,
    Previous,
    First,
    Last,
    PageDown,
    PageUp,
    Enter,
    Toggle,
    Open,
    CollapseAll,
    Refresh,
    NoOp,
}

/// The key table. A plain PageUp or PageDown without Control falls through
/// to no action: the page moves are bound to the Control chords.
pub open spec fn key_action(key: KeyPress) -> Action {
    match key.code {
        KeyCode::Char(c) => if c == 'q' {
            Action::Quit
        } else if c == 'c' && key.ctrl {
            Action::Quit
        } else if c == 'j' {
            Action::Next
        } else if c == 'k' {
            Action::Previous
        } else if c == 'g' {
            Action::First
        } else if c == 'G' {
            Action::Last
        } else if c == 'd' && key.ctrl {
            Action::PageDown
        } else if c == 'u' && key.ctrl {
            Action::PageUp
        } else if c == ' ' {
            Action::Toggle
        } else if c == 'o' {
            Action::Open
        } else if c == 'x' {
            Action::CollapseAll
        } else if c == 'r' {
            Action::Refresh
        } else {
            Action::NoOp
        },
        KeyCode::Esc => Action::Quit,
        KeyCode::Down => Action::Next,
        KeyCode::Up => Action::Previous,
        KeyCode::PageDown => if key.ctrl {
            Action::PageDown
        } else {
            Action::NoOp
        },
        KeyCode::PageUp => if key.ctrl {
            Action::PageUp
        } else {
            Action::NoOp
        },
        KeyCode::Enter => Action::Enter,
    }
}

/// A navigation outcome: only the selection moved, to `target` — or nothing
/// at all on an empty list.
pub open spec fn nav_result(pre: App, post: App, target: int) -> bool {
    &&& nav_frame(pre, post)
    &&& (pre.n() == 0 ==> post.selected == pre.selected)
    &&& (pre.n() > 0 ==> post.selected == Some(target as usize))
}

/// Full account of one dispatched key press: how the model changed and
/// which URL, if any, the caller is asked to open in the browser.
pub open spec fn dispatch_rel(pre: App, key: KeyPress, post: App, r: Option<String>) -> bool {
    match key_action(key) {
        Action::Quit => {
            &&& post.should_quit
            &&& post.articles == pre.articles
            &&& post.selected == pre.selected
            &&& post.expanded == pre.expanded
            &&& post.loading_state == pre.loading_state
            &&& post.base_url == pre.base_url
            &&& post.limit == pre.limit
            &&& post.last_error == pre.last_error
            &&& post.needs_refresh == pre.needs_refresh
            &&& r is None
        },
        Action::Next => nav_result(pre, post, next_sel(pre.sel(), pre.n())) && r is None,
        Action::Previous => nav_result(pre, post, prev_sel(pre.sel(), pre.n())) && r is None,
        Action::First => nav_result(pre, post, 0) && r is None,
        Action::Last => nav_result(pre, post, pre.n()) && r is None,
        Action::PageDown => nav_result(pre, post, page_down_sel(pre.sel(), pre.n())) && r is None,
        Action::PageUp => nav_result(pre, post, page_up_sel(pre.sel())) && r is None,
        Action::Enter => {
            &&& expand_frame(pre, post)
            &&& match pre.selected {
                Some(i) => {
                    if i == pre.articles.len() {
                        &&& post == pre
                        &&& r is Some && r.unwrap()@ == pre.base_url@
                    } else if pre.expanded@.contains(i) {
                        &&& post == pre
                        &&& r is Some && r.unwrap()@ == pre.articles[i as int].url@
                    } else {
                        &&& post.expanded@ == pre.expanded@.insert(i)
                        &&& r is None
                    }
                },
                None => post == pre && r is None,
            }
        },
        Action::Toggle => {
            &&& expand_frame(pre, post)
            &&& match pre.selected {
                Some(i) => {
                    if i == pre.articles.len() {
                        post == pre
                    } else {
                        post.expanded@ == toggle_set(pre.expanded@, i)
                    }
                },
                None => post == pre,
            }
            &&& r is None
        },
        Action::Open => {
            &&& post == pre
            &&& match pre.selected {
                Some(i) => {
                    if i < pre.articles.len() {
                        r is Some && r.unwrap()@ == pre.articles[i as int].url@
                    } else {
                        r is Some && r.unwrap()@ == pre.base_url@
                    }
                },
                None => r is None,
            }
        },
        Action::CollapseAll => {
            &&& expand_frame(pre, post)
            &&& post.expanded@ == Set::<usize>::empty()
            &&& r is None
        },
        Action::Refresh => {
            &&& post.needs_refresh
            &&& post.articles == pre.articles
            &&& post.selected == pre.selected
            &&& post.expanded == pre.expanded
            &&& post.loading_state == pre.loading_state
            &&& post.base_url == pre.base_url
            &&& post.limit == pre.limit
            &&& post.should_quit == pre.should_quit
            &&& post.last_error == pre.last_error
            &&& r is None
        },
        Action::NoOp => post == pre && r is None,
    }
}

/// Dispatch one key press: perform the model transition it names and hand
/// back the URL the caller should open, if the key asked for one.
pub fn handle_key_event(app: &mut App, key: KeyPress) -> (r: Option<String>)
    requires
        old(app).wf(),
    ensures
        final(app).wf(),
        dispatch_rel(*old(app), key, *final(app), r),
{
    match key.code {
        KeyCode::Char(c) => {
            if c == 'q' {
                app.quit();
                None
            } else if c == 'c' && key.ctrl {
                app.quit();
                None
            } else if c == 'j' {
                app.next();
                None
            } else if c == 'k' {
                app.previous();
                None
            } else if c == 'g' {
                app.go_to_first();
                None
            } else if c == 'G' {
                app.go_to_last();
                None
            } else if c == 'd' && key.ctrl {
                app.page_down();
                None
            } else if c == 'u' && key.ctrl {
                app.page_up();
                None
            } else if c == ' ' {
                app.toggle_expand();
                None
            } else if c == 'o' {
                app.open_in_browser()
            } else if c == 'x' {
                app.collapse_all();
                None
            } else if c == 'r' {
                app.mark_for_refresh();
                None
            } else {
                None
            }
        },
        KeyCode::Esc => {
            app.quit();
            None
        },
        KeyCode::Down => {
            app.next();
            None
        },
        KeyCode::Up => {
            app.previous();
            None
        },
        KeyCode::PageDown => {
            if key.ctrl {
                app.page_down();
            }
            None
        },
        KeyCode::PageUp => {
            if key.ctrl {
                app.page_up();
            }
            None
        },
        KeyCode::Enter => app.handle_enter(),
    }
}

} // verus!
