//! The application state, the key dispatcher and the scroll controller.

use vstd::prelude::*;
use vstd::string::*;
use crate::filter::{filter_keybinds, matching};
use crate::keybind::Keybind;
use crate::layout::{
    content_of, layout_content, lines_view, ContentLine, LineView, LOADING_NOTICE,
};

verus! {

/// Shown in the search box while the query is empty.
pub const PLACEHOLDER: &'static str = "Type to search keybinds";

/// The key of a key event, as far as the dispatcher tells keys apart.
#[derive(PartialEq, Eq, Structural, Clone, Copy)]
pub enum Key {
    Esc,
    Up,
    Down,
    PageUp,
    PageDown,
    Char(char),
    Other,
}

/// A key event: the key, whether Control was held, and whether the key went
/// down (a press) rather than up.
#[derive(PartialEq, Eq, Structural, Clone, Copy)]
pub struct KeyEvent {
    pub key: Key,
    pub ctrl: bool,
    pub press: bool,
}

/// What the dispatcher does with a key event.
#[derive(PartialEq, Eq, Structural, Clone, Copy)]
pub enum Action {
    Quit,
    ScrollUp,
    ScrollDown,
    PageUp,
    PageDown,
    /// Hand the event to the text input, whose query then changes.
    Edit,
    Ignore,
}

/// The action for `e`, by the dispatcher's priority order: releases are
/// ignored; Escape quits; arrows and page keys scroll; Control+C quits;
/// any other key edits the query.
pub open spec fn action_of(e: KeyEvent) -> Action {
    if !e.press {
        Action::Ignore
    } else {
        match e.key {
            Key::Esc => Action::Quit,
            Key::Up => Action::ScrollUp,
            Key::Down => Action::ScrollDown,
            Key::PageUp => Action::PageUp,
            Key::PageDown => Action::PageDown,
            Key::Char(c) => if c == 'c' && e.ctrl {
                Action::Quit
            } else {
                Action::Edit
            },
            Key::Other => Action::Edit,
        }
    }
}

/// Whether the menu is quitting after `e`, from a state whose quit flag is
/// `quitting`: quitting is final, and a quit action enters it.
pub open spec fn quit_after(quitting: bool, e: KeyEvent) -> bool {
    quitting || action_of(e) == Action::Quit
}

/// The page step: the viewport height, at least one.
pub open spec fn page_step(height: u16) -> u16 {
    if height == 0 {
        1
    } else {
        height
    }
}

/// The scroll offset after `a`, from `offset` with viewport `height`;
/// steps saturate at the bounds of `u16`, edits go back to the top.
pub open spec fn scrolled(offset: u16, height: u16, a: Action) -> u16 {
    match a {
        Action::ScrollUp => offset.saturating_sub(1),
        Action::ScrollDown => offset.saturating_add(1),
        Action::PageUp => offset.saturating_sub(page_step(height)),
        Action::PageDown => offset.saturating_add(page_step(height)),
        Action::Edit => 0,
        _ => offset,
    }
}

/// The largest scroll offset that still fills the viewport.
pub open spec fn max_scroll(total: nat, height: nat) -> nat {
    if total > height {
        (total - height) as nat
    } else {
        0
    }
}

/// The offset at which the content is drawn: `offset`, clamped.
pub open spec fn clamped(offset: nat, total: nat, height: nat) -> nat {
    if offset < max_scroll(total, height) {
        offset
    } else {
        max_scroll(total, height)
    }
}

/// The text of the search box for `query`: the query, or the placeholder
/// while it is empty, with a space on each side.
pub open spec fn search_text_of(query: Seq<char>) -> Seq<char> {
    seq![' '] + (if query.len() == 0 {
        PLACEHOLDER@
    } else {
        query
    }) + seq![' ']
}

/// What is drawn in the content area: its lines and the offset of the first
/// visible one.
pub struct ContentView {
    pub lines: Vec<ContentLine>,
    pub scroll: u16,
}

/// The state of the menu.
pub struct App {
    pub should_quit: bool,
    pub query: String,
    pub items: Vec<Keybind>,
    pub items_loaded: bool,
    pub scroll_offset: u16,
    pub content_height: u16,
}

/// The action for `e` (see `action_of`).
pub fn classify(e: KeyEvent) -> (r: Action)
    ensures
        r == action_of(e),
{
    if !e.press {
        return Action::Ignore;
    }
    match e.key {
        Key::Esc => Action::Quit,
        Key::Up => Action::ScrollUp,
        Key::Down => Action::ScrollDown,
        Key::PageUp => Action::PageUp,
        Key::PageDown => Action::PageDown,
        Key::Char(c) => if c == 'c' && e.ctrl {
            Action::Quit
        } else {
            Action::Edit
        },
        Key::Other => Action::Edit,
    }
}

/// The offset at which content of `total` lines is drawn in a viewport of
/// `height` lines (see `clamped`).
pub fn clamp_scroll(offset: u16, total: usize, height: u16) -> (r: u16)
    ensures
        r as nat == clamped(offset as nat, total as nat, height as nat),
{
    let max = if total > height as usize {
        total - height as usize
    } else {
        0
    };
    if (offset as usize) < max {
        offset
    } else {
        max as u16
    }
}

/// The text of the search box (see `search_text_of`).
pub fn search_text(query: &str) -> (r: String)
    ensures
        r@ == search_text_of(query@),
{
    proof {
        reveal_strlit(" ");
    }
    let mut r = " ".to_owned();
    if query.is_empty() {
        r.append(PLACEHOLDER);
    } else {
        r.append(query);
    }
    r.append(" ");
    proof {
        assert(r@ =~= search_text_of(query@));
    }
    r
}

impl App {
    /// A running menu with an empty query, no bindings loaded yet, scrolled
    /// to the top.
    pub fn new() -> (r: App)
        ensures
            !r.should_quit,
            r.query@.len() == 0,
            r.items@.len() == 0,
            !r.items_loaded,
            r.scroll_offset == 0,
            r.content_height == 0,
    {
        App {
            should_quit: false,
            query: String::new(),
            items: Vec::new(),
            items_loaded: false,
            scroll_offset: 0,
            content_height: 0,
        }
    }

    /// Installs the store; from now on the content shows it.
    pub fn load(&mut self, items: Vec<Keybind>)
        ensures
            final(self).items == items,
            final(self).items_loaded,
            final(self).should_quit == old(self).should_quit,
            final(self).query == old(self).query,
            final(self).scroll_offset == old(self).scroll_offset,
            final(self).content_height == old(self).content_height,
    {
        self.items = items;
        self.items_loaded = true;
    }

    /// Dispatches one key event; returns whether the event is to be handed to
    /// the text input (after which `set_query` reports the new query).
    pub fn handle_key(&mut self, e: KeyEvent) -> (forward: bool)
        ensures
            forward == (action_of(e) == Action::Edit),
            final(self).should_quit == quit_after(old(self).should_quit, e),
            final(self).scroll_offset == scrolled(
                old(self).scroll_offset,
                old(self).content_height,
                action_of(e),
            ),
            final(self).query == old(self).query,
            final(self).items == old(self).items,
            final(self).items_loaded == old(self).items_loaded,
            final(self).content_height == old(self).content_height,
    {
        let step = if self.content_height == 0 {
            1
        } else {
            self.content_height
        };
        match classify(e) {
            Action::Quit => {
                self.should_quit = true;
                false
            },
            Action::ScrollUp => {
                self.scroll_offset = self.scroll_offset.saturating_sub(1);
                false
            },
            Action::ScrollDown => {
                self.scroll_offset = self.scroll_offset.saturating_add(1);
                false
            },
            Action::PageUp => {
                self.scroll_offset = self.scroll_offset.saturating_sub(step);
                false
            },
            Action::PageDown => {
                self.scroll_offset = self.scroll_offset.saturating_add(step);
                false
            },
            Action::Edit => {
                self.scroll_offset = 0;
                true
            },
            Action::Ignore => false,
        }
    }

    /// Records the query after a text edit; the scroll offset goes back to 0.
    pub fn set_query(&mut self, query: String)
        ensures
            final(self).query == query,
            final(self).scroll_offset == 0,
            final(self).should_quit == old(self).should_quit,
            final(self).items == old(self).items,
            final(self).items_loaded == old(self).items_loaded,
            final(self).content_height == old(self).content_height,
    {
        self.query = query;
        self.scroll_offset = 0;
    }

    /// The content for a viewport of `width` by `height`: the loading notice
    /// until the store is loaded; else the layout of the bindings that match
    /// the query, drawn from the clamped scroll offset, which is also stored.
    /// Records `height` as the page step once the store is loaded.
    pub fn render_content(&mut self, width: u16, height: u16) -> (r: ContentView)
        ensures
            !old(self).items_loaded ==> lines_view(r.lines@) == seq![
                LineView::Notice(LOADING_NOTICE@),
            ] && r.scroll == 0 && final(self).content_height == old(self).content_height,
            old(self).items_loaded ==> lines_view(r.lines@) == content_of(
                matching(old(self).items@, old(self).query@),
                width as nat,
            ) && r.scroll as nat == clamped(
                old(self).scroll_offset as nat,
                r.lines@.len(),
                height as nat,
            ) && final(self).content_height == height && final(self).scroll_offset == r.scroll,
            !old(self).items_loaded ==> final(self).scroll_offset == old(self).scroll_offset,
            final(self).should_quit == old(self).should_quit,
            final(self).query == old(self).query,
            final(self).items == old(self).items,
            final(self).items_loaded == old(self).items_loaded,
    {
        if !self.items_loaded {
            let mut lines: Vec<ContentLine> = Vec::new();
            lines.push(ContentLine::Notice(LOADING_NOTICE.to_owned()));
            proof {
                assert(lines_view(lines@) =~= seq![LineView::Notice(LOADING_NOTICE@)]);
            }
            return ContentView { lines, scroll: 0 };
        }
        self.content_height = height;
        let filtered = filter_keybinds(&self.items, self.query.as_str());
        let lines = layout_content(&filtered, width);
        let scroll = clamp_scroll(self.scroll_offset, lines.len(), height);
        self.scroll_offset = scroll;
        ContentView { lines, scroll }
    }
}

/// The drawn scroll offset stays within `[0, max(0, total - height)]`,
/// whatever offset a sequence of scroll operations has left.
pub proof fn lemma_scroll_in_range(offset: nat, total: nat, height: nat)
    ensures
        clamped(offset, total, height) <= max_scroll(total, height),
        total > height ==> max_scroll(total, height) == total - height,
        total <= height ==> max_scroll(total, height) == 0,
{
}

/// Every key event that edits the query puts the scroll offset back to 0.
pub proof fn lemma_edit_resets_scroll(offset: u16, height: u16, e: KeyEvent)
    requires
        action_of(e) == Action::Edit,
    ensures
        scrolled(offset, height, action_of(e)) == 0,
{
}

/// Pressing Escape, or Control+C, leads to the quitting state from any
/// state.
pub proof fn lemma_quit_keys(e: KeyEvent, quitting: bool)
    requires
        e.press,
        e.key == Key::Esc || (e.key == Key::Char('c') && e.ctrl),
    ensures
        action_of(e) == Action::Quit,
        quit_after(quitting, e),
{
}

} // verus!
