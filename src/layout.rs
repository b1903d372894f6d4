//! The layout engine: the lines drawn for the filtered bindings at a given
//! content width, and the placeholder notices.

use vstd::prelude::*;
use vstd::string::*;
use crate::keybind::Keybind;
use crate::text::{
    byte_len, lemma_byte_len_ascii_run, lemma_byte_len_concat, repeat_char, repeated, trim,
    trim_of,
};

verus! {

/// Shown in place of the list until the store has been loaded.
pub const LOADING_NOTICE: &'static str = "Loading keybinds...";

/// Shown in place of the list when no binding matches the query.
pub const NO_MATCHES_NOTICE: &'static str = "No matches. Try a different query.";

/// One line of the content area.
pub enum ContentLine {
    /// The key combination (with its trailing space), the run of spaces
    /// between the columns, and the name, right-aligned.
    Entry { key_text: String, gap: String, name: String },
    /// The decorated description line.
    Description(String),
    /// The blank line after each binding.
    Spacer,
    /// A placeholder message that stands alone.
    Notice(String),
}

/// The mathematical form of a `ContentLine`.
pub enum LineView {
    Entry { key_text: Seq<char>, gap: Seq<char>, name: Seq<char> },
    Description(Seq<char>),
    Spacer,
    Notice(Seq<char>),
}

impl View for ContentLine {
    type V = LineView;

    open spec fn view(&self) -> LineView {
        match self {
            ContentLine::Entry { key_text, gap, name } => LineView::Entry {
                key_text: key_text@,
                gap: gap@,
                name: name@,
            },
            ContentLine::Description(s) => LineView::Description(s@),
            ContentLine::Spacer => LineView::Spacer,
            ContentLine::Notice(s) => LineView::Notice(s@),
        }
    }
}

/// The views of a sequence of lines.
pub open spec fn lines_view(v: Seq<ContentLine>) -> Seq<LineView> {
    v.map_values(|l: ContentLine| l@)
}

/// The description line for the trimmed description `t` at `width`: dashes,
/// a space, `t`, a space and dashes, exactly `width` bytes long, the odd dash
/// going to the right; `t` alone when that needs more than `width` bytes.
pub open spec fn desc_line_of(t: Seq<char>, width: nat) -> Seq<char> {
    let d = byte_len(t);
    if width < d + 4 {
        t
    } else {
        let total = (width - d - 2) as nat;
        let left = total / 2;
        let right = (total - left) as nat;
        repeated('-', left) + seq![' '] + t + seq![' '] + repeated('-', right)
    }
}

/// Number of spaces added after the key text (which ends in a space) so
/// that the name ends at `width`; none when the line is already that wide.
pub open spec fn gap_width(key_text: Seq<char>, name: Seq<char>, width: nat) -> nat {
    let reserved = byte_len(key_text) + byte_len(name);
    if width > reserved {
        (width - reserved) as nat
    } else {
        0
    }
}

/// The lines of one binding at `width`: the key and name line, the
/// description line when the description is not empty, and a spacer.
pub open spec fn entry_lines(k: Keybind, width: nat) -> Seq<LineView> {
    let key_text = k.keys@ + seq![' '];
    let head = seq![
        LineView::Entry {
            key_text,
            gap: repeated(' ', gap_width(key_text, k.name@, width)),
            name: k.name@,
        },
    ];
    let desc = if k.desc@.len() == 0 {
        Seq::empty()
    } else {
        seq![LineView::Description(desc_line_of(trim_of(k.desc@), width))]
    };
    head + desc + seq![LineView::Spacer]
}

/// The lines of all of `items`, one binding after the other.
pub open spec fn lines_of(items: Seq<Keybind>, width: nat) -> Seq<LineView>
    decreases items.len(),
{
    if items.len() == 0 {
        Seq::empty()
    } else {
        lines_of(items.drop_last(), width) + entry_lines(items.last(), width)
    }
}

/// The content for the filtered bindings: their lines, or the single
/// no-matches notice when there are none.
pub open spec fn content_of(filtered: Seq<Keybind>, width: nat) -> Seq<LineView> {
    if filtered.len() == 0 {
        seq![LineView::Notice(NO_MATCHES_NOTICE@)]
    } else {
        lines_of(filtered, width)
    }
}

/// The description line for `desc` at `width` (see `desc_line_of`).
pub fn make_desc_line(desc: &str, width: u16) -> (r: String)
    ensures
        r@ == desc_line_of(trim_of(desc@), width as nat),
{
    let trimmed = trim(desc);
    let inner_width = width as usize;
    let desc_len = trimmed.as_bytes().len();
    if inner_width < 4 || inner_width - 4 < desc_len {
        return trimmed.to_owned();
    }
    let dash_total = inner_width - desc_len - 2;
    let left = dash_total / 2;
    let right = dash_total - left;
    proof {
        reveal_strlit("-");
        reveal_strlit(" ");
    }
    let mut line = repeat_char("-", left);
    line.append(" ");
    line.append(trimmed);
    line.append(" ");
    let dashes = repeat_char("-", right);
    line.append(dashes.as_str());
    proof {
        assert(line@ =~= desc_line_of(trimmed@, width as nat));
    }
    line
}

/// The lines of one binding at `width`, appended to `lines`.
pub fn push_entry_lines(lines: &mut Vec<ContentLine>, k: &Keybind, width: u16)
    ensures
        lines_view(final(lines)@) == lines_view(old(lines)@) + entry_lines(*k, width as nat),
{
    proof {
        reveal_strlit(" ");
    }
    let mut key_text = k.keys.clone();
    key_text.append(" ");
    let reserved = key_text.as_str().as_bytes().len().saturating_add(k.name.as_str().as_bytes().len());
    let inner_width = width as usize;
    let spacer_len = if inner_width > reserved {
        inner_width - reserved
    } else {
        0
    };
    let gap = repeat_char(" ", spacer_len);
    let ghost before = lines_view(lines@);
    let ghost kt = k.keys@ + seq![' '];
    assert(key_text@ =~= kt);
    assert(spacer_len == gap_width(kt, k.name@, width as nat));
    let ghost head = LineView::Entry {
        key_text: kt,
        gap: repeated(' ', gap_width(kt, k.name@, width as nat)),
        name: k.name@,
    };
    lines.push(ContentLine::Entry { key_text, gap, name: k.name.clone() });
    assert(lines_view(lines@) =~= before + seq![head]);
    if !k.desc.as_str().is_empty() {
        let ghost mid = lines_view(lines@);
        let d = make_desc_line(k.desc.as_str(), width);
        lines.push(ContentLine::Description(d));
        assert(lines_view(lines@) =~= mid + seq![LineView::Description(d@)]);
    }
    let ghost mid2 = lines_view(lines@);
    lines.push(ContentLine::Spacer);
    assert(lines_view(lines@) =~= mid2 + seq![LineView::Spacer]);
    assert(lines_view(lines@) =~= before + entry_lines(*k, width as nat));
}

/// The content lines for the filtered bindings at `width` (see `content_of`).
pub fn layout_content(filtered: &Vec<Keybind>, width: u16) -> (r: Vec<ContentLine>)
    ensures
        lines_view(r@) == content_of(filtered@, width as nat),
{
    let mut lines: Vec<ContentLine> = Vec::new();
    if filtered.len() == 0 {
        lines.push(ContentLine::Notice(NO_MATCHES_NOTICE.to_owned()));
        proof {
            assert(lines_view(lines@) =~= content_of(filtered@, width as nat));
        }
        return lines;
    }
    let mut i: usize = 0;
    while i < filtered.len()
        invariant
            i <= filtered@.len(),
            lines_view(lines@) == lines_of(filtered@.subrange(0, i as int), width as nat),
        decreases filtered@.len() - i,
    {
        assert(filtered@.subrange(0, i + 1).drop_last() =~= filtered@.subrange(0, i as int));
        push_entry_lines(&mut lines, &filtered[i], width);
        i = i + 1;
    }
    assert(filtered@.subrange(0, filtered@.len() as int) =~= filtered@);
    lines
}

/// When the description and four characters of padding fit, the
/// description line is exactly `width` bytes long.
pub proof fn lemma_desc_line_fills_width(t: Seq<char>, width: nat)
    requires
        width >= byte_len(t) + 4,
    ensures
        byte_len(desc_line_of(t, width)) == width,
{
    let d = byte_len(t);
    let total = (width - d - 2) as nat;
    let left = total / 2;
    let right = (total - left) as nat;
    let a = repeated('-', left);
    let b = repeated('-', right);
    let sp = seq![' '];
    lemma_byte_len_ascii_run('-', left);
    lemma_byte_len_ascii_run('-', right);
    assert(sp =~= repeated(' ', 1));
    lemma_byte_len_ascii_run(' ', 1);
    lemma_byte_len_concat(a, sp);
    lemma_byte_len_concat(a + sp, t);
    lemma_byte_len_concat(a + sp + t, sp);
    lemma_byte_len_concat(a + sp + t + sp, b);
}

/// When the description and four characters of padding do not fit, the
/// description line is the trimmed description alone.
pub proof fn lemma_desc_line_narrow(t: Seq<char>, width: nat)
    requires
        width < byte_len(t) + 4,
    ensures
        desc_line_of(t, width) == t,
{
}

} // verus!
