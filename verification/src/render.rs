//! The listing of a descriptor: one line for each item, with the bytes of
//! the item in hexadecimal, and behind them, as a comment, its label, moved
//! in by the depth at which the item stands.

use crate::report_item::{ItemKind, ItemView, ReportItem};
use crate::stream::item_views;
use crate::text::{hex_byte, join, join_first, push_hex_byte, push_spaces, spaces};
use vstd::prelude::*;

verus! {

/// The depth behind an item of the kind `kind`, where `depth` held in front
/// of it: a collection or a push opens a level, an end of collection or a
/// pop closes one, if one is open.
pub open spec fn depth_step(depth: nat, kind: ItemKind) -> nat {
    if kind is Collection || kind is Push {
        depth + 1
    } else if kind is EndCollection || kind is Pop {
        if depth > 0 {
            (depth - 1) as nat
        } else {
            0
        }
    } else {
        depth
    }
}

/// The depth behind the first `n` of `items`.
pub open spec fn depth_first(items: Seq<ItemView>, n: nat) -> nat
    decreases n,
{
    if n == 0 {
        0
    } else {
        depth_step(depth_first(items, (n - 1) as nat), items[n - 1].kind)
    }
}

/// The number of bytes of the longest among the first `n` of `items`.
pub open spec fn widest_first(items: Seq<ItemView>, n: nat) -> nat
    decreases n,
{
    if n == 0 {
        0
    } else {
        let widest = widest_first(items, (n - 1) as nat);
        if items[n - 1].bytes.len() > widest {
            items[n - 1].bytes.len()
        } else {
            widest
        }
    }
}

/// Each of `bytes` in hexadecimal.
pub open spec fn hex_bytes(bytes: Seq<u8>) -> Seq<Seq<char>> {
    Seq::new(bytes.len(), |i: int| hex_byte(bytes[i]))
}

/// `bytes` in hexadecimal, separated by a comma and a space.
pub open spec fn hex_tokens(bytes: Seq<u8>) -> Seq<char> {
    join(hex_bytes(bytes), ", "@)
}

/// `text`, filled up with spaces on the right to `width` characters. A text
/// that is longer stays as it is.
pub open spec fn padded(text: Seq<char>, width: nat) -> Seq<char> {
    if text.len() < width {
        text + spaces((width - text.len()) as nat)
    } else {
        text
    }
}

/// The line of `item`, which stands at the depth `depth`, in a listing
/// whose column of bytes is `width` characters wide.
pub open spec fn line(item: ItemView, depth: nat, width: nat) -> Seq<char> {
    padded(hex_tokens(item.bytes), width) + "//"@ + spaces(2 * depth + 1) + item.label()
}

/// The width of the column of bytes in the listing of `items`: six
/// characters for each byte of the longest item.
pub open spec fn column_width(items: Seq<ItemView>) -> nat {
    6 * widest_first(items, items.len())
}

/// The lines of the listing of `items`. An item stands at the depth that
/// holds behind it: an opening item is moved in with what it opens, a
/// closing item is moved out with what follows it.
pub open spec fn lines(items: Seq<ItemView>) -> Seq<Seq<char>> {
    Seq::new(
        items.len(),
        |i: int| line(items[i], depth_first(items, (i + 1) as nat), column_width(items)),
    )
}

/// The listing of `items`: its lines, separated by line feeds. There is no
/// line feed behind the last line.
pub open spec fn listing(items: Seq<ItemView>) -> Seq<char> {
    join(lines(items), "\n"@)
}

/// A closing item that follows an opening item stands at the depth that
/// held in front of the opening item, and that depth holds behind it.
pub proof fn lemma_closer_restores_depth(items: Seq<ItemView>, n: nat)
    requires
        n + 2 <= items.len(),
        items[n as int].kind is Collection || items[n as int].kind is Push,
        items[n as int + 1].kind is EndCollection || items[n as int + 1].kind is Pop,
    ensures
        depth_first(items, n + 1) == depth_first(items, n) + 1,
        depth_first(items, n + 2) == depth_first(items, n),
{
    assert(depth_first(items, n + 1) == depth_step(depth_first(items, n), items[n as int].kind));
}

proof fn lemma_widest_first(items: Seq<ItemView>, n: nat, i: int)
    requires
        0 <= i < n <= items.len(),
    ensures
        items[i].bytes.len() <= widest_first(items, n),
    decreases n,
{
    if i < n - 1 {
        lemma_widest_first(items, (n - 1) as nat, i);
    }
}

/// In a listing the comments of all lines start in one column: the bytes of
/// an item never fill the column of bytes, and are filled up to its width.
pub proof fn lemma_comment_column(items: Seq<ItemView>, i: int)
    requires
        0 <= i < items.len(),
        items[i].bytes.len() >= 1,
    ensures
        hex_tokens(items[i].bytes).len() + 2 <= column_width(items),
        padded(hex_tokens(items[i].bytes), column_width(items)).len() == column_width(items),
{
    lemma_widest_first(items, items.len(), i);
    lemma_hex_tokens_len(items[i].bytes, items[i].bytes.len());
}

proof fn lemma_hex_tokens_len(bytes: Seq<u8>, n: nat)
    requires
        1 <= n <= bytes.len(),
    ensures
        join_first(hex_bytes(bytes), ", "@, n).len() == 6 * n - 2,
    decreases n,
{
    reveal_strlit(", ");
    if n > 1 {
        lemma_hex_tokens_len(bytes, (n - 1) as nat);
    }
}

/// Append `bytes` in hexadecimal, separated by a comma and a space.
fn push_hex_tokens(out: &mut String, bytes: &[u8])
    ensures
        final(out)@ == old(out)@ + hex_tokens(bytes@),
{
    let ghost tokens = hex_bytes(bytes@);
    let mut i: usize = 0;
    while i < bytes.len()
        invariant
            i <= bytes.len(),
            tokens == hex_bytes(bytes@),
            out@ == old(out)@ + join_first(tokens, ", "@, i as nat),
        decreases bytes.len() - i,
    {
        if i > 0 {
            out.append(", ");
        }
        push_hex_byte(out, bytes[i]);
        i += 1;
    }
}

/// Append the spaces that move a label in to the depth `depth`: two for each
/// level and one more.
fn push_indent(out: &mut String, depth: usize)
    ensures
        final(out)@ == old(out)@ + spaces(2 * depth as nat + 1),
{
    let mut i: usize = 0;
    push_spaces(out, 1);
    while i < depth
        invariant
            i <= depth,
            out@ == old(out)@ + spaces(2 * i as nat + 1),
        decreases depth - i,
    {
        push_spaces(out, 2);
        i += 1;
    }
}

/// Append the line of `item`.
fn push_line(out: &mut String, item: &ReportItem, depth: usize, width: usize)
    requires
        width <= 30,
    ensures
        final(out)@ == old(out)@ + line(item@, depth as nat, width as nat),
{
    let bytes = item.as_ref();
    proof {
        item.lemma_is_frame();
        lemma_hex_tokens_len(bytes@, bytes@.len());
    }
    push_hex_tokens(out, bytes);
    let used = 6 * bytes.len() - 2;
    if used < width {
        push_spaces(out, width - used);
    }
    out.append("//");
    push_indent(out, depth);
    let label = item.to_string();
    out.append(label.as_str());
}

/// Print items to string in a pretty way: see [`listing`].
pub fn pretty_print(item_stream: &[ReportItem]) -> (text: String)
    ensures
        text@ == listing(item_views(item_stream@)),
{
    let ghost items = item_views(item_stream@);
    let mut max_len: usize = 0;
    let mut i: usize = 0;
    while i < item_stream.len()
        invariant
            i <= item_stream.len(),
            items == item_views(item_stream@),
            max_len == widest_first(items, i as nat),
            max_len <= 5,
        decreases item_stream.len() - i,
    {
        proof {
            item_stream[i as int].lemma_is_frame();
        }
        let len = item_stream[i].as_ref().len();
        if len > max_len {
            max_len = len;
        }
        i += 1;
    }
    let width = max_len * 6;
    let ghost rows = lines(items);
    let mut text = String::new();
    let mut depth: usize = 0;
    let mut i: usize = 0;
    while i < item_stream.len()
        invariant
            i <= item_stream.len(),
            items == item_views(item_stream@),
            rows == lines(items),
            width == column_width(items),
            width <= 30,
            depth == depth_first(items, i as nat),
            depth <= i,
            text@ == join_first(rows, "\n"@, i as nat),
        decreases item_stream.len() - i,
    {
        match item_stream[i] {
            ReportItem::Collection(_) | ReportItem::Push(_) => {
                depth += 1;
            },
            ReportItem::EndCollection(_) | ReportItem::Pop(_) => {
                if depth > 0 {
                    depth -= 1;
                }
            },
            _ => {},
        }
        if i > 0 {
            text.append("\n");
        }
        push_line(&mut text, &item_stream[i], depth, width);
        i += 1;
    }
    text
}

} // verus!
