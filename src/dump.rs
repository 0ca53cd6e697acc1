use vstd::prelude::*;

use crate::attributes::Tag;
use crate::text::{decimal, push_str, string_from_chars, truncate, truncated};
use crate::validate::{push_tag_chars, tag_text};

verus! {

/// What a dump line shows of an element.
pub enum DumpKind {
    /// A primitive value: its text and its size in bytes.
    Primitive { text: String, byte_len: u64 },
    /// A sequence and its number of items.
    Sequence { items: u64 },
    /// Encapsulated pixel data and its number of fragments.
    Encapsulated { fragments: u64 },
    /// The start of item `number` (counted from one) of the enclosing sequence.
    Item { number: u64 },
}

/// One element of a dataset, or one item of a sequence, in a pre-order walk;
/// `level` counts the sequences around it.
pub struct DumpEntry {
    pub level: u64,
    pub tag: Tag,
    pub vr: String,
    pub kind: DumpKind,
}

/// Alias that the standard data dictionary gives a tag, if it has an entry.
pub uninterp spec fn dictionary_alias(group: u16, element: u16) -> Option<Seq<char>>;

/// Relies on `DataDictionary::by_tag` of dicom's `StandardDataDictionary`:
/// the alias of the tag's entry, if there is one; the dictionary is a fixed
/// table, so the answer depends on the tag alone.
#[verifier::external_body]
fn lookup_alias(t: Tag) -> (r: Option<String>)
    ensures
        match r {
            Some(a) => dictionary_alias(t.group, t.element) == Some(a@),
            None => dictionary_alias(t.group, t.element) is None,
        },
{
    <dicom::dictionary_std::StandardDataDictionary as dicom::core::dictionary::DataDictionary>::by_tag(
        &dicom::dictionary_std::StandardDataDictionary,
        dicom::core::Tag(t.group, t.element),
    ).map(|e| e.alias.to_string())
}

/// Name shown for a tag: its dictionary alias, or `UnknownTag`.
pub open spec fn tag_name_text(t: Tag) -> Seq<char> {
    match dictionary_alias(t.group, t.element) {
        Some(a) => a,
        None => "UnknownTag"@,
    }
}

/// Name shown for a tag (see `tag_name_text`).
pub fn tag_name(t: Tag) -> (r: String)
    ensures
        r@ == tag_name_text(t),
{
    match lookup_alias(t) {
        Some(a) => a,
        None => String::from_str("UnknownTag"),
    }
}

pub open spec fn spaces(n: nat) -> Seq<char> {
    Seq::new(n, |i: int| ' ')
}

/// What follows the element's header on its line.
pub open spec fn kind_text(k: DumpKind, max_value_len: nat) -> Seq<char> {
    match k {
        DumpKind::Primitive { text, byte_len } => if text@.len() > 0 {
            truncated(text@, max_value_len as int)
        } else {
            decimal(byte_len as nat) + " bytes"@
        },
        DumpKind::Sequence { items } => "[sequence: "@ + decimal(items as nat) + " item(s)]"@,
        DumpKind::Encapsulated { fragments } => "[encapsulated: "@ + decimal(fragments as nat)
            + " fragment(s)]"@,
        DumpKind::Item { number } => "Item "@ + decimal(number as nat),
    }
}

/// The line of one entry: elements are indented by four spaces per level.
pub open spec fn entry_line(e: DumpEntry, max_value_len: nat) -> Seq<char> {
    match e.kind {
        DumpKind::Item { number } => spaces(item_indent(e.level)) + kind_text(
            e.kind,
            max_value_len,
        ),
        _ => spaces((4 * e.level) as nat) + tag_text(e.tag) + " "@ + tag_name_text(e.tag) + " "@
            + e.vr@ + " "@
            + kind_text(e.kind, max_value_len),
    }
}

/// Indent of an item line: two spaces more than its sequence's line.
pub open spec fn item_indent(level: u64) -> nat {
    if level > 0 {
        (4 * level - 2) as nat
    } else {
        0
    }
}

/// An entry is shown when every sequence around it lies above `max_depth`,
/// a sequence at level `l` counting as depth `2 * l`.
pub open spec fn shown(e: DumpEntry, max_depth: nat) -> bool {
    e.level == 0 || 2 * (e.level - 1) < max_depth
}

/// The dump of a walk: one line per shown entry, each ended by a newline.
pub open spec fn dump_text(s: Seq<DumpEntry>, max_depth: nat, max_value_len: nat) -> Seq<char>
    decreases s.len(),
{
    if s.len() == 0 {
        Seq::empty()
    } else {
        let p = dump_text(s.drop_last(), max_depth, max_value_len);
        if shown(s.last(), max_depth) {
            p + entry_line(s.last(), max_value_len) + "\n"@
        } else {
            p
        }
    }
}

fn push_spaces(out: &mut Vec<char>, n: u128)
    ensures
        final(out)@ == old(out)@ + spaces(n as nat),
{
    let ghost start = out@;
    let mut i: u128 = 0;
    while i < n
        invariant
            i <= n,
            out@ == start + spaces(i as nat),
        decreases n - i,
    {
        out.push(' ');
        i = i + 1;
        assert(out@ =~= start + spaces(i as nat));
    }
}

fn push_decimal(out: &mut Vec<char>, n: u64)
    ensures
        final(out)@ == old(out)@ + decimal(n as nat),
{
    let d = crate::text::decimal_digits(n);
    let ghost start = out@;
    let k = d.len();
    let mut i: usize = 0;
    while i < k
        invariant
            k == d@.len(),
            i <= k,
            out@ == start + d@.take(i as int),
        decreases k - i,
    {
        out.push(d[i]);
        i = i + 1;
        assert(out@ =~= start + d@.take(i as int));
    }
    assert(d@.take(k as int) =~= d@);
}

fn push_kind(out: &mut Vec<char>, k: &DumpKind, max_value_len: usize)
    ensures
        final(out)@ == old(out)@ + kind_text(*k, max_value_len as nat),
{
    let ghost start = out@;
    match k {
        DumpKind::Primitive { text, byte_len } => {
            if text.unicode_len() > 0 {
                let t = truncate(text.as_str(), max_value_len);
                push_str(out, t.as_str());
            } else {
                push_decimal(out, *byte_len);
                push_str(out, " bytes");
            }
        },
        DumpKind::Sequence { items } => {
            push_str(out, "[sequence: ");
            push_decimal(out, *items);
            push_str(out, " item(s)]");
        },
        DumpKind::Encapsulated { fragments } => {
            push_str(out, "[encapsulated: ");
            push_decimal(out, *fragments);
            push_str(out, " fragment(s)]");
        },
        DumpKind::Item { number } => {
            push_str(out, "Item ");
            push_decimal(out, *number);
        },
    }
    assert(out@ =~= start + kind_text(*k, max_value_len as nat));
}

/// Renders a pre-order walk of a dataset: one line per element, sequence
/// items shown only while their sequence lies above `max_depth`, and
/// primitive values cut to `max_value_len` bytes of UTF-8.
pub fn dump_entries(entries: &Vec<DumpEntry>, max_depth: usize, max_value_len: usize) -> (r: String)
    ensures
        r@ == dump_text(entries@, max_depth as nat, max_value_len as nat),
{
    let mut out: Vec<char> = Vec::new();
    let n = entries.len();
    let mut i: usize = 0;
    while i < n
        invariant
            n == entries@.len(),
            i <= n,
            out@ == dump_text(entries@.take(i as int), max_depth as nat, max_value_len as nat),
        decreases n - i,
    {
        let e = &entries[i];
        assert(entries@.take(i + 1).drop_last() =~= entries@.take(i as int));
        let show = e.level == 0 || 2 * (e.level as u128 - 1) < max_depth as u128;
        if show {
            let ghost before = out@;
            match &e.kind {
                DumpKind::Item { .. } => {
                    let indent: u128 = if e.level > 0 {
                        4 * (e.level as u128) - 2
                    } else {
                        0
                    };
                    push_spaces(&mut out, indent);
                },
                _ => {
                    push_spaces(&mut out, 4 * (e.level as u128));
                    push_tag_chars(&mut out, e.tag);
                    push_str(&mut out, " ");
                    let name = tag_name(e.tag);
                    push_str(&mut out, name.as_str());
                    push_str(&mut out, " ");
                    push_str(&mut out, e.vr.as_str());
                    push_str(&mut out, " ");
                },
            }
            push_kind(&mut out, &e.kind, max_value_len);
            push_str(&mut out, "\n");
            assert(out@ =~= before + entry_line(*e, max_value_len as nat) + "\n"@);
        }
        i = i + 1;
    }
    assert(entries@.take(n as int) =~= entries@);
    string_from_chars(&out)
}

} // verus!
