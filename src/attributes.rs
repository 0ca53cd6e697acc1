use vstd::prelude::*;

use crate::text::chars_of;

verus! {

/// An attribute tag: group and element numbers.
#[derive(Debug, Clone, Copy, PartialEq, Eq, Structural)]
pub struct Tag {
    pub group: u16,
    pub element: u16,
}

/// The value representations that the library's rules tell apart.
#[derive(Debug, Clone, Copy, PartialEq, Eq, Structural)]
pub enum Vr {
    PN,
    DA,
    TM,
    DT,
    LO,
    Other,
}

/// One attribute of a container: its tag, its value representation and,
/// where it has one, its value as text.
pub struct Element {
    pub tag: Tag,
    pub vr: Vr,
    pub text: Option<String>,
}

/// The attributes of a container in their order, and the transfer syntax
/// of the file that held them, if any.
pub struct Attributes {
    pub elements: Vec<Element>,
    pub transfer_syntax: Option<String>,
}

/// Text of the first element of `s` with tag `t`: `None` when there is no
/// such element, `Some(None)` when it has no text.
pub open spec fn lookup_text(s: Seq<Element>, t: Tag) -> Option<Option<Seq<char>>>
    decreases s.len(),
{
    if s.len() == 0 {
        None
    } else if s[0].tag == t {
        Some(
            match s[0].text {
                Some(x) => Some(x@),
                None => None,
            },
        )
    } else {
        lookup_text(s.drop_first(), t)
    }
}

/// The text value of tag `t`, when the element is there and has text.
pub open spec fn text_value(s: Seq<Element>, t: Tag) -> Option<Seq<char>> {
    match lookup_text(s, t) {
        Some(Some(x)) => Some(x),
        _ => None,
    }
}

pub open spec fn is_digit(c: char) -> bool {
    '0' <= c && c <= '9'
}

/// Value of a string of decimal digits.
pub open spec fn digits_value(s: Seq<char>) -> nat
    decreases s.len(),
{
    if s.len() == 0 {
        0
    } else {
        digits_value(s.drop_last()) * 10 + (s.last() as nat - '0' as nat) as nat
    }
}

/// The unsigned 32-bit number that `s` spells: an optional `+`, then one or
/// more decimal digits, of a value that fits.
pub open spec fn parsed_u32(s: Seq<char>) -> Option<u32> {
    let d = unsigned_part(s);
    if d.len() > 0 && all_digits(d) && digits_value(d) <= u32::MAX {
        Some(digits_value(d) as u32)
    } else {
        None
    }
}

/// `s` without one leading `+`.
pub open spec fn unsigned_part(s: Seq<char>) -> Seq<char> {
    if s.len() > 0 && s[0] == '+' {
        s.drop_first()
    } else {
        s
    }
}

pub open spec fn all_digits(d: Seq<char>) -> bool {
    forall|i: int| 0 <= i < d.len() ==> is_digit(#[trigger] d[i])
}

/// A character with the Unicode `White_Space` property.
pub open spec fn is_white_space(c: char) -> bool {
    ('\u{9}' <= c && c <= '\u{d}') || c == ' ' || c == '\u{85}' || c == '\u{a0}' || c
        == '\u{1680}' || ('\u{2000}' <= c && c <= '\u{200a}') || c == '\u{2028}' || c
        == '\u{2029}' || c == '\u{202f}' || c == '\u{205f}' || c == '\u{3000}'
}

/// `s` without its leading white space.
pub open spec fn trim_start(s: Seq<char>) -> Seq<char>
    decreases s.len(),
{
    if s.len() > 0 && is_white_space(s[0]) {
        trim_start(s.drop_first())
    } else {
        s
    }
}

/// `s` without its trailing white space.
pub open spec fn trim_end(s: Seq<char>) -> Seq<char>
    decreases s.len(),
{
    if s.len() > 0 && is_white_space(s.last()) {
        trim_end(s.drop_last())
    } else {
        s
    }
}

/// `s` without leading and trailing white space.
pub open spec fn trimmed(s: Seq<char>) -> Seq<char> {
    trim_end(trim_start(s))
}

/// Relies on `str::trim`: leading and trailing characters with the Unicode
/// `White_Space` property are removed.
#[verifier::external_body]
fn trim(s: &str) -> (r: &str)
    ensures
        r@ == trimmed(s@),
{
    s.trim()
}

proof fn lemma_digits_value_grows(s: Seq<char>, k: int)
    requires
        0 <= k <= s.len(),
        forall|i: int| 0 <= i < s.len() ==> is_digit(#[trigger] s[i]),
    ensures
        digits_value(s.take(k)) <= digits_value(s),
    decreases s.len() - k,
{
    if k < s.len() {
        lemma_digits_value_grows(s, k + 1);
        assert(s.take(k + 1).drop_last() =~= s.take(k));
    } else {
        assert(s.take(k) =~= s);
    }
}

/// Parses an unsigned 32-bit decimal number (see `parsed_u32`).
pub fn parse_u32(s: &str) -> (r: Option<u32>)
    ensures
        r == parsed_u32(s@),
{
    let cs = chars_of(s);
    let n = cs.len();
    let start: usize = if n > 0 && cs[0] == '+' {
        1
    } else {
        0
    };
    let ghost d = unsigned_part(s@);
    assert(d =~= cs@.skip(start as int));
    if start == n {
        assert(d.len() == 0);
        return None;
    }
    let mut acc: u64 = 0;
    let mut i: usize = start;
    while i < n
        invariant
            n == cs@.len(),
            cs@ == s@,
            d == cs@.skip(start as int),
            d == unsigned_part(s@),
            start <= i <= n,
            forall|k: int| 0 <= k < i - start ==> is_digit(#[trigger] d[k]),
            acc == digits_value(d.take(i - start)),
            acc <= u32::MAX,
        decreases n - i,
    {
        let c = cs[i];
        assert(d[i - start] == c);
        if !('0' <= c && c <= '9') {
            assert(!is_digit(d[i - start]));
            return None;
        }
        assert(d.take(i + 1 - start).drop_last() =~= d.take(i - start));
        acc = acc * 10 + (c as u64 - 48);
        if acc > 0xffff_ffff {
            proof {
                if all_digits(d) {
                    lemma_digits_value_grows(d, i + 1 - start);
                }
            }
            return None;
        }
        i = i + 1;
    }
    assert(d.take(n - start) =~= d);
    assert(d.len() > 0);
    assert(all_digits(d));
    Some(acc as u32)
}

impl Attributes {
    /// Whether an element with tag `t` is present.
    pub open spec fn has(&self, t: Tag) -> bool {
        exists|i: int| 0 <= i < self.elements@.len() && (#[trigger] self.elements@[i]).tag == t
    }

    /// Index of the first element with tag `t`, if any.
    fn position(&self, t: Tag) -> (r: Option<usize>)
        ensures
            r is None ==> !self.has(t) && lookup_text(self.elements@, t) is None,
            r is Some ==> r->0 < self.elements@.len() && self.elements@[r->0 as int].tag == t
                && lookup_text(self.elements@, t) == Some(
                match self.elements@[r->0 as int].text {
                    Some(x) => Some(x@),
                    None => None,
                },
            ),
    {
        let n = self.elements.len();
        let mut i: usize = 0;
        assert(self.elements@.skip(0) =~= self.elements@);
        while i < n
            invariant
                n == self.elements@.len(),
                i <= n,
                forall|k: int| 0 <= k < i ==> (#[trigger] self.elements@[k]).tag != t,
                lookup_text(self.elements@, t) == lookup_text(self.elements@.skip(i as int), t),
            decreases n - i,
        {
            assert(self.elements@.skip(i as int).drop_first() =~= self.elements@.skip(i + 1));
            if self.elements[i].tag == t {
                return Some(i);
            }
            i = i + 1;
        }
        None
    }

    /// Whether an element with tag `t` is present.
    pub fn has_element(&self, t: Tag) -> (r: bool)
        ensures
            r == self.has(t),
    {
        self.position(t).is_some()
    }

    /// Text of the element with tag `t`, when it is present and has text.
    pub fn element_str(&self, t: Tag) -> (r: Option<String>)
        ensures
            match r {
                Some(x) => text_value(self.elements@, t) == Some(x@),
                None => text_value(self.elements@, t) is None,
            },
    {
        match self.position(t) {
            Some(i) => match &self.elements[i].text {
                Some(x) => Some(x.clone()),
                None => None,
            },
            None => None,
        }
    }

    /// Number held by the element with tag `t`: its text, trimmed, read as
    /// an unsigned 32-bit decimal; `None` when absent or not such a number.
    pub fn element_u32(&self, t: Tag) -> (r: Option<u32>)
        ensures
            r == (match text_value(self.elements@, t) {
                Some(x) => parsed_u32(trimmed(x)),
                None => None,
            }),
    {
        match self.element_str(t) {
            Some(x) => parse_u32(trim(x.as_str())),
            None => None,
        }
    }

    /// Transfer syntax of the file the attributes came from, if any.
    pub fn transfer_syntax(&self) -> (r: Option<String>)
        ensures
            match r {
                Some(x) => self.transfer_syntax is Some && x@ == self.transfer_syntax->0@,
                None => self.transfer_syntax is None,
            },
    {
        match &self.transfer_syntax {
            Some(x) => Some(x.clone()),
            None => None,
        }
    }
}

} // verus!
