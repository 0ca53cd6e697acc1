use vstd::prelude::*;
use vstd::utf8::{encode_scalar, encode_utf8};

verus! {

/// Relies on `String`'s `FromIterator<char>`: the string holds the given
/// characters in order.
#[verifier::external_body]
pub(crate) fn string_from_chars(v: &Vec<char>) -> (r: String)
    ensures
        r@ == v@,
{
    v.iter().collect()
}

/// The characters of a string.
pub fn chars_of(s: &str) -> (r: Vec<char>)
    ensures
        r@ == s@,
{
    let n = s.unicode_len();
    let mut out: Vec<char> = Vec::new();
    let mut i: usize = 0;
    while i < n
        invariant
            n == s@.len(),
            i <= n,
            out@ == s@.take(i as int),
        decreases n - i,
    {
        out.push(s.get_char(i));
        i = i + 1;
        assert(out@ =~= s@.take(i as int));
    }
    assert(s@.take(n as int) =~= s@);
    out
}

/// Appends the characters of `s` to `out`.
pub fn push_str(out: &mut Vec<char>, s: &str)
    ensures
        final(out)@ == old(out)@ + s@,
{
    let cs = chars_of(s);
    let n = cs.len();
    let ghost start = out@;
    let mut i: usize = 0;
    while i < n
        invariant
            n == cs@.len(),
            cs@ == s@,
            i <= n,
            out@ == start + cs@.take(i as int),
        decreases n - i,
    {
        out.push(cs[i]);
        i = i + 1;
        assert(out@ =~= start + cs@.take(i as int));
    }
    assert(cs@.take(n as int) =~= cs@);
}

/// A character kept in a file name: ASCII letters and digits, `-` and `_`.
pub open spec fn is_safe_char(c: char) -> bool {
    ('a' <= c && c <= 'z') || ('A' <= c && c <= 'Z') || ('0' <= c && c <= '9') || c == '-' || c
        == '_'
}

/// The safe characters of `s`, in order.
pub open spec fn sanitized(s: Seq<char>) -> Seq<char>
    decreases s.len(),
{
    if s.len() == 0 {
        Seq::empty()
    } else if is_safe_char(s.last()) {
        sanitized(s.drop_last()).push(s.last())
    } else {
        sanitized(s.drop_last())
    }
}

/// Keeps only the characters that are safe in a file name.
pub fn sanitize_filename(input: &str) -> (r: String)
    ensures
        r@ == sanitized(input@),
{
    let cs = chars_of(input);
    let n = cs.len();
    let mut out: Vec<char> = Vec::new();
    let mut i: usize = 0;
    while i < n
        invariant
            n == cs@.len(),
            cs@ == input@,
            i <= n,
            out@ == sanitized(cs@.take(i as int)),
        decreases n - i,
    {
        let c = cs[i];
        assert(cs@.take(i + 1).drop_last() =~= cs@.take(i as int));
        if ('a' <= c && c <= 'z') || ('A' <= c && c <= 'Z') || ('0' <= c && c <= '9') || c == '-'
            || c == '_' {
            out.push(c);
        }
        i = i + 1;
    }
    assert(cs@.take(n as int) =~= cs@);
    string_from_chars(&out)
}

/// Number of bytes of the UTF-8 encoding of `c`.
pub open spec fn utf8_width(c: char) -> nat {
    encode_scalar(c as u32).len()
}

/// Number of leading characters of `s` whose UTF-8 encoding fits in
/// `limit` bytes.
pub open spec fn fitting_prefix(s: Seq<char>, limit: int) -> nat
    decreases s.len(),
{
    if s.len() == 0 || utf8_width(s[0]) > limit {
        0
    } else {
        1 + fitting_prefix(s.drop_first(), limit - utf8_width(s[0]))
    }
}

/// `fitting_prefix` is the longest prefix whose encoding fits in `limit` bytes.
pub proof fn lemma_fitting_prefix_is_longest(s: Seq<char>, limit: int)
    requires
        limit >= 0,
    ensures
        fitting_prefix(s, limit) <= s.len(),
        encode_utf8(s.take(fitting_prefix(s, limit) as int)).len() <= limit,
        fitting_prefix(s, limit) < s.len() ==> encode_utf8(
            s.take(fitting_prefix(s, limit) as int + 1),
        ).len() > limit,
    decreases s.len(),
{
    let k = fitting_prefix(s, limit) as int;
    if s.len() == 0 || utf8_width(s[0]) > limit {
        assert(s.take(0) =~= Seq::<char>::empty());
        if s.len() > 0 {
            assert(s.take(1).drop_first() =~= Seq::<char>::empty());
        }
    } else {
        let t = s.drop_first();
        let l2 = limit - utf8_width(s[0]);
        lemma_fitting_prefix_is_longest(t, l2);
        assert(s.take(k).drop_first() =~= t.take(k - 1));
        if k < s.len() {
            assert(s.take(k + 1).drop_first() =~= t.take(k));
        }
    }
}

/// `s` cut to at most `limit` bytes of UTF-8: unchanged when its encoding
/// fits, else its longest fitting character prefix followed by an ellipsis.
pub open spec fn truncated(s: Seq<char>, limit: int) -> Seq<char> {
    if encode_utf8(s).len() <= limit {
        s
    } else {
        s.take(fitting_prefix(s, limit) as int).push('\u{2026}')
    }
}

/// Number of bytes of the UTF-8 encoding of a character.
fn width_of(c: char) -> (w: usize)
    ensures
        w == utf8_width(c),
{
    proof {
        vstd::utf8::char_is_scalar(c);
    }
    let v = c as u32;
    if v <= 0x7f {
        1
    } else if v <= 0x7ff {
        2
    } else if v <= 0xffff {
        3
    } else {
        4
    }
}

/// Number of bytes of the UTF-8 encoding of the characters.
fn encoded_len(cs: &Vec<char>) -> (r: u128)
    ensures
        r == encode_utf8(cs@).len(),
{
    let n = cs.len();
    let mut acc: u128 = 0;
    let mut i: usize = n;
    assert(cs@.skip(n as int) =~= Seq::<char>::empty());
    while i > 0
        invariant
            n == cs@.len(),
            i <= n,
            acc == encode_utf8(cs@.skip(i as int)).len(),
            acc <= 4 * (n - i),
        decreases i,
    {
        let w = width_of(cs[i - 1]);
        assert(cs@.skip(i - 1).drop_first() =~= cs@.skip(i as int));
        assert(cs@.skip(i - 1)[0] == cs@[i - 1]);
        acc = acc + w as u128;
        i = i - 1;
    }
    assert(cs@.skip(0) =~= cs@);
    acc
}

/// Shortens a value preview to at most `limit` bytes, marking the cut; a
/// character is never split.
pub fn truncate(input: &str, limit: usize) -> (r: String)
    ensures
        r@ == truncated(input@, limit as int),
{
    let cs = chars_of(input);
    let n = cs.len();
    if encoded_len(&cs) <= limit as u128 {
        return string_from_chars(&cs);
    }
    let mut out: Vec<char> = Vec::new();
    let mut rem: usize = limit;
    let mut done = false;
    let mut i: usize = 0;
    assert(cs@.skip(0) =~= cs@);
    while i < n && !done
        invariant
            cs@ == input@,
            n == cs@.len(),
            i <= n,
            out@ == cs@.take(i as int),
            fitting_prefix(cs@, limit as int) == i + fitting_prefix(cs@.skip(i as int), rem as int),
            done ==> fitting_prefix(cs@.skip(i as int), rem as int) == 0,
        decreases 2 * (n - i) + if done {
            0int
        } else {
            1int
        },
    {
        let c = cs[i];
        let w = width_of(c);
        assert(cs@.skip(i as int)[0] == c);
        if w > rem {
            done = true;
        } else {
            assert(cs@.skip(i as int).drop_first() =~= cs@.skip(i + 1));
            rem = rem - w;
            out.push(c);
            i = i + 1;
            assert(out@ =~= cs@.take(i as int));
        }
    }
    if !done {
        assert(cs@.skip(i as int) =~= Seq::<char>::empty());
    }
    out.push('\u{2026}');
    string_from_chars(&out)
}

/// Upper-case hexadecimal digit of a value below sixteen.
pub open spec fn hex_digit_upper(d: int) -> char {
    if d < 10 {
        ('0' as int + d) as char
    } else {
        ('A' as int + d - 10) as char
    }
}

/// Lower-case hexadecimal digit of a value below sixteen.
pub open spec fn hex_digit_lower(d: int) -> char {
    if d < 10 {
        ('0' as int + d) as char
    } else {
        ('a' as int + d - 10) as char
    }
}

/// Four upper-case hexadecimal digits of a 16-bit value.
pub open spec fn hex4(n: int) -> Seq<char> {
    seq![
        hex_digit_upper(n / 4096 % 16),
        hex_digit_upper(n / 256 % 16),
        hex_digit_upper(n / 16 % 16),
        hex_digit_upper(n % 16),
    ]
}

fn hex_digit(d: u16) -> (c: char)
    requires
        d < 16,
    ensures
        c == hex_digit_upper(d as int),
{
    if d < 10 {
        ((48u16 + d) as u8) as char
    } else {
        ((55u16 + d) as u8) as char
    }
}

/// Appends the four upper-case hexadecimal digits of `n`.
pub fn push_hex4(out: &mut Vec<char>, n: u16)
    ensures
        final(out)@ == old(out)@ + hex4(n as int),
{
    let ghost start = out@;
    out.push(hex_digit(n / 4096 % 16));
    out.push(hex_digit(n / 256 % 16));
    out.push(hex_digit(n / 16 % 16));
    out.push(hex_digit(n % 16));
    assert(out@ =~= start + hex4(n as int));
}

/// Decimal digits of `n`, without leading zeros.
pub open spec fn decimal(n: nat) -> Seq<char>
    decreases n,
{
    if n < 10 {
        seq![('0' as int + n) as char]
    } else {
        decimal(n / 10).push(('0' as int + n % 10) as char)
    }
}

/// Decimal digits of `n`, with leading zeros up to `width` characters.
pub open spec fn zero_padded(n: nat, width: nat) -> Seq<char> {
    let d = decimal(n);
    if d.len() >= width {
        d
    } else {
        Seq::new((width - d.len()) as nat, |i: int| '0') + d
    }
}

/// The decimal digits of `n`.
pub fn decimal_digits(n: u64) -> (r: Vec<char>)
    ensures
        r@ == decimal(n as nat),
    decreases n,
{
    if n < 10 {
        let mut v: Vec<char> = Vec::new();
        v.push(((48u64 + n) as u8) as char);
        v
    } else {
        let mut v = decimal_digits(n / 10);
        v.push(((48u64 + n % 10) as u8) as char);
        v
    }
}

/// Appends `n` in decimal, zero-padded to `width` characters.
pub fn push_padded(out: &mut Vec<char>, n: u32, width: usize)
    ensures
        final(out)@ == old(out)@ + zero_padded(n as nat, width as nat),
{
    let d = decimal_digits(n as u64);
    let ghost start = out@;
    if d.len() < width {
        let pad = width - d.len();
        let mut i: usize = 0;
        while i < pad
            invariant
                i <= pad,
                out@ == start + Seq::new(i as nat, |k: int| '0'),
            decreases pad - i,
        {
            out.push('0');
            i = i + 1;
            assert(out@ =~= start + Seq::new(i as nat, |k: int| '0'));
        }
    }
    let ghost mid = out@;
    let n_d = d.len();
    let mut j: usize = 0;
    while j < n_d
        invariant
            n_d == d@.len(),
            j <= n_d,
            out@ == mid + d@.take(j as int),
        decreases n_d - j,
    {
        out.push(d[j]);
        j = j + 1;
        assert(out@ =~= mid + d@.take(j as int));
    }
    assert(d@.take(n_d as int) =~= d@);
    assert(out@ =~= start + zero_padded(n as nat, width as nat));
}

} // verus!
