use vstd::prelude::*;

use crate::attributes::{Attributes, Tag};
use crate::text::{decimal, hex4, push_hex4, push_str, string_from_chars};

verus! {

/// Outcome of checking the critical attributes of a container.
pub struct ValidationReport {
    pub valid: bool,
    pub missing_tags: Vec<String>,
    pub has_pixel_data: bool,
}

/// The same outcome, as handed to callers outside the library.
pub struct ValidationSummary {
    pub valid: bool,
    pub missing_tags: Vec<String>,
    pub has_pixel_data: bool,
}

/// Tag of the pixel data element.
pub open spec fn pixel_data_tag() -> Tag {
    Tag { group: 0x7fe0, element: 0x0010 }
}

/// The critical attributes, with their names, in the order they are checked.
pub open spec fn required_attributes() -> Seq<(Tag, &'static str)> {
    seq![
        (Tag { group: 0x0008, element: 0x0016 }, "SOP Class UID"),
        (Tag { group: 0x0008, element: 0x0018 }, "SOP Instance UID"),
        (Tag { group: 0x0010, element: 0x0010 }, "Patient Name"),
        (Tag { group: 0x0010, element: 0x0020 }, "Patient ID"),
        (Tag { group: 0x0008, element: 0x0020 }, "Study Date"),
        (Tag { group: 0x0008, element: 0x0060 }, "Modality"),
    ]
}

/// A tag as text: `(GGGG,EEEE)` in upper-case hexadecimal.
pub open spec fn tag_text(t: Tag) -> Seq<char> {
    "("@ + hex4(t.group as int) + ","@ + hex4(t.element as int) + ")"@
}

/// How a missing attribute is reported: `<name> (<tag>)`.
pub open spec fn missing_label(name: Seq<char>, t: Tag) -> Seq<char> {
    name + " ("@ + tag_text(t) + ")"@
}

/// Labels of the attributes of `req` that `a` lacks, in order.
pub open spec fn missing_labels(a: &Attributes, req: Seq<(Tag, &'static str)>) -> Seq<Seq<char>>
    decreases req.len(),
{
    if req.len() == 0 {
        Seq::empty()
    } else {
        let p = missing_labels(a, req.drop_last());
        if a.has(req.last().0) {
            p
        } else {
            p.push(missing_label(req.last().1@, req.last().0))
        }
    }
}

/// The texts of a vector of strings.
pub open spec fn texts(v: Seq<String>) -> Seq<Seq<char>> {
    v.map_values(|s: String| s@)
}

/// Writes a tag as `(GGGG,EEEE)`.
pub fn tag_to_string(t: Tag) -> (r: String)
    ensures
        r@ == tag_text(t),
{
    let mut out: Vec<char> = Vec::new();
    push_tag_chars(&mut out, t);
    string_from_chars(&out)
}

pub(crate) fn push_tag_chars(out: &mut Vec<char>, t: Tag)
    ensures
        final(out)@ == old(out)@ + tag_text(t),
{
    let ghost start = out@;
    push_str(out, "(");
    push_hex4(out, t.group);
    push_str(out, ",");
    push_hex4(out, t.element);
    push_str(out, ")");
    assert(out@ =~= start + tag_text(t));
}

/// Checks that the critical attributes are present, and whether the pixel
/// data element is. The report is valid exactly when none is missing.
pub fn validate_obj(obj: &Attributes) -> (r: ValidationReport)
    ensures
        texts(r.missing_tags@) == missing_labels(obj, required_attributes()),
        r.valid == (r.missing_tags@.len() == 0),
        r.has_pixel_data == obj.has(pixel_data_tag()),
{
    let required = vec![
        (Tag { group: 0x0008, element: 0x0016 }, "SOP Class UID"),
        (Tag { group: 0x0008, element: 0x0018 }, "SOP Instance UID"),
        (Tag { group: 0x0010, element: 0x0010 }, "Patient Name"),
        (Tag { group: 0x0010, element: 0x0020 }, "Patient ID"),
        (Tag { group: 0x0008, element: 0x0020 }, "Study Date"),
        (Tag { group: 0x0008, element: 0x0060 }, "Modality"),
    ];
    assert(required@ =~= required_attributes());
    let mut missing: Vec<String> = Vec::new();
    let n = required.len();
    let mut i: usize = 0;
    while i < n
        invariant
            n == required@.len(),
            required@ == required_attributes(),
            i <= n,
            texts(missing@) == missing_labels(obj, required@.take(i as int)),
        decreases n - i,
    {
        let (tag, name) = required[i];
        assert(required@.take(i + 1).drop_last() =~= required@.take(i as int));
        if !obj.has_element(tag) {
            let mut label: Vec<char> = Vec::new();
            push_str(&mut label, name);
            push_str(&mut label, " (");
            push_tag_chars(&mut label, tag);
            push_str(&mut label, ")");
            let s = string_from_chars(&label);
            missing.push(s);
            assert(s@ =~= missing_label(name@, tag));
            assert(texts(missing@) =~= texts(missing@.drop_last()).push(s@));
        }
        i = i + 1;
    }
    assert(required@.take(n as int) =~= required@);
    let has_pixel_data = obj.has_element(Tag { group: 0x7fe0, element: 0x0010 });
    let valid = missing.len() == 0;
    ValidationReport { valid, missing_tags: missing, has_pixel_data }
}

/// Copies strings one by one.
fn clone_strings(v: &Vec<String>) -> (r: Vec<String>)
    ensures
        texts(r@) == texts(v@),
{
    let n = v.len();
    let mut out: Vec<String> = Vec::new();
    let mut i: usize = 0;
    while i < n
        invariant
            n == v@.len(),
            i <= n,
            texts(out@) == texts(v@.take(i as int)),
        decreases n - i,
    {
        let c = v[i].clone();
        let ghost prev = out@;
        out.push(c);
        assert(texts(out@) =~= texts(prev).push(c@));
        assert(texts(v@.take(i + 1)) =~= texts(v@.take(i as int)).push(v@[i as int]@));
        i = i + 1;
    }
    assert(v@.take(n as int) =~= v@);
    out
}

/// The summary of a report: the same fields.
pub fn as_summary(report: &ValidationReport) -> (r: ValidationSummary)
    ensures
        r.valid == report.valid,
        texts(r.missing_tags@) == texts(report.missing_tags@),
        r.has_pixel_data == report.has_pixel_data,
{
    ValidationSummary {
        valid: report.valid,
        missing_tags: clone_strings(&report.missing_tags),
        has_pixel_data: report.has_pixel_data,
    }
}

/// Texts joined with a separator between neighbours.
pub open spec fn joined(s: Seq<Seq<char>>, sep: Seq<char>) -> Seq<char>
    decreases s.len(),
{
    if s.len() == 0 {
        Seq::empty()
    } else if s.len() == 1 {
        s[0]
    } else {
        joined(s.drop_last(), sep) + sep + s.last()
    }
}

/// The error message of a summary with missing attributes.
pub open spec fn missing_message(s: Seq<Seq<char>>) -> Seq<char> {
    "Missing "@ + decimal(s.len()) + " attribute(s): "@ + joined(s, ", "@)
}

/// Splits a summary into error and warning messages: one error listing the
/// missing attributes, if any; one warning when pixel data is absent.
pub fn validation_messages(summary: &ValidationSummary) -> (r: (Vec<String>, Vec<String>))
    ensures
        summary.missing_tags@.len() == 0 ==> r.0@.len() == 0,
        summary.missing_tags@.len() > 0 ==> texts(r.0@) == seq![
            missing_message(texts(summary.missing_tags@)),
        ],
        summary.has_pixel_data ==> r.1@.len() == 0,
        !summary.has_pixel_data ==> texts(r.1@) == seq!["Pixel Data element not present"@],
{
    let mut errors: Vec<String> = Vec::new();
    let n = summary.missing_tags.len();
    if n > 0 {
        let mut msg: Vec<char> = Vec::new();
        push_str(&mut msg, "Missing ");
        let digits = crate::text::decimal_digits(n as u64);
        push_chars(&mut msg, &digits);
        push_str(&mut msg, " attribute(s): ");
        let ghost head = msg@;
        let mut i: usize = 0;
        while i < n
            invariant
                n == summary.missing_tags@.len(),
                n > 0,
                i <= n,
                msg@ == head + joined(texts(summary.missing_tags@.take(i as int)), ", "@),
            decreases n - i,
        {
            let ghost prev = texts(summary.missing_tags@.take(i as int));
            assert(texts(summary.missing_tags@.take(i + 1)) =~= prev.push(
                summary.missing_tags@[i as int]@,
            ));
            if i > 0 {
                push_str(&mut msg, ", ");
            }
            push_str(&mut msg, summary.missing_tags[i].as_str());
            proof {
                let next = prev.push(summary.missing_tags@[i as int]@);
                assert(next.drop_last() =~= prev);
                if i == 0 {
                    assert(prev.len() == 0);
                    assert(joined(prev, ", "@) =~= Seq::<char>::empty());
                }
            }
            i = i + 1;
            assert(msg@ =~= head + joined(texts(summary.missing_tags@.take(i as int)), ", "@));
        }
        assert(summary.missing_tags@.take(n as int) =~= summary.missing_tags@);
        assert(msg@ =~= missing_message(texts(summary.missing_tags@)));
        errors.push(string_from_chars(&msg));
        assert(texts(errors@) =~= seq![missing_message(texts(summary.missing_tags@))]);
    }
    let mut warnings: Vec<String> = Vec::new();
    if !summary.has_pixel_data {
        warnings.push(String::from_str("Pixel Data element not present"));
        assert(texts(warnings@) =~= seq!["Pixel Data element not present"@]);
    }
    (errors, warnings)
}

fn push_chars(out: &mut Vec<char>, cs: &Vec<char>)
    ensures
        final(out)@ == old(out)@ + cs@,
{
    let ghost start = out@;
    let n = cs.len();
    let mut i: usize = 0;
    while i < n
        invariant
            n == cs@.len(),
            i <= n,
            out@ == start + cs@.take(i as int),
        decreases n - i,
    {
        out.push(cs[i]);
        i = i + 1;
        assert(out@ =~= start + cs@.take(i as int));
    }
    assert(cs@.take(n as int) =~= cs@);
}

} // verus!
