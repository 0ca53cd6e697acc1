use vstd::prelude::*;
use vstd::string::StringSliceAdditionalSpecFns;

use crate::attributes::{text_value, Attributes, Element, Tag, Vr};
use crate::digest::{digest_hex, generate_hash, upper_prefix};
use crate::text::{chars_of, push_str, string_from_chars};

verus! {

/// A value that anonymization writes over an attribute.
pub struct Replacement {
    pub tag: Tag,
    pub vr: Vr,
    pub value: String,
}

pub open spec fn patient_id_tag() -> Tag {
    Tag { group: 0x0010, element: 0x0020 }
}

pub open spec fn patient_name_tag() -> Tag {
    Tag { group: 0x0010, element: 0x0010 }
}

/// The value written over an attribute, by its representation: person
/// names, dates, times and date-times are replaced; the patient ID is
/// handled apart; anything else is kept.
pub open spec fn replacement_text(t: Tag, vr: Vr) -> Option<Seq<char>> {
    if t == patient_id_tag() {
        None
    } else {
        match vr {
            Vr::PN => if t == patient_name_tag() {
                Some("ANONYMOUS^PATIENT"@)
            } else {
                Some("ANONYMIZED"@)
            },
            Vr::DA => Some("19010101"@),
            Vr::TM => Some("000000"@),
            Vr::DT => Some("19010101000000"@),
            _ => None,
        }
    }
}

/// The replacements for a sequence of attributes, in their order.
pub open spec fn planned(s: Seq<Element>) -> Seq<(Tag, Vr, Seq<char>)>
    decreases s.len(),
{
    if s.len() == 0 {
        Seq::empty()
    } else {
        let p = planned(s.drop_last());
        match replacement_text(s.last().tag, s.last().vr) {
            Some(v) => p.push((s.last().tag, s.last().vr, v)),
            None => p,
        }
    }
}

/// The pseudonymous patient ID for an original ID: `ANON_` and its hash.
pub open spec fn anonymous_id(original: Seq<char>) -> Seq<char> {
    "ANON_"@ + upper_prefix(digest_hex(encode_utf8_of(original)), 16)
}

/// The UTF-8 bytes of a text.
pub open spec fn encode_utf8_of(s: Seq<char>) -> Seq<u8> {
    vstd::utf8::encode_utf8(s)
}

/// Contents of a replacement.
pub open spec fn replacement_view(r: Replacement) -> (Tag, Vr, Seq<char>) {
    (r.tag, r.vr, r.value@)
}

fn replacement_value(t: Tag, vr: Vr) -> (r: Option<&'static str>)
    ensures
        match r {
            Some(v) => replacement_text(t, vr) == Some(v@),
            None => replacement_text(t, vr) is None,
        },
{
    if t.group == 0x0010 && t.element == 0x0020 {
        return None;
    }
    match vr {
        Vr::PN => if t.group == 0x0010 && t.element == 0x0010 {
            Some("ANONYMOUS^PATIENT")
        } else {
            Some("ANONYMIZED")
        },
        Vr::DA => Some("19010101"),
        Vr::TM => Some("000000"),
        Vr::DT => Some("19010101000000"),
        _ => None,
    }
}

/// The pseudonymous patient ID for an original ID.
pub fn anonymized_id(original: &str) -> (r: String)
    ensures
        r@ == anonymous_id(original@),
{
    let h = generate_hash(original);
    let mut out: Vec<char> = Vec::new();
    push_str(&mut out, "ANON_");
    let hc = chars_of(h.as_str());
    let ghost mid = out@;
    let n = hc.len();
    let mut i: usize = 0;
    while i < n
        invariant
            n == hc@.len(),
            i <= n,
            out@ == mid + hc@.take(i as int),
        decreases n - i,
    {
        out.push(hc[i]);
        i = i + 1;
        assert(out@ =~= mid + hc@.take(i as int));
    }
    assert(hc@.take(n as int) =~= hc@);
    assert(original.spec_bytes() == encode_utf8_of(original@));
    string_from_chars(&out)
}

/// What anonymization writes over the attributes, in order: a fixed value
/// for each person name, date, time and date-time other than the patient
/// ID, then the patient ID derived from the original one (`UNKNOWN` when
/// there is none).
pub fn anonymization_plan(obj: &Attributes) -> (r: Vec<Replacement>)
    ensures
        r@.len() == planned(obj.elements@).len() + 1,
        forall|i: int|
            0 <= i < planned(obj.elements@).len() ==> replacement_view(#[trigger] r@[i])
                == planned(obj.elements@)[i],
        replacement_view(r@.last()) == (
            patient_id_tag(),
            Vr::LO,
            anonymous_id(
                match text_value(obj.elements@, patient_id_tag()) {
                    Some(t) => t,
                    None => "UNKNOWN"@,
                },
            ),
        ),
{
    let id_tag = Tag { group: 0x0010, element: 0x0020 };
    let original = match obj.element_str(id_tag) {
        Some(s) => s,
        None => String::from_str("UNKNOWN"),
    };
    let anon = anonymized_id(original.as_str());
    let mut out: Vec<Replacement> = Vec::new();
    let n = obj.elements.len();
    let mut i: usize = 0;
    while i < n
        invariant
            n == obj.elements@.len(),
            i <= n,
            out@.len() == planned(obj.elements@.take(i as int)).len(),
            forall|k: int|
                0 <= k < out@.len() ==> replacement_view(#[trigger] out@[k]) == planned(
                    obj.elements@.take(i as int),
                )[k],
        decreases n - i,
    {
        let tag = obj.elements[i].tag;
        let vr = obj.elements[i].vr;
        assert(obj.elements@.take(i + 1).drop_last() =~= obj.elements@.take(i as int));
        match replacement_value(tag, vr) {
            Some(v) => {
                out.push(Replacement { tag, vr, value: String::from_str(v) });
            },
            None => {},
        }
        i = i + 1;
    }
    assert(obj.elements@.take(n as int) =~= obj.elements@);
    out.push(Replacement { tag: id_tag, vr: Vr::LO, value: anon });
    out
}

} // verus!
