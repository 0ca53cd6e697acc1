use vstd::prelude::*;

use crate::attributes::{parsed_u32, text_value, trimmed, Attributes, Tag};
use crate::sample::{PixelBuffer, Rescale, Signedness, Window};
use crate::validate::pixel_data_tag;

verus! {

/// The fields shown in summaries and quick responses.
pub struct BasicMetadata {
    pub patient_name: Option<String>,
    pub patient_id: Option<String>,
    pub study_date: Option<String>,
    pub modality: Option<String>,
    pub sop_class_uid: Option<String>,
    pub has_pixel_data: bool,
    pub transfer_syntax: Option<String>,
    pub rows: Option<u32>,
    pub columns: Option<u32>,
    pub number_of_frames: Option<u32>,
}

/// Labelled values grouped by category, each group in its fixed order and
/// holding only the values present.
pub struct DetailedMetadata {
    pub patient: Vec<(String, String)>,
    pub study: Vec<(String, String)>,
    pub image: Vec<(String, String)>,
    pub misc: Vec<(String, String)>,
}

/// Static format fields of a buffer, with the rescale and window in force
/// for its first frame.
pub struct PixelFormatSummary {
    pub rows: u32,
    pub columns: u32,
    pub number_of_frames: u32,
    pub samples_per_pixel: u16,
    pub photometric_interpretation: String,
    pub planar_configuration: Option<u16>,
    pub bits_allocated: u16,
    pub bits_stored: u16,
    pub high_bit: u16,
    pub pixel_representation: Signedness,
    pub rescale: Option<Rescale>,
    pub window: Option<Window>,
}

pub open spec fn opt_text(o: Option<String>) -> Option<Seq<char>> {
    match o {
        Some(s) => Some(s@),
        None => None,
    }
}

pub open spec fn number_value(obj: &Attributes, t: Tag) -> Option<u32> {
    match text_value(obj.elements@, t) {
        Some(x) => parsed_u32(trimmed(x)),
        None => None,
    }
}

pub open spec fn tag(group: u16, element: u16) -> Tag {
    Tag { group, element }
}

/// The fields of `BasicMetadata`, read from the attributes.
pub fn extract_basic_metadata(obj: &Attributes) -> (r: BasicMetadata)
    ensures
        opt_text(r.patient_name) == text_value(obj.elements@, tag(0x0010, 0x0010)),
        opt_text(r.patient_id) == text_value(obj.elements@, tag(0x0010, 0x0020)),
        opt_text(r.study_date) == text_value(obj.elements@, tag(0x0008, 0x0020)),
        opt_text(r.modality) == text_value(obj.elements@, tag(0x0008, 0x0060)),
        opt_text(r.sop_class_uid) == text_value(obj.elements@, tag(0x0008, 0x0016)),
        r.has_pixel_data == obj.has(pixel_data_tag()),
        opt_text(r.transfer_syntax) == opt_text(obj.transfer_syntax),
        r.rows == number_value(obj, tag(0x0028, 0x0010)),
        r.columns == number_value(obj, tag(0x0028, 0x0011)),
        r.number_of_frames == number_value(obj, tag(0x0028, 0x0008)),
{
    BasicMetadata {
        patient_name: text_for_tag(obj, Tag { group: 0x0010, element: 0x0010 }),
        patient_id: text_for_tag(obj, Tag { group: 0x0010, element: 0x0020 }),
        study_date: text_for_tag(obj, Tag { group: 0x0008, element: 0x0020 }),
        modality: text_for_tag(obj, Tag { group: 0x0008, element: 0x0060 }),
        sop_class_uid: text_for_tag(obj, Tag { group: 0x0008, element: 0x0016 }),
        has_pixel_data: obj.has_element(Tag { group: 0x7fe0, element: 0x0010 }),
        transfer_syntax: obj.transfer_syntax(),
        rows: obj.element_u32(Tag { group: 0x0028, element: 0x0010 }),
        columns: obj.element_u32(Tag { group: 0x0028, element: 0x0011 }),
        number_of_frames: obj.element_u32(Tag { group: 0x0028, element: 0x0008 }),
    }
}

fn text_for_tag(obj: &Attributes, t: Tag) -> (r: Option<String>)
    ensures
        opt_text(r) == text_value(obj.elements@, t),
{
    obj.element_str(t)
}

/// Contents of a list of labelled values.
pub open spec fn entries_view(v: Seq<(String, String)>) -> Seq<(Seq<char>, Seq<char>)> {
    v.map_values(|e: (String, String)| (e.0@, e.1@))
}

/// Labelled values of the fields whose attribute has text, in field order.
pub open spec fn present_entries(obj: &Attributes, fields: Seq<(&'static str, Tag)>) -> Seq<
    (Seq<char>, Seq<char>),
>
    decreases fields.len(),
{
    if fields.len() == 0 {
        Seq::empty()
    } else {
        let p = present_entries(obj, fields.drop_last());
        match text_value(obj.elements@, fields.last().1) {
            Some(v) => p.push((fields.last().0@, v)),
            None => p,
        }
    }
}

/// Appends `(label, value)` when there is a value.
pub fn insert_if(map: &mut Vec<(String, String)>, label: &str, value: Option<String>)
    ensures
        value is None ==> final(map)@ == old(map)@,
        value is Some ==> entries_view(final(map)@) == entries_view(old(map)@).push(
            (label@, value->0@),
        ),
{
    match value {
        Some(v) => {
            let ghost before = map@;
            map.push((String::from_str(label), v));
            assert(entries_view(map@) =~= entries_view(before).push((label@, value->0@)));
        },
        None => {},
    }
}

fn collect_entries(obj: &Attributes, fields: &Vec<(&'static str, Tag)>) -> (r: Vec<(String, String)>)
    ensures
        entries_view(r@) == present_entries(obj, fields@),
{
    let mut out: Vec<(String, String)> = Vec::new();
    let n = fields.len();
    let mut i: usize = 0;
    while i < n
        invariant
            n == fields@.len(),
            i <= n,
            entries_view(out@) == present_entries(obj, fields@.take(i as int)),
        decreases n - i,
    {
        let (label, t) = fields[i];
        assert(fields@.take(i + 1).drop_last() =~= fields@.take(i as int));
        insert_if(&mut out, label, obj.element_str(t));
        i = i + 1;
    }
    assert(fields@.take(n as int) =~= fields@);
    out
}

pub open spec fn patient_fields() -> Seq<(&'static str, Tag)> {
    seq![
        ("Name", tag(0x0010, 0x0010)),
        ("ID", tag(0x0010, 0x0020)),
        ("Birth Date", tag(0x0010, 0x0030)),
        ("Sex", tag(0x0010, 0x0040)),
    ]
}

pub open spec fn study_fields() -> Seq<(&'static str, Tag)> {
    seq![
        ("Date", tag(0x0008, 0x0020)),
        ("Time", tag(0x0008, 0x0030)),
        ("Description", tag(0x0008, 0x1030)),
        ("Accession Number", tag(0x0008, 0x0050)),
    ]
}

pub open spec fn image_fields() -> Seq<(&'static str, Tag)> {
    seq![
        ("Modality", tag(0x0008, 0x0060)),
        ("Rows", tag(0x0028, 0x0010)),
        ("Columns", tag(0x0028, 0x0011)),
        ("Pixel Representation", tag(0x0028, 0x0103)),
        ("Photometric Interpretation", tag(0x0028, 0x0004)),
        ("Number of Frames", tag(0x0028, 0x0008)),
    ]
}

pub open spec fn misc_fields() -> Seq<(&'static str, Tag)> {
    seq![("SOP Class UID", tag(0x0008, 0x0016)), ("SOP Instance UID", tag(0x0008, 0x0018))]
}

/// Categorized metadata: patient, study, image and other fields, each with
/// the values present; the other fields end with the transfer syntax when
/// it is known.
pub fn extract_detailed_metadata(obj: &Attributes) -> (r: DetailedMetadata)
    ensures
        entries_view(r.patient@) == present_entries(obj, patient_fields()),
        entries_view(r.study@) == present_entries(obj, study_fields()),
        entries_view(r.image@) == present_entries(obj, image_fields()),
        obj.transfer_syntax is None ==> entries_view(r.misc@) == present_entries(obj, misc_fields()),
        obj.transfer_syntax is Some ==> entries_view(r.misc@) == present_entries(
            obj,
            misc_fields(),
        ).push(("Transfer Syntax"@, obj.transfer_syntax->0@)),
{
    let pf = vec![
        ("Name", Tag { group: 0x0010, element: 0x0010 }),
        ("ID", Tag { group: 0x0010, element: 0x0020 }),
        ("Birth Date", Tag { group: 0x0010, element: 0x0030 }),
        ("Sex", Tag { group: 0x0010, element: 0x0040 }),
    ];
    assert(pf@ =~= patient_fields());
    let sf = vec![
        ("Date", Tag { group: 0x0008, element: 0x0020 }),
        ("Time", Tag { group: 0x0008, element: 0x0030 }),
        ("Description", Tag { group: 0x0008, element: 0x1030 }),
        ("Accession Number", Tag { group: 0x0008, element: 0x0050 }),
    ];
    assert(sf@ =~= study_fields());
    let imf = vec![
        ("Modality", Tag { group: 0x0008, element: 0x0060 }),
        ("Rows", Tag { group: 0x0028, element: 0x0010 }),
        ("Columns", Tag { group: 0x0028, element: 0x0011 }),
        ("Pixel Representation", Tag { group: 0x0028, element: 0x0103 }),
        ("Photometric Interpretation", Tag { group: 0x0028, element: 0x0004 }),
        ("Number of Frames", Tag { group: 0x0028, element: 0x0008 }),
    ];
    assert(imf@ =~= image_fields());
    let mf = vec![
        ("SOP Class UID", Tag { group: 0x0008, element: 0x0016 }),
        ("SOP Instance UID", Tag { group: 0x0008, element: 0x0018 }),
    ];
    assert(mf@ =~= misc_fields());
    let patient = collect_entries(obj, &pf);
    let study = collect_entries(obj, &sf);
    let image = collect_entries(obj, &imf);
    let mut misc = collect_entries(obj, &mf);
    insert_if(&mut misc, "Transfer Syntax", obj.transfer_syntax());
    DetailedMetadata { patient, study, image, misc }
}

/// Format summary of a buffer.
pub fn pixel_format_from_decoded(buffer: &PixelBuffer) -> (r: PixelFormatSummary)
    ensures
        r.rows == buffer.rows,
        r.columns == buffer.columns,
        r.number_of_frames == buffer.frame_count,
        r.samples_per_pixel == buffer.samples_per_pixel,
        r.photometric_interpretation@ == buffer.photometric_interpretation@,
        r.planar_configuration == (if buffer.samples_per_pixel > 1 {
            buffer.planar_configuration
        } else {
            None
        }),
        r.bits_allocated == buffer.bits_allocated,
        r.bits_stored == buffer.bits_stored,
        r.high_bit == buffer.high_bit,
        r.pixel_representation == buffer.signedness,
        r.rescale == buffer.effective_rescale_spec(0),
        r.window == buffer.effective_window_spec(0),
{
    PixelFormatSummary {
        rows: buffer.rows,
        columns: buffer.columns,
        number_of_frames: buffer.frame_count,
        samples_per_pixel: buffer.samples_per_pixel,
        photometric_interpretation: buffer.photometric_interpretation.clone(),
        planar_configuration: if buffer.samples_per_pixel > 1 {
            buffer.planar_configuration
        } else {
            None
        },
        bits_allocated: buffer.bits_allocated,
        bits_stored: buffer.bits_stored,
        high_bit: buffer.high_bit,
        pixel_representation: buffer.signedness,
        rescale: buffer.effective_rescale(0),
        window: buffer.effective_window(0),
    }
}

} // verus!
