use dicom_tools::anonymize::anonymization_plan;
use dicom_tools::attributes::{parse_u32, Attributes, Element, Tag, Vr};
use dicom_tools::digest::generate_hash;
use dicom_tools::dump::{dump_entries, tag_name, DumpEntry, DumpKind};
use dicom_tools::metadata::{extract_basic_metadata, extract_detailed_metadata, insert_if};
use dicom_tools::storage::{stored_file_name, FileStore, StoreError};
use dicom_tools::text::{sanitize_filename, truncate};
use dicom_tools::validate::{as_summary, tag_to_string, validate_obj, validation_messages};

fn el(group: u16, element: u16, vr: Vr, text: &str) -> Element {
    Element { tag: Tag { group, element }, vr, text: Some(text.to_string()) }
}

fn attrs(elements: Vec<Element>) -> Attributes {
    Attributes { elements, transfer_syntax: None }
}

/// The attributes of the 2x2 secondary capture sample file.
fn sample_attributes() -> Attributes {
    Attributes {
        elements: vec![
            el(0x0008, 0x0016, Vr::Other, "1.2.840.10008.5.1.4.1.1.7"),
            el(0x0008, 0x0018, Vr::Other, "1.2.826.0.1.3680043.2.1125.1"),
            el(0x0008, 0x0020, Vr::DA, "20240101"),
            el(0x0008, 0x0060, Vr::Other, "OT"),
            el(0x0010, 0x0010, Vr::PN, "Test^Patient"),
            el(0x0010, 0x0020, Vr::LO, "PAT123"),
            el(0x0028, 0x0002, Vr::Other, "1"),
            el(0x0028, 0x0008, Vr::Other, "1"),
            el(0x0028, 0x0010, Vr::Other, "2"),
            el(0x0028, 0x0011, Vr::Other, "2"),
            Element { tag: Tag { group: 0x7fe0, element: 0x0010 }, vr: Vr::Other, text: None },
        ],
        transfer_syntax: Some("1.2.840.10008.1.2.1".to_string()),
    }
}

#[test]
fn sanitize_strips_dangerous_characters() {
    let cleaned = sanitize_filename("../weird name 123.dcm");
    assert_eq!(cleaned, "weirdname123dcm");
}

#[test]
fn test_validate_empty_object() {
    let obj = attrs(vec![]);
    let report = validate_obj(&obj);
    assert!(!report.valid);
    assert!(report.missing_tags.len() >= 6);
    assert!(!report.has_pixel_data);
}

#[test]
fn test_validate_valid_object() {
    let obj = attrs(vec![
        el(0x0008, 0x0016, Vr::Other, "1.2.840.10008.5.1.4.1.1.2"),
        el(0x0008, 0x0018, Vr::Other, "1.2.3.4.5"),
        el(0x0010, 0x0010, Vr::PN, "Doe^John"),
        el(0x0010, 0x0020, Vr::LO, "12345"),
        el(0x0008, 0x0020, Vr::DA, "20230101"),
        el(0x0008, 0x0060, Vr::Other, "CT"),
    ]);
    let report = validate_obj(&obj);
    assert!(report.valid, "Object should be valid, missing: {:?}", report.missing_tags);
    assert!(!report.has_pixel_data);
}

#[test]
fn missing_tags_are_labelled() {
    let obj = attrs(vec![
        el(0x0008, 0x0016, Vr::Other, "1.2"),
        el(0x0010, 0x0010, Vr::PN, "Doe^John"),
    ]);
    let report = validate_obj(&obj);
    assert_eq!(
        report.missing_tags,
        vec![
            "SOP Instance UID ((0008,0018))".to_string(),
            "Patient ID ((0010,0020))".to_string(),
            "Study Date ((0008,0020))".to_string(),
            "Modality ((0008,0060))".to_string(),
        ]
    );
    let summary = as_summary(&report);
    assert_eq!(summary.missing_tags, report.missing_tags);
    let (errors, warnings) = validation_messages(&summary);
    assert_eq!(
        errors,
        vec!["Missing 4 attribute(s): SOP Instance UID ((0008,0018)), Patient ID ((0010,0020)), Study Date ((0008,0020)), Modality ((0008,0060))".to_string()]
    );
    assert_eq!(warnings, vec!["Pixel Data element not present".to_string()]);
    assert_eq!(tag_to_string(Tag { group: 0x7fe0, element: 0x0010 }), "(7FE0,0010)");
}

#[test]
fn metadata_and_validation_cover_required_tags() {
    let obj = sample_attributes();
    let basic = extract_basic_metadata(&obj);
    assert_eq!(basic.patient_name.as_deref(), Some("Test^Patient"));
    assert_eq!(basic.modality.as_deref(), Some("OT"));
    assert!(basic.has_pixel_data);

    let report = validate_obj(&obj);
    assert!(report.valid);
    assert!(report.has_pixel_data);
    let (errors, warnings) = validation_messages(&as_summary(&report));
    assert!(errors.is_empty() && warnings.is_empty());
}

#[test]
fn basic_metadata_exposes_dimensions_and_frames() {
    let basic = extract_basic_metadata(&sample_attributes());
    assert_eq!(basic.rows, Some(2));
    assert_eq!(basic.columns, Some(2));
    assert_eq!(basic.number_of_frames, Some(1));
    assert!(basic.transfer_syntax.is_some());
}

#[test]
fn numbers_are_trimmed_and_checked() {
    let obj = attrs(vec![
        el(0x0028, 0x0008, Vr::Other, " 12 "),
        el(0x0028, 0x0010, Vr::Other, "4294967296"),
        el(0x0028, 0x0011, Vr::Other, "+7"),
    ]);
    let basic = extract_basic_metadata(&obj);
    assert_eq!(basic.number_of_frames, Some(12));
    assert_eq!(basic.rows, None);
    assert_eq!(basic.columns, Some(7));
    assert_eq!(parse_u32("4294967295"), Some(4294967295));
    let spaced = attrs(vec![el(0x0028, 0x0010, Vr::Other, "\u{a0}\t2\u{3000}")]);
    assert_eq!(extract_basic_metadata(&spaced).rows, Some(2));
    assert_eq!(parse_u32(""), None);
    assert_eq!(parse_u32("+"), None);
    assert_eq!(parse_u32("1a"), None);
}

#[test]
fn detailed_metadata_groups_present_values() {
    let d = extract_detailed_metadata(&sample_attributes());
    let pairs = |v: &Vec<(String, String)>| -> Vec<(String, String)> { v.clone() };
    assert_eq!(
        pairs(&d.patient),
        vec![("Name".to_string(), "Test^Patient".to_string()), ("ID".to_string(), "PAT123".to_string())]
    );
    assert_eq!(d.study, vec![("Date".to_string(), "20240101".to_string())]);
    assert_eq!(d.image.len(), 4);
    assert_eq!(d.misc.last().unwrap(), &("Transfer Syntax".to_string(), "1.2.840.10008.1.2.1".to_string()));
    let mut m = vec![];
    insert_if(&mut m, "A", None);
    insert_if(&mut m, "B", Some("x".to_string()));
    assert_eq!(m, vec![("B".to_string(), "x".to_string())]);
}

#[test]
fn test_anonymization() {
    let obj = attrs(vec![
        el(0x0010, 0x0010, Vr::PN, "Doe^John"),
        el(0x0010, 0x0020, Vr::LO, "12345"),
        el(0x0010, 0x0030, Vr::DA, "19800101"),
        el(0x0008, 0x0090, Vr::PN, "Dr. House"),
    ]);
    let plan = anonymization_plan(&obj);
    let value = |g: u16, e: u16| -> String {
        plan.iter().rev().find(|r| r.tag == Tag { group: g, element: e }).unwrap().value.clone()
    };
    assert_eq!(value(0x0010, 0x0010), "ANONYMOUS^PATIENT");
    let pid = value(0x0010, 0x0020);
    assert!(pid.starts_with("ANON_"));
    assert_ne!(pid, "12345");
    assert_eq!(value(0x0010, 0x0030), "19010101");
    assert_eq!(value(0x0008, 0x0090), "ANONYMIZED");
}

#[test]
fn anonymization_creates_clean_copy() {
    let plan = anonymization_plan(&sample_attributes());
    let name = plan.iter().find(|r| r.tag == Tag { group: 0x0010, element: 0x0010 }).unwrap();
    assert_eq!(name.value, "ANONYMOUS^PATIENT");
    assert_eq!(plan.len(), 3);
    let last = plan.last().unwrap();
    assert_eq!(last.tag, Tag { group: 0x0010, element: 0x0020 });
    assert_eq!(last.vr, Vr::LO);
    assert_eq!(last.value.len(), 21);
}

#[test]
fn pseudonym_is_sha256_prefix() {
    assert_eq!(generate_hash("abc"), "BA7816BF8F01CFEA");
    let plan = anonymization_plan(&attrs(vec![]));
    assert_eq!(plan.len(), 1);
    assert_eq!(plan[0].value, format!("ANON_{}", generate_hash("UNKNOWN")));
}

#[test]
fn stored_and_derived_names() {
    assert_eq!(stored_file_name(Some("patient^file.dcm"), b"abc"), "patientfile-ba7816bf8f01.dcm");
    assert_eq!(stored_file_name(None, b"abc"), "dicom-ba7816bf8f01.dcm");
    assert_eq!(stored_file_name(Some("^^^.dcm"), b"abc"), "dicom-ba7816bf8f01.dcm");
    let store = FileStore::new("/srv/uploads".to_string());
    let (name, path) = store.derived_path("scan-1.dcm", "anon", "dcm");
    assert_eq!(name, "scan-1-anon.dcm");
    assert_eq!(path, "/srv/uploads/scan-1-anon.dcm");
}

#[test]
fn resolve_keeps_paths_inside_root() {
    let store = FileStore::new("/srv/uploads".to_string());
    assert_eq!(store.resolve(None, None), Err(StoreError::NotFound));
    assert_eq!(
        store.resolve(None, Some("/srv/escape.dcm".to_string())),
        Err(StoreError::OutsideRoot)
    );
    assert_eq!(
        store.resolve(None, Some("/srv/uploadsx/a.dcm".to_string())),
        Err(StoreError::OutsideRoot)
    );
    assert_eq!(
        store.resolve(Some("/real/uploads".to_string()), Some("/real/uploads/a.dcm".to_string())),
        Ok("/real/uploads/a.dcm".to_string())
    );
}

#[test]
fn previews_are_truncated() {
    assert_eq!(truncate("abcdef", 3), "abc\u{2026}");
    assert_eq!(truncate("abc", 3), "abc");
    assert_eq!(truncate("\u{e9}a", 2), "\u{e9}\u{2026}");
    assert_eq!(truncate("\u{e9}a", 3), "\u{e9}a");
    assert_eq!(truncate("\u{e9}a", 1), "\u{2026}");
    assert_eq!(truncate("a\u{20ac}b", 3), "a\u{2026}");
}

fn entry(level: u64, group: u16, element: u16, vr: &str, kind: DumpKind) -> DumpEntry {
    DumpEntry { level, tag: Tag { group, element }, vr: vr.to_string(), kind }
}

fn nested_walk() -> Vec<DumpEntry> {
    vec![
        entry(0, 0x0010, 0x0010, "PN", DumpKind::Primitive { text: "Doe^John".to_string(), byte_len: 8 }),
        entry(0, 0x0008, 0x1115, "SQ", DumpKind::Sequence { items: 1 }),
        entry(1, 0x0008, 0x1115, "", DumpKind::Item { number: 1 }),
        entry(1, 0x0020, 0x000E, "UI", DumpKind::Primitive { text: "1.2.3".to_string(), byte_len: 6 }),
        entry(0, 0x7FE0, 0x0010, "OB", DumpKind::Primitive { text: String::new(), byte_len: 4 }),
    ]
}

#[test]
fn dump_renders_nested_items() {
    let text = dump_entries(&nested_walk(), 4, 64);
    assert_eq!(
        text,
        "(0010,0010) PatientName PN Doe^John\n\
         (0008,1115) ReferencedSeriesSequence SQ [sequence: 1 item(s)]\n\
         \x20 Item 1\n\
         \x20   (0020,000E) SeriesInstanceUID UI 1.2.3\n\
         (7FE0,0010) PixelData OB 4 bytes\n"
    );
}

#[test]
fn tag_names_come_from_the_dictionary() {
    assert_eq!(tag_name(Tag { group: 0x0010, element: 0x0010 }), "PatientName");
    assert_eq!(tag_name(Tag { group: 0x0009, element: 0x0001 }), "UnknownTag");
}

#[test]
fn dump_stops_at_depth_and_cuts_values() {
    let text = dump_entries(&nested_walk(), 0, 3);
    assert_eq!(
        text,
        "(0010,0010) PatientName PN Doe\u{2026}\n\
         (0008,1115) ReferencedSeriesSequence SQ [sequence: 1 item(s)]\n\
         (7FE0,0010) PixelData OB 4 bytes\n"
    );
}
