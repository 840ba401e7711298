use jpeg_meta::batch::{check_inputs, exit_status, failed_inputs, BatchError, FileOutcome};
use jpeg_meta::date::normalize_date;
use jpeg_meta::record::{
    assemble, file_stat, jpeg_to_metadata, json_path, ExifFields, FieldValue, FileStat, MetaError,
    MetadataRecord, Timestamp,
};
use jpeg_meta::tags::{ascii_text, decode_exif, get_ascii, get_short, short_value, RawTagValue, TagId};

/// One IFD entry: tag, type, count, and its value bytes.
struct Entry {
    tag: u16,
    kind: u16,
    count: u32,
    data: Vec<u8>,
}

fn ascii(tag: u16, s: &str) -> Entry {
    let mut data = s.as_bytes().to_vec();
    data.push(0);
    Entry { tag, kind: 2, count: data.len() as u32, data }
}

/// Lays out an IFD at `at`, with out-of-line values after it.
fn ifd(entries: &[Entry], at: u32) -> Vec<u8> {
    let mut out = Vec::new();
    out.extend_from_slice(&(entries.len() as u16).to_be_bytes());
    let mut extra_at = at + 2 + 12 * entries.len() as u32 + 4;
    let mut extra = Vec::new();
    for e in entries {
        out.extend_from_slice(&e.tag.to_be_bytes());
        out.extend_from_slice(&e.kind.to_be_bytes());
        out.extend_from_slice(&e.count.to_be_bytes());
        if e.data.len() <= 4 {
            let mut v = e.data.clone();
            v.resize(4, 0);
            out.extend_from_slice(&v);
        } else {
            out.extend_from_slice(&extra_at.to_be_bytes());
            extra.extend_from_slice(&e.data);
            extra_at += e.data.len() as u32;
        }
    }
    out.extend_from_slice(&0u32.to_be_bytes());
    out.extend_from_slice(&extra);
    out
}

/// A minimal JPEG whose EXIF segment holds the given tags.
fn jpeg(orientation: Option<u16>, date: Option<&str>, model: Option<&str>, serial: Option<&str>) -> Vec<u8> {
    let mut sub = Vec::new();
    if let Some(d) = date {
        sub.push(ascii(0x9003, d));
    }
    if let Some(s) = serial {
        sub.push(ascii(0xa431, s));
    }
    let mut main = Vec::new();
    if let Some(m) = model {
        main.push(ascii(0x0110, m));
    }
    if let Some(o) = orientation {
        let mut data = o.to_be_bytes().to_vec();
        data.extend_from_slice(&[0, 0]);
        main.push(Entry { tag: 0x0112, kind: 3, count: 1, data });
    }
    main.push(Entry { tag: 0x8769, kind: 4, count: 1, data: vec![0, 0, 0, 0] });
    let main_len = ifd(&main, 8).len() as u32;
    let sub_at = 8 + main_len;
    let last = main.len() - 1;
    main[last].data = sub_at.to_be_bytes().to_vec();
    let mut tiff = vec![b'M', b'M', 0, 42, 0, 0, 0, 8];
    tiff.extend(ifd(&main, 8));
    tiff.extend(ifd(&sub, sub_at));
    let mut seg = b"Exif\0\0".to_vec();
    seg.extend(tiff);
    let mut out = vec![0xff, 0xd8, 0xff, 0xe1];
    out.extend_from_slice(&((seg.len() + 2) as u16).to_be_bytes());
    out.extend(seg);
    out.extend_from_slice(&[0xff, 0xd9]);
    out
}

const CREATED: Timestamp = Timestamp { secs: 1685629325, nanos: 123_000_000 };
const MODIFIED: Timestamp = Timestamp { secs: 0, nanos: 0 };

fn keys(r: &MetadataRecord) -> Vec<&str> {
    r.entries.iter().map(|e| e.0.as_str()).collect()
}

fn text(s: &str) -> FieldValue {
    FieldValue::Text(s.to_string())
}

#[test]
fn full_record_has_eight_keys() {
    let bytes = jpeg(Some(6), Some("2023:06:01 14:22:05"), Some("Cam X100"), Some("SN-0042"));
    let (rec, unparsed) = jpeg_to_metadata("/photos/a.jpg", 1234, CREATED, MODIFIED, &bytes).unwrap();
    assert_eq!(
        keys(&rec),
        vec![
            "filename",
            "size",
            "created_time",
            "modified_time",
            "orientation",
            "capture_time",
            "camera_model",
            "camera_serial"
        ]
    );
    assert_eq!(rec.entries[0].1, text("a.jpg"));
    assert_eq!(rec.entries[1].1, FieldValue::Number(1234));
    assert_eq!(rec.entries[2].1, text("2023-06-01T14:22:05.123Z"));
    assert_eq!(rec.entries[3].1, text("1970-01-01T00:00:00.000Z"));
    assert_eq!(rec.entries[4].1, FieldValue::Number(6));
    assert_eq!(rec.entries[5].1, text("2023-06-01 14:22:05"));
    assert_eq!(rec.entries[6].1, text("Cam X100"));
    assert_eq!(rec.entries[7].1, text("SN-0042"));
    assert_eq!(unparsed, None);
}

#[test]
fn missing_tags_are_omitted() {
    let bytes = jpeg(None, Some("2023:06:01 14:22:05"), Some("Cam"), None);
    let (rec, _) = jpeg_to_metadata("b.jpg", 7, CREATED, MODIFIED, &bytes).unwrap();
    assert_eq!(
        keys(&rec),
        vec!["filename", "size", "created_time", "modified_time", "capture_time", "camera_model"]
    );
    assert_eq!(rec.entries[0].1, text("b.jpg"));
    assert_eq!(rec.entries[1].1, FieldValue::Number(7));
    let bare = jpeg(None, None, None, None);
    let (rec, _) = jpeg_to_metadata("b.jpg", 7, CREATED, MODIFIED, &bare).unwrap();
    assert_eq!(keys(&rec), vec!["filename", "size", "created_time", "modified_time"]);
}

#[test]
fn bad_date_is_omitted_and_reported() {
    let bytes = jpeg(Some(1), Some("not-a-date"), Some("Cam"), Some("SN"));
    let (rec, unparsed) = jpeg_to_metadata("c.jpg", 1, CREATED, MODIFIED, &bytes).unwrap();
    assert_eq!(
        keys(&rec),
        vec!["filename", "size", "created_time", "modified_time", "orientation", "camera_model", "camera_serial"]
    );
    assert_eq!(unparsed, Some("not-a-date".to_string()));
}

#[test]
fn invalid_jpeg_fails_to_decode() {
    let r = jpeg_to_metadata("d.jpg", 3, CREATED, MODIFIED, &b"not an image".to_vec());
    assert_eq!(r.unwrap_err(), MetaError::Decode);
    assert!(decode_exif(&vec![0xff, 0xd8, 0xff, 0xd9]).is_err());
    assert!(decode_exif(&jpeg(None, None, None, None)).is_ok());
}

#[test]
fn path_without_file_name_is_invalid() {
    let bytes = jpeg(None, None, None, None);
    let r = jpeg_to_metadata("", 3, CREATED, MODIFIED, &bytes);
    assert_eq!(r.unwrap_err(), MetaError::InvalidPath);
    assert_eq!(file_stat("/", 1, CREATED, MODIFIED).unwrap_err(), MetaError::InvalidPath);
}

#[test]
fn out_of_range_time_is_an_io_error() {
    let far = Timestamp { secs: i64::MAX, nanos: 0 };
    assert_eq!(file_stat("e.jpg", 1, far, MODIFIED).unwrap_err(), MetaError::Io);
}

#[test]
fn rerun_gives_same_record() {
    let bytes = jpeg(Some(3), Some("2020:02:29 23:59:59"), None, Some("Z"));
    let (a, _) = jpeg_to_metadata("dir/f.jpg", 99, CREATED, MODIFIED, &bytes).unwrap();
    let (b, _) = jpeg_to_metadata("dir/f.jpg", 99, CREATED, MODIFIED, &bytes).unwrap();
    assert_eq!(a.entries, b.entries);
    assert_eq!(json_path("dir/f.jpg"), json_path("dir/f.jpg"));
}

#[test]
fn json_path_replaces_extension() {
    assert_eq!(json_path("dir/photo.jpg"), "dir/photo.json");
    assert_eq!(json_path("photo"), "photo.json");
}

#[test]
fn date_normalization() {
    assert_eq!(normalize_date("2023:06:01 14:22:05"), Some("2023-06-01 14:22:05".to_string()));
    assert_eq!(normalize_date("not-a-date"), None);
    assert_eq!(normalize_date("2023:02:30 10:00:00"), None);
    assert_eq!(normalize_date(""), None);
}

#[test]
fn file_stat_fields() {
    let s = file_stat("/x/y/z.jpeg", 42, CREATED, CREATED).unwrap();
    assert_eq!(s.filename, "z.jpeg");
    assert_eq!(s.size, 42);
    assert_eq!(s.created_time, "2023-06-01T14:22:05.123Z");
    assert_eq!(s.modified_time, "2023-06-01T14:22:05.123Z");
}

#[test]
fn assemble_keeps_order() {
    let s = FileStat {
        filename: "f".to_string(),
        size: 0,
        created_time: "c".to_string(),
        modified_time: "m".to_string(),
    };
    let x = ExifFields {
        orientation: None,
        capture_time: None,
        camera_model: None,
        camera_serial: Some("s".to_string()),
        unparsed_capture_time: None,
    };
    let r = assemble(&s, &x);
    assert_eq!(keys(&r), vec!["filename", "size", "created_time", "modified_time", "camera_serial"]);
    assert_eq!(r.entries[4].1, text("s"));
}

#[test]
fn raw_value_normalizers() {
    assert_eq!(short_value(&RawTagValue::Short(vec![8, 9])), Some(8));
    assert_eq!(short_value(&RawTagValue::Short(vec![])), None);
    assert_eq!(short_value(&RawTagValue::Ascii(vec![b"1".to_vec()])), None);
    assert_eq!(ascii_text(&RawTagValue::Ascii(vec![b"first".to_vec(), b"second".to_vec()])), Some("first".to_string()));
    assert_eq!(ascii_text(&RawTagValue::Ascii(vec![vec![0xff, 0xfe]])), None);
    assert_eq!(ascii_text(&RawTagValue::Ascii(vec![])), None);
    assert_eq!(ascii_text(&RawTagValue::Other), None);
}

#[test]
fn tag_accessors_read_primary_directory() {
    let e = decode_exif(&jpeg(Some(8), None, Some("M"), None)).unwrap();
    assert_eq!(get_short(&e, TagId::Orientation), Some(8));
    assert_eq!(get_ascii(&e, TagId::Model), Some("M".to_string()));
    assert_eq!(get_ascii(&e, TagId::BodySerialNumber), None);
    assert_eq!(get_short(&e, TagId::Model), None);
    assert_eq!(get_ascii(&e, TagId::Orientation), None);
}

#[test]
fn empty_batch_is_refused() {
    assert_eq!(check_inputs(&vec![]), Err(BatchError::EmptyInput));
    assert_eq!(check_inputs(&vec!["a.jpg".to_string()]), Ok(()));
}

#[test]
fn one_corrupt_file_fails_alone() {
    let good = jpeg(Some(1), None, Some("M"), None);
    let inputs = vec![("a.jpg", good.clone()), ("k.jpg", b"corrupt".to_vec()), ("c.jpg", good)];
    let outcomes: Vec<FileOutcome> = inputs
        .iter()
        .map(|(p, b)| match jpeg_to_metadata(p, 1, CREATED, MODIFIED, b) {
            Ok(_) => FileOutcome::Written { input: p.to_string(), output: json_path(p) },
            Err(error) => FileOutcome::Failed { input: p.to_string(), error },
        })
        .collect();
    assert_eq!(failed_inputs(&outcomes), vec!["k.jpg".to_string()]);
    assert_eq!(exit_status(&outcomes), 1);
    let written: Vec<FileOutcome> = vec![outcomes[0].clone(), outcomes[2].clone()];
    assert_eq!(exit_status(&written), 0);
    assert!(failed_inputs(&written).is_empty());
}
