//! The metadata record of one file: filesystem attributes first, then the
//! EXIF fields that could be read, in a fixed key order.
use crate::date::{normalize_date, normalized_date};
use crate::tags::{
    ascii_field, decode_exif, decoded_exif, exif_decodes, get_ascii, get_short, short_field,
    text_view, TagId,
};
use vstd::prelude::*;
use vstd::string::StringExecFns;

verus! {

/// A value of the record: a string or a non-negative number.
#[derive(Clone, Debug, PartialEq, Eq)]
pub enum FieldValue {
    Text(String),
    Number(u64),
}

/// The mathematical value of a `FieldValue`.
pub enum FieldSpec {
    Text(Seq<char>),
    Number(nat),
}

impl FieldValue {
    pub open spec fn spec(self) -> FieldSpec {
        match self {
            FieldValue::Text(s) => FieldSpec::Text(s@),
            FieldValue::Number(n) => FieldSpec::Number(n as nat),
        }
    }
}

/// One record: its entries in order, each a key and a value.
#[derive(Clone, Debug)]
pub struct MetadataRecord {
    pub entries: Vec<(String, FieldValue)>,
}

pub open spec fn entry_spec(e: (String, FieldValue)) -> (Seq<char>, FieldSpec) {
    (e.0@, e.1.spec())
}

impl MetadataRecord {
    pub open spec fn view(self) -> Seq<(Seq<char>, FieldSpec)> {
        self.entries@.map_values(|e: (String, FieldValue)| entry_spec(e))
    }
}

/// A point in time as seconds and nanoseconds since the Unix epoch.
#[derive(Clone, Copy, Debug, PartialEq, Eq, Structural)]
pub struct Timestamp {
    pub secs: i64,
    pub nanos: u32,
}

/// The filesystem attributes of one file.
#[derive(Clone, Debug)]
pub struct FileStat {
    pub filename: String,
    pub size: u64,
    pub created_time: String,
    pub modified_time: String,
}

/// The EXIF fields of one file, each absent where it could not be read.
#[derive(Clone, Debug)]
pub struct ExifFields {
    pub orientation: Option<u16>,
    pub capture_time: Option<String>,
    pub camera_model: Option<String>,
    pub camera_serial: Option<String>,
    /// The capture timestamp as stored, where it was present but did not parse.
    pub unparsed_capture_time: Option<String>,
}

/// Why one file yields no record.
#[derive(Clone, Copy, Debug, PartialEq, Eq, Structural)]
pub enum MetaError {
    /// The path has no final component to name the file by.
    InvalidPath,
    /// The file's attributes or contents could not be read, or a timestamp
    /// lies outside the representable range.
    Io,
    /// The contents are no image with a decodable EXIF segment.
    Decode,
    /// The record could not be written.
    Write,
}

/// The final component of path `p`, if it has one.
pub uninterp spec fn path_file_name(p: Seq<char>) -> Option<Seq<char>>;

/// The path `p` with its extension replaced by `json`.
pub uninterp spec fn json_sibling(p: Seq<char>) -> Seq<char>;

/// The RFC 3339 text in UTC with milliseconds of the given instant, if it
/// lies in the representable range.
pub uninterp spec fn utc_millis_text(secs: int, nanos: int) -> Option<Seq<char>>;

/// Relies on std::path::Path::file_name: the last component of the path,
/// None for an empty path, a root or a path that ends in `..`.
#[verifier::external_body]
fn file_name_of(p: &str) -> (r: Option<String>)
    ensures
        text_view(r) == path_file_name(p@),
        p@.len() == 0 ==> r is None,
{
    std::path::Path::new(p).file_name().map(|f| f.to_string_lossy().to_string())
}

/// Relies on std::path::PathBuf::set_extension: the same parent and stem,
/// with the extension `json`.
#[verifier::external_body]
pub fn json_path(p: &str) -> (r: String)
    ensures
        r@ == json_sibling(p@),
{
    let mut b = std::path::PathBuf::from(p);
    b.set_extension("json");
    b.to_string_lossy().to_string()
}

/// Relies on chrono::DateTime::<Utc>::from_timestamp and
/// to_rfc3339_opts(SecondsFormat::Millis, true): the instant in UTC as
/// `YYYY-MM-DDTHH:MM:SS.mmmZ`, None outside chrono's range.
#[verifier::external_body]
fn utc_millis(t: Timestamp) -> (r: Option<String>)
    ensures
        text_view(r) == utc_millis_text(t.secs as int, t.nanos as int),
{
    chrono::DateTime::<chrono::Utc>::from_timestamp(t.secs, t.nanos)
        .map(|d| d.to_rfc3339_opts(chrono::SecondsFormat::Millis, true))
}

pub open spec fn key_filename() -> Seq<char> { "filename"@ }
pub open spec fn key_size() -> Seq<char> { "size"@ }
pub open spec fn key_created() -> Seq<char> { "created_time"@ }
pub open spec fn key_modified() -> Seq<char> { "modified_time"@ }
pub open spec fn key_orientation() -> Seq<char> { "orientation"@ }
pub open spec fn key_capture() -> Seq<char> { "capture_time"@ }
pub open spec fn key_model() -> Seq<char> { "camera_model"@ }
pub open spec fn key_serial() -> Seq<char> { "camera_serial"@ }

/// The four filesystem entries, in order.
pub open spec fn stat_entries(s: FileStat) -> Seq<(Seq<char>, FieldSpec)> {
    seq![
        (key_filename(), FieldSpec::Text(s.filename@)),
        (key_size(), FieldSpec::Number(s.size as nat)),
        (key_created(), FieldSpec::Text(s.created_time@)),
        (key_modified(), FieldSpec::Text(s.modified_time@)),
    ]
}

pub open spec fn opt_text_entry(k: Seq<char>, v: Option<Seq<char>>) -> Seq<(Seq<char>, FieldSpec)> {
    match v {
        Some(t) => seq![(k, FieldSpec::Text(t))],
        None => seq![],
    }
}

pub open spec fn opt_number_entry(k: Seq<char>, v: Option<u16>) -> Seq<(Seq<char>, FieldSpec)> {
    match v {
        Some(n) => seq![(k, FieldSpec::Number(n as nat))],
        None => seq![],
    }
}

/// The record of a file with attributes `s` and EXIF fields `x`.
pub open spec fn record_spec(s: FileStat, x: ExifFields) -> Seq<(Seq<char>, FieldSpec)> {
    stat_entries(s)
        + opt_number_entry(key_orientation(), x.orientation)
        + opt_text_entry(key_capture(), text_view(x.capture_time))
        + opt_text_entry(key_model(), text_view(x.camera_model))
        + opt_text_entry(key_serial(), text_view(x.camera_serial))
}

pub open spec fn keys(r: Seq<(Seq<char>, FieldSpec)>) -> Seq<Seq<char>> {
    r.map_values(|e: (Seq<char>, FieldSpec)| e.0)
}

/// Merges the filesystem attributes with the EXIF fields that are present.
pub fn assemble(s: &FileStat, x: &ExifFields) -> (r: MetadataRecord)
    ensures
        r@ == record_spec(*s, *x),
{
    let mut v: Vec<(String, FieldValue)> = Vec::new();
    v.push((String::from_str("filename"), FieldValue::Text(s.filename.clone())));
    v.push((String::from_str("size"), FieldValue::Number(s.size)));
    v.push((String::from_str("created_time"), FieldValue::Text(s.created_time.clone())));
    v.push((String::from_str("modified_time"), FieldValue::Text(s.modified_time.clone())));
    let r0 = MetadataRecord { entries: v };
    assert(r0@ =~= stat_entries(*s));
    let mut v = r0.entries;
    let ghost acc = stat_entries(*s);
    if let Some(n) = x.orientation {
        v.push((String::from_str("orientation"), FieldValue::Number(n as u64)));
    }
    proof { acc = acc + opt_number_entry(key_orientation(), x.orientation); }
    assert(v@.map_values(|e: (String, FieldValue)| entry_spec(e)) =~= acc);
    if let Some(t) = &x.capture_time {
        v.push((String::from_str("capture_time"), FieldValue::Text(t.clone())));
    }
    proof { acc = acc + opt_text_entry(key_capture(), text_view(x.capture_time)); }
    assert(v@.map_values(|e: (String, FieldValue)| entry_spec(e)) =~= acc);
    if let Some(t) = &x.camera_model {
        v.push((String::from_str("camera_model"), FieldValue::Text(t.clone())));
    }
    proof { acc = acc + opt_text_entry(key_model(), text_view(x.camera_model)); }
    assert(v@.map_values(|e: (String, FieldValue)| entry_spec(e)) =~= acc);
    if let Some(t) = &x.camera_serial {
        v.push((String::from_str("camera_serial"), FieldValue::Text(t.clone())));
    }
    proof { acc = acc + opt_text_entry(key_serial(), text_view(x.camera_serial)); }
    let r = MetadataRecord { entries: v };
    assert(r@ =~= acc);
    r
}


/// The capture time that `e` yields: its timestamp tag, normalised.
pub open spec fn capture_spec(e: exif::Exif) -> Option<Seq<char>> {
    match ascii_field(e, TagId::DateTimeOriginal) {
        Some(t) => normalized_date(t),
        None => None,
    }
}

/// The timestamp tag of `e` where it is present but does not normalise.
pub open spec fn unparsed_spec(e: exif::Exif) -> Option<Seq<char>> {
    match ascii_field(e, TagId::DateTimeOriginal) {
        Some(t) => if normalized_date(t) is None { Some(t) } else { None },
        None => None,
    }
}

/// `x` holds exactly what the primary directory of `e` yields for each tag.
pub open spec fn fields_of(e: exif::Exif, x: ExifFields) -> bool {
    &&& x.orientation == short_field(e, TagId::Orientation)
    &&& text_view(x.capture_time) == capture_spec(e)
    &&& text_view(x.camera_model) == ascii_field(e, TagId::Model)
    &&& text_view(x.camera_serial) == ascii_field(e, TagId::BodySerialNumber)
    &&& text_view(x.unparsed_capture_time) == unparsed_spec(e)
}

/// The EXIF entries of the record of a file whose directory is `e`.
pub open spec fn exif_entries(e: exif::Exif) -> Seq<(Seq<char>, FieldSpec)> {
    opt_number_entry(key_orientation(), short_field(e, TagId::Orientation))
        + opt_text_entry(key_capture(), capture_spec(e))
        + opt_text_entry(key_model(), ascii_field(e, TagId::Model))
        + opt_text_entry(key_serial(), ascii_field(e, TagId::BodySerialNumber))
}

/// Reads and normalises the four EXIF fields of a decoded directory; each is
/// absent, never an error, where it cannot be read.
pub fn exif_fields(e: &exif::Exif) -> (r: ExifFields)
    ensures
        fields_of(*e, r),
{
    let orientation = get_short(e, TagId::Orientation);
    let raw_date = get_ascii(e, TagId::DateTimeOriginal);
    let (capture_time, unparsed_capture_time) = match raw_date {
        Some(t) => {
            let c = normalize_date(t.as_str());
            if c.is_some() {
                (c, None)
            } else {
                (None, Some(t))
            }
        },
        None => (None, None),
    };
    let camera_model = get_ascii(e, TagId::Model);
    let camera_serial = get_ascii(e, TagId::BodySerialNumber);
    ExifFields { orientation, capture_time, camera_model, camera_serial, unparsed_capture_time }
}

/// The error, if any, of probing a file at path `p` with the given times.
pub open spec fn stat_error(p: Seq<char>, created: Timestamp, modified: Timestamp) -> Option<MetaError> {
    if path_file_name(p) is None {
        Some(MetaError::InvalidPath)
    } else if utc_millis_text(created.secs as int, created.nanos as int) is None
        || utc_millis_text(modified.secs as int, modified.nanos as int) is None {
        Some(MetaError::Io)
    } else {
        None
    }
}

/// `s` holds the attributes of the file at `p` with the given size and times.
pub open spec fn stat_of(s: FileStat, p: Seq<char>, size: u64, created: Timestamp, modified: Timestamp) -> bool {
    &&& Some(s.filename@) == path_file_name(p)
    &&& s.size == size
    &&& Some(s.created_time@) == utc_millis_text(created.secs as int, created.nanos as int)
    &&& Some(s.modified_time@) == utc_millis_text(modified.secs as int, modified.nanos as int)
}

/// Builds the filesystem attributes of the file at `path` from its size and
/// its creation and modification times.
pub fn file_stat(path: &str, size: u64, created: Timestamp, modified: Timestamp) -> (r: Result<FileStat, MetaError>)
    ensures
        r is Err <==> stat_error(path@, created, modified) is Some,
        r is Err ==> Some(r->Err_0) == stat_error(path@, created, modified),
        r is Ok ==> stat_of(r->Ok_0, path@, size, created, modified),
{
    let filename = match file_name_of(path) {
        Some(f) => f,
        None => return Err(MetaError::InvalidPath),
    };
    let created_time = match utc_millis(created) {
        Some(t) => t,
        None => return Err(MetaError::Io),
    };
    let modified_time = match utc_millis(modified) {
        Some(t) => t,
        None => return Err(MetaError::Io),
    };
    Ok(FileStat { filename, size, created_time, modified_time })
}

/// The record of a file with attributes `s` whose directory is `e`, and the
/// capture timestamp that did not parse, if any.
pub fn metadata_record(s: &FileStat, e: &exif::Exif) -> (r: (MetadataRecord, Option<String>))
    ensures
        r.0@ == stat_entries(*s) + exif_entries(*e),
        text_view(r.1) == unparsed_spec(*e),
{
    let x = exif_fields(e);
    let rec = assemble(s, &x);
    assert(record_spec(*s, x) =~= stat_entries(*s) + exif_entries(*e));
    (rec, x.unparsed_capture_time)
}

/// What the pipeline makes of a file at `p` with the given size, times and
/// contents: its record, or the first step's error.
pub open spec fn metadata_spec(
    p: Seq<char>,
    size: u64,
    created: Timestamp,
    modified: Timestamp,
    bytes: Seq<u8>,
) -> Result<Seq<(Seq<char>, FieldSpec)>, MetaError> {
    if stat_error(p, created, modified) is Some {
        Err(stat_error(p, created, modified)->0)
    } else if !exif_decodes(bytes) {
        Err(MetaError::Decode)
    } else {
        Ok(seq![
            (key_filename(), FieldSpec::Text(path_file_name(p)->0)),
            (key_size(), FieldSpec::Number(size as nat)),
            (key_created(), FieldSpec::Text(utc_millis_text(created.secs as int, created.nanos as int)->0)),
            (key_modified(), FieldSpec::Text(utc_millis_text(modified.secs as int, modified.nanos as int)->0)),
        ] + exif_entries(decoded_exif(bytes)))
    }
}

/// `r` is the outcome `m` describes.
pub open spec fn outcome_is(r: Result<(MetadataRecord, Option<String>), MetaError>, m: Result<Seq<(Seq<char>, FieldSpec)>, MetaError>) -> bool {
    match (r, m) {
        (Ok(v), Ok(s)) => v.0@ == s,
        (Err(a), Err(b)) => a == b,
        _ => false,
    }
}

/// Builds the record of the file at `path` from its size, times and
/// contents. Fails where the path has no file name, a time is out of range,
/// or the contents hold no decodable EXIF segment; otherwise the record has
/// the four filesystem entries followed by each EXIF entry that could be
/// read. The second part of the result is the capture timestamp as stored
/// where it did not parse.
pub fn jpeg_to_metadata(
    path: &str,
    size: u64,
    created: Timestamp,
    modified: Timestamp,
    bytes: &Vec<u8>,
) -> (r: Result<(MetadataRecord, Option<String>), MetaError>)
    ensures
        outcome_is(r, metadata_spec(path@, size, created, modified, bytes@)),
        r is Ok ==> text_view(r->Ok_0.1) == unparsed_spec(decoded_exif(bytes@)),
{
    let s = match file_stat(path, size, created, modified) {
        Ok(s) => s,
        Err(e) => return Err(e),
    };
    let e = match decode_exif(bytes) {
        Ok(e) => e,
        Err(_) => return Err(MetaError::Decode),
    };
    let r = metadata_record(&s, &e);
    assert(stat_entries(s) =~= seq![
        (key_filename(), FieldSpec::Text(path_file_name(path@)->0)),
        (key_size(), FieldSpec::Number(size as nat)),
        (key_created(), FieldSpec::Text(utc_millis_text(created.secs as int, created.nanos as int)->0)),
        (key_modified(), FieldSpec::Text(utc_millis_text(modified.secs as int, modified.nanos as int)->0)),
    ]);
    Ok(r)
}


/// The eight keys of a record whose four EXIF fields are all present.
pub open spec fn all_keys() -> Seq<Seq<char>> {
    seq![
        key_filename(),
        key_size(),
        key_created(),
        key_modified(),
        key_orientation(),
        key_capture(),
        key_model(),
        key_serial(),
    ]
}

/// Where all four EXIF fields are present, the record has exactly the eight
/// documented keys in order: orientation and size numbers, the rest text.
pub proof fn lemma_full_record(s: FileStat, x: ExifFields)
    requires
        x.orientation is Some,
        x.capture_time is Some,
        x.camera_model is Some,
        x.camera_serial is Some,
    ensures
        record_spec(s, x).len() == 8,
        keys(record_spec(s, x)) == all_keys(),
        forall|i: int| 0 <= i < 8 ==> (#[trigger] record_spec(s, x)[i].1 is Number <==> (i == 1 || i == 4)),
{
    let r = record_spec(s, x);
    assert(keys(r) =~= all_keys());
}

proof fn lemma_keys_distinct()
    ensures
        forall|i: int, j: int| 0 <= i < 8 && 0 <= j < 8 && i != j ==> all_keys()[i] != all_keys()[j],
{
    reveal_strlit("filename");
    reveal_strlit("size");
    reveal_strlit("created_time");
    reveal_strlit("modified_time");
    reveal_strlit("orientation");
    reveal_strlit("capture_time");
    reveal_strlit("camera_model");
    reveal_strlit("camera_serial");
    let k = all_keys();
    assert(k[0].len() == 8 && k[1].len() == 4 && k[2].len() == 12 && k[3].len() == 13);
    assert(k[4].len() == 11 && k[5].len() == 12 && k[6].len() == 12 && k[7].len() == 13);
    assert(k[2][1] != k[5][1]);
    assert(k[2][1] != k[6][1]);
    assert(k[5][2] != k[6][2]);
    assert(k[3][0] != k[7][0]);
    assert forall|i: int, j: int| 0 <= i < 8 && 0 <= j < 8 && i != j implies k[i] != k[j] by {
        if (i == 2 && j == 5) || (i == 5 && j == 2) {
            assert(k[i][1] != k[j][1]);
        } else if (i == 2 && j == 6) || (i == 6 && j == 2) {
            assert(k[i][1] != k[j][1]);
        } else if (i == 5 && j == 6) || (i == 6 && j == 5) {
            assert(k[i][2] != k[j][2]);
        } else if (i == 3 && j == 7) || (i == 7 && j == 3) {
            assert(k[i][0] != k[j][0]);
        } else {
            assert(k[i].len() != k[j].len());
        }
    }
}

/// The record always begins with the four filesystem entries unchanged, and
/// holds each EXIF key exactly when that field is present.
pub proof fn lemma_present_keys(s: FileStat, x: ExifFields)
    ensures
        record_spec(s, x).subrange(0, 4) == stat_entries(s),
        keys(record_spec(s, x)).contains(key_orientation()) <==> x.orientation is Some,
        keys(record_spec(s, x)).contains(key_capture()) <==> x.capture_time is Some,
        keys(record_spec(s, x)).contains(key_model()) <==> x.camera_model is Some,
        keys(record_spec(s, x)).contains(key_serial()) <==> x.camera_serial is Some,
{
    lemma_keys_distinct();
    let r = record_spec(s, x);
    let k = keys(r);
    let a = all_keys();
    assert(r.subrange(0, 4) =~= stat_entries(s));
    // every key of the record is one of the eight, at or after its own slot
    assert forall|i: int| 0 <= i < k.len() implies exists|j: int| 0 <= j < 8 && #[trigger] k[i] == a[j] && (j < 4 ==> j == i) by {
        if i < 4 {
            assert(k[i] == a[i]);
        } else {
            assert(k[i] == a[4] || k[i] == a[5] || k[i] == a[6] || k[i] == a[7]);
        }
    }
    let o = opt_number_entry(key_orientation(), x.orientation);
    let c = opt_text_entry(key_capture(), text_view(x.capture_time));
    let m = opt_text_entry(key_model(), text_view(x.camera_model));
    if x.orientation is Some {
        assert(k[4] == key_orientation());
    } else {
        assert forall|i: int| 0 <= i < k.len() implies k[i] != key_orientation() by {
            if i >= 4 {
                assert(k[i] == a[5] || k[i] == a[6] || k[i] == a[7]);
            }
        }
    }
    if x.capture_time is Some {
        assert(k[4 + o.len() as int] == key_capture());
    } else {
        assert forall|i: int| 0 <= i < k.len() implies k[i] != key_capture() by {
            if i >= 4 {
                assert(k[i] == a[4] || k[i] == a[6] || k[i] == a[7]);
            }
        }
    }
    if x.camera_model is Some {
        assert(k[4 + o.len() + c.len() as int] == key_model());
    } else {
        assert forall|i: int| 0 <= i < k.len() implies k[i] != key_model() by {
            if i >= 4 {
                assert(k[i] == a[4] || k[i] == a[5] || k[i] == a[7]);
            }
        }
    }
    if x.camera_serial is Some {
        assert(k[4 + o.len() + c.len() + m.len() as int] == key_serial());
    } else {
        assert forall|i: int| 0 <= i < k.len() implies k[i] != key_serial() by {
            if i >= 4 {
                assert(k[i] == a[4] || k[i] == a[5] || k[i] == a[6]);
            }
        }
    }
}

/// Two runs of the pipeline on a file whose path, size, times and contents
/// are unchanged give the same outcome; a record's size and times agree
/// entry for entry.
pub proof fn lemma_rerun_same_record(
    r1: Result<(MetadataRecord, Option<String>), MetaError>,
    r2: Result<(MetadataRecord, Option<String>), MetaError>,
    p: Seq<char>,
    size: u64,
    created: Timestamp,
    modified: Timestamp,
    bytes: Seq<u8>,
)
    requires
        outcome_is(r1, metadata_spec(p, size, created, modified, bytes)),
        outcome_is(r2, metadata_spec(p, size, created, modified, bytes)),
    ensures
        r1 is Ok <==> r2 is Ok,
        r1 is Ok ==> r1->Ok_0.0@ == r2->Ok_0.0@,
        r1 is Err ==> r1->Err_0 == r2->Err_0,
{
}

} // verus!
