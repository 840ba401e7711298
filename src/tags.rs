//! Typed access to the primary EXIF directory and the normalisation of raw
//! tag values into plain scalars.
use vstd::prelude::*;

verus! {

#[verifier::external_type_specification]
#[verifier::external_body]
pub struct ExExif(exif::Exif);

#[verifier::external_type_specification]
#[verifier::external_body]
pub struct ExExifError(exif::Error);

/// The four tags that the record draws on.
#[derive(Clone, Copy, Debug, PartialEq, Eq, Structural)]
pub enum TagId {
    Orientation,
    DateTimeOriginal,
    Model,
    BodySerialNumber,
}

/// A tag's value as the decoder typed it, for the encodings the record reads.
#[derive(Clone, Debug)]
pub enum RawTagValue {
    /// An ASCII field: EXIF lets it repeat, so it is a list of byte strings.
    Ascii(Vec<Vec<u8>>),
    /// A field of 16-bit unsigned integers.
    Short(Vec<u16>),
    /// Any other encoding.
    Other,
}

/// Whether the decoder accepts `bytes` as an image container with an EXIF segment.
pub uninterp spec fn exif_decodes(bytes: Seq<u8>) -> bool;

/// The directory that the decoder makes of `bytes`, where it accepts them.
pub uninterp spec fn decoded_exif(bytes: Seq<u8>) -> exif::Exif;

/// The fields of a decoded directory's primary image directory, by tag.
pub uninterp spec fn primary_fields(e: exif::Exif) -> Map<TagId, RawTagValue>;

/// The text that `bytes` spells as UTF-8, if they are valid UTF-8.
pub uninterp spec fn utf8_text(bytes: Seq<u8>) -> Option<Seq<char>>;

/// Relies on exif::Reader::read_from_container: decodes the container in
/// `bytes` and its EXIF segment, or fails; success depends on the bytes alone.
#[verifier::external_body]
fn decode_container(bytes: &Vec<u8>) -> (r: Result<exif::Exif, exif::Error>)
    ensures
        r is Ok <==> exif_decodes(bytes@),
        r is Ok ==> r->Ok_0 == decoded_exif(bytes@),
{
    exif::Reader::new().read_from_container(&mut std::io::Cursor::new(bytes.as_slice()))
}

/// Relies on exif::Exif::get_field with exif::In::PRIMARY: the field stored
/// under `tag` in the primary directory, if any, with its value's encoding.
#[verifier::external_body]
fn primary_field(e: &exif::Exif, tag: TagId) -> (r: Option<RawTagValue>)
    ensures
        r is Some <==> primary_fields(*e).contains_key(tag),
        r is Some ==> r->0 == primary_fields(*e)[tag],
{
    let t = match tag {
        TagId::Orientation => exif::Tag::Orientation,
        TagId::DateTimeOriginal => exif::Tag::DateTimeOriginal,
        TagId::Model => exif::Tag::Model,
        TagId::BodySerialNumber => exif::Tag::BodySerialNumber,
    };
    match e.get_field(t, exif::In::PRIMARY).map(|f| &f.value) {
        Some(exif::Value::Ascii(v)) => Some(RawTagValue::Ascii(v.clone())),
        Some(exif::Value::Short(v)) => Some(RawTagValue::Short(v.clone())),
        Some(_) => Some(RawTagValue::Other),
        None => None,
    }
}

/// Relies on String::from_utf8: the text when the bytes are valid UTF-8.
#[verifier::external_body]
fn decode_utf8(bytes: Vec<u8>) -> (r: Option<String>)
    ensures
        r is Some <==> utf8_text(bytes@) is Some,
        r is Some ==> r->0@ == utf8_text(bytes@)->0,
{
    String::from_utf8(bytes).ok()
}

/// The character sequence of an optional string.
pub open spec fn text_view(o: Option<String>) -> Option<Seq<char>> {
    match o {
        Some(s) => Some(s@),
        None => None,
    }
}

/// The first entry of an ASCII field, read as UTF-8; absent for any other
/// encoding, an empty field or bytes that are not UTF-8.
pub open spec fn ascii_spec(raw: RawTagValue) -> Option<Seq<char>> {
    match raw {
        RawTagValue::Ascii(v) => if v@.len() > 0 { utf8_text(v@[0]@) } else { None },
        _ => None,
    }
}

/// The first entry of a SHORT field; absent for any other encoding or an
/// empty field.
pub open spec fn short_spec(raw: RawTagValue) -> Option<u16> {
    match raw {
        RawTagValue::Short(v) => if v@.len() > 0 { Some(v@[0]) } else { None },
        _ => None,
    }
}

/// The raw value under `tag` in the primary directory of `e`.
pub open spec fn field_of(e: exif::Exif, tag: TagId) -> Option<RawTagValue> {
    if primary_fields(e).contains_key(tag) {
        Some(primary_fields(e)[tag])
    } else {
        None
    }
}

/// What `get_ascii` yields for `tag` in `e`.
pub open spec fn ascii_field(e: exif::Exif, tag: TagId) -> Option<Seq<char>> {
    match field_of(e, tag) {
        Some(raw) => ascii_spec(raw),
        None => None,
    }
}

/// What `get_short` yields for `tag` in `e`.
pub open spec fn short_field(e: exif::Exif, tag: TagId) -> Option<u16> {
    match field_of(e, tag) {
        Some(raw) => short_spec(raw),
        None => None,
    }
}

/// The decoding failure of a container.
#[derive(Clone, Copy, Debug, PartialEq, Eq, Structural)]
pub struct DecodeError;

/// Decodes the EXIF segment of the image in `bytes`.
pub fn decode_exif(bytes: &Vec<u8>) -> (r: Result<exif::Exif, DecodeError>)
    ensures
        r is Ok <==> exif_decodes(bytes@),
        r is Ok ==> r->Ok_0 == decoded_exif(bytes@),
{
    match decode_container(bytes) {
        Ok(e) => Ok(e),
        Err(_) => Err(DecodeError),
    }
}

/// The text of an ASCII value: its first entry, when that is valid UTF-8.
pub fn ascii_text(raw: &RawTagValue) -> (r: Option<String>)
    ensures
        text_view(r) == ascii_spec(*raw),
{
    match raw {
        RawTagValue::Ascii(v) => {
            if v.len() > 0 {
                decode_utf8(v[0].clone())
            } else {
                None
            }
        },
        _ => None,
    }
}

/// The integer of a SHORT value: its first entry.
pub fn short_value(raw: &RawTagValue) -> (r: Option<u16>)
    ensures
        r == short_spec(*raw),
{
    match raw {
        RawTagValue::Short(v) => {
            if v.len() > 0 {
                Some(v[0])
            } else {
                None
            }
        },
        _ => None,
    }
}

/// The text of an ASCII tag in the primary directory; absent when the tag is
/// missing, not ASCII, or not UTF-8.
pub fn get_ascii(e: &exif::Exif, tag: TagId) -> (r: Option<String>)
    ensures
        text_view(r) == ascii_field(*e, tag),
{
    match primary_field(e, tag) {
        Some(raw) => ascii_text(&raw),
        None => None,
    }
}

/// The integer of a SHORT tag in the primary directory; absent when the tag
/// is missing or not SHORT.
pub fn get_short(e: &exif::Exif, tag: TagId) -> (r: Option<u16>)
    ensures
        r == short_field(*e, tag),
{
    match primary_field(e, tag) {
        Some(raw) => short_value(&raw),
        None => None,
    }
}

} // verus!
