//! A categorised listing of the EXIF tags an image carries, as JSON.
//!
//! `kamadak-exif` finds and decodes the EXIF block of a JPEG, PNG, TIFF,
//! HEIF or WebP file. Each field becomes an entry with its tag number, its
//! tag name, a display category (Location, Device, Timestamps, Software or
//! Other) and its displayed value; `serde_json` renders the entries as a
//! JSON array.
use vstd::prelude::*;

use crate::jpeg::is_jpeg_without_exif_segment;
use crate::png::is_png_without_exif_chunk;

verus! {

#[verifier::external_type_specification]
#[verifier::external_body]
pub struct ExExif(exif::Exif);

/// The image file directory a tag number belongs to (`exif::Context`).
#[derive(Debug, Clone, Copy, PartialEq, Eq, Structural)]
pub enum TagContext {
    /// TIFF attributes (0th and 1st IFD).
    Tiff,
    /// Exif attributes (Exif IFD).
    Exif,
    /// GPS attributes (GPS IFD).
    Gps,
    /// Interoperability attributes.
    Interop,
    /// A context added to `exif::Context` after this library was written.
    Other,
}

/// An EXIF tag: its context and number (`exif::Tag`).
#[derive(Debug, Clone, Copy, PartialEq, Eq, Structural)]
pub struct ExifTag {
    pub context: TagContext,
    pub number: u16,
}

/// One decoded EXIF field.
#[derive(Debug)]
pub struct ExifField {
    pub tag: ExifTag,
    /// The tag's name as `exif::Tag` displays it.
    pub name: String,
    /// The value with its unit as `exif::Field::display_value` shows it.
    pub value: String,
}

/// Why no EXIF fields were read.
#[derive(Debug)]
pub enum ExifReadError {
    /// The image holds no EXIF block.
    NotFound,
    /// Reading failed; the reader's own description.
    Failed(String),
}

/// The display category of a tag.
#[derive(Debug, Clone, Copy, PartialEq, Eq, Structural)]
pub enum TagCategory {
    Location,
    Device,
    Timestamps,
    Software,
    Other,
}

/// One entry of the JSON listing.
#[derive(Debug)]
pub struct TagEntry {
    pub id: u16,
    pub name: String,
    pub category: String,
    pub value: String,
}

/// What `exif::Reader::read_from_container` finds in the given bytes: the
/// fields it decodes, or why there are none.
pub uninterp spec fn exif_read_from_container(data: Seq<u8>) -> Result<Seq<ExifField>, ExifReadError>;

/// The fields that an `exif::Exif` holds, in order.
pub uninterp spec fn exif_fields(exif: exif::Exif) -> Seq<ExifField>;

/// What `serde_json::to_string` makes of the entries (id, name, category,
/// value), each rendered as an object with the keys in that order.
pub uninterp spec fn tag_entries_json(entries: Seq<(u16, Seq<char>, Seq<char>, Seq<char>)>) -> Seq<char>;

/// Bytes that may pass `read_from_container`'s format check: a TIFF, JPEG,
/// PNG or WebP signature, or the box type `ftyp` anywhere in the first 4096
/// bytes. The reader's own HEIF test walks the boxes and is stricter, so
/// this is a superset of what it recognises: bytes outside it are surely
/// refused as an unknown format.
pub open spec fn exif_container_recognised(data: Seq<u8>) -> bool {
    let head = data.take(if data.len() < 4096 { data.len() as int } else { 4096 });
    ||| data.len() >= 4 && data.take(4) == seq![0x4Du8, 0x4D, 0x00, 0x2A]
    ||| data.len() >= 4 && data.take(4) == seq![0x49u8, 0x49, 0x2A, 0x00]
    ||| data.len() >= 2 && data.take(2) == seq![0xFFu8, 0xD8]
    ||| data.len() >= 8 && data.take(8) == seq![0x89u8, 0x50, 0x4E, 0x47, 0x0D, 0x0A, 0x1A, 0x0A]
    ||| data.len() >= 12 && data.take(4) == seq![0x52u8, 0x49, 0x46, 0x46] && data.subrange(8, 12)
        == seq![0x57u8, 0x45, 0x42, 0x50]
    ||| exists|i: int|
        0 <= i && i + 4 <= head.len() && #[trigger] head.subrange(i, i + 4) == seq![
            0x66u8,
            0x74,
            0x79,
            0x70,
        ]
}

/// The GPS date and time fields: GPSTimeStamp and GPSDateStamp.
pub open spec fn is_gps_date_time_tag(tag: ExifTag) -> bool {
    tag.context == TagContext::Gps && (tag.number == 0x7 || tag.number == 0x1d)
}

/// Every other tag of the GPS directory (the GPS* tags).
pub open spec fn is_location_tag(tag: ExifTag) -> bool {
    tag.context == TagContext::Gps && !is_gps_date_time_tag(tag)
}

/// Make and Model (TIFF), BodySerialNumber, LensSpecification, LensMake
/// and LensModel (Exif).
pub open spec fn is_device_tag(tag: ExifTag) -> bool {
    ||| tag.context == TagContext::Tiff && (tag.number == 0x10f || tag.number == 0x110)
    ||| tag.context == TagContext::Exif && 0xa431 <= tag.number <= 0xa434
}

/// DateTime, DateTimeOriginal, DateTimeDigitized and the GPS date and time
/// fields.
pub open spec fn is_timestamp_tag(tag: ExifTag) -> bool {
    ||| tag.context == TagContext::Tiff && tag.number == 0x132
    ||| tag.context == TagContext::Exif && (tag.number == 0x9003 || tag.number == 0x9004)
    ||| is_gps_date_time_tag(tag)
}

/// Software, ProcessingSoftware and HostComputer (TIFF).
pub open spec fn is_software_tag(tag: ExifTag) -> bool {
    tag.context == TagContext::Tiff && (tag.number == 0x131 || tag.number == 0x0b || tag.number
        == 0x13c)
}

/// The category a tag is listed under.
pub open spec fn tag_category(tag: ExifTag) -> TagCategory {
    if is_timestamp_tag(tag) {
        TagCategory::Timestamps
    } else if is_location_tag(tag) {
        TagCategory::Location
    } else if is_device_tag(tag) {
        TagCategory::Device
    } else if is_software_tag(tag) {
        TagCategory::Software
    } else {
        TagCategory::Other
    }
}

/// The name of a category as it appears in the listing.
pub open spec fn category_label(category: TagCategory) -> Seq<char> {
    match category {
        TagCategory::Location => "Location"@,
        TagCategory::Device => "Device"@,
        TagCategory::Timestamps => "Timestamps"@,
        TagCategory::Software => "Software"@,
        TagCategory::Other => "Other"@,
    }
}

/// The name of the category a tag is listed under.
pub fn categorise(tag: &ExifTag) -> (label: &'static str)
    ensures
        label@ == category_label(tag_category(*tag)),
{
    match (tag.context, tag.number) {
        (TagContext::Gps, 0x7) | (TagContext::Gps, 0x1d) => "Timestamps",
        (TagContext::Gps, _) => "Location",
        (TagContext::Tiff, 0x10f) | (TagContext::Tiff, 0x110) => "Device",
        (TagContext::Exif, 0xa431..=0xa434) => "Device",
        (TagContext::Tiff, 0x132) | (TagContext::Exif, 0x9003) | (TagContext::Exif, 0x9004) => "Timestamps",
        (TagContext::Tiff, 0x131) | (TagContext::Tiff, 0x0b) | (TagContext::Tiff, 0x13c) => "Software",
        _ => "Other",
    }
}

/// The entry listed for a field, as plain values: tag number, tag name,
/// category name and displayed value.
pub open spec fn expected_tag_entry(field: ExifField) -> (u16, Seq<char>, Seq<char>, Seq<char>) {
    (field.tag.number, field.name@, category_label(tag_category(field.tag)), field.value@)
}

/// The entries listed for the fields, in order.
pub open spec fn expected_tag_entries(fields: Seq<ExifField>) -> Seq<(u16, Seq<char>, Seq<char>, Seq<char>)> {
    fields.map_values(|field: ExifField| expected_tag_entry(field))
}

/// An entry as plain values.
pub open spec fn tag_entry_view(entry: TagEntry) -> (u16, Seq<char>, Seq<char>, Seq<char>) {
    (entry.id, entry.name@, entry.category@, entry.value@)
}

/// The entries as plain values, in order.
pub open spec fn tag_entry_views(entries: Seq<TagEntry>) -> Seq<(u16, Seq<char>, Seq<char>, Seq<char>)> {
    entries.map_values(|entry: TagEntry| tag_entry_view(entry))
}

/// Reads the EXIF block of an image with
/// `exif::Reader::read_from_container` on an in-memory cursor.
///
/// Claims: the outcome is the one named by `exif_read_from_container`;
/// `exif::Error::NotFound` becomes `NotFound`, every other error `Failed`
/// with the error's displayed text; bytes of no container it recognises
/// give `InvalidFormat("Unknown image format")`, and a PNG whose chunks
/// are all read to the end without meeting an eXIf chunk gives
/// `NotFound`, as does a JPEG whose segments the reader walks to the
/// end-of-image marker after the scan without meeting an EXIF segment.
#[verifier::external_body]
fn read_exif(data: &[u8]) -> (result: Result<exif::Exif, ExifReadError>)
    ensures
        match result {
            Ok(exif) => exif_read_from_container(data@) == Ok::<Seq<ExifField>, ExifReadError>(
                exif_fields(exif),
            ),
            Err(error) => exif_read_from_container(data@) == Err::<Seq<ExifField>, ExifReadError>(
                error,
            ),
        },
        !exif_container_recognised(data@) ==> match result {
            Err(ExifReadError::Failed(message)) => message@ == "Unknown image format"@,
            _ => false,
        },
        is_png_without_exif_chunk(data@) ==> match result {
            Err(ExifReadError::NotFound) => true,
            _ => false,
        },
        is_jpeg_without_exif_segment(data@) ==> match result {
            Err(ExifReadError::NotFound) => true,
            _ => false,
        },
{
    let mut cursor = std::io::Cursor::new(data);
    match exif::Reader::new().read_from_container(&mut cursor) {
        Ok(exif) => Ok(exif),
        Err(exif::Error::NotFound(_)) => Err(ExifReadError::NotFound),
        Err(error) => Err(ExifReadError::Failed(error.to_string())),
    }
}

/// The fields of an `exif::Exif` (`Exif::fields`), each with its tag, the
/// tag's displayed name and its value displayed with its unit.
#[verifier::external_body]
fn exif_field_list(exif: &exif::Exif) -> (fields: Vec<ExifField>)
    ensures
        fields@ == exif_fields(*exif),
{
    exif.fields().map(|field| ExifField {
        tag: ExifTag {
            context: match field.tag.context() {
                exif::Context::Tiff => TagContext::Tiff,
                exif::Context::Exif => TagContext::Exif,
                exif::Context::Gps => TagContext::Gps,
                exif::Context::Interop => TagContext::Interop,
                _ => TagContext::Other,
            },
            number: field.tag.number(),
        },
        name: field.tag.to_string(),
        value: field.display_value().with_unit(exif).to_string(),
    }).collect()
}

/// Renders the entries as a JSON array of objects with `serde_json`
/// (`serde_json::to_string` on `serde_json::Value`s), an error becoming its
/// displayed text. Claims rendering succeeds: serde_json fails only for a
/// `Serialize` impl that fails or a map with non-string keys, and these
/// values are numbers, strings and string-keyed objects written to memory.
#[verifier::external_body]
fn tag_entries_to_json(entries: &Vec<TagEntry>) -> (json: Result<String, String>)
    ensures
        match json {
            Ok(text) => text@ == tag_entries_json(tag_entry_views(entries@)),
            Err(_) => false,
        },
{
    let rows: Vec<serde_json::Value> = entries.iter().map(|entry| {
        let mut row = serde_json::Map::new();
        row.insert("id".to_string(), entry.id.into());
        row.insert("name".to_string(), entry.name.clone().into());
        row.insert("category".to_string(), entry.category.clone().into());
        row.insert("value".to_string(), entry.value.clone().into());
        serde_json::Value::Object(row)
    }).collect();
    serde_json::to_string(&rows).map_err(|error| error.to_string())
}

/// The listing entries for the fields, in order.
pub fn tag_entries(fields: &Vec<ExifField>) -> (entries: Vec<TagEntry>)
    ensures
        tag_entry_views(entries@) == expected_tag_entries(fields@),
        entries@.len() == fields@.len(),
        forall|i: int|
            0 <= i < fields@.len() ==> (#[trigger] entries@[i]).id == fields@[i].tag.number
                && entries@[i].name@ == fields@[i].name@ && entries@[i].value@ == fields@[i].value@
                && entries@[i].category@ == category_label(tag_category(fields@[i].tag)),
{
    let mut entries: Vec<TagEntry> = Vec::new();
    let mut i: usize = 0;
    while i < fields.len()
        invariant
            0 <= i <= fields@.len(),
            entries@.len() == i,
            forall|j: int| 0 <= j < i ==> tag_entry_view(#[trigger] entries@[j]) == expected_tag_entry(
                fields@[j],
            ),
        decreases fields@.len() - i,
    {
        let field = &fields[i];
        let category = String::from_str(categorise(&field.tag));
        let entry = TagEntry {
            id: field.tag.number,
            name: field.name.clone(),
            category,
            value: field.value.clone(),
        };
        entries.push(entry);
        i = i + 1;
    }
    assert(tag_entry_views(entries@) =~= expected_tag_entries(fields@));
    assert forall|i: int| 0 <= i < fields@.len() implies (#[trigger] entries@[i]).id
        == fields@[i].tag.number && entries@[i].name@ == fields@[i].name@ && entries@[i].value@
        == fields@[i].value@ && entries@[i].category@ == category_label(tag_category(fields@[i].tag)) by {
        assert(tag_entry_view(entries@[i]) == expected_tag_entry(fields@[i]));
    }
    entries
}

/// What listing the tags of the given bytes gives.
pub open spec fn exif_tags_outcome(data: Seq<u8>) -> Result<Seq<char>, Seq<char>> {
    match exif_read_from_container(data) {
        Err(ExifReadError::NotFound) => Ok("[]"@),
        Err(ExifReadError::Failed(message)) => Err("EXIF read error: "@ + message@),
        Ok(fields) => Ok(tag_entries_json(expected_tag_entries(fields))),
    }
}

/// A result of text or a message, as plain values.
pub open spec fn text_result_view(result: Result<String, String>) -> Result<Seq<char>, Seq<char>> {
    match result {
        Ok(text) => Ok(text@),
        Err(message) => Err(message@),
    }
}

/// Lists the EXIF tags of an image as a JSON array of objects with `id`,
/// `name`, `category` and `value`; an image without EXIF data gives `[]`,
/// and any failure to read the EXIF data, unrecognised bytes included, is
/// reported as an `EXIF read error`.
pub fn read_exif_tags_inner(data: &[u8]) -> (result: Result<String, String>)
    ensures
        text_result_view(result) == exif_tags_outcome(data@),
        result matches Err(text) ==> exists|message: Seq<char>| text@ == "EXIF read error: "@ + message,
        !exif_container_recognised(data@) ==> (result matches Err(text) && text@
            == "EXIF read error: "@ + "Unknown image format"@),
        is_png_without_exif_chunk(data@) ==> (result matches Ok(text) && text@ == "[]"@),
        is_jpeg_without_exif_segment(data@) ==> (result matches Ok(text) && text@ == "[]"@),
{
    match read_exif(data) {
        Err(ExifReadError::NotFound) => Ok(String::from_str("[]")),
        Err(ExifReadError::Failed(message)) => Err(String::from_str("EXIF read error: ").concat(&message)),
        Ok(exif) => {
            let fields = exif_field_list(&exif);
            let entries = tag_entries(&fields);
            match tag_entries_to_json(&entries) {
                Ok(json) => Ok(json),
                Err(message) => Err(String::from_str("JSON serialise error: ").concat(&message)),
            }
        },
    }
}

/// Law: the category of every tag, by directory and tag number. Every GPS
/// tag but GPSTimeStamp (0x7) and GPSDateStamp (0x1d) is a location; those
/// two, DateTime (TIFF 0x132), DateTimeOriginal (Exif 0x9003) and
/// DateTimeDigitized (Exif 0x9004) are timestamps; Make and Model (TIFF
/// 0x10f, 0x110) and the body serial number and lens fields (Exif 0xa431 to
/// 0xa434) identify the device; ProcessingSoftware, Software and
/// HostComputer (TIFF 0x0b, 0x131, 0x13c) name software; every other tag is
/// listed under Other.
pub proof fn lemma_tag_category_table(tag: ExifTag)
    ensures
        tag.context == TagContext::Gps && tag.number != 0x7 && tag.number != 0x1d ==> category_label(
            tag_category(tag),
        ) == "Location"@,
        tag.context == TagContext::Gps && (tag.number == 0x7 || tag.number == 0x1d) ==> category_label(
            tag_category(tag),
        ) == "Timestamps"@,
        tag.context == TagContext::Tiff && tag.number == 0x132 ==> category_label(tag_category(tag))
            == "Timestamps"@,
        tag.context == TagContext::Exif && (tag.number == 0x9003 || tag.number == 0x9004)
            ==> category_label(tag_category(tag)) == "Timestamps"@,
        tag.context == TagContext::Tiff && (tag.number == 0x10f || tag.number == 0x110)
            ==> category_label(tag_category(tag)) == "Device"@,
        tag.context == TagContext::Exif && 0xa431 <= tag.number <= 0xa434 ==> category_label(
            tag_category(tag),
        ) == "Device"@,
        tag.context == TagContext::Tiff && (tag.number == 0x0b || tag.number == 0x131 || tag.number
            == 0x13c) ==> category_label(tag_category(tag)) == "Software"@,
        tag.context != TagContext::Gps && !(tag.context == TagContext::Tiff && (tag.number == 0x132
            || tag.number == 0x10f || tag.number == 0x110 || tag.number == 0x0b || tag.number == 0x131
            || tag.number == 0x13c)) && !(tag.context == TagContext::Exif && (tag.number == 0x9003
            || tag.number == 0x9004 || 0xa431 <= tag.number <= 0xa434)) ==> category_label(
            tag_category(tag),
        ) == "Other"@,
{
}

/// Law: listing the tags of an image gives one entry per field the EXIF
/// reader decodes, in the reader's order, each made of the field's tag
/// number, name, category and displayed value; an image without EXIF data
/// gives `[]`, and a failure to read is reported with the reader's message.
pub proof fn lemma_listing_has_one_entry_per_field(data: Seq<u8>)
    ensures
        exif_read_from_container(data) matches Ok(fields) ==> exif_tags_outcome(data) == Ok::<
            Seq<char>,
            Seq<char>,
        >(
            tag_entries_json(
                Seq::new(
                    fields.len(),
                    |i: int|
                        (
                            fields[i].tag.number,
                            fields[i].name@,
                            category_label(tag_category(fields[i].tag)),
                            fields[i].value@,
                        ),
                ),
            ),
        ),
        exif_read_from_container(data) matches Err(ExifReadError::NotFound) ==> exif_tags_outcome(data)
            == Ok::<Seq<char>, Seq<char>>("[]"@),
        exif_read_from_container(data) matches Err(ExifReadError::Failed(message)) ==> exif_tags_outcome(
            data,
        ) == Err::<Seq<char>, Seq<char>>("EXIF read error: "@ + message@),
{
    if let Ok(fields) = exif_read_from_container(data) {
        assert(expected_tag_entries(fields) =~= Seq::new(
            fields.len(),
            |i: int|
                (
                    fields[i].tag.number,
                    fields[i].name@,
                    category_label(tag_category(fields[i].tag)),
                    fields[i].value@,
                ),
        ));
    }
}

} // verus!
