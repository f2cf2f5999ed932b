//! Removal of metadata segments from JPEG files.
//!
//! A JPEG is read by `img_parts` into its list of segments. Every APP1
//! (EXIF, XMP), APP13 (IPTC) and COM (comment) segment is removed, then the
//! ICC profile and any remaining EXIF segment, and the rest is written back
//! unchanged, in its original order, without re-encoding the image data.
use vstd::prelude::*;

use img_parts::jpeg::Jpeg;
use img_parts::{ImageEXIF, ImageICC};

use crate::image_format::{parse_error_message, parse_error_string, result_view, ImageFormatError};
use crate::seq_filter::{
    lemma_filter_all_but_last, lemma_filter_all_pass, lemma_filter_exact, lemma_filter_step,
    lemma_filter_subset,
};

verus! {

#[verifier::external_type_specification]
#[verifier::external_body]
pub struct ExJpeg(Jpeg);

/// A segment as a plain value: its marker, its contents (without marker and
/// length) and the entropy-coded data that follows it (only a start-of-scan
/// segment carries such data).
pub type JpegSegmentView = (u8, Seq<u8>, Seq<u8>);

/// The segments that a `Jpeg` holds, in order.
pub uninterp spec fn jpeg_segments(jpeg: Jpeg) -> Seq<(u8, Seq<u8>, Seq<u8>)>;

/// What `Jpeg::from_bytes` makes of the given bytes: the segments it reads,
/// or the reason it rejects them.
pub uninterp spec fn jpeg_parse(data: Seq<u8>) -> Result<Seq<(u8, Seq<u8>, Seq<u8>)>, ImageFormatError>;

/// Second byte of the APP1 marker (EXIF and XMP).
pub const APP1: u8 = 0xE1;

/// Second byte of the APP2 marker (ICC profile).
pub const APP2: u8 = 0xE2;

/// Second byte of the APP13 marker (IPTC).
pub const APP13: u8 = 0xED;

/// Second byte of the COM marker (comment).
pub const COM: u8 = 0xFE;

/// Second byte of the start-of-image marker.
pub const SOI: u8 = 0xD8;

/// Second byte of the end-of-image marker.
pub const EOI: u8 = 0xD9;

/// Second byte of the start-of-scan marker.
pub const SOS: u8 = 0xDA;

/// First byte of every marker.
pub const MARKER_PREFIX: u8 = 0xFF;

/// Whether `img_parts` reads and writes a two-byte length after this marker.
pub open spec fn marker_has_length(marker: u8) -> bool {
    ||| 0xD0 <= marker <= 0xD7
    ||| 0xE0 <= marker <= 0xEF
    ||| 0xC0 <= marker <= 0xCF
    ||| marker == 0xDA
    ||| marker == 0xDB
    ||| marker == 0xDD
    ||| marker == 0xFE
}

/// Markers of the segments that carry metadata: APP1, APP13 and COM.
pub open spec fn is_metadata_marker(marker: u8) -> bool {
    marker == APP1 || marker == APP13 || marker == COM
}

/// `ICC_PROFILE` followed by a zero byte.
pub open spec fn icc_prefix() -> Seq<u8> {
    seq![0x49u8, 0x43, 0x43, 0x5F, 0x50, 0x52, 0x4F, 0x46, 0x49, 0x4C, 0x45, 0x00]
}

/// `Exif` followed by two zero bytes.
pub open spec fn exif_prefix() -> Seq<u8> {
    seq![0x45u8, 0x78, 0x69, 0x66, 0x00, 0x00]
}

/// An APP2 segment that holds (a part of) an ICC profile.
pub open spec fn is_icc_segment(segment: JpegSegmentView) -> bool {
    &&& segment.0 == APP2
    &&& segment.1.len() >= icc_prefix().len()
    &&& segment.1.take(icc_prefix().len() as int) == icc_prefix()
}

/// An ICC segment too short to hold the sequence number and count that
/// follow the prefix.
pub open spec fn is_truncated_icc_segment(segment: JpegSegmentView) -> bool {
    is_icc_segment(segment) && segment.1.len() < icc_prefix().len() + 2
}

/// An APP1 segment that holds EXIF data.
pub open spec fn is_exif_segment(segment: JpegSegmentView) -> bool {
    &&& segment.0 == APP1
    &&& segment.1.len() >= exif_prefix().len()
    &&& segment.1.take(exif_prefix().len() as int) == exif_prefix()
}

/// Whether a segment survives the first step of stripping.
pub open spec fn is_kept_segment(segment: JpegSegmentView) -> bool {
    !is_metadata_marker(segment.0)
}

/// The segments without APP1, APP13 and COM segments, in order.
pub open spec fn without_metadata_segments(segments: Seq<JpegSegmentView>) -> Seq<JpegSegmentView> {
    segments.filter(|s: JpegSegmentView| is_kept_segment(s))
}

/// The segments without ICC profile segments, in order.
pub open spec fn without_icc_segments(segments: Seq<JpegSegmentView>) -> Seq<JpegSegmentView> {
    segments.filter(|s: JpegSegmentView| !is_icc_segment(s))
}

/// The segments without EXIF segments, in order.
pub open spec fn without_exif_segments(segments: Seq<JpegSegmentView>) -> Seq<JpegSegmentView> {
    segments.filter(|s: JpegSegmentView| !is_exif_segment(s))
}

/// The segments that a stripped JPEG keeps.
pub open spec fn stripped_jpeg_segments(segments: Seq<JpegSegmentView>) -> Seq<JpegSegmentView> {
    without_exif_segments(without_icc_segments(without_metadata_segments(segments)))
}

/// No segment is an ICC segment too short for `img_parts` to read.
pub open spec fn no_truncated_icc_segment(segments: Seq<JpegSegmentView>) -> bool {
    forall|i: int| 0 <= i < segments.len() ==> !is_truncated_icc_segment(#[trigger] segments[i])
}

/// The value of the length field that `img_parts` writes for a segment.
pub open spec fn segment_length_field(segment: JpegSegmentView) -> nat {
    if marker_has_length(segment.0) {
        segment.1.len() + 2
    } else {
        segment.1.len()
    }
}

/// Every length field fits in two bytes.
pub open spec fn segment_lengths_fit(segments: Seq<JpegSegmentView>) -> bool {
    forall|i: int| 0 <= i < segments.len() ==> segment_length_field(#[trigger] segments[i]) <= 0xFFFF
}

/// Only the last segment may carry entropy-coded data.
pub open spec fn entropy_only_in_last(segments: Seq<JpegSegmentView>) -> bool {
    forall|i: int| 0 <= i < segments.len() - 1 ==> (#[trigger] segments[i]).2.len() == 0
}

/// What holds of each segment `img_parts` reads: its marker is neither a
/// fill byte nor end-of-image, its length field fits in two bytes, a marker
/// without a length has no contents, and only a start-of-scan segment
/// carries entropy-coded data.
pub open spec fn is_readable_segment(segment: JpegSegmentView) -> bool {
    &&& segment.0 != MARKER_PREFIX
    &&& segment.0 != EOI
    &&& segment_length_field(segment) <= 0xFFFF
    &&& !marker_has_length(segment.0) ==> segment.1.len() == 0
    &&& segment.2.len() > 0 ==> segment.0 == SOS
}

/// What holds of each segment but the last that `img_parts` reads: it is
/// not a start-of-scan segment and carries no entropy-coded data (reading
/// stops after the scan).
pub open spec fn precedes_scan_end(segment: JpegSegmentView) -> bool {
    segment.0 != SOS && segment.2.len() == 0
}

/// The shape of every segment list that `img_parts` reads.
pub open spec fn segments_well_formed(segments: Seq<JpegSegmentView>) -> bool {
    &&& forall|i: int| 0 <= i < segments.len() ==> is_readable_segment(#[trigger] segments[i])
    &&& forall|i: int| 0 <= i < segments.len() - 1 ==> precedes_scan_end(#[trigger] segments[i])
}

/// The last segment is a start-of-scan segment with contents and
/// entropy-coded data: the image data itself.
pub open spec fn ends_with_scan(segments: Seq<JpegSegmentView>) -> bool {
    &&& segments.len() > 0
    &&& segments.last().0 == SOS
    &&& segments.last().1.len() > 0
    &&& segments.last().2.len() > 0
}

/// Big-endian two-byte encoding.
pub open spec fn u16_be_bytes(n: nat) -> Seq<u8> {
    seq![(n / 256) as u8, (n % 256) as u8]
}

/// The bytes `img_parts` writes for one segment: marker, length field,
/// contents and, when the contents are not empty, the entropy-coded data.
pub open spec fn segment_bytes(segment: JpegSegmentView) -> Seq<u8> {
    seq![MARKER_PREFIX, segment.0] + u16_be_bytes(segment_length_field(segment)) + segment.1 + (
    if segment.1.len() > 0 {
        segment.2
    } else {
        Seq::empty()
    })
}

/// The bytes of the segments, one after the other.
pub open spec fn segments_bytes(segments: Seq<JpegSegmentView>) -> Seq<u8>
    decreases segments.len(),
{
    if segments.len() == 0 {
        Seq::empty()
    } else {
        segments_bytes(segments.drop_last()) + segment_bytes(segments.last())
    }
}

/// The bytes of a JPEG with the given segments: the start-of-image marker,
/// then every segment.
pub open spec fn jpeg_encoding(segments: Seq<JpegSegmentView>) -> Seq<u8> {
    seq![MARKER_PREFIX, SOI] + segments_bytes(segments)
}

/// A marker after which the EXIF reader of `kamadak-exif` reads a length,
/// as `img_parts` writes one: a marker with a length that is not a restart
/// marker (the reader takes restart markers to stand alone).
pub open spec fn is_length_marker_for_exif_reader(marker: u8) -> bool {
    marker_has_length(marker) && !(0xD0 <= marker <= 0xD7)
}

/// Scan data that the EXIF reader skips up to an end-of-image marker: it
/// holds `FF D9`, and every `FF` before it is followed by a stuffed zero or
/// a restart marker.
pub open spec fn scan_ends_cleanly(scan: Seq<u8>) -> bool {
    exists|k: int|
        0 <= k && k + 1 < scan.len() && scan[k] == MARKER_PREFIX && #[trigger] scan[k + 1] == EOI
            && forall|i: int|
            0 <= i < k && #[trigger] scan[i] == MARKER_PREFIX ==> (scan[i + 1] == 0x00 || 0xD0
                <= scan[i + 1] <= 0xD7)
}

/// Segments that the EXIF reader walks one by one: every marker has a
/// length for it, and the list ends with image data that it skips up to the
/// end-of-image marker.
pub open spec fn walkable_by_exif_reader(segments: Seq<JpegSegmentView>) -> bool {
    &&& ends_with_scan(segments)
    &&& scan_ends_cleanly(segments.last().2)
    &&& forall|i: int| 0 <= i < segments.len() ==> is_length_marker_for_exif_reader(
        (#[trigger] segments[i]).0,
    )
}

/// The bytes are a JPEG written from segments that the EXIF reader walks
/// one by one without meeting an EXIF segment.
pub open spec fn is_jpeg_without_exif_segment(data: Seq<u8>) -> bool {
    exists|segments: Seq<JpegSegmentView>|
        #[trigger] jpeg_encoding(segments) == data && walkable_by_exif_reader(segments)
            && segment_lengths_fit(segments) && entropy_only_in_last(segments) && forall|i: int|
            0 <= i < segments.len() ==> !is_exif_segment(#[trigger] segments[i])
}

/// `Jpeg::from_bytes` reads exactly these segments from these bytes.
pub open spec fn jpeg_reads_as(data: Seq<u8>, segments: Seq<JpegSegmentView>) -> bool {
    jpeg_parse(data) == Ok::<Seq<JpegSegmentView>, ImageFormatError>(segments)
}

/// Reads a JPEG with `img_parts::jpeg::Jpeg::from_bytes`.
///
/// Claims: the outcome is the one named by `jpeg_parse`, and the segments
/// read have the shape of `segments_well_formed`: markers are read after
/// skipping fill bytes and end at EOI, lengths come from two bytes, markers
/// without a length get no contents, and reading stops right after a
/// start-of-scan segment, whose entropy-coded data is the rest of the input
/// (a start-of-scan segment with nothing after it makes reading fail).
/// Fewer than two bytes give `Truncated`; two or more that do not start
/// with the start-of-image marker give `WrongSignature`.
#[verifier::external_body]
fn parse_jpeg(data: &[u8]) -> (result: Result<Jpeg, ImageFormatError>)
    ensures
        match result {
            Ok(jpeg) => {
                &&& jpeg_parse(data@) == Ok::<Seq<JpegSegmentView>, ImageFormatError>(jpeg_segments(jpeg))
                &&& segments_well_formed(jpeg_segments(jpeg))
            },
            Err(error) => jpeg_parse(data@) == Err::<Seq<JpegSegmentView>, ImageFormatError>(error),
        },
        data@.len() < 2 ==> match result {
            Err(ImageFormatError::Truncated) => true,
            _ => false,
        },
        data@.len() >= 2 && data@.take(2) != seq![MARKER_PREFIX, SOI] ==> match result {
            Err(ImageFormatError::WrongSignature) => true,
            _ => false,
        },
{
    match Jpeg::from_bytes(data.to_vec().into()) {
        Ok(jpeg) => Ok(jpeg),
        Err(img_parts::Error::WrongSignature) => Err(ImageFormatError::WrongSignature),
        Err(img_parts::Error::BadCRC) => Err(ImageFormatError::BadCrc),
        Err(img_parts::Error::Truncated) => Err(ImageFormatError::Truncated),
    }
}

/// The markers of the segments, read with `Jpeg::segments` and
/// `JpegSegment::marker`.
#[verifier::external_body]
fn jpeg_markers(jpeg: &Jpeg) -> (markers: Vec<u8>)
    ensures
        markers@ == jpeg_segments(*jpeg).map_values(|s: JpegSegmentView| s.0),
{
    jpeg.segments().iter().map(|segment| segment.marker()).collect()
}

/// The contents of one segment, read with `Jpeg::segments` and
/// `JpegSegment::contents`.
#[verifier::external_body]
fn jpeg_segment_contents(jpeg: &Jpeg, index: usize) -> (contents: Vec<u8>)
    requires
        index < jpeg_segments(*jpeg).len(),
    ensures
        contents@ == jpeg_segments(*jpeg)[index as int].1,
{
    jpeg.segments()[index].contents().to_vec()
}

/// Removes one segment with `Vec::remove` on `Jpeg::segments_mut`.
#[verifier::external_body]
fn jpeg_remove_segment(jpeg: &mut Jpeg, index: usize)
    requires
        index < jpeg_segments(*old(jpeg)).len(),
    ensures
        jpeg_segments(*final(jpeg)) == jpeg_segments(*old(jpeg)).remove(index as int),
{
    jpeg.segments_mut().remove(index);
}

/// `ImageICC::set_icc_profile(None)` on a `Jpeg`: keeps the segments for
/// which `JpegSegment::icc` is `None`, that is all but the ICC segments.
/// `icc` reads two bytes past the prefix and panics when they are missing,
/// which the `requires` rules out.
#[verifier::external_body]
fn jpeg_clear_icc_profile(jpeg: &mut Jpeg)
    requires
        no_truncated_icc_segment(jpeg_segments(*old(jpeg))),
    ensures
        jpeg_segments(*final(jpeg)) == without_icc_segments(jpeg_segments(*old(jpeg))),
{
    jpeg.set_icc_profile(None);
}

/// `ImageEXIF::set_exif(None)` on a `Jpeg`: keeps the segments for which
/// `JpegSegment::exif` is `None`, that is all but the EXIF segments.
#[verifier::external_body]
fn jpeg_clear_exif(jpeg: &mut Jpeg)
    ensures
        jpeg_segments(*final(jpeg)) == without_exif_segments(jpeg_segments(*old(jpeg))),
{
    jpeg.set_exif(None);
}

/// Writes a `Jpeg` with `Jpeg::encoder` and `ImageEncoder::bytes`.
///
/// The encoder writes the length field with `try_into().unwrap()`, which
/// the `requires` keeps from panicking. Claims the bytes are
/// `jpeg_encoding` of the segments when only the last segment carries
/// entropy-coded data (as after `parse_jpeg`); the order in which the
/// encoder hands out the pieces of an earlier segment that has such data
/// but no contents is left unsaid. Claims too that `Jpeg::from_bytes` reads
/// the same segments back from these bytes when they have the shape it
/// produces and end with the image data: each marker, length and contents
/// is read back as written (the two zero bytes written after a marker
/// without a length are skipped as non-marker bytes), and the entropy-coded
/// data is the rest of the bytes.
#[verifier::external_body]
fn encode_jpeg(jpeg: Jpeg) -> (bytes: Vec<u8>)
    requires
        segment_lengths_fit(jpeg_segments(jpeg)),
    ensures
        entropy_only_in_last(jpeg_segments(jpeg)) ==> bytes@ == jpeg_encoding(jpeg_segments(jpeg)),
        segments_well_formed(jpeg_segments(jpeg)) && ends_with_scan(jpeg_segments(jpeg))
            ==> jpeg_reads_as(bytes@, jpeg_segments(jpeg)),
{
    jpeg.encoder().bytes().to_vec()
}

/// Filtering keeps the shape of a segment list that `img_parts` reads.
proof fn lemma_filter_well_formed(segments: Seq<JpegSegmentView>, pred: spec_fn(JpegSegmentView) -> bool)
    requires
        segments_well_formed(segments),
    ensures
        segments_well_formed(segments.filter(pred)),
{
    lemma_filter_subset(segments, pred);
    assert forall|i: int| 0 <= i < segments.filter(pred).len() implies is_readable_segment(
        #[trigger] segments.filter(pred)[i],
    ) by {
        let j = choose|j: int| 0 <= j < segments.len() && segments[j] == segments.filter(pred)[i];
        assert(is_readable_segment(segments[j]));
    }
    lemma_filter_all_but_last(segments, pred, |s: JpegSegmentView| precedes_scan_end(s));
}

/// A well-formed segment list fits its length fields and carries
/// entropy-coded data in its last segment only.
proof fn lemma_well_formed_encodable(segments: Seq<JpegSegmentView>)
    requires
        segments_well_formed(segments),
    ensures
        segment_lengths_fit(segments),
        entropy_only_in_last(segments),
{
    assert forall|i: int| 0 <= i < segments.len() implies segment_length_field(#[trigger] segments[i])
        <= 0xFFFF by {
        assert(is_readable_segment(segments[i]));
    }
    assert forall|i: int| 0 <= i < segments.len() - 1 implies (#[trigger] segments[i]).2.len() == 0 by {
        assert(precedes_scan_end(segments[i]));
    }
}

/// Filtering keeps the absence of truncated ICC segments.
proof fn lemma_filter_no_truncated_icc(segments: Seq<JpegSegmentView>, pred: spec_fn(JpegSegmentView) -> bool)
    requires
        no_truncated_icc_segment(segments),
    ensures
        no_truncated_icc_segment(segments.filter(pred)),
{
    lemma_filter_subset(segments, pred);
    assert forall|i: int| 0 <= i < segments.filter(pred).len() implies !is_truncated_icc_segment(
        #[trigger] segments.filter(pred)[i],
    ) by {
        let j = choose|j: int| 0 <= j < segments.len() && segments[j] == segments.filter(pred)[i];
        assert(!is_truncated_icc_segment(segments[j]));
    }
}

/// Whether segments with this marker carry metadata (APP1, APP13 or COM).
pub fn is_jpeg_metadata_marker(marker: u8) -> (metadata: bool)
    ensures
        metadata == is_metadata_marker(marker),
        metadata <==> (marker == 0xE1 || marker == 0xED || marker == 0xFE),
{
    marker == APP1 || marker == APP13 || marker == COM
}

/// Removes every APP1, APP13 and COM segment, keeping the others in order.
fn remove_metadata_segments(jpeg: &mut Jpeg)
    ensures
        jpeg_segments(*final(jpeg)) == without_metadata_segments(jpeg_segments(*old(jpeg))),
{
    let ghost original = jpeg_segments(*jpeg);
    let markers = jpeg_markers(jpeg);
    let mut i: usize = 0;
    let mut kept: usize = 0;
    assert(original.take(0) =~= Seq::<JpegSegmentView>::empty());
    assert(original.skip(0) =~= original);
    proof {
        reveal(Seq::filter);
    }
    while i < markers.len()
        invariant
            markers@ == original.map_values(|s: JpegSegmentView| s.0),
            markers@.len() == original.len(),
            0 <= kept <= i <= markers@.len(),
            kept == without_metadata_segments(original.take(i as int)).len(),
            jpeg_segments(*jpeg) == without_metadata_segments(original.take(i as int)) + original.skip(
                i as int,
            ),
        decreases markers@.len() - i,
    {
        let ghost before = jpeg_segments(*jpeg);
        let ghost prefix = without_metadata_segments(original.take(i as int));
        proof {
            lemma_filter_step(original, i as int, |s: JpegSegmentView| is_kept_segment(s));
            assert(original.skip(i as int) =~= seq![original[i as int]] + original.skip(i + 1));
            assert(before[kept as int] == original[i as int]);
        }
        if is_jpeg_metadata_marker(markers[i]) {
            jpeg_remove_segment(jpeg, kept);
            proof {
                assert(jpeg_segments(*jpeg) =~= prefix + original.skip(i + 1));
            }
        } else {
            proof {
                assert(before =~= prefix.push(original[i as int]) + original.skip(i + 1));
            }
            kept = kept + 1;
        }
        i = i + 1;
    }
    assert(original.take(original.len() as int) =~= original);
    assert(original.skip(original.len() as int) =~= Seq::<JpegSegmentView>::empty());
    assert(jpeg_segments(*jpeg) =~= without_metadata_segments(original));
}

/// Whether the contents start with `ICC_PROFILE` and a zero byte.
fn starts_with_icc_prefix(contents: &Vec<u8>) -> (found: bool)
    ensures
        found == (contents@.len() >= icc_prefix().len() && contents@.take(icc_prefix().len() as int)
            == icc_prefix()),
{
    if contents.len() < 12 {
        return false;
    }
    let found = contents[0] == 0x49 && contents[1] == 0x43 && contents[2] == 0x43 && contents[3]
        == 0x5F && contents[4] == 0x50 && contents[5] == 0x52 && contents[6] == 0x4F && contents[7]
        == 0x46 && contents[8] == 0x49 && contents[9] == 0x4C && contents[10] == 0x45
        && contents[11] == 0x00;
    if found {
        assert(contents@.take(12) =~= icc_prefix());
    } else {
        assert(contents@.take(12) != icc_prefix()) by {
            if contents@.take(12) == icc_prefix() {
                assert(contents@.take(12)[0] == contents@[0]);
                assert(contents@.take(12)[11] == contents@[11]);
            }
        }
    }
    found
}

/// Whether some segment is an ICC segment too short for `img_parts` to read.
fn has_truncated_icc_segment(jpeg: &Jpeg) -> (found: bool)
    ensures
        found == !no_truncated_icc_segment(jpeg_segments(*jpeg)),
{
    let ghost segments = jpeg_segments(*jpeg);
    let markers = jpeg_markers(jpeg);
    let mut i: usize = 0;
    while i < markers.len()
        invariant
            markers@ == segments.map_values(|s: JpegSegmentView| s.0),
            segments == jpeg_segments(*jpeg),
            0 <= i <= markers@.len(),
            forall|j: int| 0 <= j < i ==> !is_truncated_icc_segment(#[trigger] segments[j]),
        decreases markers@.len() - i,
    {
        if markers[i] == APP2 {
            let contents = jpeg_segment_contents(jpeg, i);
            if contents.len() < 14 && starts_with_icc_prefix(&contents) {
                assert(is_truncated_icc_segment(segments[i as int]));
                return true;
            }
        }
        i = i + 1;
    }
    false
}

/// The prefix of the message reported for bytes that are not a JPEG.
pub open spec fn jpeg_error_prefix() -> Seq<char> {
    "JPEG parse error: "@
}

/// The message reported for an ICC segment too short to hold the sequence
/// number and count that follow its prefix.
pub open spec fn truncated_icc_message() -> Seq<char> {
    "JPEG parse error: a truncated ICC profile segment was read"@
}

/// What stripping the given bytes gives: the JPEG re-encoded from its kept
/// segments, or why it cannot be stripped.
pub open spec fn jpeg_strip_outcome(data: Seq<u8>) -> Result<Seq<u8>, Seq<char>> {
    match jpeg_parse(data) {
        Ok(segments) => if no_truncated_icc_segment(segments) {
            Ok(jpeg_encoding(stripped_jpeg_segments(segments)))
        } else {
            Err(truncated_icc_message())
        },
        Err(error) => Err(parse_error_message(jpeg_error_prefix(), error)),
    }
}

/// Removes all APP1 (EXIF/XMP), APP13 (IPTC) and COM segments, the ICC
/// profile and any EXIF segment from a JPEG; every other segment, the image
/// data included, is written back unchanged and in order. Bytes that are not
/// a JPEG, and a JPEG with an unreadable ICC segment, give an error.
/// Stripping the output of a JPEG that ends with its image data gives that
/// output back.
pub fn strip_jpeg_inner(data: &[u8]) -> (result: Result<Vec<u8>, String>)
    ensures
        result_view(result) == jpeg_strip_outcome(data@),
        result matches Ok(out) ==> out@.len() >= 2 && out@[0] == MARKER_PREFIX && out@[1] == SOI,
        jpeg_parse(data@) matches Ok(segments) ==> (no_truncated_icc_segment(segments)
            && ends_with_scan(stripped_jpeg_segments(segments)) ==> (result matches Ok(out)
            && jpeg_strip_outcome(out@) == Ok::<Seq<u8>, Seq<char>>(out@) && jpeg_reads_as(
            out@,
            stripped_jpeg_segments(segments),
        ))),
        jpeg_parse(data@) matches Ok(segments) ==> (result matches Ok(out) ==> out@.len()
            <= jpeg_encoding(segments).len()),
        jpeg_parse(data@) matches Ok(segments) ==> (no_truncated_icc_segment(segments)
            && walkable_by_exif_reader(stripped_jpeg_segments(segments)) ==> (result matches Ok(out)
            && is_jpeg_without_exif_segment(out@))),
        jpeg_parse(data@) matches Ok(segments) ==> ((forall|i: int|
            0 <= i < segments.len() && (#[trigger] segments[i]).0 == 0xE2 && segments[i].1.len()
                >= 12 && segments[i].1.take(12) == seq![
                0x49u8,
                0x43,
                0x43,
                0x5F,
                0x50,
                0x52,
                0x4F,
                0x46,
                0x49,
                0x4C,
                0x45,
                0x00,
            ] ==> segments[i].1.len() >= 14) ==> result matches Ok(_)),
        data@.len() < 2 ==> result_view(result) == Err::<Seq<u8>, Seq<char>>(
            parse_error_message(jpeg_error_prefix(), ImageFormatError::Truncated),
        ),
        data@.len() >= 2 && data@.take(2) != seq![MARKER_PREFIX, SOI] ==> result_view(result)
            == Err::<Seq<u8>, Seq<char>>(
            parse_error_message(jpeg_error_prefix(), ImageFormatError::WrongSignature),
        ),
{
    match parse_jpeg(data) {
        Err(error) => Err(parse_error_string("JPEG parse error: ", error)),
        Ok(jpeg) => {
            proof {
                let segments = jpeg_segments(jpeg);
                assert forall|i: int| 0 <= i < segments.len() implies (is_truncated_icc_segment(
                    #[trigger] segments[i],
                ) <==> (segments[i].0 == 0xE2 && 12 <= segments[i].1.len() < 14
                    && segments[i].1.take(12) == seq![
                    0x49u8,
                    0x43,
                    0x43,
                    0x5F,
                    0x50,
                    0x52,
                    0x4F,
                    0x46,
                    0x49,
                    0x4C,
                    0x45,
                    0x00,
                ])) by {
                    lemma_truncated_icc_segment_is_shorter_than_14_bytes(segments[i]);
                }
            }
            if has_truncated_icc_segment(&jpeg) {
                Err(String::from_str("JPEG parse error: a truncated ICC profile segment was read"))
            } else {
                let ghost segments = jpeg_segments(jpeg);
                let out = strip_parsed_jpeg(jpeg);
                proof {
                    lemma_stripped_jpeg_not_longer(segments);
                    if walkable_by_exif_reader(stripped_jpeg_segments(segments)) {
                        lemma_stripped_jpeg_without_exif_segment(segments);
                    }
                    if ends_with_scan(stripped_jpeg_segments(segments)) {
                        lemma_jpeg_strip_idempotent(segments);
                        lemma_stripped_jpeg_holds_no_metadata(segments);
                        let stripped = stripped_jpeg_segments(segments);
                        assert forall|i: int| 0 <= i < stripped.len() implies !is_truncated_icc_segment(
                            #[trigger] stripped[i],
                        ) by {
                            assert(!is_icc_segment(stripped[i]));
                        }
                    }
                }
                Ok(out)
            }
        },
    }
}

/// Removes the APP1, APP13, COM, ICC and EXIF segments of a parsed JPEG
/// and writes it back; the bytes read back as the kept segments when they
/// end with the image data.
pub fn strip_parsed_jpeg(jpeg: Jpeg) -> (out: Vec<u8>)
    requires
        segments_well_formed(jpeg_segments(jpeg)),
        no_truncated_icc_segment(jpeg_segments(jpeg)),
    ensures
        out@ == jpeg_encoding(stripped_jpeg_segments(jpeg_segments(jpeg))),
        ends_with_scan(stripped_jpeg_segments(jpeg_segments(jpeg))) ==> jpeg_reads_as(
            out@,
            stripped_jpeg_segments(jpeg_segments(jpeg)),
        ),
{
    let mut jpeg = jpeg;
    let ghost parsed = jpeg_segments(jpeg);
    remove_metadata_segments(&mut jpeg);
    proof {
        lemma_filter_no_truncated_icc(parsed, |s: JpegSegmentView| is_kept_segment(s));
        lemma_filter_well_formed(parsed, |s: JpegSegmentView| is_kept_segment(s));
    }
    let ghost kept = jpeg_segments(jpeg);
    jpeg_clear_icc_profile(&mut jpeg);
    proof {
        lemma_filter_well_formed(kept, |s: JpegSegmentView| !is_icc_segment(s));
    }
    let ghost without_icc = jpeg_segments(jpeg);
    jpeg_clear_exif(&mut jpeg);
    proof {
        lemma_filter_well_formed(without_icc, |s: JpegSegmentView| !is_exif_segment(s));
        lemma_well_formed_encodable(jpeg_segments(jpeg));
    }
    encode_jpeg(jpeg)
}

/// No segment is an APP1, APP13 or COM segment or an ICC segment.
pub open spec fn holds_no_jpeg_metadata(segments: Seq<JpegSegmentView>) -> bool {
    forall|i: int|
        0 <= i < segments.len() ==> !is_metadata_marker((#[trigger] segments[i]).0)
            && !is_icc_segment(segments[i])
}

/// Law: a stripped JPEG keeps no APP1, APP13 or COM segment, no ICC segment
/// and no EXIF segment.
pub proof fn lemma_stripped_jpeg_holds_no_metadata(segments: Seq<JpegSegmentView>)
    ensures
        holds_no_jpeg_metadata(stripped_jpeg_segments(segments)),
        forall|i: int|
            0 <= i < stripped_jpeg_segments(segments).len() ==> !is_exif_segment(
                #[trigger] stripped_jpeg_segments(segments)[i],
            ),
{
    let first = without_metadata_segments(segments);
    let second = without_icc_segments(first);
    let third = without_exif_segments(second);
    lemma_filter_exact(segments, |s: JpegSegmentView| is_kept_segment(s));
    lemma_filter_exact(first, |s: JpegSegmentView| !is_icc_segment(s));
    lemma_filter_exact(second, |s: JpegSegmentView| !is_exif_segment(s));
    lemma_filter_subset(first, |s: JpegSegmentView| !is_icc_segment(s));
    lemma_filter_subset(second, |s: JpegSegmentView| !is_exif_segment(s));
    assert forall|i: int| 0 <= i < third.len() implies !is_metadata_marker((#[trigger] third[i]).0)
        && !is_icc_segment(third[i]) && !is_exif_segment(third[i]) by {
        assert(!is_exif_segment(third[i]));
        let j = choose|j: int| 0 <= j < second.len() && second[j] == third[i];
        assert(!is_icc_segment(second[j]));
        let k = choose|k: int| 0 <= k < first.len() && first[k] == second[j];
        assert(is_kept_segment(first[k]));
    }
}

/// Law: every segment that is neither an APP1, APP13 or COM segment nor an
/// ICC segment survives stripping.
pub proof fn lemma_stripped_jpeg_keeps_other_segments(segments: Seq<JpegSegmentView>)
    ensures
        forall|i: int|
            0 <= i < segments.len() && !is_metadata_marker((#[trigger] segments[i]).0)
                && !is_icc_segment(segments[i]) ==> stripped_jpeg_segments(segments).contains(
                segments[i],
            ),
{
    let first = without_metadata_segments(segments);
    let second = without_icc_segments(first);
    lemma_filter_exact(segments, |s: JpegSegmentView| is_kept_segment(s));
    lemma_filter_exact(first, |s: JpegSegmentView| !is_icc_segment(s));
    lemma_filter_exact(second, |s: JpegSegmentView| !is_exif_segment(s));
    assert forall|i: int|
        0 <= i < segments.len() && !is_metadata_marker((#[trigger] segments[i]).0)
            && !is_icc_segment(segments[i]) implies stripped_jpeg_segments(segments).contains(
        segments[i],
    ) by {
        assert(is_kept_segment(segments[i]));
        assert(first.contains(segments[i]));
        let j = choose|j: int| 0 <= j < first.len() && first[j] == segments[i];
        assert(second.contains(first[j]));
        let k = choose|k: int| 0 <= k < second.len() && second[k] == segments[i];
        assert(!is_exif_segment(second[k]));
    }
}

/// Law: a JPEG without APP1, APP13, COM and ICC segments keeps every
/// segment, in order.
pub proof fn lemma_clean_jpeg_unchanged(segments: Seq<JpegSegmentView>)
    requires
        holds_no_jpeg_metadata(segments),
    ensures
        stripped_jpeg_segments(segments) == segments,
{
    lemma_filter_all_pass(segments, |s: JpegSegmentView| is_kept_segment(s));
    lemma_filter_all_pass(segments, |s: JpegSegmentView| !is_icc_segment(s));
    assert forall|i: int| 0 <= i < segments.len() implies !is_exif_segment(#[trigger] segments[i]) by {
        assert(!is_metadata_marker(segments[i].0));
    }
    lemma_filter_all_pass(segments, |s: JpegSegmentView| !is_exif_segment(s));
}

/// Law: stripping the segments of a stripped JPEG changes nothing.
pub proof fn lemma_jpeg_strip_idempotent(segments: Seq<JpegSegmentView>)
    ensures
        stripped_jpeg_segments(stripped_jpeg_segments(segments)) == stripped_jpeg_segments(segments),
{
    lemma_stripped_jpeg_holds_no_metadata(segments);
    lemma_clean_jpeg_unchanged(stripped_jpeg_segments(segments));
}

/// Removing segments never lengthens the encoding.
proof fn lemma_filter_bytes_not_longer(segments: Seq<JpegSegmentView>, pred: spec_fn(JpegSegmentView) -> bool)
    ensures
        segments_bytes(segments.filter(pred)).len() <= segments_bytes(segments).len(),
    decreases segments.len(),
{
    reveal(Seq::filter);
    if segments.len() > 0 {
        let init = segments.drop_last();
        lemma_filter_bytes_not_longer(init, pred);
        if pred(segments.last()) {
            assert(segments.filter(pred) == init.filter(pred).push(segments.last()));
            assert(init.filter(pred).push(segments.last()).drop_last() =~= init.filter(pred));
        } else {
            assert(segments.filter(pred) == init.filter(pred));
        }
    }
}

/// Law: a stripped JPEG is never longer than the JPEG its segments were
/// read from, written back.
pub proof fn lemma_stripped_jpeg_not_longer(segments: Seq<JpegSegmentView>)
    ensures
        jpeg_encoding(stripped_jpeg_segments(segments)).len() <= jpeg_encoding(segments).len(),
{
    let first = without_metadata_segments(segments);
    let second = without_icc_segments(first);
    lemma_filter_bytes_not_longer(segments, |s: JpegSegmentView| is_kept_segment(s));
    lemma_filter_bytes_not_longer(first, |s: JpegSegmentView| !is_icc_segment(s));
    lemma_filter_bytes_not_longer(second, |s: JpegSegmentView| !is_exif_segment(s));
}

/// Law: a stripped JPEG whose segments the EXIF reader walks one by one is
/// a JPEG without an EXIF segment.
pub proof fn lemma_stripped_jpeg_without_exif_segment(segments: Seq<JpegSegmentView>)
    requires
        segments_well_formed(segments),
        walkable_by_exif_reader(stripped_jpeg_segments(segments)),
    ensures
        is_jpeg_without_exif_segment(jpeg_encoding(stripped_jpeg_segments(segments))),
{
    let stripped = stripped_jpeg_segments(segments);
    let first = without_metadata_segments(segments);
    let second = without_icc_segments(first);
    lemma_filter_well_formed(segments, |s: JpegSegmentView| is_kept_segment(s));
    lemma_filter_well_formed(first, |s: JpegSegmentView| !is_icc_segment(s));
    lemma_filter_well_formed(second, |s: JpegSegmentView| !is_exif_segment(s));
    lemma_well_formed_encodable(stripped);
    lemma_stripped_jpeg_holds_no_metadata(segments);
    assert(jpeg_encoding(stripped) == jpeg_encoding(stripped));
}

/// Law: the markers treated as metadata are exactly APP1 (`FF E1`), APP13
/// (`FF ED`) and COM (`FF FE`); every other marker (quantization and
/// Huffman tables, frame headers, scans, APP0 and the other application
/// segments) is image structure.
pub proof fn lemma_jpeg_metadata_markers_are_app1_app13_com(marker: u8)
    ensures
        is_metadata_marker(marker) <==> (marker == 0xE1 || marker == 0xED || marker == 0xFE),
{
}

/// Law: an ICC segment is an APP2 (`FF E2`) segment whose contents begin
/// with `ICC_PROFILE` and a zero byte; an EXIF segment is an APP1 (`FF E1`)
/// segment whose contents begin with `Exif` and two zero bytes.
pub proof fn lemma_icc_and_exif_segments(segment: JpegSegmentView)
    ensures
        is_icc_segment(segment) <==> (segment.0 == 0xE2 && segment.1.len() >= 12 && segment.1.take(
            12,
        ) == seq![0x49u8, 0x43, 0x43, 0x5F, 0x50, 0x52, 0x4F, 0x46, 0x49, 0x4C, 0x45, 0x00]),
        is_exif_segment(segment) <==> (segment.0 == 0xE1 && segment.1.len() >= 6 && segment.1.take(
            6,
        ) == seq![0x45u8, 0x78, 0x69, 0x66, 0x00, 0x00]),
{
}

/// Law: an ICC segment is unreadable exactly when its contents are too
/// short to hold the 12-byte prefix followed by the sequence number and
/// count, that is shorter than 14 bytes; a profile of any greater size is
/// readable.
pub proof fn lemma_truncated_icc_segment_is_shorter_than_14_bytes(segment: JpegSegmentView)
    ensures
        is_truncated_icc_segment(segment) <==> (segment.0 == 0xE2 && 12 <= segment.1.len() < 14
            && segment.1.take(12) == seq![
            0x49u8,
            0x43,
            0x43,
            0x5F,
            0x50,
            0x52,
            0x4F,
            0x46,
            0x49,
            0x4C,
            0x45,
            0x00,
        ]),
{
}

/// Law: every segment that is not APP1 (`FF E1`), APP13 (`FF ED`) or COM
/// (`FF FE`) and is not an APP2 segment holding an ICC profile survives
/// stripping unchanged; and every segment that survives was read from the
/// input and is none of these.
pub proof fn lemma_stripped_jpeg_keeps_image_segments(segments: Seq<JpegSegmentView>)
    ensures
        forall|i: int|
            0 <= i < segments.len() && (#[trigger] segments[i]).0 != 0xE1 && segments[i].0 != 0xED
                && segments[i].0 != 0xFE && !(segments[i].0 == 0xE2 && segments[i].1.len() >= 12
                && segments[i].1.take(12) == seq![
                0x49u8,
                0x43,
                0x43,
                0x5F,
                0x50,
                0x52,
                0x4F,
                0x46,
                0x49,
                0x4C,
                0x45,
                0x00,
            ]) ==> stripped_jpeg_segments(segments).contains(segments[i]),
        forall|j: int|
            0 <= j < stripped_jpeg_segments(segments).len() ==> segments.contains(
                #[trigger] stripped_jpeg_segments(segments)[j],
            ) && stripped_jpeg_segments(segments)[j].0 != 0xE1 && stripped_jpeg_segments(
                segments,
            )[j].0 != 0xED && stripped_jpeg_segments(segments)[j].0 != 0xFE,
{
    lemma_stripped_jpeg_keeps_other_segments(segments);
    lemma_stripped_jpeg_holds_no_metadata(segments);
    let first = without_metadata_segments(segments);
    let second = without_icc_segments(first);
    let third = without_exif_segments(second);
    lemma_filter_subset(segments, |s: JpegSegmentView| is_kept_segment(s));
    lemma_filter_subset(first, |s: JpegSegmentView| !is_icc_segment(s));
    lemma_filter_subset(second, |s: JpegSegmentView| !is_exif_segment(s));
    assert forall|i: int|
        0 <= i < segments.len() && (#[trigger] segments[i]).0 != 0xE1 && segments[i].0 != 0xED
            && segments[i].0 != 0xFE && !(segments[i].0 == 0xE2 && segments[i].1.len() >= 12
            && segments[i].1.take(12) == seq![
            0x49u8,
            0x43,
            0x43,
            0x5F,
            0x50,
            0x52,
            0x4F,
            0x46,
            0x49,
            0x4C,
            0x45,
            0x00,
        ]) implies stripped_jpeg_segments(segments).contains(segments[i]) by {
        lemma_icc_and_exif_segments(segments[i]);
        assert(icc_prefix().len() == 12);
        assert(!is_icc_segment(segments[i]));
        assert(!is_metadata_marker(segments[i].0));
    }
    assert forall|j: int| 0 <= j < third.len() implies segments.contains(#[trigger] third[j]) by {
        let k = choose|k: int| 0 <= k < second.len() && second[k] == third[j];
        let l = choose|l: int| 0 <= l < first.len() && first[l] == second[k];
        let m = choose|m: int| 0 <= m < segments.len() && segments[m] == first[l];
        assert(segments[m] == third[j]);
    }
    assert forall|j: int| 0 <= j < third.len() implies (#[trigger] third[j]).0 != 0xE1 && third[j].0
        != 0xED && third[j].0 != 0xFE by {
        assert(!is_metadata_marker(third[j].0));
    }
}

/// Law: a JPEG that parses and whose ICC segments each hold at least the
/// 14 bytes of prefix, sequence number and count is always stripped: the
/// outcome is its kept segments written back, never an error.
pub proof fn lemma_jpeg_with_readable_icc_is_stripped(data: Seq<u8>, segments: Seq<JpegSegmentView>)
    requires
        jpeg_parse(data) == Ok::<Seq<JpegSegmentView>, ImageFormatError>(segments),
        forall|i: int|
            0 <= i < segments.len() && (#[trigger] segments[i]).0 == 0xE2 && segments[i].1.len()
                >= 12 && segments[i].1.take(12) == seq![
                0x49u8,
                0x43,
                0x43,
                0x5F,
                0x50,
                0x52,
                0x4F,
                0x46,
                0x49,
                0x4C,
                0x45,
                0x00,
            ] ==> segments[i].1.len() >= 14,
    ensures
        jpeg_strip_outcome(data) == Ok::<Seq<u8>, Seq<char>>(
            jpeg_encoding(stripped_jpeg_segments(segments)),
        ),
{
    assert forall|i: int| 0 <= i < segments.len() implies !is_truncated_icc_segment(
        #[trigger] segments[i],
    ) by {
        lemma_truncated_icc_segment_is_shorter_than_14_bytes(segments[i]);
    }
}

} // verus!
