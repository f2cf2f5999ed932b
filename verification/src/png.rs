//! Removal of metadata chunks from PNG files.
//!
//! A PNG is read by `img_parts` into its list of chunks. Only the chunks on
//! an explicit allowlist (IHDR, PLTE, IDAT, IEND, iCCP, gAMA, tRNS) and off
//! the metadata blocklist (tEXt, zTXt, iTXt, eXIf, tIME, bKGD, hIST, sPLT)
//! are kept; they are written back byte for byte, in their original order.
//! Any other chunk, unknown or future ones included, is removed.
use vstd::prelude::*;

use img_parts::png::Png;

use crate::image_format::{parse_error_message, parse_error_string, result_view, ImageFormatError};
use crate::seq_filter::{
    lemma_filter_all_but_last, lemma_filter_all_pass, lemma_filter_exact, lemma_filter_step,
    lemma_filter_subset,
};

verus! {

#[verifier::external_type_specification]
#[verifier::external_body]
pub struct ExPng(Png);

/// A chunk as a plain value: its four-byte type, its contents and its
/// four-byte CRC.
pub type PngChunkView = (Seq<u8>, Seq<u8>, Seq<u8>);

/// The chunks that a `Png` holds, in order.
pub uninterp spec fn png_chunks(png: Png) -> Seq<(Seq<u8>, Seq<u8>, Seq<u8>)>;

/// What `Png::from_bytes` makes of the given bytes: the chunks it reads, or
/// the reason it rejects them.
pub uninterp spec fn png_parse(data: Seq<u8>) -> Result<Seq<(Seq<u8>, Seq<u8>, Seq<u8>)>, ImageFormatError>;

/// One bit step of the reflected CRC-32 (polynomial 0xEDB88320).
pub open spec fn crc32_bit_step(register: u32) -> u32 {
    if register & 1 == 1 {
        (register >> 1) ^ 0xEDB8_8320
    } else {
        register >> 1
    }
}

/// Feeds one byte into the CRC-32 register, least significant bit first.
pub open spec fn crc32_byte_step(register: u32, byte: u8) -> u32 {
    let r = register ^ (byte as u32);
    crc32_bit_step(
        crc32_bit_step(
            crc32_bit_step(
                crc32_bit_step(crc32_bit_step(crc32_bit_step(crc32_bit_step(crc32_bit_step(r))))),
            ),
        ),
    )
}

/// The CRC-32 register after the given bytes, starting from all ones.
pub open spec fn crc32_register(bytes: Seq<u8>) -> u32
    decreases bytes.len(),
{
    if bytes.len() == 0 {
        0xFFFF_FFFF
    } else {
        crc32_byte_step(crc32_register(bytes.drop_last()), bytes.last())
    }
}

/// CRC-32 (ISO-HDLC, as PNG uses and `crc32fast` computes) of the bytes.
pub open spec fn crc32(bytes: Seq<u8>) -> u32 {
    crc32_register(bytes) ^ 0xFFFF_FFFF
}

/// The CRC of a chunk: CRC-32 over its type and contents, as four
/// big-endian bytes.
pub open spec fn png_chunk_crc(kind: Seq<u8>, contents: Seq<u8>) -> Seq<u8> {
    u32_be_bytes(crc32(kind + contents) as nat)
}

/// Chunk types that carry metadata: tEXt, zTXt, iTXt, eXIf, tIME, bKGD,
/// hIST and sPLT.
pub const PNG_BLOCKLIST: [[u8; 4]; 8] = [
    [0x74, 0x45, 0x58, 0x74],
    [0x7A, 0x54, 0x58, 0x74],
    [0x69, 0x54, 0x58, 0x74],
    [0x65, 0x58, 0x49, 0x66],
    [0x74, 0x49, 0x4D, 0x45],
    [0x62, 0x4B, 0x47, 0x44],
    [0x68, 0x49, 0x53, 0x54],
    [0x73, 0x50, 0x4C, 0x54],
];

/// Chunk types that are kept: IHDR, PLTE, IDAT, IEND, iCCP, gAMA and tRNS.
pub const PNG_ALLOWLIST: [[u8; 4]; 7] = [
    [0x49, 0x48, 0x44, 0x52],
    [0x50, 0x4C, 0x54, 0x45],
    [0x49, 0x44, 0x41, 0x54],
    [0x49, 0x45, 0x4E, 0x44],
    [0x69, 0x43, 0x43, 0x50],
    [0x67, 0x41, 0x4D, 0x41],
    [0x74, 0x52, 0x4E, 0x53],
];

/// The blocklisted chunk types as plain values.
pub open spec fn png_metadata_kinds() -> Seq<Seq<u8>> {
    PNG_BLOCKLIST@.map_values(|kind: [u8; 4]| kind@)
}

/// The allowlisted chunk types as plain values.
pub open spec fn png_allowed_kinds() -> Seq<Seq<u8>> {
    PNG_ALLOWLIST@.map_values(|kind: [u8; 4]| kind@)
}

/// A chunk whose type is on the blocklist.
pub open spec fn is_metadata_chunk(chunk: PngChunkView) -> bool {
    png_metadata_kinds().contains(chunk.0)
}

/// A chunk that stripping keeps: its type is on the allowlist and not on
/// the blocklist.
pub open spec fn is_kept_chunk(chunk: PngChunkView) -> bool {
    png_allowed_kinds().contains(chunk.0) && !is_metadata_chunk(chunk)
}

/// The chunks that a stripped PNG keeps, in order.
pub open spec fn kept_chunks(chunks: Seq<PngChunkView>) -> Seq<PngChunkView> {
    chunks.filter(|c: PngChunkView| is_kept_chunk(c))
}

/// The chunks that stripping removes, in order.
pub open spec fn removed_chunks(chunks: Seq<PngChunkView>) -> Seq<PngChunkView> {
    chunks.filter(|c: PngChunkView| !is_kept_chunk(c))
}

/// Every chunk is one that stripping keeps.
pub open spec fn holds_only_kept_chunks(chunks: Seq<PngChunkView>) -> bool {
    forall|i: int| 0 <= i < chunks.len() ==> is_kept_chunk(#[trigger] chunks[i])
}

/// The eight-byte PNG signature.
pub open spec fn png_signature() -> Seq<u8> {
    seq![0x89u8, 0x50, 0x4E, 0x47, 0x0D, 0x0A, 0x1A, 0x0A]
}

/// The type of the final chunk.
pub open spec fn iend_kind() -> Seq<u8> {
    seq![0x49u8, 0x45, 0x4E, 0x44]
}

/// Big-endian four-byte encoding.
pub open spec fn u32_be_bytes(n: nat) -> Seq<u8> {
    seq![
        (n / 0x100_0000) as u8,
        ((n / 0x1_0000) % 256) as u8,
        ((n / 256) % 256) as u8,
        (n % 256) as u8,
    ]
}

/// The bytes of one chunk: length, type, contents and CRC.
pub open spec fn chunk_bytes(chunk: PngChunkView) -> Seq<u8> {
    u32_be_bytes(chunk.1.len()) + chunk.0 + chunk.1 + chunk.2
}

/// The bytes of the chunks, one after the other.
pub open spec fn chunks_bytes(chunks: Seq<PngChunkView>) -> Seq<u8>
    decreases chunks.len(),
{
    if chunks.len() == 0 {
        Seq::empty()
    } else {
        chunks_bytes(chunks.drop_last()) + chunk_bytes(chunks.last())
    }
}

/// The bytes of a PNG with the given chunks: the signature, then every
/// chunk.
pub open spec fn png_encoding(chunks: Seq<PngChunkView>) -> Seq<u8> {
    png_signature() + chunks_bytes(chunks)
}

/// Every chunk's length fits in four bytes.
pub open spec fn chunk_lengths_fit(chunks: Seq<PngChunkView>) -> bool {
    forall|i: int| 0 <= i < chunks.len() ==> (#[trigger] chunks[i]).1.len() <= u32::MAX
}

/// What holds of each chunk `img_parts` reads: a four-byte type and CRC,
/// a length that fits in four bytes, and a CRC that matches type and
/// contents.
pub open spec fn is_readable_chunk(chunk: PngChunkView) -> bool {
    &&& chunk.0.len() == 4
    &&& chunk.2.len() == 4
    &&& chunk.1.len() <= u32::MAX
    &&& chunk.2 == png_chunk_crc(chunk.0, chunk.1)
}

/// A chunk that is not IEND (reading stops after IEND).
pub open spec fn is_not_iend(chunk: PngChunkView) -> bool {
    chunk.0 != iend_kind()
}

/// The shape of every chunk list that `img_parts` reads.
pub open spec fn chunks_well_formed(chunks: Seq<PngChunkView>) -> bool {
    &&& forall|i: int| 0 <= i < chunks.len() ==> is_readable_chunk(#[trigger] chunks[i])
    &&& forall|i: int| 0 <= i < chunks.len() - 1 ==> is_not_iend(#[trigger] chunks[i])
}

/// The type of the chunk that carries EXIF data.
pub open spec fn exif_chunk_kind() -> Seq<u8> {
    seq![0x65u8, 0x58, 0x49, 0x66]
}

/// A chunk with a four-byte type and CRC and a length that fits in four
/// bytes, so that its encoding is what a reader reads back.
pub open spec fn is_encodable_chunk(chunk: PngChunkView) -> bool {
    chunk.0.len() == 4 && chunk.2.len() == 4 && chunk.1.len() <= u32::MAX
}

/// The bytes are a PNG made of well-shaped chunks none of which is an
/// eXIf chunk.
pub open spec fn is_png_without_exif_chunk(data: Seq<u8>) -> bool {
    exists|chunks: Seq<PngChunkView>|
        #[trigger] png_encoding(chunks) == data && forall|i: int|
            0 <= i < chunks.len() ==> is_encodable_chunk(#[trigger] chunks[i]) && chunks[i].0
                != exif_chunk_kind()
}

/// `Png::from_bytes` reads exactly these chunks from these bytes.
pub open spec fn png_reads_as(data: Seq<u8>, chunks: Seq<PngChunkView>) -> bool {
    png_parse(data) == Ok::<Seq<PngChunkView>, ImageFormatError>(chunks)
}

/// Reading stopped at the last byte: nothing follows the chunks read.
pub open spec fn png_has_no_trailing_bytes(data: Seq<u8>) -> bool {
    png_parse(data) matches Ok(chunks) && png_encoding(chunks).len() == data.len()
}

/// Reads a PNG with `img_parts::png::Png::from_bytes`.
///
/// Claims: the outcome is the one named by `png_parse`; the chunks read
/// have the shape of `chunks_well_formed` (four-byte type and CRC, a length
/// read from four bytes, a CRC equal to the CRC-32 that `img_parts`
/// computes with `crc32fast` over type and contents, and no IEND
/// before the last chunk, as reading stops there); and the chunks, written back, are
/// exactly the bytes read, which are all of `data` unless reading stopped
/// early at an IEND chunk (the parser ignores what follows IEND). Fewer
/// than eight bytes give `Truncated`; eight or more that do not start with
/// the signature give `WrongSignature`.
#[verifier::external_body]
fn parse_png(data: &[u8]) -> (result: Result<Png, ImageFormatError>)
    ensures
        match result {
            Ok(png) => {
                &&& png_parse(data@) == Ok::<Seq<PngChunkView>, ImageFormatError>(png_chunks(png))
                &&& chunks_well_formed(png_chunks(png))
                &&& png_encoding(png_chunks(png)).len() <= data@.len()
                &&& data@.take(png_encoding(png_chunks(png)).len() as int) == png_encoding(
                    png_chunks(png),
                )
                &&& png_encoding(png_chunks(png)).len() < data@.len() ==> {
                    &&& png_chunks(png).len() > 0
                    &&& png_chunks(png).last().0 == iend_kind()
                }
            },
            Err(error) => png_parse(data@) == Err::<Seq<PngChunkView>, ImageFormatError>(error),
        },
        data@.len() < 8 ==> match result {
            Err(ImageFormatError::Truncated) => true,
            _ => false,
        },
        data@.len() >= 8 && data@.take(8) != png_signature() ==> match result {
            Err(ImageFormatError::WrongSignature) => true,
            _ => false,
        },
{
    match Png::from_bytes(data.to_vec().into()) {
        Ok(png) => Ok(png),
        Err(img_parts::Error::WrongSignature) => Err(ImageFormatError::WrongSignature),
        Err(img_parts::Error::BadCRC) => Err(ImageFormatError::BadCrc),
        Err(img_parts::Error::Truncated) => Err(ImageFormatError::Truncated),
    }
}

/// The types of the chunks, read with `Png::chunks` and `PngChunk::kind`.
#[verifier::external_body]
fn png_kinds(png: &Png) -> (kinds: Vec<[u8; 4]>)
    ensures
        kinds@.len() == png_chunks(*png).len(),
        forall|i: int| 0 <= i < kinds@.len() ==> (#[trigger] kinds@[i])@ == png_chunks(*png)[i].0,
{
    png.chunks().iter().map(|chunk| chunk.kind()).collect()
}

/// Removes one chunk with `Vec::remove` on `Png::chunks_mut`.
#[verifier::external_body]
fn png_remove_chunk(png: &mut Png, index: usize)
    requires
        index < png_chunks(*old(png)).len(),
    ensures
        png_chunks(*final(png)) == png_chunks(*old(png)).remove(index as int),
{
    png.chunks_mut().remove(index);
}

/// Writes a `Png` with `Png::encoder` and `ImageEncoder::bytes`.
///
/// The encoder writes each chunk's length with `try_into().unwrap()`, which
/// the `requires` keeps from panicking. Claims too that `Png::from_bytes`
/// reads the same chunks back from these bytes when they have the shape it
/// produces: each length, type, contents and CRC is read back as written,
/// every CRC matches, and reading ends with the bytes (or at an IEND that is
/// the last chunk).
#[verifier::external_body]
fn encode_png(png: Png) -> (bytes: Vec<u8>)
    requires
        chunk_lengths_fit(png_chunks(png)),
    ensures
        bytes@ == png_encoding(png_chunks(png)),
        chunks_well_formed(png_chunks(png)) ==> png_reads_as(bytes@, png_chunks(png)),
{
    png.encoder().bytes().to_vec()
}

/// Whether a chunk type is one of the listed types.
fn kind_is_listed(kind: &[u8; 4], list: &[[u8; 4]]) -> (listed: bool)
    ensures
        listed == list@.map_values(|k: [u8; 4]| k@).contains(kind@),
{
    let ghost kinds = list@.map_values(|k: [u8; 4]| k@);
    let mut i: usize = 0;
    while i < list.len()
        invariant
            0 <= i <= list@.len(),
            kinds == list@.map_values(|k: [u8; 4]| k@),
            forall|j: int| 0 <= j < i ==> list@[j]@ != kind@,
        decreases list@.len() - i,
    {
        let entry = &list[i];
        if entry[0] == kind[0] && entry[1] == kind[1] && entry[2] == kind[2] && entry[3] == kind[3] {
            assert(entry@ =~= kind@);
            assert(kinds[i as int] == kind@);
            return true;
        }
        assert(entry@ != kind@) by {
            if entry@ == kind@ {
                assert(entry@[0] == kind@[0]);
                assert(entry@[3] == kind@[3]);
            }
        }
        i = i + 1;
    }
    assert forall|j: int| 0 <= j < kinds.len() implies kinds[j] != kind@ by {
        assert(kinds[j] == list@[j]@);
    }
    false
}

/// Whether a chunk type is on the metadata blocklist.
pub fn is_blocked_chunk_kind(kind: &[u8; 4]) -> (blocked: bool)
    ensures
        blocked == png_metadata_kinds().contains(kind@),
{
    kind_is_listed(kind, &PNG_BLOCKLIST)
}

/// Whether a chunk type is on the allowlist.
pub fn is_allowed_chunk_kind(kind: &[u8; 4]) -> (allowed: bool)
    ensures
        allowed == png_allowed_kinds().contains(kind@),
{
    kind_is_listed(kind, &PNG_ALLOWLIST)
}

/// Whether stripping keeps chunks of this type: allowlisted and not
/// blocklisted.
pub fn is_kept_chunk_kind(kind: &[u8; 4]) -> (kept: bool)
    ensures
        kept == (png_allowed_kinds().contains(kind@) && !png_metadata_kinds().contains(kind@)),
{
    is_allowed_chunk_kind(kind) && !is_blocked_chunk_kind(kind)
}

/// Removes every chunk that stripping does not keep, keeping the others in
/// order.
fn remove_unkept_chunks(png: &mut Png)
    ensures
        png_chunks(*final(png)) == kept_chunks(png_chunks(*old(png))),
{
    let ghost original = png_chunks(*png);
    let kinds = png_kinds(png);
    let mut i: usize = 0;
    let mut kept: usize = 0;
    assert(original.take(0) =~= Seq::<PngChunkView>::empty());
    assert(original.skip(0) =~= original);
    proof {
        reveal(Seq::filter);
    }
    while i < kinds.len()
        invariant
            kinds@.len() == original.len(),
            forall|j: int| 0 <= j < kinds@.len() ==> (#[trigger] kinds@[j])@ == original[j].0,
            0 <= kept <= i <= kinds@.len(),
            kept == kept_chunks(original.take(i as int)).len(),
            png_chunks(*png) == kept_chunks(original.take(i as int)) + original.skip(
                i as int,
            ),
        decreases kinds@.len() - i,
    {
        let ghost before = png_chunks(*png);
        let ghost prefix = kept_chunks(original.take(i as int));
        proof {
            lemma_filter_step(original, i as int, |c: PngChunkView| is_kept_chunk(c));
            assert(original.skip(i as int) =~= seq![original[i as int]] + original.skip(i + 1));
            assert(before[kept as int] == original[i as int]);
        }
        if !is_kept_chunk_kind(&kinds[i]) {
            png_remove_chunk(png, kept);
            proof {
                assert(png_chunks(*png) =~= prefix + original.skip(i + 1));
            }
        } else {
            proof {
                assert(before =~= prefix.push(original[i as int]) + original.skip(i + 1));
            }
            kept = kept + 1;
        }
        i = i + 1;
    }
    assert(original.take(original.len() as int) =~= original);
    assert(original.skip(original.len() as int) =~= Seq::<PngChunkView>::empty());
    assert(png_chunks(*png) =~= kept_chunks(original));
}

/// Filtering keeps the shape of a chunk list that `img_parts` reads.
proof fn lemma_filter_well_formed(chunks: Seq<PngChunkView>, pred: spec_fn(PngChunkView) -> bool)
    requires
        chunks_well_formed(chunks),
    ensures
        chunks_well_formed(chunks.filter(pred)),
        chunk_lengths_fit(chunks.filter(pred)),
{
    lemma_filter_subset(chunks, pred);
    assert forall|i: int| 0 <= i < chunks.filter(pred).len() implies is_readable_chunk(
        #[trigger] chunks.filter(pred)[i],
    ) by {
        let j = choose|j: int| 0 <= j < chunks.len() && chunks[j] == chunks.filter(pred)[i];
        assert(is_readable_chunk(chunks[j]));
    }
    lemma_filter_all_but_last(chunks, pred, |c: PngChunkView| is_not_iend(c));
    assert forall|i: int| 0 <= i < chunks.filter(pred).len() implies (#[trigger] chunks.filter(
        pred,
    )[i]).1.len() <= u32::MAX by {
        assert(is_readable_chunk(chunks.filter(pred)[i]));
    }
}

/// The prefix of the message reported for bytes that are not a PNG.
pub open spec fn png_error_prefix() -> Seq<char> {
    "PNG parse error: "@
}

/// What stripping the given bytes gives: the PNG re-encoded from the chunks
/// it keeps, or the parse error.
pub open spec fn png_strip_outcome(data: Seq<u8>) -> Result<Seq<u8>, Seq<char>> {
    match png_parse(data) {
        Ok(chunks) => Ok(png_encoding(kept_chunks(chunks))),
        Err(error) => Err(parse_error_message(png_error_prefix(), error)),
    }
}

/// Keeps only the allowlisted chunks of a PNG (IHDR, PLTE, IDAT, IEND,
/// iCCP, gAMA, tRNS) and writes them back byte for byte and in order;
/// metadata chunks and every other chunk are removed. A PNG holding only
/// such chunks comes back as the bytes that were read, which are all of its
/// bytes when nothing follows its IEND chunk; stripping the output again
/// gives it back unchanged.
pub fn strip_png_inner(data: &[u8]) -> (result: Result<Vec<u8>, String>)
    ensures
        result_view(result) == png_strip_outcome(data@),
        result matches Ok(out) ==> out@.len() >= 8 && out@.take(8) == png_signature(),
        result matches Ok(out) ==> png_strip_outcome(out@) == Ok::<Seq<u8>, Seq<char>>(out@),
        result matches Ok(out) ==> is_png_without_exif_chunk(out@),
        png_parse(data@) matches Ok(chunks) ==> (result matches Ok(out) && png_reads_as(
            out@,
            kept_chunks(chunks),
        )),
        png_parse(data@) matches Ok(chunks) ==> (result matches Ok(out) && out@.len() + chunks_bytes(
            removed_chunks(chunks),
        ).len() == png_encoding(chunks).len() && out@.len() <= data@.len()),
        data@.len() < 8 ==> result_view(result) == Err::<Seq<u8>, Seq<char>>(
            parse_error_message(png_error_prefix(), ImageFormatError::Truncated),
        ),
        data@.len() >= 8 && data@.take(8) != png_signature() ==> result_view(result) == Err::<
            Seq<u8>,
            Seq<char>,
        >(parse_error_message(png_error_prefix(), ImageFormatError::WrongSignature)),
        png_parse(data@) matches Ok(chunks) ==> (holds_only_kept_chunks(chunks) ==> (
        result matches Ok(out) && out@ == data@.take(out@.len() as int))),
        png_has_no_trailing_bytes(data@) ==> (png_parse(data@) matches Ok(chunks)
            ==> (holds_only_kept_chunks(chunks) ==> (result matches Ok(out) && out@ == data@))),
{
    match parse_png(data) {
        Err(error) => Err(parse_error_string("PNG parse error: ", error)),
        Ok(png) => {
            let ghost chunks = png_chunks(png);
            proof {
                if holds_only_kept_chunks(chunks) {
                    lemma_filter_all_pass(chunks, |c: PngChunkView| is_kept_chunk(c));
                }
            }
            let out = strip_parsed_png(png);
            proof {
                lemma_png_strip_idempotent(chunks);
                lemma_stripped_png_has_no_exif_chunk(chunks);
                lemma_stripped_png_size(chunks);
            }
            Ok(out)
        },
    }
}

/// Keeps only the allowlisted chunks of a parsed PNG and writes them back;
/// the bytes read back as the kept chunks.
pub fn strip_parsed_png(png: Png) -> (out: Vec<u8>)
    requires
        chunks_well_formed(png_chunks(png)),
    ensures
        out@ == png_encoding(kept_chunks(png_chunks(png))),
        out@.len() >= 8 && out@.take(8) == png_signature(),
        png_reads_as(out@, kept_chunks(png_chunks(png))),
{
    let mut png = png;
    let ghost parsed = png_chunks(png);
    remove_unkept_chunks(&mut png);
    proof {
        lemma_filter_well_formed(parsed, |c: PngChunkView| is_kept_chunk(c));
    }
    let out = encode_png(png);
    assert(out@.take(8) =~= png_signature());
    out
}

/// Law: a stripped PNG keeps only allowlisted chunks and no blocklisted one.
pub proof fn lemma_stripped_png_holds_only_kept_chunks(chunks: Seq<PngChunkView>)
    ensures
        holds_only_kept_chunks(kept_chunks(chunks)),
        forall|i: int|
            0 <= i < kept_chunks(chunks).len() ==> png_allowed_kinds().contains(
                (#[trigger] kept_chunks(chunks)[i]).0,
            ) && !is_metadata_chunk(kept_chunks(chunks)[i]),
{
    lemma_filter_exact(chunks, |c: PngChunkView| is_kept_chunk(c));
}

/// Law: every allowlisted chunk (IHDR, PLTE, IDAT, IEND, iCCP, gAMA, tRNS)
/// survives stripping.
pub proof fn lemma_stripped_png_keeps_allowed_chunks(chunks: Seq<PngChunkView>)
    ensures
        forall|i: int|
            0 <= i < chunks.len() && png_allowed_kinds().contains((#[trigger] chunks[i]).0)
                ==> kept_chunks(chunks).contains(chunks[i]),
{
    lemma_filter_exact(chunks, |c: PngChunkView| is_kept_chunk(c));
    assert forall|i: int|
        0 <= i < chunks.len() && png_allowed_kinds().contains((#[trigger] chunks[i]).0) implies kept_chunks(
        chunks,
    ).contains(chunks[i]) by {
        let j = choose|j: int| 0 <= j < png_allowed_kinds().len() && png_allowed_kinds()[j] == chunks[i].0;
        assert(png_allowed_kinds()[j] == PNG_ALLOWLIST@[j]@);
        if png_metadata_kinds().contains(chunks[i].0) {
            let k = choose|k: int| 0 <= k < png_metadata_kinds().len() && png_metadata_kinds()[k]
                == chunks[i].0;
            assert(png_metadata_kinds()[k] == PNG_BLOCKLIST@[k]@);
            assert(PNG_ALLOWLIST@[j]@[0] == PNG_BLOCKLIST@[k]@[0]);
            assert(PNG_ALLOWLIST@[j]@[1] == PNG_BLOCKLIST@[k]@[1]);
            assert(PNG_ALLOWLIST@[j]@[2] == PNG_BLOCKLIST@[k]@[2]);
            assert(PNG_ALLOWLIST@[j]@[3] == PNG_BLOCKLIST@[k]@[3]);
        }
        assert(is_kept_chunk(chunks[i]));
    }
}

/// Law: a PNG holding only allowlisted chunks keeps every chunk, in order.
pub proof fn lemma_clean_png_unchanged(chunks: Seq<PngChunkView>)
    requires
        holds_only_kept_chunks(chunks),
    ensures
        kept_chunks(chunks) == chunks,
{
    lemma_filter_all_pass(chunks, |c: PngChunkView| is_kept_chunk(c));
}

/// Law: stripping the chunks of a stripped PNG changes nothing.
pub proof fn lemma_png_strip_idempotent(chunks: Seq<PngChunkView>)
    ensures
        kept_chunks(kept_chunks(chunks)) == kept_chunks(chunks),
{
    lemma_stripped_png_holds_only_kept_chunks(chunks);
    lemma_clean_png_unchanged(kept_chunks(chunks));
}

/// Law: a stripped PNG is made of well-shaped chunks and holds no eXIf
/// chunk.
pub proof fn lemma_stripped_png_has_no_exif_chunk(chunks: Seq<PngChunkView>)
    requires
        chunks_well_formed(chunks),
    ensures
        is_png_without_exif_chunk(png_encoding(kept_chunks(chunks))),
{
    let kept = kept_chunks(chunks);
    lemma_filter_exact(chunks, |c: PngChunkView| is_kept_chunk(c));
    lemma_filter_well_formed(chunks, |c: PngChunkView| is_kept_chunk(c));
    assert forall|i: int| 0 <= i < kept.len() implies is_encodable_chunk(#[trigger] kept[i])
        && kept[i].0 != exif_chunk_kind() by {
        assert(is_readable_chunk(kept[i]));
        assert(is_kept_chunk(kept[i]));
        assert(png_metadata_kinds()[3] == PNG_BLOCKLIST@[3]@);
        assert(png_metadata_kinds()[3] =~= exif_chunk_kind());
    }
    assert(png_encoding(kept) == png_encoding(kept));
}

/// Law: the output of stripping is as long as the chunks read, less the
/// bytes of the chunks removed.
pub proof fn lemma_stripped_png_size(chunks: Seq<PngChunkView>)
    ensures
        png_encoding(kept_chunks(chunks)).len() + chunks_bytes(removed_chunks(chunks)).len()
            == png_encoding(chunks).len(),
    decreases chunks.len(),
{
    reveal(Seq::filter);
    if chunks.len() > 0 {
        let init = chunks.drop_last();
        let last = chunks.last();
        lemma_stripped_png_size(init);
        if is_kept_chunk(last) {
            assert(kept_chunks(chunks) == kept_chunks(init).push(last));
            assert(kept_chunks(init).push(last).drop_last() =~= kept_chunks(init));
            assert(removed_chunks(chunks) == removed_chunks(init));
        } else {
            assert(removed_chunks(chunks) == removed_chunks(init).push(last));
            assert(removed_chunks(init).push(last).drop_last() =~= removed_chunks(init));
            assert(kept_chunks(chunks) == kept_chunks(init));
        }
    }
}

/// Law: stripping keeps exactly the chunks of type IHDR, PLTE, IDAT, IEND,
/// iCCP, gAMA and tRNS, and the blocklist is exactly tEXt, zTXt, iTXt,
/// eXIf, tIME, bKGD, hIST and sPLT.
pub proof fn lemma_png_kept_and_blocked_kinds(chunk: PngChunkView)
    ensures
        is_kept_chunk(chunk) <==> (chunk.0 == seq![0x49u8, 0x48, 0x44, 0x52] || chunk.0 == seq![
            0x50u8,
            0x4C,
            0x54,
            0x45,
        ] || chunk.0 == seq![0x49u8, 0x44, 0x41, 0x54] || chunk.0 == seq![0x49u8, 0x45, 0x4E, 0x44]
            || chunk.0 == seq![0x69u8, 0x43, 0x43, 0x50] || chunk.0 == seq![0x67u8, 0x41, 0x4D, 0x41]
            || chunk.0 == seq![0x74u8, 0x52, 0x4E, 0x53]),
        is_metadata_chunk(chunk) <==> (chunk.0 == seq![0x74u8, 0x45, 0x58, 0x74] || chunk.0
            == seq![0x7Au8, 0x54, 0x58, 0x74] || chunk.0 == seq![0x69u8, 0x54, 0x58, 0x74] || chunk.0
            == seq![0x65u8, 0x58, 0x49, 0x66] || chunk.0 == seq![0x74u8, 0x49, 0x4D, 0x45] || chunk.0
            == seq![0x62u8, 0x4B, 0x47, 0x44] || chunk.0 == seq![0x68u8, 0x49, 0x53, 0x54] || chunk.0
            == seq![0x73u8, 0x50, 0x4C, 0x54]),
{
    let allowed = seq![
        seq![0x49u8, 0x48, 0x44, 0x52],
        seq![0x50u8, 0x4C, 0x54, 0x45],
        seq![0x49u8, 0x44, 0x41, 0x54],
        seq![0x49u8, 0x45, 0x4E, 0x44],
        seq![0x69u8, 0x43, 0x43, 0x50],
        seq![0x67u8, 0x41, 0x4D, 0x41],
        seq![0x74u8, 0x52, 0x4E, 0x53],
    ];
    let blocked = seq![
        seq![0x74u8, 0x45, 0x58, 0x74],
        seq![0x7Au8, 0x54, 0x58, 0x74],
        seq![0x69u8, 0x54, 0x58, 0x74],
        seq![0x65u8, 0x58, 0x49, 0x66],
        seq![0x74u8, 0x49, 0x4D, 0x45],
        seq![0x62u8, 0x4B, 0x47, 0x44],
        seq![0x68u8, 0x49, 0x53, 0x54],
        seq![0x73u8, 0x50, 0x4C, 0x54],
    ];
    assert(png_allowed_kinds() =~= allowed);
    assert(png_metadata_kinds() =~= blocked);
    if allowed.contains(chunk.0) {
        let i = choose|i: int| 0 <= i < allowed.len() && allowed[i] == chunk.0;
        assert(!blocked.contains(chunk.0)) by {
            if blocked.contains(chunk.0) {
                let j = choose|j: int| 0 <= j < blocked.len() && blocked[j] == chunk.0;
                assert(allowed[i][0] == blocked[j][0]);
                assert(allowed[i][1] == blocked[j][1]);
            }
        }
    }
}

} // verus!
