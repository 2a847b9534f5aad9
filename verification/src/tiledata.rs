//! The tile-data codec: from the `data` member of a tile layer to the flat,
//! row-major sequence of tile identifiers.

use vstd::prelude::*;
use crate::error::{improper_data, partial_tile, Failure, TiledError};
use crate::json::{items_data, json_data, JsonData, JsonNumber};

verus! {

/// Algorithm that compressed the tile bytes before they were written as base64.
#[derive(Debug, PartialEq, Eq, Clone, Copy)]
pub enum Compression {
    Zlib,
    Gzip,
}

/// How a layer writes its tile identifiers.
#[derive(Debug, PartialEq, Eq, Clone, Copy)]
pub enum Encoding {
    /// An array of numbers.
    Csv,
    /// A base64 string of little-endian 32-bit words.
    Base64,
}

/// The bytes that a text stands for in standard base64, and `None` where it
/// is not valid base64.
pub uninterp spec fn base64_decoded(text: Seq<char>) -> Option<Seq<u8>>;

/// The bytes that a zlib stream inflates to, and `None` where the stream is
/// malformed.
pub uninterp spec fn zlib_inflated(data: Seq<u8>) -> Option<Seq<u8>>;

/// The bytes that a gzip stream inflates to, and `None` where the stream is
/// malformed.
pub uninterp spec fn gzip_inflated(data: Seq<u8>) -> Option<Seq<u8>>;

/// Whether a character has the Unicode property White_Space.
pub open spec fn is_white_space(c: char) -> bool {
    let u = c as u32;
    ||| 0x09 <= u <= 0x0d
    ||| u == 0x20
    ||| u == 0x85
    ||| u == 0xa0
    ||| u == 0x1680
    ||| 0x2000 <= u <= 0x200a
    ||| u == 0x2028
    ||| u == 0x2029
    ||| u == 0x202f
    ||| u == 0x205f
    ||| u == 0x3000
}

/// A text without its leading white space.
pub open spec fn trimmed_start(text: Seq<char>) -> Seq<char>
    decreases text.len(),
{
    if text.len() > 0 && is_white_space(text.first()) {
        trimmed_start(text.drop_first())
    } else {
        text
    }
}

/// A text without its trailing white space.
pub open spec fn trimmed_end(text: Seq<char>) -> Seq<char>
    decreases text.len(),
{
    if text.len() > 0 && is_white_space(text.last()) {
        trimmed_end(text.drop_last())
    } else {
        text
    }
}

/// A text without the white space around it.
pub open spec fn trimmed(text: Seq<char>) -> Seq<char> {
    trimmed_end(trimmed_start(text))
}

/// The 32-bit word that four bytes spell, least significant byte first.
pub open spec fn le_word(b0: u8, b1: u8, b2: u8, b3: u8) -> u32 {
    (b0 + 0x100 * b1 + 0x1_0000 * b2 + 0x100_0000 * b3) as u32
}

/// The words that the complete groups of four bytes spell, in their order.
/// Up to three bytes after the last complete group are left out.
pub open spec fn le_words(bytes: Seq<u8>) -> Seq<u32> {
    Seq::new(
        (bytes.len() / 4) as nat,
        |k: int| le_word(bytes[4 * k], bytes[4 * k + 1], bytes[4 * k + 2], bytes[4 * k + 3]),
    )
}

/// The low 32 bits of a number.
pub open spec fn low_word(n: u64) -> u32 {
    (n % 0x1_0000_0000) as u32
}

/// The tiles of an array: each element that is a non-negative integer, in
/// the array's order, by its low 32 bits. Every other element is passed over.
pub open spec fn csv_tiles(items: Seq<JsonData>) -> Seq<u32>
    decreases items.len(),
{
    if items.len() == 0 {
        Seq::empty()
    } else {
        let before = csv_tiles(items.drop_last());
        match items.last().as_u64() {
            Some(n) => before.push(low_word(n)),
            None => before,
        }
    }
}

/// The bytes after the compression, if any, is undone.
pub open spec fn inflated(raw: Seq<u8>, compression: Option<Compression>) -> Option<Seq<u8>> {
    match compression {
        Some(Compression::Gzip) => gzip_inflated(raw),
        Some(Compression::Zlib) => zlib_inflated(raw),
        None => Some(raw),
    }
}

/// The tile bytes that base64 data stand for: the string, trimmed, decoded
/// and inflated; or the stage at which that fails.
pub open spec fn base64_bytes(data: JsonData, compression: Option<Compression>) -> Result<
    Seq<u8>,
    Failure,
> {
    match data.as_text() {
        None => Err(Failure::Other(improper_data())),
        Some(text) => match base64_decoded(trimmed(text)) {
            None => Err(Failure::Base64Decoding),
            Some(raw) => match inflated(raw, compression) {
                None => Err(Failure::Decompressing),
                Some(bytes) => Ok(bytes),
            },
        },
    }
}

/// The tiles that a run of bytes spells, which must be whole words.
pub open spec fn words_of(bytes: Seq<u8>) -> Result<Seq<u32>, Failure> {
    if bytes.len() % 4 == 0 {
        Ok(le_words(bytes))
    } else {
        Err(Failure::Other(partial_tile()))
    }
}

/// The tiles of base64 data.
pub open spec fn base64_tiles(data: JsonData, compression: Option<Compression>) -> Result<
    Seq<u32>,
    Failure,
> {
    match base64_bytes(data, compression) {
        Ok(bytes) => words_of(bytes),
        Err(failure) => Err(failure),
    }
}

/// The tiles that base64 data append before they succeed or fail: every
/// complete word of the tile bytes, and nothing where there are no bytes.
pub open spec fn base64_appended(data: JsonData, compression: Option<Compression>) -> Seq<u32> {
    match base64_bytes(data, compression) {
        Ok(bytes) => le_words(bytes),
        Err(_) => Seq::empty(),
    }
}

/// The tiles of array data.
pub open spec fn array_tiles(data: JsonData) -> Result<Seq<u32>, Failure> {
    match data.as_items() {
        Some(items) => Ok(csv_tiles(items)),
        None => Err(Failure::Other(improper_data())),
    }
}

/// The tiles of a layer's data under its encoding and compression. Without
/// an encoding the data are an array; the compression bears on base64 only.
pub open spec fn decoded_tiles(
    data: JsonData,
    encoding: Option<Encoding>,
    compression: Option<Compression>,
) -> Result<Seq<u32>, Failure> {
    match encoding {
        Some(Encoding::Base64) => base64_tiles(data, compression),
        _ => array_tiles(data),
    }
}

/// One byte of a 32-bit word: `place` 0 is the least significant.
pub open spec fn le_byte(word: u32, place: int) -> u8 {
    if place == 0 {
        (word % 0x100) as u8
    } else if place == 1 {
        ((word / 0x100) % 0x100) as u8
    } else if place == 2 {
        ((word / 0x1_0000) % 0x100) as u8
    } else {
        ((word / 0x100_0000) % 0x100) as u8
    }
}

/// The bytes that spell a sequence of words, each least significant byte
/// first.
pub open spec fn le_bytes(words: Seq<u32>) -> Seq<u8> {
    Seq::new(4 * words.len(), |j: int| le_byte(words[j / 4], j % 4))
}

/// The array that spells a sequence of tiles as numbers.
pub open spec fn number_array(tiles: Seq<u32>) -> JsonData {
    JsonData::Array(tiles.map_values(|t: u32| JsonData::Number(JsonNumber::Integer(t as int))))
}

/// Reading the bytes that spell a sequence of words gives the words back.
pub proof fn lemma_le_round_trip(words: Seq<u32>)
    ensures
        le_words(le_bytes(words)) == words,
        words_of(le_bytes(words)) == Ok::<Seq<u32>, Failure>(words),
{
    let bytes = le_bytes(words);
    assert(bytes.len() == 4 * words.len());
    assert forall|k: int| 0 <= k < words.len() implies le_word(
        bytes[4 * k],
        bytes[4 * k + 1],
        bytes[4 * k + 2],
        bytes[4 * k + 3],
    ) == words[k] by {
        let w = words[k];
        assert(bytes[4 * k] == le_byte(w, 0));
        assert(bytes[4 * k + 1] == le_byte(w, 1));
        assert(bytes[4 * k + 2] == le_byte(w, 2));
        assert(bytes[4 * k + 3] == le_byte(w, 3));
        assert(w == w % 0x100 + 0x100 * ((w / 0x100) % 0x100) + 0x1_0000 * ((w / 0x1_0000) % 0x100)
            + 0x100_0000 * ((w / 0x100_0000) % 0x100)) by (bit_vector);
    }
    assert(le_words(bytes) =~= words);
}

/// The tiles of two arrays, one after the other, are the tiles of the one
/// followed by the tiles of the other.
pub proof fn lemma_csv_tiles_concat(front: Seq<JsonData>, back: Seq<JsonData>)
    ensures
        csv_tiles(front + back) == csv_tiles(front) + csv_tiles(back),
    decreases back.len(),
{
    if back.len() == 0 {
        assert(front + back =~= front);
        assert(csv_tiles(front) + csv_tiles(back) =~= csv_tiles(front));
    } else {
        assert((front + back).drop_last() =~= front + back.drop_last());
        assert((front + back).last() == back.last());
        lemma_csv_tiles_concat(front, back.drop_last());
        match back.last().as_u64() {
            Some(n) => {
                assert(csv_tiles(front + back) =~= csv_tiles(front) + csv_tiles(back));
            },
            None => {},
        }
    }
}

/// An element that is no non-negative integer, a string for one, is passed
/// over: the tiles before it and after it stay, in their order.
pub proof fn lemma_csv_passes_over(front: Seq<JsonData>, stray: JsonData, back: Seq<JsonData>)
    requires
        stray.as_u64() is None,
    ensures
        csv_tiles(front + seq![stray] + back) == csv_tiles(front) + csv_tiles(back),
{
    lemma_csv_tiles_concat(front + seq![stray], back);
    lemma_csv_tiles_concat(front, seq![stray]);
    assert(seq![stray].drop_last() =~= Seq::<JsonData>::empty());
    assert(seq![stray].last() == stray);
    assert(csv_tiles(Seq::<JsonData>::empty()) =~= Seq::<u32>::empty());
    assert(csv_tiles(seq![stray]) =~= Seq::<u32>::empty());
    assert(csv_tiles(front) + Seq::<u32>::empty() =~= csv_tiles(front));
}

/// The array that spells tiles as numbers decodes to those tiles.
pub proof fn lemma_number_array_tiles(tiles: Seq<u32>)
    ensures
        array_tiles(number_array(tiles)) == Ok::<Seq<u32>, Failure>(tiles),
    decreases tiles.len(),
{
    let items = tiles.map_values(|t: u32| JsonData::Number(JsonNumber::Integer(t as int)));
    if tiles.len() == 0 {
        assert(csv_tiles(items) =~= tiles);
    } else {
        let front = tiles.drop_last();
        lemma_number_array_tiles(front);
        assert(items.drop_last() =~= front.map_values(
            |t: u32| JsonData::Number(JsonNumber::Integer(t as int)),
        ));
        assert(items.last().as_u64() == Some(tiles.last() as u64));
        assert(csv_tiles(items) =~= tiles);
    }
}

/// The two encodings of one layer agree: the array of the tiles as numbers,
/// and a base64 string whose bytes, decoded and inflated, spell the same
/// tiles least significant byte first, decode to the same tiles, which are
/// those tiles. A layer without an encoding is read as an array.
pub proof fn lemma_encodings_agree(
    tiles: Seq<u32>,
    text: JsonData,
    compression: Option<Compression>,
    other: Option<Compression>,
)
    requires
        base64_bytes(text, compression) == Ok::<Seq<u8>, Failure>(le_bytes(tiles)),
    ensures
        decoded_tiles(text, Some(Encoding::Base64), compression) == Ok::<Seq<u32>, Failure>(tiles),
        decoded_tiles(number_array(tiles), Some(Encoding::Csv), other) == Ok::<Seq<u32>, Failure>(
            tiles,
        ),
        decoded_tiles(number_array(tiles), None, other) == Ok::<Seq<u32>, Failure>(tiles),
{
    lemma_le_round_trip(tiles);
    lemma_number_array_tiles(tiles);
}

/// The outcome of a decoding step as the contracts state it.
pub open spec fn outcome<T: View>(res: Result<T, TiledError>) -> Result<T::V, Failure> {
    match res {
        Ok(value) => Ok(value@),
        Err(error) => Err(error@),
    }
}

/// `base64::decode` decodes standard base64 with padding: the bytes on
/// success, the decoder's error where the text is not valid base64.
#[verifier::external_body]
fn base64_decode(text: &str) -> (res: Result<Vec<u8>, base64::DecodeError>)
    ensures
        match res {
            Ok(bytes) => base64_decoded(text@) == Some(bytes@),
            Err(_) => base64_decoded(text@) is None,
        },
{
    base64::decode(text)
}

/// `libflate::zlib::Decoder` read to its end: the inflated bytes of a zlib
/// stream, or the decoder's error where the stream is malformed.
#[verifier::external_body]
fn zlib_inflate(data: &[u8]) -> (res: Result<Vec<u8>, std::io::Error>)
    ensures
        match res {
            Ok(bytes) => zlib_inflated(data@) == Some(bytes@),
            Err(_) => zlib_inflated(data@) is None,
        },
{
    let mut buffer = Vec::new();
    let mut decoder = libflate::zlib::Decoder::new(data)?;
    std::io::Read::read_to_end(&mut decoder, &mut buffer)?;
    Ok(buffer)
}

/// `libflate::gzip::Decoder` read to its end: the inflated bytes of a gzip
/// stream, or the decoder's error where the stream is malformed.
#[verifier::external_body]
fn gzip_inflate(data: &[u8]) -> (res: Result<Vec<u8>, std::io::Error>)
    ensures
        match res {
            Ok(bytes) => gzip_inflated(data@) == Some(bytes@),
            Err(_) => gzip_inflated(data@) is None,
        },
{
    let mut buffer = Vec::new();
    let mut decoder = libflate::gzip::Decoder::new(data)?;
    std::io::Read::read_to_end(&mut decoder, &mut buffer)?;
    Ok(buffer)
}

/// `str::trim` gives the text without its leading and trailing white space,
/// where white space is what Unicode gives the property White_Space.
#[verifier::external_body]
fn trim(text: &str) -> (res: &str)
    ensures
        res@ == trimmed(text@),
{
    text.trim()
}

/// Inflates a zlib stream.
pub fn decode_zlib(data: Vec<u8>) -> (res: Result<Vec<u8>, TiledError>)
    ensures
        match zlib_inflated(data@) {
            Some(bytes) => res matches Ok(out) && out@ == bytes,
            None => res matches Err(e) && e@ == Failure::Decompressing,
        },
{
    match zlib_inflate(data.as_slice()) {
        Ok(bytes) => Ok(bytes),
        Err(cause) => Err(TiledError::DecompressingError(cause)),
    }
}

/// Inflates a gzip stream.
pub fn decode_gzip(data: Vec<u8>) -> (res: Result<Vec<u8>, TiledError>)
    ensures
        match gzip_inflated(data@) {
            Some(bytes) => res matches Ok(out) && out@ == bytes,
            None => res matches Err(e) && e@ == Failure::Decompressing,
        },
{
    match gzip_inflate(data.as_slice()) {
        Ok(bytes) => Ok(bytes),
        Err(cause) => Err(TiledError::DecompressingError(cause)),
    }
}

/// Appends to `tiles` the words that `bytes` spell, least significant byte
/// first. Bytes that end inside a word are an error, returned after the
/// complete words before them were appended.
pub fn append_le_words(bytes: &[u8], tiles: &mut Vec<u32>) -> (res: Result<(), TiledError>)
    ensures
        final(tiles)@ == old(tiles)@ + le_words(bytes@),
        match words_of(bytes@) {
            Ok(_) => res is Ok,
            Err(failure) => res matches Err(e) && e@ == failure,
        },
{
    let ghost before = tiles@;
    let ghost words = le_words(bytes@);
    let len: usize = bytes.len();
    let count: usize = len / 4;
    let mut k: usize = 0;
    while k < count
        invariant
            len == bytes@.len(),
            count == len / 4,
            words == le_words(bytes@),
            k <= count,
            tiles@ == before + words.subrange(0, k as int),
        decreases count - k,
    {
        let b0: u32 = bytes[4 * k] as u32;
        let b1: u32 = bytes[4 * k + 1] as u32;
        let b2: u32 = bytes[4 * k + 2] as u32;
        let b3: u32 = bytes[4 * k + 3] as u32;
        let word: u32 = b0 + 0x100 * b1 + 0x1_0000 * b2 + 0x100_0000 * b3;
        tiles.push(word);
        assert(tiles@ =~= before + words.subrange(0, k + 1));
        k = k + 1;
    }
    assert(words.subrange(0, count as int) =~= words);
    if len % 4 == 0 {
        Ok(())
    } else {
        Err(TiledError::malformed("TryFromSliceError(())"))
    }
}

/// Decodes base64 tile data, possibly compressed, and appends the tiles.
///
/// The data must be a string. It is trimmed of white space, decoded from
/// base64, inflated as `compression` says, and read as little-endian words.
pub fn decode_base64_tiledata(
    data: serde_json::Value,
    compression: Option<Compression>,
    tiles: &mut Vec<u32>,
) -> (res: Result<(), TiledError>)
    ensures
        final(tiles)@ == old(tiles)@ + base64_appended(json_data(data), compression),
        match base64_tiles(json_data(data), compression) {
            Ok(_) => res is Ok,
            Err(failure) => res matches Err(e) && e@ == failure,
        },
{
    let text = match data.as_str() {
        Some(text) => text,
        None => {
            assert(tiles@ + Seq::<u32>::empty() =~= tiles@);
            return Err(TiledError::malformed("Improperly formatted data"));
        },
    };
    let raw = match base64_decode(trim(text)) {
        Ok(raw) => raw,
        Err(cause) => {
            assert(tiles@ + Seq::<u32>::empty() =~= tiles@);
            return Err(TiledError::Base64DecodingError(cause));
        },
    };
    let unpacked = match compression {
        Some(Compression::Gzip) => decode_gzip(raw),
        Some(Compression::Zlib) => decode_zlib(raw),
        None => Ok(raw),
    };
    let bytes = match unpacked {
        Ok(bytes) => bytes,
        Err(error) => {
            assert(tiles@ + Seq::<u32>::empty() =~= tiles@);
            return Err(error);
        },
    };
    append_le_words(bytes.as_slice(), tiles)
}

/// Decodes array tile data and appends the tiles.
///
/// The data must be an array. Each element that is a non-negative integer is
/// appended by its low 32 bits; every other element is passed over.
pub fn decode_csv_tiledata(data: serde_json::Value, tiles: &mut Vec<u32>) -> (res: Result<
    (),
    TiledError,
>)
    ensures
        match json_data(data).as_items() {
            Some(items) => res is Ok && final(tiles)@ == old(tiles)@ + csv_tiles(items),
            None => res matches Err(e) && e@ == Failure::Other(improper_data()) && final(tiles)@
                == old(tiles)@,
        },
{
    let ghost before = tiles@;
    match data.as_array() {
        Some(items) => {
            let ghost contents = items_data(items@);
            let mut i: usize = 0;
            assert(contents.take(0) =~= Seq::<JsonData>::empty());
            assert(before + csv_tiles(contents.take(0)) =~= before);
            while i < items.len()
                invariant
                    i <= items.len(),
                    contents == items_data(items@),
                    tiles@ == before + csv_tiles(contents.take(i as int)),
                decreases items.len() - i,
            {
                assert(contents.take(i + 1).drop_last() =~= contents.take(i as int));
                assert(contents.take(i + 1).last() == json_data(items@[i as int]));
                if let Some(value) = items[i].as_u64() {
                    tiles.push((value & 0xffff_ffff) as u32);
                    assert(value & 0xffff_ffff == value % 0x1_0000_0000) by (bit_vector);
                    assert(tiles@ =~= before + csv_tiles(contents.take(i + 1)));
                }
                i = i + 1;
            }
            assert(contents.take(items.len() as int) =~= contents);
            Ok(())
        },
        None => Err(TiledError::malformed("Improperly formatted data")),
    }
}

/// Decodes the tile data of a layer of `width` columns and `height` rows.
///
/// `encoding` chooses between an array of numbers, which is also what its
/// absence means, and base64. The number of tiles is whatever the data hold:
/// it is not held against `width * height`.
pub fn decode_tiledata(
    data: serde_json::Value,
    width: u32,
    height: u32,
    encoding: Option<Encoding>,
    compression: Option<Compression>,
) -> (res: Result<Vec<u32>, TiledError>)
    ensures
        outcome(res) == decoded_tiles(json_data(data), encoding, compression),
{
    let room: usize = match width.checked_mul(height) {
        Some(cells) => if cells as u64 <= (usize::MAX / 8) as u64 {
            cells as usize
        } else {
            0
        },
        None => 0,
    };
    let mut tiles: Vec<u32> = Vec::with_capacity(room);
    let done = match encoding {
        Some(Encoding::Base64) => decode_base64_tiledata(data, compression, &mut tiles),
        _ => decode_csv_tiledata(data, &mut tiles),
    };
    match done {
        Ok(()) => {
            assert(Seq::<u32>::empty() + tiles@ =~= tiles@);
            Ok(tiles)
        },
        Err(error) => Err(error),
    }
}

} // verus!
