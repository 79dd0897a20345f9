//! Program-image decoding: a raw byte blob becomes an ordered sequence
//! of 12-bit words, auto-detecting among the supported binary encodings.

use vstd::prelude::*;

verus! {

/// The binary encodings a program image may arrive in.
#[derive(Debug, Clone, Copy, PartialEq, Eq, Structural)]
pub enum RomEncoding {
    /// Three bytes carry two 12-bit words, nibble-interleaved.
    Packed12Le,
    /// Two little-endian bytes carry one 12-bit word; the upper nibble
    /// of each first byte is zero.
    Padded16Le12,
    /// Reserved big-endian variant; the detector never selects it
    /// because its predicate coincides with the little-endian check,
    /// which runs first.
    Padded16Be12,
}

/// Why a byte blob could not be decoded.
#[derive(Debug)]
pub enum RomDecodeError {
    /// The byte length fits no encoding (an empty image included).
    InvalidLength { len: usize },
    /// Reading the image from storage failed; raised only by callers
    /// that do the reading, never by the decoders here.
    Io,
}

/// True when every even-indexed byte has a zero upper nibble: the
/// detector's test for the padded 16-bit-container encoding.
pub open spec fn even_bytes_high_nibble_zero(bytes: Seq<u8>) -> bool {
    forall|i: int| 0 <= i < bytes.len() && i % 2 == 0 ==> #[trigger] bytes[i] & 0xF0 == 0
}

fn even_high_nibbles_zero(bytes: &[u8]) -> (r: bool)
    ensures
        r == even_bytes_high_nibble_zero(bytes@),
{
    let n = bytes.len();
    let mut i: usize = 0;
    while i < n
        invariant
            n == bytes@.len(),
            i <= n,
            i % 2 == 0,
            forall|j: int| 0 <= j < i && j % 2 == 0 ==> #[trigger] bytes@[j] & 0xF0 == 0,
        decreases n - i,
    {
        if bytes[i] & 0xF0 != 0 {
            return false;
        }
        if i + 1 >= n {
            return true;
        }
        i = i + 2;
    }
    true
}

/// Classifies a byte blob among the supported image encodings.
///
/// An empty blob always fails. A 2-byte-aligned blob whose every
/// even-indexed byte has a zero upper nibble is the padded 16-bit
/// container; otherwise a 3-byte-aligned blob is the packed form;
/// anything else has an invalid length. The reserved big-endian
/// variant is never produced: its predicate is identical to the
/// little-endian one, which takes priority.
pub fn detect_encoding(bytes: &[u8]) -> (r: Result<RomEncoding, RomDecodeError>)
    ensures
        bytes@.len() == 0 ==> (r matches Err(RomDecodeError::InvalidLength { len }) && len == 0),
        bytes@.len() > 0 && bytes@.len() % 2 == 0 && even_bytes_high_nibble_zero(bytes@)
            ==> r == Ok::<RomEncoding, RomDecodeError>(RomEncoding::Padded16Le12),
        bytes@.len() > 0 && !(bytes@.len() % 2 == 0 && even_bytes_high_nibble_zero(bytes@))
            && bytes@.len() % 3 == 0
            ==> r == Ok::<RomEncoding, RomDecodeError>(RomEncoding::Packed12Le),
        bytes@.len() > 0 && !(bytes@.len() % 2 == 0 && even_bytes_high_nibble_zero(bytes@))
            && bytes@.len() % 3 != 0
            ==> (r matches Err(RomDecodeError::InvalidLength { len }) && len == bytes@.len()),
        !(r == Ok::<RomEncoding, RomDecodeError>(RomEncoding::Padded16Be12)),
{
    if bytes.len() == 0 {
        return Err(RomDecodeError::InvalidLength { len: 0 });
    }

    if bytes.len() % 2 == 0 {
        let looks_padded_le = even_high_nibbles_zero(bytes);
        if looks_padded_le {
            return Ok(RomEncoding::Padded16Le12);
        }

        // Reserved encoding: the same predicate as above, so this
        // branch can never be taken; kept to document the precedence.
        let looks_padded_be = even_high_nibbles_zero(bytes);
        if looks_padded_be {
            return Ok(RomEncoding::Padded16Be12);
        }
    }

    if bytes.len() % 3 == 0 {
        return Ok(RomEncoding::Packed12Le);
    }

    Err(RomDecodeError::InvalidLength { len: bytes.len() })
}

/// The words held by a packed image: each 3-byte group yields two
/// 12-bit words by nibble interleaving.
pub open spec fn packed_words_of(bytes: Seq<u8>) -> Seq<u16>
    decreases bytes.len(),
{
    if bytes.len() < 3 {
        Seq::empty()
    } else {
        let b0 = bytes[0] as u16;
        let b1 = bytes[1] as u16;
        let b2 = bytes[2] as u16;
        seq![(b0 | ((b1 & 0x0F) << 8)) & 0x0FFF, ((b1 >> 4) | (b2 << 4)) & 0x0FFF]
            + packed_words_of(bytes.skip(3))
    }
}

/// The bytes of the packed image for a word sequence: each pair of
/// words (the last zero-padded when the count is odd) becomes three
/// bytes, the inverse of the interleaving in [`packed_words_of`].
pub open spec fn packed_bytes_of(words: Seq<u16>) -> Seq<u8>
    decreases words.len(),
{
    if words.len() == 0 {
        Seq::empty()
    } else {
        let w0 = words[0] & 0x0FFF;
        let w1 = (if words.len() > 1 { words[1] } else { 0 }) & 0x0FFF;
        let triple = seq![
            (w0 & 0xFF) as u8,
            (((w0 >> 8) & 0x0F) | ((w1 & 0x0F) << 4)) as u8,
            (w1 >> 4) as u8,
        ];
        if words.len() == 1 {
            triple
        } else {
            triple + packed_bytes_of(words.skip(2))
        }
    }
}

/// The words held by a padded little-endian image: each 2-byte group
/// is one word, low byte first, the high byte contributing its low
/// nibble as bits 8..11.
pub open spec fn padded_le_words_of(bytes: Seq<u8>) -> Seq<u16>
    decreases bytes.len(),
{
    if bytes.len() < 2 {
        Seq::empty()
    } else {
        seq![((((bytes[0] as u16) & 0x0F) << 8) | (bytes[1] as u16)) & 0x0FFF]
            + padded_le_words_of(bytes.skip(2))
    }
}

/// The words held by a padded big-endian image: each 2-byte group is
/// one word, high byte first, masked to 12 bits.
pub open spec fn padded_be_words_of(bytes: Seq<u8>) -> Seq<u16>
    decreases bytes.len(),
{
    if bytes.len() < 2 {
        Seq::empty()
    } else {
        seq![(((bytes[0] as u16) << 8) | (bytes[1] as u16)) & 0x0FFF]
            + padded_be_words_of(bytes.skip(2))
    }
}

/// Decodes a packed image: every 3 bytes yield two 12-bit words.
pub fn unpack_12bit_le(bytes: &[u8]) -> (r: Result<Vec<u16>, RomDecodeError>)
    ensures
        bytes@.len() % 3 == 0 ==> (r matches Ok(v) && v@ == packed_words_of(bytes@)),
        bytes@.len() % 3 != 0 ==> (r matches Err(RomDecodeError::InvalidLength { len })
            && len == bytes@.len()),
{
    let n = bytes.len();
    if n % 3 != 0 {
        return Err(RomDecodeError::InvalidLength { len: n });
    }

    let mut out: Vec<u16> = Vec::new();
    let mut i: usize = 0;
    proof {
        assert(bytes@.skip(0) =~= bytes@);
        assert(out@ + packed_words_of(bytes@) =~= packed_words_of(bytes@));
    }
    while i < n
        invariant
            n == bytes@.len(),
            n % 3 == 0,
            i % 3 == 0,
            i <= n,
            out@ + packed_words_of(bytes@.skip(i as int)) == packed_words_of(bytes@),
        decreases n - i,
    {
        let b0 = bytes[i] as u16;
        let b1 = bytes[i + 1] as u16;
        let b2 = bytes[i + 2] as u16;
        let w0 = b0 | ((b1 & 0x0F) << 8);
        let w1 = (b1 >> 4) | (b2 << 4);
        out.push(w0 & 0x0FFF);
        out.push(w1 & 0x0FFF);
        proof {
            assert(bytes@.skip(i as int).skip(3) =~= bytes@.skip(i as int + 3));
            assert(out@ + packed_words_of(bytes@.skip(i as int + 3)) =~= packed_words_of(bytes@));
        }
        i = i + 3;
    }
    proof {
        assert(bytes@.skip(n as int) =~= Seq::<u8>::empty());
        assert(out@ =~= packed_words_of(bytes@));
    }
    Ok(out)
}

/// Encodes words into the packed image form; an odd count gains one
/// zero pad word in the final triad.
pub fn pack_12bit_le(words: &[u16]) -> (r: Vec<u8>)
    ensures
        r@ == packed_bytes_of(words@),
{
    let n = words.len();
    let mut out: Vec<u8> = Vec::new();
    let mut i: usize = 0;
    proof {
        assert(words@.skip(0) =~= words@);
        assert(out@ + packed_bytes_of(words@) =~= packed_bytes_of(words@));
    }
    while i < n
        invariant
            n == words@.len(),
            i <= n,
            out@ + packed_bytes_of(words@.skip(i as int)) == packed_bytes_of(words@),
        decreases n - i,
    {
        let w0 = words[i] & 0x0FFF;
        let has_second = i + 1 < n;
        let w1 = if has_second {
            words[i + 1] & 0x0FFF
        } else {
            0
        };
        out.push((w0 & 0xFF) as u8);
        out.push((((w0 >> 8) & 0x0F) | ((w1 & 0x0F) << 4)) as u8);
        out.push((w1 >> 4) as u8);
        let next = if has_second {
            i + 2
        } else {
            i + 1
        };
        proof {
            assert(0u16 & 0x0FFF == 0u16) by (bit_vector);
            if has_second {
                assert(words@.skip(i as int).skip(2) =~= words@.skip(i as int + 2));
            } else {
                assert(words@.skip(i as int).len() == 1);
            }
            assert(out@ + packed_bytes_of(words@.skip(next as int)) =~= packed_bytes_of(words@));
        }
        i = next;
    }
    proof {
        assert(words@.skip(n as int) =~= Seq::<u16>::empty());
        assert(out@ =~= packed_bytes_of(words@));
    }
    out
}

/// Decodes a padded little-endian image: every 2 bytes yield one word.
pub fn unpack_16bit_container_le(bytes: &[u8]) -> (r: Result<Vec<u16>, RomDecodeError>)
    ensures
        bytes@.len() % 2 == 0 ==> (r matches Ok(v) && v@ == padded_le_words_of(bytes@)),
        bytes@.len() % 2 != 0 ==> (r matches Err(RomDecodeError::InvalidLength { len })
            && len == bytes@.len()),
{
    let n = bytes.len();
    if n % 2 != 0 {
        return Err(RomDecodeError::InvalidLength { len: n });
    }

    let mut out: Vec<u16> = Vec::new();
    let mut i: usize = 0;
    proof {
        assert(bytes@.skip(0) =~= bytes@);
        assert(out@ + padded_le_words_of(bytes@) =~= padded_le_words_of(bytes@));
    }
    while i < n
        invariant
            n == bytes@.len(),
            n % 2 == 0,
            i % 2 == 0,
            i <= n,
            out@ + padded_le_words_of(bytes@.skip(i as int)) == padded_le_words_of(bytes@),
        decreases n - i,
    {
        let hi_nibble = ((bytes[i] as u16) & 0x0F) << 8;
        let lo_byte = bytes[i + 1] as u16;
        out.push((hi_nibble | lo_byte) & 0x0FFF);
        proof {
            assert(bytes@.skip(i as int).skip(2) =~= bytes@.skip(i as int + 2));
            assert(out@ + padded_le_words_of(bytes@.skip(i as int + 2))
                =~= padded_le_words_of(bytes@));
        }
        i = i + 2;
    }
    proof {
        assert(bytes@.skip(n as int) =~= Seq::<u8>::empty());
        assert(out@ =~= padded_le_words_of(bytes@));
    }
    Ok(out)
}

/// Decodes the reserved padded big-endian image: every 2 bytes yield
/// one word, high byte first.
pub fn unpack_16bit_container_be(bytes: &[u8]) -> (r: Result<Vec<u16>, RomDecodeError>)
    ensures
        bytes@.len() % 2 == 0 ==> (r matches Ok(v) && v@ == padded_be_words_of(bytes@)),
        bytes@.len() % 2 != 0 ==> (r matches Err(RomDecodeError::InvalidLength { len })
            && len == bytes@.len()),
{
    let n = bytes.len();
    if n % 2 != 0 {
        return Err(RomDecodeError::InvalidLength { len: n });
    }

    let mut out: Vec<u16> = Vec::new();
    let mut i: usize = 0;
    proof {
        assert(bytes@.skip(0) =~= bytes@);
        assert(out@ + padded_be_words_of(bytes@) =~= padded_be_words_of(bytes@));
    }
    while i < n
        invariant
            n == bytes@.len(),
            n % 2 == 0,
            i % 2 == 0,
            i <= n,
            out@ + padded_be_words_of(bytes@.skip(i as int)) == padded_be_words_of(bytes@),
        decreases n - i,
    {
        let word = ((bytes[i] as u16) << 8) | (bytes[i + 1] as u16);
        out.push(word & 0x0FFF);
        proof {
            assert(bytes@.skip(i as int).skip(2) =~= bytes@.skip(i as int + 2));
            assert(out@ + padded_be_words_of(bytes@.skip(i as int + 2))
                =~= padded_be_words_of(bytes@));
        }
        i = i + 2;
    }
    proof {
        assert(bytes@.skip(n as int) =~= Seq::<u8>::empty());
        assert(out@ =~= padded_be_words_of(bytes@));
    }
    Ok(out)
}

/// Decodes a program image, auto-detecting its encoding as
/// [`detect_encoding`] does.
pub fn decode_rom(bytes: &[u8]) -> (r: Result<Vec<u16>, RomDecodeError>)
    ensures
        bytes@.len() > 0 && bytes@.len() % 2 == 0 && even_bytes_high_nibble_zero(bytes@)
            ==> (r matches Ok(v) && v@ == padded_le_words_of(bytes@)),
        bytes@.len() > 0 && !(bytes@.len() % 2 == 0 && even_bytes_high_nibble_zero(bytes@))
            && bytes@.len() % 3 == 0
            ==> (r matches Ok(v) && v@ == packed_words_of(bytes@)),
        bytes@.len() == 0 || (!(bytes@.len() % 2 == 0 && even_bytes_high_nibble_zero(bytes@))
            && bytes@.len() % 3 != 0)
            ==> (r matches Err(RomDecodeError::InvalidLength { len }) && len == bytes@.len()),
{
    let encoding = match detect_encoding(bytes) {
        Ok(encoding) => encoding,
        Err(err) => {
            return Err(err);
        },
    };
    match encoding {
        RomEncoding::Packed12Le => unpack_12bit_le(bytes),
        RomEncoding::Padded16Le12 => unpack_16bit_container_le(bytes),
        RomEncoding::Padded16Be12 => unpack_16bit_container_be(bytes),
    }
}

/// A word sequence with one zero word appended when its count is odd:
/// what decoding a packed image of those words gives back.
pub open spec fn padded_to_even(words: Seq<u16>) -> Seq<u16> {
    if words.len() % 2 == 0 {
        words
    } else {
        words.push(0)
    }
}

proof fn lemma_pack_pair_bits(w0: u16, w1: u16)
    requires
        w0 < 0x1000,
        w1 < 0x1000,
    ensures
        ({
            let b0 = (w0 & 0xFF) as u8;
            let b1 = (((w0 >> 8) & 0x0F) | ((w1 & 0x0F) << 4)) as u8;
            let b2 = (w1 >> 4) as u8;
            ((b0 as u16) | (((b1 as u16) & 0x0F) << 8)) & 0x0FFF == w0
                && (((b1 as u16) >> 4) | ((b2 as u16) << 4)) & 0x0FFF == w1
        }),
{
    assert(({
        let b0 = (w0 & 0xFF) as u8;
        let b1 = (((w0 >> 8) & 0x0F) | ((w1 & 0x0F) << 4)) as u8;
        let b2 = (w1 >> 4) as u8;
        ((b0 as u16) | (((b1 as u16) & 0x0F) << 8)) & 0x0FFF == w0
            && (((b1 as u16) >> 4) | ((b2 as u16) << 4)) & 0x0FFF == w1
    })) by (bit_vector)
        requires
            w0 < 0x1000,
            w1 < 0x1000,
    ;
}

/// Law: packing a sequence of 12-bit words and then decoding the
/// packed bytes reproduces the original words exactly, with a single
/// trailing zero pad word when the count is odd.
pub proof fn lemma_pack_unpack_roundtrip(words: Seq<u16>)
    requires
        forall|i: int| 0 <= i < words.len() ==> words[i] < 0x1000,
    ensures
        packed_words_of(packed_bytes_of(words)) == padded_to_even(words),
    decreases words.len(),
{
    if words.len() == 0 {
        assert(packed_words_of(packed_bytes_of(words)) =~= padded_to_even(words));
    } else {
        let a0 = words[0];
        let a1: u16 = if words.len() > 1 {
            words[1]
        } else {
            0
        };
        let w0 = a0 & 0x0FFF;
        let w1 = a1 & 0x0FFF;
        assert(w0 == a0 && w1 == a1) by (bit_vector)
            requires
                a0 < 0x1000,
                a1 < 0x1000,
                w0 == a0 & 0x0FFF,
                w1 == a1 & 0x0FFF,
        ;
        lemma_pack_pair_bits(w0, w1);
        let triple = seq![
            (w0 & 0xFF) as u8,
            (((w0 >> 8) & 0x0F) | ((w1 & 0x0F) << 4)) as u8,
            (w1 >> 4) as u8,
        ];
        if words.len() == 1 {
            assert(packed_bytes_of(words) == triple);
            assert(triple.skip(3) =~= Seq::<u8>::empty());
            assert(packed_words_of(Seq::<u8>::empty()) == Seq::<u16>::empty());
            assert(packed_words_of(triple) =~= seq![w0, w1]);
            assert(packed_words_of(packed_bytes_of(words)) =~= padded_to_even(words));
        } else {
            let rest = words.skip(2);
            assert(forall|i: int| 0 <= i < rest.len() ==> rest[i] < 0x1000);
            lemma_pack_unpack_roundtrip(rest);
            let bytes = packed_bytes_of(words);
            assert(bytes == triple + packed_bytes_of(rest));
            assert(bytes.skip(3) =~= packed_bytes_of(rest));
            assert(packed_words_of(bytes) =~= seq![w0, w1] + packed_words_of(packed_bytes_of(
                rest,
            )));
            assert(packed_words_of(packed_bytes_of(words)) =~= padded_to_even(words));
        }
    }
}

} // verus!
