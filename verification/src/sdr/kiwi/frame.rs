//! The binary frames that a receiver sends.
//!
//! A frame begins with a code of three bytes. Behind `MSG` and one more byte
//! stands a text in UTF-8. Behind `SND` stand a byte of flags, a sequence
//! number of four bytes with the lowest one first, a reading of the signal
//! meter of two bytes with the high one first, and the sound: samples of two
//! bytes each, the low one first.

use vstd::prelude::*;
use vstd::slice::*;
use vstd::utf8::*;

use crate::outside::{read_u16_be, read_u16_le, read_u32_le, text_from_utf8};

verus! {

/// A block of sound with its header.
pub struct SoundBlock {
    pub flags: u8,
    pub sequence: u32,
    pub smeter: u16,
    pub samples: Vec<i16>,
}

/// A decoded frame.
pub enum ServerFrame {
    /// A text message.
    Text(String),
    /// A block of sound.
    Sound(SoundBlock),
    /// A frame with another code, which is of no concern.
    Unknown,
}

/// Why a frame cannot be decoded.
#[derive(Debug, Clone, Copy, PartialEq, Eq, Structural)]
pub enum FrameError {
    /// The frame ends inside its code or its header.
    TooShort,
    /// The code is not UTF-8.
    CodeNotText,
    /// The body of a text message is not UTF-8.
    BodyNotText,
}

/// What a block of sound holds.
#[verifier::ext_equal]
pub struct SoundModel {
    pub flags: u8,
    pub sequence: u32,
    pub smeter: u16,
    pub samples: Seq<i16>,
}

/// What a frame holds.
#[verifier::ext_equal]
pub enum FrameModel {
    Text(Seq<char>),
    Sound(SoundModel),
    Unknown,
}

impl View for SoundBlock {
    type V = SoundModel;

    open spec fn view(&self) -> SoundModel {
        SoundModel {
            flags: self.flags,
            sequence: self.sequence,
            smeter: self.smeter,
            samples: self.samples@,
        }
    }
}

impl View for ServerFrame {
    type V = FrameModel;

    open spec fn view(&self) -> FrameModel {
        match self {
            ServerFrame::Text(text) => FrameModel::Text(text@),
            ServerFrame::Sound(block) => FrameModel::Sound(block@),
            ServerFrame::Unknown => FrameModel::Unknown,
        }
    }
}

/// The code of a text message: `MSG`.
pub open spec fn text_code() -> Seq<u8> {
    seq![0x4du8, 0x53u8, 0x47u8]
}

/// The code of a block of sound: `SND`.
pub open spec fn sound_code() -> Seq<u8> {
    seq![0x53u8, 0x4eu8, 0x44u8]
}

/// The number that a sixteen-bit word stands for in two's complement.
pub open spec fn signed_word(word: int) -> i16 {
    (if word >= 0x8000 {
        word - 0x1_0000
    } else {
        word
    }) as i16
}

/// The samples that sound bytes hold. An odd byte at the end is no sample.
pub open spec fn samples_of(bytes: Seq<u8>) -> Seq<i16> {
    Seq::new(
        bytes.len() / 2,
        |i: int| signed_word(bytes[2 * i] + bytes[2 * i + 1] * 0x100),
    )
}

/// The block of sound behind the code of a frame.
pub open spec fn sound_of(body: Seq<u8>) -> SoundModel
    recommends
        body.len() >= 7,
{
    SoundModel {
        flags: body[0],
        sequence: (body[1] + body[2] * 0x100 + body[3] * 0x1_0000 + body[4] * 0x100_0000) as u32,
        smeter: (body[5] * 0x100 + body[6]) as u16,
        samples: samples_of(body.skip(7)),
    }
}

/// What the bytes of a frame decode to.
pub open spec fn frame_of(data: Seq<u8>) -> Result<FrameModel, FrameError> {
    if data.len() < 3 {
        Err(FrameError::TooShort)
    } else if data.take(3) == text_code() {
        if data.len() < 4 {
            Err(FrameError::TooShort)
        } else if !valid_utf8(data.skip(4)) {
            Err(FrameError::BodyNotText)
        } else {
            Ok(FrameModel::Text(decode_utf8(data.skip(4))))
        }
    } else if data.take(3) == sound_code() {
        if data.len() < 10 {
            Err(FrameError::TooShort)
        } else {
            Ok(FrameModel::Sound(sound_of(data.skip(3))))
        }
    } else if !valid_utf8(data.take(3)) {
        Err(FrameError::CodeNotText)
    } else {
        Ok(FrameModel::Unknown)
    }
}

/// What the outcome of decoding holds.
pub open spec fn frame_result(result: Result<ServerFrame, FrameError>) -> Result<
    FrameModel,
    FrameError,
> {
    match result {
        Ok(frame) => Ok(frame@),
        Err(error) => Err(error),
    }
}

fn signed(word: u16) -> (sample: i16)
    ensures
        sample == signed_word(word as int),
{
    if word >= 0x8000 {
        (word as i32 - 0x1_0000) as i16
    } else {
        word as i16
    }
}

/// Reads the samples out of sound bytes.
pub fn decode_samples(bytes: &[u8]) -> (samples: Vec<i16>)
    ensures
        samples@ == samples_of(bytes@),
        samples@.len() == bytes@.len() / 2,
        forall|i: int|
            0 <= i < samples@.len() ==> is_sample(
                #[trigger] samples@[i],
                bytes@[2 * i],
                bytes@[2 * i + 1],
            ),
{
    proof {
        law_samples_are_words(bytes@);
    }
    let mut samples: Vec<i16> = Vec::with_capacity(bytes.len() / 2);
    let mut i: usize = 0;
    while bytes.len() - i >= 2
        invariant
            i <= bytes@.len(),
            i % 2 == 0,
            samples@.len() == i / 2,
            forall|j: int| 0 <= j < i / 2 ==> samples@[j] == samples_of(bytes@)[j],
        decreases bytes@.len() - i,
    {
        let word: u16 = read_u16_le(slice_subrange(bytes, i, i + 2));
        samples.push(signed(word));
        i += 2;
    }
    assert(samples@ =~= samples_of(bytes@));
    samples
}

/// Decodes a frame.
pub fn decode_frame(data: &[u8]) -> (frame: Result<ServerFrame, FrameError>)
    ensures
        frame_result(frame) == frame_of(data@),
        frame is Err && frame->Err_0 is TooShort <==> ends_early(data@),
        frame matches Ok(ServerFrame::Sound(block)) ==> begins_with(data@, 'S', 'N', 'D')
            && is_block_of(block@, data@),
        frame matches Ok(ServerFrame::Text(text)) ==> begins_with(data@, 'M', 'S', 'G')
            && encode_utf8(text@) == data@.skip(4),
        begins_with(data@, 'S', 'N', 'D') && !ends_early(data@) ==> frame is Ok && frame->Ok_0
            is Sound,
        begins_with(data@, 'M', 'S', 'G') && !ends_early(data@) && valid_utf8(data@.skip(4))
            ==> frame is Ok && frame->Ok_0 is Text,
        (frame matches Err(FrameError::BodyNotText)) <==> begins_with(data@, 'M', 'S', 'G')
            && !ends_early(data@) && !valid_utf8(data@.skip(4)),
        (frame matches Err(FrameError::CodeNotText)) <==> data@.len() >= 3 && !valid_utf8(
            data@.take(3),
        ),
{
    proof {
        law_frames_are_told_by_their_code(data@);
        if begins_with(data@, 'S', 'N', 'D') && !ends_early(data@) {
            law_sound_frame_layout(data@);
        }
        if begins_with(data@, 'M', 'S', 'G') && !ends_early(data@) && valid_utf8(data@.skip(4)) {
            law_text_frame_layout(data@);
        }
    }
    let len: usize = data.len();
    if len < 3 {
        return Err(FrameError::TooShort);
    }
    let ghost code = data@.take(3);
    if data[0] == 0x4d && data[1] == 0x53 && data[2] == 0x47 {
        assert(code =~= text_code());
        if len < 4 {
            return Err(FrameError::TooShort);
        }
        let body = slice_subrange(data, 4, len);
        assert(body@ =~= data@.skip(4));
        return match text_from_utf8(slice_to_vec(body)) {
            Some(text) => Ok(ServerFrame::Text(text)),
            None => Err(FrameError::BodyNotText),
        };
    }
    assert(code[0] == data@[0] && code[1] == data@[1] && code[2] == data@[2]);
    assert(code != text_code());
    if data[0] == 0x53 && data[1] == 0x4e && data[2] == 0x44 {
        assert(code =~= sound_code());
        if len < 10 {
            return Err(FrameError::TooShort);
        }
        let body = slice_subrange(data, 3, len);
        assert(body@ =~= data@.skip(3));
        let sound = slice_subrange(data, 10, len);
        assert(sound@ =~= data@.skip(3).skip(7));
        let block = SoundBlock {
            flags: body[0],
            sequence: read_u32_le(slice_subrange(body, 1, 5)),
            smeter: read_u16_be(slice_subrange(body, 5, 7)),
            samples: decode_samples(sound),
        };
        return Ok(ServerFrame::Sound(block));
    }
    assert(code != sound_code());
    let code_bytes = slice_subrange(data, 0, 3);
    assert(code_bytes@ =~= code);
    match text_from_utf8(slice_to_vec(code_bytes)) {
        Some(_) => Ok(ServerFrame::Unknown),
        None => Err(FrameError::CodeNotText),
    }
}

/// Whether a sample is the number that a low and a high byte stand for, in
/// two's complement: they differ by nothing or by a full turn of sixteen bits.
pub open spec fn is_sample(sample: i16, low: u8, high: u8) -> bool {
    ||| sample == low + 0x100 * high
    ||| sample + 0x1_0000 == low + 0x100 * high
}

/// Whether a frame begins with a code of three ASCII letters.
pub open spec fn begins_with(data: Seq<u8>, a: char, b: char, c: char) -> bool {
    data.len() >= 3 && data[0] == a as u8 && data[1] == b as u8 && data[2] == c as u8
}

/// Whether a frame ends inside its code or its header.
pub open spec fn ends_early(data: Seq<u8>) -> bool {
    ||| data.len() < 3
    ||| begins_with(data, 'M', 'S', 'G') && data.len() < 4
    ||| begins_with(data, 'S', 'N', 'D') && data.len() < 10
}

/// Whether a block of sound holds what stands in a frame of at least ten
/// bytes: flags, sequence number and meter reading in the header, and samples
/// behind it.
pub open spec fn is_block_of(block: SoundModel, data: Seq<u8>) -> bool {
    &&& block.flags == data[3]
    &&& block.sequence == data[4] + 0x100 * data[5] + 0x1_0000 * data[6] + 0x100_0000 * data[7]
    &&& block.smeter == 0x100 * data[8] + data[9]
    &&& block.samples.len() == (data.len() - 10) / 2
    &&& forall|i: int|
        0 <= i < block.samples.len() ==> is_sample(
            #[trigger] block.samples[i],
            data[10 + 2 * i],
            data[11 + 2 * i],
        )
}

/// Each pair of sound bytes is a sample, the low byte in front of the high one,
/// in two's complement.
pub proof fn law_samples_are_words(bytes: Seq<u8>)
    ensures
        samples_of(bytes).len() == bytes.len() / 2,
        forall|i: int|
            0 <= i < bytes.len() / 2 ==> {
                let word = bytes[2 * i] + 0x100 * bytes[2 * i + 1];
                #[trigger] samples_of(bytes)[i] == (if word < 0x8000 {
                    word
                } else {
                    word - 0x1_0000
                })
            },
        forall|i: int|
            0 <= i < bytes.len() / 2 ==> is_sample(
                #[trigger] samples_of(bytes)[i],
                bytes[2 * i],
                bytes[2 * i + 1],
            ),
{
}

/// The samples of sound bytes put together are those of the first part and
/// then those of the second, where the first part ends with a whole sample.
pub proof fn law_samples_join(front: Seq<u8>, back: Seq<u8>)
    requires
        front.len() % 2 == 0,
    ensures
        samples_of(front + back) == samples_of(front) + samples_of(back),
{
    let whole = front + back;
    let half = (front.len() / 2) as int;
    assert forall|i: int| 0 <= i < whole.len() / 2 implies samples_of(whole)[i] == (samples_of(
        front,
    ) + samples_of(back))[i] by {
        if i < half {
            assert(whole[2 * i] == front[2 * i] && whole[2 * i + 1] == front[2 * i + 1]);
        } else {
            let j = i - half;
            assert(whole[2 * i] == back[2 * j] && whole[2 * i + 1] == back[2 * j + 1]);
        }
    }
    assert(samples_of(whole) =~= samples_of(front) + samples_of(back));
}

/// Behind the letters `SND` stand the flags, the sequence number with its
/// lowest byte first, the meter reading with its high byte first, and the
/// samples.
pub proof fn law_sound_frame_layout(data: Seq<u8>)
    requires
        data.len() >= 10,
        data[0] == 'S' as u8,
        data[1] == 'N' as u8,
        data[2] == 'D' as u8,
    ensures
        frame_of(data) matches Ok(FrameModel::Sound(block)) && {
            &&& block.flags == data[3]
            &&& block.sequence == data[4] + 0x100 * data[5] + 0x1_0000 * data[6] + 0x100_0000
                * data[7]
            &&& block.smeter == 0x100 * data[8] + data[9]
            &&& block.samples == samples_of(data.skip(10))
            &&& is_block_of(block, data)
        },
{
    let body = data.skip(3);
    assert(data.take(3) =~= sound_code());
    assert(data.take(3)[0] != text_code()[0]);
    assert(body.skip(7) =~= data.skip(10));
    law_samples_are_words(data.skip(10));
    assert forall|i: int| 0 <= i < (data.len() - 10) / 2 implies is_sample(
        #[trigger] samples_of(data.skip(10))[i],
        data[10 + 2 * i],
        data[11 + 2 * i],
    ) by {
        assert(data.skip(10)[2 * i] == data[10 + 2 * i]);
        assert(data.skip(10)[2 * i + 1] == data[11 + 2 * i]);
    }
}

/// Behind the letters `MSG` and one byte stands a text, and its encoding is
/// what stands there.
pub proof fn law_text_frame_layout(data: Seq<u8>)
    requires
        data.len() >= 4,
        data[0] == 'M' as u8,
        data[1] == 'S' as u8,
        data[2] == 'G' as u8,
        valid_utf8(data.skip(4)),
    ensures
        frame_of(data) matches Ok(FrameModel::Text(text)) && encode_utf8(text) == data.skip(4),
{
    assert(data.take(3) =~= text_code());
    decode_utf8_encode_utf8(data.skip(4));
}

/// What a frame is, and why one cannot be decoded, follows from its first
/// three bytes and its length.
pub proof fn law_frames_are_told_by_their_code(data: Seq<u8>)
    ensures
        ({
            let text = data.len() >= 3 && data[0] == 'M' as u8 && data[1] == 'S' as u8 && data[2]
                == 'G' as u8;
            let sound = data.len() >= 3 && data[0] == 'S' as u8 && data[1] == 'N' as u8 && data[2]
                == 'D' as u8;
            let short = data.len() < 3 || text && data.len() < 4 || sound && data.len() < 10;
            &&& short == ends_early(data)
            &&& (frame_of(data) matches Err(FrameError::TooShort)) <==> short
            &&& (frame_of(data) matches Ok(FrameModel::Sound(_))) <==> sound && !short
            &&& (frame_of(data) matches Ok(FrameModel::Text(_))) <==> text && !short && valid_utf8(
                data.skip(4),
            )
            &&& (frame_of(data) matches Err(FrameError::BodyNotText)) <==> text && !short
                && !valid_utf8(data.skip(4))
            &&& (frame_of(data) matches Err(FrameError::CodeNotText)) <==> data.len() >= 3
                && !valid_utf8(data.take(3))
            &&& (frame_of(data) matches Ok(FrameModel::Unknown)) <==> data.len() >= 3 && !text
                && !sound && valid_utf8(data.take(3))
        }),
{
    if data.len() >= 3 {
        let code = data.take(3);
        if begins_with(data, 'M', 'S', 'G') {
            assert(code =~= text_code());
            assert(code =~= encode_utf8("MSG"@)) by {
                lemma_code_bytes();
            }
            encode_utf8_valid_utf8("MSG"@);
        } else {
            assert(code[0] == data[0] && code[1] == data[1] && code[2] == data[2]);
            assert(code != text_code());
        }
        if begins_with(data, 'S', 'N', 'D') {
            assert(code =~= sound_code());
            assert(code[0] != text_code()[0]);
            assert(code =~= encode_utf8("SND"@)) by {
                lemma_code_bytes();
            }
            encode_utf8_valid_utf8("SND"@);
        } else {
            assert(code[0] == data[0] && code[1] == data[1] && code[2] == data[2]);
            assert(code != sound_code());
        }
    }
}

proof fn lemma_code_bytes()
    ensures
        encode_utf8("MSG"@) == text_code(),
        encode_utf8("SND"@) == sound_code(),
{
    reveal_strlit("MSG");
    reveal_strlit("SND");
    is_ascii_chars_encode_utf8("MSG"@);
    is_ascii_chars_encode_utf8("SND"@);
    assert(encode_utf8("MSG"@) =~= text_code());
    assert(encode_utf8("SND"@) =~= sound_code());
}

/// The low and the high byte of a sample, in the order in which a frame holds them.
pub open spec fn sample_bytes(sample: i16) -> Seq<u8> {
    let word = if sample < 0 {
        sample + 0x1_0000
    } else {
        sample as int
    };
    seq![(word % 0x100) as u8, (word / 0x100) as u8]
}

/// The sound bytes of samples.
pub open spec fn sound_bytes(samples: Seq<i16>) -> Seq<u8> {
    Seq::new(2 * samples.len(), |i: int| sample_bytes(samples[i / 2])[i % 2])
}

/// The frame that carries a block of sound.
pub open spec fn sound_frame(block: SoundModel) -> Seq<u8> {
    sound_code() + seq![
        block.flags,
        (block.sequence % 0x100) as u8,
        (block.sequence / 0x100 % 0x100) as u8,
        (block.sequence / 0x1_0000 % 0x100) as u8,
        (block.sequence / 0x100_0000) as u8,
        (block.smeter / 0x100) as u8,
        (block.smeter % 0x100) as u8,
    ] + sound_bytes(block.samples)
}

/// The frame that carries a text, with `separator` behind the code.
pub open spec fn text_frame(separator: u8, text: Seq<char>) -> Seq<u8> {
    text_code() + seq![separator] + encode_utf8(text)
}

/// Samples come out of their sound bytes as they went in.
pub proof fn law_samples_round_trip(samples: Seq<i16>)
    ensures
        samples_of(sound_bytes(samples)) == samples,
{
    let bytes = sound_bytes(samples);
    assert forall|i: int| 0 <= i < samples.len() implies samples_of(bytes)[i] == samples[i] by {
        assert((2 * i) / 2 == i && (2 * i) % 2 == 0);
        assert((2 * i + 1) / 2 == i && (2 * i + 1) % 2 == 1);
        assert(bytes[2 * i] == sample_bytes(samples[i])[0]);
        assert(bytes[2 * i + 1] == sample_bytes(samples[i])[1]);
    }
    assert(samples_of(bytes) =~= samples);
}

/// A byte behind complete samples changes nothing.
pub proof fn law_odd_byte_is_ignored(bytes: Seq<u8>, byte: u8)
    requires
        bytes.len() % 2 == 0,
    ensures
        samples_of(bytes.push(byte)) == samples_of(bytes),
{
    assert(samples_of(bytes.push(byte)) =~= samples_of(bytes));
}

/// A block of sound comes out of its frame as it went in.
pub proof fn law_sound_round_trip(block: SoundModel)
    ensures
        frame_of(sound_frame(block)) == Ok::<FrameModel, FrameError>(FrameModel::Sound(block)),
{
    let data = sound_frame(block);
    assert(data.take(3) =~= sound_code());
    assert(data.take(3)[0] != text_code()[0]);
    let body = data.skip(3);
    assert(body.skip(7) =~= sound_bytes(block.samples));
    law_samples_round_trip(block.samples);
    assert(sound_of(body) =~= block);
}

/// A text comes out of its frame as it went in, whatever the separator is.
pub proof fn law_text_round_trip(separator: u8, text: Seq<char>)
    ensures
        frame_of(text_frame(separator, text)) == Ok::<FrameModel, FrameError>(
            FrameModel::Text(text),
        ),
{
    let data = text_frame(separator, text);
    assert(data.take(3) =~= text_code());
    assert(data.skip(4) =~= encode_utf8(text));
    encode_utf8_valid_utf8(text);
    encode_utf8_decode_utf8(text);
}

} // verus!
