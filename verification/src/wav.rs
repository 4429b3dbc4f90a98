//! The recorder's WAV format: 24 kHz stereo 16-bit PCM behind a 44-byte
//! RIFF header, the checks the players apply to a file before streaming it,
//! and the PCM sample coding.

use vstd::prelude::*;

verus! {

pub const WAV_CHANNELS: u16 = 2;
pub const WAV_RATE: u32 = 24_000;
pub const WAV_BITS: u16 = 16;
pub const WAV_BYTES_PER_SECOND: u64 = 96_000;
pub const WAV_HEADER_BYTES: u64 = 44;

/// Why a file cannot be played.
#[derive(Clone, Copy, Debug, PartialEq, Eq, Structural)]
pub enum WavError {
    /// No RIFF/WAVE signature.
    NotRiffWave,
    /// The RIFF length is below 12 or past the end of the file.
    BadRiffLength,
    /// A chunk's length runs past the RIFF length.
    ChunkOutOfBounds,
    /// A chunk's end does not fit in 64 bits.
    ChunkLengthOverflow,
    /// The data chunk is not a whole number of frames.
    DataNotFrameAligned,
    /// The format is not PCM, stereo, 24 kHz, 16-bit.
    UnsupportedFormat,
    /// No data chunk before the end of the RIFF length.
    MissingData,
    /// The header is not the recorder's fixed 44-byte layout.
    UnsupportedLayout,
    /// The format tag is not PCM.
    NotPcm,
    NotStereo,
    Not24kHz,
    Not16Bit,
    /// The data length runs past the end of the file.
    Truncated,
}

/// What a board reports for a WAV it cannot use: the touch board's player
/// checks the fixed header (`touch349`), the reflective board walks the
/// chunks and reports a full recording as the RIFF size limit.
pub open spec fn wav_message(e: WavError, touch349: bool) -> Seq<char> {
    match e {
        WavError::NotRiffWave => if touch349 {
            "invalid WAV"@
        } else {
            "not a RIFF/WAVE file"@
        },
        WavError::BadRiffLength => "RIFF length exceeds the file"@,
        WavError::ChunkOutOfBounds => "WAV chunk exceeds RIFF bounds"@,
        WavError::ChunkLengthOverflow => "WAV chunk length overflow"@,
        WavError::DataNotFrameAligned => "WAV data is not frame-aligned"@,
        WavError::UnsupportedFormat => "player requires PCM stereo 24 kHz 16-bit WAV"@,
        WavError::MissingData => "WAV data chunk missing"@,
        WavError::UnsupportedLayout => "unsupported WAV layout"@,
        WavError::NotPcm => "WAV is not PCM"@,
        WavError::NotStereo => "WAV is not stereo"@,
        WavError::Not24kHz => "WAV is not 24 kHz"@,
        WavError::Not16Bit => "WAV is not 16-bit"@,
        WavError::Truncated => if touch349 {
            "WAV data is truncated"@
        } else {
            "WAV reached the RIFF size limit"@
        },
    }
}

impl WavError {
    /// The text reported for this error.
    pub fn message(self, touch349: bool) -> (m: &'static str)
        ensures
            m@ == wav_message(self, touch349),
    {
        match self {
            WavError::NotRiffWave => if touch349 {
                "invalid WAV"
            } else {
                "not a RIFF/WAVE file"
            },
            WavError::BadRiffLength => "RIFF length exceeds the file",
            WavError::ChunkOutOfBounds => "WAV chunk exceeds RIFF bounds",
            WavError::ChunkLengthOverflow => "WAV chunk length overflow",
            WavError::DataNotFrameAligned => "WAV data is not frame-aligned",
            WavError::UnsupportedFormat => "player requires PCM stereo 24 kHz 16-bit WAV",
            WavError::MissingData => "WAV data chunk missing",
            WavError::UnsupportedLayout => "unsupported WAV layout",
            WavError::NotPcm => "WAV is not PCM",
            WavError::NotStereo => "WAV is not stereo",
            WavError::Not24kHz => "WAV is not 24 kHz",
            WavError::Not16Bit => "WAV is not 16-bit",
            WavError::Truncated => if touch349 {
                "WAV data is truncated"
            } else {
                "WAV reached the RIFF size limit"
            },
        }
    }
}

/// Little-endian bytes of a 16-bit value.
pub open spec fn le16(v: int) -> Seq<u8> {
    seq![(v % 256) as u8, ((v / 256) % 256) as u8]
}

/// Little-endian bytes of a 32-bit value.
pub open spec fn le32(v: int) -> Seq<u8> {
    seq![
        (v % 256) as u8,
        ((v / 256) % 256) as u8,
        ((v / 65536) % 256) as u8,
        ((v / 16777216) % 256) as u8,
    ]
}

/// The value of little-endian bytes `b[at..at + 2]`.
pub open spec fn read_le16(b: Seq<u8>, at: int) -> int {
    b[at] as int + 256 * b[at + 1] as int
}

/// The value of little-endian bytes `b[at..at + 4]`.
pub open spec fn read_le32(b: Seq<u8>, at: int) -> int {
    b[at] as int + 256 * b[at + 1] as int + 65536 * b[at + 2] as int + 16777216 * b[at + 3] as int
}

pub open spec fn ascii(tag: Seq<char>) -> Seq<u8> {
    Seq::new(tag.len(), |i: int| tag[i] as u8)
}

/// The recorder's header for `data_bytes` bytes of samples.
pub open spec fn wav_header_bytes(data_bytes: u32) -> Seq<u8> {
    ascii("RIFF"@) + le32(if 36 + data_bytes > u32::MAX {
        u32::MAX as int
    } else {
        36 + data_bytes
    }) + ascii("WAVE"@) + ascii("fmt "@) + le32(16) + le16(1) + le16(2) + le32(24000) + le32(
        96000,
    ) + le16(4) + le16(16) + ascii("data"@) + le32(data_bytes as int)
}

fn push_le16(out: &mut Vec<u8>, v: u16)
    ensures
        final(out)@ == old(out)@ + le16(v as int),
{
    out.push((v % 256) as u8);
    out.push((v / 256) as u8);
    assert(final(out)@ =~= old(out)@ + le16(v as int));
}

fn push_le32(out: &mut Vec<u8>, v: u32)
    ensures
        final(out)@ == old(out)@ + le32(v as int),
{
    out.push((v % 256) as u8);
    out.push(((v / 256) % 256) as u8);
    out.push(((v / 65536) % 256) as u8);
    out.push((v / 16777216) as u8);
    assert(final(out)@ =~= old(out)@ + le32(v as int));
}

fn push_tag(out: &mut Vec<u8>, a: u8, b: u8, c: u8, d: u8)
    ensures
        final(out)@ == old(out)@ + seq![a, b, c, d],
{
    out.push(a);
    out.push(b);
    out.push(c);
    out.push(d);
    assert(final(out)@ =~= old(out)@ + seq![a, b, c, d]);
}

proof fn lemma_tags()
    ensures
        ascii("RIFF"@) == seq![82u8, 73, 70, 70],
        ascii("WAVE"@) == seq![87u8, 65, 86, 69],
        ascii("fmt "@) == seq![102u8, 109, 116, 32],
        ascii("data"@) == seq![100u8, 97, 116, 97],
{
    reveal_strlit("RIFF");
    reveal_strlit("WAVE");
    reveal_strlit("fmt ");
    reveal_strlit("data");
    assert(ascii("RIFF"@) =~= seq![82u8, 73, 70, 70]);
    assert(ascii("WAVE"@) =~= seq![87u8, 65, 86, 69]);
    assert(ascii("fmt "@) =~= seq![102u8, 109, 116, 32]);
    assert(ascii("data"@) =~= seq![100u8, 97, 116, 97]);
}

/// The 44-byte header the recorder writes first (with 0 data bytes) and
/// rewrites with the final length when the recording stops.
pub fn wav_header(data_bytes: u32) -> (h: Vec<u8>)
    ensures
        h@ == wav_header_bytes(data_bytes),
        h@.len() == 44,
{
    proof {
        lemma_tags();
    }
    let mut h: Vec<u8> = Vec::with_capacity(44);
    push_tag(&mut h, 82, 73, 70, 70);
    push_le32(&mut h, 36u32.saturating_add(data_bytes));
    push_tag(&mut h, 87, 65, 86, 69);
    push_tag(&mut h, 102, 109, 116, 32);
    push_le32(&mut h, 16);
    push_le16(&mut h, 1);
    push_le16(&mut h, WAV_CHANNELS);
    push_le32(&mut h, WAV_RATE);
    push_le32(&mut h, 96_000);
    push_le16(&mut h, 4);
    push_le16(&mut h, WAV_BITS);
    push_tag(&mut h, 100, 97, 116, 97);
    push_le32(&mut h, data_bytes);
    h
}

fn get_le16(b: &[u8], at: usize) -> (v: u16)
    requires
        at + 2 <= b@.len(),
    ensures
        v as int == read_le16(b@, at as int),
{
    b[at] as u16 + 256 * (b[at + 1] as u16)
}

fn get_le32(b: &[u8], at: usize) -> (v: u32)
    requires
        at + 4 <= b@.len(),
    ensures
        v as int == read_le32(b@, at as int),
{
    b[at] as u32 + 256 * (b[at + 1] as u32) + 65536 * (b[at + 2] as u32) + 16777216 * (b[at
        + 3] as u32)
}

fn has_tag(b: &[u8], at: usize, t0: u8, t1: u8, t2: u8, t3: u8) -> (r: bool)
    requires
        at + 4 <= b@.len(),
    ensures
        r == (b@[at as int] == t0 && b@[at + 1] == t1 && b@[at + 2] == t2 && b@[at + 3] == t3),
{
    b[at] == t0 && b[at + 1] == t1 && b[at + 2] == t2 && b[at + 3] == t3
}

pub open spec fn is_tag(b: Seq<u8>, at: int, tag: Seq<u8>) -> bool {
    b.subrange(at, at + 4) == tag
}

/// The checks the Touch349 player applies to the recorder's fixed header,
/// in order: the data length, or the first failed check.
pub open spec fn spec_check_header44(h: Seq<u8>, file_len: u64) -> Result<u64, WavError> {
    if !(is_tag(h, 0, ascii("RIFF"@)) && is_tag(h, 8, ascii("WAVE"@))) {
        Err(WavError::NotRiffWave)
    } else if !(is_tag(h, 12, ascii("fmt "@)) && is_tag(h, 36, ascii("data"@))) {
        Err(WavError::UnsupportedLayout)
    } else if read_le16(h, 20) != 1 {
        Err(WavError::NotPcm)
    } else if read_le16(h, 22) != 2 {
        Err(WavError::NotStereo)
    } else if read_le32(h, 24) != 24000 {
        Err(WavError::Not24kHz)
    } else if read_le16(h, 34) != 16 {
        Err(WavError::Not16Bit)
    } else if 44 + read_le32(h, 40) > file_len {
        Err(WavError::Truncated)
    } else {
        Ok(read_le32(h, 40) as u64)
    }
}

/// Checks the first 44 bytes of a file of `file_len` bytes and returns the
/// length of its sample data, which starts at byte 44.
pub fn check_header44(header: &[u8], file_len: u64) -> (r: Result<u64, WavError>)
    requires
        header@.len() == 44,
    ensures
        r == spec_check_header44(header@, file_len),
{
    proof {
        lemma_tags();
    }
    assert(is_tag(header@, 0, ascii("RIFF"@)) == (header@[0] == 82 && header@[1] == 73
        && header@[2] == 70 && header@[3] == 70)) by {
        assert(ascii("RIFF"@) == seq![82u8, 73, 70, 70]);
        if header@[0] == 82 && header@[1] == 73 && header@[2] == 70 && header@[3] == 70 {
            assert(header@.subrange(0, 4) =~= seq![82u8, 73, 70, 70]);
        }
    }
    assert(is_tag(header@, 8, ascii("WAVE"@)) == (header@[8] == 87 && header@[9] == 65
        && header@[10] == 86 && header@[11] == 69)) by {
        if header@[8] == 87 && header@[9] == 65 && header@[10] == 86 && header@[11] == 69 {
            assert(header@.subrange(8, 12) =~= seq![87u8, 65, 86, 69]);
        }
    }
    assert(is_tag(header@, 12, ascii("fmt "@)) == (header@[12] == 102 && header@[13] == 109
        && header@[14] == 116 && header@[15] == 32)) by {
        if header@[12] == 102 && header@[13] == 109 && header@[14] == 116 && header@[15] == 32 {
            assert(header@.subrange(12, 16) =~= seq![102u8, 109, 116, 32]);
        }
    }
    assert(is_tag(header@, 36, ascii("data"@)) == (header@[36] == 100 && header@[37] == 97
        && header@[38] == 116 && header@[39] == 97)) by {
        if header@[36] == 100 && header@[37] == 97 && header@[38] == 116 && header@[39] == 97 {
            assert(header@.subrange(36, 40) =~= seq![100u8, 97, 116, 97]);
        }
    }
    if !(has_tag(header, 0, 82, 73, 70, 70) && has_tag(header, 8, 87, 65, 86, 69)) {
        return Err(WavError::NotRiffWave);
    }
    if !(has_tag(header, 12, 102, 109, 116, 32) && has_tag(header, 36, 100, 97, 116, 97)) {
        return Err(WavError::UnsupportedLayout);
    }
    if get_le16(header, 20) != 1 {
        return Err(WavError::NotPcm);
    }
    if get_le16(header, 22) != 2 {
        return Err(WavError::NotStereo);
    }
    if get_le32(header, 24) != 24_000 {
        return Err(WavError::Not24kHz);
    }
    if get_le16(header, 34) != 16 {
        return Err(WavError::Not16Bit);
    }
    let data_len = get_le32(header, 40) as u64;
    if 44u64.saturating_add(data_len) > file_len {
        return Err(WavError::Truncated);
    }
    Ok(data_len)
}


/// Where the RIFF body of a file ends (offset 8 plus the RIFF length), once
/// the first 12 bytes show a RIFF/WAVE file that fits in `file_len` bytes.
pub open spec fn spec_riff_end(riff: Seq<u8>, file_len: u64) -> Result<u64, WavError> {
    if !(is_tag(riff, 0, ascii("RIFF"@)) && is_tag(riff, 8, ascii("WAVE"@))) {
        Err(WavError::NotRiffWave)
    } else if 8 + read_le32(riff, 4) < 12 || 8 + read_le32(riff, 4) > file_len {
        Err(WavError::BadRiffLength)
    } else {
        Ok((8 + read_le32(riff, 4)) as u64)
    }
}

pub fn riff_end(riff: &[u8], file_len: u64) -> (r: Result<u64, WavError>)
    requires
        riff@.len() == 12,
    ensures
        r == spec_riff_end(riff@, file_len),
{
    proof {
        lemma_tags();
        if riff@[0] == 82 && riff@[1] == 73 && riff@[2] == 70 && riff@[3] == 70 {
            assert(riff@.subrange(0, 4) =~= seq![82u8, 73, 70, 70]);
        }
        if riff@[8] == 87 && riff@[9] == 65 && riff@[10] == 86 && riff@[11] == 69 {
            assert(riff@.subrange(8, 12) =~= seq![87u8, 65, 86, 69]);
        }
    }
    if !(has_tag(riff, 0, 82, 73, 70, 70) && has_tag(riff, 8, 87, 65, 86, 69)) {
        return Err(WavError::NotRiffWave);
    }
    let end = 8u64 + get_le32(riff, 4) as u64;
    if end < 12 || end > file_len {
        return Err(WavError::BadRiffLength);
    }
    Ok(end)
}

/// What to do with one chunk whose 8-byte header was read just before
/// offset `start`.
#[derive(Clone, Copy, Debug, PartialEq, Eq, Structural)]
pub enum ChunkAction {
    /// A format chunk: read its first 16 bytes, then continue at `next`.
    Format { next: u64 },
    /// The sample data: `len` bytes from `start`.
    Data { start: u64, len: u64 },
    /// Any other chunk: continue at `next`.
    Skip { next: u64 },
}

/// Whether another chunk header fits before the end of the RIFF body.
pub open spec fn spec_chunk_header_fits(position: u64, riff_end: u64) -> bool {
    position + 8 <= riff_end
}

pub fn chunk_header_fits(position: u64, riff_end: u64) -> (r: bool)
    requires
        riff_end <= u32::MAX + 8,
    ensures
        r == spec_chunk_header_fits(position, riff_end),
{
    position.saturating_add(8) <= riff_end
}

/// The decision for one chunk: chunks are padded to an even length and must
/// end within the RIFF body; the walk stops at the data chunk.
pub open spec fn spec_chunk_action(header: Seq<u8>, start: u64, riff_end: u64) -> Result<
    ChunkAction,
    WavError,
> {
    let len = read_le32(header, 4);
    let padded_end = start + len + len % 2;
    if padded_end > u64::MAX {
        Err(WavError::ChunkLengthOverflow)
    } else if padded_end > riff_end {
        Err(WavError::ChunkOutOfBounds)
    } else if is_tag(header, 0, ascii("fmt "@)) && len >= 16 {
        Ok(ChunkAction::Format { next: padded_end as u64 })
    } else if is_tag(header, 0, ascii("data"@)) {
        if len % 4 != 0 {
            Err(WavError::DataNotFrameAligned)
        } else {
            Ok(ChunkAction::Data { start, len: len as u64 })
        }
    } else {
        Ok(ChunkAction::Skip { next: padded_end as u64 })
    }
}

pub fn chunk_action(header: &[u8], start: u64, riff_end: u64) -> (r: Result<ChunkAction, WavError>)
    requires
        header@.len() == 8,
    ensures
        r == spec_chunk_action(header@, start, riff_end),
{
    proof {
        lemma_tags();
        if header@[0] == 102 && header@[1] == 109 && header@[2] == 116 && header@[3] == 32 {
            assert(header@.subrange(0, 4) =~= seq![102u8, 109, 116, 32]);
        }
        if header@[0] == 100 && header@[1] == 97 && header@[2] == 116 && header@[3] == 97 {
            assert(header@.subrange(0, 4) =~= seq![100u8, 97, 116, 97]);
        }
    }
    let len = get_le32(header, 4) as u64;
    let padded_end = match start.checked_add(len) {
        Some(end) => match end.checked_add(len % 2) {
            Some(padded) => padded,
            None => return Err(WavError::ChunkLengthOverflow),
        },
        None => return Err(WavError::ChunkLengthOverflow),
    };
    if padded_end > riff_end {
        return Err(WavError::ChunkOutOfBounds);
    }
    if has_tag(header, 0, 102, 109, 116, 32) && len >= 16 {
        Ok(ChunkAction::Format { next: padded_end })
    } else if has_tag(header, 0, 100, 97, 116, 97) {
        if len % 4 != 0 {
            Err(WavError::DataNotFrameAligned)
        } else {
            Ok(ChunkAction::Data { start, len })
        }
    } else {
        Ok(ChunkAction::Skip { next: padded_end })
    }
}

/// The format chunk describes 16-bit PCM, stereo, 24 kHz with 4-byte frames.
pub open spec fn spec_format_supported(fmt: Seq<u8>) -> bool {
    &&& read_le16(fmt, 0) == 1
    &&& read_le16(fmt, 2) == 2
    &&& read_le32(fmt, 4) == 24000
    &&& read_le16(fmt, 12) == 4
    &&& read_le16(fmt, 14) == 16
}

pub fn format_supported(fmt: &[u8]) -> (r: bool)
    requires
        fmt@.len() == 16,
    ensures
        r == spec_format_supported(fmt@),
{
    get_le16(fmt, 0) == 1 && get_le16(fmt, 2) == WAV_CHANNELS && get_le32(fmt, 4) == WAV_RATE
        && get_le16(fmt, 12) == 4 && get_le16(fmt, 14) == WAV_BITS
}

/// The end of the chunk walk: the data chunk's offset and length, provided a
/// supported format chunk came first.
pub fn wav_layout(format_ok: bool, data: Option<(u64, u64)>) -> (r: Result<(u64, u64), WavError>)
    ensures
        !format_ok ==> r == Err::<(u64, u64), WavError>(WavError::UnsupportedFormat),
        format_ok && data is None ==> r == Err::<(u64, u64), WavError>(WavError::MissingData),
        format_ok && data is Some ==> r == Ok::<(u64, u64), WavError>(data->0),
{
    if !format_ok {
        return Err(WavError::UnsupportedFormat);
    }
    match data {
        Some(d) => Ok(d),
        None => Err(WavError::MissingData),
    }
}

/// Playing time of `bytes` bytes of samples, in whole milliseconds.
pub open spec fn spec_wav_ms(bytes: u64) -> int {
    (if bytes * 1000 > u64::MAX {
        u64::MAX as int
    } else {
        bytes * 1000
    }) / 96000
}

pub fn wav_ms(bytes: u64) -> (ms: u64)
    ensures
        ms as int == spec_wav_ms(bytes),
{
    let scaled: u64 = if bytes > u64::MAX / 1000 {
        u64::MAX
    } else {
        bytes * 1000
    };
    scaled / WAV_BYTES_PER_SECOND
}

/// Whether appending `appended` bytes keeps the data within what the 32-bit
/// RIFF length can describe.
pub open spec fn spec_append_fits(data_bytes: u64, appended: u64) -> bool {
    data_bytes + appended <= u32::MAX - 36
}

pub fn append_fits(data_bytes: u64, appended: u64) -> (r: bool)
    ensures
        r == spec_append_fits(data_bytes, appended),
{
    data_bytes.saturating_add(appended) <= (u32::MAX - 36) as u64
}

/// The header is rewritten (and the file flushed) after each further second
/// of audio, so a power loss loses at most about a second.
pub fn checkpoint_due(data_bytes: u64, checkpoint_bytes: u64) -> (r: bool)
    ensures
        r == (data_bytes >= checkpoint_bytes && data_bytes - checkpoint_bytes >= 96000),
{
    data_bytes.saturating_sub(checkpoint_bytes) >= WAV_BYTES_PER_SECOND
}

pub open spec fn sample_bytes(s: i16) -> Seq<u8> {
    let u: int = if s < 0 {
        s + 65536
    } else {
        s as int
    };
    le16(u)
}

pub open spec fn sample_of(lo: u8, hi: u8) -> i16 {
    let u = lo as int + 256 * hi as int;
    (if u >= 32768 {
        u - 65536
    } else {
        u
    }) as i16
}

/// Little-endian 16-bit PCM bytes of `samples`.
pub fn encode_pcm(samples: &[i16]) -> (bytes: Vec<u8>)
    ensures
        bytes@.len() == 2 * samples@.len(),
        forall|i: int|
            0 <= i < samples@.len() ==> bytes@.subrange(2 * i, 2 * i + 2) == sample_bytes(
                #[trigger] samples@[i],
            ),
{
    let mut bytes: Vec<u8> = Vec::new();
    let mut i: usize = 0;
    while i < samples.len()
        invariant
            i <= samples@.len(),
            bytes@.len() == 2 * i,
            forall|j: int|
                0 <= j < i ==> bytes@.subrange(2 * j, 2 * j + 2) == sample_bytes(
                    #[trigger] samples@[j],
                ),
        decreases samples@.len() - i,
    {
        let s = samples[i];
        let u: u16 = if s < 0 {
            (s as i32 + 65536) as u16
        } else {
            s as u16
        };
        let ghost before = bytes@;
        bytes.push((u % 256) as u8);
        bytes.push((u / 256) as u8);
        proof {
            assert forall|j: int| 0 <= j < i + 1 implies bytes@.subrange(2 * j, 2 * j + 2)
                == sample_bytes(#[trigger] samples@[j]) by {
                if j < i {
                    assert(bytes@.subrange(2 * j, 2 * j + 2) =~= before.subrange(2 * j, 2 * j + 2));
                } else {
                    assert(bytes@.subrange(2 * j, 2 * j + 2) =~= le16(u as int));
                }
            }
        }
        i = i + 1;
    }
    bytes
}

/// Samples of little-endian 16-bit PCM bytes (a trailing odd byte is
/// ignored).
pub fn decode_pcm(bytes: &[u8]) -> (samples: Vec<i16>)
    ensures
        samples@.len() == bytes@.len() / 2,
        forall|i: int|
            0 <= i < samples@.len() ==> #[trigger] samples@[i] == sample_of(
                bytes@[2 * i],
                bytes@[2 * i + 1],
            ),
{
    let mut samples: Vec<i16> = Vec::new();
    let n = bytes.len() / 2;
    let mut i: usize = 0;
    while i < n
        invariant
            n == bytes@.len() / 2,
            i <= n,
            samples@.len() == i,
            forall|j: int|
                0 <= j < i ==> #[trigger] samples@[j] == sample_of(bytes@[2 * j], bytes@[2 * j + 1]),
        decreases n - i,
    {
        assert(i + i + 1 < bytes.len());
        let k: usize = i + i;
        let lo: u32 = bytes[k] as u32;
        let hi: u32 = bytes[k + 1] as u32;
        assert(lo < 256 && hi < 256);
        let u: u32 = lo + 256 * hi;
        let s: i16 = if u >= 32768 {
            (u as i32 - 65536) as i16
        } else {
            u as i16
        };
        samples.push(s);
        i = i + 1;
    }
    samples
}

proof fn lemma_le_roundtrip(v: int)
    requires
        0 <= v <= u32::MAX,
    ensures
        read_le32(le32(v), 0) == v,
        v <= u16::MAX ==> read_le16(le16(v), 0) == v,
{
}

/// A file made of the recorder's header and its data is accepted by the
/// player with exactly that data length.
#[verifier::rlimit(100)]
#[verifier::spinoff_prover]
pub proof fn recorded_header_is_accepted(data_bytes: u32, file_len: u64)
    requires
        44 + data_bytes <= file_len,
    ensures
        spec_check_header44(wav_header_bytes(data_bytes), file_len) == Ok::<u64, WavError>(
            data_bytes as u64,
        ),
{
    lemma_tags();
    let h = wav_header_bytes(data_bytes);
    let riff_len: int = if 36 + data_bytes > u32::MAX {
        u32::MAX as int
    } else {
        36 + data_bytes
    };
    assert(h.len() == 44);
    assert(h.subrange(0, 4) =~= ascii("RIFF"@));
    assert(h.subrange(8, 12) =~= ascii("WAVE"@));
    assert(h.subrange(12, 16) =~= ascii("fmt "@));
    assert(h.subrange(36, 40) =~= ascii("data"@));
    lemma_le_roundtrip(1);
    lemma_le_roundtrip(2);
    lemma_le_roundtrip(16);
    lemma_le_roundtrip(24000);
    lemma_le_roundtrip(data_bytes as int);
    assert(h.subrange(20, 22) =~= le16(1));
    assert(h.subrange(22, 24) =~= le16(2));
    assert(h.subrange(24, 28) =~= le32(24000));
    assert(h.subrange(34, 36) =~= le16(16));
    assert(h.subrange(40, 44) =~= le32(data_bytes as int));
    assert(read_le16(h, 20) == read_le16(h.subrange(20, 22), 0));
    assert(read_le16(h, 22) == read_le16(h.subrange(22, 24), 0));
    assert(read_le32(h, 24) == read_le32(h.subrange(24, 28), 0));
    assert(read_le16(h, 34) == read_le16(h.subrange(34, 36), 0));
    assert(read_le32(h, 40) == read_le32(h.subrange(40, 44), 0));
}

/// One sample written as PCM bytes reads back as the same sample.
proof fn sample_round_trip(v: i16)
    ensures
        sample_of(sample_bytes(v)[0], sample_bytes(v)[1]) == v,
{
    let u: int = if v < 0 {
        v + 65536
    } else {
        v as int
    };
    lemma_le_roundtrip(u);
    assert(read_le16(le16(u), 0) == u);
}

/// PCM reads back what was written: bytes laid out as `encode_pcm` lays
/// out `samples` decode, as `decode_pcm` decodes them, to exactly
/// `samples`.
pub proof fn pcm_reads_back_what_was_written(samples: Seq<i16>, bytes: Seq<u8>)
    requires
        bytes.len() == 2 * samples.len(),
        forall|i: int|
            0 <= i < samples.len() ==> bytes.subrange(2 * i, 2 * i + 2) == sample_bytes(
                #[trigger] samples[i],
            ),
    ensures
        Seq::new(bytes.len() / 2, |i: int| sample_of(bytes[2 * i], bytes[2 * i + 1])) == samples,
{
    assert forall|i: int| 0 <= i < samples.len() implies sample_of(bytes[2 * i], bytes[2 * i + 1])
        == samples[i] by {
        sample_round_trip(samples[i]);
        assert(bytes.subrange(2 * i, 2 * i + 2)[0] == bytes[2 * i]);
        assert(bytes.subrange(2 * i, 2 * i + 2)[1] == bytes[2 * i + 1]);
    }
    assert(Seq::new(bytes.len() / 2, |i: int| sample_of(bytes[2 * i], bytes[2 * i + 1])) =~= samples);
}

} // verus!
