//! WAV encoding of synthesized speech: silence on each side of the samples,
//! written as 16-bit mono PCM by `hound`.
use vstd::prelude::*;
use std::io::Cursor;

verus! {

/// Whether the samples of a WAV stream are integers or floats.
#[derive(Clone, Copy, Debug)]
pub enum SampleFormat {
    Float,
    Int,
}

/// What a WAV stream is made of: the plain fields of `hound::WavSpec`.
pub struct WavFormat {
    pub channels: u16,
    pub sample_rate: u32,
    pub bits_per_sample: u16,
    pub sample_format: SampleFormat,
}

/// Why encoding failed: the error that `hound` reported.
#[derive(Debug)]
pub enum WavError {
    Hound(hound::Error),
}

#[verifier::external_type_specification]
#[verifier::external_body]
pub struct ExHoundError(hound::Error);

// ---------------------------------------------------------------------------
// The byte layout of a 16-bit mono PCM WAV file.

/// `x` as two little-endian bytes (taken modulo 2^16).
pub open spec fn le_u16(x: int) -> Seq<u8> {
    let u = x % 0x1_0000;
    seq![(u % 0x100) as u8, (u / 0x100) as u8]
}

/// `x` as four little-endian bytes (taken modulo 2^32).
pub open spec fn le_u32(x: int) -> Seq<u8> {
    let u = x % 0x1_0000_0000;
    seq![
        (u % 0x100) as u8,
        ((u / 0x100) % 0x100) as u8,
        ((u / 0x1_0000) % 0x100) as u8,
        (u / 0x100_0000) as u8,
    ]
}

/// The integer that two little-endian bytes encode, unsigned.
pub open spec fn read_u16(lo: u8, hi: u8) -> int {
    lo + 0x100 * hi
}

/// The integer that four little-endian bytes starting at `at` encode.
pub open spec fn read_u32(b: Seq<u8>, at: int) -> int {
    b[at] + 0x100 * b[at + 1] + 0x1_0000 * b[at + 2] + 0x100_0000 * b[at + 3]
}

/// The signed 16-bit integer that two little-endian bytes encode.
pub open spec fn read_i16(lo: u8, hi: u8) -> int {
    let u = read_u16(lo, hi);
    if u >= 0x8000 { u - 0x1_0000 } else { u }
}

/// The bytes "RIFF", "WAVE", "fmt " and "data".
pub open spec fn tag_riff() -> Seq<u8> { seq![0x52u8, 0x49u8, 0x46u8, 0x46u8] }
pub open spec fn tag_wave() -> Seq<u8> { seq![0x57u8, 0x41u8, 0x56u8, 0x45u8] }
pub open spec fn tag_fmt() -> Seq<u8> { seq![0x66u8, 0x6du8, 0x74u8, 0x20u8] }
pub open spec fn tag_data() -> Seq<u8> { seq![0x64u8, 0x61u8, 0x74u8, 0x61u8] }

/// The 44-byte header of a 16-bit mono PCM file whose data chunk holds
/// `data_len` bytes: RIFF chunk, a 16-byte `fmt ` chunk (format 1, one
/// channel, the rate, two bytes per frame, 16 bits), and the `data` chunk
/// header.
pub open spec fn pcm16_mono_header(sample_rate: u32, data_len: int) -> Seq<u8> {
    tag_riff() + le_u32(data_len + 36) + tag_wave() + tag_fmt() + le_u32(16) + le_u16(1)
        + le_u16(1) + le_u32(sample_rate as int) + le_u32(2 * sample_rate) + le_u16(2)
        + le_u16(16) + tag_data() + le_u32(data_len)
}

/// Byte `k` (0 or 1) of sample `s` written little-endian.
pub open spec fn sample_byte(s: i16, k: int) -> u8 {
    let u = (s as int) % 0x1_0000;
    if k == 0 { (u % 0x100) as u8 } else { (u / 0x100) as u8 }
}

/// The data chunk: every sample as two little-endian bytes, in order.
pub open spec fn pcm16_payload(samples: Seq<i16>) -> Seq<u8> {
    Seq::new(2 * samples.len(), |j: int| sample_byte(samples[j / 2], j % 2))
}

/// A whole 16-bit mono PCM WAV file holding `samples` at `sample_rate`.
pub open spec fn pcm16_mono_wav(sample_rate: u32, samples: Seq<i16>) -> Seq<u8> {
    pcm16_mono_header(sample_rate, 2 * samples.len() as int) + pcm16_payload(samples)
}

/// A format of 16-bit mono integer PCM.
pub open spec fn is_pcm16_mono(format: WavFormat) -> bool {
    &&& format.channels == 1
    &&& format.bits_per_sample == 16
    &&& format.sample_format is Int
}

/// The inputs on which `hound` writes a 16-bit mono file without panicking:
/// a rate that is neither zero nor so large that the byte rate (twice the
/// rate) overflows `u32`, and a data chunk whose size, with the 36 further
/// header bytes that the RIFF size counts, fits `u32`.
pub open spec fn pcm16_encodable(sample_rate: u32, num_samples: int) -> bool {
    &&& 0 < sample_rate <= u32::MAX / 2
    &&& 2 * num_samples + 36 <= u32::MAX
}

// ---------------------------------------------------------------------------
// The silence around the speech.

/// All-zero samples, `n` of them.
pub open spec fn silence(n: nat) -> Seq<i16> {
    Seq::new(n, |i: int| 0i16)
}

/// What goes into the file: `pad` silent samples, the speech, and `pad`
/// silent samples again.
pub open spec fn framed_samples(pad: nat, speech: Seq<i16>) -> Seq<i16> {
    silence(pad) + speech + silence(pad)
}

/// `speech` with `pad` silent samples before and after it.
pub fn frame_with_silence(pad: usize, speech: &[i16]) -> (framed: Vec<i16>)
    requires
        speech@.len() + 2 * pad <= usize::MAX,
    ensures
        framed@ == framed_samples(pad as nat, speech@),
{
    let mut framed: Vec<i16> = Vec::new();
    let mut i: usize = 0;
    while i < pad
        invariant
            i <= pad,
            framed@ == silence(i as nat),
        decreases pad - i,
    {
        framed.push(0);
        i = i + 1;
        assert(framed@ =~= silence(i as nat));
    }
    let mut j: usize = 0;
    while j < speech.len()
        invariant
            j <= speech@.len(),
            framed@ == silence(pad as nat) + speech@.subrange(0, j as int),
        decreases speech@.len() - j,
    {
        framed.push(speech[j]);
        j = j + 1;
        assert(framed@ =~= silence(pad as nat) + speech@.subrange(0, j as int));
    }
    assert(speech@.subrange(0, speech@.len() as int) =~= speech@);
    let mut k: usize = 0;
    while k < pad
        invariant
            speech@.len() + 2 * pad <= usize::MAX,
            k <= pad,
            framed@ == silence(pad as nat) + speech@ + silence(k as nat),
        decreases pad - k,
    {
        framed.push(0);
        k = k + 1;
        assert(framed@ =~= silence(pad as nat) + speech@ + silence(k as nat));
    }
    framed
}

/// Encodes `samples` as a WAV file with `hound`: `WavWriter::new` on an
/// in-memory `Cursor<Vec<u8>>`, `WavWriter::write_sample` for each sample in
/// order, `WavWriter::finalize`, and `Cursor::into_inner`. For 16-bit mono
/// integer PCM, hound's source writes the 44-byte PCMWAVEFORMAT header (RIFF
/// size = data bytes + 36, fmt chunk of 16 bytes, byte rate = 2 * rate, block
/// align 2), each `i16` as two little-endian bytes, and on finalizing seeks
/// back to patch the two size fields; that file is what an `Ok` holds. The
/// `requires` leaves out the rates on which hound divides by zero or
/// overflows its byte rate, and data sizes that overflow its `u32` counters.
/// It succeeds: for this format `new` accepts the 16-bit depth, `write_sample`
/// writes an `i16` at 16 bits in two bytes, `finalize` finds no unfinished
/// frame with one channel, and the writes and seeks on a `Cursor` over a
/// `Vec<u8>` only grow or overwrite the vector.
#[verifier::external_body]
fn hound_write_wav(format: &WavFormat, samples: &Vec<i16>) -> (res: Result<Vec<u8>, hound::Error>)
    requires
        is_pcm16_mono(*format),
        pcm16_encodable(format.sample_rate, samples@.len() as int),
    ensures
        res is Ok,
        res matches Ok(bytes) ==> bytes@ == pcm16_mono_wav(format.sample_rate, samples@),
{
    let sample_format = match format.sample_format {
        SampleFormat::Float => hound::SampleFormat::Float,
        SampleFormat::Int => hound::SampleFormat::Int,
    };
    let spec = hound::WavSpec { channels: format.channels, sample_rate: format.sample_rate,
        bits_per_sample: format.bits_per_sample, sample_format };
    let mut cursor = Cursor::new(Vec::new());
    let mut writer = hound::WavWriter::new(&mut cursor, spec)?;
    for &sample in samples.iter() {
        writer.write_sample(sample)?;
    }
    writer.finalize()?;
    Ok(cursor.into_inner())
}

/// The library's answer for what the WAV writer gave back.
pub fn wav_result(written: Result<Vec<u8>, hound::Error>) -> (res: Result<Vec<u8>, WavError>)
    ensures
        written matches Ok(bytes) ==> res == Ok::<Vec<u8>, WavError>(bytes),
        written matches Err(e) ==> res matches Err(WavError::Hound(f)) && f == e,
{
    match written {
        Ok(bytes) => Ok(bytes),
        Err(e) => Err(WavError::Hound(e)),
    }
}

/// The WAV file for speech given as 16-bit amplitudes: 16-bit mono PCM at
/// `sample_rate`, with `pad` silent samples before and after the speech.
pub fn pcm16_wav_bytes(sample_rate: u32, pad: usize, amplitudes: &[i16]) -> (res: Result<Vec<u8>, WavError>)
    requires
        pcm16_encodable(sample_rate, amplitudes@.len() + 2 * pad),
    ensures
        res is Ok,
        res matches Ok(bytes) ==> bytes@ == pcm16_mono_wav(
            sample_rate,
            framed_samples(pad as nat, amplitudes@),
        ),
{
    let framed = frame_with_silence(pad, amplitudes);
    let format = WavFormat {
        channels: 1,
        sample_rate,
        bits_per_sample: 16,
        sample_format: SampleFormat::Int,
    };
    wav_result(hound_write_wav(&format, &framed))
}

// ---------------------------------------------------------------------------
// Laws of the encoding.

proof fn lemma_le_u32_reads_back(x: int)
    requires
        0 <= x <= u32::MAX,
    ensures
        read_u32(le_u32(x), 0) == x,
{
}

proof fn lemma_le_u16_reads_back(x: int)
    requires
        0 <= x <= u16::MAX,
    ensures
        read_u16(le_u16(x)[0], le_u16(x)[1]) == x,
{
}

/// A 16-bit mono PCM file is its 44-byte header followed by two bytes per
/// sample.
pub proof fn wav_file_length(sample_rate: u32, samples: Seq<i16>)
    ensures
        pcm16_mono_wav(sample_rate, samples).len() == 44 + 2 * samples.len(),
{
}

/// The header of the file says what it holds: it starts with "RIFF", its RIFF
/// size is the file length less 8, it is "WAVE" with a 16-byte PCM `fmt `
/// chunk of one channel at the given rate with a byte rate of twice the rate,
/// two bytes per frame and 16 bits per sample, and its `data` chunk holds two
/// bytes per sample.
pub proof fn wav_header_fields(sample_rate: u32, samples: Seq<i16>)
    requires
        pcm16_encodable(sample_rate, samples.len() as int),
    ensures
        ({
            let b = pcm16_mono_wav(sample_rate, samples);
            &&& b.subrange(0, 4) == tag_riff()
            &&& read_u32(b, 4) == b.len() - 8
            &&& b.subrange(8, 12) == tag_wave()
            &&& b.subrange(12, 16) == tag_fmt()
            &&& read_u32(b, 16) == 16
            &&& read_u16(b[20], b[21]) == 1
            &&& read_u16(b[22], b[23]) == 1
            &&& read_u32(b, 24) == sample_rate
            &&& read_u32(b, 28) == 2 * sample_rate
            &&& read_u16(b[32], b[33]) == 2
            &&& read_u16(b[34], b[35]) == 16
            &&& b.subrange(36, 40) == tag_data()
            &&& read_u32(b, 40) == 2 * samples.len()
        }),
{
    let n = 2 * samples.len() as int;
    let h = pcm16_mono_header(sample_rate, n);
    let b = pcm16_mono_wav(sample_rate, samples);
    assert(h.len() == 44);
    assert forall|k: int| 0 <= k < 44 implies b[k] == h[k] by {}
    lemma_le_u32_reads_back(n + 36);
    lemma_le_u32_reads_back(16);
    lemma_le_u32_reads_back(sample_rate as int);
    lemma_le_u32_reads_back(2 * sample_rate);
    lemma_le_u32_reads_back(n);
    lemma_le_u16_reads_back(1);
    lemma_le_u16_reads_back(2);
    lemma_le_u16_reads_back(16);
    assert(h.subrange(4, 8) =~= le_u32(n + 36));
    assert(h.subrange(16, 20) =~= le_u32(16));
    assert(h.subrange(24, 28) =~= le_u32(sample_rate as int));
    assert(h.subrange(28, 32) =~= le_u32(2 * sample_rate));
    assert(h.subrange(40, 44) =~= le_u32(n));
    assert(b.subrange(0, 4) =~= tag_riff());
    assert(b.subrange(8, 12) =~= tag_wave());
    assert(b.subrange(12, 16) =~= tag_fmt());
    assert(b.subrange(36, 40) =~= tag_data());
}

/// Reading sample `i` back from the data chunk gives the sample written.
pub proof fn wav_sample_reads_back(sample_rate: u32, samples: Seq<i16>, i: int)
    requires
        0 <= i < samples.len(),
    ensures
        ({
            let b = pcm16_mono_wav(sample_rate, samples);
            read_i16(b[44 + 2 * i], b[44 + 2 * i + 1]) == samples[i]
        }),
{
    let b = pcm16_mono_wav(sample_rate, samples);
    let p = pcm16_payload(samples);
    assert(b[44 + 2 * i] == p[2 * i]);
    assert(b[44 + 2 * i + 1] == p[2 * i + 1]);
    assert((2 * i) / 2 == i && (2 * i) % 2 == 0);
    assert((2 * i + 1) / 2 == i && (2 * i + 1) % 2 == 1);
}

/// The speech stands unchanged between `pad` silent samples on each side.
pub proof fn framing_law(pad: nat, speech: Seq<i16>)
    ensures
        ({
            let s = pad as int;
            let f = framed_samples(pad, speech);
            &&& f.len() == speech.len() + 2 * s
            &&& forall|i: int| 0 <= i < s ==> #[trigger] f[i] == 0
            &&& forall|i: int| 0 <= i < speech.len() ==> #[trigger] f[s + i] == speech[i]
            &&& forall|i: int| s + speech.len() <= i < f.len() ==> #[trigger] f[i] == 0
        }),
{
}

/// The file made from speech holds each sample of the speech, after the
/// leading silence, where a reader of its data chunk finds it.
pub proof fn wav_file_holds_speech(sample_rate: u32, pad: nat, speech: Seq<i16>, i: int)
    requires
        0 <= i < speech.len(),
    ensures
        ({
            let b = pcm16_mono_wav(sample_rate, framed_samples(pad, speech));
            let at = 44 + 2 * (pad + i);
            read_i16(b[at], b[at + 1]) == speech[i]
        }),
{
    framing_law(pad, speech);
    wav_sample_reads_back(sample_rate, framed_samples(pad, speech), pad + i);
}

} // verus!
