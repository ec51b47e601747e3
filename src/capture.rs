//! The capture sink: the samples of one recording, written between `start`
//! and `stop`, and their encoding as a 16-bit PCM WAV file.

use vstd::prelude::*;
use crate::error::FlowError;

verus! {

/// The sample formats an input device can deliver natively.
#[derive(Clone, Copy, Debug, PartialEq, Eq, Structural)]
pub enum SampleFormat {
    I8,
    I16,
    I32,
    I64,
    U8,
    U16,
    U32,
    U64,
    F32,
    F64,
    /// A format the device reports that has no name here.
    Other,
}

/// What the default input device reports of itself.
#[derive(Clone, Copy, Debug, PartialEq, Eq, Structural)]
pub struct InputConfig {
    pub format: SampleFormat,
    pub channels: u16,
    pub sample_rate: u32,
}

/// The layout of the written file; samples are always 16-bit integers.
#[derive(Clone, Copy, Debug, PartialEq, Eq, Structural)]
pub struct WavFormat {
    pub channels: u16,
    pub sample_rate: u32,
}

/// The most samples one recording holds: beyond it the file's 32-bit chunk
/// lengths would overflow, and further frames are dropped.
pub const MAX_SAMPLES: usize = 2147483613;

/// The largest 16-bit sample, which a sample past positive full scale becomes.
pub const SAMPLE_MAX: i32 = 32767;

/// The smallest 16-bit sample, which a sample past negative full scale becomes.
pub const SAMPLE_MIN: i32 = -32768;

/// A scaled sample held to the range of a 16-bit sample.
pub open spec fn clamp_spec(x: int) -> int {
    if x > 32767 {
        32767
    } else if x < -32768 {
        -32768
    } else {
        x
    }
}

/// The samples of a frame after clamping.
pub open spec fn clamped(frame: Seq<i32>) -> Seq<i16> {
    frame.map_values(|x: i32| clamp_spec(x as int) as i16)
}

/// Whether the sink can write files of this layout.
pub open spec fn writable(f: WavFormat) -> bool {
    &&& f.channels > 0
    &&& f.sample_rate > 0
    &&& f.sample_rate * 2 * f.channels <= u32::MAX
}

/// Whether a device configuration can be recorded: 32-bit float samples in a
/// layout the sink can write.
pub open spec fn accepts(c: InputConfig) -> bool {
    c.format == SampleFormat::F32 && writable(WavFormat { channels: c.channels, sample_rate: c.sample_rate })
}

/// The length of the header before the sample data: the plain PCM header for
/// one or two channels, the extensible one for more.
pub open spec fn header_len(channels: u16) -> int {
    if channels > 2 {
        68
    } else {
        44
    }
}

/// A little-endian 16-bit field.
pub open spec fn le16(b: Seq<u8>, at: int) -> int {
    b[at] + 256 * b[at + 1]
}

/// A little-endian 32-bit field.
pub open spec fn le32(b: Seq<u8>, at: int) -> int {
    le16(b, at) + 65536 * le16(b, at + 2)
}

/// A sample as the unsigned 16-bit value of its two's complement.
pub open spec fn sample_bits(s: i16) -> int {
    if s < 0 {
        s + 65536
    } else {
        s as int
    }
}

/// `b` is a 16-bit integer PCM WAV file of layout `f` holding `samples`.
pub open spec fn wav_layout(b: Seq<u8>, f: WavFormat, samples: Seq<i16>) -> bool {
    let h = header_len(f.channels);
    &&& b.len() == h + 2 * samples.len()
    &&& b.subrange(0, 4) == seq![0x52u8, 0x49u8, 0x46u8, 0x46u8]
    &&& le32(b, 4) == b.len() - 8
    &&& b.subrange(8, 16) == seq![0x57u8, 0x41u8, 0x56u8, 0x45u8, 0x66u8, 0x6du8, 0x74u8, 0x20u8]
    &&& f.channels <= 2 ==> le16(b, 20) == 1
    &&& le16(b, 22) == f.channels
    &&& le32(b, 24) == f.sample_rate
    &&& le16(b, 34) == 16
    &&& b.subrange(h - 8, h - 4) == seq![0x64u8, 0x61u8, 0x74u8, 0x61u8]
    &&& le32(b, h - 4) == 2 * samples.len()
    &&& forall|i: int| 0 <= i < samples.len() ==> le16(b, h + 2 * i) == sample_bits(#[trigger] samples[i])
}

/// The error of hound's WAV encoder, carried through to be mapped.
#[verifier::external_type_specification]
#[verifier::external_body]
pub struct ExHoundError(hound::Error);

/// Relies on hound's `WavWriter` over an in-memory buffer: `new` writes the
/// RIFF, fmt and data headers for 16-bit integer PCM, `write_sample` appends
/// each sample little-endian, and `finalize` fills in the two chunk lengths.
/// `new` divides by the sample rate and `finalize` by the channel count, and
/// both sum into 32 bits, hence the bounds. Writes into the in-memory buffer
/// do not fail, so the one error left is `UnfinishedSample`, which `finalize`
/// returns where the sample count is not a multiple of the channel count.
#[verifier::external_body]
fn encode_wav(f: WavFormat, samples: &Vec<i16>) -> (r: Result<Vec<u8>, hound::Error>)
    requires
        writable(f),
        header_len(f.channels) + 2 * samples@.len() <= u32::MAX,
    ensures
        r matches Ok(b) ==> wav_layout(b@, f, samples@),
        r is Ok <==> samples@.len() % (f.channels as nat) == 0,
{
    let spec = hound::WavSpec {
        channels: f.channels,
        sample_rate: f.sample_rate,
        bits_per_sample: 16,
        sample_format: hound::SampleFormat::Int,
    };
    let mut buffer = std::io::Cursor::new(Vec::new());
    let mut writer = hound::WavWriter::new(&mut buffer, spec)?;
    for &s in samples.iter() {
        writer.write_sample(s)?;
    }
    writer.finalize()?;
    Ok(buffer.into_inner())
}

/// Whether a file of this layout can be written.
fn layout_fits(channels: u16, sample_rate: u32) -> (r: bool)
    ensures
        r == writable(WavFormat { channels, sample_rate }),
{
    if channels == 0 || sample_rate == 0 {
        return false;
    }
    let rate = sample_rate as u64;
    let width = 2 * (channels as u64);
    assert(rate * width <= 4294967295 * 131070) by (nonlinear_arith)
        requires
            rate <= 4294967295,
            width <= 131070,
    ;
    assert(rate * width == sample_rate * 2 * channels) by (nonlinear_arith)
        requires
            rate == sample_rate,
            width == 2 * channels,
    ;
    rate * width <= 4294967295u64
}

/// A scaled sample held to full scale, so that clipping never wraps around.
pub fn clamp_sample(x: i32) -> (r: i16)
    ensures
        r as int == clamp_spec(x as int),
{
    if x > SAMPLE_MAX {
        32767
    } else if x < SAMPLE_MIN {
        -32768
    } else {
        x as i16
    }
}

/// Clamping holds every sample above the 16-bit range to the largest value and
/// every one below it to the smallest, keeps the others as they are, keeps
/// their order and their sign: it never wraps around.
pub proof fn lemma_clamp_never_wraps(x: int, y: int)
    ensures
        x > 32767 ==> clamp_spec(x) == 32767,
        x < -32768 ==> clamp_spec(x) == -32768,
        -32768 <= x <= 32767 ==> clamp_spec(x) == x,
        -32768 <= clamp_spec(x) <= 32767,
        x <= y ==> clamp_spec(x) <= clamp_spec(y),
        x > 0 ==> clamp_spec(x) > 0,
        x < 0 ==> clamp_spec(x) < 0,
        x == 0 ==> clamp_spec(x) == 0,
{
}

/// A recording stopped right after it started, before any frame arrived, is a
/// well-formed header alone: its fields give the device's channel count and
/// sample rate, 16 bits per sample, and a data chunk of length zero.
pub proof fn lemma_empty_recording_is_header_only(c: InputConfig, b: Seq<u8>)
    requires
        accepts(c),
        wav_layout(b, WavFormat { channels: c.channels, sample_rate: c.sample_rate }, Seq::<i16>::empty()),
    ensures
        b.len() == header_len(c.channels),
        b.len() == 44 || b.len() == 68,
        le16(b, 22) == c.channels,
        le32(b, 24) == c.sample_rate,
        le16(b, 34) == 16,
        le32(b, 4) == b.len() - 8,
        le32(b, b.len() - 4) == 0,
{
}

/// The sink of one recording: absent before `start` and after `stop`.
pub struct AudioRecorder {
    writer: Option<WavSink>,
}

struct WavSink {
    format: WavFormat,
    samples: Vec<i16>,
}

/// An open recording after a frame was offered to it.
pub open spec fn after_write(v: Option<(WavFormat, Seq<i16>)>, frame: Seq<i32>) -> Option<(WavFormat, Seq<i16>)> {
    match v {
        None => None,
        Some((f, s)) => if s.len() + frame.len() <= MAX_SAMPLES {
            Some((f, s + clamped(frame)))
        } else {
            Some((f, s))
        },
    }
}

/// An open recording has a writable layout and fits in a WAV file.
pub open spec fn well_sized(v: Option<(WavFormat, Seq<i16>)>) -> bool {
    v matches Some((f, s)) ==> writable(f) && s.len() <= MAX_SAMPLES
}

impl View for AudioRecorder {
    /// The layout and the samples written so far, while a recording is open.
    type V = Option<(WavFormat, Seq<i16>)>;

    closed spec fn view(&self) -> Option<(WavFormat, Seq<i16>)> {
        match self.writer {
            Some(w) => Some((w.format, w.samples@)),
            None => None,
        }
    }
}

impl AudioRecorder {
    pub fn new() -> (r: AudioRecorder)
        ensures
            r@ == None::<(WavFormat, Seq<i16>)>,
            well_sized(r@),
    {
        AudioRecorder { writer: None }
    }

    /// Whether a recording is open.
    pub fn is_open(&self) -> (r: bool)
        ensures
            r == (self@ is Some),
    {
        self.writer.is_some()
    }

    /// Opens a recording of the device's layout, with 16-bit samples whatever the
    /// device delivers. Only 32-bit float devices are taken; any other, or one
    /// whose layout cannot be written, gives `UnsupportedFormat` and leaves the
    /// recorder as it was. A recording still open is discarded.
    pub fn start(&mut self, config: InputConfig) -> (r: Result<(), FlowError>)
        ensures
            r is Ok == accepts(config),
            r is Ok ==> final(self)@ == Some(
                (WavFormat { channels: config.channels, sample_rate: config.sample_rate }, Seq::<i16>::empty()),
            ),
            r is Err ==> r == Err::<(), FlowError>(FlowError::UnsupportedFormat) && final(self)@ == old(self)@,
            well_sized(old(self)@) ==> well_sized(final(self)@),
    {
        let format = WavFormat { channels: config.channels, sample_rate: config.sample_rate };
        let fits = layout_fits(config.channels, config.sample_rate);
        if config.format != SampleFormat::F32 || !fits {
            return Err(FlowError::UnsupportedFormat);
        }
        let samples: Vec<i16> = Vec::new();
        self.writer = Some(WavSink { format, samples });
        Ok(())
    }

    /// Appends a frame of scaled samples, each clamped to the 16-bit range, to the
    /// open recording. Without an open recording, or where the frame would take
    /// the recording past `MAX_SAMPLES`, the frame is dropped.
    pub fn write_samples(&mut self, frame: &[i32])
        ensures
            final(self)@ == after_write(old(self)@, frame@),
            well_sized(old(self)@) ==> well_sized(final(self)@),
    {
        let taken = self.writer.take();
        match taken {
            None => {},
            Some(w) => {
                let mut w = w;
                let len = w.samples.len();
                if len <= MAX_SAMPLES && frame.len() <= MAX_SAMPLES - len {
                    let ghost start = w.samples@;
                    let ghost format = w.format;
                    let mut i: usize = 0;
                    while i < frame.len()
                        invariant
                            w.format == format,
                            i <= frame@.len(),
                            start.len() + frame@.len() <= MAX_SAMPLES,
                            w.samples@ =~= start + clamped(frame@).take(i as int),
                        decreases frame@.len() - i,
                    {
                        let c = clamp_sample(frame[i]);
                        w.samples.push(c);
                        i = i + 1;
                    }
                    assert(clamped(frame@).take(frame@.len() as int) =~= clamped(frame@));
                }
                self.writer = Some(w);
            },
        }
    }

    /// Closes the open recording and returns it as a WAV file: the header for
    /// its layout, then its samples. Without an open recording this does
    /// nothing and returns `Ok(None)`. A recording that ends inside a frame
    /// (its sample count not a multiple of the channel count) cannot be
    /// encoded: it is lost and `IoError` comes back. Either way no recording is
    /// open after.
    pub fn stop(&mut self) -> (r: Result<Option<Vec<u8>>, FlowError>)
        ensures
            final(self)@ == None::<(WavFormat, Seq<i16>)>,
            old(self)@ is None ==> r == Ok::<Option<Vec<u8>>, FlowError>(None),
            old(self)@ matches Some((f, s)) ==> match r {
                Ok(Some(b)) => wav_layout(b@, f, s),
                Ok(None) => false,
                Err(e) => e == FlowError::IoError,
            },
            old(self)@ matches Some((f, s)) && !well_sized(old(self)@) ==> r is Err,
            well_sized(old(self)@) ==> (old(self)@ matches Some((f, s)) ==> (r is Ok <==> s.len() % (
            f.channels as nat) == 0)),
    {
        let taken = self.writer.take();
        match taken {
            None => Ok(None),
            Some(w) => {
                let f = w.format;
                let fits = layout_fits(f.channels, f.sample_rate) && w.samples.len() <= MAX_SAMPLES;
                if !fits {
                    return Err(FlowError::IoError);
                }
                match encode_wav(f, &w.samples) {
                    Ok(bytes) => Ok(Some(bytes)),
                    Err(_) => Err(FlowError::IoError),
                }
            },
        }
    }
}

} // verus!
