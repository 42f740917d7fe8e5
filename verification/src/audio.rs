use vstd::prelude::*;

use crate::handle::{
    append_headless_steps, fresh, headless_steps, required_option, HandleSetup, SetupStep,
    StepView,
};
use crate::text::{
    append_decimal, decimal_digits, decimal_text, decimal_value, is_decimal,
    lemma_decimal_digits_read_back,
};

verus! {

/// Audio decoding and extraction configuration tailored for subtitle and ASR engines.
#[derive(Debug, Clone, PartialEq, Eq, Structural)]
pub struct AudioConfig {
    /// Target sample rate in Hz (standard Whisper default: 16000).
    pub sample_rate: u32,
    /// Number of channels (standard Whisper default: 1 for mono).
    pub channels: u16,
}

impl AudioConfig {
    /// The standard configuration: 16 kHz mono, the input that Whisper expects.
    pub open spec fn standard() -> AudioConfig {
        AudioConfig { sample_rate: 16000, channels: 1 }
    }

    /// The high-fidelity configuration: 48 kHz stereo.
    pub open spec fn high_fidelity() -> AudioConfig {
        AudioConfig { sample_rate: 48000, channels: 2 }
    }

    /// Constructs a standard Whisper-compliant 16kHz mono configuration,
    /// which is also the default configuration.
    pub fn whisper() -> (config: Self)
        ensures
            config == AudioConfig::standard(),
    {
        Self::default()
    }

    /// Constructs high-fidelity stereo audio configuration.
    pub fn hi_fi() -> (config: Self)
        ensures
            config == AudioConfig::high_fidelity(),
    {
        Self { sample_rate: 48000, channels: 2 }
    }
}

impl Default for AudioConfig {
    fn default() -> (config: Self)
        ensures
            config == AudioConfig::standard(),
    {
        Self { sample_rate: 16000, channels: 1 }
    }
}

/// Headless batch audio extractor for offline transcoding and ASR ingestion.
pub struct AudioExtractor;

/// The audio filter that resamples to `sample_rate` and mixes the first two
/// channels down to mono.
pub open spec fn mono_filter(sample_rate: u32) -> Seq<char> {
    "lavfi=[aresample="@ + decimal_text(sample_rate as int) + ",pan=mono|c0=0.5*c0+0.5*c1]"@
}

/// The audio filter that resamples to `sample_rate`, keeping the channels.
pub open spec fn resample_filter(sample_rate: u32) -> Seq<char> {
    "lavfi=[aresample="@ + decimal_text(sample_rate as int) + "]"@
}

/// The steps of a headless extractor for `config`: those of a headless handle,
/// then an unthrottled playback clock (decode as fast as the CPU allows) with
/// video and subtitles off, and the filter that resamples to the target rate
/// (mixing down to mono for a mono configuration), whose failure is ignored.
pub open spec fn extractor_steps(config: AudioConfig) -> Seq<StepView> {
    headless_steps() + seq![
        required_option("untimed"@, "yes"@),
        required_option("speed"@, "100.0"@),
        required_option("video"@, "no"@),
        required_option("sub"@, "no"@),
    ] + seq![
        StepView::SetOption {
            name: "af"@,
            value: if config.channels == 1 {
                mono_filter(config.sample_rate)
            } else {
                resample_filter(config.sample_rate)
            },
            required: false,
        },
    ]
}

impl AudioExtractor {
    /// The setup of a headless, clock-unshackled mpv instance for batch PCM
    /// dumping with `config`.
    pub fn create_headless_extractor(config: &AudioConfig) -> (setup: HandleSetup)
        ensures
            setup@ == fresh(extractor_steps(*config)),
            setup@.well_formed(),
    {
        let mut steps: Vec<SetupStep> = Vec::new();
        append_headless_steps(&mut steps);
        steps.push(SetupStep::option("untimed", "yes", true));
        steps.push(SetupStep::option("speed", "100.0", true));
        steps.push(SetupStep::option("video", "no", true));
        steps.push(SetupStep::option("sub", "no", true));
        let mut filter = String::from_str("lavfi=[aresample=");
        append_decimal(&mut filter, config.sample_rate as u64);
        if config.channels == 1 {
            filter.append(",pan=mono|c0=0.5*c0+0.5*c1]");
        } else {
            filter.append("]");
        }
        steps.push(
            SetupStep::SetOption { name: String::from_str("af"), value: filter, required: false },
        );
        assert(steps@.map_values(|s: SetupStep| s@) =~= extractor_steps(*config));
        HandleSetup::from_steps(steps)
    }
}

/// The number of whole frames in `sample_count` interleaved samples of
/// `channels` channels (a channel count of 0 counts as 1).
pub open spec fn frame_count(sample_count: nat, channels: nat) -> nat {
    sample_count / (if channels == 0 { 1 } else { channels })
}

/// The number of frames in each waveform bin when `total` frames are spread
/// over `bins` bins: an equal share, and at least one.
pub open spec fn frames_per_bin(total: nat, bins: nat) -> nat {
    if bins > 0 && total / bins >= 1 { total / bins } else { 1 }
}

/// The sample index of each frame from `start` (inclusive) to `end`
/// (exclusive): the frame number times the channel count.
pub open spec fn frame_samples(start: nat, end: nat, channels: nat) -> Seq<int> {
    Seq::new(
        if end > start { (end - start) as nat } else { 0 },
        |k: int| (start + k) * channels,
    )
}

/// The sample indices of the frames from `start` to `end` that fall inside
/// `sample_count` samples, in frame order.
pub open spec fn bin_samples(start: nat, end: nat, channels: nat, sample_count: nat) -> Seq<int> {
    frame_samples(start, end, channels).filter(|idx: int| idx < sample_count)
}

proof fn lemma_bin_samples_step(start: nat, f: nat, channels: nat, sample_count: nat)
    requires
        start <= f,
    ensures
        bin_samples(start, f + 1, channels, sample_count) == if f * channels < sample_count {
            bin_samples(start, f, channels, sample_count).push((f * channels) as int)
        } else {
            bin_samples(start, f, channels, sample_count)
        },
{
    reveal(Seq::filter);
    let s = frame_samples(start, f + 1, channels);
    assert(s.drop_last() =~= frame_samples(start, f, channels));
    assert(s.last() == f * channels);
}

proof fn lemma_bin_fits(i: nat, bins: nat, total: nat, per_bin: nat)
    requires
        i < bins,
        i * per_bin < total,
        per_bin == frames_per_bin(total, bins),
    ensures
        (i + 1) * per_bin <= total,
{
    if bins > 0 && total / bins >= 1 {
        assert((i + 1) * per_bin <= bins * per_bin) by (nonlinear_arith)
            requires
                i + 1 <= bins,
        ;
        assert(bins * (total / bins) <= total) by (nonlinear_arith)
            requires
                bins > 0,
        ;
    } else {
        assert(i * per_bin == i);
    }
}

/// Lays out the waveform bins of a buffer of `sample_count` interleaved
/// samples of `channels` channels: up to `bins` consecutive ranges of whole
/// frames, `(start_frame, end_frame)`, each `frames_per_bin` frames long,
/// starting at frame 0 and stopping at the first bin that would start past
/// the last frame. No bins for an empty buffer or zero bins.
pub fn waveform_bin_ranges(sample_count: usize, channels: u16, bins: usize) -> (ranges: Vec<(usize, usize)>)
    ensures
        ({
            let total = frame_count(sample_count as nat, channels as nat);
            let per_bin = frames_per_bin(total, bins as nat);
            &&& (bins == 0 || sample_count == 0) ==> ranges@.len() == 0
            &&& ranges@.len() <= bins
            &&& forall|j: int|
                #![trigger ranges@[j]]
                0 <= j < ranges@.len() ==> {
                    &&& ranges@[j].0 == j * per_bin
                    &&& ranges@[j].1 == (j + 1) * per_bin
                    &&& ranges@[j].0 < total
                    &&& ranges@[j].1 <= total
                }
            &&& (bins > 0 && sample_count > 0) ==> (ranges@.len() == bins || ranges@.len()
                * per_bin >= total)
        }),
{
    let mut ranges: Vec<(usize, usize)> = Vec::new();
    if bins == 0 || sample_count == 0 {
        return ranges;
    }
    let divisor: usize = if channels == 0 { 1 } else { channels as usize };
    let total: usize = sample_count / divisor;
    let per_bin: usize = if total / bins >= 1 { total / bins } else { 1 };
    let ghost spec_total = frame_count(sample_count as nat, channels as nat);
    assert(total == spec_total);
    assert(per_bin == frames_per_bin(total as nat, bins as nat));
    let mut i: usize = 0;
    let mut start: usize = 0;
    while i < bins && start < total
        invariant
            bins > 0,
            per_bin == frames_per_bin(total as nat, bins as nat),
            total == spec_total,
            i <= bins,
            start == i * per_bin,
            i > 0 ==> start <= total,
            ranges@.len() == i,
            forall|j: int|
                #![trigger ranges@[j]]
                0 <= j < i ==> {
                    &&& ranges@[j].0 == j * per_bin
                    &&& ranges@[j].1 == (j + 1) * per_bin
                    &&& ranges@[j].0 < total
                    &&& ranges@[j].1 <= total
                },
        decreases bins - i,
    {
        proof {
            lemma_bin_fits(i as nat, bins as nat, total as nat, per_bin as nat);
            assert((i + 1) * per_bin == i * per_bin + per_bin) by (nonlinear_arith);
        }
        let end = start + per_bin;
        ranges.push((start, end));
        i = i + 1;
        start = end;
    }
    ranges
}

/// The sample indices of the frames from `start_frame` to `end_frame` that
/// fall inside a buffer of `sample_count` samples with `channels` interleaved
/// channels: the first channel's sample of each frame.
pub fn bin_sample_indices(start_frame: usize, end_frame: usize, channels: u16, sample_count: usize) -> (indices: Vec<usize>)
    ensures
        indices@.map_values(|x: usize| x as int) == bin_samples(
            start_frame as nat,
            end_frame as nat,
            channels as nat,
            sample_count as nat,
        ),
{
    let mut indices: Vec<usize> = Vec::new();
    let mut f = start_frame;
    proof {
        reveal(Seq::filter);
        assert(frame_samples(start_frame as nat, f as nat, channels as nat) =~= Seq::empty());
        assert(indices@.map_values(|x: usize| x as int) =~= bin_samples(
            start_frame as nat,
            f as nat,
            channels as nat,
            sample_count as nat,
        ));
    }
    while f < end_frame
        invariant
            start_frame <= f,
            start_frame > end_frame ==> f == start_frame,
            start_frame <= end_frame ==> f <= end_frame,
            indices@.map_values(|x: usize| x as int) == bin_samples(
                start_frame as nat,
                f as nat,
                channels as nat,
                sample_count as nat,
            ),
        decreases end_frame - f,
    {
        proof {
            lemma_bin_samples_step(start_frame as nat, f as nat, channels as nat, sample_count as nat);
        }
        match f.checked_mul(channels as usize) {
            Some(idx) => {
                if idx < sample_count {
                    indices.push(idx);
                }
            },
            None => {},
        }
        assert(indices@.map_values(|x: usize| x as int) =~= bin_samples(
            start_frame as nat,
            (f + 1) as nat,
            channels as nat,
            sample_count as nat,
        ));
        f = f + 1;
    }
    proof {
        if start_frame > end_frame {
            assert(frame_samples(start_frame as nat, end_frame as nat, channels as nat)
                =~= frame_samples(start_frame as nat, f as nat, channels as nat));
        }
    }
    indices
}

/// The frames of a buffer are all its whole frames: `frame_count` frames
/// of `max(channels, 1)` samples fit in the buffer, and one more would not.
pub proof fn lemma_frame_count_exact(sample_count: nat, channels: nat)
    ensures
        ({
            let width: nat = if channels == 0 { 1 } else { channels };
            &&& frame_count(sample_count, channels) * width <= sample_count
            &&& sample_count < (frame_count(sample_count, channels) + 1) * width
        }),
{
    let width: nat = if channels == 0 { 1 } else { channels };
    let q = sample_count / width;
    assert(q * width <= sample_count && sample_count < (q + 1) * width) by (nonlinear_arith)
        requires
            width > 0,
            q == sample_count / width,
    ;
}

/// Each bin takes an equal share of the frames, rounded down, and at least
/// one frame: `bins` bins of `frames_per_bin` frames fit in the frames, and
/// (unless there are fewer frames than bins) bins one frame longer would not.
pub proof fn lemma_frames_per_bin_exact(total: nat, bins: nat)
    requires
        bins > 0,
    ensures
        frames_per_bin(total, bins) >= 1,
        total >= bins ==> frames_per_bin(total, bins) * bins <= total < (frames_per_bin(
            total,
            bins,
        ) + 1) * bins,
        total < bins ==> frames_per_bin(total, bins) == 1,
{
    let q = total / bins;
    assert(q * bins <= total && total < (q + 1) * bins) by (nonlinear_arith)
        requires
            bins > 0,
            q == total / bins,
    ;
    if total >= bins {
        assert(q >= 1) by (nonlinear_arith)
            requires
                bins > 0,
                q == total / bins,
                total >= bins,
        ;
    } else {
        assert(q == 0) by (nonlinear_arith)
            requires
                bins > 0,
                q == total / bins,
                total < bins,
        ;
    }
}

proof fn lemma_all_samples_inside(start: nat, f: nat, channels: nat, sample_count: nat)
    requires
        start <= f,
        channels >= 1,
        f * channels <= sample_count,
    ensures
        bin_samples(start, f, channels, sample_count).len() == f - start,
        forall|i: int|
            0 <= i < f - start ==> #[trigger] bin_samples(start, f, channels, sample_count)[i]
                == (start + i) * channels,
    decreases f - start,
{
    if f == start {
        reveal(Seq::filter);
        assert(frame_samples(start, f, channels) =~= Seq::empty());
    } else {
        let g = (f - 1) as nat;
        assert(g * channels <= f * channels) by (nonlinear_arith)
            requires
                g <= f,
        ;
        assert(g * channels < f * channels) by (nonlinear_arith)
            requires
                g < f,
                channels >= 1,
        ;
        lemma_all_samples_inside(start, g, channels, sample_count);
        lemma_bin_samples_step(start, g, channels, sample_count);
    }
}

/// A bin reads the first channel of each of its frames: when its frames lie
/// inside the buffer, it reads one sample per frame, frame `start + i`
/// giving sample `(start + i) * channels`.
pub proof fn lemma_bin_reads_first_channel(start: nat, end: nat, channels: nat, sample_count: nat)
    requires
        start <= end,
        channels >= 1,
        end * channels <= sample_count,
    ensures
        bin_samples(start, end, channels, sample_count).len() == end - start,
        forall|i: int|
            0 <= i < end - start ==> #[trigger] bin_samples(start, end, channels, sample_count)[i]
                == (start + i) * channels,
{
    lemma_all_samples_inside(start, end, channels, sample_count);
}

/// The extractor's last step sets the audio filter `af`, optionally, to a
/// resampling filter whose rate, read back from the text, is the configured
/// sample rate; for a mono configuration the filter also mixes down to mono.
pub proof fn lemma_extractor_filter_names_rate(config: AudioConfig)
    ensures
        exists|digits: Seq<char>|
            is_decimal(digits) && #[trigger] decimal_value(digits) == config.sample_rate
                && extractor_steps(config).last() == (StepView::SetOption {
                name: "af"@,
                value: "lavfi=[aresample="@ + digits + if config.channels == 1 {
                    ",pan=mono|c0=0.5*c0+0.5*c1]"@
                } else {
                    "]"@
                },
                required: false,
            }),
{
    let digits = decimal_digits(config.sample_rate as nat);
    lemma_decimal_digits_read_back(config.sample_rate as nat);
    assert(decimal_text(config.sample_rate as int) == digits);
    let expected = StepView::SetOption {
        name: "af"@,
        value: "lavfi=[aresample="@ + digits + if config.channels == 1 {
            ",pan=mono|c0=0.5*c0+0.5*c1]"@
        } else {
            "]"@
        },
        required: false,
    };
    if config.channels == 1 {
        assert(mono_filter(config.sample_rate) =~= "lavfi=[aresample="@ + digits
            + ",pan=mono|c0=0.5*c0+0.5*c1]"@);
    } else {
        assert(resample_filter(config.sample_rate) =~= "lavfi=[aresample="@ + digits + "]"@);
    }
    assert(extractor_steps(config).last() == expected);
    assert(decimal_value(digits) == config.sample_rate);
}

} // verus!
