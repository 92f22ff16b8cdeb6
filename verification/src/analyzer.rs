//! The integer side of the spectral analyser.
//!
//! The analyser keeps the latest samples in a circular window, looks at the
//! window through a frequency transform, and shows one smoothed level for
//! each of `NUM_BANDS` frequency bands, and one for the signal as a whole.
//! This module holds what of that is exact: the window, the split of the
//! transform's bins into bands, the gain of each band, and the smoothing of
//! the levels, in thousandths. The transform itself works on floating-point
//! numbers and is not part of this library.

use crate::status::{all_in_range, all_zero, LEVEL_FULL, NUM_BANDS};
use vstd::prelude::*;

verus! {

/// Number of samples in one analysis frame. A power of two.
pub const FFT_SIZE: usize = 512;

/// The bin of the Nyquist frequency: bins from here on mirror the lower ones.
pub const NYQUIST_BIN: usize = 256;

/// The lower edge of band `band`, in hertz.
pub open spec fn band_low_hz(band: int) -> int {
    if band == 0 {
        60
    } else if band == 1 {
        150
    } else if band == 2 {
        300
    } else if band == 3 {
        600
    } else if band == 4 {
        1200
    } else if band == 5 {
        2400
    } else if band == 6 {
        4000
    } else {
        6000
    }
}

/// The upper edge of band `band`, in hertz: the lower edge of the next band,
/// and 8000 for the last.
pub open spec fn band_high_hz(band: int) -> int {
    if band >= NUM_BANDS - 1 {
        8000
    } else {
        band_low_hz(band + 1)
    }
}

/// The gain of band `band`, in tenths. Higher bands carry less energy in a
/// voice and are raised more.
pub open spec fn band_gain(band: int) -> int {
    if band == 0 {
        10
    } else if band == 1 {
        12
    } else if band == 2 {
        15
    } else if band == 3 {
        20
    } else if band == 4 {
        25
    } else if band == 5 {
        30
    } else if band == 6 {
        40
    } else {
        50
    }
}

/// The bin that frequency `hz` falls into at `sample_rate`: the frequency
/// divided by the width of a bin, rounded down, and at most the Nyquist bin.
/// A sample rate of zero puts every frequency into the Nyquist bin.
pub open spec fn bin_of(hz: int, sample_rate: int) -> int {
    if sample_rate <= 0 || hz * FFT_SIZE / sample_rate > NYQUIST_BIN {
        NYQUIST_BIN as int
    } else {
        hz * FFT_SIZE / sample_rate
    }
}

/// The edges of band `band`, in hertz.
pub fn band_range_hz(band: usize) -> (r: (u32, u32))
    requires
        band < NUM_BANDS,
    ensures
        r.0 == band_low_hz(band as int),
        r.1 == band_high_hz(band as int),
        r.0 < r.1,
{
    if band == 0 {
        (60, 150)
    } else if band == 1 {
        (150, 300)
    } else if band == 2 {
        (300, 600)
    } else if band == 3 {
        (600, 1200)
    } else if band == 4 {
        (1200, 2400)
    } else if band == 5 {
        (2400, 4000)
    } else if band == 6 {
        (4000, 6000)
    } else {
        (6000, 8000)
    }
}

/// The gain of band `band`, in tenths.
pub fn band_gain_tenths(band: usize) -> (r: u16)
    requires
        band < NUM_BANDS,
    ensures
        r == band_gain(band as int),
{
    if band == 0 {
        10
    } else if band == 1 {
        12
    } else if band == 2 {
        15
    } else if band == 3 {
        20
    } else if band == 4 {
        25
    } else if band == 5 {
        30
    } else if band == 6 {
        40
    } else {
        50
    }
}

/// The bin that frequency `hz` falls into at `sample_rate`.
pub fn frequency_bin(hz: u32, sample_rate: u32) -> (r: usize)
    ensures
        r == bin_of(hz as int, sample_rate as int),
        r <= NYQUIST_BIN,
{
    if sample_rate == 0 {
        return NYQUIST_BIN;
    }
    let scaled: u64 = (hz as u64) * 512;
    let bin: u64 = scaled / (sample_rate as u64);
    if bin > NYQUIST_BIN as u64 {
        NYQUIST_BIN
    } else {
        bin as usize
    }
}

/// The bins of band `band` at `sample_rate`: from the first of the pair up
/// to, and without, the second. The band is empty where the two are equal.
pub fn band_bins(sample_rate: u32, band: usize) -> (r: (usize, usize))
    requires
        band < NUM_BANDS,
    ensures
        r.0 == bin_of(band_low_hz(band as int), sample_rate as int),
        r.1 == bin_of(band_high_hz(band as int), sample_rate as int),
        r.0 <= r.1 <= NYQUIST_BIN,
{
    let (low, high) = band_range_hz(band);
    proof {
        lemma_bin_of_monotonic(low as int, high as int, sample_rate as int);
    }
    (frequency_bin(low, sample_rate), frequency_bin(high, sample_rate))
}

/// A higher frequency never falls into a lower bin.
pub proof fn lemma_bin_of_monotonic(low: int, high: int, sample_rate: int)
    requires
        0 <= low <= high,
    ensures
        bin_of(low, sample_rate) <= bin_of(high, sample_rate),
{
    if sample_rate > 0 {
        assert(low * FFT_SIZE <= high * FFT_SIZE);
        vstd::arithmetic::div_mod::lemma_div_is_ordered(
            low * FFT_SIZE,
            high * FFT_SIZE,
            sample_rate,
        );
    }
}

/// The bands follow one another without a gap: each band ends on the bin on
/// which the next one starts.
pub proof fn law_bands_are_contiguous(sample_rate: int, band: int)
    requires
        0 <= band < NUM_BANDS - 1,
    ensures
        bin_of(band_high_hz(band), sample_rate) == bin_of(band_low_hz(band + 1), sample_rate),
{
}

/// A frequency within the edges of a band falls into a bin within the bins
/// of that band, at every sample rate.
pub proof fn law_band_holds_its_frequencies(sample_rate: int, band: int, hz: int)
    requires
        0 <= band < NUM_BANDS,
        band_low_hz(band) <= hz <= band_high_hz(band),
    ensures
        bin_of(band_low_hz(band), sample_rate) <= bin_of(hz, sample_rate) <= bin_of(
            band_high_hz(band),
            sample_rate,
        ),
{
    lemma_bin_of_monotonic(band_low_hz(band), hz, sample_rate);
    lemma_bin_of_monotonic(hz, band_high_hz(band), sample_rate);
}

/// Whether band `band` holds no bin at `sample_rate`: it lies above what the
/// transform reaches, or it is narrower than a bin.
pub open spec fn band_is_empty(sample_rate: int, band: int) -> bool {
    bin_of(band_low_hz(band), sample_rate) >= bin_of(band_high_hz(band), sample_rate)
}

/// The latest `FFT_SIZE` samples, oldest first.
pub struct SampleWindow<T> {
    buffer: Vec<T>,
    write_pos: usize,
}

impl<T: Copy> View for SampleWindow<T> {
    type V = Seq<T>;

    closed spec fn view(&self) -> Seq<T> {
        Seq::new(
            FFT_SIZE as nat,
            |i: int| self.buffer@[(self.write_pos + i) % (FFT_SIZE as int)],
        )
    }
}

impl<T: Copy> SampleWindow<T> {
    /// Whether the window holds its `FFT_SIZE` samples.
    pub closed spec fn wf(&self) -> bool {
        self.buffer@.len() == FFT_SIZE && self.write_pos < FFT_SIZE
    }

    /// A window of `FFT_SIZE` copies of `fill`.
    pub fn new(fill: T) -> (r: Self)
        ensures
            r.wf(),
            r@.len() == FFT_SIZE,
            r@ == Seq::new(FFT_SIZE as nat, |i: int| fill),
    {
        let mut buffer: Vec<T> = Vec::new();
        let mut i: usize = 0;
        while i < FFT_SIZE
            invariant
                i <= FFT_SIZE,
                buffer@.len() == i,
                forall|k: int| 0 <= k < i ==> buffer@[k] == fill,
            decreases FFT_SIZE - i,
        {
            buffer.push(fill);
            i += 1;
        }
        let r = SampleWindow { buffer, write_pos: 0 };
        assert(r@ =~= Seq::new(FFT_SIZE as nat, |i: int| fill));
        r
    }

    /// Takes `sample` in and lets the oldest sample go.
    pub fn push(&mut self, sample: T)
        requires
            old(self).wf(),
        ensures
            final(self).wf(),
            old(self)@.len() == FFT_SIZE,
            final(self)@.len() == FFT_SIZE,
            final(self)@ == old(self)@.drop_first().push(sample),
    {
        let ghost before = self@;
        let at = self.write_pos;
        self.buffer.set(at, sample);
        self.write_pos = if at + 1 == FFT_SIZE {
            0
        } else {
            at + 1
        };
        assert(self@ =~= before.drop_first().push(sample)) by {
            assert forall|i: int| 0 <= i < FFT_SIZE implies self@[i] == before.drop_first().push(
                sample,
            )[i] by {
                if i < FFT_SIZE - 1 {
                    assert((self.write_pos + i) % (FFT_SIZE as int) == (at + (i + 1)) % (
                    FFT_SIZE as int));
                    assert((at + (i + 1)) % (FFT_SIZE as int) != at);
                } else {
                    assert((self.write_pos + i) % (FFT_SIZE as int) == at);
                }
            }
        }
    }

    /// Takes the samples of `chunk` in, in order. The window then holds the
    /// latest `FFT_SIZE` of what it held before followed by the chunk.
    pub fn write(&mut self, chunk: &[T])
        requires
            old(self).wf(),
        ensures
            final(self).wf(),
            old(self)@.len() == FFT_SIZE,
            final(self)@.len() == FFT_SIZE,
            final(self)@ == (old(self)@ + chunk@).skip(chunk@.len() as int),
    {
        let mut i: usize = 0;
        assert((self@ + chunk@.take(0)).skip(0) =~= self@);
        while i < chunk.len()
            invariant
                i <= chunk@.len(),
                self.wf(),
                self@ == (old(self)@ + chunk@.take(i as int)).skip(i as int),
            decreases chunk@.len() - i,
        {
            let ghost before = self@;
            self.push(chunk[i]);
            assert(before.drop_first().push(chunk@[i as int]) =~= (old(self)@ + chunk@.take(
                i + 1,
            )).skip(i + 1));
            i += 1;
        }
        assert(chunk@.take(chunk@.len() as int) =~= chunk@);
    }

    /// The samples of the window, oldest first.
    pub fn ordered(&self) -> (r: Vec<T>)
        requires
            self.wf(),
        ensures
            r@ == self@,
            r@.len() == FFT_SIZE,
    {
        let mut r: Vec<T> = Vec::new();
        let mut i: usize = 0;
        while i < FFT_SIZE
            invariant
                i <= FFT_SIZE,
                self.wf(),
                r@.len() == i,
                forall|k: int| 0 <= k < i ==> r@[k] == self@[k],
            decreases FFT_SIZE - i,
        {
            let at = (self.write_pos + i) % FFT_SIZE;
            r.push(self.buffer[at]);
            i += 1;
        }
        assert(r@ =~= self@);
        r
    }

    /// Fills the window with copies of `fill`.
    pub fn reset(&mut self, fill: T)
        requires
            old(self).wf(),
        ensures
            final(self).wf(),
            final(self)@.len() == FFT_SIZE,
            final(self)@ == Seq::new(FFT_SIZE as nat, |i: int| fill),
    {
        let mut i: usize = 0;
        while i < FFT_SIZE
            invariant
                i <= FFT_SIZE,
                self.buffer@.len() == FFT_SIZE,
                self.write_pos < FFT_SIZE,
                forall|k: int| 0 <= k < i ==> self.buffer@[k] == fill,
            decreases FFT_SIZE - i,
        {
            self.buffer.set(i, fill);
            i += 1;
        }
        self.write_pos = 0;
        assert(self@ =~= Seq::new(FFT_SIZE as nat, |i: int| fill));
    }
}

/// The level after `raw` came in on top of `level`: seven parts of the old
/// level and three of the new one, rounded towards the new one.
pub open spec fn smoothed_level(level: u16, raw: u16) -> u16 {
    if raw > level {
        ((level * 7 + raw * 3 + 9) / 10) as u16
    } else {
        ((level * 7 + raw * 3) / 10) as u16
    }
}

/// The value of a band after `raw` came in on top of `shown`. A rising band
/// goes four fifths of the way at once; a falling one goes half the way.
/// Both are rounded towards `raw`, so that a steady input is reached.
pub open spec fn smoothed_band(shown: u16, raw: u16) -> u16 {
    if raw > shown {
        ((shown * 2 + raw * 8 + 9) / 10) as u16
    } else {
        ((shown + raw) / 2) as u16
    }
}

/// The value of a band after `rounds` rounds of silence on top of `shown`.
pub open spec fn decayed(shown: u16, rounds: nat) -> u16
    decreases rounds,
{
    if rounds == 0 {
        shown
    } else {
        decayed(smoothed_band(shown, 0), (rounds - 1) as nat)
    }
}

/// The bands after `raw` came in on top of `shown`.
pub open spec fn smoothed_bands(shown: Seq<u16>, raw: Seq<u16>) -> Seq<u16> {
    Seq::new(shown.len(), |i: int| smoothed_band(shown[i], raw[i]))
}

/// Smoothing never overshoots: the new value lies between the old one and
/// the raw one, so a band moves towards the input and does not swing. It
/// does move where the two differ, and stays where they agree.
pub proof fn law_smoothing_stays_between(shown: u16, raw: u16)
    requires
        shown <= LEVEL_FULL,
        raw <= LEVEL_FULL,
    ensures
        raw > shown ==> shown < smoothed_band(shown, raw),
        raw < shown ==> smoothed_band(shown, raw) < shown,
        raw > shown ==> shown < smoothed_level(shown, raw),
        raw < shown ==> smoothed_level(shown, raw) < shown,
        smoothed_band(raw, raw) == raw,
        smoothed_level(raw, raw) == raw,
        raw > shown ==> shown <= smoothed_band(shown, raw) <= raw,
        raw <= shown ==> raw <= smoothed_band(shown, raw) <= shown,
        raw <= shown ==> raw <= smoothed_level(shown, raw) <= shown,
        raw > shown ==> shown <= smoothed_level(shown, raw) <= raw,
{
}

/// Silence lets a band fall and never rise: each round halves it, and from
/// any level up to `LEVEL_FULL` seven rounds bring it below ten thousandths.
pub proof fn law_silence_decays(shown: u16)
    requires
        shown <= LEVEL_FULL,
    ensures
        smoothed_band(shown, 0) == shown / 2,
        smoothed_band(shown, 0) <= shown,
        shown > 0 ==> smoothed_band(shown, 0) < shown,
        decayed(shown, 7) < 10,
{
    reveal_with_fuel(decayed, 8);
}

/// A silent band stays silent under silence.
pub proof fn law_silence_stays(rounds: nat)
    ensures
        decayed(0, rounds) == 0,
    decreases rounds,
{
    if rounds > 0 {
        law_silence_stays((rounds - 1) as nat);
    }
}

/// The levels that the analyser shows.
pub struct SpectrumMeter {
    level: u16,
    bands: [u16; NUM_BANDS],
}

/// The mathematical value of a `SpectrumMeter`.
pub struct MeterView {
    pub level: u16,
    pub bands: Seq<u16>,
}

impl MeterView {
    /// A meter that shows silence.
    pub open spec fn silent() -> MeterView {
        MeterView { level: 0, bands: Seq::new(NUM_BANDS as nat, |i: int| 0u16) }
    }

    /// Whether the meter shows `NUM_BANDS` bands and no level above `LEVEL_FULL`.
    pub open spec fn wf(self) -> bool {
        self.level <= LEVEL_FULL && self.bands.len() == NUM_BANDS && all_in_range(self.bands)
    }
}

impl View for SpectrumMeter {
    type V = MeterView;

    closed spec fn view(&self) -> MeterView {
        MeterView { level: self.level, bands: self.bands@ }
    }
}

/// `raw`, or `LEVEL_FULL` if it is above that.
pub open spec fn clamped(raw: u16) -> u16 {
    if raw > LEVEL_FULL {
        LEVEL_FULL
    } else {
        raw
    }
}

/// Each value of `raw`, cut off at `LEVEL_FULL`.
pub open spec fn clamped_all(raw: Seq<u16>) -> Seq<u16> {
    Seq::new(raw.len(), |i: int| clamped(raw[i]))
}

/// `raw`, or `LEVEL_FULL` if it is above that.
pub fn clamp(raw: u16) -> (r: u16)
    ensures
        r == clamped(raw),
{
    if raw > LEVEL_FULL {
        LEVEL_FULL
    } else {
        raw
    }
}

/// What one chunk of samples measures.
#[derive(Clone, Copy, Debug, PartialEq, Eq)]
pub struct Reading {
    /// The sample rate of the stream.
    pub sample_rate: u32,
    /// The number of samples in the chunk.
    pub chunk_len: usize,
    /// The level of the chunk, in thousandths. It counts for nothing where
    /// the chunk is empty.
    pub level: u16,
    /// The raw value of each band of the window, in thousandths.
    pub bands: [u16; NUM_BANDS],
}

impl Reading {
    /// The raw value that counts for each band: zero for every band of an
    /// empty chunk and for a band that holds no bin, and else the measured
    /// value, cut off at `LEVEL_FULL`.
    pub open spec fn raw_bands(self) -> Seq<u16> {
        Seq::new(
            NUM_BANDS as nat,
            |i: int|
                if self.chunk_len == 0 || band_is_empty(self.sample_rate as int, i) {
                    0u16
                } else {
                    clamped(self.bands@[i])
                },
        )
    }
}

impl MeterView {
    /// The levels after `reading` came in. An empty chunk leaves the level
    /// as it is and lets the bands fall as silence does.
    pub open spec fn ingested(self, reading: Reading) -> MeterView {
        MeterView {
            level: if reading.chunk_len == 0 {
                self.level
            } else {
                smoothed_level(self.level, clamped(reading.level))
            },
            bands: smoothed_bands(self.bands, reading.raw_bands()),
        }
    }
}

/// An empty chunk raises nothing: the level stays, and each band falls to
/// half of what it showed.
pub proof fn law_empty_chunk_raises_nothing(meter: MeterView, reading: Reading)
    requires
        meter.wf(),
        reading.chunk_len == 0,
    ensures
        meter.ingested(reading).level == meter.level,
        meter.ingested(reading).bands.len() == NUM_BANDS,
        forall|i: int|
            0 <= i < NUM_BANDS ==> #[trigger] meter.ingested(reading).bands[i] == meter.bands[i]
                / 2 && meter.ingested(reading).bands[i] <= meter.bands[i],
{
}

/// A band that holds no bin never rises, whatever was measured for it.
pub proof fn law_empty_band_never_rises(meter: MeterView, reading: Reading, band: int)
    requires
        meter.wf(),
        0 <= band < NUM_BANDS,
        band_is_empty(reading.sample_rate as int, band),
    ensures
        meter.ingested(reading).bands[band] <= meter.bands[band],
{
}

impl SpectrumMeter {
    /// Whether the meter is in a state it can be in.
    pub open spec fn wf(&self) -> bool {
        self@.wf()
    }

    /// A meter that shows silence.
    pub fn new() -> (r: Self)
        ensures
            r.wf(),
            r@ == MeterView::silent(),
    {
        let r = SpectrumMeter { level: 0, bands: [0u16; NUM_BANDS] };
        assert(r.bands@ =~= Seq::new(NUM_BANDS as nat, |i: int| 0u16));
        r
    }

    /// Takes the level of one chunk in, cut off at `LEVEL_FULL`.
    pub fn absorb_level(&mut self, raw: u16)
        requires
            old(self).wf(),
        ensures
            final(self).wf(),
            final(self)@.level == smoothed_level(old(self)@.level, clamped(raw)),
            final(self)@.bands == old(self)@.bands,
    {
        let raw = clamp(raw);
        self.level = if raw > self.level {
            (self.level * 7 + raw * 3 + 9) / 10
        } else {
            (self.level * 7 + raw * 3) / 10
        };
    }

    /// Takes the raw value of each band in, cut off at `LEVEL_FULL`.
    pub fn absorb_bands(&mut self, raw: &[u16; NUM_BANDS])
        requires
            old(self).wf(),
        ensures
            final(self).wf(),
            final(self)@.level == old(self)@.level,
            final(self)@.bands == smoothed_bands(old(self)@.bands, clamped_all(raw@)),
    {
        let mut i: usize = 0;
        while i < NUM_BANDS
            invariant
                i <= NUM_BANDS,
                self.level == old(self).level,
                old(self).wf(),
                forall|k: int|
                    0 <= k < i ==> self.bands@[k] == smoothed_band(
                        old(self).bands@[k],
                        clamped(raw@[k]),
                    ),
                forall|k: int| i <= k < NUM_BANDS ==> self.bands@[k] == old(self).bands@[k],
            decreases NUM_BANDS - i,
        {
            let shown = self.bands[i];
            let input = clamp(raw[i]);
            assert(shown <= LEVEL_FULL);
            let next: u16 = if input > shown {
                (shown * 2 + input * 8 + 9) / 10
            } else {
                (shown + input) / 2
            };
            self.bands[i] = next;
            i += 1;
        }
        assert(self@.bands =~= smoothed_bands(old(self)@.bands, clamped_all(raw@)));
    }

    /// Takes what one chunk measures in: its level, unless the chunk is
    /// empty, and the raw value of each band, which counts as zero for an
    /// empty chunk and for a band that holds no bin.
    pub fn ingest(&mut self, reading: &Reading)
        requires
            old(self).wf(),
        ensures
            final(self).wf(),
            final(self)@ == old(self)@.ingested(*reading),
    {
        let mut raw = [0u16; NUM_BANDS];
        let mut i: usize = 0;
        while i < NUM_BANDS
            invariant
                i <= NUM_BANDS,
                forall|k: int| 0 <= k < i ==> raw@[k] == reading.raw_bands()[k],
                forall|k: int| i <= k < NUM_BANDS ==> raw@[k] == 0,
            decreases NUM_BANDS - i,
        {
            let (low, high) = band_bins(reading.sample_rate, i);
            if reading.chunk_len != 0 && low < high {
                raw[i] = clamp(reading.bands[i]);
            }
            i += 1;
        }
        assert(clamped_all(raw@) =~= reading.raw_bands());
        if reading.chunk_len != 0 {
            self.absorb_level(reading.level);
        }
        self.absorb_bands(&raw);
        assert(self@.bands =~= old(self)@.ingested(*reading).bands);
    }

    /// The level of the signal as a whole, in thousandths.
    pub fn get_audio_level(&self) -> (r: u16)
        ensures
            r == self@.level,
    {
        self.level
    }

    /// The smoothed level of each band, in thousandths.
    pub fn get_bands(&self) -> (r: [u16; NUM_BANDS])
        ensures
            r@ == self@.bands,
    {
        self.bands
    }

    /// Brings the meter back to silence.
    pub fn reset(&mut self)
        ensures
            final(self).wf(),
            final(self)@ == MeterView::silent(),
    {
        self.level = 0;
        self.bands = [0u16; NUM_BANDS];
        assert(self.bands@ =~= Seq::new(NUM_BANDS as nat, |i: int| 0u16));
    }
}

/// Under silence every band of the meter falls or stays, and none rises.
pub proof fn law_meter_falls_under_silence(shown: Seq<u16>, raw: Seq<u16>)
    requires
        shown.len() == raw.len(),
        all_zero(raw),
    ensures
        forall|i: int|
            0 <= i < shown.len() ==> #[trigger] smoothed_bands(shown, clamped_all(raw))[i]
                == shown[i] / 2,
{
}

} // verus!
