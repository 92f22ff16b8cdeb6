use rustfft::num_complex::Complex;
use rustfft::FftPlanner;
use wisprarch::analyzer::{
    band_bins, band_gain_tenths, band_range_hz, clamp, frequency_bin, Reading, SampleWindow,
    SpectrumMeter, FFT_SIZE, NYQUIST_BIN,
};
use wisprarch::status::{LEVEL_FULL, NUM_BANDS};

/// The floating-point half of the analyser, as the application runs it: the
/// window under a Hann taper, the transform, and the mean magnitude of each
/// band, raised by its gain and compressed by a square root.
fn raw_bands(window: &SampleWindow<f32>, sample_rate: u32) -> [u16; NUM_BANDS] {
    let samples = window.ordered();
    let mut spectrum: Vec<Complex<f32>> = samples
        .iter()
        .enumerate()
        .map(|(i, s)| {
            let t = i as f32 / (FFT_SIZE - 1) as f32;
            let taper = 0.5 * (1.0 - (2.0 * std::f32::consts::PI * t).cos());
            Complex::new(s * taper, 0.0)
        })
        .collect();
    FftPlanner::new().plan_fft_forward(FFT_SIZE).process(&mut spectrum);
    let mut raw = [0u16; NUM_BANDS];
    for band in 0..NUM_BANDS {
        let (low, high) = band_bins(sample_rate, band);
        if low >= high {
            continue;
        }
        let sum: f32 = spectrum[low..high].iter().map(|c| c.norm()).sum();
        let mean = sum / (high - low) as f32;
        let gain = band_gain_tenths(band) as f32 / 10.0;
        let level = (mean * gain * 20.0).sqrt().clamp(0.0, 1.0);
        raw[band] = (level * LEVEL_FULL as f32) as u16;
    }
    raw
}

fn raw_level(samples: &[f32]) -> u16 {
    let rms = (samples.iter().map(|s| s * s).sum::<f32>() / samples.len() as f32).sqrt();
    ((rms * 3.0).min(1.0) * LEVEL_FULL as f32) as u16
}

fn process(window: &mut SampleWindow<f32>, meter: &mut SpectrumMeter, samples: &[f32]) {
    let level = if samples.is_empty() { 0 } else { raw_level(samples) };
    window.write(samples);
    meter.ingest(&Reading {
        sample_rate: 16000,
        chunk_len: samples.len(),
        level,
        bands: raw_bands(window, 16000),
    });
}

#[test]
fn test_analyzer_creation() {
    let meter = SpectrumMeter::new();
    assert_eq!(meter.get_bands(), [0; NUM_BANDS]);
    assert_eq!(meter.get_audio_level(), 0);
    let window: SampleWindow<f32> = SampleWindow::new(0.0);
    assert_eq!(window.ordered(), vec![0.0; FFT_SIZE]);
}

#[test]
fn test_process_silence() {
    let mut window = SampleWindow::new(0.0f32);
    let mut meter = SpectrumMeter::new();
    let silence = vec![0.0; 512];
    process(&mut window, &mut meter, &silence);

    let bands = meter.get_bands();
    for band in bands {
        assert!(band < 10, "Silent input should produce near-zero bands");
    }
}

#[test]
fn test_process_tone() {
    let mut window = SampleWindow::new(0.0f32);
    let mut meter = SpectrumMeter::new();

    // A 500 Hz sine wave, which belongs to band 2 (300 to 600 Hz).
    let samples: Vec<f32> = (0..512)
        .map(|i| {
            let t = i as f32 / 16000.0;
            (2.0 * std::f32::consts::PI * 500.0 * t).sin() * 0.5
        })
        .collect();

    for _ in 0..10 {
        process(&mut window, &mut meter, &samples);
    }

    let bands = meter.get_bands();
    assert!(bands[2] > 100, "500Hz tone should produce energy in band 2, got {}", bands[2]);
    // The band of the tone stands well above a band far from it.
    assert!(bands[2] > 2 * bands[6], "band 2 is {}, band 6 is {}", bands[2], bands[6]);
    assert!(bands[2] > 2 * bands[7], "band 2 is {}, band 7 is {}", bands[2], bands[7]);
    assert!(meter.get_audio_level() > 0);
}

#[test]
fn test_reset() {
    let mut window = SampleWindow::new(0.0f32);
    let mut meter = SpectrumMeter::new();

    let samples: Vec<f32> = (0..512).map(|i| (i as f32 * 0.01).sin()).collect();
    process(&mut window, &mut meter, &samples);
    assert!(meter.get_audio_level() > 0);

    meter.reset();
    window.reset(0.0);

    assert_eq!(meter.get_bands(), [0; NUM_BANDS]);
    assert_eq!(meter.get_audio_level(), 0);
    assert_eq!(window.ordered(), vec![0.0; FFT_SIZE]);
}

#[test]
fn silence_brings_every_band_below_the_threshold_within_seven_rounds() {
    let mut meter = SpectrumMeter::new();
    for _ in 0..20 {
        meter.absorb_bands(&[1000; NUM_BANDS]);
    }
    assert_eq!(meter.get_bands(), [1000; NUM_BANDS]);
    let mut last = meter.get_bands();
    for round in 1..=7 {
        meter.absorb_bands(&[0; NUM_BANDS]);
        let now = meter.get_bands();
        for band in 0..NUM_BANDS {
            assert!(now[band] < last[band], "round {}: band {} rose or stood", round, band);
            assert_eq!(now[band], last[band] / 2);
        }
        last = now;
    }
    assert_eq!(last, [7; NUM_BANDS]);
    for _ in 0..3 {
        meter.absorb_bands(&[0; NUM_BANDS]);
    }
    assert_eq!(meter.get_bands(), [0; NUM_BANDS]);
    meter.absorb_bands(&[0; NUM_BANDS]);
    assert_eq!(meter.get_bands(), [0; NUM_BANDS]);
}

#[test]
fn smoothing_rises_fast_and_falls_by_halves() {
    let mut meter = SpectrumMeter::new();
    meter.absorb_bands(&[1000, 500, 100, 10, 1, 0, 2000, 999]);
    assert_eq!(meter.get_bands(), [800, 400, 80, 8, 1, 0, 800, 800]);
    meter.absorb_bands(&[1000, 100, 100, 8, 0, 0, 0, 1000]);
    assert_eq!(meter.get_bands(), [960, 250, 96, 8, 0, 0, 400, 960]);
    assert_eq!(meter.get_audio_level(), 0);
    meter.absorb_level(1000);
    assert_eq!(meter.get_audio_level(), 300);
    meter.absorb_level(0);
    assert_eq!(meter.get_audio_level(), 210);
    meter.absorb_level(5000);
    assert_eq!(meter.get_audio_level(), 447);
    assert_eq!(meter.get_bands(), [960, 250, 96, 8, 0, 0, 400, 960]);
}

#[test]
fn bands_split_the_bins_at_sixteen_kilohertz() {
    let expected = [
        (1, 4),
        (4, 9),
        (9, 19),
        (19, 38),
        (38, 76),
        (76, 128),
        (128, 192),
        (192, 256),
    ];
    for band in 0..NUM_BANDS {
        assert_eq!(band_bins(16000, band), expected[band]);
    }
    // 500 Hz falls into bin 16, which is in band 2 and in no other.
    assert_eq!(frequency_bin(500, 16000), 16);
    assert_eq!(band_range_hz(2), (300, 600));
    assert_eq!(band_range_hz(0), (60, 150));
    assert_eq!(band_range_hz(7), (6000, 8000));
}

#[test]
fn bands_above_the_nyquist_frequency_are_empty() {
    assert_eq!(NYQUIST_BIN, FFT_SIZE / 2);
    // At 8 kHz the transform reaches 4 kHz.
    assert_eq!(band_bins(8000, 5), (153, 256));
    assert_eq!(band_bins(8000, 6), (256, 256));
    assert_eq!(band_bins(8000, 7), (256, 256));
    assert_eq!(band_bins(0, 0), (256, 256));
    assert_eq!(band_bins(u32::MAX, 7), (0, 0));
    assert_eq!(frequency_bin(u32::MAX, 1), 256);
    assert_eq!(frequency_bin(31, 16000), 0);
    assert_eq!(frequency_bin(32, 16000), 1);
}

#[test]
fn gains_rise_with_the_band() {
    let gains: Vec<u16> = (0..NUM_BANDS).map(band_gain_tenths).collect();
    assert_eq!(gains, vec![10, 12, 15, 20, 25, 30, 40, 50]);
}

#[test]
fn window_keeps_the_latest_samples_oldest_first() {
    let mut window: SampleWindow<u32> = SampleWindow::new(0);
    window.write(&[1, 2, 3]);
    let seen = window.ordered();
    assert_eq!(seen.len(), FFT_SIZE);
    assert_eq!(&seen[FFT_SIZE - 3..], &[1, 2, 3]);
    assert!(seen[..FFT_SIZE - 3].iter().all(|s| *s == 0));
    let long: Vec<u32> = (10..10 + 700).collect();
    window.write(&long);
    let expected: Vec<u32> = (10 + 700 - FFT_SIZE as u32..10 + 700).collect();
    assert_eq!(window.ordered(), expected);
    window.push(7);
    let seen = window.ordered();
    assert_eq!(seen[FFT_SIZE - 1], 7);
    assert_eq!(seen[0], expected[1]);
    window.write(&[]);
    assert_eq!(window.ordered(), seen);
    window.reset(9);
    assert_eq!(window.ordered(), vec![9; FFT_SIZE]);
}

#[test]
fn an_empty_chunk_raises_nothing() {
    let mut window = SampleWindow::new(0.0f32);
    let mut meter = SpectrumMeter::new();
    let tone: Vec<f32> = (0..512)
        .map(|i| (2.0 * std::f32::consts::PI * 500.0 * i as f32 / 16000.0).sin() * 0.5)
        .collect();
    process(&mut window, &mut meter, &tone);
    let level = meter.get_audio_level();
    let mut last = meter.get_bands();
    assert!(last[2] > 0 && level > 0);
    // The window still holds the tone, and yet nothing rises.
    for _ in 0..12 {
        process(&mut window, &mut meter, &[]);
        let now = meter.get_bands();
        for band in 0..NUM_BANDS {
            assert_eq!(now[band], last[band] / 2);
        }
        assert_eq!(meter.get_audio_level(), level);
        last = now;
    }
    assert_eq!(last, [0; NUM_BANDS]);
    assert_eq!(window.ordered(), tone);
}

#[test]
fn a_reading_counts_by_chunk_and_band() {
    let mut meter = SpectrumMeter::new();
    let full = [1000u16; NUM_BANDS];
    meter.ingest(&Reading { sample_rate: 16000, chunk_len: 1, level: 1000, bands: full });
    assert_eq!(meter.get_audio_level(), 300);
    assert_eq!(meter.get_bands(), [800; NUM_BANDS]);
    // At 8 kHz the two highest bands hold no bin and count as zero.
    meter.ingest(&Reading { sample_rate: 8000, chunk_len: 1, level: 2000, bands: [4000; NUM_BANDS] });
    assert_eq!(meter.get_audio_level(), 510);
    assert_eq!(meter.get_bands(), [960, 960, 960, 960, 960, 960, 400, 400]);
    meter.ingest(&Reading { sample_rate: 0, chunk_len: 1, level: 0, bands: full });
    assert_eq!(meter.get_audio_level(), 357);
    assert_eq!(meter.get_bands(), [480, 480, 480, 480, 480, 480, 200, 200]);
    assert_eq!(clamp(1000), 1000);
    assert_eq!(clamp(1001), 1000);
    assert_eq!(clamp(0), 0);
}

#[test]
fn a_window_always_holds_one_frame() {
    let mut window: SampleWindow<i16> = SampleWindow::new(0);
    assert_eq!(window.ordered().len(), FFT_SIZE);
    window.write(&[1; 3]);
    assert_eq!(window.ordered().len(), FFT_SIZE);
    window.write(&[2; 2000]);
    assert_eq!(window.ordered().len(), FFT_SIZE);
    window.push(3);
    window.reset(4);
    assert_eq!(window.ordered().len(), FFT_SIZE);
}
