use keytone::generator::{buffer_length, generate_samples, quantize};
use keytone::rational::Seconds;
use keytone::waveform::{generate_sample, Level, SineTable, Waveform, FULL_SCALE};

/// One period of a sine in `resolution` entries, scaled to 16 bits and
/// rounded toward zero.
fn sine_table(resolution: u32) -> SineTable {
    let mut entries: Vec<i16> = Vec::with_capacity(resolution as usize);
    for j in 0..resolution {
        let angle = 2.0 * std::f64::consts::PI * (j as f64) / (resolution as f64);
        entries.push((angle.sin() * 32767.0) as i16);
    }
    SineTable::new(entries).expect("a sine stays within full scale")
}

fn no_table() -> SineTable {
    SineTable::new(Vec::new()).expect("an empty table breaks no rule")
}

fn one_second() -> Seconds {
    Seconds::whole(1)
}

#[test]
fn one_second_of_sine_at_44100_has_44100_samples() {
    let table = sine_table(44100);
    let samples = generate_samples(300, &Waveform::Sine, 44100, one_second(), &table);
    assert_eq!(samples.len(), 44100);
}

#[test]
fn length_is_the_floor_of_rate_times_duration() {
    let table = no_table();
    let cases: Vec<(u32, Seconds, usize)> = vec![
        (1000, Seconds::whole(1), 1000),
        (1000, Seconds::whole(0), 0),
        (1000, Seconds::new(1, 3).unwrap(), 333),
        (1000, Seconds::new(2, 3).unwrap(), 666),
        (44100, Seconds::new(1, 3).unwrap(), 14700),
        (44100, Seconds::from_millis(1500), 66150),
        (44100, Seconds::from_millis(1), 44),
        (7, Seconds::new(5, 2).unwrap(), 17),
        (1, Seconds::new(999, 1000).unwrap(), 0),
    ];
    for (rate, duration, expected) in cases {
        assert_eq!(buffer_length(rate, duration), Some(expected));
        let samples = generate_samples(440, &Waveform::Sawtooth, rate, duration, &table);
        assert_eq!(samples.len(), expected);
    }
}

#[test]
fn every_sample_is_within_full_scale() {
    let table = sine_table(1000);
    for waveform in [Waveform::Sine, Waveform::Square, Waveform::Triangle, Waveform::Sawtooth] {
        for frequency in [1u32, 3, 300, 499, 500, 1900, 4_000_000_000] {
            let samples = generate_samples(frequency, &waveform, 1000, one_second(), &table);
            assert_eq!(samples.len(), 1000);
            for sample in samples {
                assert!(-32767 <= sample && sample <= 32767);
            }
        }
    }
}

#[test]
fn sine_crosses_zero_and_peaks() {
    let table = sine_table(1000);
    let samples = generate_samples(1, &Waveform::Sine, 1000, one_second(), &table);
    assert!(samples[0].abs() <= 1);
    assert!(samples[500].abs() <= 1);
    assert!((32767 - samples[250] as i32).abs() <= 1);
    assert!((-32767 - samples[750] as i32).abs() <= 1);
}

#[test]
fn sine_follows_the_floating_point_formula() {
    let table = sine_table(44100);
    let samples = generate_samples(300, &Waveform::Sine, 44100, one_second(), &table);
    for k in [0usize, 1, 36, 37, 74, 100, 12345, 44099] {
        let time = k as f64 / 44100.0;
        let expected = ((2.0 * std::f64::consts::PI * 300.0 * time).sin() * 32767.0) as i32;
        assert!((samples[k] as i32 - expected).abs() <= 1, "sample {}", k);
    }
}

#[test]
fn sine_reads_the_table_at_the_cycle_position() {
    let entries: Vec<i16> = vec![0, 100, 200, 300, -400];
    let table = SineTable::new(entries.clone()).unwrap();
    let samples = generate_samples(3, &Waveform::Sine, 5, Seconds::whole(2), &table);
    let expected: Vec<i16> = (0..10usize).map(|k| entries[(3 * k) % 5]).collect();
    assert_eq!(samples, expected);
    assert_ne!(samples, entries);
}

#[test]
fn square_is_always_at_an_extreme() {
    let table = no_table();
    for frequency in [1u32, 7, 300, 1900] {
        let samples = generate_samples(frequency, &Waveform::Square, 44100, one_second(), &table);
        for sample in samples {
            assert!(sample == 32767 || sample == -32767);
        }
    }
}

#[test]
fn square_is_high_on_the_first_half_period() {
    let table = no_table();
    let samples = generate_samples(1, &Waveform::Square, 1000, one_second(), &table);
    for k in 0..=500usize {
        assert_eq!(samples[k], 32767, "sample {}", k);
    }
    for k in 501..1000usize {
        assert_eq!(samples[k], -32767, "sample {}", k);
    }
}

#[test]
fn sawtooth_rises_over_one_period_and_repeats() {
    let table = no_table();
    let samples = generate_samples(1, &Waveform::Sawtooth, 1000, Seconds::whole(2), &table);
    assert_eq!(samples.len(), 2000);
    assert_eq!(samples[0], -32767);
    assert_eq!(samples[1000], samples[0]);
    assert_eq!(samples[250], -16383);
    assert_eq!(samples[499], -65);
    assert_eq!(samples[500], 0);
    assert_eq!(samples[501], 65);
    assert_eq!(samples[750], 16383);
    assert_eq!(samples[999], 32701);
    assert_eq!(samples[1000], -32767);
    for k in 0..1000usize {
        assert_eq!(samples[k + 1000], samples[k]);
    }
}

#[test]
fn sawtooth_follows_the_floating_point_formula() {
    let table = no_table();
    let samples = generate_samples(300, &Waveform::Sawtooth, 44100, one_second(), &table);
    for k in [0usize, 1, 73, 74, 146, 148, 5000, 44099] {
        let time = k as f64 / 44100.0;
        let expected = ((2.0 * (300.0 * time).fract() - 1.0) * 32767.0) as i32;
        assert!((samples[k] as i32 - expected).abs() <= 1, "sample {}", k);
    }
}

#[test]
fn triangle_is_a_ramp_at_twice_the_frequency() {
    let table = no_table();
    let samples = generate_samples(1, &Waveform::Triangle, 1000, one_second(), &table);
    assert_eq!(samples[0], -32767);
    assert_eq!(samples[250], 0);
    assert_eq!(samples[499], 32635);
    assert_eq!(samples[500], -32767);
    assert_eq!(samples[999], 32635);
    let doubled = generate_samples(2, &Waveform::Sawtooth, 1000, one_second(), &table);
    assert_eq!(samples, doubled);
}

#[test]
fn same_arguments_give_the_same_buffer() {
    let table = sine_table(8000);
    for waveform in [Waveform::Sine, Waveform::Square, Waveform::Triangle, Waveform::Sawtooth] {
        let first = generate_samples(700, &waveform, 8000, Seconds::from_millis(250), &table);
        let second = generate_samples(700, &waveform, 8000, Seconds::from_millis(250), &table);
        assert_eq!(first, second);
        assert_eq!(first.len(), 2000);
    }
}

#[test]
fn quantize_rounds_toward_zero() {
    let cases: Vec<(i64, u32, i16)> = vec![
        (0, 1, 0),
        (1, 1, 32767),
        (-1, 1, -32767),
        (1, 2, 16383),
        (-1, 2, -16383),
        (1, 3, 10922),
        (-1, 3, -10922),
        (2, 3, 21844),
        (-2, 3, -21844),
        (1, 32768, 0),
        (-1, 32768, 0),
        (4_294_967_295, 4_294_967_295, 32767),
        (-4_294_967_295, 4_294_967_295, -32767),
    ];
    for (num, den, expected) in cases {
        let level = Level::new(num, den).unwrap();
        assert_eq!(quantize(level), expected, "{} / {}", num, den);
    }
}

#[test]
fn levels_outside_the_unit_range_are_refused() {
    assert!(Level::new(0, 0).is_none());
    assert!(Level::new(2, 1).is_none());
    assert!(Level::new(-2, 1).is_none());
    assert!(Level::new(1001, 1000).is_none());
    assert!(Level::new(i64::MIN, 7).is_none());
    assert!(Level::new(1000, 1000).is_some());
    assert!(Level::new(-1000, 1000).is_some());
}

#[test]
fn normalised_samples_are_exact_fractions() {
    let table = SineTable::new(vec![0, 23169, 32767, 23169, 0, -23169, -32767, -23169]).unwrap();
    let at = |index: u64| Seconds::of_sample(index, 8);

    let saw = generate_sample(at(3), 1, &Waveform::Sawtooth, &table);
    assert_eq!((saw.numerator(), saw.denominator()), (-2, 8));
    let saw = generate_sample(at(3), 5, &Waveform::Sawtooth, &table);
    assert_eq!((saw.numerator(), saw.denominator()), (6, 8));

    let triangle = generate_sample(at(3), 1, &Waveform::Triangle, &table);
    assert_eq!((triangle.numerator(), triangle.denominator()), (4, 8));

    let square = generate_sample(at(4), 1, &Waveform::Square, &table);
    assert_eq!((square.numerator(), square.denominator()), (1, 1));
    let square = generate_sample(at(5), 1, &Waveform::Square, &table);
    assert_eq!((square.numerator(), square.denominator()), (-1, 1));

    let sine = generate_sample(at(1), 1, &Waveform::Sine, &table);
    assert_eq!((sine.numerator(), sine.denominator()), (23169, 32767));
    let sine = generate_sample(at(1), 3, &Waveform::Sine, &table);
    assert_eq!((sine.numerator(), sine.denominator()), (23169, 32767));
    let sine = generate_sample(at(1), 6, &Waveform::Sine, &table);
    assert_eq!((sine.numerator(), sine.denominator()), (-32767, 32767));
}

#[test]
fn large_times_and_frequencies_do_not_overflow() {
    let table = no_table();
    let t = Seconds::new(u64::MAX, u32::MAX).unwrap();
    let level = generate_sample(t, u32::MAX, &Waveform::Triangle, &table);
    let sample = quantize(level);
    assert!(-32767 <= sample && sample <= 32767);
    // 2 * (2^32 - 1) * (2^64 - 1) mod (2^32 - 1) is zero: the ramp starts over.
    assert_eq!((level.numerator(), level.denominator()), (-4_294_967_295, 4_294_967_295));
    assert_eq!(sample, -32767);
}

#[test]
fn a_sine_table_holds_no_sample_below_full_scale() {
    assert!(SineTable::new(vec![0, 32767, -32767]).is_some());
    assert!(SineTable::new(vec![0, i16::MIN, 5]).is_none());
    assert!(SineTable::new(vec![i16::MIN]).is_none());
    let table = SineTable::new(vec![1, 2, 3]).unwrap();
    assert_eq!(table.len(), 3);
    assert_eq!(table.get(2), 3);
    assert_eq!(FULL_SCALE, 32767);
}

#[test]
fn seconds_need_a_denominator() {
    assert!(Seconds::new(1, 0).is_none());
    let third = Seconds::new(1, 3).unwrap();
    assert_eq!((third.numerator(), third.denominator()), (1, 3));
    let millis = Seconds::from_millis(250);
    assert_eq!((millis.numerator(), millis.denominator()), (250, 1000));
    let whole = Seconds::whole(4);
    assert_eq!((whole.numerator(), whole.denominator()), (4, 1));
    let tick = Seconds::of_sample(9, 44100);
    assert_eq!((tick.numerator(), tick.denominator()), (9, 44100));
}

#[test]
fn a_buffer_longer_than_memory_has_no_length() {
    let forever = Seconds::new(u64::MAX, 1).unwrap();
    assert_eq!(buffer_length(u32::MAX, forever), None);
    assert_eq!(buffer_length(0, forever), Some(0));
}
