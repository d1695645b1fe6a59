#![allow(dead_code)]

use astronomy::oracle::FormulaOracle;
use astronomy::oracle::OracleRow;
use astronomy::oracle::StellarProperties;
use astronomy::random::ScriptedStream;
use astronomy::error::AstronomicalError;
use astronomy::random::SeededStream;
use astronomy::spectral_class::SpectralClassType;

fn row(
    mass: u64,
    temperature: u64,
    luminosity: u64,
    radius: u64,
    satellite_zone: (u64, u64),
    absolute_rgb: (u8, u8, u8),
) -> OracleRow {
    OracleRow {
        mass,
        properties: StellarProperties {
            temperature,
            luminosity,
            radius,
            satellite_zone,
            absolute_rgb,
        },
    }
}

/// Three reference stars: the lightest, one like the sun, the heaviest.
fn small_oracle() -> FormulaOracle {
    let rows = vec![
        row(75_000, 2_500_000_000, 600, 126_000, (7_500, 3_000_000), (255, 180, 100)),
        row(1_000_000, 5_776_000_000, 1_000_000, 1_000_000, (100_000, 40_000_000), (255, 244, 234)),
        row(
            120_000_000,
            65_000_000_000,
            3_840_000_000_000,
            15_300_000,
            (12_000_000, 4_800_000_000),
            (155, 176, 255),
        ),
    ];
    FormulaOracle::new(rows).unwrap()
}

fn to_fixed(value: f64) -> u64 {
    (value * 1_000_000.0).round() as u64
}

fn power_law_luminosity(mass: f64) -> f64 {
    if mass < 0.43 {
        0.23 * mass.powf(2.3)
    } else if mass < 2.0 {
        mass.powf(4.0)
    } else if mass < 55.0 {
        1.4 * mass.powf(3.5)
    } else {
        32_000.0 * mass
    }
}

fn power_law_radius(mass: f64) -> f64 {
    if mass < 1.0 {
        mass.powf(0.8)
    } else {
        mass.powf(0.57)
    }
}

/// A table of four hundred reference stars that follow the usual power laws.
fn power_law_oracle() -> FormulaOracle {
    let steps = 400;
    let mut rows = Vec::new();
    let mut previous = 0u64;
    for step in 0..=steps {
        let exact = 0.075 * (120.0f64 / 0.075).powf(step as f64 / steps as f64);
        let mass = if step == 0 {
            75_000
        } else if step == steps {
            120_000_000
        } else {
            to_fixed(exact)
        };
        if mass <= previous {
            continue;
        }
        previous = mass;
        let solar = mass as f64 / 1_000_000.0;
        let luminosity = power_law_luminosity(solar);
        let radius = power_law_radius(solar);
        let temperature = (luminosity / (radius * radius)).powf(0.25) * 5_776.0;
        let warmth = ((temperature - 2_000.0) / 40_000.0).clamp(0.0, 1.0);
        rows.push(row(
            mass,
            to_fixed(temperature),
            to_fixed(luminosity),
            to_fixed(radius),
            (to_fixed(0.1 * solar), to_fixed(40.0 * solar)),
            (
                (255.0 - 100.0 * warmth) as u8,
                (180.0 + 20.0 * warmth) as u8,
                (100.0 + 155.0 * warmth) as u8,
            ),
        ));
    }
    FormulaOracle::new(rows).unwrap()
}

fn constant_stream(fraction: u64) -> ScriptedStream {
    ScriptedStream::constant(fraction).unwrap()
}

fn scripted(fractions: &[u64]) -> ScriptedStream {
    ScriptedStream::new(fractions.to_vec()).unwrap()
}

#[test]
fn oracle_answers_a_reference_mass_with_its_row() {
    let oracle = small_oracle();
    let properties = oracle.properties(1_000_000).unwrap();
    assert_eq!(properties.temperature, 5_776_000_000);
    assert_eq!(properties.luminosity, 1_000_000);
    assert_eq!(properties.radius, 1_000_000);
    assert_eq!(properties.satellite_zone, (100_000, 40_000_000));
    assert_eq!(properties.absolute_rgb, (255, 244, 234));
}

#[test]
fn oracle_interpolates_between_rows() {
    let oracle = small_oracle();
    let properties = oracle.properties(2_000_000).unwrap();
    assert_eq!(properties.temperature, 6_273_680_672);
    assert_eq!(properties.luminosity, 32_269_899_159);
    assert_eq!(properties.radius, 1_120_168);
    assert_eq!(properties.satellite_zone, (200_000, 80_000_000));
    assert_eq!(properties.absolute_rgb, (255, 244, 234));
    let light = oracle.properties(265_000).unwrap();
    assert_eq!(light.temperature, 3_172_908_108);
    assert_eq!(light.luminosity, 205_882);
    assert_eq!(light.radius, 305_524);
    assert_eq!(light.satellite_zone, (26_500, 10_600_000));
    assert_eq!(light.absolute_rgb, (255, 193, 127));
}

#[test]
fn oracle_accessors_agree_with_the_whole_answer() {
    let oracle = small_oracle();
    assert_eq!(oracle.star_mass_to_temperature(2_000_000), Ok(6_273_680_672));
    assert_eq!(oracle.star_mass_to_luminosity(2_000_000), Ok(32_269_899_159));
    assert_eq!(oracle.star_mass_to_radius(2_000_000), Ok(1_120_168));
    assert_eq!(oracle.star_mass_to_satellite_zone(2_000_000), Ok((200_000, 80_000_000)));
    assert_eq!(oracle.star_mass_to_rgb(2_000_000), Ok((255, 244, 234)));
}

#[test]
fn oracle_rejects_masses_off_the_main_sequence() {
    let oracle = small_oracle();
    assert_eq!(
        oracle.properties(75_000),
        Err(AstronomicalError::StellarMassTooLowForMainSequence)
    );
    assert_eq!(
        oracle.properties(0),
        Err(AstronomicalError::StellarMassTooLowForMainSequence)
    );
    assert_eq!(
        oracle.properties(120_000_000),
        Err(AstronomicalError::StellarMassTooHighForMainSequence)
    );
    assert_eq!(
        oracle.star_mass_to_temperature(u64::MAX),
        Err(AstronomicalError::StellarMassTooHighForMainSequence)
    );
    assert_eq!(
        oracle.star_mass_to_luminosity(75_000),
        Err(AstronomicalError::StellarMassTooLowForMainSequence)
    );
    assert!(oracle.properties(75_001).is_ok());
    assert!(oracle.properties(119_999_999).is_ok());
}

#[test]
fn oracle_refuses_tables_that_are_not_usable() {
    let low = row(75_000, 2_500_000_000, 600, 126_000, (7_500, 3_000_000), (255, 180, 100));
    let middle = row(1_000_000, 5_776_000_000, 1_000_000, 1_000_000, (100_000, 40_000_000), (255, 244, 234));
    let high = row(
        120_000_000,
        65_000_000_000,
        3_840_000_000_000,
        15_300_000,
        (12_000_000, 4_800_000_000),
        (155, 176, 255),
    );
    assert!(FormulaOracle::new(vec![low, middle, high]).is_some());
    assert!(FormulaOracle::new(vec![low, high]).is_some());
    assert!(FormulaOracle::new(vec![]).is_none());
    assert!(FormulaOracle::new(vec![low]).is_none());
    assert!(FormulaOracle::new(vec![low, high, middle]).is_none());
    assert!(FormulaOracle::new(vec![low, middle, middle, high]).is_none());
    assert!(FormulaOracle::new(vec![middle, high]).is_none());
    assert!(FormulaOracle::new(vec![low, middle]).is_none());
    let mut cold = middle;
    cold.properties.temperature = 0;
    assert!(FormulaOracle::new(vec![low, cold, high]).is_none());
    let mut hot = middle;
    hot.properties.temperature = 95_000_000_000;
    assert!(FormulaOracle::new(vec![low, hot, high]).is_none());
    let mut dark = middle;
    dark.properties.luminosity = 0;
    assert!(FormulaOracle::new(vec![low, dark, high]).is_none());
    let mut tiny = middle;
    tiny.properties.radius = 999;
    assert!(FormulaOracle::new(vec![low, tiny, high]).is_none());
    let mut bare = low;
    bare.properties.satellite_zone = (0, 3_000_000);
    assert!(FormulaOracle::new(vec![bare, middle, high]).is_none());
}

#[test]
fn power_law_table_is_usable() {
    let oracle = power_law_oracle();
    let sun = oracle.properties(1_000_000).unwrap();
    assert!(990_000 <= sun.luminosity && sun.luminosity <= 1_010_000);
    assert!(990_000 <= sun.radius && sun.radius <= 1_010_000);
}

#[test]
fn class_follows_from_temperature() {
    assert_eq!(SpectralClassType::from_temperature(0), SpectralClassType::M);
    assert_eq!(SpectralClassType::from_temperature(3_699_999_999), SpectralClassType::M);
    assert_eq!(SpectralClassType::from_temperature(3_700_000_000), SpectralClassType::K);
    assert_eq!(SpectralClassType::from_temperature(5_199_999_999), SpectralClassType::K);
    assert_eq!(SpectralClassType::from_temperature(5_200_000_000), SpectralClassType::G);
    assert_eq!(SpectralClassType::from_temperature(6_000_000_000), SpectralClassType::F);
    assert_eq!(SpectralClassType::from_temperature(7_500_000_000), SpectralClassType::A);
    assert_eq!(SpectralClassType::from_temperature(10_000_000_000), SpectralClassType::B);
    assert_eq!(SpectralClassType::from_temperature(32_999_999_999), SpectralClassType::B);
    assert_eq!(SpectralClassType::from_temperature(33_000_000_000), SpectralClassType::O);
    assert_eq!(SpectralClassType::from_temperature(94_999_999_999), SpectralClassType::O);
}

#[test]
fn class_of_a_main_sequence_mass() {
    let oracle = small_oracle();
    assert_eq!(
        SpectralClassType::get_main_sequence_from_mass(&oracle, 1_000_000),
        Ok(SpectralClassType::G)
    );
    assert_eq!(
        SpectralClassType::get_main_sequence_from_mass(&oracle, 265_000),
        Ok(SpectralClassType::M)
    );
    assert_eq!(
        SpectralClassType::get_main_sequence_from_mass(&oracle, 2_000_000),
        Ok(SpectralClassType::F)
    );
    assert_eq!(
        SpectralClassType::get_main_sequence_from_mass(&oracle, 75_000),
        Err(AstronomicalError::StellarMassTooLowForMainSequence)
    );
    assert_eq!(
        SpectralClassType::get_main_sequence_from_mass(&oracle, 120_000_000),
        Err(AstronomicalError::StellarMassTooHighForMainSequence)
    );
}

#[test]
fn weighted_choice_lists_ten_classes() {
    assert_eq!(SpectralClassType::weighted_choice(0), Some(SpectralClassType::B));
    assert_eq!(SpectralClassType::weighted_choice(1), Some(SpectralClassType::A));
    assert_eq!(SpectralClassType::weighted_choice(2), Some(SpectralClassType::F));
    assert_eq!(SpectralClassType::weighted_choice(3), Some(SpectralClassType::G));
    assert_eq!(SpectralClassType::weighted_choice(4), Some(SpectralClassType::K));
    assert_eq!(SpectralClassType::weighted_choice(5), Some(SpectralClassType::M));
    assert_eq!(SpectralClassType::weighted_choice(6), Some(SpectralClassType::L));
    assert_eq!(SpectralClassType::weighted_choice(7), Some(SpectralClassType::T));
    assert_eq!(SpectralClassType::weighted_choice(8), Some(SpectralClassType::Y));
    assert_eq!(SpectralClassType::weighted_choice(9), Some(SpectralClassType::D));
    assert_eq!(SpectralClassType::weighted_choice(10), None);
    assert_eq!(SpectralClassType::weighted_choice(usize::MAX), None);
}

#[test]
fn from_index_counts_all_eleven_classes() {
    assert_eq!(SpectralClassType::from_index(0), Some(SpectralClassType::O));
    assert_eq!(SpectralClassType::from_index(1), Some(SpectralClassType::B));
    assert_eq!(SpectralClassType::from_index(6), Some(SpectralClassType::M));
    assert_eq!(SpectralClassType::from_index(10), Some(SpectralClassType::D));
    assert_eq!(SpectralClassType::from_index(11), None);
}

#[test]
fn mass_ranges_of_the_classes() {
    assert_eq!(
        SpectralClassType::O.spectral_class_to_mass_range(),
        Some((16_000_000, 120_000_000))
    );
    assert_eq!(
        SpectralClassType::G.spectral_class_to_mass_range(),
        Some((800_000, 1_040_000))
    );
    assert_eq!(
        SpectralClassType::M.spectral_class_to_mass_range(),
        Some((80_000, 450_000))
    );
    assert_eq!(SpectralClassType::L.spectral_class_to_mass_range(), None);
    assert_eq!(SpectralClassType::D.spectral_class_to_mass_range(), None);
    assert_eq!(
        SpectralClassType::F.spectral_class_to_habitable_mass_range(),
        Some((1_040_000, 1_250_000))
    );
    assert_eq!(
        SpectralClassType::K.spectral_class_to_habitable_mass_range(),
        Some((550_000, 800_000))
    );
    assert_eq!(SpectralClassType::M.spectral_class_to_habitable_mass_range(), None);
    assert_eq!(SpectralClassType::O.spectral_class_to_habitable_mass_range(), None);
}

#[test]
fn weighted_draws_with_a_script() {
    let mut stream = scripted(&[0, 500_000, 999_999]);
    assert_eq!(SpectralClassType::get_random(&mut stream), Ok(SpectralClassType::B));
    assert_eq!(SpectralClassType::get_random(&mut stream), Ok(SpectralClassType::M));
    assert_eq!(SpectralClassType::get_random(&mut stream), Ok(SpectralClassType::D));
    let mut stream = scripted(&[0, 500_000, 999_999]);
    assert_eq!(SpectralClassType::get_random_main_sequence(&mut stream), SpectralClassType::B);
    assert_eq!(SpectralClassType::get_random_main_sequence(&mut stream), SpectralClassType::M);
    assert_eq!(SpectralClassType::get_random_main_sequence(&mut stream), SpectralClassType::M);
    let mut stream = scripted(&[0, 500_000, 999_999, 133_000]);
    assert_eq!(SpectralClassType::get_random_habitable(&mut stream), SpectralClassType::F);
    assert_eq!(SpectralClassType::get_random_habitable(&mut stream), SpectralClassType::K);
    assert_eq!(SpectralClassType::get_random_habitable(&mut stream), SpectralClassType::K);
    assert_eq!(SpectralClassType::get_random_habitable(&mut stream), SpectralClassType::G);
}

#[test]
fn uniform_sample_reaches_every_class() {
    let mut stream = scripted(&[0, 999_999, 500_000]);
    assert_eq!(SpectralClassType::sample(&mut stream), SpectralClassType::O);
    assert_eq!(SpectralClassType::sample(&mut stream), SpectralClassType::D);
    assert_eq!(SpectralClassType::sample(&mut stream), SpectralClassType::K);
}

#[test]
fn mod_get_random() {
    let mut rng = SeededStream::from_seed(1);
    for _ in 0..200 {
        let class = SpectralClassType::get_random(&mut rng);
        assert!(class.is_ok());
        assert_ne!(class, Ok(SpectralClassType::O));
    }
}
