#![allow(dead_code)]

use astronomy::oracle::FormulaOracle;
use astronomy::oracle::OracleRow;
use astronomy::oracle::StellarProperties;
use astronomy::random::ScriptedStream;
use astronomy::close_binary_star::Bounds;
use astronomy::close_binary_star::CloseBinaryStar;
use astronomy::close_binary_star::Constraints;
use astronomy::constraint::resolve;
use astronomy::constraint::sample;
use astronomy::error::AstronomicalError;
use astronomy::formulas::clears_reach;
use astronomy::formulas::least_clearing_mass;
use astronomy::random::SeededStream;
use astronomy::star::Star;

fn row(
    mass: u64,
    temperature: u64,
    luminosity: u64,
    radius: u64,
    satellite_zone: (u64, u64),
    absolute_rgb: (u8, u8, u8),
) -> OracleRow {
    OracleRow {
        mass,
        properties: StellarProperties {
            temperature,
            luminosity,
            radius,
            satellite_zone,
            absolute_rgb,
        },
    }
}

/// Three reference stars: the lightest, one like the sun, the heaviest.
fn small_oracle() -> FormulaOracle {
    let rows = vec![
        row(75_000, 2_500_000_000, 600, 126_000, (7_500, 3_000_000), (255, 180, 100)),
        row(1_000_000, 5_776_000_000, 1_000_000, 1_000_000, (100_000, 40_000_000), (255, 244, 234)),
        row(
            120_000_000,
            65_000_000_000,
            3_840_000_000_000,
            15_300_000,
            (12_000_000, 4_800_000_000),
            (155, 176, 255),
        ),
    ];
    FormulaOracle::new(rows).unwrap()
}

fn to_fixed(value: f64) -> u64 {
    (value * 1_000_000.0).round() as u64
}

fn power_law_luminosity(mass: f64) -> f64 {
    if mass < 0.43 {
        0.23 * mass.powf(2.3)
    } else if mass < 2.0 {
        mass.powf(4.0)
    } else if mass < 55.0 {
        1.4 * mass.powf(3.5)
    } else {
        32_000.0 * mass
    }
}

fn power_law_radius(mass: f64) -> f64 {
    if mass < 1.0 {
        mass.powf(0.8)
    } else {
        mass.powf(0.57)
    }
}

/// A table of four hundred reference stars that follow the usual power laws.
fn power_law_oracle() -> FormulaOracle {
    let steps = 400;
    let mut rows = Vec::new();
    let mut previous = 0u64;
    for step in 0..=steps {
        let exact = 0.075 * (120.0f64 / 0.075).powf(step as f64 / steps as f64);
        let mass = if step == 0 {
            75_000
        } else if step == steps {
            120_000_000
        } else {
            to_fixed(exact)
        };
        if mass <= previous {
            continue;
        }
        previous = mass;
        let solar = mass as f64 / 1_000_000.0;
        let luminosity = power_law_luminosity(solar);
        let radius = power_law_radius(solar);
        let temperature = (luminosity / (radius * radius)).powf(0.25) * 5_776.0;
        let warmth = ((temperature - 2_000.0) / 40_000.0).clamp(0.0, 1.0);
        rows.push(row(
            mass,
            to_fixed(temperature),
            to_fixed(luminosity),
            to_fixed(radius),
            (to_fixed(0.1 * solar), to_fixed(40.0 * solar)),
            (
                (255.0 - 100.0 * warmth) as u8,
                (180.0 + 20.0 * warmth) as u8,
                (100.0 + 155.0 * warmth) as u8,
            ),
        ));
    }
    FormulaOracle::new(rows).unwrap()
}

fn constant_stream(fraction: u64) -> ScriptedStream {
    ScriptedStream::constant(fraction).unwrap()
}

fn scripted(fractions: &[u64]) -> ScriptedStream {
    ScriptedStream::new(fractions.to_vec()).unwrap()
}

fn star_of(mass: u64) -> Star {
    let oracle = small_oracle();
    let mut stream = constant_stream(500_000);
    Star::from_mass(&mut stream, &oracle, mass).unwrap()
}

#[test]
fn resolve_takes_the_value_set_or_the_default() {
    assert_eq!(resolve(Some(5), 7), 5);
    assert_eq!(resolve(None, 7), 7);
    assert_eq!(resolve(Some(0), 7), 0);
}

#[test]
fn sample_draws_from_a_range_that_is_not_empty() {
    let mut stream = constant_stream(500_000);
    assert_eq!(sample(&mut stream, 10, 20), Ok(15));
    assert_eq!(sample(&mut stream, 10, 11), Ok(10));
    assert_eq!(
        sample(&mut stream, 10, 10),
        Err(AstronomicalError::ConstraintUnsatisfiable)
    );
    assert_eq!(
        sample(&mut stream, 11, 10),
        Err(AstronomicalError::ConstraintUnsatisfiable)
    );
    let mut rng = SeededStream::from_seed(41);
    for _ in 0..200 {
        let value = sample(&mut rng, 100, 110).unwrap();
        assert!(100 <= value && value < 110);
    }
}

#[test]
fn pair_of_two_suns() {
    let binary = CloseBinaryStar::from_stars(star_of(1_000_000), star_of(1_000_000), 100_000, 0).unwrap();
    assert_eq!(binary.combined_mass, 2_000_000);
    assert_eq!(binary.combined_luminosity, 2_000_000);
    assert_eq!(binary.habitable_zone, (1_348_399, 1_942_571));
    assert_eq!(binary.frost_line, 6_858_933);
    assert_eq!(binary.satellite_zone, (200_000, 80_000_000));
    assert_eq!(binary.average_separation, 100_000);
    assert_eq!(binary.orbital_eccentricity, 0);
    assert_eq!(binary.primary, star_of(1_000_000));
    assert_eq!(binary.secondary, star_of(1_000_000));
    assert_eq!(binary.clone(), binary);
}

#[test]
fn zones_of_a_pair_are_not_the_sums_of_the_zones_of_its_stars() {
    let sun = star_of(1_000_000);
    let binary = CloseBinaryStar::from_stars(star_of(1_000_000), star_of(1_000_000), 100_000, 0).unwrap();
    assert_ne!(binary.habitable_zone.0, 2 * sun.habitable_zone.0);
    assert_ne!(binary.frost_line, 2 * sun.frost_line);
}

#[test]
fn pair_with_an_open_orbit_is_out_of_range() {
    assert_eq!(
        CloseBinaryStar::from_stars(star_of(1_000_000), star_of(1_000_000), 100_000, 1_000_000),
        Err(AstronomicalError::QuantityOutOfRange)
    );
    assert_eq!(
        CloseBinaryStar::from_stars(star_of(1_000_000), star_of(1_000_000), 1_000_000_001, 0),
        Err(AstronomicalError::QuantityOutOfRange)
    );
    assert!(
        CloseBinaryStar::from_stars(star_of(1_000_000), star_of(1_000_000), 1_000_000_000, 999_999)
            .is_ok()
    );
}

#[test]
fn pair_habitability_names_the_first_obstacle() {
    let near = CloseBinaryStar::from_stars(star_of(1_000_000), star_of(1_000_000), 100_000, 0).unwrap();
    assert_eq!(near.check_habitable(), Ok(()));
    assert!(near.is_habitable());
    let far = CloseBinaryStar::from_stars(star_of(1_000_000), star_of(1_000_000), 1_000_000_000, 0)
        .unwrap();
    assert_eq!(far.check_habitable(), Err(AstronomicalError::MassTooLowToSupportLife));
    assert!(!far.is_habitable());
    let heavy = CloseBinaryStar::from_stars(star_of(2_000_000), star_of(2_000_000), 100_000, 0).unwrap();
    assert_eq!(heavy.check_habitable(), Err(AstronomicalError::MassTooHighToSupportLife));
    let edge = CloseBinaryStar::from_stars(star_of(1_250_000), star_of(1_250_000), 100_000, 0).unwrap();
    assert_eq!(edge.check_habitable(), Ok(()));
    let light = CloseBinaryStar::from_stars(star_of(444_506), star_of(400_000), 100_000, 700_000)
        .unwrap();
    assert_eq!(light.check_habitable(), Ok(()));
    let lighter = CloseBinaryStar::from_stars(star_of(444_505), star_of(400_000), 100_000, 700_000)
        .unwrap();
    assert_eq!(lighter.check_habitable(), Err(AstronomicalError::MassTooLowToSupportLife));
}

#[test]
fn default_constraints_write_out_the_defaults() {
    let constraints = Constraints::default();
    assert_eq!(constraints.minimum_combined_mass, Some(200_000));
    assert_eq!(constraints.maximum_combined_mass, Some(120_000_000));
    assert_eq!(constraints.minimum_individual_mass, Some(75_000));
    assert_eq!(constraints.maximum_individual_mass, Some(120_000_000));
    assert_eq!(constraints.minimum_average_separation, None);
    assert_eq!(constraints.maximum_average_separation, None);
    assert_eq!(constraints.minimum_orbital_eccentricity, Some(100_000));
    assert_eq!(constraints.maximum_orbital_eccentricity, Some(700_000));
    assert_eq!(constraints.minimum_age, None);
    assert_eq!(constraints.maximum_age, None);
    assert!(!constraints.enforce_habitability);
}

#[test]
fn default_constraints_resolve_as_unset_ones_do() {
    let unset = Constraints {
        minimum_combined_mass: None,
        maximum_combined_mass: None,
        minimum_individual_mass: None,
        maximum_individual_mass: None,
        minimum_average_separation: None,
        maximum_average_separation: None,
        minimum_orbital_eccentricity: None,
        maximum_orbital_eccentricity: None,
        minimum_age: None,
        maximum_age: None,
        enforce_habitability: false,
    };
    assert_eq!(Constraints::default().resolve_bounds(), unset.resolve_bounds());
    let bounds = unset.resolve_bounds();
    assert_eq!(bounds.minimum_combined_mass, 200_000);
    assert_eq!(bounds.maximum_combined_mass, 120_000_000);
    assert_eq!(bounds.minimum_average_separation, 40_000);
    assert_eq!(bounds.maximum_average_separation, 400_000);
    assert_eq!(bounds.minimum_orbital_eccentricity, 100_000);
    assert_eq!(bounds.maximum_orbital_eccentricity, 700_000);
    let oracle = small_oracle();
    let mut first = constant_stream(300_000);
    let mut second = constant_stream(300_000);
    assert_eq!(
        Constraints::default().generate(&mut first, &oracle),
        unset.generate(&mut second, &oracle)
    );
}

#[test]
fn habitable_constraints_override_a_part_of_the_defaults() {
    let constraints = Constraints::habitable();
    assert_eq!(constraints.minimum_combined_mass, Some(1_100_000));
    assert_eq!(constraints.maximum_combined_mass, Some(2_500_000));
    assert_eq!(constraints.minimum_individual_mass, Some(550_000));
    assert_eq!(constraints.maximum_individual_mass, Some(1_250_000));
    assert_eq!(constraints.minimum_average_separation, None);
    assert_eq!(constraints.maximum_average_separation, Some(100_000));
    assert_eq!(constraints.minimum_orbital_eccentricity, Some(100_000));
    assert_eq!(constraints.maximum_orbital_eccentricity, Some(700_000));
    assert_eq!(constraints.minimum_age, Some(4_000_000));
    assert_eq!(constraints.maximum_age, None);
    assert!(constraints.enforce_habitability);
}

#[test]
fn bounds_are_checked_before_anything_is_drawn() {
    let good = Constraints::default().resolve_bounds();
    assert_eq!(good.check(), None);
    let flat = Bounds { minimum_orbital_eccentricity: 700_000, ..good };
    assert_eq!(flat.check(), Some(AstronomicalError::ConstraintUnsatisfiable));
    let open = Bounds { maximum_orbital_eccentricity: 1_000_001, ..good };
    assert_eq!(open.check(), Some(AstronomicalError::QuantityOutOfRange));
    let closed = Bounds { maximum_orbital_eccentricity: 1_000_000, ..good };
    assert_eq!(closed.check(), None);
    let tight = Bounds { minimum_average_separation: 400_000, ..good };
    assert_eq!(tight.check(), Some(AstronomicalError::ConstraintUnsatisfiable));
    let wide = Bounds { maximum_average_separation: 1_000_000_001, ..good };
    assert_eq!(wide.check(), Some(AstronomicalError::QuantityOutOfRange));
    let oracle = small_oracle();
    let mut stream = constant_stream(500_000);
    assert_eq!(
        flat.generate(&mut stream, &oracle),
        Err(AstronomicalError::ConstraintUnsatisfiable)
    );
    assert_eq!(
        wide.generate(&mut stream, &oracle),
        Err(AstronomicalError::QuantityOutOfRange)
    );
}

#[test]
fn mass_floor_is_computed_anew_under_the_habitability_flag() {
    let free = Constraints::default().resolve_bounds();
    assert_eq!(free.mass_floor(400_000), 200_000);
    let habitable = Constraints::habitable().resolve_bounds();
    assert_eq!(habitable.mass_floor(400_000), 766_377);
    assert_eq!(habitable.mass_floor(400_000), least_clearing_mass(100_000, 400_000));
    assert_eq!(habitable.mass_floor(699_999), least_clearing_mass(100_000, 699_999));
}

#[test]
fn binary_generation_with_a_script_is_exact() {
    let oracle = small_oracle();
    let mut stream = constant_stream(500_000);
    let binary = Constraints::default().generate(&mut stream, &oracle).unwrap();
    assert_eq!(binary.orbital_eccentricity, 400_000);
    assert_eq!(binary.average_separation, 220_000);
    assert_eq!(binary.combined_mass, 60_100_000);
    assert_eq!(binary.primary.mass, 45_037_500);
    assert_eq!(binary.secondary.mass, 15_062_500);
    assert_eq!(binary.primary.luminosity, 1_421_042_646_743);
    assert_eq!(binary.secondary.luminosity, 453_782_394_432);
    assert_eq!(binary.combined_luminosity, 1_874_825_041_175);
    assert_eq!(binary.habitable_zone, (1_305_521_505, 1_880_799_228));
    assert_eq!(binary.frost_line, 6_640_826_154);
    assert_eq!(binary.satellite_zone, (6_010_000, 2_404_000_000));
}

#[test]
fn binary_habitable_generation_with_a_script_is_exact() {
    let oracle = small_oracle();
    let mut stream = constant_stream(500_000);
    let binary = Constraints::habitable().generate(&mut stream, &oracle).unwrap();
    assert_eq!(binary.orbital_eccentricity, 400_000);
    assert_eq!(binary.average_separation, 70_000);
    assert_eq!(binary.combined_mass, 1_799_999);
    assert_eq!(binary.primary.mass, 1_075_000);
    assert_eq!(binary.secondary.mass, 724_999);
    assert_eq!(binary.check_habitable(), Ok(()));
}

#[test]
fn mass_range_left_empty_by_the_new_floor_cannot_be_met() {
    let oracle = small_oracle();
    let mut stream = constant_stream(500_000);
    let constraints = Constraints {
        maximum_combined_mass: Some(766_377),
        ..Constraints::habitable()
    };
    assert_eq!(
        constraints.generate(&mut stream, &oracle),
        Err(AstronomicalError::ConstraintUnsatisfiable)
    );
    let mut stream = constant_stream(500_000);
    let constraints = Constraints {
        maximum_combined_mass: Some(766_378),
        minimum_individual_mass: Some(75_000),
        ..Constraints::habitable()
    };
    let binary = constraints.generate(&mut stream, &oracle).unwrap();
    assert_eq!(binary.combined_mass, 766_377);
    assert_eq!(binary.primary.mass, 537_283);
    assert!(clears_reach(binary.combined_mass, 100_000, 400_000));
    let mut stream = constant_stream(500_000);
    let constraints = Constraints {
        maximum_combined_mass: Some(766_377),
        minimum_individual_mass: Some(75_000),
        ..Constraints::habitable()
    };
    assert_eq!(
        constraints.generate(&mut stream, &oracle),
        Err(AstronomicalError::ConstraintUnsatisfiable)
    );
}

#[test]
fn combined_mass_too_small_to_split_cannot_be_met() {
    let oracle = small_oracle();
    let mut stream = constant_stream(500_000);
    let constraints = Constraints {
        minimum_combined_mass: Some(100_000),
        maximum_combined_mass: Some(150_000),
        ..Constraints::default()
    };
    assert_eq!(
        constraints.generate(&mut stream, &oracle),
        Err(AstronomicalError::ConstraintUnsatisfiable)
    );
    assert_eq!(
        Constraints::default().resolve_bounds().generate_of_combined_mass(&mut stream, &oracle, 0, 100_000, 0),
        Err(AstronomicalError::ConstraintUnsatisfiable)
    );
    assert_eq!(
        Constraints::default().resolve_bounds().generate_of_combined_mass(&mut stream, &oracle, 150_000, 100_000, 0),
        Err(AstronomicalError::ConstraintUnsatisfiable)
    );
    assert_eq!(
        Constraints::default().resolve_bounds().generate_of_combined_mass(&mut stream, &oracle, 150_001, 100_000, 0),
        Err(AstronomicalError::ConstraintUnsatisfiable)
    );
    let binary = Constraints::default().resolve_bounds().generate_of_combined_mass(&mut stream, &oracle, 150_004, 100_000, 0).unwrap();
    assert_eq!(binary.primary.mass, 75_003);
    assert_eq!(binary.secondary.mass, 75_001);
    let binary = Constraints::default().resolve_bounds().generate_of_combined_mass(&mut stream, &oracle, 150_003, 100_000, 0).unwrap();
    assert_eq!(binary.primary.mass, 75_002);
    assert_eq!(binary.secondary.mass, 75_001);
    let mut low = constant_stream(0);
    let binary = Constraints::default().resolve_bounds().generate_of_combined_mass(&mut low, &oracle, 1_000_001, 100_000, 0).unwrap();
    assert_eq!(binary.primary.mass, 500_001);
    assert_eq!(binary.secondary.mass, 500_000);
}

#[test]
fn binary_failure_of_a_star_is_handed_on_unchanged() {
    let oracle = small_oracle();
    let mut stream = constant_stream(500_000);
    assert_eq!(
        Bounds::generate_of_masses(&mut stream, &oracle, 120_000_000, 1_000_000, 100_000, 0),
        Err(AstronomicalError::StellarMassTooHighForMainSequence)
    );
    assert_eq!(
        Bounds::generate_of_masses(&mut stream, &oracle, 1_000_000, 75_000, 100_000, 0),
        Err(AstronomicalError::StellarMassTooLowForMainSequence)
    );
    assert_eq!(
        Bounds::generate_of_masses(&mut stream, &oracle, 120_000_000, 75_000, 100_000, 0),
        Err(AstronomicalError::StellarMassTooHighForMainSequence)
    );
    assert_eq!(
        Bounds::generate_of_masses(&mut stream, &oracle, 1_000_000, 1_000_000, 100_000, 1_000_000),
        Err(AstronomicalError::QuantityOutOfRange)
    );
    let constraints = Constraints {
        minimum_combined_mass: Some(300_000_000),
        maximum_combined_mass: Some(400_000_000),
        ..Constraints::default()
    };
    assert_eq!(
        constraints.generate(&mut stream, &oracle),
        Err(AstronomicalError::ConstraintUnsatisfiable)
    );
    let heavy = Constraints {
        minimum_combined_mass: Some(300_000_000),
        maximum_combined_mass: Some(400_000_000),
        maximum_individual_mass: Some(400_000_000),
        ..Constraints::default()
    };
    assert_eq!(
        heavy.generate(&mut stream, &oracle),
        Err(AstronomicalError::StellarMassTooHighForMainSequence)
    );
}

#[test]
fn generated_pairs_lie_within_their_bounds() {
    let oracle = power_law_oracle();
    let mut rng = SeededStream::from_seed(43);
    let constraints = Constraints {
        minimum_combined_mass: Some(1_000_000),
        maximum_combined_mass: Some(5_000_000),
        minimum_average_separation: Some(50_000),
        maximum_average_separation: Some(60_000),
        minimum_orbital_eccentricity: Some(0),
        maximum_orbital_eccentricity: Some(300_000),
        ..Constraints::default()
    };
    for _ in 0..300 {
        let binary = constraints.generate(&mut rng, &oracle).unwrap();
        assert!(1_000_000 <= binary.combined_mass && binary.combined_mass < 5_000_000);
        assert!(50_000 <= binary.average_separation && binary.average_separation < 60_000);
        assert!(binary.orbital_eccentricity < 300_000);
        assert_eq!(binary.combined_mass, binary.primary.mass + binary.secondary.mass);
        assert!(binary.primary.mass >= binary.combined_mass / 2);
        assert!(binary.primary.mass >= binary.secondary.mass);
        assert!(binary.secondary.mass > 75_000);
    }
}

#[test]
fn test_habitable() {
    let oracle = power_law_oracle();
    let mut rng = SeededStream::from_seed(47);
    let binary = Constraints::habitable().generate(&mut rng, &oracle);
    assert!(binary.is_ok());
}

#[test]
fn test_habitable_bulk() {
    let oracle = power_law_oracle();
    let mut rng = SeededStream::from_seed(53);
    let mut success = 0;
    let trials = 10;
    let mut counter = 0;
    loop {
        match &Constraints::habitable().generate(&mut rng, &oracle) {
            Ok(_binary) => success += 1,
            Err(error) => println!("ERROR: {:#?}", error),
        }
        counter += 1;
        if counter >= trials {
            break;
        }
    }
    assert_eq!(success, trials);
}

#[test]
fn habitable_pairs_pass_the_habitability_check() {
    let oracle = power_law_oracle();
    let mut rng = SeededStream::from_seed(59);
    for _ in 0..500 {
        let binary = Constraints::habitable().generate(&mut rng, &oracle).unwrap();
        assert_eq!(binary.check_habitable(), Ok(()));
        assert!(binary.combined_mass < 2_500_000);
        assert!(binary.average_separation < 100_000);
        assert!(550_000 <= binary.secondary.mass);
        assert!(binary.secondary.mass <= binary.primary.mass);
        assert!(binary.primary.mass < 1_250_000);
    }
}

#[test]
fn well_formed_pairs_are_told_from_others() {
    let binary = CloseBinaryStar::from_stars(star_of(1_000_000), star_of(2_000_000), 100_000, 0).unwrap();
    assert!(binary.is_well_formed());
    let mut heavier = binary.clone();
    heavier.combined_mass += 1;
    assert!(!heavier.is_well_formed());
    let mut open = binary.clone();
    open.orbital_eccentricity = 1_000_000;
    assert!(!open.is_well_formed());
    let mut apart = binary.clone();
    apart.average_separation = 1_000_000_001;
    assert!(!apart.is_well_formed());
    let mut aged = binary.clone();
    aged.primary.current_age = 0;
    assert!(!aged.is_well_formed());
    let mut colder = binary.clone();
    colder.frost_line += 1;
    assert!(!colder.is_well_formed());
    let oracle = power_law_oracle();
    let mut rng = SeededStream::from_seed(163);
    for _ in 0..100 {
        assert!(Constraints::default().generate(&mut rng, &oracle).unwrap().is_well_formed());
    }
}

#[test]
fn both_stars_lie_within_the_individual_bounds() {
    let oracle = power_law_oracle();
    let mut rng = SeededStream::from_seed(179);
    let constraints = Constraints {
        minimum_combined_mass: Some(1_000_000),
        maximum_combined_mass: Some(9_000_000),
        minimum_individual_mass: Some(900_000),
        maximum_individual_mass: Some(3_000_000),
        ..Constraints::default()
    };
    for _ in 0..300 {
        let binary = constraints.generate(&mut rng, &oracle).unwrap();
        assert!(900_000 <= binary.secondary.mass);
        assert!(binary.secondary.mass <= binary.primary.mass);
        assert!(binary.primary.mass < 3_000_000);
        assert!(1_800_000 <= binary.combined_mass && binary.combined_mass < 5_999_999);
    }
}

#[test]
fn ranges_of_the_combined_mass_and_of_the_split() {
    let free = Constraints::default().resolve_bounds();
    assert_eq!(free.combined_range(200_000), Ok((200_000, 120_000_000)));
    assert_eq!(free.combined_range(0), Ok((150_000, 120_000_000)));
    assert_eq!(
        free.combined_range(120_000_000),
        Err(AstronomicalError::ConstraintUnsatisfiable)
    );
    assert_eq!(free.split_range(60_100_000), Ok((30_050_000, 60_025_000)));
    assert_eq!(free.split_range(150_001), Err(AstronomicalError::ConstraintUnsatisfiable));
    assert_eq!(free.split_range(0), Err(AstronomicalError::ConstraintUnsatisfiable));
    let habitable = Constraints::habitable().resolve_bounds();
    assert_eq!(habitable.combined_range(766_377), Ok((1_100_000, 2_499_999)));
    assert_eq!(habitable.combined_range(1_200_000), Ok((1_200_000, 2_499_999)));
    assert_eq!(habitable.split_range(1_799_999), Ok((900_000, 1_250_000)));
    assert_eq!(habitable.split_range(1_100_000), Ok((550_000, 550_001)));
    assert_eq!(
        habitable.split_range(1_099_999),
        Err(AstronomicalError::ConstraintUnsatisfiable)
    );
    assert_eq!(habitable.split_range(2_499_998), Ok((1_249_999, 1_250_000)));
    let none = Bounds { maximum_individual_mass: 0, ..free };
    assert_eq!(none.combined_range(0), Err(AstronomicalError::ConstraintUnsatisfiable));
    let vast = Bounds { minimum_individual_mass: u64::MAX, maximum_individual_mass: u64::MAX, ..free };
    assert_eq!(vast.combined_range(0), Err(AstronomicalError::ConstraintUnsatisfiable));
    assert_eq!(vast.split_range(u64::MAX), Err(AstronomicalError::ConstraintUnsatisfiable));
}
