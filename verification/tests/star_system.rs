#![allow(dead_code)]

use astronomy::oracle::FormulaOracle;
use astronomy::oracle::OracleRow;
use astronomy::oracle::StellarProperties;
use astronomy::random::ScriptedStream;
use astronomy::error::AstronomicalError;
use astronomy::random::RandomStream;
use astronomy::random::SeededStream;
use astronomy::star::Constraints as StarConstraints;
use astronomy::star::Star;
use astronomy::star_subsystem::Constraints as SubsystemConstraints;
use astronomy::star_subsystem::StarSubsystemType;
use astronomy::star_system::Constraints;
use astronomy::star_system::RetryStep;
use astronomy::star_system::StarSystem;

fn row(
    mass: u64,
    temperature: u64,
    luminosity: u64,
    radius: u64,
    satellite_zone: (u64, u64),
    absolute_rgb: (u8, u8, u8),
) -> OracleRow {
    OracleRow {
        mass,
        properties: StellarProperties {
            temperature,
            luminosity,
            radius,
            satellite_zone,
            absolute_rgb,
        },
    }
}

/// Three reference stars: the lightest, one like the sun, the heaviest.
fn small_oracle() -> FormulaOracle {
    let rows = vec![
        row(75_000, 2_500_000_000, 600, 126_000, (7_500, 3_000_000), (255, 180, 100)),
        row(1_000_000, 5_776_000_000, 1_000_000, 1_000_000, (100_000, 40_000_000), (255, 244, 234)),
        row(
            120_000_000,
            65_000_000_000,
            3_840_000_000_000,
            15_300_000,
            (12_000_000, 4_800_000_000),
            (155, 176, 255),
        ),
    ];
    FormulaOracle::new(rows).unwrap()
}

fn to_fixed(value: f64) -> u64 {
    (value * 1_000_000.0).round() as u64
}

fn power_law_luminosity(mass: f64) -> f64 {
    if mass < 0.43 {
        0.23 * mass.powf(2.3)
    } else if mass < 2.0 {
        mass.powf(4.0)
    } else if mass < 55.0 {
        1.4 * mass.powf(3.5)
    } else {
        32_000.0 * mass
    }
}

fn power_law_radius(mass: f64) -> f64 {
    if mass < 1.0 {
        mass.powf(0.8)
    } else {
        mass.powf(0.57)
    }
}

/// A table of four hundred reference stars that follow the usual power laws.
fn power_law_oracle() -> FormulaOracle {
    let steps = 400;
    let mut rows = Vec::new();
    let mut previous = 0u64;
    for step in 0..=steps {
        let exact = 0.075 * (120.0f64 / 0.075).powf(step as f64 / steps as f64);
        let mass = if step == 0 {
            75_000
        } else if step == steps {
            120_000_000
        } else {
            to_fixed(exact)
        };
        if mass <= previous {
            continue;
        }
        previous = mass;
        let solar = mass as f64 / 1_000_000.0;
        let luminosity = power_law_luminosity(solar);
        let radius = power_law_radius(solar);
        let temperature = (luminosity / (radius * radius)).powf(0.25) * 5_776.0;
        let warmth = ((temperature - 2_000.0) / 40_000.0).clamp(0.0, 1.0);
        rows.push(row(
            mass,
            to_fixed(temperature),
            to_fixed(luminosity),
            to_fixed(radius),
            (to_fixed(0.1 * solar), to_fixed(40.0 * solar)),
            (
                (255.0 - 100.0 * warmth) as u8,
                (180.0 + 20.0 * warmth) as u8,
                (100.0 + 155.0 * warmth) as u8,
            ),
        ));
    }
    FormulaOracle::new(rows).unwrap()
}

fn constant_stream(fraction: u64) -> ScriptedStream {
    ScriptedStream::constant(fraction).unwrap()
}

fn scripted(fractions: &[u64]) -> ScriptedStream {
    ScriptedStream::new(fractions.to_vec()).unwrap()
}

fn hopeless() -> SubsystemConstraints {
    SubsystemConstraints {
        binary_probability: Some(1_000_000),
        star_constraints: None,
        maximum_depth: Some(0),
    }
}

fn single(mass: u64) -> StarSubsystemType {
    let oracle = small_oracle();
    let mut stream = constant_stream(500_000);
    StarSubsystemType::Single(Star::from_mass(&mut stream, &oracle, mass).unwrap())
}

#[test]
fn system_constraints_default_and_habitable() {
    let free = Constraints::default();
    assert_eq!(free.subsystem_constraints, None);
    assert_eq!(free.retries, None);
    let habitable = Constraints::habitable();
    assert_eq!(habitable.subsystem_constraints, Some(SubsystemConstraints::habitable()));
    assert_eq!(habitable.retries, None);
}

#[test]
fn retry_step_accepts_a_success() {
    assert_eq!(
        RetryStep::decide(Ok(single(1_000_000)), 0),
        RetryStep::Accept(single(1_000_000))
    );
    assert_eq!(
        RetryStep::decide(Ok(single(1_000_000)), 9),
        RetryStep::Accept(single(1_000_000))
    );
}

#[test]
fn retry_step_counts_down_on_a_failure() {
    assert_eq!(
        RetryStep::decide(Err(AstronomicalError::ConstraintUnsatisfiable), 10),
        RetryStep::Retry(9)
    );
    assert_eq!(
        RetryStep::decide(Err(AstronomicalError::QuantityOutOfRange), 2),
        RetryStep::Retry(1)
    );
    assert_eq!(
        RetryStep::decide(Err(AstronomicalError::QuantityOutOfRange), 1),
        RetryStep::Exhausted
    );
    assert_eq!(
        RetryStep::decide(Err(AstronomicalError::SubsystemDepthExceeded), 0),
        RetryStep::Exhausted
    );
    assert_eq!(
        RetryStep::decide(Err(AstronomicalError::StellarMassTooLowForMainSequence), 255),
        RetryStep::Retry(254)
    );
}

#[test]
fn no_retries_means_one_attempt() {
    let oracle = small_oracle();
    let mut stream = constant_stream(500_000);
    let (outcome, attempts) = StarSystem::generate_subsystem(&mut stream, &oracle, &hopeless(), 0);
    assert_eq!(outcome, Err(AstronomicalError::NoSuitableSubsystemsCouldBeGenerated));
    assert_eq!(attempts, 1);
    let (outcome, attempts) =
        StarSystem::generate_subsystem(&mut stream, &oracle, &SubsystemConstraints::default(), 0);
    assert!(outcome.is_ok());
    assert_eq!(attempts, 1);
    let constraints = Constraints { subsystem_constraints: Some(hopeless()), retries: Some(0) };
    assert_eq!(
        StarSystem::from_constraints(&mut stream, &oracle, &constraints),
        Err(AstronomicalError::NoSuitableSubsystemsCouldBeGenerated)
    );
}

#[test]
fn exhaustion_comes_after_as_many_attempts_as_there_are_retries() {
    let oracle = small_oracle();
    let mut stream = constant_stream(500_000);
    let (outcome, attempts) = StarSystem::generate_subsystem(&mut stream, &oracle, &hopeless(), 3);
    assert_eq!(outcome, Err(AstronomicalError::NoSuitableSubsystemsCouldBeGenerated));
    assert_eq!(attempts, 3);
    let (outcome, attempts) = StarSystem::generate_subsystem(&mut stream, &oracle, &hopeless(), 1);
    assert_eq!(outcome, Err(AstronomicalError::NoSuitableSubsystemsCouldBeGenerated));
    assert_eq!(attempts, 1);
    let (outcome, attempts) = StarSystem::generate_subsystem(&mut stream, &oracle, &hopeless(), 255);
    assert_eq!(outcome, Err(AstronomicalError::NoSuitableSubsystemsCouldBeGenerated));
    assert_eq!(attempts, 255);
}

#[test]
fn first_success_ends_the_attempts() {
    let oracle = small_oracle();
    let flat = SubsystemConstraints { maximum_depth: Some(0), ..SubsystemConstraints::default() };
    let mut stream = scripted(&[0, 0, 900_000, 500_000, 500_000, 500_000, 500_000, 500_000]);
    let (outcome, attempts) = StarSystem::generate_subsystem(&mut stream, &oracle, &flat, 10);
    assert_eq!(attempts, 3);
    match outcome {
        Ok(StarSubsystemType::Single(star)) => assert_eq!(star.mass, 265_000),
        _ => panic!("the third attempt makes a single star"),
    }
    let mut stream = scripted(&[0, 0, 900_000, 500_000, 500_000, 500_000, 500_000, 500_000]);
    let (outcome, attempts) = StarSystem::generate_subsystem(&mut stream, &oracle, &flat, 2);
    assert_eq!(outcome, Err(AstronomicalError::NoSuitableSubsystemsCouldBeGenerated));
    assert_eq!(attempts, 2);
    assert_eq!(stream.uniform(0, 1_000_000), 900_000);
}

#[test]
fn failures_of_the_attempts_are_not_reported() {
    let oracle = small_oracle();
    let mut stream = constant_stream(500_000);
    let unsatisfiable = SubsystemConstraints {
        binary_probability: Some(0),
        star_constraints: Some(StarConstraints {
            minimum_mass: Some(9),
            maximum_mass: Some(3),
            make_habitable: false,
        }),
        maximum_depth: None,
    };
    let constraints = Constraints { subsystem_constraints: Some(unsatisfiable), retries: Some(2) };
    assert_eq!(
        StarSystem::from_constraints(&mut stream, &oracle, &constraints),
        Err(AstronomicalError::NoSuitableSubsystemsCouldBeGenerated)
    );
    let too_deep = SubsystemConstraints { maximum_depth: Some(200), ..SubsystemConstraints::default() };
    let constraints = Constraints { subsystem_constraints: Some(too_deep), retries: None };
    assert_eq!(
        StarSystem::from_constraints(&mut stream, &oracle, &constraints),
        Err(AstronomicalError::NoSuitableSubsystemsCouldBeGenerated)
    );
}

#[test]
fn star_system_is_named_and_measured() {
    let oracle = small_oracle();
    let mut stream = constant_stream(500_000);
    let system = StarSystem::from_constraints(&mut stream, &oracle, &Constraints::default()).unwrap();
    assert_eq!(system.name, "Steve");
    assert_eq!(system.get_stellar_count(), 1);
    assert_eq!(system.get_stellar_mass(), 265_000);
    assert_eq!(system.check_habitable(), Err(AstronomicalError::MassTooLowToSupportLife));
    assert!(!system.is_habitable());
    assert_eq!(system.clone(), system);
    let pair = StarSystem {
        subsystem: StarSubsystemType::join(single(1_000_000), single(2_000_000)),
        name: "Pair".to_string(),
    };
    assert_eq!(pair.get_stellar_count(), 2);
    assert_eq!(pair.get_stellar_mass(), 3_000_000);
    assert_eq!(pair.check_habitable(), Ok(()));
    assert!(pair.is_habitable());
}

#[test]
fn habitable_star_systems_pass_the_habitability_check() {
    let oracle = power_law_oracle();
    let mut rng = SeededStream::from_seed(127);
    for _ in 0..200 {
        let system = StarSystem::from_constraints(&mut rng, &oracle, &Constraints::habitable()).unwrap();
        assert_eq!(system.check_habitable(), Ok(()));
        assert!(system.is_habitable());
        assert!(system.get_stellar_count() >= 1);
    }
}

#[test]
fn star_system_get_random() {
    let oracle = power_law_oracle();
    let mut rng = SeededStream::from_seed(131);
    let constraints = Constraints::habitable();
    let star_system = StarSystem::from_constraints(&mut rng, &oracle, &constraints);
    assert!(star_system.is_ok());
}

#[test]
fn generated_star_systems_are_well_formed() {
    let oracle = power_law_oracle();
    let mut rng = SeededStream::from_seed(173);
    for _ in 0..100 {
        let system = StarSystem::from_constraints(&mut rng, &oracle, &Constraints::default()).unwrap();
        assert!(system.is_well_formed());
    }
}

#[test]
fn unset_retries_allow_ten_attempts() {
    let oracle = small_oracle();
    let unset = Constraints { subsystem_constraints: Some(hopeless()), retries: None };
    let ten = Constraints { subsystem_constraints: Some(hopeless()), retries: Some(10) };
    let mut first = scripted(&[1, 2, 3, 4, 5, 6, 7, 8, 9, 10, 11, 12]);
    let mut second = scripted(&[1, 2, 3, 4, 5, 6, 7, 8, 9, 10, 11, 12]);
    assert_eq!(
        StarSystem::from_constraints(&mut first, &oracle, &unset),
        Err(AstronomicalError::NoSuitableSubsystemsCouldBeGenerated)
    );
    assert_eq!(
        StarSystem::from_constraints(&mut second, &oracle, &ten),
        Err(AstronomicalError::NoSuitableSubsystemsCouldBeGenerated)
    );
    assert_eq!(first.uniform(0, 1_000_000), 11);
    assert_eq!(second.uniform(0, 1_000_000), 11);
}
