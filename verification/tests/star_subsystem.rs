#![allow(dead_code)]

use astronomy::oracle::FormulaOracle;
use astronomy::oracle::OracleRow;
use astronomy::oracle::StellarProperties;
use astronomy::random::ScriptedStream;
use astronomy::error::AstronomicalError;
use astronomy::formulas::frost_line;
use astronomy::formulas::habitable_zone;
use astronomy::random::RandomStream;
use astronomy::random::SeededStream;
use astronomy::star::Constraints as StarConstraints;
use astronomy::star::Star;
use astronomy::star_subsystem::Constraints;
use astronomy::star_subsystem::Shape;
use astronomy::star_subsystem::StarSubsystemType;

fn row(
    mass: u64,
    temperature: u64,
    luminosity: u64,
    radius: u64,
    satellite_zone: (u64, u64),
    absolute_rgb: (u8, u8, u8),
) -> OracleRow {
    OracleRow {
        mass,
        properties: StellarProperties {
            temperature,
            luminosity,
            radius,
            satellite_zone,
            absolute_rgb,
        },
    }
}

/// Three reference stars: the lightest, one like the sun, the heaviest.
fn small_oracle() -> FormulaOracle {
    let rows = vec![
        row(75_000, 2_500_000_000, 600, 126_000, (7_500, 3_000_000), (255, 180, 100)),
        row(1_000_000, 5_776_000_000, 1_000_000, 1_000_000, (100_000, 40_000_000), (255, 244, 234)),
        row(
            120_000_000,
            65_000_000_000,
            3_840_000_000_000,
            15_300_000,
            (12_000_000, 4_800_000_000),
            (155, 176, 255),
        ),
    ];
    FormulaOracle::new(rows).unwrap()
}

fn to_fixed(value: f64) -> u64 {
    (value * 1_000_000.0).round() as u64
}

fn power_law_luminosity(mass: f64) -> f64 {
    if mass < 0.43 {
        0.23 * mass.powf(2.3)
    } else if mass < 2.0 {
        mass.powf(4.0)
    } else if mass < 55.0 {
        1.4 * mass.powf(3.5)
    } else {
        32_000.0 * mass
    }
}

fn power_law_radius(mass: f64) -> f64 {
    if mass < 1.0 {
        mass.powf(0.8)
    } else {
        mass.powf(0.57)
    }
}

/// A table of four hundred reference stars that follow the usual power laws.
fn power_law_oracle() -> FormulaOracle {
    let steps = 400;
    let mut rows = Vec::new();
    let mut previous = 0u64;
    for step in 0..=steps {
        let exact = 0.075 * (120.0f64 / 0.075).powf(step as f64 / steps as f64);
        let mass = if step == 0 {
            75_000
        } else if step == steps {
            120_000_000
        } else {
            to_fixed(exact)
        };
        if mass <= previous {
            continue;
        }
        previous = mass;
        let solar = mass as f64 / 1_000_000.0;
        let luminosity = power_law_luminosity(solar);
        let radius = power_law_radius(solar);
        let temperature = (luminosity / (radius * radius)).powf(0.25) * 5_776.0;
        let warmth = ((temperature - 2_000.0) / 40_000.0).clamp(0.0, 1.0);
        rows.push(row(
            mass,
            to_fixed(temperature),
            to_fixed(luminosity),
            to_fixed(radius),
            (to_fixed(0.1 * solar), to_fixed(40.0 * solar)),
            (
                (255.0 - 100.0 * warmth) as u8,
                (180.0 + 20.0 * warmth) as u8,
                (100.0 + 155.0 * warmth) as u8,
            ),
        ));
    }
    FormulaOracle::new(rows).unwrap()
}

fn constant_stream(fraction: u64) -> ScriptedStream {
    ScriptedStream::constant(fraction).unwrap()
}

fn scripted(fractions: &[u64]) -> ScriptedStream {
    ScriptedStream::new(fractions.to_vec()).unwrap()
}

fn star_of(mass: u64, fraction: u64) -> Star {
    let oracle = small_oracle();
    let mut stream = constant_stream(fraction);
    Star::from_mass(&mut stream, &oracle, mass).unwrap()
}

fn single(mass: u64) -> StarSubsystemType {
    StarSubsystemType::Single(star_of(mass, 500_000))
}

fn leaves(subsystem: &StarSubsystemType) -> Vec<Star> {
    match subsystem {
        StarSubsystemType::Single(star) => vec![star.clone()],
        StarSubsystemType::Double(left, right) => {
            let mut all = leaves(left);
            all.extend(leaves(right));
            all
        }
    }
}

fn depth(subsystem: &StarSubsystemType) -> u32 {
    match subsystem {
        StarSubsystemType::Single(_) => 0,
        StarSubsystemType::Double(left, right) => 1 + depth(left).max(depth(right)),
    }
}

fn every_pair_is_ordered(subsystem: &StarSubsystemType) -> bool {
    match subsystem {
        StarSubsystemType::Single(_) => true,
        StarSubsystemType::Double(left, right) => {
            left.get_mass() >= right.get_mass()
                && every_pair_is_ordered(left)
                && every_pair_is_ordered(right)
        }
    }
}

#[test]
fn join_puts_the_heavier_half_first() {
    let pair = StarSubsystemType::join(single(1_000_000), single(2_000_000));
    match &pair {
        StarSubsystemType::Double(left, right) => {
            assert_eq!(left.get_mass(), 2_000_000);
            assert_eq!(right.get_mass(), 1_000_000);
        }
        StarSubsystemType::Single(_) => panic!("a pair was joined"),
    }
    let pair = StarSubsystemType::join(single(2_000_000), single(1_000_000));
    match &pair {
        StarSubsystemType::Double(left, right) => {
            assert_eq!(left.get_mass(), 2_000_000);
            assert_eq!(right.get_mass(), 1_000_000);
        }
        StarSubsystemType::Single(_) => panic!("a pair was joined"),
    }
}

#[test]
fn join_of_equal_masses_puts_the_second_first() {
    let young = StarSubsystemType::Single(star_of(1_000_000, 0));
    let old = StarSubsystemType::Single(star_of(1_000_000, 999_999));
    let pair = StarSubsystemType::join(young.clone(), old.clone());
    match pair {
        StarSubsystemType::Double(left, right) => {
            assert_eq!(*left, old);
            assert_eq!(*right, young);
        }
        StarSubsystemType::Single(_) => panic!("a pair was joined"),
    }
}

#[test]
fn first_draw_decides_the_shape() {
    assert_eq!(StarSubsystemType::shape_of_draw(110_001, 110_000, 3), Shape::Single);
    assert_eq!(StarSubsystemType::shape_of_draw(110_001, 110_000, 0), Shape::Single);
    assert_eq!(StarSubsystemType::shape_of_draw(110_000, 110_000, 3), Shape::Pair);
    assert_eq!(StarSubsystemType::shape_of_draw(0, 110_000, 1), Shape::Pair);
    assert_eq!(StarSubsystemType::shape_of_draw(110_000, 110_000, 0), Shape::TooDeep);
    assert_eq!(StarSubsystemType::shape_of_draw(0, 0, 0), Shape::TooDeep);
    assert_eq!(StarSubsystemType::shape_of_draw(1, 0, 0), Shape::Single);
    assert_eq!(StarSubsystemType::shape_of_draw(999_999, 999_999, 7), Shape::Pair);
}

#[test]
fn failure_of_a_half_is_handed_on_and_the_other_half_is_not_tried() {
    let oracle = small_oracle();
    let unsatisfiable = StarConstraints {
        minimum_mass: Some(9),
        maximum_mass: Some(3),
        make_habitable: false,
    };
    let constraints = Constraints {
        binary_probability: None,
        star_constraints: Some(unsatisfiable),
        maximum_depth: Some(1),
    };
    let mut stream = scripted(&[0, 900_000, 500_000, 111, 222]);
    assert_eq!(
        constraints.generate(&mut stream, &oracle),
        Err(AstronomicalError::ConstraintUnsatisfiable)
    );
    assert_eq!(stream.uniform(0, 1_000_000), 111);
}

#[test]
fn aggregates_of_a_single_star_are_those_of_the_star() {
    let star = star_of(1_000_000, 500_000);
    let subsystem = StarSubsystemType::Single(star.clone());
    assert_eq!(subsystem.get_count(), 1);
    assert_eq!(subsystem.get_mass(), 1_000_000);
    assert_eq!(subsystem.get_luminosity(), 1_000_000);
    assert_eq!(subsystem.get_habitable_zone(), star.habitable_zone);
    assert_eq!(subsystem.get_habitable_zone(), (953_462, 1_373_605));
    assert_eq!(subsystem.get_satellite_bounds(), (100_000, 40_000_000));
    assert_eq!(subsystem.get_frost_line(), 4_850_000);
    assert_eq!(subsystem.clone(), subsystem);
}

#[test]
fn aggregates_of_a_pair_follow_from_the_combined_mass_and_luminosity() {
    let pair = StarSubsystemType::join(single(1_000_000), single(1_000_000));
    assert_eq!(pair.get_count(), 2);
    assert_eq!(pair.get_mass(), 2_000_000);
    assert_eq!(pair.get_luminosity(), 2_000_000);
    assert_eq!(pair.get_habitable_zone(), (1_348_399, 1_942_571));
    assert_eq!(pair.get_frost_line(), 6_858_933);
    assert_eq!(pair.get_satellite_bounds(), (200_000, 80_000_000));
    assert_ne!(pair.get_habitable_zone().0, 2 * 953_462);
    assert_ne!(pair.get_frost_line(), 2 * 4_850_000);
}

#[test]
fn aggregates_of_a_deeper_tree_sum_over_the_leaves() {
    let inner = StarSubsystemType::join(single(1_000_000), single(2_000_000));
    let outer = StarSubsystemType::join(single(265_000), inner);
    let tree = StarSubsystemType::join(outer, single(3_000_000));
    assert_eq!(tree.get_count(), 4);
    assert_eq!(leaves(&tree).len(), 4);
    assert_eq!(tree.get_mass(), 6_265_000);
    let luminosity: u64 = leaves(&tree).iter().map(|star| star.luminosity).sum();
    assert_eq!(tree.get_luminosity(), luminosity);
    assert_eq!(tree.get_habitable_zone(), habitable_zone(luminosity));
    assert_eq!(tree.get_frost_line(), frost_line(luminosity));
    assert_eq!(tree.get_satellite_bounds(), (626_500, 250_600_000));
    assert!(every_pair_is_ordered(&tree));
    match &tree {
        StarSubsystemType::Double(left, right) => {
            assert_eq!(left.get_mass(), 3_265_000);
            assert_eq!(right.get_mass(), 3_000_000);
        }
        StarSubsystemType::Single(_) => panic!("a pair was joined"),
    }
}

#[test]
fn pair_is_habitable_when_one_half_is() {
    let good = single(1_000_000);
    let bad = single(2_000_000);
    assert_eq!(good.check_habitable(), Ok(()));
    assert_eq!(bad.check_habitable(), Err(AstronomicalError::MassTooHighToSupportLife));
    let mixed = StarSubsystemType::join(good.clone(), bad.clone());
    assert_eq!(mixed.check_habitable(), Ok(()));
    assert!(mixed.is_habitable());
    let both = StarSubsystemType::join(good.clone(), good.clone());
    assert_eq!(both.check_habitable(), Ok(()));
    let neither = StarSubsystemType::join(bad.clone(), bad.clone());
    assert_eq!(
        neither.check_habitable(),
        Err(AstronomicalError::NoHabitableZoneFoundInSubsystem)
    );
    assert!(!neither.is_habitable());
    let rescued = StarSubsystemType::join(neither.clone(), mixed.clone());
    assert_eq!(rescued.check_habitable(), Ok(()));
    let lost = StarSubsystemType::join(neither.clone(), single(265_000));
    assert_eq!(
        lost.check_habitable(),
        Err(AstronomicalError::NoHabitableZoneFoundInSubsystem)
    );
}

#[test]
fn single_star_is_habitable_only_when_every_condition_holds() {
    let young = StarSubsystemType::Single(star_of(1_000_000, 0));
    assert_eq!(young.check_habitable(), Err(AstronomicalError::TooYoungToSupportLife));
    assert!(!young.is_habitable());
    let light = single(265_000);
    assert_eq!(light.check_habitable(), Err(AstronomicalError::MassTooLowToSupportLife));
}

#[test]
fn subsystem_constraints_default_and_habitable() {
    let free = Constraints::default();
    assert_eq!(free.binary_probability, None);
    assert_eq!(free.star_constraints, None);
    assert_eq!(free.maximum_depth, None);
    let habitable = Constraints::habitable();
    assert_eq!(habitable.binary_probability, None);
    assert_eq!(habitable.star_constraints, Some(StarConstraints::habitable()));
    assert_eq!(habitable.maximum_depth, None);
}

#[test]
fn subsystem_draw_above_the_probability_gives_a_single_star() {
    let oracle = small_oracle();
    let mut stream = scripted(&[110_001, 500_000, 500_000, 500_000, 500_000, 500_000]);
    let subsystem = Constraints::default().generate(&mut stream, &oracle).unwrap();
    match subsystem {
        StarSubsystemType::Single(star) => assert_eq!(star.mass, 265_000),
        StarSubsystemType::Double(_, _) => panic!("a single star was drawn"),
    }
}

#[test]
fn draw_at_the_probability_gives_a_pair_of_the_same_generator() {
    let oracle = small_oracle();
    let mut stream = scripted(&[
        110_000, 900_000, 500_000, 0, 500_000, 0, 500_000, 900_000, 500_000, 999_999, 500_000,
        999_999, 500_000,
    ]);
    let subsystem = Constraints::default().generate(&mut stream, &oracle).unwrap();
    match &subsystem {
        StarSubsystemType::Single(_) => panic!("a pair was drawn"),
        StarSubsystemType::Double(left, right) => {
            assert_eq!(left.get_mass(), 449_999);
            assert_eq!(right.get_mass(), 80_000);
            match &**left {
                StarSubsystemType::Single(star) => assert_eq!(star.name, "Lesath"),
                StarSubsystemType::Double(_, _) => panic!("the halves are single stars"),
            }
            match &**right {
                StarSubsystemType::Single(star) => assert_eq!(star.name, "Achird"),
                StarSubsystemType::Double(_, _) => panic!("the halves are single stars"),
            }
        }
    }
    assert_eq!(subsystem.get_count(), 2);
    assert_eq!(subsystem.get_mass(), 529_999);
}

#[test]
fn pair_where_no_level_is_left_is_a_failure() {
    let oracle = small_oracle();
    let mut stream = constant_stream(500_000);
    let always = Constraints {
        binary_probability: Some(1_000_000),
        star_constraints: None,
        maximum_depth: Some(2),
    };
    assert_eq!(
        always.generate(&mut stream, &oracle),
        Err(AstronomicalError::SubsystemDepthExceeded)
    );
    let flat = Constraints { maximum_depth: Some(0), ..always };
    assert_eq!(
        flat.generate(&mut stream, &oracle),
        Err(AstronomicalError::SubsystemDepthExceeded)
    );
    let never = Constraints { binary_probability: Some(0), ..flat };
    assert!(never.generate(&mut stream, &oracle).is_ok());
}

#[test]
fn depth_beyond_the_limit_is_out_of_range() {
    let oracle = small_oracle();
    let mut stream = constant_stream(500_000);
    let deep = Constraints { maximum_depth: Some(8), ..Constraints::default() };
    assert_eq!(
        deep.generate(&mut stream, &oracle),
        Err(AstronomicalError::QuantityOutOfRange)
    );
    assert_eq!(
        StarSubsystemType::get_random_constrained(&mut stream, &oracle, &deep),
        Err(AstronomicalError::QuantityOutOfRange)
    );
    let deepest = Constraints { maximum_depth: Some(7), ..Constraints::default() };
    assert!(deepest.generate(&mut stream, &oracle).is_ok());
}

#[test]
fn subsystem_failure_of_a_star_is_handed_on_unchanged() {
    let oracle = small_oracle();
    let mut stream = constant_stream(500_000);
    let constraints = Constraints {
        binary_probability: Some(0),
        star_constraints: Some(StarConstraints {
            minimum_mass: Some(9),
            maximum_mass: Some(3),
            make_habitable: false,
        }),
        maximum_depth: None,
    };
    assert_eq!(
        constraints.generate(&mut stream, &oracle),
        Err(AstronomicalError::ConstraintUnsatisfiable)
    );
}

#[test]
fn generated_trees_keep_their_invariants() {
    let oracle = power_law_oracle();
    let mut rng = SeededStream::from_seed(107);
    let constraints = Constraints {
        binary_probability: Some(450_000),
        star_constraints: None,
        maximum_depth: Some(3),
    };
    let mut pairs = 0;
    let mut failures = 0;
    for _ in 0..400 {
        match constraints.generate(&mut rng, &oracle) {
            Ok(subsystem) => {
                let stars = leaves(&subsystem);
                assert!(every_pair_is_ordered(&subsystem));
                assert_eq!(subsystem.get_count() as usize, stars.len());
                assert_eq!(
                    subsystem.get_mass(),
                    stars.iter().map(|star| star.mass).sum::<u64>()
                );
                assert_eq!(
                    subsystem.get_luminosity(),
                    stars.iter().map(|star| star.luminosity).sum::<u64>()
                );
                assert!(depth(&subsystem) <= 3);
                assert!(stars.len() <= 8);
                if stars.len() > 1 {
                    pairs += 1;
                }
            }
            Err(error) => {
                assert_eq!(error, AstronomicalError::SubsystemDepthExceeded);
                failures += 1;
            }
        }
    }
    assert!(pairs > 0);
    assert!(failures > 0);
}

#[test]
fn habitable_trees_pass_the_habitability_check() {
    let oracle = power_law_oracle();
    let mut rng = SeededStream::from_seed(109);
    let constraints = Constraints {
        binary_probability: Some(300_000),
        ..Constraints::habitable()
    };
    let mut generated = 0;
    for _ in 0..300 {
        if let Ok(subsystem) = constraints.generate(&mut rng, &oracle) {
            generated += 1;
            assert_eq!(subsystem.check_habitable(), Ok(()));
            for star in leaves(&subsystem) {
                assert_eq!(star.check_habitable(), Ok(()));
            }
        }
    }
    assert!(generated > 0);
}

#[test]
fn subsystem_get_random() {
    let oracle = power_law_oracle();
    let mut rng = SeededStream::from_seed(113);
    let constraints = Constraints::habitable();
    let mut generated = 0;
    for _ in 0..20 {
        if let Ok(star_subsystem_type) =
            StarSubsystemType::get_random_constrained(&mut rng, &oracle, &constraints)
        {
            generated += 1;
            assert!(star_subsystem_type.is_habitable());
        }
    }
    assert!(generated > 0);
}

#[test]
fn well_formed_trees_are_told_from_others() {
    let pair = StarSubsystemType::join(single(1_000_000), single(2_000_000));
    assert!(pair.is_well_formed());
    let reversed = StarSubsystemType::Double(Box::new(single(1_000_000)), Box::new(single(2_000_000)));
    assert!(!reversed.is_well_formed());
    let level = StarSubsystemType::Double(Box::new(single(1_000_000)), Box::new(single(1_000_000)));
    assert!(level.is_well_formed());
    let mut star = star_of(1_000_000, 500_000);
    star.current_age = 0;
    let broken = StarSubsystemType::Double(Box::new(single(2_000_000)), Box::new(StarSubsystemType::Single(star)));
    assert!(!broken.is_well_formed());
    let nested = StarSubsystemType::Double(Box::new(single(3_000_000)), Box::new(reversed));
    assert!(!nested.is_well_formed());
}

#[test]
fn aggregates_do_not_ask_for_exact_zones_of_the_stars() {
    let mut odd = star_of(1_000_000, 500_000);
    odd.habitable_zone = (1, 2);
    odd.frost_line = 3;
    odd.density = 0;
    let pair = StarSubsystemType::join(StarSubsystemType::Single(odd), single(2_000_000));
    assert_eq!(pair.get_count(), 2);
    assert_eq!(pair.get_mass(), 3_000_000);
    assert_eq!(pair.get_luminosity(), 1_000_000 + 32_269_899_159);
    assert_eq!(pair.get_habitable_zone(), habitable_zone(1_000_000 + 32_269_899_159));
    assert_eq!(pair.get_frost_line(), frost_line(1_000_000 + 32_269_899_159));
    assert_eq!(pair.get_satellite_bounds(), (300_000, 120_000_000));
}
