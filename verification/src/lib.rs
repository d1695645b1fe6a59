//! Procedural generation of internally consistent fictional astronomical
//! bodies: stars, close binaries, hierarchical star systems, planets, moons
//! and galaxies.
//!
//! Every physical quantity is a fixed-point number: an unsigned integer that
//! counts millionths of its unit (see [`fixed_point::UNIT`]).  Generators take
//! their randomness from a [`random::RandomStream`] and their stellar formulas
//! from a [`oracle::FormulaOracle`]; everything else is computed here and
//! proved against the contracts stated on each function.

pub mod close_binary_star;
pub mod constraint;
pub mod error;
pub mod fixed_point;
pub mod formulas;
pub mod galaxy;
pub mod gas_giant_planet;
pub mod host_star;
pub mod moon;
pub mod oracle;
pub mod planet;
pub mod random;
pub mod spectral_class;
pub mod star;
pub mod star_subsystem;
pub mod star_system;
pub mod stellar_neighborhood;
pub mod terrestrial_planet;

pub use close_binary_star::CloseBinaryStar;
pub use close_binary_star::Constraints as CloseBinaryStarConstraints;
pub use error::AstronomicalError;
pub use error::ErrorKind;
pub use galaxy::Constraints as GalaxyConstraints;
pub use galaxy::Galaxy;
pub use gas_giant_planet::Constraints as GasGiantPlanetConstraints;
pub use gas_giant_planet::GasGiantPlanet;
pub use host_star::Constraints as HostStarConstraints;
pub use host_star::HostStar;
pub use moon::Constraints as MoonConstraints;
pub use moon::Moon;
pub use oracle::FormulaOracle;
pub use oracle::OracleRow;
pub use oracle::StellarProperties;
pub use planet::Constraints as PlanetConstraints;
pub use planet::Planet;
pub use random::RandomStream;
pub use random::ScriptedStream;
pub use random::SeededStream;
pub use spectral_class::SpectralClassType;
pub use star::Constraints as StarConstraints;
pub use star::Star;
pub use star_subsystem::Constraints as StarSubsystemConstraints;
pub use star_subsystem::StarSubsystemType;
pub use star_system::Constraints as StarSystemConstraints;
pub use star_system::StarSystem;
pub use stellar_neighborhood::Constraints as StellarNeighborConstraints;
pub use stellar_neighborhood::StellarNeighbor;
pub use terrestrial_planet::Constraints as TerrestrialPlanetConstraints;
pub use terrestrial_planet::TerrestrialPlanet;
