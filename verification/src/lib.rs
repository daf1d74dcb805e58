//! A dimensional-analysis algebra over exact rational magnitudes.
//!
//! Physical quantities (length, mass, time, angle, temperature, force,
//! pressure, and the kinds composed from them) carry their unit as a
//! zero-sized type parameter; conversion between units of one family,
//! arithmetic, and the cross-family composition table are all exact and
//! verified. Where a computation's dimension cannot be tracked by the
//! static types, values lower into [`DynamicUnits`], a runtime signature
//! of unit-identity multisets that is checked against a concrete target
//! dimension before the magnitude is accepted back.
//!
//! Magnitudes are exact rationals ([`Rat`]); a value that leaves the
//! representable range becomes the single non-finite magnitude, which
//! propagates through arithmetic and sorts after every finite value.
//! Radians are the one unit outside the exact algebra: their ratio to the
//! other angle units is irrational, so radian values take part in the
//! dynamic signature engine by identity only, where they cancel as
//! dimensionless.

pub mod angle;
pub mod angular;
pub mod bag;
pub mod dynamic;
pub mod force;
pub mod laws;
pub mod length;
pub mod mass;
pub mod pressure;
pub mod rational;
pub mod scalar;
pub mod temperature;
pub mod time;
pub mod units;
pub mod velocity;

pub use angle::Angle;
pub use angular::{AngularAcceleration, AngularVelocity};
pub use dynamic::DynamicUnits;
pub use force::{Force, Torque};
pub use length::{Area, Length, Volume};
pub use mass::{Density, Mass, MassRate, RotationalInertia};
pub use pressure::Pressure;
pub use rational::Rat;
pub use scalar::Scalar;
pub use temperature::Temperature;
pub use time::Time;
pub use velocity::{Acceleration, Velocity, VelocitySquared};
