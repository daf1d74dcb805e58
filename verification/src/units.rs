use vstd::prelude::*;
use crate::rational::Rat;

verus! {

/// Runtime identity of a unit tag, used by the dynamic signature engine.
/// Tags themselves are zero-sized compile-time markers; this enum is what
/// they erase to when a computation leaves the statically typed algebra.
#[derive(Clone, Copy, Debug, PartialEq, Eq, Structural, Hash)]
pub enum UnitId {
    Meters,
    Feet,
    Kilometers,
    Miles,
    NauticalMiles,
    AstronomicalUnits,
    Seconds,
    Hours,
    Kilograms,
    PoundsMass,
    Slugs,
    Radians,
    Degrees,
    ArcMinutes,
    ArcSeconds,
    Kelvin,
    Celsius,
    Fahrenheit,
    Rankine,
    Newtons,
    PoundsForce,
    Pascals,
    PoundsSquareFoot,
}

/// Implemented by every unit tag: a runtime identity plus display names.
pub trait Unit: Sized {
    spec fn spec_id() -> UnitId;

    fn id() -> (r: UnitId)
        ensures
            r == Self::spec_id(),
    ;

    fn unit_name() -> &'static str;

    fn unit_symbol() -> &'static str;
}

/// A unit of length declares how many meters one of it is, as an exact
/// positive rational.
pub trait LengthUnit: Unit {
    spec fn spec_ratio() -> Rat;

    proof fn ratio_props()
        ensures
            Self::spec_ratio().wf(),
            Self::spec_ratio().num > 0,
    ;

    fn ratio() -> (r: Rat)
        ensures
            r == Self::spec_ratio(),
    ;
}

/// A unit of time declares how many seconds one of it is.
pub trait TimeUnit: Unit {
    spec fn spec_ratio() -> Rat;

    proof fn ratio_props()
        ensures
            Self::spec_ratio().wf(),
            Self::spec_ratio().num > 0,
    ;

    fn ratio() -> (r: Rat)
        ensures
            r == Self::spec_ratio(),
    ;
}

/// A unit of mass declares how many grams one of it is.
pub trait MassUnit: Unit {
    spec fn spec_ratio() -> Rat;

    proof fn ratio_props()
        ensures
            Self::spec_ratio().wf(),
            Self::spec_ratio().num > 0,
    ;

    fn ratio() -> (r: Rat)
        ensures
            r == Self::spec_ratio(),
    ;
}

/// A unit of angle declares how many degrees one of it is. Radians do not
/// belong to this family: their ratio to a degree is irrational, so exact
/// conversion is impossible; radian values enter the dynamic signature
/// engine by identity only.
pub trait AngleUnit: Unit {
    spec fn spec_ratio() -> Rat;

    proof fn ratio_props()
        ensures
            Self::spec_ratio().wf(),
            Self::spec_ratio().num > 0,
    ;

    fn ratio() -> (r: Rat)
        ensures
            r == Self::spec_ratio(),
    ;
}

/// A unit of force declares how many newtons one of it is, and the mass,
/// length and time units it is dimensionally defined from.
pub trait ForceUnit: Unit {
    type UnitMass: MassUnit;

    type UnitLength: LengthUnit;

    type UnitTime: TimeUnit;

    spec fn spec_ratio() -> Rat;

    proof fn ratio_props()
        ensures
            Self::spec_ratio().wf(),
            Self::spec_ratio().num > 0,
    ;

    fn ratio() -> (r: Rat)
        ensures
            r == Self::spec_ratio(),
    ;
}

/// A unit of pressure declares how many pascals one of it is.
pub trait PressureUnit: Unit {
    spec fn spec_ratio() -> Rat;

    proof fn ratio_props()
        ensures
            Self::spec_ratio().wf(),
            Self::spec_ratio().num > 0,
    ;

    fn ratio() -> (r: Rat)
        ensures
            r == Self::spec_ratio(),
    ;
}

/// A unit of temperature declares the affine map onto kelvin: a value `x`
/// of the unit is `x * scale + offset` kelvin, with a positive scale.
pub trait TemperatureUnit: Unit {
    spec fn spec_scale() -> Rat;

    spec fn spec_offset() -> Rat;

    proof fn scale_props()
        ensures
            Self::spec_scale().wf(),
            Self::spec_scale().num > 0,
            Self::spec_offset().wf(),
    ;

    fn scale() -> (r: Rat)
        ensures
            r == Self::spec_scale(),
    ;

    fn offset() -> (r: Rat)
        ensures
            r == Self::spec_offset(),
    ;
}

#[derive(Clone, Copy, Debug, Default, PartialEq, Eq, Structural)]
pub struct Meters;

impl Unit for Meters {
    open spec fn spec_id() -> UnitId {
        UnitId::Meters
    }

    fn id() -> UnitId {
        UnitId::Meters
    }

    fn unit_name() -> &'static str {
        "meters"
    }

    fn unit_symbol() -> &'static str {
        "m"
    }
}

impl LengthUnit for Meters {
    open spec fn spec_ratio() -> Rat {
        Rat { num: 1, den: 1 }
    }

    proof fn ratio_props() {
    }

    fn ratio() -> Rat {
        Rat { num: 1, den: 1 }
    }
}

#[derive(Clone, Copy, Debug, Default, PartialEq, Eq, Structural)]
pub struct Feet;

impl Unit for Feet {
    open spec fn spec_id() -> UnitId {
        UnitId::Feet
    }

    fn id() -> UnitId {
        UnitId::Feet
    }

    fn unit_name() -> &'static str {
        "feet"
    }

    fn unit_symbol() -> &'static str {
        "ft"
    }
}

impl LengthUnit for Feet {
    open spec fn spec_ratio() -> Rat {
        Rat { num: 381, den: 1250 }
    }

    proof fn ratio_props() {
    }

    fn ratio() -> Rat {
        Rat { num: 381, den: 1250 }
    }
}

#[derive(Clone, Copy, Debug, Default, PartialEq, Eq, Structural)]
pub struct Kilometers;

impl Unit for Kilometers {
    open spec fn spec_id() -> UnitId {
        UnitId::Kilometers
    }

    fn id() -> UnitId {
        UnitId::Kilometers
    }

    fn unit_name() -> &'static str {
        "kilometers"
    }

    fn unit_symbol() -> &'static str {
        "km"
    }
}

impl LengthUnit for Kilometers {
    open spec fn spec_ratio() -> Rat {
        Rat { num: 1000, den: 1 }
    }

    proof fn ratio_props() {
    }

    fn ratio() -> Rat {
        Rat { num: 1000, den: 1 }
    }
}

#[derive(Clone, Copy, Debug, Default, PartialEq, Eq, Structural)]
pub struct Miles;

impl Unit for Miles {
    open spec fn spec_id() -> UnitId {
        UnitId::Miles
    }

    fn id() -> UnitId {
        UnitId::Miles
    }

    fn unit_name() -> &'static str {
        "miles"
    }

    fn unit_symbol() -> &'static str {
        "miles"
    }
}

impl LengthUnit for Miles {
    open spec fn spec_ratio() -> Rat {
        Rat { num: 80467, den: 50 }
    }

    proof fn ratio_props() {
    }

    fn ratio() -> Rat {
        Rat { num: 80467, den: 50 }
    }
}

#[derive(Clone, Copy, Debug, Default, PartialEq, Eq, Structural)]
pub struct NauticalMiles;

impl Unit for NauticalMiles {
    open spec fn spec_id() -> UnitId {
        UnitId::NauticalMiles
    }

    fn id() -> UnitId {
        UnitId::NauticalMiles
    }

    fn unit_name() -> &'static str {
        "nautical miles"
    }

    fn unit_symbol() -> &'static str {
        "nm"
    }
}

impl LengthUnit for NauticalMiles {
    open spec fn spec_ratio() -> Rat {
        Rat { num: 1852, den: 1 }
    }

    proof fn ratio_props() {
    }

    fn ratio() -> Rat {
        Rat { num: 1852, den: 1 }
    }
}

#[derive(Clone, Copy, Debug, Default, PartialEq, Eq, Structural)]
pub struct AstronomicalUnits;

impl Unit for AstronomicalUnits {
    open spec fn spec_id() -> UnitId {
        UnitId::AstronomicalUnits
    }

    fn id() -> UnitId {
        UnitId::AstronomicalUnits
    }

    fn unit_name() -> &'static str {
        "astronomical unit"
    }

    fn unit_symbol() -> &'static str {
        "AU"
    }
}

impl LengthUnit for AstronomicalUnits {
    open spec fn spec_ratio() -> Rat {
        Rat { num: 149597870700, den: 1 }
    }

    proof fn ratio_props() {
    }

    fn ratio() -> Rat {
        Rat { num: 149597870700, den: 1 }
    }
}

#[derive(Clone, Copy, Debug, Default, PartialEq, Eq, Structural)]
pub struct Seconds;

impl Unit for Seconds {
    open spec fn spec_id() -> UnitId {
        UnitId::Seconds
    }

    fn id() -> UnitId {
        UnitId::Seconds
    }

    fn unit_name() -> &'static str {
        "seconds"
    }

    fn unit_symbol() -> &'static str {
        "s"
    }
}

impl TimeUnit for Seconds {
    open spec fn spec_ratio() -> Rat {
        Rat { num: 1, den: 1 }
    }

    proof fn ratio_props() {
    }

    fn ratio() -> Rat {
        Rat { num: 1, den: 1 }
    }
}

#[derive(Clone, Copy, Debug, Default, PartialEq, Eq, Structural)]
pub struct Hours;

impl Unit for Hours {
    open spec fn spec_id() -> UnitId {
        UnitId::Hours
    }

    fn id() -> UnitId {
        UnitId::Hours
    }

    fn unit_name() -> &'static str {
        "hours"
    }

    fn unit_symbol() -> &'static str {
        "h"
    }
}

impl TimeUnit for Hours {
    open spec fn spec_ratio() -> Rat {
        Rat { num: 3600, den: 1 }
    }

    proof fn ratio_props() {
    }

    fn ratio() -> Rat {
        Rat { num: 3600, den: 1 }
    }
}

#[derive(Clone, Copy, Debug, Default, PartialEq, Eq, Structural)]
pub struct Kilograms;

impl Unit for Kilograms {
    open spec fn spec_id() -> UnitId {
        UnitId::Kilograms
    }

    fn id() -> UnitId {
        UnitId::Kilograms
    }

    fn unit_name() -> &'static str {
        "kilograms"
    }

    fn unit_symbol() -> &'static str {
        "kg"
    }
}

impl MassUnit for Kilograms {
    open spec fn spec_ratio() -> Rat {
        Rat { num: 1000, den: 1 }
    }

    proof fn ratio_props() {
    }

    fn ratio() -> Rat {
        Rat { num: 1000, den: 1 }
    }
}

#[derive(Clone, Copy, Debug, Default, PartialEq, Eq, Structural)]
pub struct PoundsMass;

impl Unit for PoundsMass {
    open spec fn spec_id() -> UnitId {
        UnitId::PoundsMass
    }

    fn id() -> UnitId {
        UnitId::PoundsMass
    }

    fn unit_name() -> &'static str {
        "pounds"
    }

    fn unit_symbol() -> &'static str {
        "lb"
    }
}

impl MassUnit for PoundsMass {
    open spec fn spec_ratio() -> Rat {
        Rat { num: 45359237, den: 100000 }
    }

    proof fn ratio_props() {
    }

    fn ratio() -> Rat {
        Rat { num: 45359237, den: 100000 }
    }
}

#[derive(Clone, Copy, Debug, Default, PartialEq, Eq, Structural)]
pub struct Slugs;

impl Unit for Slugs {
    open spec fn spec_id() -> UnitId {
        UnitId::Slugs
    }

    fn id() -> UnitId {
        UnitId::Slugs
    }

    fn unit_name() -> &'static str {
        "slugs"
    }

    fn unit_symbol() -> &'static str {
        "slug"
    }
}

impl MassUnit for Slugs {
    open spec fn spec_ratio() -> Rat {
        Rat { num: 145939, den: 10 }
    }

    proof fn ratio_props() {
    }

    fn ratio() -> Rat {
        Rat { num: 145939, den: 10 }
    }
}

#[derive(Clone, Copy, Debug, Default, PartialEq, Eq, Structural)]
pub struct Radians;

impl Unit for Radians {
    open spec fn spec_id() -> UnitId {
        UnitId::Radians
    }

    fn id() -> UnitId {
        UnitId::Radians
    }

    fn unit_name() -> &'static str {
        "radians"
    }

    fn unit_symbol() -> &'static str {
        "rad"
    }
}

#[derive(Clone, Copy, Debug, Default, PartialEq, Eq, Structural)]
pub struct Degrees;

impl Unit for Degrees {
    open spec fn spec_id() -> UnitId {
        UnitId::Degrees
    }

    fn id() -> UnitId {
        UnitId::Degrees
    }

    fn unit_name() -> &'static str {
        "degrees"
    }

    fn unit_symbol() -> &'static str {
        "deg"
    }
}

impl AngleUnit for Degrees {
    open spec fn spec_ratio() -> Rat {
        Rat { num: 1, den: 1 }
    }

    proof fn ratio_props() {
    }

    fn ratio() -> Rat {
        Rat { num: 1, den: 1 }
    }
}

#[derive(Clone, Copy, Debug, Default, PartialEq, Eq, Structural)]
pub struct ArcMinutes;

impl Unit for ArcMinutes {
    open spec fn spec_id() -> UnitId {
        UnitId::ArcMinutes
    }

    fn id() -> UnitId {
        UnitId::ArcMinutes
    }

    fn unit_name() -> &'static str {
        "arcminutes"
    }

    fn unit_symbol() -> &'static str {
        "arcmin"
    }
}

impl AngleUnit for ArcMinutes {
    open spec fn spec_ratio() -> Rat {
        Rat { num: 1, den: 60 }
    }

    proof fn ratio_props() {
    }

    fn ratio() -> Rat {
        Rat { num: 1, den: 60 }
    }
}

#[derive(Clone, Copy, Debug, Default, PartialEq, Eq, Structural)]
pub struct ArcSeconds;

impl Unit for ArcSeconds {
    open spec fn spec_id() -> UnitId {
        UnitId::ArcSeconds
    }

    fn id() -> UnitId {
        UnitId::ArcSeconds
    }

    fn unit_name() -> &'static str {
        "arcseconds"
    }

    fn unit_symbol() -> &'static str {
        "arcsec"
    }
}

impl AngleUnit for ArcSeconds {
    open spec fn spec_ratio() -> Rat {
        Rat { num: 1, den: 3600 }
    }

    proof fn ratio_props() {
    }

    fn ratio() -> Rat {
        Rat { num: 1, den: 3600 }
    }
}

#[derive(Clone, Copy, Debug, Default, PartialEq, Eq, Structural)]
pub struct Kelvin;

impl Unit for Kelvin {
    open spec fn spec_id() -> UnitId {
        UnitId::Kelvin
    }

    fn id() -> UnitId {
        UnitId::Kelvin
    }

    fn unit_name() -> &'static str {
        "kelvin"
    }

    fn unit_symbol() -> &'static str {
        "K"
    }
}

impl TemperatureUnit for Kelvin {
    open spec fn spec_scale() -> Rat {
        Rat { num: 1, den: 1 }
    }

    open spec fn spec_offset() -> Rat {
        Rat { num: 0, den: 1 }
    }

    proof fn scale_props() {
    }

    fn scale() -> Rat {
        Rat { num: 1, den: 1 }
    }

    fn offset() -> Rat {
        Rat { num: 0, den: 1 }
    }
}

#[derive(Clone, Copy, Debug, Default, PartialEq, Eq, Structural)]
pub struct Celsius;

impl Unit for Celsius {
    open spec fn spec_id() -> UnitId {
        UnitId::Celsius
    }

    fn id() -> UnitId {
        UnitId::Celsius
    }

    fn unit_name() -> &'static str {
        "celsius"
    }

    fn unit_symbol() -> &'static str {
        "C"
    }
}

impl TemperatureUnit for Celsius {
    open spec fn spec_scale() -> Rat {
        Rat { num: 1, den: 1 }
    }

    open spec fn spec_offset() -> Rat {
        Rat { num: 5463, den: 20 }
    }

    proof fn scale_props() {
    }

    fn scale() -> Rat {
        Rat { num: 1, den: 1 }
    }

    fn offset() -> Rat {
        Rat { num: 5463, den: 20 }
    }
}

#[derive(Clone, Copy, Debug, Default, PartialEq, Eq, Structural)]
pub struct Fahrenheit;

impl Unit for Fahrenheit {
    open spec fn spec_id() -> UnitId {
        UnitId::Fahrenheit
    }

    fn id() -> UnitId {
        UnitId::Fahrenheit
    }

    fn unit_name() -> &'static str {
        "fahrenheit"
    }

    fn unit_symbol() -> &'static str {
        "F"
    }
}

impl TemperatureUnit for Fahrenheit {
    open spec fn spec_scale() -> Rat {
        Rat { num: 5, den: 9 }
    }

    open spec fn spec_offset() -> Rat {
        Rat { num: 45967, den: 180 }
    }

    proof fn scale_props() {
    }

    fn scale() -> Rat {
        Rat { num: 5, den: 9 }
    }

    fn offset() -> Rat {
        Rat { num: 45967, den: 180 }
    }
}

#[derive(Clone, Copy, Debug, Default, PartialEq, Eq, Structural)]
pub struct Rankine;

impl Unit for Rankine {
    open spec fn spec_id() -> UnitId {
        UnitId::Rankine
    }

    fn id() -> UnitId {
        UnitId::Rankine
    }

    fn unit_name() -> &'static str {
        "rankine"
    }

    fn unit_symbol() -> &'static str {
        "R"
    }
}

impl TemperatureUnit for Rankine {
    open spec fn spec_scale() -> Rat {
        Rat { num: 5, den: 9 }
    }

    open spec fn spec_offset() -> Rat {
        Rat { num: 0, den: 1 }
    }

    proof fn scale_props() {
    }

    fn scale() -> Rat {
        Rat { num: 5, den: 9 }
    }

    fn offset() -> Rat {
        Rat { num: 0, den: 1 }
    }
}

#[derive(Clone, Copy, Debug, Default, PartialEq, Eq, Structural)]
pub struct Newtons;

impl Unit for Newtons {
    open spec fn spec_id() -> UnitId {
        UnitId::Newtons
    }

    fn id() -> UnitId {
        UnitId::Newtons
    }

    fn unit_name() -> &'static str {
        "newtons"
    }

    fn unit_symbol() -> &'static str {
        "N"
    }
}

impl ForceUnit for Newtons {
    type UnitMass = Kilograms;

    type UnitLength = Meters;

    type UnitTime = Seconds;

    open spec fn spec_ratio() -> Rat {
        Rat { num: 1, den: 1 }
    }

    proof fn ratio_props() {
    }

    fn ratio() -> Rat {
        Rat { num: 1, den: 1 }
    }
}

#[derive(Clone, Copy, Debug, Default, PartialEq, Eq, Structural)]
pub struct PoundsForce;

impl Unit for PoundsForce {
    open spec fn spec_id() -> UnitId {
        UnitId::PoundsForce
    }

    fn id() -> UnitId {
        UnitId::PoundsForce
    }

    fn unit_name() -> &'static str {
        "pounds(force)"
    }

    fn unit_symbol() -> &'static str {
        "lbf"
    }
}

impl ForceUnit for PoundsForce {
    type UnitMass = PoundsMass;

    type UnitLength = Feet;

    type UnitTime = Seconds;

    open spec fn spec_ratio() -> Rat {
        Rat { num: 1000000, den: 224809 }
    }

    proof fn ratio_props() {
    }

    fn ratio() -> Rat {
        Rat { num: 1000000, den: 224809 }
    }
}

#[derive(Clone, Copy, Debug, Default, PartialEq, Eq, Structural)]
pub struct Pascals;

impl Unit for Pascals {
    open spec fn spec_id() -> UnitId {
        UnitId::Pascals
    }

    fn id() -> UnitId {
        UnitId::Pascals
    }

    fn unit_name() -> &'static str {
        "pascals"
    }

    fn unit_symbol() -> &'static str {
        "Pa"
    }
}

impl PressureUnit for Pascals {
    open spec fn spec_ratio() -> Rat {
        Rat { num: 1, den: 1 }
    }

    proof fn ratio_props() {
    }

    fn ratio() -> Rat {
        Rat { num: 1, den: 1 }
    }
}

#[derive(Clone, Copy, Debug, Default, PartialEq, Eq, Structural)]
pub struct PoundsSquareFoot;

impl Unit for PoundsSquareFoot {
    open spec fn spec_id() -> UnitId {
        UnitId::PoundsSquareFoot
    }

    fn id() -> UnitId {
        UnitId::PoundsSquareFoot
    }

    fn unit_name() -> &'static str {
        "pounds per square foot"
    }

    fn unit_symbol() -> &'static str {
        "lb/ft^2"
    }
}

impl PressureUnit for PoundsSquareFoot {
    open spec fn spec_ratio() -> Rat {
        Rat { num: 1197, den: 25 }
    }

    proof fn ratio_props() {
    }

    fn ratio() -> Rat {
        Rat { num: 1197, den: 25 }
    }
}

} // verus!
