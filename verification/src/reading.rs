//! Sensor reading types.
//!
//! Each numeric field is carried as its raw token; a reading's view
//! holds the token character sequences.

use vstd::prelude::*;

verus! {

/// Pressure-sensor reading: temperature, pressure and altitude tokens.
pub struct Ms5611 {
    pub temp: String,
    pub pressure: String,
    pub altitude: String,
}

pub ghost struct Ms5611View {
    pub temp: Seq<char>,
    pub pressure: Seq<char>,
    pub altitude: Seq<char>,
}

impl View for Ms5611 {
    type V = Ms5611View;

    open spec fn view(&self) -> Ms5611View {
        Ms5611View { temp: self.temp@, pressure: self.pressure@, altitude: self.altitude@ }
    }
}

impl Ms5611 {
    /// The all-zero reading.
    pub fn zeroed() -> (r: Ms5611)
        ensures
            r@ == zero_ms5611(),
    {
        Ms5611 {
            temp: String::from_str("0"),
            pressure: String::from_str("0"),
            altitude: String::from_str("0"),
        }
    }
}

pub open spec fn zero_ms5611() -> Ms5611View {
    Ms5611View { temp: "0"@, pressure: "0"@, altitude: "0"@ }
}

/// Inertial-sensor reading: three angular-rate and three
/// linear-acceleration tokens.
pub struct Mpu6050 {
    pub gx: String,
    pub gy: String,
    pub gz: String,
    pub ax: String,
    pub ay: String,
    pub az: String,
}

pub ghost struct Mpu6050View {
    pub gx: Seq<char>,
    pub gy: Seq<char>,
    pub gz: Seq<char>,
    pub ax: Seq<char>,
    pub ay: Seq<char>,
    pub az: Seq<char>,
}

impl View for Mpu6050 {
    type V = Mpu6050View;

    open spec fn view(&self) -> Mpu6050View {
        Mpu6050View {
            gx: self.gx@,
            gy: self.gy@,
            gz: self.gz@,
            ax: self.ax@,
            ay: self.ay@,
            az: self.az@,
        }
    }
}

impl Mpu6050 {
    /// The all-zero reading.
    pub fn zeroed() -> (r: Mpu6050)
        ensures
            r@ == zero_mpu6050(),
    {
        Mpu6050 {
            gx: String::from_str("0"),
            gy: String::from_str("0"),
            gz: String::from_str("0"),
            ax: String::from_str("0"),
            ay: String::from_str("0"),
            az: String::from_str("0"),
        }
    }
}

pub open spec fn zero_mpu6050() -> Mpu6050View {
    Mpu6050View { gx: "0"@, gy: "0"@, gz: "0"@, ax: "0"@, ay: "0"@, az: "0"@ }
}

/// The value of an optional reading, if present.
pub open spec fn opt_view<T: View>(o: Option<T>) -> Option<T::V> {
    match o {
        Some(x) => Some(x@),
        None => None,
    }
}

} // verus!
