//! The units of the catalogue.
//!
//! Each unit is a wrapper of the raw integer that names its scale and its
//! symbol. Quantities of a unit are built from an integer that is already
//! scaled, and give it back, through a pair of methods named after the number
//! of fractional digits of the scale.

use crate::FixedPoint;
use crate::Spec;
use vstd::prelude::*;

verus! {

/// Electric potential in tenths of a volt.
#[derive(Clone, Copy, Debug, Default, Eq, PartialEq, Structural, Ord, PartialOrd)]
pub struct Volt(pub i32);

impl Spec for Volt {
    open spec fn spec_scale() -> u32 {
        10
    }

    open spec fn spec_symbol() -> Seq<char> {
        "V"@
    }

    open spec fn spec_precision() -> Option<u32> {
        None
    }

    open spec fn spec_to_fixed(self) -> i32 {
        self.0
    }

    open spec fn spec_from_fixed(fixed: i32) -> Self {
        Volt(fixed)
    }

    fn scale() -> (factor: u32) {
        10
    }

    fn symbol() -> (suffix: &'static str) {
        "V"
    }

    fn precision() -> (digits: Option<u32>) {
        None
    }

    fn to_fixed(self) -> (fixed: i32) {
        self.0
    }

    fn from_fixed(fixed: i32) -> (unit: Self) {
        Volt(fixed)
    }

    proof fn lemma_scale_positive() {
    }

    proof fn lemma_from_to_fixed(unit: Self) {
    }

    proof fn lemma_to_from_fixed(fixed: i32) {
    }
}

/// Electric potential in thousandths of a volt.
#[derive(Clone, Copy, Debug, Default, Eq, PartialEq, Structural, Ord, PartialOrd)]
pub struct PreciseVolt(pub i32);

impl Spec for PreciseVolt {
    open spec fn spec_scale() -> u32 {
        1000
    }

    open spec fn spec_symbol() -> Seq<char> {
        "V"@
    }

    open spec fn spec_precision() -> Option<u32> {
        None
    }

    open spec fn spec_to_fixed(self) -> i32 {
        self.0
    }

    open spec fn spec_from_fixed(fixed: i32) -> Self {
        PreciseVolt(fixed)
    }

    fn scale() -> (factor: u32) {
        1000
    }

    fn symbol() -> (suffix: &'static str) {
        "V"
    }

    fn precision() -> (digits: Option<u32>) {
        None
    }

    fn to_fixed(self) -> (fixed: i32) {
        self.0
    }

    fn from_fixed(fixed: i32) -> (unit: Self) {
        PreciseVolt(fixed)
    }

    proof fn lemma_scale_positive() {
    }

    proof fn lemma_from_to_fixed(unit: Self) {
    }

    proof fn lemma_to_from_fixed(fixed: i32) {
    }
}

/// Electric current in tenths of an ampere.
#[derive(Clone, Copy, Debug, Default, Eq, PartialEq, Structural, Ord, PartialOrd)]
pub struct Amp(pub i32);

impl Spec for Amp {
    open spec fn spec_scale() -> u32 {
        10
    }

    open spec fn spec_symbol() -> Seq<char> {
        "A"@
    }

    open spec fn spec_precision() -> Option<u32> {
        None
    }

    open spec fn spec_to_fixed(self) -> i32 {
        self.0
    }

    open spec fn spec_from_fixed(fixed: i32) -> Self {
        Amp(fixed)
    }

    fn scale() -> (factor: u32) {
        10
    }

    fn symbol() -> (suffix: &'static str) {
        "A"
    }

    fn precision() -> (digits: Option<u32>) {
        None
    }

    fn to_fixed(self) -> (fixed: i32) {
        self.0
    }

    fn from_fixed(fixed: i32) -> (unit: Self) {
        Amp(fixed)
    }

    proof fn lemma_scale_positive() {
    }

    proof fn lemma_from_to_fixed(unit: Self) {
    }

    proof fn lemma_to_from_fixed(fixed: i32) {
    }
}

/// Power in whole watts.
#[derive(Clone, Copy, Debug, Default, Eq, PartialEq, Structural, Ord, PartialOrd)]
pub struct Watt(pub i32);

impl Spec for Watt {
    open spec fn spec_scale() -> u32 {
        1
    }

    open spec fn spec_symbol() -> Seq<char> {
        "W"@
    }

    open spec fn spec_precision() -> Option<u32> {
        None
    }

    open spec fn spec_to_fixed(self) -> i32 {
        self.0
    }

    open spec fn spec_from_fixed(fixed: i32) -> Self {
        Watt(fixed)
    }

    fn scale() -> (factor: u32) {
        1
    }

    fn symbol() -> (suffix: &'static str) {
        "W"
    }

    fn precision() -> (digits: Option<u32>) {
        None
    }

    fn to_fixed(self) -> (fixed: i32) {
        self.0
    }

    fn from_fixed(fixed: i32) -> (unit: Self) {
        Watt(fixed)
    }

    proof fn lemma_scale_positive() {
    }

    proof fn lemma_from_to_fixed(unit: Self) {
    }

    proof fn lemma_to_from_fixed(fixed: i32) {
    }
}

/// Power in tenths of a kilowatt.
#[derive(Clone, Copy, Debug, Default, Eq, PartialEq, Structural, Ord, PartialOrd)]
pub struct KiloWatt(pub i32);

impl Spec for KiloWatt {
    open spec fn spec_scale() -> u32 {
        10
    }

    open spec fn spec_symbol() -> Seq<char> {
        "kW"@
    }

    open spec fn spec_precision() -> Option<u32> {
        None
    }

    open spec fn spec_to_fixed(self) -> i32 {
        self.0
    }

    open spec fn spec_from_fixed(fixed: i32) -> Self {
        KiloWatt(fixed)
    }

    fn scale() -> (factor: u32) {
        10
    }

    fn symbol() -> (suffix: &'static str) {
        "kW"
    }

    fn precision() -> (digits: Option<u32>) {
        None
    }

    fn to_fixed(self) -> (fixed: i32) {
        self.0
    }

    fn from_fixed(fixed: i32) -> (unit: Self) {
        KiloWatt(fixed)
    }

    proof fn lemma_scale_positive() {
    }

    proof fn lemma_from_to_fixed(unit: Self) {
    }

    proof fn lemma_to_from_fixed(fixed: i32) {
    }
}

/// Energy in hundredths of a kilowatt hour.
#[derive(Clone, Copy, Debug, Default, Eq, PartialEq, Structural, Ord, PartialOrd)]
pub struct KiloWattHour(pub i32);

impl Spec for KiloWattHour {
    open spec fn spec_scale() -> u32 {
        100
    }

    open spec fn spec_symbol() -> Seq<char> {
        "kWh"@
    }

    open spec fn spec_precision() -> Option<u32> {
        None
    }

    open spec fn spec_to_fixed(self) -> i32 {
        self.0
    }

    open spec fn spec_from_fixed(fixed: i32) -> Self {
        KiloWattHour(fixed)
    }

    fn scale() -> (factor: u32) {
        100
    }

    fn symbol() -> (suffix: &'static str) {
        "kWh"
    }

    fn precision() -> (digits: Option<u32>) {
        None
    }

    fn to_fixed(self) -> (fixed: i32) {
        self.0
    }

    fn from_fixed(fixed: i32) -> (unit: Self) {
        KiloWattHour(fixed)
    }

    proof fn lemma_scale_positive() {
    }

    proof fn lemma_from_to_fixed(unit: Self) {
    }

    proof fn lemma_to_from_fixed(fixed: i32) {
    }
}

/// Resistance in thousandths, always written with three fractional digits.
#[derive(Clone, Copy, Debug, Default, Eq, PartialEq, Structural, Ord, PartialOrd)]
pub struct CentiOhm(pub i32);

impl Spec for CentiOhm {
    open spec fn spec_scale() -> u32 {
        1000
    }

    open spec fn spec_symbol() -> Seq<char> {
        "cΩ"@
    }

    open spec fn spec_precision() -> Option<u32> {
        Some(3u32)
    }

    open spec fn spec_to_fixed(self) -> i32 {
        self.0
    }

    open spec fn spec_from_fixed(fixed: i32) -> Self {
        CentiOhm(fixed)
    }

    fn scale() -> (factor: u32) {
        1000
    }

    fn symbol() -> (suffix: &'static str) {
        "cΩ"
    }

    fn precision() -> (digits: Option<u32>) {
        Some(3)
    }

    fn to_fixed(self) -> (fixed: i32) {
        self.0
    }

    fn from_fixed(fixed: i32) -> (unit: Self) {
        CentiOhm(fixed)
    }

    proof fn lemma_scale_positive() {
    }

    proof fn lemma_from_to_fixed(unit: Self) {
    }

    proof fn lemma_to_from_fixed(fixed: i32) {
    }
}

/// Temperature in hundredths of a degree Celsius.
#[derive(Clone, Copy, Debug, Default, Eq, PartialEq, Structural, Ord, PartialOrd)]
pub struct Celsius(pub i32);

impl Spec for Celsius {
    open spec fn spec_scale() -> u32 {
        100
    }

    open spec fn spec_symbol() -> Seq<char> {
        "C"@
    }

    open spec fn spec_precision() -> Option<u32> {
        None
    }

    open spec fn spec_to_fixed(self) -> i32 {
        self.0
    }

    open spec fn spec_from_fixed(fixed: i32) -> Self {
        Celsius(fixed)
    }

    fn scale() -> (factor: u32) {
        100
    }

    fn symbol() -> (suffix: &'static str) {
        "C"
    }

    fn precision() -> (digits: Option<u32>) {
        None
    }

    fn to_fixed(self) -> (fixed: i32) {
        self.0
    }

    fn from_fixed(fixed: i32) -> (unit: Self) {
        Celsius(fixed)
    }

    proof fn lemma_scale_positive() {
    }

    proof fn lemma_from_to_fixed(unit: Self) {
    }

    proof fn lemma_to_from_fixed(fixed: i32) {
    }
}

impl FixedPoint<Amp> {
    /// The quantity of `value` tenths of an ampere.
    pub fn with_fix1(value: i32) -> (quantity: Self)
        ensures
            quantity == Self::of(value),
            quantity@ == value,
    {
        Self::from_raw(value)
    }

    /// The quantity in tenths of an ampere.
    pub fn fix1(self) -> (value: i32)
        ensures
            value == self@,
    {
        self.to_raw()
    }
}

impl FixedPoint<Volt> {
    /// The quantity of `value` tenths of a volt.
    pub fn with_fix1(value: i32) -> (quantity: Self)
        ensures
            quantity == Self::of(value),
            quantity@ == value,
    {
        Self::from_raw(value)
    }

    /// The quantity in tenths of a volt.
    pub fn fix1(self) -> (value: i32)
        ensures
            value == self@,
    {
        self.to_raw()
    }
}

impl FixedPoint<PreciseVolt> {
    /// The quantity of `value` thousandths of a volt.
    pub fn with_fix3(value: i32) -> (quantity: Self)
        ensures
            quantity == Self::of(value),
            quantity@ == value,
    {
        Self::from_raw(value)
    }

    /// The quantity in thousandths of a volt.
    pub fn fix3(self) -> (value: i32)
        ensures
            value == self@,
    {
        self.to_raw()
    }
}

impl FixedPoint<Watt> {
    /// The quantity of `value` whole watts.
    pub fn with_fix0(value: i32) -> (quantity: Self)
        ensures
            quantity == Self::of(value),
            quantity@ == value,
    {
        Self::from_raw(value)
    }

    /// The quantity in whole watts.
    pub fn fix0(self) -> (value: i32)
        ensures
            value == self@,
    {
        self.to_raw()
    }
}

impl FixedPoint<KiloWatt> {
    /// The quantity of `value` tenths of a kilowatt.
    pub fn with_fix1(value: i32) -> (quantity: Self)
        ensures
            quantity == Self::of(value),
            quantity@ == value,
    {
        Self::from_raw(value)
    }

    /// The quantity in tenths of a kilowatt.
    pub fn fix1(self) -> (value: i32)
        ensures
            value == self@,
    {
        self.to_raw()
    }
}

impl FixedPoint<KiloWattHour> {
    /// The quantity of `value` hundredths of a kilowatt hour.
    pub fn with_fix2(value: i32) -> (quantity: Self)
        ensures
            quantity == Self::of(value),
            quantity@ == value,
    {
        Self::from_raw(value)
    }

    /// The quantity in hundredths of a kilowatt hour.
    pub fn fix2(self) -> (value: i32)
        ensures
            value == self@,
    {
        self.to_raw()
    }
}

impl FixedPoint<Celsius> {
    /// The quantity of `value` hundredths of a degree.
    pub fn with_fix2(value: i32) -> (quantity: Self)
        ensures
            quantity == Self::of(value),
            quantity@ == value,
    {
        Self::from_raw(value)
    }

    /// The quantity in hundredths of a degree.
    pub fn fix2(self) -> (value: i32)
        ensures
            value == self@,
    {
        self.to_raw()
    }
}

} // verus!
