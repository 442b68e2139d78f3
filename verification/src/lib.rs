//! Fixed-point decimal quantities for small machines.
//!
//! A [`FixedPoint`] holds a physical quantity as one 32-bit integer: the value
//! multiplied by the scale of its unit and cut off towards zero. The unit is a
//! type parameter, so two quantities of different units never mix, and the
//! scale is never stored. Sums and differences saturate, ordering and equality
//! are those of the raw integers, and the decimal text is computed digit by
//! digit from the raw integer.
//!
//! Everything in this crate is integer arithmetic. Conversions to and from
//! floating point are left to the caller, who reads and writes raw values
//! through [`FixedPoint::to_raw`] and [`FixedPoint::from_raw`].

use vstd::prelude::*;
use vstd::string::StringExecFns;

pub mod arith;
pub mod decimal;
pub mod order;
pub mod phases;
pub mod unit;

verus! {

/// What a unit says about quantities measured in it.
///
/// A unit is a wrapper of the raw integer. It names its scale and its symbol,
/// may declare a number of fractional digits, and converts to and from the raw
/// integer without loss.
pub trait Spec: Copy {
    /// The factor between a quantity and its raw integer.
    spec fn spec_scale() -> u32;

    /// The suffix that names the unit.
    spec fn spec_symbol() -> Seq<char>;

    /// The number of fractional digits that the unit declares, if it declares
    /// one.
    spec fn spec_precision() -> Option<u32>;

    /// The raw integer inside a unit value.
    spec fn spec_to_fixed(self) -> i32;

    /// The unit value that holds a raw integer.
    spec fn spec_from_fixed(fixed: i32) -> Self;

    /// The factor between a quantity and its raw integer.
    fn scale() -> (factor: u32)
        ensures
            factor == Self::spec_scale(),
    ;

    /// The suffix that names the unit.
    fn symbol() -> (suffix: &'static str)
        ensures
            suffix@ == Self::spec_symbol(),
    ;

    /// The number of fractional digits that the unit declares, if it declares
    /// one. A unit that declares none is written with as many digits as its
    /// scale has room for, less the zeros at the end.
    fn precision() -> (digits: Option<u32>)
        ensures
            digits == Self::spec_precision(),
    ;

    /// The raw integer inside a unit value.
    fn to_fixed(self) -> (fixed: i32)
        ensures
            fixed == self.spec_to_fixed(),
    ;

    /// The unit value that holds a raw integer.
    fn from_fixed(fixed: i32) -> (unit: Self)
        ensures
            unit == Self::spec_from_fixed(fixed),
    ;

    /// The scale is not zero.
    proof fn lemma_scale_positive()
        ensures
            Self::spec_scale() > 0,
    ;

    /// Reading the raw integer of a unit value and wrapping it again gives the
    /// same unit value.
    proof fn lemma_from_to_fixed(unit: Self)
        ensures
            Self::spec_from_fixed(unit.spec_to_fixed()) == unit,
    ;

    /// Wrapping a raw integer and reading it again gives the same integer.
    proof fn lemma_to_from_fixed(fixed: i32)
        ensures
            Self::spec_from_fixed(fixed).spec_to_fixed() == fixed,
    ;
}

/// A quantity in the unit `R`, held as a scaled integer.
#[derive(Copy, Debug, Eq, Ord)]
pub struct FixedPoint<R: Spec>(R);

/// The text that names a quantity for a developer: the raw integer, a slash,
/// the scale, a space and the symbol of the unit.
pub open spec fn debug_rendering(raw: int, scale: nat, symbol: Seq<char>) -> Seq<char> {
    decimal::signed(raw) + seq!['/'] + decimal::numeral(scale) + seq![' '] + symbol
}

impl<R: Spec> View for FixedPoint<R> {
    type V = i32;

    /// The raw integer: the quantity times the scale of its unit.
    closed spec fn view(&self) -> i32 {
        self.0.spec_to_fixed()
    }
}

impl<R: Spec> FixedPoint<R> {
    /// The quantity whose raw integer is `raw`.
    pub closed spec fn of(raw: i32) -> Self {
        FixedPoint(R::spec_from_fixed(raw))
    }

    /// Whether quantities of this unit have a decimal text.
    pub open spec fn renders() -> bool {
        decimal::renders(R::spec_scale() as nat, R::spec_precision())
    }

    /// The decimal text of the quantity.
    pub open spec fn rendering(self) -> Seq<char> {
        decimal::rendering(self@ as int, R::spec_scale() as nat, R::spec_precision())
    }

    /// A quantity built from a raw integer holds that integer.
    pub proof fn lemma_raw_round_trip(raw: i32)
        ensures
            Self::of(raw)@ == raw,
    {
        R::lemma_to_from_fixed(raw);
    }

    /// A quantity is the one built from its raw integer: two quantities of one
    /// unit with the same raw integer are the same quantity.
    pub proof fn lemma_raw_determines(self)
        ensures
            Self::of(self@) == self,
    {
        R::lemma_from_to_fixed(self.0);
    }

    /// The quantity whose raw integer is `raw`. Nothing is scaled: `raw` is
    /// taken to be the quantity times the scale of the unit already.
    pub fn from_raw(raw: i32) -> (quantity: Self)
        ensures
            quantity == Self::of(raw),
            quantity@ == raw,
    {
        proof {
            R::lemma_to_from_fixed(raw);
        }
        FixedPoint(R::from_fixed(raw))
    }

    /// The raw integer of the quantity.
    pub fn to_raw(self) -> (raw: i32)
        ensures
            raw == self@,
    {
        self.0.to_fixed()
    }

    /// The quantity zero.
    pub fn zero() -> (quantity: Self)
        ensures
            quantity == Self::of(0),
            quantity@ == 0,
    {
        Self::from_raw(0)
    }

    /// The decimal text of the quantity, for a unit that has one.
    ///
    /// A unit has a decimal text if it declares a precision or if its scale is
    /// 1, 10, 100 or 1000. Quantities of any other unit are written through
    /// floating point, which is the caller's business: see
    /// [`FixedPoint::try_to_string`].
    pub fn to_string(&self) -> (text: String)
        requires
            Self::renders(),
        ensures
            text@ == self.rendering(),
    {
        match self.try_to_string() {
            Some(text) => text,
            None => String::new(),
        }
    }

    /// The decimal text of the quantity, or `None` for a unit that has none.
    pub fn try_to_string(&self) -> (text: Option<String>)
        ensures
            text is Some <==> Self::renders(),
            text is Some ==> text->0@ == self.rendering(),
    {
        proof {
            R::lemma_scale_positive();
        }
        decimal::render(self.0.to_fixed(), R::scale(), R::precision())
    }

    /// The text that names the quantity for a developer: the raw integer, a
    /// slash, the scale, a space and the symbol of the unit.
    pub fn debug_string(&self) -> (text: String)
        ensures
            text@ == debug_rendering(self@ as int, R::spec_scale() as nat, R::spec_symbol()),
    {
        let mut text = String::new();
        proof {
            reveal_strlit("/");
            reveal_strlit(" ");
            assert("/"@ =~= seq!['/']);
            assert(" "@ =~= seq![' ']);
        }
        decimal::push_signed(&mut text, self.0.to_fixed());
        text.append("/");
        decimal::push_numeral(&mut text, R::scale());
        text.append(" ");
        text.append(R::symbol());
        assert(text@ =~= debug_rendering(self@ as int, R::spec_scale() as nat, R::spec_symbol()));
        text
    }
}

} // verus!
