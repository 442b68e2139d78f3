use fixed_point::unit::Amp;
use fixed_point::unit::Celsius;
use fixed_point::unit::CentiOhm;
use fixed_point::unit::KiloWatt;
use fixed_point::unit::KiloWattHour;
use fixed_point::unit::PreciseVolt;
use fixed_point::unit::Volt;
use fixed_point::unit::Watt;
use fixed_point::FixedPoint;
use fixed_point::Spec;

const RAWS: [i32; 11] = [
    i32::MIN,
    i32::MIN + 1,
    -1_000_000,
    -325,
    -1,
    0,
    1,
    10,
    2456,
    i32::MAX - 1,
    i32::MAX,
];

fn round_trips<R: Spec + PartialEq + std::fmt::Debug>() {
    for raw in RAWS {
        assert_eq!(R::from_fixed(raw).to_fixed(), raw);
        assert_eq!(R::from_fixed(R::from_fixed(raw).to_fixed()), R::from_fixed(raw));
        assert_eq!(FixedPoint::<R>::from_raw(raw).to_raw(), raw);
        assert_eq!(
            FixedPoint::<R>::from_raw(FixedPoint::<R>::from_raw(raw).to_raw()),
            FixedPoint::<R>::from_raw(raw)
        );
    }
}

#[test]
fn raw_round_trip_of_every_unit() {
    round_trips::<Volt>();
    round_trips::<PreciseVolt>();
    round_trips::<Amp>();
    round_trips::<Watt>();
    round_trips::<KiloWatt>();
    round_trips::<KiloWattHour>();
    round_trips::<CentiOhm>();
    round_trips::<Celsius>();
}

#[test]
fn scaled_constructors_store_the_integer() {
    for raw in RAWS {
        assert_eq!(FixedPoint::<Amp>::with_fix1(raw).fix1(), raw);
        assert_eq!(FixedPoint::<Volt>::with_fix1(raw).fix1(), raw);
        assert_eq!(FixedPoint::<KiloWatt>::with_fix1(raw).fix1(), raw);
        assert_eq!(FixedPoint::<PreciseVolt>::with_fix3(raw).fix3(), raw);
        assert_eq!(FixedPoint::<Watt>::with_fix0(raw).fix0(), raw);
        assert_eq!(FixedPoint::<KiloWattHour>::with_fix2(raw).fix2(), raw);
        assert_eq!(FixedPoint::<Celsius>::with_fix2(raw).fix2(), raw);
        assert_eq!(FixedPoint::<CentiOhm>::from_raw(raw).to_raw(), raw);
    }
}

#[test]
fn scaled_constructor_is_the_raw_constructor() {
    assert_eq!(
        FixedPoint::<PreciseVolt>::with_fix3(1705),
        FixedPoint::<PreciseVolt>::from_raw(1705)
    );
    assert_eq!(FixedPoint::<PreciseVolt>::with_fix3(1705).to_raw(), 1705);
    assert_eq!(FixedPoint::<KiloWattHour>::with_fix2(501).to_raw(), 501);
}

#[test]
fn catalogue_of_units() {
    assert_eq!((Volt::scale(), Volt::symbol(), Volt::precision()), (10, "V", None));
    assert_eq!(
        (PreciseVolt::scale(), PreciseVolt::symbol(), PreciseVolt::precision()),
        (1000, "V", None)
    );
    assert_eq!((Amp::scale(), Amp::symbol(), Amp::precision()), (10, "A", None));
    assert_eq!((Watt::scale(), Watt::symbol(), Watt::precision()), (1, "W", None));
    assert_eq!(
        (KiloWatt::scale(), KiloWatt::symbol(), KiloWatt::precision()),
        (10, "kW", None)
    );
    assert_eq!(
        (KiloWattHour::scale(), KiloWattHour::symbol(), KiloWattHour::precision()),
        (100, "kWh", None)
    );
    assert_eq!(
        (CentiOhm::scale(), CentiOhm::symbol(), CentiOhm::precision()),
        (1000, "cΩ", Some(3))
    );
    assert_eq!(
        (Celsius::scale(), Celsius::symbol(), Celsius::precision()),
        (100, "C", None)
    );
}

#[test]
fn zero_and_default_are_raw_zero() {
    assert_eq!(FixedPoint::<Volt>::zero().to_raw(), 0);
    assert_eq!(FixedPoint::<Volt>::default().to_raw(), 0);
    assert_eq!(FixedPoint::<KiloWattHour>::default(), FixedPoint::<KiloWattHour>::zero());
    assert_eq!(Volt::default(), Volt(0));
}

#[test]
fn addition_saturates_at_the_maximum() {
    let max = FixedPoint::<Volt>::with_fix1(i32::MAX);
    assert_eq!((max + max).fix1(), i32::MAX);
    assert_eq!((max + FixedPoint::<Volt>::with_fix1(1)).fix1(), i32::MAX);
    assert_eq!((max + FixedPoint::<Volt>::with_fix1(0)).fix1(), i32::MAX);
    assert_eq!((max + FixedPoint::<Volt>::with_fix1(-1)).fix1(), i32::MAX - 1);
}

#[test]
fn addition_saturates_at_the_minimum() {
    let min = FixedPoint::<Amp>::with_fix1(i32::MIN);
    assert_eq!((min + min).fix1(), i32::MIN);
    assert_eq!((min + FixedPoint::<Amp>::with_fix1(-1)).fix1(), i32::MIN);
    assert_eq!((min + FixedPoint::<Amp>::with_fix1(1)).fix1(), i32::MIN + 1);
}

#[test]
fn subtraction_saturates_at_both_ends() {
    let min = FixedPoint::<Celsius>::with_fix2(i32::MIN);
    let max = FixedPoint::<Celsius>::with_fix2(i32::MAX);
    let one = FixedPoint::<Celsius>::with_fix2(1);
    assert_eq!((min - max).fix2(), i32::MIN);
    assert_eq!((max - min).fix2(), i32::MAX);
    assert_eq!((min - one).fix2(), i32::MIN);
    assert_eq!((max - one).fix2(), i32::MAX - 1);
    assert_eq!((FixedPoint::<Celsius>::zero() - min).fix2(), i32::MAX);
    assert_eq!((max - max).fix2(), 0);
}

#[test]
fn sums_and_differences_in_range_are_exact() {
    let a = FixedPoint::<KiloWattHour>::with_fix2(501);
    let b = FixedPoint::<KiloWattHour>::with_fix2(-1012);
    assert_eq!((a + b).fix2(), -511);
    assert_eq!((a - b).fix2(), 1513);
    assert_eq!((b - a).fix2(), -1513);
}

#[test]
fn compound_assignment_is_the_operator() {
    let a = FixedPoint::<Watt>::with_fix0(40);
    let b = FixedPoint::<Watt>::with_fix0(2);
    let mut sum = a;
    sum += b;
    assert_eq!(sum, a + b);
    assert_eq!(sum.fix0(), 42);
    let mut difference = a;
    difference -= b;
    assert_eq!(difference, a - b);
    assert_eq!(difference.fix0(), 38);
    let mut top = FixedPoint::<Watt>::with_fix0(i32::MAX);
    top += a;
    assert_eq!(top.fix0(), i32::MAX);
    let mut bottom = FixedPoint::<Watt>::with_fix0(i32::MIN);
    bottom -= a;
    assert_eq!(bottom.fix0(), i32::MIN);
}

#[test]
fn equality_is_equality_of_raw_values() {
    assert_eq!(FixedPoint::<Volt>::with_fix1(325), FixedPoint::<Volt>::with_fix1(325));
    assert_ne!(FixedPoint::<Volt>::with_fix1(325), FixedPoint::<Volt>::with_fix1(326));
    assert_ne!(FixedPoint::<Volt>::with_fix1(325), FixedPoint::<Volt>::with_fix1(-325));
}

#[test]
fn order_is_the_order_of_raw_values() {
    let low = FixedPoint::<Volt>::with_fix1(-5);
    let mid = FixedPoint::<Volt>::with_fix1(0);
    let high = FixedPoint::<Volt>::with_fix1(7);
    assert!(low < mid && mid < high && low < high);
    assert!(high > low);
    assert!(mid <= mid && mid >= mid);
    assert!(!(mid < mid));
    assert_eq!(low.partial_cmp(&high), Some(std::cmp::Ordering::Less));
    assert_eq!(high.partial_cmp(&low), Some(std::cmp::Ordering::Greater));
    assert_eq!(mid.partial_cmp(&mid), Some(std::cmp::Ordering::Equal));
    assert_eq!(low.cmp(&high), std::cmp::Ordering::Less);
    assert_eq!(high.max(low), high);
    assert_eq!(high.min(low), low);
}
