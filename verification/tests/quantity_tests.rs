//! Unit conversion and quantity arithmetic.

use brace_designer::error::CalcError;
use brace_designer::rational::Rational;
use brace_designer::unit::{ForceUnit, LengthUnit};
use brace_designer::value::{Area, Force, Length, Stress};

#[test]
fn length_round_trip_in_each_unit() {
    let units = vec![LengthUnit::Meter, LengthUnit::CentiMeter, LengthUnit::MilliMeter];
    for u in units {
        let m = Rational::new(75, 2);
        let l = Length::new(m, u);
        assert!(l.get_value_in(u).eq_rat(&m));
        let neg = Rational::new(-13, 7);
        let l2 = Length::new(neg, u);
        assert!(l2.get_value_in(u).eq_rat(&neg));
    }
}

#[test]
fn area_round_trip_in_each_unit() {
    let units = vec![LengthUnit::Meter, LengthUnit::CentiMeter, LengthUnit::MilliMeter];
    for u in units {
        let m = Rational::new(1900, 100);
        let a = Area::new(m, u).unwrap();
        assert!(a.get_value_in(u).eq_rat(&m));
    }
}

#[test]
fn force_round_trip_in_each_unit() {
    let units = vec![ForceUnit::Newton, ForceUnit::KiloNewton];
    for u in units {
        let m = Rational::new(7065, 100);
        let f = Force::new(m, u);
        assert!(f.get_value_in(u).eq_rat(&m));
    }
}

#[test]
fn stress_round_trip_in_each_unit() {
    let m = Rational::new(235, 1);
    for fu in vec![ForceUnit::Newton, ForceUnit::KiloNewton] {
        for lu in vec![LengthUnit::Meter, LengthUnit::CentiMeter, LengthUnit::MilliMeter] {
            let s = Stress::new(m, fu, lu);
            assert!(s.get_value_in(fu, lu).eq_rat(&m));
        }
    }
}

#[test]
fn thousand_millimeters_is_one_meter() {
    let l = Length::new(Rational::from_int(1000), LengthUnit::MilliMeter);
    assert!(l.get_value_in(LengthUnit::Meter).eq_rat(&Rational::from_int(1)));
}

#[test]
fn one_square_centimeter_reads_as_ten_thousandth_square_meter() {
    let a = Area::new(Rational::from_int(1), LengthUnit::CentiMeter).unwrap();
    assert!(a.get_value_in(LengthUnit::Meter).eq_rat(&Rational::new(1, 10000)));
}

#[test]
fn kilonewton_is_a_thousand_newtons() {
    let f = Force::new(Rational::from_int(3), ForceUnit::KiloNewton);
    assert!(f.get_value_in(ForceUnit::Newton).eq_rat(&Rational::from_int(3000)));
}

#[test]
fn newton_per_square_millimeter_in_pascal() {
    let s = Stress::new(Rational::from_int(235), ForceUnit::Newton, LengthUnit::MilliMeter);
    // 235 N/mm^2 == 235e6 N/m^2.
    assert!(s.get_value_in(ForceUnit::Newton, LengthUnit::Meter).eq_rat(&Rational::from_int(
        235_000_000,
    )));
}

#[test]
fn two_meters_times_three_meters_is_six_square_meters() {
    let a = Length::new(Rational::from_int(2), LengthUnit::Meter);
    let b = Length::new(Rational::from_int(3), LengthUnit::Meter);
    let p = a.mul_len(b).unwrap();
    let expected = Area::new(Rational::from_int(6), LengthUnit::Meter).unwrap();
    assert!(p.eq_val(&expected));
}

#[test]
fn negative_area_is_an_invalid_quantity() {
    for u in vec![LengthUnit::Meter, LengthUnit::CentiMeter, LengthUnit::MilliMeter] {
        let r = Area::new(Rational::from_int(-1), u);
        assert_eq!(r.unwrap_err(), CalcError::InvalidQuantity);
    }
}

#[test]
fn negative_length_product_is_an_invalid_quantity() {
    let a = Length::new(Rational::from_int(-2), LengthUnit::Meter);
    let b = Length::new(Rational::from_int(3), LengthUnit::Meter);
    assert_eq!(a.mul_len(b).unwrap_err(), CalcError::InvalidQuantity);
}

#[test]
fn area_subtraction_fails_below_zero() {
    let small = Area::new(Rational::from_int(1), LengthUnit::CentiMeter).unwrap();
    let large = Area::new(Rational::from_int(2), LengthUnit::CentiMeter).unwrap();
    assert!(large.sub(small).is_ok());
    assert_eq!(small.sub(large).unwrap_err(), CalcError::InvalidQuantity);
}

#[test]
fn length_arithmetic_and_order() {
    let a = Length::new(Rational::from_int(40), LengthUnit::MilliMeter);
    let b = Length::new(Rational::from_int(60), LengthUnit::MilliMeter);
    let sum = a.add(b);
    assert!(sum.get_value_in(LengthUnit::MilliMeter).eq_rat(&Rational::from_int(100)));
    let diff = b.sub(a);
    assert!(diff.get_value_in(LengthUnit::MilliMeter).eq_rat(&Rational::from_int(20)));
    assert!(a.lt(&b));
    assert!(a.le(&b));
    assert!(!b.le(&a));
    assert!(a.min(b).eq_val(&a));
    assert!(b.min(a).eq_val(&a));
    // Equal values in different units compare equal.
    let c = Length::new(Rational::from_int(4), LengthUnit::CentiMeter);
    assert!(a.eq_val(&c));
}

#[test]
fn mixed_unit_values_compare_by_canonical_magnitude() {
    let one_m = Length::new(Rational::from_int(1), LengthUnit::Meter);
    let mm_999 = Length::new(Rational::from_int(999), LengthUnit::MilliMeter);
    assert!(mm_999.lt(&one_m));
    assert!(!one_m.lt(&mm_999));
}
