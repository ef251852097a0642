//! Capacity checks, setters and geometry queries of the brace engine.

use brace_designer::error::CalcError;
use brace_designer::gusset_plate::GussetPlate;
use brace_designer::model::{base_yield, gpl_yield, AxialForce, Brace};
use brace_designer::rational::Rational;
use brace_designer::results::Judge;
use brace_designer::unit::{ForceUnit, LengthUnit};
use brace_designer::value::{Area, Force, Length, Stress};

fn force_kn(v: i128) -> AxialForce {
    let mut n = AxialForce::default();
    n.set_force_in_kn(Rational::from_int(v));
    n
}

#[test]
fn base_yield_worked_example() {
    // Gross area 19.00 cm^2, thickness 10 mm, 2 bolt columns with 22 mm
    // holes, yield stress 235 N/mm^2, design force 100 kN.
    let a = Area::new(Rational::new(1900, 100), LengthUnit::CentiMeter).unwrap();
    let t = Length::new(Rational::from_int(10), LengthUnit::MilliMeter);
    let hole = Length::new(Rational::from_int(22), LengthUnit::MilliMeter);
    let fy = Stress::new(Rational::from_int(235), ForceUnit::Newton, LengthUnit::MilliMeter);
    let nd = Force::new(Rational::from_int(100), ForceUnit::KiloNewton);
    let res = base_yield("V1", "S", "SS400", a, t, hole, 2, fy, nd).unwrap();
    // Net area 19.00 - 1.0 * 2.2 * 2 = 14.6 cm^2.
    let ae_expected = Area::new(Rational::new(1460, 100), LengthUnit::CentiMeter).unwrap();
    assert!(res.ae.eq_val(&ae_expected));
    // Allowable force 14.6e-4 m^2 * 235e6 Pa = 343.1 kN.
    assert!(res.ny.get_value_in(ForceUnit::KiloNewton).eq_rat(&Rational::new(3431, 10)));
    // Capacity ratio 100 / 343.1, which passes.
    assert!(res.gamma.eq_rat(&Rational::new(1000, 3431)));
    assert_eq!(res.judge, Judge::OK);
    assert_eq!(res.name, "V1");
    assert_eq!(res.section_name, "S");
    assert_eq!(res.material_name, "SS400");
}

#[test]
fn base_yield_rejects_holes_beyond_gross_area() {
    let a = Area::new(Rational::from_int(1), LengthUnit::CentiMeter).unwrap();
    let t = Length::new(Rational::from_int(10), LengthUnit::MilliMeter);
    let hole = Length::new(Rational::from_int(22), LengthUnit::MilliMeter);
    let fy = Stress::new(Rational::from_int(235), ForceUnit::Newton, LengthUnit::MilliMeter);
    let nd = Force::new(Rational::from_int(100), ForceUnit::KiloNewton);
    let r = base_yield("V1", "S", "SS400", a, t, hole, 2, fy, nd);
    assert_eq!(r.unwrap_err(), CalcError::InvalidQuantity);
}

#[test]
fn base_yield_with_vanishing_capacity_is_unsupported() {
    // The hole deduction consumes the gross area exactly.
    let a = Area::new(Rational::from_int(440), LengthUnit::MilliMeter).unwrap();
    let t = Length::new(Rational::from_int(10), LengthUnit::MilliMeter);
    let hole = Length::new(Rational::from_int(22), LengthUnit::MilliMeter);
    let fy = Stress::new(Rational::from_int(235), ForceUnit::Newton, LengthUnit::MilliMeter);
    let nd = Force::new(Rational::from_int(100), ForceUnit::KiloNewton);
    let r = base_yield("V1", "S", "SS400", a, t, hole, 2, fy, nd);
    assert_eq!(r.unwrap_err(), CalcError::UnsupportedConfiguration);
}

#[test]
fn single_and_double_friction_capacity() {
    // M20 with F10T: 314 mm^2 * 500 N/mm^2 * 0.45 = 70.65 kN per plane.
    let brace = Brace::default();
    let single = brace.bolt_connection.bolt.allowable_shear_short_single_friction();
    assert!(single.get_value_in(ForceUnit::KiloNewton).eq_rat(&Rational::new(7065, 100)));
    let double = brace.bolt_connection.bolt.allowable_shear_short_double_friction();
    assert!(double.get_value_in(ForceUnit::KiloNewton).eq_rat(&Rational::new(1413, 10)));
}

#[test]
fn bolt_group_of_eight_passes_at_400_fails_at_600() {
    // 4 rows x 2 gauge columns = 8 bolts at 70.65 kN each: 565.2 kN.
    let mut brace = Brace::default();
    brace.set_bolts("F10T", "M20", 4).unwrap();
    let res = brace.calculate_bolts(&force_kn(400)).unwrap();
    assert_eq!(res.num_bolts, 8);
    assert!(res.ny.get_value_in(ForceUnit::KiloNewton).eq_rat(&Rational::new(5652, 10)));
    assert!(res.gamma.eq_rat(&Rational::new(4000, 5652)));
    assert_eq!(res.judge, Judge::OK);

    let res2 = brace.calculate_bolts(&force_kn(600)).unwrap();
    assert!(res2.gamma.eq_rat(&Rational::new(6000, 5652)));
    assert_eq!(res2.judge, Judge::NG);
    assert_eq!(res2.diameter_name, "M20");
    assert_eq!(res2.material_name, "F10T");
}

#[test]
fn calculate_base_on_the_default_brace() {
    // CT-100x200x8x12: gross 2704 mm^2, holes 12 * 22 * 2 = 528 mm^2.
    let brace = Brace::default();
    let res = brace.calculate_base(&force_kn(100)).unwrap();
    assert!(res.a.get_value_in(LengthUnit::MilliMeter).eq_rat(&Rational::from_int(2704)));
    assert!(res.ae.get_value_in(LengthUnit::MilliMeter).eq_rat(&Rational::from_int(2176)));
    // 2176 mm^2 * 235 N/mm^2 = 511.36 kN.
    assert!(res.ny.get_value_in(ForceUnit::KiloNewton).eq_rat(&Rational::new(51136, 100)));
    assert!(res.gamma.eq_rat(&Rational::new(100000, 511360)));
    assert_eq!(res.judge, Judge::OK);
    assert_eq!(res.section_name, "CT-100x200x8x12");
    assert_eq!(res.material_name, "SS400");
}

#[test]
fn calculate_gpl_on_the_default_brace() {
    // Development length 120 mm governs over lg 300 mm; gross 1440 mm^2,
    // holes 528 mm^2, net 912 mm^2, allowable 214.32 kN.
    let brace = Brace::default();
    let res = brace.calculate_gpl(&force_kn(100)).unwrap();
    assert!(res.a.get_value_in(LengthUnit::MilliMeter).eq_rat(&Rational::from_int(1440)));
    assert!(res.ae.get_value_in(LengthUnit::MilliMeter).eq_rat(&Rational::from_int(912)));
    assert!(res.ny.get_value_in(ForceUnit::KiloNewton).eq_rat(&Rational::new(21432, 100)));
    assert!(res.gamma.eq_rat(&Rational::new(100000, 214320)));
    assert_eq!(res.judge, Judge::OK);
    assert_eq!(res.material_name, "SS400");
}

#[test]
fn gpl_net_area_clamps_to_zero_not_negative() {
    // A vanishing effective length makes the hole deduction exceed the
    // gross area; the clamped net area is zero, so the check reports an
    // unsupported configuration rather than a negative-area failure.
    let gpl = GussetPlate::new(
        Length::new(Rational::from_int(10), LengthUnit::MilliMeter),
        Length::new(Rational::from_int(100), LengthUnit::MilliMeter),
        brace_designer::material::SteelMaterial::SS400,
    );
    let gw = Length::new(Rational::from_int(0), LengthUnit::MilliMeter);
    let hole = Length::new(Rational::from_int(22), LengthUnit::MilliMeter);
    let nd = Force::new(Rational::from_int(100), ForceUnit::KiloNewton);
    let r = gpl_yield("V1", &gpl, gw, 1, hole, 2, nd);
    assert_eq!(r.unwrap_err(), CalcError::UnsupportedConfiguration);
}

#[test]
fn gpl_rejects_negative_thickness() {
    let mut brace = Brace::default();
    brace.set_gpl(Rational::from_int(-9), Rational::from_int(300), "SS400").unwrap();
    let r = brace.calculate_gpl(&force_kn(100));
    assert_eq!(r.unwrap_err(), CalcError::InvalidQuantity);
}

#[test]
fn channel_without_gauge_entry_is_unsupported() {
    let mut brace = Brace::default();
    brace.set_section("[-100x50x5x7.5").unwrap();
    assert_eq!(
        brace.calculate_gpl(&force_kn(100)).unwrap_err(),
        CalcError::UnsupportedConfiguration
    );
    assert_eq!(
        brace.calculate_bolts(&force_kn(100)).unwrap_err(),
        CalcError::UnsupportedConfiguration
    );
    // The base-metal check needs no gauge width: no columns, no holes.
    let base = brace.calculate_base(&force_kn(100)).unwrap();
    assert!(base.ae.get_value_in(LengthUnit::MilliMeter).eq_rat(&Rational::from_int(1192)));
}

#[test]
fn setters_replace_only_their_field() {
    let mut brace = Brace::default();
    brace.set_section("L-100x100x10").unwrap();
    assert_eq!(brace.section.name(), "L-100x100x10");
    brace.set_material("SM490").unwrap();
    assert_eq!(brace.material.name(), "SM490");
    brace.set_bolts("F8T", "M22", 2).unwrap();
    assert_eq!(brace.bolt_connection.num_row, 2);
    brace.set_gpl(Rational::from_int(9), Rational::from_int(200), "SS400").unwrap();
    assert!(brace.gpl.thickness.get_value_in(LengthUnit::MilliMeter).eq_rat(
        &Rational::from_int(9),
    ));
    // The earlier selections are untouched.
    assert_eq!(brace.section.name(), "L-100x100x10");
    assert_eq!(brace.material.name(), "SM490");
}

#[test]
fn unknown_names_are_not_found_and_leave_the_brace_unchanged() {
    let mut brace = Brace::default();
    assert_eq!(brace.set_section("HEA-200").unwrap_err(), CalcError::NotFound);
    assert_eq!(brace.set_material("S235").unwrap_err(), CalcError::NotFound);
    assert_eq!(brace.set_bolts("F10T", "M16", 2).unwrap_err(), CalcError::NotFound);
    assert_eq!(
        brace.set_gpl(Rational::from_int(9), Rational::from_int(200), "X").unwrap_err(),
        CalcError::NotFound
    );
    assert_eq!(brace.section.name(), "CT-100x200x8x12");
    assert_eq!(brace.material.name(), "SS400");
    assert_eq!(brace.bolt_connection.num_row, 1);
}

#[test]
fn joint_length_query_in_meters() {
    let brace = Brace::default();
    // One row: 60 * 1 + 40 = 100 mm = 0.1 m.
    assert!(brace.get_joint_length_in_m().eq_rat(&Rational::new(1, 10)));
}

#[test]
fn geometry_queries_in_meters() {
    let brace = Brace::default();
    assert!(brace.get_section_thickness_in_m().eq_rat(&Rational::new(12, 1000)));
    assert!(brace.get_gpl_thickness_in_m().eq_rat(&Rational::new(12, 1000)));
    assert!(brace.get_bolt_diameter_in_m().eq_rat(&Rational::new(20, 1000)));
    let (head_h, head_d) = brace.get_bolt_dimension_in_m();
    assert!(head_h.eq_rat(&Rational::new(13, 1000)));
    assert!(head_d.eq_rat(&Rational::new(30, 1000)));
    let outline = brace.get_section_in_m();
    assert_eq!(outline.next_points.len(), 7);
    assert!(outline.start_point.0.eq_rat(&Rational::from_int(0)));
    assert!(outline.start_point.1.eq_rat(&Rational::new(1, 10)));
    let plate = brace.get_gpl_shape_in_m();
    assert_eq!(plate.next_points.len(), 5);
    assert!(plate.start_point.1.eq_rat(&Rational::new(1, 10)));
    assert!(plate.next_points[0].0.eq_rat(&Rational::new(1, 10)));
    assert!(plate.next_points[0].1.eq_rat(&Rational::new(15, 100)));
    // The plate extends one forty millimetre margin past the bolt group.
    assert!(plate.next_points[1].0.eq_rat(&Rational::new(14, 100)));
}

#[test]
fn bolt_coordinates_cross_gauges_and_rows() {
    let mut brace = Brace::default();
    brace.set_bolts("F10T", "M20", 2).unwrap();
    let coords = brace.get_bolt_coord_list_in_m();
    assert_eq!(coords.len(), 4);
    // First gauge line at +60 mm, rows at 40 mm and 100 mm.
    assert!(coords[0].0.eq_rat(&Rational::new(40, 1000)));
    assert!(coords[0].1.eq_rat(&Rational::new(60, 1000)));
    assert!(coords[1].0.eq_rat(&Rational::new(100, 1000)));
    assert!(coords[1].1.eq_rat(&Rational::new(60, 1000)));
    // Second gauge line at -60 mm.
    assert!(coords[2].0.eq_rat(&Rational::new(40, 1000)));
    assert!(coords[2].1.eq_rat(&Rational::new(-60, 1000)));
    assert!(coords[3].1.eq_rat(&Rational::new(-60, 1000)));
}

#[test]
fn queries_are_idempotent_without_intervening_setters() {
    let brace = Brace::default();
    let n = force_kn(100);
    assert_eq!(brace.get_joint_length_in_m(), brace.get_joint_length_in_m());
    assert_eq!(brace.get_bolt_coord_list_in_m(), brace.get_bolt_coord_list_in_m());
    assert_eq!(brace.get_section_thickness_in_m(), brace.get_section_thickness_in_m());
    let r1 = brace.calculate_base(&n).unwrap();
    let r2 = brace.calculate_base(&n).unwrap();
    assert_eq!(r1.gamma, r2.gamma);
    assert_eq!(r1.judge, r2.judge);
    assert!(r1.ae.eq_val(&r2.ae));
    let g1 = brace.calculate_gpl(&n).unwrap();
    let g2 = brace.calculate_gpl(&n).unwrap();
    assert_eq!(g1.gamma, g2.gamma);
    assert_eq!(g1.judge, g2.judge);
}

#[test]
fn gusset_gross_area() {
    let brace = Brace::default();
    let a = brace.gpl.area().unwrap();
    // 12 mm * 300 mm = 3600 mm^2.
    assert!(a.get_value_in(LengthUnit::MilliMeter).eq_rat(&Rational::from_int(3600)));
}

#[test]
fn negative_design_force_always_passes() {
    let brace = Brace::default();
    let mut n = AxialForce::default();
    n.set_force_in_kn(Rational::from_int(-100));
    let res = brace.calculate_base(&n).unwrap();
    assert_eq!(res.judge, Judge::OK);
}
