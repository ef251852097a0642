//! Catalog lookups: sections, materials, bolts, weld types.

use brace_designer::bolt::{list_bolt_diameters, BoltConnection, BoltDiameter, HighTensionBolt};
use brace_designer::material::{list_bolt_materials, list_materials, BoltMaterial, SteelMaterial};
use brace_designer::rational::Rational;
use brace_designer::section::{
    get_section, list_sections, AngleSteel, CTSteel, ChannelSteel, SectionProfile,
};
use brace_designer::unit::{ForceUnit, LengthUnit};
use brace_designer::value::Length;
use brace_designer::welding::{list_welding_types, WeldingType};

#[test]
fn angle_test_angle_gauge() {
    let data: Vec<(AngleSteel, i128)> = vec![
        (AngleSteel::L80x80x6, 45),
        (AngleSteel::L100x100x10, 55),
    ];

    for tuple in data {
        let actual = tuple.0.gauge_list();
        let expected = vec![Length::new(Rational::from_int(tuple.1), LengthUnit::MilliMeter)];
        assert_eq!(actual, expected);
    }
}

#[test]
fn section_test_angle_gauge() {
    let data: Vec<(AngleSteel, i128)> = vec![
        (AngleSteel::L80x80x6, 45),
        (AngleSteel::L100x100x10, 55),
    ];

    for tuple in data {
        let actual = tuple.0.gauge_list();
        let expected = vec![Length::new(Rational::from_int(tuple.1), LengthUnit::MilliMeter)];
        assert_eq!(actual, expected);
    }
}

#[test]
fn channel_test_channel_gauge() {
    let data: Vec<(ChannelSteel, Option<f64>)> = vec![(ChannelSteel::C100x50x5x7p5, None)];

    for tuple in data {
        let actual = tuple.0.gauge_list();
        let expected = vec![];
        assert_eq!(actual, expected);
    }
}

#[test]
fn section_test_channel_gauge() {
    let data: Vec<(ChannelSteel, Option<f64>)> = vec![(ChannelSteel::C100x50x5x7p5, None)];

    for tuple in data {
        let actual = tuple.0.gauge_list();
        let expected = vec![];
        assert_eq!(actual, expected);
    }
}

#[test]
fn section_names_round_trip_through_lookup() {
    for name in list_sections() {
        let s = get_section(name).unwrap();
        assert_eq!(s.name(), name);
    }
    assert!(get_section("CT-999").is_none());
    assert_eq!(list_sections().len(), 5);
}

#[test]
fn ct_area_is_flange_plus_web() {
    // 100 * 12 + (200 - 12) * 8 = 2704 mm^2
    let a = CTSteel::Ct100x200x8x12.area();
    assert!(a.get_value_in(LengthUnit::MilliMeter).eq_rat(&Rational::from_int(2704)));
    // 125 * 14 + (250 - 14) * 9 = 3874 mm^2
    let b = CTSteel::Ct125x250x9x14.area();
    assert!(b.get_value_in(LengthUnit::MilliMeter).eq_rat(&Rational::from_int(3874)));
}

#[test]
fn ct_gauge_comes_from_the_breadth_table() {
    let g = CTSteel::Ct100x200x8x12.gauge_list();
    assert_eq!(g.len(), 2);
    assert!(g[0].get_value_in(LengthUnit::MilliMeter).eq_rat(&Rational::from_int(60)));
    assert!(g[1].get_value_in(LengthUnit::MilliMeter).eq_rat(&Rational::from_int(-60)));
    let g2 = CTSteel::Ct125x250x9x14.gauge_list();
    assert_eq!(g2.len(), 2);
    assert!(g2[0].get_value_in(LengthUnit::MilliMeter).eq_rat(&Rational::from_int(75)));
}

#[test]
fn gauge_width_is_first_minus_last() {
    let s = SectionProfile::Ct(CTSteel::Ct100x200x8x12);
    let w = s.gauge_width().unwrap();
    assert!(w.get_value_in(LengthUnit::MilliMeter).eq_rat(&Rational::from_int(120)));
    let angle = SectionProfile::Angle(AngleSteel::L80x80x6);
    let wa = angle.gauge_width().unwrap();
    assert!(wa.get_value_in(LengthUnit::MilliMeter).eq_rat(&Rational::from_int(0)));
    let channel = SectionProfile::Channel(ChannelSteel::C100x50x5x7p5);
    assert!(channel.gauge_width().is_err());
}

#[test]
fn material_catalog_stresses() {
    let ss400 = SteelMaterial::new("SS400").unwrap();
    assert!(ss400.get_fy().get_value_in(ForceUnit::Newton, LengthUnit::MilliMeter).eq_rat(
        &Rational::from_int(235),
    ));
    assert!(ss400.get_fu().get_value_in(ForceUnit::Newton, LengthUnit::MilliMeter).eq_rat(
        &Rational::from_int(400),
    ));
    let sm490 = SteelMaterial::new("SM490").unwrap();
    assert!(sm490.get_fy().get_value_in(ForceUnit::Newton, LengthUnit::MilliMeter).eq_rat(
        &Rational::from_int(325),
    ));
    assert!(sm490.get_fu().get_value_in(ForceUnit::Newton, LengthUnit::MilliMeter).eq_rat(
        &Rational::from_int(490),
    ));
    assert!(SteelMaterial::new("SS401").is_none());
    assert_eq!(list_materials(), vec!["SS400", "SM490"]);
}

#[test]
fn bolt_material_catalog() {
    let f8t = BoltMaterial::new("F8T").unwrap();
    assert!(f8t.get_t0().get_value_in(ForceUnit::Newton, LengthUnit::MilliMeter).eq_rat(
        &Rational::from_int(400),
    ));
    let f10t = BoltMaterial::new("F10T").unwrap();
    assert!(f10t.get_t0().get_value_in(ForceUnit::Newton, LengthUnit::MilliMeter).eq_rat(
        &Rational::from_int(500),
    ));
    assert!(BoltMaterial::new("F9T").is_none());
    assert_eq!(list_bolt_materials(), vec!["F8T", "F10T"]);
}

#[test]
fn bolt_diameter_catalog() {
    let m20 = BoltDiameter::new("M20").unwrap();
    assert_eq!(m20.name(), "M20");
    assert!(m20.hole_diameter().get_value_in(LengthUnit::MilliMeter).eq_rat(
        &Rational::from_int(22),
    ));
    let m22 = BoltDiameter::new("M22").unwrap();
    assert!(m22.hole_diameter().get_value_in(LengthUnit::MilliMeter).eq_rat(
        &Rational::from_int(24),
    ));
    assert!(BoltDiameter::new("M24").is_none());
    assert_eq!(list_bolt_diameters(), vec!["M20", "M22"]);
}

#[test]
fn bolt_connection_lookup_and_joint_length() {
    let c = BoltConnection::new("F10T", "M20", 3).unwrap();
    assert_eq!(c.num_row, 3);
    // pitch * num_row + end_distance = 60 * 3 + 40 = 220 mm
    assert!(c.joint_length().get_value_in(LengthUnit::MilliMeter).eq_rat(
        &Rational::from_int(220),
    ));
    assert!(c.end_distance().get_value_in(LengthUnit::MilliMeter).eq_rat(
        &Rational::from_int(40),
    ));
    assert!(c.pitch().get_value_in(LengthUnit::MilliMeter).eq_rat(&Rational::from_int(60)));
    assert!(BoltConnection::new("F10T", "M99", 3).is_none());
    assert!(BoltConnection::new("X", "M20", 3).is_none());
}

#[test]
fn bolt_head_dimensions() {
    let b = HighTensionBolt::new("F10T", "M22").unwrap();
    assert!(b.diameter().get_value_in(LengthUnit::MilliMeter).eq_rat(&Rational::from_int(22)));
    assert!(b.head_height().get_value_in(LengthUnit::MilliMeter).eq_rat(&Rational::from_int(14)));
    assert!(b.head_size().get_value_in(LengthUnit::MilliMeter).eq_rat(&Rational::from_int(34)));
}

#[test]
fn section_outlines_in_both_units() {
    let s = get_section("CT-100x200x8x12").unwrap();
    let mm = s.shape_in_mm();
    let m = s.shape_in_m();
    // The outline starts on the flange edge at half the breadth.
    assert!(mm.start_point.0.eq_rat(&Rational::from_int(0)));
    assert!(mm.start_point.1.eq_rat(&Rational::from_int(100)));
    assert!(m.start_point.1.eq_rat(&Rational::new(1, 10)));
    assert_eq!(mm.next_points.len(), 7);
    assert_eq!(m.next_points.len(), 7);
    // Flange corner at (tf, b/2).
    assert!(mm.next_points[0].0.eq_rat(&Rational::from_int(12)));
    assert!(mm.next_points[0].1.eq_rat(&Rational::from_int(100)));

    let angle = get_section("L-80x80x6").unwrap().shape_in_mm();
    assert!(angle.start_point.0.eq_rat(&Rational::from_int(0)));
    assert!(angle.start_point.1.eq_rat(&Rational::from_int(0)));
    assert_eq!(angle.next_points.len(), 5);
    assert!(angle.next_points[0].0.eq_rat(&Rational::from_int(80)));

    let channel = get_section("[-100x50x5x7.5").unwrap().shape_in_mm();
    assert_eq!(channel.next_points.len(), 8);
    // Inner flange corner at (b, h/2 - t2) = (50, 42.5).
    assert!(channel.next_points[2].0.eq_rat(&Rational::from_int(50)));
    assert!(channel.next_points[2].1.eq_rat(&Rational::new(85, 2)));
}

#[test]
fn welding_type_catalog() {
    assert_eq!(list_welding_types(), vec!["I", "II", "III"]);
    assert_eq!(WeldingType::new("II").unwrap().name(), "II");
    assert!(WeldingType::new("IV").is_none());
    let w = brace_designer::welding::Welding::default();
    assert_eq!(w.welding_type, WeldingType::I);
}

#[test]
fn catalog_iteration_matches_the_name_lists() {
    let ct_names: Vec<&str> = CTSteel::iter().iter().map(|s| s.name()).collect();
    assert_eq!(ct_names, vec!["CT-100x200x8x12", "CT-125x250x9x14"]);
    let angle_names: Vec<&str> = AngleSteel::iter().iter().map(|s| s.name()).collect();
    assert_eq!(angle_names, vec!["L-80x80x6", "L-100x100x10"]);
    let channel_names: Vec<&str> = ChannelSteel::iter().iter().map(|s| s.name()).collect();
    assert_eq!(channel_names, vec!["[-100x50x5x7.5"]);
}
