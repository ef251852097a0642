//! The brace aggregate and the capacity-check engine.
//!
//! A `Brace` owns the selected section profile, steel material, bolt group
//! and gusset plate; an `AxialForce` holds the current design load. Each
//! capacity check is a pure function of those values: it recomputes its
//! ratio from scratch and returns the full intermediate breakdown. The
//! checks follow the quantity representations exactly, so every contract
//! pins the result representation, not merely its value.

use vstd::prelude::*;

use crate::bolt::{BoltConnection, END_DISTANCE_MM, PITCH_MM};
use crate::error::CalcError;
use crate::gusset_plate::GussetPlate;
use crate::material::SteelMaterial;
use crate::rational::{
    in_prod_range, lemma_mul_bound, lemma_mul_nonneg, rat_add, rat_div, rat_le, rat_lt, rat_mul,
    rat_neg, rat_of_int, rat_sub, rat_wf, RatModel, Rational,
};
use crate::results::{judge_model, BaseYieldResult, BoltYieldResult, GplYieldResult, Judge};
use crate::section::{gauge_ok, is_section_name, poly_ok, Polyline, SectionProfile, CTSteel};
use crate::section::get_section;
use crate::unit::{ForceUnit, LengthUnit};
use crate::value::{
    force_bounded, force_canonical, len_bounded, length_reading, stress_bounded, Area, Force,
    Length, Stress,
};
use crate::welding::Welding;

verus! {

/// Largest bolt row count the engine accepts (machine limit: keeps the
/// development-length arithmetic inside `i128`).
pub const MAX_BOLT_ROWS: u32 = 10000;

/// Rational stand-in for `tan(pi/6)` in the development-length rule:
/// `0.57735`, exact to five decimal places.
pub open spec fn tan30_model() -> RatModel {
    RatModel { num: 57735, den: 100000 }
}

/// The hole-deduction area: base-metal thickness times bolt hole diameter
/// times the number of bolt columns.
pub open spec fn hole_area_model(t: RatModel, hole_d: RatModel, num_col: int) -> RatModel {
    rat_mul(rat_mul(t, hole_d), rat_of_int(num_col))
}

/// Net area of the base-metal check: gross area minus the hole deduction.
pub open spec fn base_ae_model(a: RatModel, t: RatModel, hole_d: RatModel, num_col: int) -> RatModel {
    rat_sub(a, hole_area_model(t, hole_d, num_col))
}

/// Allowable force of the base-metal check: net area times yield stress.
pub open spec fn base_ny_model(
    a: RatModel,
    t: RatModel,
    hole_d: RatModel,
    num_col: int,
    fy: RatModel,
) -> RatModel {
    rat_mul(base_ae_model(a, t, hole_d, num_col), fy)
}

/// Allowable force of the bolt-group check: per-bolt capacity times count.
pub open spec fn bolt_ny_model(qy: RatModel, num_bolts: int) -> RatModel {
    rat_mul(qy, rat_of_int(num_bolts))
}

/// Development length of the gusset plate:
/// `pitch * (num_row - 1) * tan(pi/6) + gauge_width`.
pub open spec fn gpl_dev_length_model(num_row: int, gw: RatModel) -> RatModel {
    rat_add(rat_mul(rat_mul(rat_of_int(PITCH_MM as int), rat_of_int(num_row - 1)), tan30_model()), gw)
}

/// Effective length: the smaller of the plate half-length and the
/// development length.
pub open spec fn gpl_eff_length_model(lg: RatModel, num_row: int, gw: RatModel) -> RatModel {
    if rat_le(lg, gpl_dev_length_model(num_row, gw)) {
        lg
    } else {
        gpl_dev_length_model(num_row, gw)
    }
}

/// Gross effective area of the gusset plate: effective length times
/// thickness.
pub open spec fn gpl_gross_model(t: RatModel, lg: RatModel, num_row: int, gw: RatModel) -> RatModel {
    rat_mul(gpl_eff_length_model(lg, num_row, gw), t)
}

/// Net effective area of the gusset plate: the gross effective area minus
/// the hole deduction, clamped to zero when the deduction is at least the
/// gross area.
pub open spec fn gpl_ae_model(
    t: RatModel,
    lg: RatModel,
    num_row: int,
    gw: RatModel,
    hole_d: RatModel,
    num_col: int,
) -> RatModel {
    let gross = gpl_gross_model(t, lg, num_row, gw);
    let hole = hole_area_model(t, hole_d, num_col);
    if rat_lt(hole, gross) {
        rat_sub(gross, hole)
    } else {
        rat_of_int(0)
    }
}

/// Net-area clamping law: for every plate, bolt group and gauge width, the
/// net effective area of the gusset plate is well formed and never
/// negative; whenever the hole deduction is at least the gross effective
/// area, it is exactly zero.
pub proof fn lemma_gpl_net_area_clamped(
    t: RatModel,
    lg: RatModel,
    num_row: int,
    gw: RatModel,
    hole_d: RatModel,
    num_col: int,
)
    requires
        rat_wf(t),
        rat_wf(lg),
        rat_wf(gw),
        rat_wf(hole_d),
    ensures
        rat_wf(gpl_ae_model(t, lg, num_row, gw, hole_d, num_col)),
        gpl_ae_model(t, lg, num_row, gw, hole_d, num_col).num >= 0,
        !rat_lt(
            hole_area_model(t, hole_d, num_col),
            gpl_gross_model(t, lg, num_row, gw),
        ) ==> gpl_ae_model(t, lg, num_row, gw, hole_d, num_col) == rat_of_int(0),
{
    let dev = gpl_dev_length_model(num_row, gw);
    crate::rational::lemma_pos_mul_pos(100000, gw.den);
    assert(dev.den >= 1);
    let eff = gpl_eff_length_model(lg, num_row, gw);
    assert(eff.den >= 1);
    let gross = gpl_gross_model(t, lg, num_row, gw);
    crate::rational::lemma_pos_mul_pos(eff.den, t.den);
    assert(gross.den >= 1);
    let hole = hole_area_model(t, hole_d, num_col);
    crate::rational::lemma_pos_mul_pos(t.den, hole_d.den);
    crate::rational::lemma_pos_mul_pos(t.den * hole_d.den, 1);
    assert(hole.den >= 1);
    if rat_lt(hole, gross) {
        crate::rational::lemma_pos_mul_pos(gross.den, hole.den);
    }
}

/// Flat index of the bolt at gauge line `g`, row `i`, with `rows` bolts per
/// gauge line.
pub open spec fn coord_index(g: int, i: int, rows: int) -> int {
    g * rows + i
}

/// Axial coordinate of the bolt in row `i`, in metres: end distance plus
/// `i` pitches.
pub open spec fn bolt_x_model(i: int) -> RatModel {
    length_reading(
        rat_add(rat_of_int(END_DISTANCE_MM as int), rat_mul(rat_of_int(PITCH_MM as int), rat_of_int(i))),
        LengthUnit::Meter,
    )
}

/// Earlier (gauge line, row) pairs index strictly earlier flat positions.
proof fn lemma_coord_index_lt(g2: int, i2: int, g: int, i: int, rows: int)
    by (nonlinear_arith)
    requires
        0 <= g2,
        0 <= i2 < rows,
        0 <= i,
        (g2 < g) || (g2 == g && i2 < i),
    ensures
        coord_index(g2, i2, rows) < coord_index(g, i, rows),
{
}

/// The base-metal yield check: net area, allowable force, capacity ratio
/// `nd / ny` and judgment. Fails with `InvalidQuantity` when a negative
/// area would have to be constructed (negative hole deduction, or a hole
/// deduction exceeding the gross area), and with
/// `UnsupportedConfiguration` when the allowable force vanishes and no
/// ratio exists.
pub fn base_yield(
    name: &str,
    section_name: &str,
    material_name: &str,
    a: Area,
    thickness: Length,
    hole_diameter: Length,
    num_col: u32,
    fy: Stress,
    nd: Force,
) -> (r: Result<BaseYieldResult, CalcError>)
    requires
        a.wf(),
        len_bounded(a@),
        thickness.wf(),
        len_bounded(thickness@),
        hole_diameter.wf(),
        len_bounded(hole_diameter@),
        num_col <= 10,
        fy.wf(),
        stress_bounded(fy@),
        fy@.num >= 0,
        nd.wf(),
        force_bounded(nd@),
    ensures
        match r {
            Ok(res) => {
                &&& thickness@.num * hole_diameter@.num >= 0
                &&& rat_le(hole_area_model(thickness@, hole_diameter@, num_col as int), a@)
                &&& base_ny_model(a@, thickness@, hole_diameter@, num_col as int, fy@).num != 0
                &&& res.a == a
                &&& res.ae@ == base_ae_model(a@, thickness@, hole_diameter@, num_col as int)
                &&& res.fy == fy
                &&& res.ny@ == base_ny_model(a@, thickness@, hole_diameter@, num_col as int, fy@)
                &&& res.nd == nd
                &&& res.gamma@ == rat_div(nd@, res.ny@)
                &&& res.judge == judge_model(res.gamma@)
                &&& res.name@ == name@
                &&& res.section_name@ == section_name@
                &&& res.material_name@ == material_name@
            },
            Err(e) => {
                ||| (thickness@.num * hole_diameter@.num < 0 && e == CalcError::InvalidQuantity)
                ||| (thickness@.num * hole_diameter@.num >= 0 && !rat_le(
                    hole_area_model(thickness@, hole_diameter@, num_col as int),
                    a@,
                ) && e == CalcError::InvalidQuantity)
                ||| (thickness@.num * hole_diameter@.num >= 0 && rat_le(
                    hole_area_model(thickness@, hole_diameter@, num_col as int),
                    a@,
                ) && base_ny_model(a@, thickness@, hole_diameter@, num_col as int, fy@).num == 0
                    && e == CalcError::UnsupportedConfiguration)
            },
        },
{
    proof {
        lemma_mul_bound(thickness@.num, hole_diameter@.num, 1_000_000_000, 1_000_000_000);
        lemma_mul_bound(thickness@.den, hole_diameter@.den, 1000, 1000);
    }
    let hole_unit = match thickness.mul_len(hole_diameter) {
        Ok(h) => h,
        Err(e) => {
            return Err(e);
        },
    };
    proof {
        lemma_mul_bound(
            hole_unit@.num,
            num_col as int,
            1_000_000_000_000_000_000,
            10,
        );
    }
    let hole = hole_unit.mul_int(num_col as i128);
    proof {
        lemma_mul_bound(a@.num, hole@.den, 1_000_000_000, 1_000_000);
        lemma_mul_bound(hole@.num, a@.den, 10_000_000_000_000_000_000, 1000);
        lemma_mul_bound(a@.den, hole@.den, 1000, 1_000_000);
    }
    let ae = match a.sub(hole) {
        Ok(x) => x,
        Err(e) => {
            return Err(e);
        },
    };
    proof {
        lemma_mul_bound(
            ae@.num,
            fy@.num,
            11_000_000_000_000_000_000_000_0,
            1000,
        );
        lemma_mul_bound(ae@.den, fy@.den, 1_000_000_000, 10);
        lemma_mul_nonneg(ae@.num, fy@.num);
    }
    let ny = ae.mul_stress(fy);
    if ny.is_zero() {
        return Err(CalcError::UnsupportedConfiguration);
    }
    proof {
        lemma_mul_bound(nd@.num, ny@.den, 1_000_000_000_000, 10_000_000_000);
        lemma_mul_bound(nd@.den, ny@.num, 1000, 110_000_000_000_000_000_000_000_000);
    }
    let gamma = nd.div_force(ny);
    let one = Rational::from_int(1);
    let judge = if gamma.le(&one) {
        Judge::OK
    } else {
        Judge::NG
    };
    Ok(
        BaseYieldResult {
            name: name.to_owned(),
            section_name: section_name.to_owned(),
            material_name: material_name.to_owned(),
            a,
            ae,
            fy,
            ny,
            nd,
            gamma,
            judge,
        },
    )
}

/// The bolt-group yield check: allowable force of the group, capacity ratio
/// `nd / ny` and judgment. Fails with `UnsupportedConfiguration` when the
/// group capacity vanishes (no bolts, or no per-bolt capacity) and no ratio
/// exists.
pub fn bolt_yield(
    name: &str,
    diameter_name: &str,
    material_name: &str,
    qy: Force,
    num_bolts: u32,
    nd: Force,
) -> (r: Result<BoltYieldResult, CalcError>)
    requires
        qy.wf(),
        force_bounded(qy@),
        qy@.num >= 0,
        nd.wf(),
        force_bounded(nd@),
    ensures
        match r {
            Ok(res) => {
                &&& bolt_ny_model(qy@, num_bolts as int).num != 0
                &&& res.qy == qy
                &&& res.num_bolts == num_bolts
                &&& res.ny@ == bolt_ny_model(qy@, num_bolts as int)
                &&& res.nd == nd
                &&& res.gamma@ == rat_div(nd@, res.ny@)
                &&& res.judge == judge_model(res.gamma@)
                &&& res.name@ == name@
                &&& res.diameter_name@ == diameter_name@
                &&& res.material_name@ == material_name@
            },
            Err(e) => bolt_ny_model(qy@, num_bolts as int).num == 0 && e
                == CalcError::UnsupportedConfiguration,
        },
{
    proof {
        lemma_mul_bound(qy@.num, num_bolts as int, 1_000_000_000_000, 4_294_967_295);
        lemma_mul_nonneg(qy@.num, num_bolts as int);
    }
    let ny = qy.mul_int(num_bolts as i128);
    if ny.is_zero() {
        return Err(CalcError::UnsupportedConfiguration);
    }
    proof {
        lemma_mul_bound(nd@.num, ny@.den, 1_000_000_000_000, 1000);
        lemma_mul_bound(nd@.den, ny@.num, 1000, 5_000_000_000_000_000_000_000_000_000);
    }
    let gamma = nd.div_force(ny);
    let one = Rational::from_int(1);
    let judge = if gamma.le(&one) {
        Judge::OK
    } else {
        Judge::NG
    };
    Ok(
        BoltYieldResult {
            name: name.to_owned(),
            diameter_name: diameter_name.to_owned(),
            material_name: material_name.to_owned(),
            qy,
            num_bolts,
            ny,
            nd,
            gamma,
            judge,
        },
    )
}

/// The gusset-plate yield check: effective net area (clamped to zero, never
/// negative), allowable force, capacity ratio `nd / ae / fy` and judgment.
/// Fails with `InvalidQuantity` when a negative area would have to be
/// constructed, and with `UnsupportedConfiguration` when the net area
/// vanishes and no ratio exists.
pub fn gpl_yield(
    name: &str,
    gpl: &GussetPlate,
    gauge_width: Length,
    num_row: u32,
    hole_diameter: Length,
    num_col: u32,
    nd: Force,
) -> (r: Result<GplYieldResult, CalcError>)
    requires
        gpl.wf(),
        gauge_width.wf(),
        -2000 <= gauge_width@.num <= 2000,
        gauge_width@.den <= 4,
        num_row <= MAX_BOLT_ROWS,
        hole_diameter.wf(),
        len_bounded(hole_diameter@),
        num_col <= 10,
        nd.wf(),
        force_bounded(nd@),
    ensures
        ({
            let t = gpl.thickness@;
            let lg = gpl.lg@;
            let gw = gauge_width@;
            let hole = hole_area_model(t, hole_diameter@, num_col as int);
            let gross = gpl_gross_model(t, lg, num_row as int, gw);
            let ae = gpl_ae_model(t, lg, num_row as int, gw, hole_diameter@, num_col as int);
            let fy = gpl.material.fy_spec();
            match r {
                Ok(res) => {
                    &&& t.num * hole_diameter@.num >= 0
                    &&& gpl_eff_length_model(lg, num_row as int, gw).num * t.num >= 0
                    &&& ae.num != 0
                    &&& res.lg == gpl.lg
                    &&& res.thickness == gpl.thickness
                    &&& res.a@ == gross
                    &&& res.ae@ == ae
                    &&& res.fy@ == fy
                    &&& res.ny@ == rat_mul(ae, fy)
                    &&& res.nd == nd
                    &&& res.gamma@ == rat_div(rat_div(nd@, ae), fy)
                    &&& res.judge == judge_model(res.gamma@)
                    &&& res.name@ == name@
                    &&& res.material_name@ == gpl.material.name_spec()
                },
                Err(e) => {
                    ||| (t.num * hole_diameter@.num < 0 && e == CalcError::InvalidQuantity)
                    ||| (t.num * hole_diameter@.num >= 0 && gpl_eff_length_model(
                        lg,
                        num_row as int,
                        gw,
                    ).num * t.num < 0 && e == CalcError::InvalidQuantity)
                    ||| (t.num * hole_diameter@.num >= 0 && gpl_eff_length_model(
                        lg,
                        num_row as int,
                        gw,
                    ).num * t.num >= 0 && ae.num == 0 && e == CalcError::UnsupportedConfiguration)
                },
            }
        }),
{
    let t = gpl.thickness;
    let lg = gpl.lg;
    proof {
        lemma_mul_bound(t@.num, hole_diameter@.num, 1_000_000_000, 1_000_000_000);
        lemma_mul_bound(t@.den, hole_diameter@.den, 1000, 1000);
    }
    let hole_unit = match t.mul_len(hole_diameter) {
        Ok(h) => h,
        Err(e) => {
            return Err(e);
        },
    };
    proof {
        lemma_mul_bound(hole_unit@.num, num_col as int, 1_000_000_000_000_000_000, 10);
    }
    let hole = hole_unit.mul_int(num_col as i128);

    let pitch = Length::new(Rational::from_int(PITCH_MM), LengthUnit::MilliMeter);
    let m = num_row as i128 - 1;
    proof {
        lemma_mul_bound(pitch@.num, m as int, 60, 10000);
    }
    let stretch = pitch.mul_int(m);
    let tan30 = Rational::new(57735, 100000);
    proof {
        lemma_mul_bound(stretch@.num, tan30@.num, 600_000, 57735);
    }
    let dev0 = stretch.mul_rat(tan30);
    proof {
        lemma_mul_bound(dev0@.num, gauge_width@.den, 40_000_000_000, 4);
        lemma_mul_bound(gauge_width@.num, dev0@.den, 2000, 100_000);
        lemma_mul_bound(dev0@.den, gauge_width@.den, 100_000, 4);
    }
    let dev = dev0.add(gauge_width);
    proof {
        lemma_mul_bound(lg@.num, dev@.den, 1_000_000_000, 400_000);
        lemma_mul_bound(dev@.num, lg@.den, 200_000_000_000, 1000);
    }
    let eff = lg.min(dev);
    proof {
        lemma_mul_bound(eff@.num, t@.num, 200_000_000_000, 1_000_000_000);
        lemma_mul_bound(eff@.den, t@.den, 400_000, 1000);
    }
    let gross = match eff.mul_len(t) {
        Ok(a) => a,
        Err(e) => {
            return Err(e);
        },
    };
    proof {
        assert(hole@.den == hole_unit@.den * 1);
        assert(1 <= hole@.den <= 1_000_000);
        lemma_mul_bound(hole@.num, gross@.den, 10_000_000_000_000_000_000, 400_000_000);
        lemma_mul_bound(gross@.num, hole@.den, 200_000_000_000_000_000_000, 1_000_000);
        lemma_mul_bound(gross@.den, hole@.den, 400_000_000, 1_000_000);
    }
    let ae = if hole.lt(&gross) {
        match gross.sub(hole) {
            Ok(x) => x,
            Err(_) => {
                proof {
                    assert(false);
                }
                Area::zero()
            },
        }
    } else {
        Area::zero()
    };
    // ae num bound: gross.num * hole.den + hole.num * gross.den
    //   <= 2e20 * 1e6 + 1e19 * 4e8 <= 5e27; den <= 4e8 * 1e6 = 4e14.
    let fy = gpl.material.get_fy();
    proof {
        assert(0 <= fy@.num <= 325 && fy@.den == 1);
        lemma_mul_bound(ae@.num, fy@.num, 5_000_000_000_000_000_000_000_000_000, 325);
        lemma_mul_bound(ae@.den, fy@.den, 400_000_000_000_000, 1);
        lemma_mul_nonneg(ae@.num, fy@.num);
    }
    let ny = ae.mul_stress(fy);
    if ae.is_zero() {
        return Err(CalcError::UnsupportedConfiguration);
    }
    proof {
        lemma_mul_bound(nd@.num, ae@.den, 1_000_000_000_000, 400_000_000_000_000);
        lemma_mul_bound(nd@.den, ae@.num, 1000, 5_000_000_000_000_000_000_000_000_000);
    }
    let s = nd.div_area(ae);
    proof {
        lemma_mul_bound(s@.num, fy@.den, 400_000_000_000_000_000_000_000_000, 1);
        lemma_mul_bound(s@.den, fy@.num, 5_000_000_000_000_000_000_000_000_000_000, 325);
    }
    let gamma = s.div_stress(fy);
    let one = Rational::from_int(1);
    let judge = if gamma.le(&one) {
        Judge::OK
    } else {
        Judge::NG
    };
    Ok(
        GplYieldResult {
            name: name.to_owned(),
            material_name: gpl.material.name().to_owned(),
            lg,
            thickness: t,
            a: gross,
            ae,
            fy,
            ny,
            nd,
            gamma,
            judge,
        },
    )
}

/// The design load: a single force value, replaced on each user input and
/// read by every capacity check.
#[derive(Clone, Copy, Debug, PartialEq, Eq, Structural)]
pub struct AxialForce {
    pub force: Force,
}

impl AxialForce {
    /// The stored force is within the machine limits of the checks.
    pub open spec fn wf(&self) -> bool {
        self.force.wf() && force_bounded(self.force@)
    }

    /// Replace the design load with `value`, given in kilonewtons.
    pub fn set_force_in_kn(&mut self, value: Rational)
        requires
            value.wf(),
            -1_000_000_000 <= value@.num <= 1_000_000_000,
            value@.den <= 1000,
        ensures
            final(self).force@ == force_canonical(value@, ForceUnit::KiloNewton),
            final(self).wf(),
    {
        self.force = Force::new(value, ForceUnit::KiloNewton);
    }
}

impl Default for AxialForce {
    /// Zero newtons.
    fn default() -> (r: Self)
        ensures
            r.force@ == rat_of_int(0),
            r.wf(),
    {
        AxialForce { force: Force::new(Rational::from_int(0), ForceUnit::Newton) }
    }
}

/// The brace aggregate: one section profile, one steel material, one bolt
/// group and one gusset plate, each independently replaceable.
#[derive(Clone, Copy, Debug, PartialEq, Eq, Structural)]
pub struct Brace {
    pub section: SectionProfile,
    pub material: SteelMaterial,
    pub bolt_connection: BoltConnection,
    pub gpl: GussetPlate,
    pub welding: Welding,
}

impl Brace {
    /// The mutable parts are within the machine limits of the checks.
    pub open spec fn wf(&self) -> bool {
        self.gpl.wf() && self.bolt_connection.num_row <= MAX_BOLT_ROWS
    }

    /// Replace the section; fails with `NotFound`, leaving the brace
    /// unchanged, if and only if no catalog section has the name.
    pub fn set_section(&mut self, name: &str) -> (r: Result<(), CalcError>)
        requires
            old(self).wf(),
        ensures
            final(self).wf(),
            match r {
                Ok(_) => {
                    &&& is_section_name(name@)
                    &&& final(self).section.name_spec() == name@
                    &&& final(self).material == old(self).material
                    &&& final(self).bolt_connection == old(self).bolt_connection
                    &&& final(self).gpl == old(self).gpl
                    &&& final(self).welding == old(self).welding
                },
                Err(e) => !is_section_name(name@) && e == CalcError::NotFound && *final(self)
                    == *old(self),
            },
    {
        match get_section(name) {
            Some(s) => {
                self.section = s;
                Ok(())
            },
            None => Err(CalcError::NotFound),
        }
    }

    /// Replace the steel material; fails with `NotFound`, leaving the brace
    /// unchanged, if and only if no catalog material has the name.
    pub fn set_material(&mut self, name: &str) -> (r: Result<(), CalcError>)
        requires
            old(self).wf(),
        ensures
            final(self).wf(),
            match r {
                Ok(_) => {
                    &&& final(self).material.name_spec() == name@
                    &&& final(self).section == old(self).section
                    &&& final(self).bolt_connection == old(self).bolt_connection
                    &&& final(self).gpl == old(self).gpl
                    &&& final(self).welding == old(self).welding
                },
                Err(e) => name@ != "SS400"@ && name@ != "SM490"@ && e == CalcError::NotFound
                    && *final(self) == *old(self),
            },
    {
        match SteelMaterial::new(name) {
            Some(m) => {
                self.material = m;
                Ok(())
            },
            None => Err(CalcError::NotFound),
        }
    }

    /// Replace the bolt group; fails with `NotFound`, leaving the brace
    /// unchanged, if and only if a catalog lacks one of the names.
    pub fn set_bolts(&mut self, material_name: &str, diameter_name: &str, num_row: u32) -> (r:
        Result<(), CalcError>)
        requires
            old(self).wf(),
            num_row <= MAX_BOLT_ROWS,
        ensures
            final(self).wf(),
            match r {
                Ok(_) => {
                    &&& final(self).bolt_connection.bolt.material.name_spec() == material_name@
                    &&& final(self).bolt_connection.bolt.diameter.name_spec() == diameter_name@
                    &&& final(self).bolt_connection.num_row == num_row
                    &&& final(self).section == old(self).section
                    &&& final(self).material == old(self).material
                    &&& final(self).gpl == old(self).gpl
                    &&& final(self).welding == old(self).welding
                },
                Err(e) => {
                    &&& ((material_name@ != "F8T"@ && material_name@ != "F10T"@) || (
                    diameter_name@ != "M20"@ && diameter_name@ != "M22"@))
                    &&& e == CalcError::NotFound
                    &&& *final(self) == *old(self)
                },
            },
    {
        match BoltConnection::new(material_name, diameter_name, num_row) {
            Some(c) => {
                self.bolt_connection = c;
                Ok(())
            },
            None => Err(CalcError::NotFound),
        }
    }

    /// Replace the gusset plate, dimensions given in millimetres; fails with
    /// `NotFound`, leaving the brace unchanged, if and only if no catalog
    /// material has the name.
    pub fn set_gpl(&mut self, thickness: Rational, lg: Rational, material_name: &str) -> (r:
        Result<(), CalcError>)
        requires
            old(self).wf(),
            thickness.wf(),
            len_bounded(thickness@),
            lg.wf(),
            len_bounded(lg@),
        ensures
            final(self).wf(),
            match r {
                Ok(_) => {
                    &&& final(self).gpl.thickness@ == crate::value::length_canonical(
                        thickness@,
                        LengthUnit::MilliMeter,
                    )
                    &&& final(self).gpl.lg@ == crate::value::length_canonical(
                        lg@,
                        LengthUnit::MilliMeter,
                    )
                    &&& final(self).gpl.material.name_spec() == material_name@
                    &&& final(self).section == old(self).section
                    &&& final(self).material == old(self).material
                    &&& final(self).bolt_connection == old(self).bolt_connection
                    &&& final(self).welding == old(self).welding
                },
                Err(e) => material_name@ != "SS400"@ && material_name@ != "SM490"@ && e
                    == CalcError::NotFound && *final(self) == *old(self),
            },
    {
        match SteelMaterial::new(material_name) {
            Some(m) => {
                let t = Length::new(thickness, LengthUnit::MilliMeter);
                let l = Length::new(lg, LengthUnit::MilliMeter);
                self.gpl = GussetPlate::new(t, l, m);
                Ok(())
            },
            None => Err(CalcError::NotFound),
        }
    }

    /// Outline of the selected section, vertex coordinates in metres.
    pub fn get_section_in_m(&self) -> (r: Polyline)
        ensures
            poly_ok(r, self.section.shape_model(LengthUnit::Meter)),
    {
        self.section.shape_in_m()
    }

    /// Base-metal thickness of the selected section, in metres.
    pub fn get_section_thickness_in_m(&self) -> (r: Rational)
        ensures
            r@ == length_reading(self.section.thickness_model(), LengthUnit::Meter),
            r.wf(),
    {
        self.section.thickness().get_value_in(LengthUnit::Meter)
    }

    /// Gusset plate thickness, in metres.
    pub fn get_gpl_thickness_in_m(&self) -> (r: Rational)
        requires
            self.wf(),
        ensures
            r@ == length_reading(self.gpl.thickness@, LengthUnit::Meter),
            r.wf(),
    {
        self.gpl.thickness.get_value_in(LengthUnit::Meter)
    }

    /// Bolt shank diameter, in metres.
    pub fn get_bolt_diameter_in_m(&self) -> (r: Rational)
        ensures
            r@ == length_reading(self.bolt_connection.bolt.diameter.d_spec(), LengthUnit::Meter),
            r.wf(),
    {
        self.bolt_connection.bolt.diameter().get_value_in(LengthUnit::Meter)
    }

    /// Joint length of the bolt group, in metres.
    pub fn get_joint_length_in_m(&self) -> (r: Rational)
        requires
            self.wf(),
        ensures
            r@ == length_reading(self.bolt_connection.joint_length_spec(), LengthUnit::Meter),
            r.wf(),
    {
        self.bolt_connection.joint_length().get_value_in(LengthUnit::Meter)
    }

    /// Bolt head height and head size, in metres.
    pub fn get_bolt_dimension_in_m(&self) -> (r: (Rational, Rational))
        ensures
            r.0@ == length_reading(self.bolt_connection.bolt.diameter.h_spec(), LengthUnit::Meter),
            r.1@ == length_reading(
                self.bolt_connection.bolt.diameter.large_d_spec(),
                LengthUnit::Meter,
            ),
            r.0.wf(),
            r.1.wf(),
    {
        let h = self.bolt_connection.bolt.head_height().get_value_in(LengthUnit::Meter);
        let d = self.bolt_connection.bolt.head_size().get_value_in(LengthUnit::Meter);
        (h, d)
    }

    /// Outline of the gusset plate, vertex coordinates in metres: it spans
    /// the section breadth at the brace end and the plate half-length over
    /// the joint, with a forty millimetre margin past the bolt group.
    pub open spec fn gpl_shape_model_m(self) -> Seq<(RatModel, RatModel)> {
        let lg = length_reading(self.gpl.lg@, LengthUnit::Meter);
        let breadth = length_reading(self.section.breadth_model(), LengthUnit::Meter);
        let jl = length_reading(self.bolt_connection.joint_length_spec(), LengthUnit::Meter);
        let margin = length_reading(rat_of_int(40), LengthUnit::Meter);
        let b2 = rat_div(breadth, rat_of_int(2));
        let lg2 = rat_div(lg, rat_of_int(2));
        let x2 = rat_add(jl, margin);
        let z = rat_of_int(0);
        seq![
            (z, b2),
            (jl, lg2),
            (x2, lg2),
            (x2, rat_neg(lg2)),
            (jl, rat_neg(lg2)),
            (z, rat_neg(b2)),
        ]
    }

    pub fn get_gpl_shape_in_m(&self) -> (r: Polyline)
        requires
            self.wf(),
        ensures
            poly_ok(r, self.gpl_shape_model_m()),
    {
        let zero = Rational::from_int(0);
        let two = Rational::from_int(2);
        let lg = self.gpl.lg.get_value_in(LengthUnit::Meter);
        let breadth = self.section.breadth().get_value_in(LengthUnit::Meter);
        let jl = self.bolt_connection.joint_length().get_value_in(LengthUnit::Meter);
        let margin = Length::new(Rational::from_int(40), LengthUnit::MilliMeter).get_value_in(
            LengthUnit::Meter,
        );
        let b2 = breadth.div(two);
        let lg2 = lg.div(two);
        proof {
            lemma_mul_bound(jl@.num, margin@.den, 1_000_000_000, 1000);
            lemma_mul_bound(margin@.num, jl@.den, 40, 1000);
            lemma_mul_bound(jl@.den, margin@.den, 1000, 1000);
        }
        let x2 = jl.add(margin);
        let nlg2 = lg2.neg();
        let nb2 = b2.neg();
        let mut rest: Vec<(Rational, Rational)> = Vec::new();
        rest.push((jl, lg2));
        rest.push((x2, lg2));
        rest.push((x2, nlg2));
        rest.push((jl, nlg2));
        rest.push((zero, nb2));
        Polyline { start_point: (zero, b2), next_points: rest }
    }

    /// Coordinates of every bolt of the group, in metres: one bolt per
    /// gauge offset (transverse coordinate) and row (axial coordinate, end
    /// distance plus a pitch per row), ordered gauge line by gauge line.
    pub fn get_bolt_coord_list_in_m(&self) -> (r: Vec<(Rational, Rational)>)
        requires
            self.wf(),
        ensures
            r@.len() == self.section.gauge_model().len() * self.bolt_connection.num_row,
            forall|g: int, i: int|
                0 <= g < self.section.gauge_model().len() && 0 <= i
                    < self.bolt_connection.num_row ==> {
                    &&& 0 <= #[trigger] coord_index(g, i, self.bolt_connection.num_row as int)
                        < r@.len()
                    &&& r@[coord_index(g, i, self.bolt_connection.num_row as int)].0@
                        == bolt_x_model(i)
                    &&& r@[coord_index(g, i, self.bolt_connection.num_row as int)].1@
                        == length_reading(self.section.gauge_model()[g], LengthUnit::Meter)
                },
    {
        let gauges = self.section.gauge_list();
        let num_row = self.bolt_connection.num_row;
        let e = self.bolt_connection.end_distance();
        let p = self.bolt_connection.pitch();
        let ghost gm = self.section.gauge_model();
        let ghost rows = num_row as int;
        let mut list: Vec<(Rational, Rational)> = Vec::new();
        let mut g: usize = 0;
        while g < gauges.len()
            invariant
                0 <= g <= gauges.len(),
                gm == self.section.gauge_model(),
                gauge_ok(gauges@, gm),
                gm.len() <= 4,
                rows == num_row as int,
                num_row <= MAX_BOLT_ROWS,
                e@ == rat_of_int(END_DISTANCE_MM as int),
                e.wf(),
                p@ == rat_of_int(PITCH_MM as int),
                p.wf(),
                list@.len() == g * rows,
                forall|g2: int, i2: int|
                    0 <= g2 < g && 0 <= i2 < rows ==> {
                        &&& 0 <= #[trigger] coord_index(g2, i2, rows) < list@.len()
                        &&& list@[coord_index(g2, i2, rows)].0@ == bolt_x_model(i2)
                        &&& list@[coord_index(g2, i2, rows)].1@ == length_reading(
                            gm[g2],
                            LengthUnit::Meter,
                        )
                    },
            decreases gauges@.len() - g,
        {
            proof {
                crate::section::lemma_gauge_entry_bounds(self.section, g as int);
                assert(gauges@[g as int]@ == gm[g as int]);
                assert(in_prod_range(gauges@[g as int]@.den * 1000));
            }
            let y = gauges[g].get_value_in(LengthUnit::Meter);
            let mut i: u32 = 0;
            while i < num_row
                invariant
                    0 <= i <= num_row,
                    0 <= g < gauges.len(),
                    gm == self.section.gauge_model(),
                    gauge_ok(gauges@, gm),
                    gm.len() <= 4,
                    rows == num_row as int,
                    num_row <= MAX_BOLT_ROWS,
                    e@ == rat_of_int(END_DISTANCE_MM as int),
                    e.wf(),
                    p@ == rat_of_int(PITCH_MM as int),
                    p.wf(),
                    y@ == length_reading(gm[g as int], LengthUnit::Meter),
                    y.wf(),
                    list@.len() == g * rows + i,
                    forall|g2: int, i2: int|
                        (0 <= g2 < g && 0 <= i2 < rows) || (g2 == g && 0 <= i2 < i) ==> {
                            &&& 0 <= #[trigger] coord_index(g2, i2, rows) < list@.len()
                            &&& list@[coord_index(g2, i2, rows)].0@ == bolt_x_model(i2)
                            &&& list@[coord_index(g2, i2, rows)].1@ == length_reading(
                                gm[g2],
                                LengthUnit::Meter,
                            )
                        },
                decreases num_row - i,
            {
                proof {
                    assert(p@.num == 60 && p@.den == 1);
                    assert(e@.num == 40 && e@.den == 1);
                    assert(0 <= i as i128 <= 10000);
                    assert(in_prod_range(p@.num * (i as i128)));
                }
                let px = p.mul_int(i as i128);
                proof {
                    assert(px@.den == 1 && 0 <= px@.num <= 600_000);
                }
                let x_len = e.add(px);
                proof {
                    assert(x_len@.den == 1);
                }
                let x = x_len.get_value_in(LengthUnit::Meter);
                list.push((x, y));
                proof {
                    assert(coord_index(g as int, i as int, rows) == list@.len() - 1);
                    assert forall|g2: int, i2: int|
                        (0 <= g2 < g && 0 <= i2 < rows) || (g2 == g && 0 <= i2 < i + 1) implies {
                        &&& 0 <= #[trigger] coord_index(g2, i2, rows) < list@.len()
                        &&& list@[coord_index(g2, i2, rows)].0@ == bolt_x_model(i2)
                        &&& list@[coord_index(g2, i2, rows)].1@ == length_reading(
                            gm[g2],
                            LengthUnit::Meter,
                        )
                    } by {
                        if g2 == g && i2 == i {
                        } else {
                            lemma_coord_index_lt(g2, i2, g as int, i as int, rows);
                        }
                    }
                }
                i = i + 1;
            }
            proof {
                assert((g + 1) * rows == g * rows + rows) by (nonlinear_arith);
            }
            g = g + 1;
        }
        list
    }

    /// The base-metal yield check of the selected section, against the
    /// current design load.
    pub fn calculate_base(&self, n: &AxialForce) -> (r: Result<BaseYieldResult, CalcError>)
        requires
            self.wf(),
            n.wf(),
        ensures
            ({
                let a = self.section.area_model();
                let t = self.section.thickness_model();
                let hd = self.bolt_connection.bolt.diameter.hole_diameter_spec();
                let cols = self.section.gauge_model().len() as int;
                let fy = self.material.fy_spec();
                match r {
                    Ok(res) => {
                        &&& rat_le(hole_area_model(t, hd, cols), a)
                        &&& base_ny_model(a, t, hd, cols, fy).num != 0
                        &&& res.a@ == a
                        &&& res.ae@ == base_ae_model(a, t, hd, cols)
                        &&& res.fy@ == fy
                        &&& res.ny@ == base_ny_model(a, t, hd, cols, fy)
                        &&& res.nd == n.force
                        &&& res.gamma@ == rat_div(n.force@, res.ny@)
                        &&& res.judge == judge_model(res.gamma@)
                        &&& res.name@ == "V1"@
                        &&& res.section_name@ == self.section.name_spec()
                        &&& res.material_name@ == self.material.name_spec()
                    },
                    Err(e) => {
                        ||| (!rat_le(hole_area_model(t, hd, cols), a) && e
                            == CalcError::InvalidQuantity)
                        ||| (rat_le(hole_area_model(t, hd, cols), a) && base_ny_model(
                            a,
                            t,
                            hd,
                            cols,
                            fy,
                        ).num == 0 && e == CalcError::UnsupportedConfiguration)
                    },
                }
            }),
    {
        let hole_diameter = self.bolt_connection.bolt.hole_diameter();
        let num_col = self.section.num_bolt_col();
        proof {
            assert(self.section.gauge_model().len() <= 4);
            assert(len_bounded(self.section.area_model()));
            assert(len_bounded(self.section.thickness_model()));
            assert(self.section.thickness_model().num >= 0);
        }
        base_yield(
            "V1",
            self.section.name(),
            self.material.name(),
            self.section.area(),
            self.section.thickness(),
            hole_diameter,
            num_col,
            self.material.get_fy(),
            n.force,
        )
    }

    /// The bolt-group yield check: every bolt of the group carries its
    /// single-friction-plane capacity.
    pub fn calculate_bolts(&self, n: &AxialForce) -> (r: Result<BoltYieldResult, CalcError>)
        requires
            self.wf(),
            n.wf(),
        ensures
            ({
                let qy = self.bolt_connection.bolt.single_friction_spec();
                let nb = self.bolt_connection.num_row * self.section.gauge_model().len();
                match r {
                    Ok(res) => {
                        &&& bolt_ny_model(qy, nb as int).num != 0
                        &&& res.qy@ == qy
                        &&& res.num_bolts == nb
                        &&& res.ny@ == bolt_ny_model(qy, nb as int)
                        &&& res.nd == n.force
                        &&& res.gamma@ == rat_div(n.force@, res.ny@)
                        &&& res.judge == judge_model(res.gamma@)
                        &&& res.name@ == "V1"@
                        &&& res.diameter_name@
                            == self.bolt_connection.bolt.diameter.name_spec()
                        &&& res.material_name@
                            == self.bolt_connection.bolt.material.name_spec()
                    },
                    Err(e) => bolt_ny_model(qy, nb as int).num == 0 && e
                        == CalcError::UnsupportedConfiguration,
                }
            }),
    {
        let num_row = self.bolt_connection.num_row;
        let num_col = self.section.num_bolt_col();
        proof {
            assert(self.section.gauge_model().len() <= 4);
            lemma_mul_bound(num_row as int, num_col as int, 10000, 4);
        }
        let num_bolts = num_row * num_col;
        let fs = self.bolt_connection.bolt.allowable_shear_short_single_friction();
        bolt_yield(
            "V1",
            self.bolt_connection.bolt.diameter.name(),
            self.bolt_connection.bolt.material.name(),
            fs,
            num_bolts,
            n.force,
        )
    }

    /// The gusset-plate yield check, against the current design load.
    /// Fails with `UnsupportedConfiguration` when the section has no gauge
    /// table entry.
    pub fn calculate_gpl(&self, n: &AxialForce) -> (r: Result<GplYieldResult, CalcError>)
        requires
            self.wf(),
            n.wf(),
        ensures
            ({
                let t = self.gpl.thickness@;
                let lg = self.gpl.lg@;
                let gw = self.section.gauge_width_model();
                let hd = self.bolt_connection.bolt.diameter.hole_diameter_spec();
                let rows = self.bolt_connection.num_row as int;
                let cols = self.section.gauge_model().len() as int;
                let ae = gpl_ae_model(t, lg, rows, gw, hd, cols);
                let fy = self.gpl.material.fy_spec();
                match r {
                    Ok(res) => {
                        &&& self.section.gauge_model().len() > 0
                        &&& t.num >= 0
                        &&& gpl_eff_length_model(lg, rows, gw).num * t.num >= 0
                        &&& ae.num != 0
                        &&& res.lg == self.gpl.lg
                        &&& res.thickness == self.gpl.thickness
                        &&& res.a@ == gpl_gross_model(t, lg, rows, gw)
                        &&& res.ae@ == ae
                        &&& res.fy@ == fy
                        &&& res.ny@ == rat_mul(ae, fy)
                        &&& res.nd == n.force
                        &&& res.gamma@ == rat_div(rat_div(n.force@, ae), fy)
                        &&& res.judge == judge_model(res.gamma@)
                        &&& res.name@ == "V1"@
                        &&& res.material_name@ == self.gpl.material.name_spec()
                    },
                    Err(e) => {
                        ||| (self.section.gauge_model().len() == 0 && e
                            == CalcError::UnsupportedConfiguration)
                        ||| (self.section.gauge_model().len() > 0 && t.num < 0 && e
                            == CalcError::InvalidQuantity)
                        ||| (self.section.gauge_model().len() > 0 && t.num >= 0
                            && gpl_eff_length_model(lg, rows, gw).num * t.num < 0 && e
                            == CalcError::InvalidQuantity)
                        ||| (self.section.gauge_model().len() > 0 && t.num >= 0
                            && gpl_eff_length_model(lg, rows, gw).num * t.num >= 0 && ae.num == 0
                            && e == CalcError::UnsupportedConfiguration)
                    },
                }
            }),
    {
        let gw = match self.section.gauge_width() {
            Ok(w) => w,
            Err(e) => {
                return Err(e);
            },
        };
        let hole_diameter = self.bolt_connection.bolt.hole_diameter();
        let num_col = self.section.num_bolt_col();
        proof {
            assert(self.section.gauge_model().len() <= 4);
            crate::section::lemma_gauge_width_bounds(self.section);
        }
        gpl_yield(
            "V1",
            &self.gpl,
            gw,
            self.bolt_connection.num_row,
            hole_diameter,
            num_col,
            n.force,
        )
    }
}

impl Default for Brace {
    /// The smallest cut-T section, mild steel, one row of M20 F10T bolts,
    /// and a gusset plate matching the section thickness with a three
    /// hundred millimetre half-length.
    fn default() -> (r: Self)
        ensures
            r.section == SectionProfile::Ct(CTSteel::Ct100x200x8x12),
            r.material == SteelMaterial::SS400,
            r.bolt_connection.bolt.diameter == crate::bolt::BoltDiameter::M20,
            r.bolt_connection.bolt.material == crate::material::BoltMaterial::F10T,
            r.bolt_connection.num_row == 1,
            r.gpl.thickness@ == rat_of_int(12),
            r.gpl.lg@ == rat_of_int(300),
            r.gpl.material == SteelMaterial::SS400,
            r.welding.welding_type == crate::welding::WeldingType::I,
            r.wf(),
    {
        let section = CTSteel::Ct100x200x8x12;
        let gpl = GussetPlate::new(
            section.thickness(),
            Length::new(Rational::from_int(300), LengthUnit::MilliMeter),
            SteelMaterial::SS400,
        );
        Brace {
            section: SectionProfile::Ct(section),
            material: SteelMaterial::SS400,
            bolt_connection: BoltConnection {
                bolt: crate::bolt::HighTensionBolt {
                    diameter: crate::bolt::BoltDiameter::M20,
                    material: crate::material::BoltMaterial::F10T,
                },
                num_row: 1,
            },
            gpl,
            welding: Welding::default(),
        }
    }
}

} // verus!
