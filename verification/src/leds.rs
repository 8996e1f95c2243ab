//! LED logic: from the aircraft's dataref values, decide which Bravo LEDs are
//! lit, and notice when that decision changes.
//!
//! The host reads the datarefs and hands them over as [`LedInputs`]; the
//! float-valued ones (bus voltage, gear ratios, brake and door ratios) arrive
//! already compared against their thresholds.

use vstd::prelude::*;
use crate::datarefs::{array_has_true, get_ap_state, int_to_bool};
use crate::protocol::{REPORT_LEN, report_byte};
use crate::hid::{
    same_banks, flush_due, BravoDevice, Led, LAMP_SLOTS, lamps_of, all_leds, all_leds_spec, LED_COUNT, lemma_all_leds_layout, lemma_dark_banks, led_ap_hdg, led_ap_nav, led_ap_apr, led_ap_rev, led_ap_alt, led_ap_vs, led_ap_ias, led_ap_autopilot, led_ldg_l_green, led_ldg_l_red, led_ldg_n_green, led_ldg_n_red, led_ldg_r_green, led_ldg_r_red, led_anc_master_warning, led_anc_engine_fire, led_anc_low_oil_pressure, led_anc_low_fuel_pressure, led_anc_anti_ice, led_anc_starter_engaged, led_anc_apu, led_anc_master_caution, led_anc_vacuum, led_anc_low_hyd_pressure, led_anc_aux_fuel_pump, led_anc_parking_brake, led_anc_low_volts, led_anc_door, BANK_COUNT,
};

verus! {

broadcast use crate::hid::lemma_lamps_len;

/// Position of one landing gear leg.
#[derive(Debug, Clone, Copy, PartialEq, Eq, Structural)]
pub enum GearPosition {
    /// Up (deploy ratio at most 0.01).
    Stowed,
    /// Moving (deploy ratio between the rails).
    InTransit,
    /// Down and locked (deploy ratio at least 0.99).
    Deployed,
}

/// The dataref values the LED logic reads. `None` stands for a dataref that
/// could not be found.
pub struct LedInputs {
    /// Bus voltage above zero.
    pub powered: bool,
    pub hdg: Option<i32>,
    pub nav: Option<i32>,
    pub apr: Option<i32>,
    pub rev: Option<i32>,
    pub alt: Option<i32>,
    pub vs: Option<i32>,
    pub ias: Option<i32>,
    pub ap: Option<i32>,
    /// Gear legs in simulator order: nose, left, right.
    pub gear: Option<Vec<GearPosition>>,
    pub master_warning: Option<i32>,
    pub engine_fire: Option<Vec<i32>>,
    pub low_oil_pressure: Option<Vec<i32>>,
    pub low_fuel_pressure: Option<Vec<i32>>,
    pub anti_ice: Option<i32>,
    pub starter_engaged: Option<Vec<i32>>,
    pub apu: Option<i32>,
    pub master_caution: Option<i32>,
    pub vacuum: Option<i32>,
    pub low_hyd_pressure: Option<i32>,
    pub aux_fuel_pump_left: Option<i32>,
    pub aux_fuel_pump_right: Option<i32>,
    /// Parking-brake ratio above zero.
    pub parking_brake: Option<bool>,
    pub low_volts: Option<i32>,
    /// Canopy open ratio above 0.01.
    pub canopy_open: Option<bool>,
    /// For each door, open ratio above 0.01.
    pub doors_open: Option<Vec<bool>>,
    pub cabin_door: Option<i32>,
}

/// The LED keeps its state when its dataref is missing.
pub open spec fn flag_or(old: bool, v: Option<bool>) -> bool {
    match v {
        Some(b) => b,
        None => old,
    }
}

/// Autopilot mode lamp: lit when armed or captured.
pub open spec fn ap_flag(v: Option<i32>) -> Option<bool> {
    match v {
        Some(x) => Some(x >= 1),
        None => None,
    }
}

/// ALT lamp: lit only when captured (2), not when merely armed (1).
pub open spec fn alt_flag(v: Option<i32>) -> Option<bool> {
    match v {
        Some(x) => Some(x > 1),
        None => None,
    }
}

/// Boolean int lamp: lit when non-zero.
pub open spec fn int_flag(v: Option<i32>) -> Option<bool> {
    match v {
        Some(x) => Some(x != 0),
        None => None,
    }
}

/// Per-engine lamp: lit when any engine reports 1.
#[verifier::opaque]
pub open spec fn array_flag(v: Option<Vec<i32>>) -> Option<bool> {
    match v {
        Some(a) => Some(a@.contains(1)),
        None => None,
    }
}

/// An auxiliary fuel pump is running (mode 2).
pub open spec fn aux_running(v: Option<i32>) -> bool {
    v == Some(2i32)
}

/// Canopy open, one of the first ten doors open, or the cabin-door annunciator on.
#[verifier::opaque]
pub open spec fn door_open(d: LedInputs) -> bool {
    ||| d.canopy_open == Some(true)
    ||| (match d.doors_open {
        Some(doors) => exists|k: int| 0 <= k < doors@.len() && k < 10 && doors@[k],
        None => false,
    })
    ||| (match d.cabin_door {
        Some(c) => c != 0,
        None => false,
    })
}

/// Lamp `i` after the autopilot row is updated; other lamps keep `old`.
pub open spec fn autopilot_lamp(i: int, d: LedInputs, old: bool) -> bool {
    if i == led_ap_hdg().index() {
        flag_or(old, ap_flag(d.hdg))
    } else if i == led_ap_nav().index() {
        flag_or(old, ap_flag(d.nav))
    } else if i == led_ap_apr().index() {
        flag_or(old, ap_flag(d.apr))
    } else if i == led_ap_rev().index() {
        flag_or(old, ap_flag(d.rev))
    } else if i == led_ap_alt().index() {
        flag_or(old, alt_flag(d.alt))
    } else if i == led_ap_vs().index() {
        flag_or(old, ap_flag(d.vs))
    } else if i == led_ap_ias().index() {
        flag_or(old, ap_flag(d.ias))
    } else if i == led_ap_autopilot().index() {
        flag_or(old, int_flag(d.ap))
    } else {
        old
    }
}

/// Lamp `i` after the landing-gear strip is updated: per leg, green when down,
/// red when moving, both off when up. Without three legs nothing changes.
pub open spec fn gear_lamp(i: int, d: LedInputs, old: bool) -> bool {
    match d.gear {
        Some(g) => if g@.len() < 3 {
            old
        } else if i == led_ldg_n_green().index() {
            g@[0] == GearPosition::Deployed
        } else if i == led_ldg_n_red().index() {
            g@[0] == GearPosition::InTransit
        } else if i == led_ldg_l_green().index() {
            g@[1] == GearPosition::Deployed
        } else if i == led_ldg_l_red().index() {
            g@[1] == GearPosition::InTransit
        } else if i == led_ldg_r_green().index() {
            g@[2] == GearPosition::Deployed
        } else if i == led_ldg_r_red().index() {
            g@[2] == GearPosition::InTransit
        } else {
            old
        },
        None => old,
    }
}

/// Lamp `i` after the annunciator top row is updated (MASTER WARNING, ENGINE
/// FIRE, LOW OIL PRESSURE, LOW FUEL PRESSURE, ANTI ICE, STARTER ENGAGED, APU);
/// other lamps keep `old`.
pub open spec fn top_row_lamp(i: int, d: LedInputs, old: bool) -> bool {
    if i == led_anc_master_warning().index() {
        flag_or(old, int_flag(d.master_warning))
    } else if i == led_anc_engine_fire().index() {
        flag_or(old, array_flag(d.engine_fire))
    } else if i == led_anc_low_oil_pressure().index() {
        flag_or(old, array_flag(d.low_oil_pressure))
    } else if i == led_anc_low_fuel_pressure().index() {
        flag_or(old, array_flag(d.low_fuel_pressure))
    } else if i == led_anc_anti_ice().index() {
        flag_or(old, int_flag(d.anti_ice))
    } else if i == led_anc_starter_engaged().index() {
        flag_or(old, array_flag(d.starter_engaged))
    } else if i == led_anc_apu().index() {
        flag_or(old, int_flag(d.apu))
    } else {
        old
    }
}

/// Lamp `i` after the annunciator bottom row is updated (MASTER CAUTION,
/// VACUUM, LOW HYD PRESSURE, AUX FUEL PUMP, PARKING BRAKE, LOW VOLTS, DOOR);
/// other lamps keep `old`. AUX FUEL PUMP and DOOR are always decided.
pub open spec fn bottom_row_lamp(i: int, d: LedInputs, old: bool) -> bool {
    if i == led_anc_master_caution().index() {
        flag_or(old, int_flag(d.master_caution))
    } else if i == led_anc_vacuum().index() {
        flag_or(old, int_flag(d.vacuum))
    } else if i == led_anc_low_hyd_pressure().index() {
        flag_or(old, int_flag(d.low_hyd_pressure))
    } else if i == led_anc_aux_fuel_pump().index() {
        aux_running(d.aux_fuel_pump_left) || aux_running(d.aux_fuel_pump_right)
    } else if i == led_anc_parking_brake().index() {
        flag_or(old, d.parking_brake)
    } else if i == led_anc_low_volts().index() {
        flag_or(old, int_flag(d.low_volts))
    } else if i == led_anc_door().index() {
        door_open(d)
    } else {
        old
    }
}

/// Lamp `i` after the annunciator panel is updated; other lamps keep `old`.
pub open spec fn annunciator_lamp(i: int, d: LedInputs, old: bool) -> bool {
    bottom_row_lamp(i, d, top_row_lamp(i, d, old))
}

/// Lamp `i` of a powered panel whose lamp was `old`.
pub open spec fn panel_lamp(i: int, d: LedInputs, old: bool) -> bool {
    annunciator_lamp(i, d, gear_lamp(i, d, autopilot_lamp(i, d, old)))
}

/// Light or darken `led` from `v`, leaving it alone when `v` is `None`.
fn set_from(device: &mut BravoDevice, led: &Led, v: Option<bool>)
    requires
        led.wf(),
    ensures
        lamps_of(final(device)@.banks) == lamps_of(old(device)@.banks).update(
            led.index(),
            flag_or(lamps_of(old(device)@.banks)[led.index()], v),
        ),
        final(device)@.last_sent == old(device)@.last_sent,
        final(device)@.next_force_refresh == old(device)@.next_force_refresh,
        final(device)@.leds_enabled == old(device)@.leds_enabled,
        final(device)@.model == old(device)@.model,
{
    match v {
        Some(on) => device.set_led(led, on),
        None => {
            assert(lamps_of(old(device)@.banks) =~= lamps_of(old(device)@.banks).update(
                led.index(),
                lamps_of(old(device)@.banks)[led.index()],
            ));
        },
    }
}

fn ap_value(v: Option<i32>) -> (flag: Option<bool>)
    ensures
        flag == ap_flag(v),
{
    match v {
        Some(x) => Some(get_ap_state(x)),
        None => None,
    }
}

fn int_value(v: Option<i32>) -> (flag: Option<bool>)
    ensures
        flag == int_flag(v),
{
    match v {
        Some(x) => Some(int_to_bool(x)),
        None => None,
    }
}

fn array_value(v: &Option<Vec<i32>>) -> (flag: Option<bool>)
    ensures
        flag == array_flag(*v),
        match *v {
            Some(a) => flag == Some(a@.contains(1)),
            None => flag is None,
        },
{
    proof {
        reveal(array_flag);
    }
    match v {
        Some(a) => Some(array_has_true(a.as_slice())),
        None => None,
    }
}

/// Update the autopilot row.
pub fn update_autopilot_leds(device: &mut BravoDevice, d: &LedInputs)
    ensures
        forall|i: int|
            0 <= i < LAMP_SLOTS ==> #[trigger] lamps_of(final(device)@.banks)[i] == autopilot_lamp(
                i,
                *d,
                lamps_of(old(device)@.banks)[i],
            ),
        final(device)@.last_sent == old(device)@.last_sent,
        final(device)@.next_force_refresh == old(device)@.next_force_refresh,
        final(device)@.leds_enabled == old(device)@.leds_enabled,
        final(device)@.model == old(device)@.model,
{
    let ghost l0 = lamps_of(device@.banks);
    let v0 = ap_value(d.hdg);
    let v1 = ap_value(d.nav);
    let v2 = ap_value(d.apr);
    let v3 = ap_value(d.rev);
    let v4 = match d.alt {
        Some(x) => Some(x > 1),
        None => None,
    };
    let v5 = ap_value(d.vs);
    let v6 = ap_value(d.ias);
    let v7 = int_value(d.ap);
    set_from(device, &led_ap_hdg(), v0);
    let ghost l1 = lamps_of(device@.banks);
    set_from(device, &led_ap_nav(), v1);
    let ghost l2 = lamps_of(device@.banks);
    set_from(device, &led_ap_apr(), v2);
    let ghost l3 = lamps_of(device@.banks);
    set_from(device, &led_ap_rev(), v3);
    let ghost l4 = lamps_of(device@.banks);
    set_from(device, &led_ap_alt(), v4);
    let ghost l5 = lamps_of(device@.banks);
    set_from(device, &led_ap_vs(), v5);
    let ghost l6 = lamps_of(device@.banks);
    set_from(device, &led_ap_ias(), v6);
    let ghost l7 = lamps_of(device@.banks);
    set_from(device, &led_ap_autopilot(), v7);
    proof {
        lemma_autopilot_chain(l0, l1, l2, l3, l4, l5, l6, l7, lamps_of(device@.banks), *d);
    }
}

proof fn lemma_autopilot_chain(
    l0: Seq<bool>,
    l1: Seq<bool>,
    l2: Seq<bool>,
    l3: Seq<bool>,
    l4: Seq<bool>,
    l5: Seq<bool>,
    l6: Seq<bool>,
    l7: Seq<bool>,
    l8: Seq<bool>,
    d: LedInputs,
)
    requires
        l0.len() == LAMP_SLOTS,
        l1 == l0.update(0, flag_or(l0[0], ap_flag(d.hdg))),
        l2 == l1.update(1, flag_or(l1[1], ap_flag(d.nav))),
        l3 == l2.update(2, flag_or(l2[2], ap_flag(d.apr))),
        l4 == l3.update(3, flag_or(l3[3], ap_flag(d.rev))),
        l5 == l4.update(4, flag_or(l4[4], alt_flag(d.alt))),
        l6 == l5.update(5, flag_or(l5[5], ap_flag(d.vs))),
        l7 == l6.update(6, flag_or(l6[6], ap_flag(d.ias))),
        l8 == l7.update(7, flag_or(l7[7], int_flag(d.ap))),
    ensures
        forall|i: int| 0 <= i < LAMP_SLOTS ==> #[trigger] l8[i] == autopilot_lamp(i, d, l0[i]),
{
    assert forall|i: int| 0 <= i < LAMP_SLOTS implies #[trigger] l8[i] == autopilot_lamp(i, d, l0[i]) by {
        assert(l1[i] == (if i == 0 { flag_or(l0[0], ap_flag(d.hdg)) } else { l0[i] }));
        assert(l2[i] == (if i == 1 { flag_or(l1[1], ap_flag(d.nav)) } else { l1[i] }));
        assert(l3[i] == (if i == 2 { flag_or(l2[2], ap_flag(d.apr)) } else { l2[i] }));
        assert(l4[i] == (if i == 3 { flag_or(l3[3], ap_flag(d.rev)) } else { l3[i] }));
        assert(l5[i] == (if i == 4 { flag_or(l4[4], alt_flag(d.alt)) } else { l4[i] }));
        assert(l6[i] == (if i == 5 { flag_or(l5[5], ap_flag(d.vs)) } else { l5[i] }));
        assert(l7[i] == (if i == 6 { flag_or(l6[6], ap_flag(d.ias)) } else { l6[i] }));
        assert(l8[i] == (if i == 7 { flag_or(l7[7], int_flag(d.ap)) } else { l7[i] }));
    }
}

/// An auxiliary fuel pump is running (mode 2).
fn aux_fuel_running(v: Option<i32>) -> (running: bool)
    ensures
        running == aux_running(v),
{
    match v {
        Some(x) => x == 2,
        None => false,
    }
}

/// Canopy open, one of the first ten doors open, or the cabin door open.
pub fn any_door_open(d: &LedInputs) -> (open: bool)
    ensures
        open == door_open(*d),
{
    proof {
        reveal(door_open);
    }
    if let Some(true) = d.canopy_open {
        return true;
    }
    if let Some(doors) = &d.doors_open {
        let mut k: usize = 0;
        while k < doors.len() && k < 10
            invariant
                k <= doors@.len(),
                k <= 10,
                forall|j: int| 0 <= j < k ==> !doors@[j],
                d.doors_open matches Some(v) && v@ == doors@,
            decreases doors@.len() - k,
        {
            if doors[k] {
                proof {
                    reveal(door_open);
                    assert(doors@[k as int]);
                }
                return true;
            }
            k += 1;
        }
    }
    match d.cabin_door {
        Some(c) => int_to_bool(c),
        None => false,
    }
}

/// Light one gear leg: green when down, red when moving, dark when up.
fn set_gear_leg(device: &mut BravoDevice, green: &Led, red: &Led, pos: GearPosition)
    requires
        green.wf(),
        red.wf(),
        green.index() != red.index(),
    ensures
        lamps_of(final(device)@.banks) == lamps_of(old(device)@.banks).update(
            green.index(),
            pos == GearPosition::Deployed,
        ).update(red.index(), pos == GearPosition::InTransit),
        final(device)@.last_sent == old(device)@.last_sent,
        final(device)@.next_force_refresh == old(device)@.next_force_refresh,
        final(device)@.leds_enabled == old(device)@.leds_enabled,
        final(device)@.model == old(device)@.model,
{
    let (green_on, red_on) = match pos {
        GearPosition::Stowed => (false, false),
        GearPosition::Deployed => (true, false),
        GearPosition::InTransit => (false, true),
    };
    device.set_led(green, green_on);
    device.set_led(red, red_on);
}

/// Update the landing-gear strip from the nose, left and right legs; with
/// fewer than three legs reported, the strip is left alone.
pub fn update_gear_leds(device: &mut BravoDevice, d: &LedInputs)
    ensures
        forall|i: int|
            0 <= i < LAMP_SLOTS ==> #[trigger] lamps_of(final(device)@.banks)[i] == gear_lamp(
                i,
                *d,
                lamps_of(old(device)@.banks)[i],
            ),
        final(device)@.last_sent == old(device)@.last_sent,
        final(device)@.next_force_refresh == old(device)@.next_force_refresh,
        final(device)@.leds_enabled == old(device)@.leds_enabled,
        final(device)@.model == old(device)@.model,
{
    let ghost l0 = lamps_of(device@.banks);
    let gear = match &d.gear {
        Some(g) => g,
        None => return,
    };
    if gear.len() < 3 {
        return;
    }
    set_gear_leg(device, &led_ldg_n_green(), &led_ldg_n_red(), gear[0]);
    let ghost l1 = lamps_of(device@.banks);
    set_gear_leg(device, &led_ldg_l_green(), &led_ldg_l_red(), gear[1]);
    let ghost l2 = lamps_of(device@.banks);
    set_gear_leg(device, &led_ldg_r_green(), &led_ldg_r_red(), gear[2]);
    proof {
        lemma_gear_chain(l0, l1, l2, lamps_of(device@.banks), *d, gear@);
    }
}

proof fn lemma_gear_chain(
    l0: Seq<bool>,
    l1: Seq<bool>,
    l2: Seq<bool>,
    l3: Seq<bool>,
    d: LedInputs,
    g: Seq<GearPosition>,
)
    requires
        d.gear matches Some(v) && v@ == g,
        g.len() >= 3,
        l0.len() == LAMP_SLOTS,
        l1 == l0.update(10, g[0] == GearPosition::Deployed).update(11, g[0] == GearPosition::InTransit),
        l2 == l1.update(8, g[1] == GearPosition::Deployed).update(9, g[1] == GearPosition::InTransit),
        l3 == l2.update(12, g[2] == GearPosition::Deployed).update(13, g[2] == GearPosition::InTransit),
    ensures
        forall|i: int| 0 <= i < LAMP_SLOTS ==> #[trigger] l3[i] == gear_lamp(i, d, l0[i]),
{
}

/// Update the annunciator panel.
pub fn update_annunciator_leds(device: &mut BravoDevice, d: &LedInputs)
    ensures
        forall|i: int|
            0 <= i < LAMP_SLOTS ==> #[trigger] lamps_of(final(device)@.banks)[i] == annunciator_lamp(
                i,
                *d,
                lamps_of(old(device)@.banks)[i],
            ),
        final(device)@.last_sent == old(device)@.last_sent,
        final(device)@.next_force_refresh == old(device)@.next_force_refresh,
        final(device)@.leds_enabled == old(device)@.leds_enabled,
        final(device)@.model == old(device)@.model,
{
    let ghost l0 = lamps_of(device@.banks);
    let aux_fuel_active = aux_fuel_running(d.aux_fuel_pump_left) || aux_fuel_running(
        d.aux_fuel_pump_right,
    );
    set_from(device, &led_anc_master_warning(), int_value(d.master_warning));
    let ghost l1 = lamps_of(device@.banks);
    set_from(device, &led_anc_engine_fire(), array_value(&d.engine_fire));
    let ghost l2 = lamps_of(device@.banks);
    set_from(device, &led_anc_low_oil_pressure(), array_value(&d.low_oil_pressure));
    let ghost l3 = lamps_of(device@.banks);
    set_from(device, &led_anc_low_fuel_pressure(), array_value(&d.low_fuel_pressure));
    let ghost l4 = lamps_of(device@.banks);
    set_from(device, &led_anc_anti_ice(), int_value(d.anti_ice));
    let ghost l5 = lamps_of(device@.banks);
    set_from(device, &led_anc_starter_engaged(), array_value(&d.starter_engaged));
    let ghost l6 = lamps_of(device@.banks);
    set_from(device, &led_anc_apu(), int_value(d.apu));
    let ghost l7 = lamps_of(device@.banks);
    set_from(device, &led_anc_master_caution(), int_value(d.master_caution));
    let ghost l8 = lamps_of(device@.banks);
    set_from(device, &led_anc_vacuum(), int_value(d.vacuum));
    let ghost l9 = lamps_of(device@.banks);
    set_from(device, &led_anc_low_hyd_pressure(), int_value(d.low_hyd_pressure));
    let ghost l10 = lamps_of(device@.banks);
    set_from(device, &led_anc_low_volts(), int_value(d.low_volts));
    let ghost l11 = lamps_of(device@.banks);
    set_from(device, &led_anc_aux_fuel_pump(), Some(aux_fuel_active));
    let ghost l12 = lamps_of(device@.banks);
    set_from(device, &led_anc_parking_brake(), d.parking_brake);
    let ghost l13 = lamps_of(device@.banks);
    set_from(device, &led_anc_door(), Some(any_door_open(d)));
    proof {
        lemma_top_row_chain(l0, l1, l2, l3, l4, l5, l6, l7, *d);
        lemma_bottom_row_chain(l7, l8, l9, l10, l11, l12, l13, lamps_of(device@.banks), *d);
    }
}

proof fn lemma_top_row_chain(
    l0: Seq<bool>,
    l1: Seq<bool>,
    l2: Seq<bool>,
    l3: Seq<bool>,
    l4: Seq<bool>,
    l5: Seq<bool>,
    l6: Seq<bool>,
    l7: Seq<bool>,
    d: LedInputs,
)
    requires
        l0.len() == LAMP_SLOTS,
        l1 == l0.update(14, flag_or(l0[14], int_flag(d.master_warning))),
        l2 == l1.update(15, flag_or(l1[15], array_flag(d.engine_fire))),
        l3 == l2.update(16, flag_or(l2[16], array_flag(d.low_oil_pressure))),
        l4 == l3.update(17, flag_or(l3[17], array_flag(d.low_fuel_pressure))),
        l5 == l4.update(18, flag_or(l4[18], int_flag(d.anti_ice))),
        l6 == l5.update(19, flag_or(l5[19], array_flag(d.starter_engaged))),
        l7 == l6.update(20, flag_or(l6[20], int_flag(d.apu))),
    ensures
        forall|i: int| 0 <= i < LAMP_SLOTS ==> #[trigger] l7[i] == top_row_lamp(i, d, l0[i]),
{
    assert forall|i: int| 0 <= i < LAMP_SLOTS implies #[trigger] l7[i] == top_row_lamp(i, d, l0[i]) by {
        assert(l1[i] == (if i == 14 { flag_or(l0[14], int_flag(d.master_warning)) } else { l0[i] }));
        assert(l2[i] == (if i == 15 { flag_or(l1[15], array_flag(d.engine_fire)) } else { l1[i] }));
        assert(l3[i] == (if i == 16 { flag_or(l2[16], array_flag(d.low_oil_pressure)) } else { l2[i] }));
        assert(l4[i] == (if i == 17 { flag_or(l3[17], array_flag(d.low_fuel_pressure)) } else { l3[i] }));
        assert(l5[i] == (if i == 18 { flag_or(l4[18], int_flag(d.anti_ice)) } else { l4[i] }));
        assert(l6[i] == (if i == 19 { flag_or(l5[19], array_flag(d.starter_engaged)) } else { l5[i] }));
        assert(l7[i] == (if i == 20 { flag_or(l6[20], int_flag(d.apu)) } else { l6[i] }));
    }
}

proof fn lemma_bottom_row_chain(
    l7: Seq<bool>,
    l8: Seq<bool>,
    l9: Seq<bool>,
    l10: Seq<bool>,
    l11: Seq<bool>,
    l12: Seq<bool>,
    l13: Seq<bool>,
    l14: Seq<bool>,
    d: LedInputs,
)
    requires
        l7.len() == LAMP_SLOTS,
        l8 == l7.update(21, flag_or(l7[21], int_flag(d.master_caution))),
        l9 == l8.update(22, flag_or(l8[22], int_flag(d.vacuum))),
        l10 == l9.update(23, flag_or(l9[23], int_flag(d.low_hyd_pressure))),
        l11 == l10.update(26, flag_or(l10[26], int_flag(d.low_volts))),
        l12 == l11.update(24, flag_or(l11[24], Some(aux_running(d.aux_fuel_pump_left) || aux_running(d.aux_fuel_pump_right)))),
        l13 == l12.update(25, flag_or(l12[25], d.parking_brake)),
        l14 == l13.update(27, flag_or(l13[27], Some(door_open(d)))),
    ensures
        forall|i: int| 0 <= i < LAMP_SLOTS ==> #[trigger] l14[i] == bottom_row_lamp(i, d, l7[i]),
{
    assert forall|i: int| 0 <= i < LAMP_SLOTS implies #[trigger] l14[i] == bottom_row_lamp(i, d, l7[i]) by {
        assert(l8[i] == (if i == 21 { flag_or(l7[21], int_flag(d.master_caution)) } else { l7[i] }));
        assert(l9[i] == (if i == 22 { flag_or(l8[22], int_flag(d.vacuum)) } else { l8[i] }));
        assert(l10[i] == (if i == 23 { flag_or(l9[23], int_flag(d.low_hyd_pressure)) } else { l9[i] }));
        assert(l11[i] == (if i == 26 { flag_or(l10[26], int_flag(d.low_volts)) } else { l10[i] }));
        assert(l12[i] == (if i == 24 { flag_or(l11[24], Some(aux_running(d.aux_fuel_pump_left) || aux_running(d.aux_fuel_pump_right))) } else { l11[i] }));
        assert(l13[i] == (if i == 25 { flag_or(l12[25], d.parking_brake) } else { l12[i] }));
        assert(l14[i] == (if i == 27 { flag_or(l13[27], Some(door_open(d))) } else { l13[i] }));
    }
}

/// Remembers the last (powered, bank bytes) snapshot that was reported, so
/// that a change is reported once: quiet during steady flight.
pub struct LedLogState {
    last: Option<(bool, [u8; BANK_COUNT])>,
}

impl View for LedLogState {
    type V = Option<(bool, [u8; BANK_COUNT])>;

    closed spec fn view(&self) -> Option<(bool, [u8; BANK_COUNT])> {
        self.last
    }
}

impl LedLogState {
    /// Nothing reported yet.
    pub fn new() -> (s: Self)
        ensures
            s@ is None,
    {
        LedLogState { last: None }
    }

    /// Whether the snapshot differs from the last one reported; it becomes the
    /// last one reported.
    pub fn state_changed(&mut self, powered: bool, banks: [u8; BANK_COUNT]) -> (changed: bool)
        ensures
            changed == (old(self)@ != Some((powered, banks))),
            final(self)@ == Some((powered, banks)),
    {
        let changed = match &self.last {
            Some(last) => last.0 != powered || !same_banks(&last.1, &banks),
            None => true,
        };
        self.last = Some((powered, banks));
        changed
    }
}

/// What one LED update asks of the host: report the new state, and write a report.
pub struct LedUpdate {
    /// The (powered, bank bytes) snapshot changed since it was last reported.
    pub state_changed: bool,
    /// The LED report to write, when a flush is due.
    pub report: Option<[u8; REPORT_LEN]>,
}

/// Update all LED states from the dataref values `d` at time `now` (ms). A
/// powered panel follows the aircraft; without bus voltage the panel goes dark.
/// Then decide whether the state change is reported and whether a report is
/// written (once written, [`BravoDevice::finish_flush`] records the outcome).
pub fn handle_led_changes(device: &mut BravoDevice, log: &mut LedLogState, d: &LedInputs, now: u64) -> (update: LedUpdate)
    ensures
        forall|i: int|
            0 <= i < LAMP_SLOTS ==> #[trigger] lamps_of(final(device)@.banks)[i] == if d.powered {
                panel_lamp(i, *d, lamps_of(old(device)@.banks)[i])
            } else {
                false
            },
        final(device)@.last_sent == old(device)@.last_sent,
        final(device)@.next_force_refresh == old(device)@.next_force_refresh,
        final(device)@.leds_enabled == old(device)@.leds_enabled,
        final(device)@.model == old(device)@.model,
        update.state_changed == (old(log)@ != Some((d.powered, final(device)@.banks))),
        final(log)@ == Some((d.powered, final(device)@.banks)),
        update.report is Some <==> flush_due(final(device)@, now),
        update.report matches Some(r) ==> forall|i: int|
            0 <= i < REPORT_LEN ==> r[i] == report_byte(final(device)@.model, final(device)@.banks@, i),
{
    let ghost l0 = lamps_of(device@.banks);
    if d.powered {
        update_autopilot_leds(device, d);
        let ghost l1 = lamps_of(device@.banks);
        update_gear_leds(device, d);
        let ghost l2 = lamps_of(device@.banks);
        update_annunciator_leds(device, d);
        proof {
            let l3 = lamps_of(device@.banks);
            assert forall|i: int| 0 <= i < LAMP_SLOTS implies #[trigger] l3[i] == panel_lamp(i, *d, l0[i]) by {
                assert(l1[i] == autopilot_lamp(i, *d, l0[i]));
                assert(l2[i] == gear_lamp(i, *d, l1[i]));
            }
        }
    } else {
        device.all_leds_off();
        proof {
            lemma_dark_banks();
        }
    }
    let state_changed = log.state_changed(d.powered, device.banks());
    let report = device.flush(now);
    LedUpdate { state_changed, report }
}

/// The labels of the lit LEDs among `leds`, in order.
pub open spec fn lit_names(leds: Seq<Led>, banks: [u8; BANK_COUNT]) -> Seq<Seq<char>>
    decreases leds.len(),
{
    if leds.len() == 0 {
        seq![]
    } else {
        let rest = lit_names(leds.drop_last(), banks);
        if lamps_of(banks)[leds.last().index()] {
            rest.push(leds.last().name@)
        } else {
            rest
        }
    }
}

/// `names` joined by `+`.
pub open spec fn plus_joined(names: Seq<Seq<char>>) -> Seq<char>
    decreases names.len(),
{
    if names.len() == 0 {
        seq![]
    } else if names.len() == 1 {
        names[0]
    } else {
        plus_joined(names.drop_last()) + "+"@ + names.last()
    }
}

/// `+`-joined labels of the lit LEDs of a bank snapshot, in panel reading
/// order, or `(none)` when the panel is dark.
pub fn lit_led_names(banks: &[u8; BANK_COUNT]) -> (names: String)
    ensures
        names@ == if lit_names(all_leds_spec(), *banks).len() == 0 {
            "(none)"@
        } else {
            plus_joined(lit_names(all_leds_spec(), *banks))
        },
{
    let leds = all_leds();
    proof {
        lemma_all_leds_layout();
    }
    let mut out = String::new();
    let mut count: usize = 0;
    let mut i: usize = 0;
    while i < leds.len()
        invariant
            leds@ == all_leds_spec(),
            i <= leds@.len(),
            leds@.len() == LED_COUNT,
            forall|k: int| 0 <= k < LED_COUNT ==> (#[trigger] leds@[k]).wf(),
            count == lit_names(leds@.take(i as int), *banks).len(),
            count <= i,
            out@ == plus_joined(lit_names(leds@.take(i as int), *banks)),
        decreases leds@.len() - i,
    {
        let led = &leds[i];
        assert(leds@.take(i + 1).drop_last() =~= leds@.take(i as int));
        let ghost names = lit_names(leds@.take(i as int), *banks);
        if led.is_lit(banks) {
            let ghost prev = out@;
            if count > 0 {
                out.append("+");
            }
            out.append(led.name());
            proof {
                let grown = names.push(led.name@);
                assert(grown.drop_last() =~= names);
                if names.len() == 0 {
                    assert(prev =~= Seq::<char>::empty());
                    assert(out@ =~= led.name@);
                }
            }
            count += 1;
        }
        i += 1;
    }
    assert(leds@.take(LED_COUNT as int) =~= leds@);
    if count == 0 {
        String::from_str("(none)")
    } else {
        out
    }
}

/// A gear leg never shows green and red at once: once three legs are reported,
/// a powered panel lights one or none of each leg's two LEDs, whatever was lit
/// before.
pub proof fn lemma_gear_leg_one_colour(d: LedInputs, green: Led, red: Led, old_green: bool, old_red: bool)
    requires
        d.gear matches Some(g) && g@.len() >= 3,
        (green, red) == (led_ldg_n_green(), led_ldg_n_red()) || (green, red) == (
            led_ldg_l_green(),
            led_ldg_l_red(),
        ) || (green, red) == (led_ldg_r_green(), led_ldg_r_red()),
    ensures
        !(panel_lamp(green.index(), d, old_green) && panel_lamp(red.index(), d, old_red)),
{
}

/// A per-engine annunciator (ENGINE FIRE, LOW OIL PRESSURE, LOW FUEL
/// PRESSURE, STARTER ENGAGED) of a powered panel is lit exactly when some
/// engine's entry of its reported array is 1, wherever that entry stands.
pub proof fn lemma_per_engine_lamps(d: LedInputs, old: bool)
    ensures
        d.engine_fire matches Some(a) ==> panel_lamp(led_anc_engine_fire().index(), d, old) == (exists|e: int|
            0 <= e < a@.len() && a@[e] == 1),
        d.low_oil_pressure matches Some(a) ==> panel_lamp(led_anc_low_oil_pressure().index(), d, old) == (exists|
            e: int,
        | 0 <= e < a@.len() && a@[e] == 1),
        d.low_fuel_pressure matches Some(a) ==> panel_lamp(led_anc_low_fuel_pressure().index(), d, old) == (exists|
            e: int,
        | 0 <= e < a@.len() && a@[e] == 1),
        d.starter_engaged matches Some(a) ==> panel_lamp(led_anc_starter_engaged().index(), d, old) == (exists|
            e: int,
        | 0 <= e < a@.len() && a@[e] == 1),
{
    reveal(array_flag);
}

} // verus!
