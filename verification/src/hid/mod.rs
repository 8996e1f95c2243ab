//! LED panel model for the Honeycomb Bravo.
//!
//! The panel's LEDs live in four bank bytes. [`BravoDevice`] keeps a mirror of
//! the desired banks, decides when they must go out to the hardware, and
//! encodes them in the 64-byte feature report of its device model (the Bravo
//! or the Bravo Lite); the transport itself lives outside this library.

pub mod connection;

use vstd::prelude::*;
use crate::protocol::{DeviceModel, REPORT_LEN, report_byte};
use vstd::array::spec_array_update;

verus! {

/// Number of LED bank bytes in the report.
pub const BANK_COUNT: usize = 4;

/// Number of lamp positions the banks address (8 bits per bank).
pub const LAMP_SLOTS: usize = 32;

/// Re-send the current LED state at least this often (milliseconds), so that
/// silent hardware resets do not leave the panel dark.
pub const FORCE_REFRESH_INTERVAL_MS: u64 = 3000;

/// Whether bit `bit` of `byte` is set.
pub open spec fn bit_is_set(byte: u8, bit: u8) -> bool {
    byte & (1u8 << bit) != 0
}

/// The 32 lamp positions that four bank bytes light: position `8 * b + k` is
/// bit `k` of bank `b`.
#[verifier::opaque]
pub open spec fn lamps_of(banks: [u8; BANK_COUNT]) -> Seq<bool> {
    Seq::new(LAMP_SLOTS as nat, |i: int| bit_is_set(banks[i / 8], (i % 8) as u8))
}

/// Four bank bytes address [`LAMP_SLOTS`] lamps.
pub broadcast proof fn lemma_lamps_len(banks: [u8; BANK_COUNT])
    ensures
        #[trigger] lamps_of(banks).len() == LAMP_SLOTS,
{
    reveal(lamps_of);
}

/// One LED on the Bravo, identified by its bank and bit.
pub struct Led {
    pub bank: usize,
    pub bit: u8,
    /// Short label (matches the panel silkscreen) for diagnostic logging.
    pub name: &'static str,
}

impl Led {
    /// The LED addresses an existing bank bit.
    pub open spec fn wf(self) -> bool {
        self.bank < BANK_COUNT && self.bit < 8
    }

    /// The lamp position of the LED in [`lamps_of`].
    pub open spec fn index(self) -> int {
        self.bank * 8 + self.bit
    }

    fn new(bank: usize, bit: u8, name: &'static str) -> (led: Led)
        requires
            bank < BANK_COUNT,
            bit < 8,
        ensures
            led == (Led { bank, bit, name }),
    {
        Led { bank, bit, name }
    }

    /// Short label for this LED. Matches the panel silkscreen.
    pub fn name(&self) -> (n: &'static str)
        ensures
            n == self.name,
    {
        self.name
    }

    /// True iff this LED is set in the given bank snapshot.
    pub fn is_lit(&self, banks: &[u8; BANK_COUNT]) -> (lit: bool)
        requires
            self.wf(),
        ensures
            lit == lamps_of(*banks)[self.index()],
    {
        proof {
            reveal(lamps_of);
        }
        banks[self.bank] & (1u8 << self.bit) != 0
    }
}


// ===========================================================================
// Physical panel <-> HID bit layout. Labels match the panel silkscreen.
//
// Autopilot row, bank 0, left to right:
//     HDG   NAV   APR   REV   ALT   VS   IAS   AUTO PILOT
//
// Landing-gear strip, bank 1 bits 0..5: a green and a red LED for each of the
// left, nose and right gear. Setting both at once is a hardware no-op (green
// wins), so the logic picks one or none.
//
// Annunciator panel, 2 rows of 7, in reading order; it spills into banks 1..3
// because the gear strip takes six bits of bank 1. Bank 3 bits 4..7 are unused.
// ===========================================================================

/// The HDG LED: bank 0, bit 0.
#[verifier::allow_in_spec]
pub fn led_ap_hdg() -> Led
    returns
        (Led { bank: 0, bit: 0, name: "HDG" }),
{
    Led::new(0, 0, "HDG")
}

/// The NAV LED: bank 0, bit 1.
#[verifier::allow_in_spec]
pub fn led_ap_nav() -> Led
    returns
        (Led { bank: 0, bit: 1, name: "NAV" }),
{
    Led::new(0, 1, "NAV")
}

/// The APR LED: bank 0, bit 2.
#[verifier::allow_in_spec]
pub fn led_ap_apr() -> Led
    returns
        (Led { bank: 0, bit: 2, name: "APR" }),
{
    Led::new(0, 2, "APR")
}

/// The REV LED: bank 0, bit 3.
#[verifier::allow_in_spec]
pub fn led_ap_rev() -> Led
    returns
        (Led { bank: 0, bit: 3, name: "REV" }),
{
    Led::new(0, 3, "REV")
}

/// The ALT LED: bank 0, bit 4.
#[verifier::allow_in_spec]
pub fn led_ap_alt() -> Led
    returns
        (Led { bank: 0, bit: 4, name: "ALT" }),
{
    Led::new(0, 4, "ALT")
}

/// The VS LED: bank 0, bit 5.
#[verifier::allow_in_spec]
pub fn led_ap_vs() -> Led
    returns
        (Led { bank: 0, bit: 5, name: "VS" }),
{
    Led::new(0, 5, "VS")
}

/// The IAS LED: bank 0, bit 6.
#[verifier::allow_in_spec]
pub fn led_ap_ias() -> Led
    returns
        (Led { bank: 0, bit: 6, name: "IAS" }),
{
    Led::new(0, 6, "IAS")
}

/// The AP LED: bank 0, bit 7.
#[verifier::allow_in_spec]
pub fn led_ap_autopilot() -> Led
    returns
        (Led { bank: 0, bit: 7, name: "AP" }),
{
    Led::new(0, 7, "AP")
}

/// The L_GREEN LED: bank 1, bit 0.
#[verifier::allow_in_spec]
pub fn led_ldg_l_green() -> Led
    returns
        (Led { bank: 1, bit: 0, name: "L_GREEN" }),
{
    Led::new(1, 0, "L_GREEN")
}

/// The L_RED LED: bank 1, bit 1.
#[verifier::allow_in_spec]
pub fn led_ldg_l_red() -> Led
    returns
        (Led { bank: 1, bit: 1, name: "L_RED" }),
{
    Led::new(1, 1, "L_RED")
}

/// The N_GREEN LED: bank 1, bit 2.
#[verifier::allow_in_spec]
pub fn led_ldg_n_green() -> Led
    returns
        (Led { bank: 1, bit: 2, name: "N_GREEN" }),
{
    Led::new(1, 2, "N_GREEN")
}

/// The N_RED LED: bank 1, bit 3.
#[verifier::allow_in_spec]
pub fn led_ldg_n_red() -> Led
    returns
        (Led { bank: 1, bit: 3, name: "N_RED" }),
{
    Led::new(1, 3, "N_RED")
}

/// The R_GREEN LED: bank 1, bit 4.
#[verifier::allow_in_spec]
pub fn led_ldg_r_green() -> Led
    returns
        (Led { bank: 1, bit: 4, name: "R_GREEN" }),
{
    Led::new(1, 4, "R_GREEN")
}

/// The R_RED LED: bank 1, bit 5.
#[verifier::allow_in_spec]
pub fn led_ldg_r_red() -> Led
    returns
        (Led { bank: 1, bit: 5, name: "R_RED" }),
{
    Led::new(1, 5, "R_RED")
}

/// The MASTER_WARNING LED: bank 1, bit 6.
#[verifier::allow_in_spec]
pub fn led_anc_master_warning() -> Led
    returns
        (Led { bank: 1, bit: 6, name: "MASTER_WARNING" }),
{
    Led::new(1, 6, "MASTER_WARNING")
}

/// The ENGINE_FIRE LED: bank 1, bit 7.
#[verifier::allow_in_spec]
pub fn led_anc_engine_fire() -> Led
    returns
        (Led { bank: 1, bit: 7, name: "ENGINE_FIRE" }),
{
    Led::new(1, 7, "ENGINE_FIRE")
}

/// The LOW_OIL_PRESSURE LED: bank 2, bit 0.
#[verifier::allow_in_spec]
pub fn led_anc_low_oil_pressure() -> Led
    returns
        (Led { bank: 2, bit: 0, name: "LOW_OIL_PRESSURE" }),
{
    Led::new(2, 0, "LOW_OIL_PRESSURE")
}

/// The LOW_FUEL_PRESSURE LED: bank 2, bit 1.
#[verifier::allow_in_spec]
pub fn led_anc_low_fuel_pressure() -> Led
    returns
        (Led { bank: 2, bit: 1, name: "LOW_FUEL_PRESSURE" }),
{
    Led::new(2, 1, "LOW_FUEL_PRESSURE")
}

/// The ANTI_ICE LED: bank 2, bit 2.
#[verifier::allow_in_spec]
pub fn led_anc_anti_ice() -> Led
    returns
        (Led { bank: 2, bit: 2, name: "ANTI_ICE" }),
{
    Led::new(2, 2, "ANTI_ICE")
}

/// The STARTER_ENGAGED LED: bank 2, bit 3.
#[verifier::allow_in_spec]
pub fn led_anc_starter_engaged() -> Led
    returns
        (Led { bank: 2, bit: 3, name: "STARTER_ENGAGED" }),
{
    Led::new(2, 3, "STARTER_ENGAGED")
}

/// The APU LED: bank 2, bit 4.
#[verifier::allow_in_spec]
pub fn led_anc_apu() -> Led
    returns
        (Led { bank: 2, bit: 4, name: "APU" }),
{
    Led::new(2, 4, "APU")
}

/// The MASTER_CAUTION LED: bank 2, bit 5.
#[verifier::allow_in_spec]
pub fn led_anc_master_caution() -> Led
    returns
        (Led { bank: 2, bit: 5, name: "MASTER_CAUTION" }),
{
    Led::new(2, 5, "MASTER_CAUTION")
}

/// The VACUUM LED: bank 2, bit 6.
#[verifier::allow_in_spec]
pub fn led_anc_vacuum() -> Led
    returns
        (Led { bank: 2, bit: 6, name: "VACUUM" }),
{
    Led::new(2, 6, "VACUUM")
}

/// The LOW_HYD_PRESSURE LED: bank 2, bit 7.
#[verifier::allow_in_spec]
pub fn led_anc_low_hyd_pressure() -> Led
    returns
        (Led { bank: 2, bit: 7, name: "LOW_HYD_PRESSURE" }),
{
    Led::new(2, 7, "LOW_HYD_PRESSURE")
}

/// The AUX_FUEL_PUMP LED: bank 3, bit 0.
#[verifier::allow_in_spec]
pub fn led_anc_aux_fuel_pump() -> Led
    returns
        (Led { bank: 3, bit: 0, name: "AUX_FUEL_PUMP" }),
{
    Led::new(3, 0, "AUX_FUEL_PUMP")
}

/// The PARKING_BRAKE LED: bank 3, bit 1.
#[verifier::allow_in_spec]
pub fn led_anc_parking_brake() -> Led
    returns
        (Led { bank: 3, bit: 1, name: "PARKING_BRAKE" }),
{
    Led::new(3, 1, "PARKING_BRAKE")
}

/// The LOW_VOLTS LED: bank 3, bit 2.
#[verifier::allow_in_spec]
pub fn led_anc_low_volts() -> Led
    returns
        (Led { bank: 3, bit: 2, name: "LOW_VOLTS" }),
{
    Led::new(3, 2, "LOW_VOLTS")
}

/// The DOOR LED: bank 3, bit 3.
#[verifier::allow_in_spec]
pub fn led_anc_door() -> Led
    returns
        (Led { bank: 3, bit: 3, name: "DOOR" }),
{
    Led::new(3, 3, "DOOR")
}

/// Every Bravo LED in physical-panel reading order.
pub open spec fn all_leds_spec() -> Seq<Led> {
    seq![
        led_ap_hdg(),
        led_ap_nav(),
        led_ap_apr(),
        led_ap_rev(),
        led_ap_alt(),
        led_ap_vs(),
        led_ap_ias(),
        led_ap_autopilot(),
        led_ldg_l_green(),
        led_ldg_l_red(),
        led_ldg_n_green(),
        led_ldg_n_red(),
        led_ldg_r_green(),
        led_ldg_r_red(),
        led_anc_master_warning(),
        led_anc_engine_fire(),
        led_anc_low_oil_pressure(),
        led_anc_low_fuel_pressure(),
        led_anc_anti_ice(),
        led_anc_starter_engaged(),
        led_anc_apu(),
        led_anc_master_caution(),
        led_anc_vacuum(),
        led_anc_low_hyd_pressure(),
        led_anc_aux_fuel_pump(),
        led_anc_parking_brake(),
        led_anc_low_volts(),
        led_anc_door(),
    ]
}

/// Every Bravo LED in physical-panel reading order: autopilot row, landing
/// gear, then the annunciators top row then bottom row.
pub fn all_leds() -> (leds: Vec<Led>)
    ensures
        leds@ == all_leds_spec(),
{
    let leds = vec![
        led_ap_hdg(),
        led_ap_nav(),
        led_ap_apr(),
        led_ap_rev(),
        led_ap_alt(),
        led_ap_vs(),
        led_ap_ias(),
        led_ap_autopilot(),
        led_ldg_l_green(),
        led_ldg_l_red(),
        led_ldg_n_green(),
        led_ldg_n_red(),
        led_ldg_r_green(),
        led_ldg_r_red(),
        led_anc_master_warning(),
        led_anc_engine_fire(),
        led_anc_low_oil_pressure(),
        led_anc_low_fuel_pressure(),
        led_anc_anti_ice(),
        led_anc_starter_engaged(),
        led_anc_apu(),
        led_anc_master_caution(),
        led_anc_vacuum(),
        led_anc_low_hyd_pressure(),
        led_anc_aux_fuel_pump(),
        led_anc_parking_brake(),
        led_anc_low_volts(),
        led_anc_door(),
    ];
    assert(leds@ =~= all_leds_spec());
    leds
}

/// The bank bytes `banks` with `led` lit (`on`) or dark.
pub open spec fn with_led(banks: [u8; BANK_COUNT], led: Led, on: bool) -> [u8; BANK_COUNT] {
    let b = banks[led.bank as int];
    let mask = 1u8 << led.bit;
    spec_array_update(banks, led.bank as int, if on { b | mask } else { b & !mask })
}

/// Setting and clearing one bit of a byte leaves every other bit alone.
proof fn lemma_bit_update(x: u8, b: u8, j: u8)
    by (bit_vector)
    requires
        b < 8,
        j < 8,
    ensures
        bit_is_set(x | (1u8 << b), j) == (j == b || bit_is_set(x, j)),
        bit_is_set(x & !(1u8 << b), j) == (j != b && bit_is_set(x, j)),
        !bit_is_set(0u8, j),
{
}

/// Rewriting one bank byte changes only the lamps of that bank.
proof fn lemma_lamps_after_write(old: [u8; BANK_COUNT], new: [u8; BANK_COUNT], led: Led, on: bool)
    requires
        led.wf(),
        new[led.bank as int] == (if on {
            old[led.bank as int] | (1u8 << led.bit)
        } else {
            old[led.bank as int] & !(1u8 << led.bit)
        }),
        forall|b: int| 0 <= b < BANK_COUNT && b != led.bank ==> new[b] == old[b],
    ensures
        lamps_of(new) == lamps_of(old).update(led.index(), on),
{
    reveal(lamps_of);
    assert forall|i: int| 0 <= i < LAMP_SLOTS implies #[trigger] lamps_of(new)[i] == lamps_of(
        old,
    ).update(led.index(), on)[i] by {
        let j = (i % 8) as u8;
        lemma_bit_update(old[led.bank as int], led.bit, j);
        if i / 8 == led.bank {
        } else {
            assert(i != led.index());
        }
    }
    assert(lamps_of(new) =~= lamps_of(old).update(led.index(), on));
}

/// All-zero banks light nothing.
pub proof fn lemma_dark_banks()
    ensures
        forall|i: int| 0 <= i < LAMP_SLOTS ==> !#[trigger] lamps_of([0u8; BANK_COUNT])[i],
{
    reveal(lamps_of);
    assert forall|i: int| 0 <= i < LAMP_SLOTS implies !#[trigger] lamps_of([0u8; BANK_COUNT])[i] by {
        lemma_bit_update(0, 0, (i % 8) as u8);
    }
}

} // verus!

verus! {

/// Number of LEDs on the Bravo panel.
pub const LED_COUNT: usize = 28;

/// The Bravo's LEDs address distinct lamp positions: in reading order, the
/// LED at position `i` of [`all_leds`] is lamp `i`.
pub proof fn lemma_all_leds_layout()
    ensures
        all_leds_spec().len() == LED_COUNT,
        forall|i: int|
            0 <= i < LED_COUNT ==> (#[trigger] all_leds_spec()[i]).wf() && all_leds_spec()[i].index()
                == i,
{
    assert forall|i: int| 0 <= i < LED_COUNT implies (#[trigger] all_leds_spec()[i]).wf()
        && all_leds_spec()[i].index() == i by {}
}

} // verus!

verus! {

/// Whether two bank snapshots hold the same bytes.
pub fn same_banks(a: &[u8; BANK_COUNT], b: &[u8; BANK_COUNT]) -> (same: bool)
    ensures
        same == (*a == *b),
{
    let same = a[0] == b[0] && a[1] == b[1] && a[2] == b[2] && a[3] == b[3];
    if same {
        assert(*a =~= *b);
    }
    same
}

/// The state of the LED panel mirror.
pub struct PanelView {
    /// Desired LED bank bytes, kept in sync with the simulator.
    pub banks: [u8; BANK_COUNT],
    /// The bytes last written to the hardware; `None` forces a re-send.
    pub last_sent: Option<[u8; BANK_COUNT]>,
    /// Time (ms) from which the next flush re-sends whatever the state.
    pub next_force_refresh: u64,
    /// Whether LED reports go out to the device at all.
    pub leds_enabled: bool,
    /// The device the reports are encoded for.
    pub model: DeviceModel,
}

/// A flush at time `now` writes to the hardware: LEDs are enabled and the
/// desired state differs from what was last sent, or the forced refresh is due.
pub open spec fn flush_due(v: PanelView, now: u64) -> bool {
    v.leds_enabled && (v.last_sent != Some(v.banks) || now >= v.next_force_refresh)
}

/// The panel state after a flush at `now` whose write succeeded (`sent`) or failed.
pub open spec fn after_flush(v: PanelView, sent: bool, now: u64) -> PanelView {
    if sent {
        PanelView {
            last_sent: Some(v.banks),
            next_force_refresh: (now + FORCE_REFRESH_INTERVAL_MS) as u64,
            ..v
        }
    } else {
        PanelView { last_sent: None, ..v }
    }
}

/// The panel state with every LED off.
pub open spec fn dark(v: PanelView) -> PanelView {
    PanelView { banks: [0u8; BANK_COUNT], ..v }
}

/// A freshly created panel for `model` at time `now` (ms): dark, nothing sent yet.
pub open spec fn fresh_panel(model: DeviceModel, leds_enabled: bool, now: u64) -> PanelView {
    PanelView {
        banks: [0u8; BANK_COUNT],
        last_sent: None,
        next_force_refresh: (now + FORCE_REFRESH_INTERVAL_MS) as u64,
        leds_enabled,
        model,
    }
}

/// The panel state after LED output is switched to `enabled`. Enabling forgets
/// what was sent, so the next flush re-syncs; disabling darkens the panel.
pub open spec fn after_set_enabled(v: PanelView, enabled: bool) -> PanelView {
    if v.leds_enabled == enabled {
        v
    } else if enabled {
        PanelView { leds_enabled: true, last_sent: None, ..v }
    } else {
        PanelView { leds_enabled: false, ..dark(v) }
    }
}

/// Switching LED output off at `now` must first write the all-off report.
pub open spec fn disable_flush_due(v: PanelView, enabled: bool, now: u64) -> bool {
    v.leds_enabled && !enabled && flush_due(dark(v), now)
}

/// LED panel state mirror.
pub struct BravoDevice {
    banks: [u8; BANK_COUNT],
    last_sent: Option<[u8; BANK_COUNT]>,
    next_force_refresh: u64,
    leds_enabled: bool,
    model: DeviceModel,
}

impl View for BravoDevice {
    type V = PanelView;

    closed spec fn view(&self) -> PanelView {
        PanelView {
            banks: self.banks,
            last_sent: self.last_sent,
            next_force_refresh: self.next_force_refresh,
            leds_enabled: self.leds_enabled,
            model: self.model,
        }
    }
}

impl BravoDevice {
    /// A dark panel for `model` created at time `now` (ms), with nothing sent yet.
    pub fn new(model: DeviceModel, leds_enabled: bool, now: u64) -> (device: Self)
        requires
            now <= u64::MAX - FORCE_REFRESH_INTERVAL_MS,
        ensures
            device@ == fresh_panel(model, leds_enabled, now),
    {
        BravoDevice {
            banks: [0u8; BANK_COUNT],
            last_sent: None,
            next_force_refresh: now + FORCE_REFRESH_INTERVAL_MS,
            leds_enabled,
            model,
        }
    }

    /// The device the reports are encoded for.
    pub fn model(&self) -> (model: DeviceModel)
        ensures
            model == self@.model,
    {
        self.model
    }

    /// Turn LED output on or off. Enabling forces a re-sync on the next flush.
    /// Disabling darkens the panel and returns the all-off report when a flush
    /// is due: it must be written (then [`BravoDevice::finish_flush`] called)
    /// before the panel goes quiet.
    pub fn set_leds_enabled(&mut self, enabled: bool, now: u64) -> (report: Option<[u8; REPORT_LEN]>)
        ensures
            final(self)@ == after_set_enabled(old(self)@, enabled),
            report is Some <==> disable_flush_due(old(self)@, enabled, now),
            report matches Some(r) ==> forall|i: int|
                0 <= i < REPORT_LEN ==> r[i] == report_byte(old(self)@.model, [0u8; BANK_COUNT]@, i),
    {
        if self.leds_enabled == enabled {
            return None;
        }
        if enabled {
            self.leds_enabled = true;
            self.last_sent = None;
            None
        } else {
            self.all_leds_off();
            let report = self.flush(now);
            self.leds_enabled = false;
            report
        }
    }

    /// Light or darken one LED.
    pub fn set_led(&mut self, led: &Led, on: bool)
        requires
            led.wf(),
        ensures
            final(self)@ == (PanelView { banks: with_led(old(self)@.banks, *led, on), ..old(self)@ }),
            lamps_of(final(self)@.banks) == lamps_of(old(self)@.banks).update(led.index(), on),
    {
        let mask: u8 = 1u8 << led.bit;
        let prev = self.banks[led.bank];
        let next = if on {
            prev | mask
        } else {
            prev & !mask
        };
        self.banks[led.bank] = next;
        proof {
            lemma_lamps_after_write(old(self).banks, self.banks, *led, on);
            assert(self.banks =~= with_led(old(self).banks, *led, on));
        }
    }

    /// Darken every LED.
    pub fn all_leds_off(&mut self)
        ensures
            final(self)@ == dark(old(self)@),
    {
        self.banks = [0u8; BANK_COUNT];
    }

    /// Current in-memory bank bytes.
    pub fn banks(&self) -> (banks: [u8; BANK_COUNT])
        ensures
            banks == self@.banks,
    {
        self.banks
    }

    /// The report to write at time `now` (ms), if a flush is due: on a state
    /// change or once the forced refresh is due, and only with LEDs enabled.
    /// The report is the device model's encoding of the banks. Once the write has been
    /// attempted, [`BravoDevice::finish_flush`] records its outcome.
    pub fn flush(&self, now: u64) -> (report: Option<[u8; REPORT_LEN]>)
        ensures
            report is Some <==> flush_due(self@, now),
            report matches Some(r) ==> forall|i: int|
                0 <= i < REPORT_LEN ==> r[i] == report_byte(self@.model, self@.banks@, i),
            self@.leds_enabled && (self@.last_sent matches Some(sent) && exists|b: int|
                0 <= b < BANK_COUNT && sent[b] != self@.banks[b]) ==> report is Some,
    {
        if !self.leds_enabled {
            return None;
        }
        let state_changed = match &self.last_sent {
            Some(sent) => !same_banks(sent, &self.banks),
            None => true,
        };
        let due_for_refresh = now >= self.next_force_refresh;
        if !state_changed && !due_for_refresh {
            return None;
        }
        Some(self.model.encode(self.banks))
    }

    /// Record the outcome of a flush's write at time `now` (ms): on success the
    /// sent bytes are remembered and the forced refresh moves
    /// [`FORCE_REFRESH_INTERVAL_MS`] ahead; on failure the next flush retries.
    pub fn finish_flush(&mut self, sent: bool, now: u64)
        requires
            sent ==> now <= u64::MAX - FORCE_REFRESH_INTERVAL_MS,
        ensures
            final(self)@ == after_flush(old(self)@, sent, now),
    {
        if sent {
            self.last_sent = Some(self.banks);
            self.next_force_refresh = now + FORCE_REFRESH_INTERVAL_MS;
        } else {
            self.last_sent = None;
        }
    }
}

/// Initialise the device once, for the configured model and LED enable flag;
/// later calls update the flag in place (the device, and so its model, is
/// created once). Returns the all-off report that a disabling call must write
/// before the panel goes quiet.
pub fn configure(device: &mut Option<BravoDevice>, model: DeviceModel, leds_enabled: bool, now: u64) -> (report: Option<
    [u8; REPORT_LEN],
>)
    requires
        now <= u64::MAX - FORCE_REFRESH_INTERVAL_MS,
    ensures
        ({
            let start = match *old(device) {
                Some(d) => d@,
                None => fresh_panel(model, leds_enabled, now),
            };
            &&& *final(device) matches Some(d) && d@ == after_set_enabled(start, leds_enabled)
            &&& report is Some <==> disable_flush_due(start, leds_enabled, now)
            &&& report matches Some(r) ==> forall|i: int|
                0 <= i < REPORT_LEN ==> r[i] == report_byte(start.model, [0u8; BANK_COUNT]@, i)
        }),
{
    if device.is_none() {
        *device = Some(BravoDevice::new(model, leds_enabled, now));
    }
    match device {
        Some(d) => d.set_leds_enabled(leds_enabled, now),
        None => None,
    }
}

/// Lighting or darkening one LED changes that LED's lamp and no other.
pub proof fn lemma_with_led(banks: [u8; BANK_COUNT], led: Led, on: bool)
    requires
        led.wf(),
    ensures
        lamps_of(with_led(banks, led, on)) == lamps_of(banks).update(led.index(), on),
        lamps_of(with_led(banks, led, on))[led.index()] == on,
{
    let new = with_led(banks, led, on);
    assert(new@ == banks@.update(led.bank as int, new[led.bank as int]));
    lemma_lamps_after_write(banks, new, led, on);
    lemma_lamps_len(banks);
}

/// After a successful write at `now`, with the banks unchanged, no flush writes
/// again before the forced refresh is due; from then on a flush writes while
/// LEDs are enabled.
pub proof fn lemma_flush_quiet_until_refresh(v: PanelView, now: u64, later: u64)
    requires
        now <= u64::MAX - FORCE_REFRESH_INTERVAL_MS,
    ensures
        later < now + FORCE_REFRESH_INTERVAL_MS ==> !flush_due(after_flush(v, true, now), later),
        later >= now + FORCE_REFRESH_INTERVAL_MS ==> flush_due(after_flush(v, true, now), later)
            == v.leds_enabled,
{
}

/// After a failed write, the next flush retries while LEDs are enabled.
pub proof fn lemma_failed_flush_retried(v: PanelView, now: u64, later: u64)
    ensures
        flush_due(after_flush(v, false, now), later) == v.leds_enabled,
{
}

/// Re-enabling LED output makes the next flush write, whatever was sent before.
pub proof fn lemma_enable_resyncs(v: PanelView, now: u64)
    requires
        !v.leds_enabled,
    ensures
        flush_due(after_set_enabled(v, true), now),
{
}

/// Disabling LED output leaves the panel dark, and no flush writes afterwards.
pub proof fn lemma_disable_goes_dark_and_quiet(v: PanelView, now: u64)
    requires
        v.leds_enabled,
    ensures
        after_set_enabled(v, false).banks == [0u8; BANK_COUNT],
        !flush_due(after_set_enabled(v, false), now),
{
}

/// The LED flag follows the last setting, a repeated setting changes nothing,
/// and the device (its model among it) is kept.
pub proof fn lemma_enabled_follows_last_setting(v: PanelView, a: bool, b: bool)
    ensures
        after_set_enabled(after_set_enabled(v, a), b).leds_enabled == b,
        after_set_enabled(after_set_enabled(v, b), b) == after_set_enabled(v, b),
        after_set_enabled(v, a).model == v.model,
{
}

/// A device first set up with LEDs off writes nothing, at setup or at any
/// later flush, for as long as LED output stays off.
pub proof fn lemma_disabled_device_never_writes(model: DeviceModel, now: u64, later: u64, v: PanelView)
    ensures
        !disable_flush_due(fresh_panel(model, false, now), false, now),
        after_set_enabled(fresh_panel(model, false, now), false) == fresh_panel(model, false, now),
        !v.leds_enabled ==> !flush_due(v, later),
{
}

/// A flush's outcome is recorded: a successful write remembers the bytes sent
/// and moves the forced refresh [`FORCE_REFRESH_INTERVAL_MS`] past `now`; a
/// failed write forgets what was sent (so the next flush retries) and keeps
/// the refresh time. Nothing else changes.
pub proof fn lemma_flush_outcome_recorded(v: PanelView, sent: bool, now: u64, later: u64)
    requires
        now <= u64::MAX - FORCE_REFRESH_INTERVAL_MS,
    ensures
        sent ==> after_flush(v, sent, now).last_sent == Some(v.banks) && after_flush(v, sent, now).next_force_refresh
            == now + FORCE_REFRESH_INTERVAL_MS,
        !sent ==> after_flush(v, sent, now).last_sent is None && after_flush(v, sent, now).next_force_refresh
            == v.next_force_refresh,
        !sent ==> flush_due(after_flush(v, sent, now), later) == v.leds_enabled,
        after_flush(v, sent, now).banks == v.banks,
        after_flush(v, sent, now).leds_enabled == v.leds_enabled,
        after_flush(v, sent, now).model == v.model,
{
}

/// With LEDs enabled, a flush writes whenever any of the four bank bytes
/// differs from the bytes last sent, or nothing was sent yet, whatever the
/// time; with the bytes unchanged it writes only once the forced refresh is
/// due; with LEDs disabled it never writes.
pub proof fn lemma_flush_writes_changes(v: PanelView, now: u64, b: int)
    ensures
        v.leds_enabled && v.last_sent is None ==> flush_due(v, now),
        v.leds_enabled && (v.last_sent matches Some(s) && 0 <= b < BANK_COUNT && s[b] != v.banks[b])
            ==> flush_due(v, now),
        v.last_sent == Some(v.banks) ==> (flush_due(v, now) <==> v.leds_enabled && now >= v.next_force_refresh),
        !v.leds_enabled ==> !flush_due(v, now),
{
}

} // verus!
