//! The 64-byte command report and the rule that sets its state markers.
//!
//! The report is a fixed template in which six bytes encode the state of the
//! board's channels. Each of them holds [`MARKER_ON`] in the template.
//! Switching the board off rewrites them to [`MARKER_OFF`]. The rewrite goes
//! by value, not by offset: it is only right for a template in which no other
//! byte equals the marker, which [`lemma_template_markers`] shows of
//! [`TEMPLATE`].

use vstd::prelude::*;
use crate::action::Action;

verus! {

/// Length of the command report in bytes.
pub const REPORT_LEN: usize = 64;

/// Marker byte of a channel that is switched on.
pub const MARKER_ON: u8 = 0xF5;

/// Marker byte of a channel that is switched off.
pub const MARKER_OFF: u8 = 0xF4;

/// The command report that switches every channel on: report identifier,
/// length and opcode fields, one marker per channel, a fixed trailer and
/// zero padding.
pub const TEMPLATE: [u8; 64] = [
    0x02, 0x00, 0x00, 0x15, 0x00, 0x40, 0x00, 0x00, 0x82, 0x8c, 0x06, 0xf5, 0x14, 0xf5, 0x16, 0xf5,
    0x17, 0xf5, 0x18, 0x2a, 0xf5, 0x18, 0x2d, 0xf5, 0x82, 0x01, 0x19, 0x0c, 0xe4, 0x00, 0x00, 0x00,
    0x00, 0x00, 0x00, 0x00, 0x00, 0x00, 0x00, 0x00, 0x00, 0x00, 0x00, 0x00, 0x00, 0x00, 0x00, 0x00,
    0x00, 0x00, 0x00, 0x00, 0x00, 0x00, 0x00, 0x00, 0x00, 0x00, 0x00, 0x00, 0x00, 0x00, 0x00, 0x00,
];

/// The offsets of the template that hold a channel's state marker.
pub open spec fn is_marker_offset(i: int) -> bool {
    i == 11 || i == 13 || i == 15 || i == 17 || i == 20 || i == 23
}

/// A report with the requested state applied: unchanged for `On`; for `Off`,
/// every byte equal to the on-marker becomes the off-marker.
pub open spec fn with_state(report: Seq<u8>, action: Action) -> Seq<u8> {
    Seq::new(
        report.len(),
        |i: int|
            if action == Action::Off && report[i] == MARKER_ON {
                MARKER_OFF
            } else {
                report[i]
            },
    )
}

/// Applies the requested state to a report.
pub fn apply_state(template: &[u8; 64], action: Action) -> (report: [u8; 64])
    ensures
        report@ == with_state(template@, action),
{
    let mut report: [u8; 64] = *template;
    match action {
        Action::On => {},
        Action::Off => {
            let mut i: usize = 0;
            while i < REPORT_LEN
                invariant
                    i <= REPORT_LEN,
                    action == Action::Off,
                    forall|k: int| 0 <= k < i ==> report@[k] == with_state(template@, action)[k],
                    forall|k: int| i <= k < REPORT_LEN ==> report@[k] == template@[k],
                decreases REPORT_LEN - i,
            {
                if report[i] == MARKER_ON {
                    report[i] = MARKER_OFF;
                }
                i += 1;
            }
        },
    }
    report
}

/// Builds the report to transmit for an action.
pub fn build_payload(action: Action) -> (report: [u8; 64])
    ensures
        report@ == with_state(TEMPLATE@, action),
        report@.len() == REPORT_LEN,
        action == Action::On ==> report@ == TEMPLATE@,
{
    let template = TEMPLATE;
    proof {
        lemma_on_keeps_report(template@);
    }
    apply_state(&template, action)
}

/// Switching on leaves a report as it is.
pub proof fn lemma_on_keeps_report(report: Seq<u8>)
    ensures
        with_state(report, Action::On) == report,
{
    assert(with_state(report, Action::On) =~= report);
}

/// Switching off replaces every on-marker by the off-marker and changes no
/// other byte; the length stays.
pub proof fn lemma_off_replaces_markers(report: Seq<u8>)
    ensures
        with_state(report, Action::Off).len() == report.len(),
        forall|i: int|
            0 <= i < report.len() && report[i] == MARKER_ON ==> #[trigger] with_state(
                report,
                Action::Off,
            )[i] == MARKER_OFF,
        forall|i: int|
            0 <= i < report.len() && report[i] != MARKER_ON ==> #[trigger] with_state(
                report,
                Action::Off,
            )[i] == report[i],
{
}

/// Applying a state never changes the length of a report.
pub proof fn lemma_state_keeps_length(report: Seq<u8>, action: Action)
    ensures
        with_state(report, action).len() == report.len(),
{
}

/// Applying the same state twice gives what applying it once gives.
pub proof fn lemma_state_is_idempotent(report: Seq<u8>, action: Action)
    ensures
        with_state(with_state(report, action), action) == with_state(report, action),
{
    assert(with_state(with_state(report, action), action) =~= with_state(report, action));
}

/// No on-marker is left in a report that was switched off.
pub proof fn lemma_off_leaves_no_on_marker(report: Seq<u8>, i: int)
    requires
        0 <= i < report.len(),
    ensures
        with_state(report, Action::Off)[i] != MARKER_ON,
{
}

/// In the template the on-marker stands at the six marker offsets and nowhere
/// else, and the off-marker nowhere.
pub proof fn lemma_template_markers()
    ensures
        forall|i: int|
            0 <= i < 64 ==> (#[trigger] TEMPLATE@[i] == MARKER_ON <==> is_marker_offset(i)),
        forall|i: int| 0 <= i < 64 ==> #[trigger] TEMPLATE@[i] != MARKER_OFF,
{
}

/// The report that switches the board off is the template with the
/// off-marker at the six marker offsets, and it differs from the template in
/// no other place.
pub proof fn lemma_off_payload()
    ensures
        forall|i: int|
            0 <= i < 64 && is_marker_offset(i) ==> #[trigger] with_state(TEMPLATE@, Action::Off)[i]
                == MARKER_OFF,
        forall|i: int|
            0 <= i < 64 && !is_marker_offset(i) ==> #[trigger] with_state(TEMPLATE@, Action::Off)[i]
                == TEMPLATE@[i],
{
    lemma_template_markers();
}

} // verus!
