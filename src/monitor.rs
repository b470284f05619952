//! The decisions of monitor mode: what each event of the preference stream
//! leads to.
use crate::error::ThemeError;
use crate::theme::{infer_theme, theme_of, ThemePreference};
use vstd::prelude::*;

verus! {

/// What happens while monitoring.
#[derive(Debug)]
pub enum MonitorEvent {
    /// The preference source emitted this line.
    Line(String),
    /// The fan-out started for the last line ended with this result.
    Applied(Result<(), ThemeError>),
    /// The preference source closed its output.
    Closed,
}

/// What the monitor does next.
#[derive(Clone, Copy, Debug, PartialEq, Eq)]
pub enum MonitorAction {
    /// Apply this theme to every application, then report `Applied`.
    Apply(ThemePreference),
    /// Wait for the next line.
    Listen,
    /// Stop monitoring with this result; nothing resubscribes.
    Stop(Result<(), ThemeError>),
}

/// The action that `event` leads to: every line, changed or not, starts a
/// full fan-out of the theme it stands for; a failed fan-out stops the
/// monitor with its error; a closed stream stops it with success.
pub open spec fn monitor_action(event: MonitorEvent) -> MonitorAction {
    match event {
        MonitorEvent::Line(l) => MonitorAction::Apply(theme_of(l@)),
        MonitorEvent::Applied(Ok(())) => MonitorAction::Listen,
        MonitorEvent::Applied(Err(e)) => MonitorAction::Stop(Err(e)),
        MonitorEvent::Closed => MonitorAction::Stop(Ok(())),
    }
}

/// Decides what the monitor does on `event`.
pub fn monitor_step(event: &MonitorEvent) -> (r: MonitorAction)
    ensures
        r == monitor_action(*event),
{
    match event {
        MonitorEvent::Line(l) => MonitorAction::Apply(infer_theme(l.as_str())),
        MonitorEvent::Applied(Ok(())) => MonitorAction::Listen,
        MonitorEvent::Applied(Err(e)) => MonitorAction::Stop(Err(*e)),
        MonitorEvent::Closed => MonitorAction::Stop(Ok(())),
    }
}

} // verus!
