//! The error taxonomy of the monitor: every core failure surfaces as one of
//! these, and the control loop treats each as fatal to the session.

use vstd::prelude::*;
use crate::rgbdigit::RenderError;
use crate::tesla_powerwall::PowerwallApiError;

verus! {

/// A failure of the monitor as a whole.
#[derive(Debug, PartialEq, Eq)]
pub enum SolarMonitorError {
    /// A value could not be rendered into its assigned digit cells.
    DISPLAY(RenderError),
    /// An auxiliary bitmap resource could not be read.
    BITMAP(String),
    /// The telemetry client failed.
    API(PowerwallApiError),
}

impl From<PowerwallApiError> for SolarMonitorError {
    fn from(value: PowerwallApiError) -> Self {
        SolarMonitorError::API(value)
    }
}

impl vstd::std_specs::convert::FromSpecImpl<PowerwallApiError> for SolarMonitorError {
    open spec fn obeys_from_spec() -> bool {
        true
    }

    open spec fn from_spec(value: PowerwallApiError) -> Self {
        SolarMonitorError::API(value)
    }
}

impl From<RenderError> for SolarMonitorError {
    fn from(value: RenderError) -> Self {
        SolarMonitorError::DISPLAY(value)
    }
}

impl vstd::std_specs::convert::FromSpecImpl<RenderError> for SolarMonitorError {
    open spec fn obeys_from_spec() -> bool {
        true
    }

    open spec fn from_spec(value: RenderError) -> Self {
        SolarMonitorError::DISPLAY(value)
    }
}

} // verus!
