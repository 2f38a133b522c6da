//! The command-driven control loop: a single consumer takes commands in
//! arrival order and sequences the device's lifecycle. It alone owns the
//! digit renderer and the telemetry client's state, so no other task ever
//! touches the hardware frame or the cached token.

use vstd::prelude::*;
use crate::error::SolarMonitorError;
use crate::rgbdigit::all_off;
use crate::rgbdigit_display::{RgbDigitDisplay, spec_show, spec_status_fits};
use crate::solar_status::SolarStatus;

verus! {

/// A command consumed by the control loop, strictly in arrival order.
#[derive(Clone, Copy, Debug, PartialEq, Eq, Structural)]
pub enum Command {
    /// Begin showing readings on the next ticks.
    Start,
    /// Blank the display and stop reacting to ticks.
    Stop,
    /// One polling beat from the periodic ticker.
    Tick,
}

/// Whether the loop currently renders readings.
#[derive(Clone, Copy, Debug, PartialEq, Eq, Structural)]
pub enum ControlState {
    Stopped,
    Running,
}

/// What the loop's owner must do after one command is consumed.
#[derive(Debug, PartialEq, Eq)]
pub enum Directive {
    /// Fetch a reading and render it through `ControlLoop::show_status`.
    FetchAndShow,
    /// Nothing: the command was a no-op in the current state.
    Idle,
    /// Write this frame to the hardware sink; the display was blanked.
    Flush(Vec<u8>),
}

/// The single consumer of the command queue, owning the renderer.
pub struct ControlLoop {
    pub state: ControlState,
    pub display: RgbDigitDisplay,
}

impl ControlLoop {
    /// A fresh loop starts stopped: ticks are ignored until a start.
    pub fn new(display: RgbDigitDisplay) -> (r: Self)
        ensures
            r.state == ControlState::Stopped,
            r.display == display,
    {
        ControlLoop { state: ControlState::Stopped, display }
    }

    /// Consumes one command. A start marks the loop running and is
    /// idempotent; a tick asks for a fetch-and-render exactly when the loop
    /// runs and is ignored otherwise; a stop blanks the display, hands the
    /// clearing frame back for the sink, and marks the loop stopped.
    pub fn handle_command(&mut self, cmd: &Command) -> (d: Directive)
        requires
            old(self).display.wf(),
        ensures
            final(self).display.wf(),
            match *cmd {
                Command::Start => {
                    &&& final(self).state == ControlState::Running
                    &&& final(self).display == old(self).display
                    &&& d == Directive::Idle
                },
                Command::Tick => {
                    &&& *final(self) == *old(self)
                    &&& d == (if old(self).state == ControlState::Running {
                        Directive::FetchAndShow
                    } else {
                        Directive::Idle
                    })
                },
                Command::Stop => {
                    &&& final(self).state == ControlState::Stopped
                    &&& final(self).display.display@.len() == 10
                    &&& forall|i: int| 0 <= i < 10 ==> final(self).display.display@[i] == all_off()
                    &&& d matches Directive::Flush(frame) && frame@
                        == crate::rgbdigit::spec_spi_frame(final(self).display.display@)
                },
            },
    {
        match cmd {
            Command::Start => {
                self.state = ControlState::Running;
                Directive::Idle
            },
            Command::Tick => {
                if self.state == ControlState::Running {
                    Directive::FetchAndShow
                } else {
                    Directive::Idle
                }
            },
            Command::Stop => {
                self.state = ControlState::Stopped;
                let frame = self.display.shutdown();
                Directive::Flush(frame)
            },
        }
    }

    /// Renders one fetched reading during a running tick; the returned frame
    /// goes to the hardware sink. On a value too wide for its cells the
    /// renderer is left untouched and the error is fatal to the tick.
    pub fn show_status(&mut self, status: &SolarStatus) -> (r: Result<Vec<u8>, SolarMonitorError>)
        requires
            old(self).display.wf(),
        ensures
            final(self).display.wf(),
            final(self).state == old(self).state,
            r is Ok <==> spec_status_fits(*status),
            match r {
                Result::Ok(frame) => {
                    &&& final(self).display.display@ == spec_show(
                        old(self).display.display@,
                        *status,
                    )
                    &&& frame@ == crate::rgbdigit::spec_spi_frame(final(self).display.display@)
                },
                Result::Err(e) => {
                    &&& e == SolarMonitorError::DISPLAY(
                        crate::rgbdigit::RenderError::InsufficientDigits,
                    )
                    &&& *final(self) == *old(self)
                },
            },
    {
        self.display.show_status(status)
    }
}

} // verus!
