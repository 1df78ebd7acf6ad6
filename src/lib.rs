//! Frame loop logic for a fixed-hardware console target: a double-buffered
//! presenter, polled-controller edge detection, a frame-count clock, a
//! leveled log filter and the runner that ties the frame phases together.

pub mod input;
pub mod logging;
pub mod render;
pub mod runner;
pub mod time;

pub use input::{
    all_buttons, diff, logical_button, Button, ControllerSample, GamepadAxis, GamepadButton,
    InputEvent, PSXInputPlugin, Port, Stick, DEVICE_NAME, P1, P2, VENDOR_ID,
};
pub use logging::{LogLevel, PSXLogPlugin};
pub use render::{
    draw_and_swap, update_clear_color, ClearColor, Color, Framebuffer, PresentStep,
    RenderSchedule, Resolution, VideoMode,
};
pub use runner::{AppExit, PSXRunnerPlugin, RunnerAction, RunnerEvent, RunnerState};
pub use time::{deci_frame_rate, update_instant, PSXTimePlugin, VirtualClock};
