//! Composable control-system primitives with verified contracts.
//!
//! Scalars are binary64 values held by their 64-bit encodings (see [`scalar`]).
//! Every rule of the library (which inputs are rejected and with which error,
//! clamping, deadbands, classification, boundedness, settling, controller
//! state transitions) is verified here over the exact meaning of those
//! encodings. The rounding arithmetic itself (differences, products,
//! quotients, exponentials) is carried out by the caller, whose results enter
//! the functions below as arguments named after what they hold.
//!
//! The modules follow the focused parts of the library: feedback loops, PID
//! controllers, setpoints, control errors, control signals, system responses
//! and stability helpers. Their public items are also available from the
//! crate root.

pub mod scalar;
pub mod control_error;
pub mod control_signal;
pub mod feedback;
pub mod pid;
pub mod setpoint;
pub mod stability;
pub mod system_response;

pub use scalar::Scalar;
pub use control_error::{ControlErrorError, deadband, relative_error};
pub use control_signal::{ControlSignal, ControlSignalError, clamp_signal, saturate};
pub use feedback::{FeedbackDirection, FeedbackError, FeedbackLoop};
pub use pid::{PidController, PidError, PidGains, PidState, PidTerms};
pub use setpoint::{Setpoint, SetpointError, within_tolerance};
pub use stability::{Stability, StabilityError, classify_gain, is_bounded, settling_index};
pub use system_response::{
    StepResponsePoint, SystemResponseError, check_timestep, first_order_response,
    sample_first_order_response,
};
