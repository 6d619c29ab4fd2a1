//! Device-side emulation of a handheld game controller's USB HID protocol:
//! frame codec, bring-up handshake, subcommand dispatch, emulated calibration
//! storage and the per-session controller state that feeds input reports.
pub mod codec;
pub mod controller;
pub mod frame;
pub mod handshake;
pub mod hid_report;
pub mod report;
pub mod session;
pub mod storage;
pub mod subcommand;

pub use codec::{decode_output, OutputReport};
pub use controller::{ButtonsStatus, ControllerState, StandardInputReport, Stick};
pub use frame::{pad_frame, FRAME_LEN};
pub use handshake::{handshake_response, HandshakeState, NintendoReportType};
pub use hid_report::{Button, UsbSwitchProControllerReport};
pub use report::{device_info, DeviceInfo, InputReport, SubcommandReply};
pub use session::{handle_request, FrameOutcome, Session};
pub use storage::{handle_spi_read, spi_in_range, SpiRange, SpiReadResult, StorageRegion};
pub use subcommand::{dispatch, SubcommandRequest};
