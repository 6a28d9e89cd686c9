//! The logic of Tock OS on the TI CC2538 (OpenMote board), verified: the
//! kernel's scheduling decisions, the CC2538 GPIO,
//! IOC, system-control and UART drivers over models of their register
//! blocks, the start-up memory initialisation, and a few capsules.
pub mod analog_comparator;
pub mod analog_sensor;
pub mod callback;
pub mod crt1;
pub mod gpio;
pub mod hello_world;
pub mod hil;
pub mod ioc;
pub mod openmote;
pub mod process;
pub mod returncode;
pub mod sched;
pub mod sensys;
pub mod sys_ctrl;
pub mod test_mod;
pub mod uart;

pub use callback::{AppId, Callback};
pub use returncode::ReturnCode;
pub use sched::Kernel;
