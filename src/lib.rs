//! Verified core of a reed/hall-effect sensor reporter: device identity,
//! request URL construction, the sensor-to-reporter channel and the decision
//! logic of the supervisor, monitor and reporter tasks.
pub mod device_id;
pub mod url;
pub mod channel;
pub mod monitor;
pub mod supervisor;
pub mod reporter;
pub mod startup;
