//! Launch logic for the `cu` context server of an editor extension.
//!
//! The adapter remembers where the `cu` binary was last found, lets a
//! configured path take the place of that memory, and says how the binary is
//! started. It performs no input or output itself: whenever it needs a fact
//! about the machine it asks its host for it, and goes on with the answer.

pub mod adapter;
pub mod configuration;
pub mod host;
pub mod laws;
pub mod model;
pub mod text;

pub use adapter::ContainerUseMcpExtension;
pub use configuration::ContextServerConfiguration;
pub use host::{
    Command, ContainerUseMcpSettings, HostReply, HostRequest, LaunchEvent, SettingsReading, Step,
};
