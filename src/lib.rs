//! A verified bridge between a native voice-chat plugin host and plugin logic:
//! typed calls out to the host with exactly-once release of host memory, a
//! two-phase plugin lifecycle, and hook dispatch with sentinel translation.
pub mod types;
pub mod traits;
pub mod status;
pub mod host;
pub mod text;
pub mod resource;
pub mod api;
pub mod registry;
pub mod dispatch;
pub mod resource_table;

pub use api::{ApiError, MumbleAPI, MumbleResult};
pub use host::{HostPort, HostTable};
pub use registry::{Activation, Lifecycle, LifecycleError, PluginHolder, PluginRegistry};
pub use resource::{Freeable, FreeableMaybeUninit};
pub use resource_table::{NotRegistered, ResourceTable, SendConstPointer};
pub use text::ReceivedData;
pub use traits::{
    CheckableId, ErrAsResult, MumbleOutputAudio, MumblePlugin, MumblePluginDescriptor,
    MumblePluginUpdater,
};
