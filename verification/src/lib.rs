//! Window and workspace registry for a desktop shell.
//!
//! The registry keeps an ordered view of the windows a compositor manages,
//! which one is focused, and which workspace is active. Two compositor
//! protocols are bridged to one canonical event type; the registry applies
//! those events while preserving its ordering and focus invariants.

pub mod event;
pub mod launchables;
pub mod protocol_a;
pub mod protocol_b;
pub mod registry;
pub mod resolver;

pub use event::CompositorEvent;
pub use event::SnapshotItem;
pub use registry::Registry;
pub use registry::WindowEntry;
pub use resolver::OverrideTable;
