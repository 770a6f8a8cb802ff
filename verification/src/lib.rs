//! Core of a scene-player runtime: a content-archive reader, a thread-safe
//! scene store, input-name parsing, the sandboxed binding layer that scripts
//! use to read and mutate the scene, and the script managers that launch,
//! schedule and cancel those scripts.
//!
//! Rendering, window plumbing and the script interpreters themselves live
//! outside this crate; everything here works on plain values and is verified.

pub mod archive;
pub mod cli;
pub mod endian;
pub mod input;
pub mod manager;
pub mod payload;
pub mod sandbox;
pub mod scalar;
pub mod scene;
pub mod store;
pub mod text;
pub mod viewport;

pub use archive::{ArchiveError, ArchiveFileEntry, CGameArchive};
pub use cli::CliOptions;
pub use endian::ArchiveEndian;
pub use input::{InputName, InputSnapshot, InputState, KeyCode, MouseButton, NamedKey};
pub use scalar::{Fixed, Vec3F};
pub use scene::{Light, Scene, SceneObject};
pub use manager::{ChangeRequest, CoopManager, CoopStatus, ScriptError};
pub use sandbox::{RunFlag, ScriptContext, ScriptValue, WaitStep, WriteOutcome};
pub use store::{DataModel, Field, SceneTable};
pub use viewport::{SharedViewport, StaticViewport, ViewportProvider};
