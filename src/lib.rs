//! Deploys a locally built binary to a remote host: the content digest, the
//! version name, the remote commands and the step-by-step deployment machine
//! are verified here; running the commands is left to the caller.

pub mod digest;
pub mod naming;
pub mod pipeline;
pub mod remote;
pub mod request;

pub use digest::{digest_chunks, ContentHasher};
pub use naming::{remote_file_name, version_name};
pub use pipeline::{Action, DeployError, Deployment, Event, Stage};
pub use remote::{activation_command, copy_call, ensure_dir_command, make_dir_call, restart_call};
pub use request::DeployArgs;
