use vstd::prelude::*;
use vstd::string::{StrSliceExecFns, StringExecFns};

verus! {

/// Directory under which the release build places the musl binary.
pub open spec fn build_output_root() -> Seq<char> {
    "./target/x86_64-unknown-linux-musl/release"@
}

/// The text of `base` joined with `name` as a path: a name that is itself
/// absolute replaces the base, any other is put under it.
pub open spec fn path_join(base: Seq<char>, name: Seq<char>) -> Seq<char> {
    if name.len() > 0 && name[0] == '/' {
        name
    } else {
        base + "/"@ + name
    }
}

/// The restart command that a service named `binary` gets by default.
pub open spec fn default_restart_command(binary: Seq<char>) -> Seq<char> {
    "systemctl restart "@ + binary
}

/// One deployment: where the binary goes and what it is called.
#[derive(Debug, Clone, PartialEq, Eq)]
pub struct DeployArgs {
    /// Remote-shell target, e.g. `user@server-address`.
    pub server_ssh: String,
    /// Remote base directory, e.g. `/path/to/remote/directory/`.
    pub server_path: String,
    /// Name of the binary and of its service, e.g. `example`.
    pub binary_name: String,
}

impl DeployArgs {
    /// The command that restarts the deployed service.
    pub fn restart_command(&self) -> (r: String)
        ensures
            r@ == default_restart_command(self.binary_name@),
    {
        let mut r = String::from_str("systemctl restart ");
        r.append(self.binary_name.as_str());
        r
    }

    /// Where the local build puts the binary.
    pub fn output_file_path(&self) -> (r: String)
        ensures
            r@ == path_join(build_output_root(), self.binary_name@),
    {
        let name = self.binary_name.as_str();
        let absolute = !name.is_empty() && name.get_char(0) == '/';
        if absolute {
            String::from_str(name)
        } else {
            let mut r = String::from_str("./target/x86_64-unknown-linux-musl/release");
            r.append("/");
            r.append(name);
            r
        }
    }
}

} // verus!
