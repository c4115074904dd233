use vstd::prelude::*;
use vstd::string::StringExecFns;

verus! {

/// The remote directory that holds every deployed version.
pub open spec fn versions_dir(server_path: Seq<char>) -> Seq<char> {
    server_path + "/versions/"@
}

/// The remote path of the version named `name`.
pub open spec fn artifact_path(server_path: Seq<char>, name: Seq<char>) -> Seq<char> {
    versions_dir(server_path) + name
}

/// The remote path of the link that points at the active version.
pub open spec fn link_path(server_path: Seq<char>, binary: Seq<char>) -> Seq<char> {
    server_path + "/"@ + binary
}

/// The remote shell command that creates the versions directory and its
/// parents, and succeeds if it is already there.
pub open spec fn ensure_dir_script(server_path: Seq<char>) -> Seq<char> {
    "mkdir -p "@ + versions_dir(server_path)
}

/// Where the copy of the binary goes, in the copy tool's `target:path` form.
pub open spec fn copy_destination(server_ssh: Seq<char>, server_path: Seq<char>, name: Seq<char>) -> Seq<char> {
    server_ssh + ":"@ + artifact_path(server_path, name)
}

/// The remote shell command that activates version `name` and restarts the
/// service: remove the link, link the version, make it executable, restart;
/// each step only if the one before succeeded, and the whole chain detached
/// from the remote session.
pub open spec fn activation_script(
    server_path: Seq<char>,
    name: Seq<char>,
    binary: Seq<char>,
    restart: Seq<char>,
) -> Seq<char> {
    let link = link_path(server_path, binary);
    "nohup sh -c \"\\\n        rm -f "@ + link
        + " && \\\n        ln -s "@ + artifact_path(server_path, name) + " "@ + link
        + " && \\\n        chmod +x "@ + link
        + " && \\\n        "@ + restart + " \""@
}

/// The argument vector that makes sure the versions directory exists.
pub open spec fn ensure_dir_argv(server_ssh: Seq<char>, server_path: Seq<char>) -> Seq<Seq<char>> {
    seq!["ssh"@, server_ssh, ensure_dir_script(server_path)]
}

/// The argument vector that copies the local file to its remote version path.
pub open spec fn copy_argv(
    local_path: Seq<char>,
    server_ssh: Seq<char>,
    server_path: Seq<char>,
    name: Seq<char>,
) -> Seq<Seq<char>> {
    seq!["scp"@, local_path, copy_destination(server_ssh, server_path, name)]
}

/// The argument vector that runs the activation script on the remote host.
pub open spec fn activation_argv(
    server_ssh: Seq<char>,
    server_path: Seq<char>,
    name: Seq<char>,
    binary: Seq<char>,
    restart: Seq<char>,
) -> Seq<Seq<char>> {
    seq!["ssh"@, "-q"@, "-T"@, server_ssh, activation_script(server_path, name, binary, restart)]
}

fn owned(s: &str) -> (r: String)
    ensures
        r@ == s@,
{
    String::from_str(s)
}

/// The shell command that makes sure the remote versions directory exists.
pub fn ensure_dir_command(server_path: &str) -> (r: String)
    ensures
        r@ == ensure_dir_script(server_path@),
{
    let mut r = owned("mkdir -p ");
    r.append(server_path);
    r.append("/versions/");
    proof {
        assert(r@ =~= ensure_dir_script(server_path@));
    }
    r
}

/// The program and arguments that create the remote versions directory.
pub fn make_dir_call(server_ssh: &str, server_path: &str) -> (r: Vec<String>)
    ensures
        r.deep_view() == ensure_dir_argv(server_ssh@, server_path@),
{
    let mut r: Vec<String> = Vec::new();
    r.push(owned("ssh"));
    r.push(owned(server_ssh));
    r.push(ensure_dir_command(server_path));
    proof {
        assert(r.deep_view() =~= ensure_dir_argv(server_ssh@, server_path@));
    }
    r
}

/// The program and arguments that copy `file_path` to the remote version
/// path of `remote_file_name`.
pub fn copy_call(file_path: &str, server_ssh: &str, server_path: &str, remote_file_name: &str) -> (r: Vec<String>)
    ensures
        r.deep_view() == copy_argv(file_path@, server_ssh@, server_path@, remote_file_name@),
{
    let mut dest = owned(server_ssh);
    dest.append(":");
    dest.append(server_path);
    dest.append("/versions/");
    dest.append(remote_file_name);
    let mut r: Vec<String> = Vec::new();
    r.push(owned("scp"));
    r.push(owned(file_path));
    r.push(dest);
    proof {
        assert(dest@ =~= copy_destination(server_ssh@, server_path@, remote_file_name@));
        assert(r.deep_view() =~= copy_argv(file_path@, server_ssh@, server_path@, remote_file_name@));
    }
    r
}

/// The shell command that points the service's link at `remote_file_name`
/// and restarts it.
pub fn activation_command(
    server_path: &str,
    remote_file_name: &str,
    binary_name: &str,
    server_restart_command: &str,
) -> (r: String)
    ensures
        r@ == activation_script(server_path@, remote_file_name@, binary_name@, server_restart_command@),
{
    let mut r = owned("nohup sh -c \"\\\n        rm -f ");
    r.append(server_path);
    r.append("/");
    r.append(binary_name);
    r.append(" && \\\n        ln -s ");
    r.append(server_path);
    r.append("/versions/");
    r.append(remote_file_name);
    r.append(" ");
    r.append(server_path);
    r.append("/");
    r.append(binary_name);
    r.append(" && \\\n        chmod +x ");
    r.append(server_path);
    r.append("/");
    r.append(binary_name);
    r.append(" && \\\n        ");
    r.append(server_restart_command);
    r.append(" \"");
    proof {
        assert(r@ =~= activation_script(server_path@, remote_file_name@, binary_name@, server_restart_command@));
    }
    r
}

/// The program and arguments that run the activation command on the remote
/// host.
pub fn restart_call(
    server_ssh: &str,
    server_path: &str,
    remote_file_name: &str,
    binary_name: &str,
    server_restart_command: &str,
) -> (r: Vec<String>)
    ensures
        r.deep_view() == activation_argv(server_ssh@, server_path@, remote_file_name@, binary_name@, server_restart_command@),
{
    let mut r: Vec<String> = Vec::new();
    r.push(owned("ssh"));
    r.push(owned("-q"));
    r.push(owned("-T"));
    r.push(owned(server_ssh));
    r.push(activation_command(server_path, remote_file_name, binary_name, server_restart_command));
    proof {
        assert(r.deep_view() =~= activation_argv(server_ssh@, server_path@, remote_file_name@, binary_name@, server_restart_command@));
    }
    r
}

} // verus!
