//! Where the daemon keeps its runtime files.
//!
//! The runtime directory is the subdirectory `tsusu` of the user's runtime
//! directory. It holds the control socket, `sock`, and the PID marker,
//! `pid`. Finding these paths creates nothing on disk.
//!
//! A path is the sequence of its bytes, as the operating system has it:
//! it need not be text.

use vstd::prelude::*;

verus! {

/// The user's runtime directory is not known, so the daemon has no place
/// for its files.
#[derive(Clone, Copy, Debug, PartialEq, Eq, Structural)]
pub struct EnvironmentError;

/// The runtime directory of one daemon, an absolute path. The paths of
/// the socket and of the PID marker follow from it.
#[derive(Debug)]
pub struct RuntimePaths {
    dir: Vec<u8>,
}

/// The byte that separates the parts of a path: `/`.
pub open spec fn separator() -> u8 {
    0x2f
}

/// The name of the runtime directory: `tsusu`.
pub open spec fn dir_name() -> Seq<u8> {
    seq![0x74u8, 0x73u8, 0x75u8, 0x73u8, 0x75u8]
}

/// The name of the control socket: `sock`.
pub open spec fn socket_name() -> Seq<u8> {
    seq![0x73u8, 0x6fu8, 0x63u8, 0x6bu8]
}

/// The name of the PID marker: `pid`.
pub open spec fn pid_name() -> Seq<u8> {
    seq![0x70u8, 0x69u8, 0x64u8]
}

/// A path is absolute when it begins at the root.
pub open spec fn is_absolute(path: Seq<u8>) -> bool {
    path.len() > 0 && path[0] == separator()
}

/// The path of `name` inside the directory `base`: a separator stands
/// between the two unless `base` is empty or ends in one.
pub open spec fn join_bytes(base: Seq<u8>, name: Seq<u8>) -> Seq<u8> {
    if base.len() > 0 && base.last() != separator() {
        base.push(separator()) + name
    } else {
        base + name
    }
}

/// The daemon's runtime directory under the user's runtime directory.
pub open spec fn runtime_dir_under(base: Seq<u8>) -> Seq<u8> {
    join_bytes(base, dir_name())
}

/// The control socket in a runtime directory.
pub open spec fn socket_path_in(dir: Seq<u8>) -> Seq<u8> {
    join_bytes(dir, socket_name())
}

/// The PID marker in a runtime directory.
pub open spec fn pid_path_in(dir: Seq<u8>) -> Seq<u8> {
    join_bytes(dir, pid_name())
}

/// `dir` is the daemon's runtime directory for some user: it lies under
/// an absolute path.
pub open spec fn is_runtime_dir(dir: Seq<u8>) -> bool {
    exists|base: Seq<u8>| is_absolute(base) && dir == #[trigger] runtime_dir_under(base)
}

/// Asks `dirs::runtime_dir` for the user's runtime directory and hands
/// back the bytes of its path, `None` if the directory is not known.
/// Nothing is claimed of the answer: it is read from the environment of
/// the process.
#[verifier::external_body]
fn user_runtime_dir() -> (base: Option<Vec<u8>>) {
    match dirs::runtime_dir() {
        Some(path) => Some(path.into_os_string().into_encoded_bytes()),
        None => None,
    }
}

fn dir_name_bytes() -> (name: Vec<u8>)
    ensures
        name@ == dir_name(),
{
    let mut name: Vec<u8> = Vec::new();
    name.push(0x74);
    name.push(0x73);
    name.push(0x75);
    name.push(0x73);
    name.push(0x75);
    assert(name@ =~= dir_name());
    name
}

fn socket_name_bytes() -> (name: Vec<u8>)
    ensures
        name@ == socket_name(),
{
    let mut name: Vec<u8> = Vec::new();
    name.push(0x73);
    name.push(0x6f);
    name.push(0x63);
    name.push(0x6b);
    assert(name@ =~= socket_name());
    name
}

fn pid_name_bytes() -> (name: Vec<u8>)
    ensures
        name@ == pid_name(),
{
    let mut name: Vec<u8> = Vec::new();
    name.push(0x70);
    name.push(0x69);
    name.push(0x64);
    assert(name@ =~= pid_name());
    name
}

fn join_path(base: &[u8], name: &[u8]) -> (joined: Vec<u8>)
    ensures
        joined@ == join_bytes(base@, name@),
{
    let mut joined: Vec<u8> = Vec::new();
    let mut at: usize = 0;
    while at < base.len()
        invariant
            at <= base.len(),
            joined@ == base@.take(at as int),
        decreases base.len() - at,
    {
        joined.push(base[at]);
        assert(joined@ =~= base@.take(at + 1));
        at = at + 1;
    }
    assert(joined@ =~= base@);
    if base.len() > 0 && base[base.len() - 1] != 0x2f {
        joined.push(0x2f);
    }
    let ghost head = joined@;
    let mut at: usize = 0;
    while at < name.len()
        invariant
            at <= name.len(),
            joined@ == head + name@.take(at as int),
        decreases name.len() - at,
    {
        joined.push(name[at]);
        assert(joined@ =~= head + name@.take(at + 1));
        at = at + 1;
    }
    assert(joined@ =~= head + name@);
    joined
}

impl View for RuntimePaths {
    type V = Seq<u8>;

    /// The runtime directory.
    closed spec fn view(&self) -> Seq<u8> {
        self.dir@
    }
}

impl RuntimePaths {
    #[verifier::type_invariant]
    spec fn wf(self) -> bool {
        is_runtime_dir(self.dir@)
    }

    /// The paths of a daemon whose user's runtime directory is `base`.
    /// A base that is no absolute path is refused.
    pub fn under(base: &[u8]) -> (paths: Result<RuntimePaths, EnvironmentError>)
        ensures
            is_absolute(base@) ==> (paths matches Ok(found) && found@ == runtime_dir_under(
                base@,
            )),
            !is_absolute(base@) ==> paths is Err,
    {
        if base.len() > 0 && base[0] == 0x2f {
            let name = dir_name_bytes();
            let dir = join_path(base, name.as_slice());
            assert(is_absolute(base@) && dir@ == runtime_dir_under(base@));
            Ok(RuntimePaths { dir })
        } else {
            Err(EnvironmentError)
        }
    }

    /// The paths for a user's runtime directory that may be unknown: with
    /// none, or with one that is no absolute path, there are no paths.
    pub fn from_base(base: Option<Vec<u8>>) -> (paths: Result<RuntimePaths, EnvironmentError>)
        ensures
            match base {
                Some(base) if is_absolute(base@) => paths matches Ok(found) && found@
                    == runtime_dir_under(base@),
                _ => paths is Err,
            },
    {
        match base {
            Some(base) => RuntimePaths::under(base.as_slice()),
            None => Err(EnvironmentError),
        }
    }

    /// The paths of the daemon of the user who runs this process. Fails
    /// when the user's runtime directory is not known.
    pub fn resolve() -> (paths: Result<RuntimePaths, EnvironmentError>)
        ensures
            paths matches Ok(found) ==> is_runtime_dir(found@),
    {
        RuntimePaths::from_base(user_runtime_dir())
    }

    /// The runtime directory.
    pub fn runtime_dir(&self) -> (dir: Vec<u8>)
        ensures
            dir@ == self@,
            is_runtime_dir(dir@),
    {
        proof {
            use_type_invariant(self);
        }
        vstd::slice::slice_to_vec(self.dir.as_slice())
    }

    /// The path of the control socket.
    pub fn socket_path(&self) -> (path: Vec<u8>)
        ensures
            path@ == socket_path_in(self@),
            is_runtime_dir(self@),
    {
        proof {
            use_type_invariant(self);
        }
        let name = socket_name_bytes();
        join_path(self.dir.as_slice(), name.as_slice())
    }

    /// The path of the PID marker.
    pub fn pid_path(&self) -> (path: Vec<u8>)
        ensures
            path@ == pid_path_in(self@),
            is_runtime_dir(self@),
    {
        proof {
            use_type_invariant(self);
        }
        let name = pid_name_bytes();
        join_path(self.dir.as_slice(), name.as_slice())
    }
}

/// The daemon's runtime directory.
pub fn get_tsusu_runtime_dir() -> (dir: Result<Vec<u8>, EnvironmentError>)
    ensures
        dir matches Ok(found) ==> is_runtime_dir(found@),
{
    match RuntimePaths::resolve() {
        Ok(paths) => Ok(paths.runtime_dir()),
        Err(error) => Err(error),
    }
}

/// The path of the daemon's control socket.
pub fn get_sockpath() -> (path: Result<Vec<u8>, EnvironmentError>)
    ensures
        path matches Ok(found) ==> exists|dir: Seq<u8>|
            is_runtime_dir(dir) && found@ == #[trigger] socket_path_in(dir),
{
    match RuntimePaths::resolve() {
        Ok(paths) => Ok(paths.socket_path()),
        Err(error) => Err(error),
    }
}

/// The path of the daemon's PID marker.
pub fn get_pidpath() -> (path: Result<Vec<u8>, EnvironmentError>)
    ensures
        path matches Ok(found) ==> exists|dir: Seq<u8>|
            is_runtime_dir(dir) && found@ == #[trigger] pid_path_in(dir),
{
    match RuntimePaths::resolve() {
        Ok(paths) => Ok(paths.pid_path()),
        Err(error) => Err(error),
    }
}

/// The separator and the three names are the ASCII bytes of `/`, `tsusu`,
/// `sock` and `pid`.
pub proof fn lemma_names_text()
    ensures
        seq![separator()] == "/"@.map_values(|c: char| c as u8),
        dir_name() == "tsusu"@.map_values(|c: char| c as u8),
        socket_name() == "sock"@.map_values(|c: char| c as u8),
        pid_name() == "pid"@.map_values(|c: char| c as u8),
{
    reveal_strlit("/");
    reveal_strlit("tsusu");
    reveal_strlit("sock");
    reveal_strlit("pid");
    assert(seq![separator()] =~= "/"@.map_values(|c: char| c as u8));
    assert(dir_name() =~= "tsusu"@.map_values(|c: char| c as u8));
    assert(socket_name() =~= "sock"@.map_values(|c: char| c as u8));
    assert(pid_name() =~= "pid"@.map_values(|c: char| c as u8));
}

/// A runtime directory is an absolute path that ends in the directory's
/// name, and the socket and the PID marker are its children: their paths
/// are that of the directory, a separator and the name. The two differ.
pub proof fn lemma_runtime_dir_shape(dir: Seq<u8>)
    requires
        is_runtime_dir(dir),
    ensures
        is_absolute(dir),
        dir.len() >= 6,
        dir.subrange(dir.len() - 5, dir.len() as int) == dir_name(),
        socket_path_in(dir) == dir.push(separator()) + socket_name(),
        pid_path_in(dir) == dir.push(separator()) + pid_name(),
        socket_path_in(dir) != pid_path_in(dir),
{
    let base = choose|base: Seq<u8>| is_absolute(base) && dir == #[trigger] runtime_dir_under(base);
    assert(dir.subrange(dir.len() - 5, dir.len() as int) =~= dir_name());
    assert(dir.last() == dir_name()[4]);
    assert(socket_path_in(dir)[dir.len() as int + 1] == socket_name()[0]);
    assert(pid_path_in(dir)[dir.len() as int + 1] == pid_name()[0]);
}

} // verus!
