//! Finding the installed server and connecting to it.

use vstd::prelude::*;

use crate::paths::{file_name, is_absolute, Absoluteness, LastPart};
use crate::text;
use crate::text::{chars_of, same_but_for_case, trim, trim_end_char};

verus! {

/// The registry key that names the installed server.
pub const CORE_REGISTRY_SUBKEY: &'static str = "Software\\overlay-engine\\Core";

/// The server's program.
pub const CORE_EXE_NAME: &'static str = "core-server.exe";

/// The milliseconds between two tries to connect.
pub const CONNECT_RETRY_MS: u64 = 50;

/// How long a server that was started has to listen, in milliseconds.
pub const CORE_START_TIMEOUT_MS: u64 = 8_000;

/// Where the server is installed.
#[derive(Debug, Clone, PartialEq, Eq)]
pub struct CoreInstallLocation {
    pub install_dir: String,
    pub core_exe: String,
    pub version: Option<String>,
}

/// Why the installed server cannot be used.
#[derive(Debug, Clone, Copy, PartialEq, Eq, Structural)]
pub enum InstallError {
    /// The directory is empty.
    NoDirectory,
    /// The program is empty.
    NoProgram,
    DirectoryNotAbsolute,
    ProgramNotAbsolute,
    /// The program is not the server's.
    OtherProgram,
    /// The directory is not there.
    DirectoryMissing,
    /// The program is not there.
    ProgramMissing,
    /// The program is not in the directory.
    ProgramOutside,
}

/// The directory and the program as the registry names them.
#[derive(Debug)]
pub struct InstallPaths {
    pub install_dir: String,
    pub core_exe: String,
}

/// What the system says of the two paths.
#[derive(Debug)]
pub struct PathFacts {
    pub dir_absolute: bool,
    pub exe_absolute: bool,
    /// The last part of the program's path, where it has one that is text.
    pub exe_name: Option<String>,
}

/// What keeps the installed server from being used, from the registry's values and
/// what the system says of the two paths.
pub open spec fn value_error(dir: Seq<char>, exe: Seq<char>, facts: PathFacts) -> Option<
    InstallError,
> {
    if text::trimmed(dir).len() == 0 {
        Some(InstallError::NoDirectory)
    } else if text::trimmed(exe).len() == 0 {
        Some(InstallError::NoProgram)
    } else if !facts.dir_absolute {
        Some(InstallError::DirectoryNotAbsolute)
    } else if !facts.exe_absolute {
        Some(InstallError::ProgramNotAbsolute)
    } else if !(facts.exe_name matches Some(name) && text::same_ignoring_case(
        name@,
        CORE_EXE_NAME@,
    )) {
        Some(InstallError::OtherProgram)
    } else {
        None
    }
}

/// A registry value without the spaces around it, where anything is left.
pub fn non_empty_registry_value<'a>(value: &'a str) -> (r: Option<&'a str>)
    ensures
        r is Some <==> text::trimmed(value@).len() > 0,
        r matches Some(t) ==> t@ == text::trimmed(value@),
{
    let trimmed = trim(value);
    if trimmed.unicode_len() == 0 {
        None
    } else {
        Some(trimmed)
    }
}

/// Checks the registry's values against what the system says of the two paths.
pub fn check_values(dir: &str, exe: &str, facts: &PathFacts) -> (r: Result<
    InstallPaths,
    InstallError,
>)
    ensures
        match r {
            Ok(paths) => {
                &&& value_error(dir@, exe@, *facts) is None
                &&& paths.install_dir@ == text::trimmed(dir@)
                &&& paths.core_exe@ == text::trimmed(exe@)
            },
            Err(e) => value_error(dir@, exe@, *facts) == Some(e),
        },
{
    let dir = match non_empty_registry_value(dir) {
        Some(dir) => dir,
        None => {
            return Err(InstallError::NoDirectory);
        },
    };
    let exe = match non_empty_registry_value(exe) {
        Some(exe) => exe,
        None => {
            return Err(InstallError::NoProgram);
        },
    };
    if !facts.dir_absolute {
        return Err(InstallError::DirectoryNotAbsolute);
    }
    if !facts.exe_absolute {
        return Err(InstallError::ProgramNotAbsolute);
    }
    let named = match &facts.exe_name {
        Some(name) => same_but_for_case(name.as_str(), CORE_EXE_NAME),
        None => false,
    };
    if !named {
        return Err(InstallError::OtherProgram);
    }
    Ok(InstallPaths { install_dir: dir.to_owned(), core_exe: exe.to_owned() })
}

/// What became of the registry's values, with what the system said of their paths.
#[derive(Debug)]
pub struct RegistryCheck {
    pub dir_absolute: Absoluteness,
    pub exe_absolute: Absoluteness,
    pub exe_name: LastPart,
    pub result: Result<InstallPaths, InstallError>,
}

impl RegistryCheck {
    /// What the system said.
    pub open spec fn facts(self) -> PathFacts {
        PathFacts {
            dir_absolute: self.dir_absolute.absolute(),
            exe_absolute: self.exe_absolute.absolute(),
            exe_name: self.exe_name.name(),
        }
    }
}

/// Checks the registry's values. Which paths are absolute and what their last part
/// is depends on the system, which is asked about the values without the spaces
/// around them; what it says, and nothing else, decides.
pub fn check_registry_values(dir: &str, exe: &str) -> (r: RegistryCheck)
    ensures
        r.dir_absolute.path() == text::trimmed(dir@),
        r.exe_absolute.path() == text::trimmed(exe@),
        r.exe_name.path() == text::trimmed(exe@),
        match r.result {
            Ok(paths) => {
                &&& value_error(dir@, exe@, r.facts()) is None
                &&& paths.install_dir@ == text::trimmed(dir@)
                &&& paths.core_exe@ == text::trimmed(exe@)
            },
            Err(e) => value_error(dir@, exe@, r.facts()) == Some(e),
        },
{
    let dir_absolute = is_absolute(trim(dir));
    let exe_absolute = is_absolute(trim(exe));
    let exe_name = file_name(trim(exe));
    let facts = PathFacts {
        dir_absolute: dir_absolute.holds(),
        exe_absolute: exe_absolute.holds(),
        exe_name: match exe_name.get() {
            Some(name) => Some(name.to_owned()),
            None => None,
        },
    };
    let result = check_values(dir, exe, &facts);
    RegistryCheck { dir_absolute, exe_absolute, exe_name, result }
}

/// What `str::to_lowercase` gives for a text.
pub uninterp spec fn lowercase(s: Seq<char>) -> Seq<char>;

/// `str::to_lowercase`: the text in small letters, by the rules of Unicode.
#[verifier::external_body]
fn to_lowercase(s: &str) -> (r: String)
    ensures
        r@ == lowercase(s@),
{
    s.to_lowercase()
}

/// A path with one kind of separator and none at its end.
pub open spec fn with_backslashes(path: Seq<char>) -> Seq<char> {
    text::without_trailing(
        path.map_values(
            |c: char|
                if c == '/' {
                    '\\'
                } else {
                    c
                },
        ),
        '\\',
    )
}

/// A path as it is compared: with one kind of separator, none at its end, and in
/// small letters.
pub open spec fn normalized(path: Seq<char>) -> Seq<char> {
    lowercase(with_backslashes(path))
}

/// Whether a normalized path is that of a directory or of something in it.
pub open spec fn lies_in(path: Seq<char>, root: Seq<char>) -> bool {
    path == root || root.push('\\').is_prefix_of(path)
}

/// A path with backslashes for separators.
fn backslashed(path: &str) -> (r: String)
    ensures
        r@ == path@.map_values(
            |c: char|
                if c == '/' {
                    '\\'
                } else {
                    c
                },
        ),
{
    let chars = chars_of(path);
    let ghost all = path@.map_values(
        |c: char|
            if c == '/' {
                '\\'
            } else {
                c
            },
    );
    let mut out = String::new();
    let mut i: usize = 0;
    assert(all.take(0) =~= seq![]);
    proof {
        reveal_strlit("\\");
    }
    while i < chars.len()
        invariant
            i <= chars.len(),
            chars@ == path@,
            all == path@.map_values(
                |c: char|
                    if c == '/' {
                        '\\'
                    } else {
                        c
                    },
            ),
            "\\"@ == seq!['\\'],
            out@ == all.take(i as int),
        decreases chars.len() - i,
    {
        if chars[i] == '/' {
            out.append("\\");
        } else {
            out.append(path.substring_char(i, i + 1));
        }
        assert(out@ =~= all.take(i + 1));
        i = i + 1;
    }
    assert(all.take(i as int) =~= all);
    out
}

/// A path as it is compared.
pub fn normalized_path_string(path: &str) -> (r: String)
    ensures
        r@ == normalized(path@),
{
    let slashes = backslashed(path);
    to_lowercase(trim_end_char(slashes.as_str(), '\\'))
}

/// Whether a normalized path is that of a directory or of something in it.
pub fn is_within(path: &str, root: &str) -> (r: bool)
    ensures
        r == lies_in(path@, root@),
{
    let path_chars = chars_of(path);
    let root_chars = chars_of(root);
    if path_chars.len() < root_chars.len() {
        return false;
    }
    let mut i: usize = 0;
    while i < root_chars.len()
        invariant
            i <= root_chars.len() <= path_chars.len(),
            path_chars@ == path@,
            root_chars@ == root@,
            forall|j: int| 0 <= j < i ==> path@[j] == root@[j],
        decreases root_chars.len() - i,
    {
        if path_chars[i] != root_chars[i] {
            proof {
                if root@.push('\\').is_prefix_of(path@) {
                    assert(root@.push('\\')[i as int] == path@[i as int]);
                }
            }
            return false;
        }
        i = i + 1;
    }
    if path_chars.len() == root_chars.len() {
        assert(path@ =~= root@);
        return true;
    }
    let r = path_chars[i] == '\\';
    proof {
        if r {
            assert(root@.push('\\') =~= path@.subrange(0, (root@.len() + 1) as int));
        } else if root@.push('\\').is_prefix_of(path@) {
            assert(root@.push('\\')[i as int] == path@[i as int]);
        }
    }
    r
}

/// Whether a path is that of a directory or of something in it, whatever the case
/// of its letters and the kind of its separators.
pub fn path_has_case_insensitive_prefix(path: &str, root: &str) -> (r: bool)
    ensures
        r == lies_in(normalized(path@), normalized(root@)),
{
    let path = normalized_path_string(path);
    let root = normalized_path_string(root);
    is_within(path.as_str(), root.as_str())
}

/// A version as it is kept: without the spaces around it, where anything is left.
pub open spec fn kept_version(version: Option<Seq<char>>) -> Option<Seq<char>> {
    match version {
        Some(v) => if text::trimmed(v).len() > 0 {
            Some(text::trimmed(v))
        } else {
            None
        },
        None => None,
    }
}

/// What keeps a server from being used whose paths the system resolved.
pub open spec fn location_error(dir: Option<Seq<char>>, exe: Option<Seq<char>>) -> Option<
    InstallError,
> {
    if dir is None {
        Some(InstallError::DirectoryMissing)
    } else if exe is None {
        Some(InstallError::ProgramMissing)
    } else if !lies_in(normalized(exe->0), normalized(dir->0)) {
        Some(InstallError::ProgramOutside)
    } else {
        None
    }
}

/// What an optional text holds.
pub open spec fn held(t: Option<String>) -> Option<Seq<char>> {
    match t {
        Some(s) => Some(s@),
        None => None,
    }
}

/// Accepts an installed server whose paths the system resolved; none where it could
/// not. The program must lie in the directory.
pub fn accept_location(dir: Option<String>, exe: Option<String>, version: Option<String>) -> (r: Result<
    CoreInstallLocation,
    InstallError,
>)
    ensures
        match r {
            Ok(location) => {
                &&& location_error(held(dir), held(exe)) is None
                &&& held(dir) == Some(location.install_dir@)
                &&& held(exe) == Some(location.core_exe@)
                &&& held(location.version) == kept_version(held(version))
            },
            Err(e) => location_error(held(dir), held(exe)) == Some(e),
        },
{
    let dir = match dir {
        Some(dir) => dir,
        None => {
            return Err(InstallError::DirectoryMissing);
        },
    };
    let exe = match exe {
        Some(exe) => exe,
        None => {
            return Err(InstallError::ProgramMissing);
        },
    };
    if !path_has_case_insensitive_prefix(exe.as_str(), dir.as_str()) {
        return Err(InstallError::ProgramOutside);
    }
    let version = match version {
        Some(version) => match non_empty_registry_value(version.as_str()) {
            Some(v) => Some(v.to_owned()),
            None => None,
        },
        None => None,
    };
    Ok(CoreInstallLocation { install_dir: dir, core_exe: exe, version })
}

/// All instances of the pipe are in use.
pub const ERROR_PIPE_BUSY: i32 = 231;

/// There is no file of that name.
pub const ERROR_FILE_NOT_FOUND: i32 = 2;

/// There is no such path.
pub const ERROR_PATH_NOT_FOUND: i32 = 3;

/// Whether the server listens but has no instance of its pipe free: `code` is the
/// system's code for the failure, where there is one.
pub open spec fn busy(code: Option<i32>) -> bool {
    code == Some(231i32)
}

/// Whether no server listens.
pub open spec fn missing(code: Option<i32>) -> bool {
    code == Some(2i32) || code == Some(3i32)
}

/// Whether the server listens but has no instance of its pipe free.
pub fn is_pipe_busy(code: Option<i32>) -> (r: bool)
    ensures
        r == busy(code),
{
    code == Some(ERROR_PIPE_BUSY)
}

/// Whether no server listens.
pub fn is_pipe_missing(code: Option<i32>) -> (r: bool)
    ensures
        r == missing(code),
{
    match code {
        Some(code) => code == ERROR_FILE_NOT_FOUND || code == ERROR_PATH_NOT_FOUND,
        None => false,
    }
}

/// What a failed try to open the server's pipe leads to.
#[derive(Debug, Clone, Copy, PartialEq, Eq, Structural)]
pub enum ConnectStep {
    /// Wait for an instance of the pipe.
    Wait,
    /// Start the installed server, and wait for its pipe.
    StartCore,
    /// Try again a little later.
    Retry,
    /// Give up.
    Fail,
}

/// What the first failed try leads to.
pub fn after_first_try(code: Option<i32>) -> (r: ConnectStep)
    ensures
        r == (if busy(code) {
            ConnectStep::Wait
        } else if missing(code) {
            ConnectStep::StartCore
        } else {
            ConnectStep::Fail
        }),
{
    if is_pipe_busy(code) {
        ConnectStep::Wait
    } else if is_pipe_missing(code) {
        ConnectStep::StartCore
    } else {
        ConnectStep::Fail
    }
}

/// What a failed try leads to while the server's pipe is waited for.
pub fn after_try(code: Option<i32>, time_left: bool) -> (r: ConnectStep)
    ensures
        r == (if (busy(code) || missing(code)) && time_left {
            ConnectStep::Retry
        } else {
            ConnectStep::Fail
        }),
{
    if (is_pipe_busy(code) || is_pipe_missing(code)) && time_left {
        ConnectStep::Retry
    } else {
        ConnectStep::Fail
    }
}

/// A path that begins like a directory's but goes on with another name lies outside
/// the directory.
pub proof fn siblings_lie_outside(root: Seq<char>, rest: Seq<char>)
    requires
        rest.len() > 0,
        rest[0] != '\\',
    ensures
        !lies_in(root + rest, root),
{
    let path = root + rest;
    if root.push('\\').is_prefix_of(path) {
        assert(root.push('\\')[root.len() as int] == path[root.len() as int]);
    }
}

/// What stands below a directory lies in it.
pub proof fn children_lie_inside(root: Seq<char>, rest: Seq<char>)
    ensures
        lies_in(root + seq!['\\'] + rest, root),
{
    assert(root.push('\\') =~= (root + seq!['\\'] + rest).subrange(0, (root.len() + 1) as int));
}

} // verus!
