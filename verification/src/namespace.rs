//! From the name of an endpoint to the address of its socket: which kind of
//! address a name gets, and the errors of getting one.

use crate::error::InitError;
use interprocess::local_socket::{GenericFilePath, GenericNamespaced, Name, NameType};
use interprocess::local_socket::{ToFsName, ToNsName};
use std::path::PathBuf;
use vstd::prelude::*;

verus! {

/// The name of an endpoint, carried as it came.
#[verifier::external_type_specification]
#[verifier::external_body]
pub struct ExPathBuf(std::path::PathBuf);

/// The address of a local socket, carried as it came.
#[verifier::external_type_specification]
#[verifier::external_body]
pub struct ExName<'s>(interprocess::local_socket::Name<'s>);

/// The two kinds of address that a socket can have.
#[derive(Debug, Clone, Copy, PartialEq, Eq, Structural)]
pub enum AddressKind {
    /// A name in the namespace that the system keeps for local sockets.
    Namespaced,
    /// A path in the file system.
    FilePath,
}

/// The kind of address that a name of `components` path components gets:
/// a namespaced one if it is a single component and the platform has such
/// names, else a path.
pub open spec fn address_kind_spec(components: usize, namespaced_supported: bool) -> AddressKind {
    if components == 1 && namespaced_supported {
        AddressKind::Namespaced
    } else {
        AddressKind::FilePath
    }
}

/// The kind of address that a name of `components` path components gets.
pub fn address_kind(components: usize, namespaced_supported: bool) -> (kind: AddressKind)
    ensures
        kind == address_kind_spec(components, namespaced_supported),
{
    if components == 1 && namespaced_supported {
        AddressKind::Namespaced
    } else {
        AddressKind::FilePath
    }
}

/// Whether a default name is used as it is, as a namespaced name, or is put
/// under the user's data directory: as it is where a namespaced address
/// would be chosen for it, but never on macOS.
pub fn use_namespaced(components: usize, namespaced_supported: bool, macos: bool) -> (direct: bool)
    ensures
        direct == (address_kind_spec(components, namespaced_supported) == AddressKind::Namespaced
            && !macos),
{
    namespaced_supported && components == 1 && !macos
}

/// The address or the error that a conversion to an address stands for.
pub open spec fn name_result_spec(converted: Result<Name<'static>, std::io::Error>) -> Result<
    Name<'static>,
    InitError,
> {
    match converted {
        Ok(name) => Ok(name),
        Err(e) => Err(InitError::FailedConnectingToSocket(e)),
    }
}

/// The address that a conversion gave, or `FailedConnectingToSocket` with
/// the error of the conversion.
pub fn name_result(converted: Result<Name<'static>, std::io::Error>) -> (name: Result<
    Name<'static>,
    InitError,
>)
    ensures
        name == name_result_spec(converted),
{
    match converted {
        Ok(name) => Ok(name),
        Err(e) => Err(InitError::FailedConnectingToSocket(e)),
    }
}

/// The part of a name that a namespaced address is made of: its last
/// component. A name without one is a `BadPath`.
pub fn last_component(file_name: Option<PathBuf>) -> (last: Result<PathBuf, InitError>)
    ensures
        match file_name {
            Some(name) => last == Ok::<PathBuf, InitError>(name),
            None => last == Err::<PathBuf, InitError>(InitError::BadPath),
        },
{
    match file_name {
        Some(name) => Ok(name),
        None => Err(InitError::BadPath),
    }
}

/// The name that a string spells: what `PathBuf::from` makes of it.
pub uninterp spec fn path_of(name: Seq<char>) -> PathBuf;

/// `PathBuf::from`: the name that a string spells. The path holds the
/// string as it is, so equal strings spell equal names.
#[verifier::external_body]
pub(crate) fn path_from_str(name: &str) -> (path: PathBuf)
    ensures
        path == path_of(name@),
{
    PathBuf::from(name)
}

/// The number of components of a name, as `Path::iter` walks them.
pub uninterp spec fn component_count_of(path: PathBuf) -> usize;

/// `Path::iter` and `Iterator::count`: the number of components of the path.
/// How a path splits is a property of the name and of nothing else.
#[verifier::external_body]
fn component_count(path: &PathBuf) -> (count: usize)
    ensures
        count == component_count_of(*path),
{
    path.iter().count()
}

/// `GenericNamespaced::is_supported` of interprocess: whether the platform
/// has namespaced names as the program runs. Nothing is claimed of the
/// answer.
#[verifier::external_body]
fn namespaced_supported() -> bool {
    GenericNamespaced::is_supported()
}

/// The last component of a name, as `Path::file_name` gives it, if the name
/// has one.
pub uninterp spec fn file_name_of(path: PathBuf) -> Option<PathBuf>;

/// `Path::file_name`: the last component of the path, if it has one. Which
/// part that is is a property of the name and of nothing else.
#[verifier::external_body]
fn file_name(path: &PathBuf) -> (last: Option<PathBuf>)
    ensures
        last == file_name_of(*path),
{
    path.file_name().map(PathBuf::from)
}

/// The namespaced address of a name, or the error of making one, as
/// `to_ns_name::<GenericNamespaced>` of interprocess gives them.
pub uninterp spec fn namespaced_name_of(name: PathBuf) -> Result<Name<'static>, std::io::Error>;

/// `ToNsName::to_ns_name::<GenericNamespaced>` of interprocess: the
/// namespaced address of a name. The address is made of the name and of
/// nothing else.
#[verifier::external_body]
fn to_namespaced_name(name: PathBuf) -> (address: Result<Name<'static>, std::io::Error>)
    ensures
        address == namespaced_name_of(name),
{
    name.into_os_string().to_ns_name::<GenericNamespaced>()
}

/// The bytes of a name, as `OsStr::as_encoded_bytes` hands them out.
pub uninterp spec fn path_bytes(path: PathBuf) -> Seq<u8>;

/// `OsStr::as_encoded_bytes`, on the path as `Path::as_os_str` has it: a
/// copy of the bytes of the name. They are a property of the name and of
/// nothing else.
#[verifier::external_body]
fn encoded_bytes(path: &PathBuf) -> (bytes: Vec<u8>)
    ensures
        bytes@ == path_bytes(*path),
{
    path.as_os_str().as_encoded_bytes().to_vec()
}

/// The byte `\`.
pub const BACKSLASH: u8 = 92;

/// The number of bytes of `\pipe\`, which follows the host in the path of
/// a named pipe.
pub const PIPE_MARK_LEN: usize = 6;

/// The least number of bytes of a path of a named pipe: two backslashes,
/// `\pipe\`, and one byte of a name.
pub const PIPE_PATH_MIN_LEN: usize = 9;

/// The place of the first backslash in `bytes` at or after `from`, or the
/// length of `bytes` if there is none.
pub open spec fn first_backslash(bytes: Seq<u8>, from: int) -> int
    decreases bytes.len() - from,
{
    if from < 0 || from >= bytes.len() {
        bytes.len() as int
    } else if bytes[from] == BACKSLASH {
        from
    } else {
        first_backslash(bytes, from + 1)
    }
}

/// Whether a name can be looked at as the path of a named pipe. A path of a
/// named pipe is two backslashes, a host, and `\pipe\` with a name behind
/// it. A name of the least length that begins with two backslashes is looked
/// at behind its host for the six bytes of `\pipe\`, whether it has them or
/// not; it can be looked at only if it is long enough for that. Every other
/// name can be.
pub open spec fn pipe_probe_in_range(bytes: Seq<u8>) -> bool {
    bytes.len() >= PIPE_PATH_MIN_LEN && bytes[0] == BACKSLASH && bytes[1] == BACKSLASH
        && first_backslash(bytes, 2) < bytes.len() ==> first_backslash(bytes, 2) + PIPE_MARK_LEN
        <= bytes.len()
}

/// Whether a name of these bytes can be looked at as the path of a named
/// pipe.
pub fn can_probe_pipe(bytes: &[u8]) -> (sound: bool)
    ensures
        sound == pipe_probe_in_range(bytes@),
{
    let len = bytes.len();
    if len < PIPE_PATH_MIN_LEN || bytes[0] != BACKSLASH || bytes[1] != BACKSLASH {
        return true;
    }
    let mut at: usize = 2;
    while at < len && bytes[at] != BACKSLASH
        invariant
            2 <= at <= len,
            len == bytes@.len(),
            first_backslash(bytes@, at as int) == first_backslash(bytes@, 2),
        decreases len - at,
    {
        at = at + 1;
    }
    at == len || len - at >= PIPE_MARK_LEN
}

/// The path address of a name, or the error of making one, as
/// `to_fs_name::<GenericFilePath>` of interprocess gives them.
pub uninterp spec fn file_path_name_of(path: PathBuf) -> Result<Name<'static>, std::io::Error>;

/// `ToFsName::to_fs_name::<GenericFilePath>` of interprocess, on a copy of
/// the path. Where paths are those of named pipes, the conversion looks
/// behind the host of a name for `\pipe\` without asking whether the name
/// is that long, so a name that is not is kept from it. The address is made
/// of the name and of nothing else.
#[verifier::external_body]
fn to_file_path_name(path: &PathBuf) -> (address: Result<Name<'static>, std::io::Error>)
    requires
        pipe_probe_in_range(path_bytes(*path)),
    ensures
        address == file_path_name_of(*path),
{
    path.to_owned().to_fs_name::<GenericFilePath>()
}

/// The address of a name's socket, where namespaced names are `supported`
/// or are not.
///
/// The kind of address is that of the name's number of components. A
/// namespaced address is made of the name's last component, and a name
/// without one is a `BadPath`. A path address is made of the whole name, and
/// a name that cannot be looked at as the path of a named pipe is a
/// `BadPath`, on every platform, so that both ends refuse the same names. A
/// conversion that fails is `FailedConnectingToSocket` with its error.
pub open spec fn resolution_spec(path: PathBuf, supported: bool) -> Result<
    Name<'static>,
    InitError,
> {
    match address_kind_spec(component_count_of(path), supported) {
        AddressKind::Namespaced => match file_name_of(path) {
            Some(last) => name_result_spec(namespaced_name_of(last)),
            None => Err(InitError::BadPath),
        },
        AddressKind::FilePath => if pipe_probe_in_range(path_bytes(path)) {
            name_result_spec(file_path_name_of(path))
        } else {
            Err(InitError::BadPath)
        },
    }
}

/// Converts a name to the address of its socket, in one way for both ends:
/// the address is that of `resolution_spec`. Whether namespaced names are
/// supported is asked of the running system, and is the one thing that the
/// address depends on beside the name.
pub fn pathbuf_to_interprocess_name(path: &PathBuf) -> (name: Result<Name<'static>, InitError>)
    ensures
        name == resolution_spec(*path, true) || name == resolution_spec(*path, false),
{
    match address_kind(component_count(path), namespaced_supported()) {
        AddressKind::Namespaced => match last_component(file_name(path)) {
            Ok(last) => name_result(to_namespaced_name(last)),
            Err(e) => Err(e),
        },
        AddressKind::FilePath => {
            let bytes = encoded_bytes(path);
            if can_probe_pipe(bytes.as_slice()) {
                name_result(to_file_path_name(path))
            } else {
                Err(InitError::BadPath)
            }
        },
    }
}

/// A name with another put behind it, as `PathBuf::push` joins them.
pub uninterp spec fn joined(base: PathBuf, part: PathBuf) -> PathBuf;

/// `PathBuf::push`: the path with `part` put behind it. The joined path is
/// made of the two and of nothing else.
#[verifier::external_body]
fn join(base: PathBuf, part: &PathBuf) -> (path: PathBuf)
    ensures
        path == joined(base, *part),
{
    let mut path = base;
    path.push(part);
    path
}

/// A name with its extension set, as `Path::with_extension` sets it.
pub uninterp spec fn with_extension_of(name: PathBuf, extension: Seq<char>) -> PathBuf;

/// An extension holds no separator of paths.
pub open spec fn plain_extension(extension: Seq<char>) -> bool {
    forall|i: int| 0 <= i < extension.len() ==> extension[i] != '/' && extension[i] != '\\'
}

/// `Path::with_extension`: the name with its extension set to `extension`.
/// An extension with a separator in it is kept from the call, which takes
/// none. The new name is made of the name and the extension and of nothing
/// else.
#[verifier::external_body]
fn with_extension(name: &PathBuf, extension: &str) -> (path: PathBuf)
    requires
        plain_extension(extension@),
    ensures
        path == with_extension_of(*name, extension@),
{
    name.with_extension(extension)
}

/// The directory of the socket file of a name: the name under the user's
/// data directory. Where the user has no data directory, that is
/// `FailedGettingNamespace`.
pub fn socket_directory(data_dir: Option<PathBuf>, name: &PathBuf) -> (found: Result<
    PathBuf,
    InitError,
>)
    ensures
        match data_dir {
            Some(d) => found == Ok::<PathBuf, InitError>(joined(d, *name)),
            None => found == Err::<PathBuf, InitError>(InitError::FailedGettingNamespace),
        },
{
    match data_dir {
        Some(d) => Ok(join(d, name)),
        None => Err(InitError::FailedGettingNamespace),
    }
}

/// The socket file of a name in its directory: the name with the extension
/// `sock`.
pub fn socket_file_path(directory: PathBuf, name: &PathBuf) -> (path: PathBuf)
    ensures
        path == joined(directory, with_extension_of(*name, "sock"@)),
{
    proof {
        reveal_strlit("sock");
    }
    let file = with_extension(name, "sock");
    join(directory, &file)
}

/// Whether the directory of the socket file has to be made, given whether it
/// is there: a probe that failed is `FailedConnectingToSocket`.
pub fn directory_missing(present: Result<bool, std::io::Error>) -> (missing: Result<
    bool,
    InitError,
>)
    ensures
        match present {
            Ok(there) => missing == Ok::<bool, InitError>(!there),
            Err(e) => missing == Err::<bool, InitError>(InitError::FailedConnectingToSocket(e)),
        },
{
    match present {
        Ok(there) => Ok(!there),
        Err(e) => Err(InitError::FailedConnectingToSocket(e)),
    }
}

/// The result of making the directory of the socket file: a failure is
/// `FailedConnectingToSocket`.
pub fn directory_created(created: Result<(), std::io::Error>) -> (done: Result<(), InitError>)
    ensures
        match created {
            Ok(_) => done is Ok,
            Err(e) => done == Err::<(), InitError>(InitError::FailedConnectingToSocket(e)),
        },
{
    match created {
        Ok(_) => Ok(()),
        Err(e) => Err(InitError::FailedConnectingToSocket(e)),
    }
}

} // verus!
