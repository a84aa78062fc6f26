//! The functions of libpd, with what the library decides around each call.
//!
//! Each function takes the libpd call that it needs as a closure: it checks its arguments,
//! makes the call (or not), and turns libpd's answer into a `Result`. Names are handed to the
//! closures only once they are known to be valid C strings.

pub mod array;
pub mod gui;
pub mod receive;
pub mod send;
pub mod util;

use crate::error::{AudioInitializationError, InitializationError, IoError, PatchLifeCycleError};
use crate::helpers::{c_string_error_of, check_c_string, is_c_compatible};
use crate::path::{
    file_name_of, is_absolute, join, parent_of, path_file_name, path_is_absolute, path_join,
    path_parent, path_pop, pop,
};
use crate::types::PatchFileHandle;
use vstd::prelude::*;

verus! {

/// What libpd's queued initialization means by its status: `0` is success, `-1` says that the
/// instance was initialized already (which is no error), and `-2` that the ring buffers of the
/// message queue could not be set up.
pub open spec fn init_outcome(status: i32) -> Result<(), InitializationError> {
    if status == 0 || status == -1 {
        Ok(())
    } else if status == -2 {
        Err(InitializationError::RingBufferInitializationError)
    } else {
        Err(InitializationError::InitializationFailed)
    }
}

/// libpd's queued initialization answered success: only then is audio configured.
pub open spec fn init_succeeded<I: FnOnce() -> i32>(queued_init: I) -> bool {
    exists|status: i32| #[trigger] call_ensures(queued_init, (), status) && init_outcome(status) is Ok
}

/// Initializes libpd for the current instance.
///
/// `queued_init` runs libpd's queued initialization and returns its status. It is safe to
/// initialize more than once.
pub fn init<I: Fn() -> i32>(queued_init: &I) -> (r: Result<(), InitializationError>)
    requires
        call_requires(*queued_init, ()),
    ensures
        exists|status: i32| call_ensures(*queued_init, (), status) && r == init_outcome(status),
{
    let status = queued_init();
    let r = init_result(status);
    assert(call_ensures(*queued_init, (), status));
    r
}

/// Reads the status of libpd's queued initialization, as [`init_outcome`] says.
pub(crate) fn init_result(status: i32) -> (r: Result<(), InitializationError>)
    ensures
        r == init_outcome(status),
{
    if status == 0 || status == -1 {
        Ok(())
    } else if status == -2 {
        Err(InitializationError::RingBufferInitializationError)
    } else {
        Err(InitializationError::InitializationFailed)
    }
}

/// What adding `path` to the search paths answers, given whether the path exists.
pub open spec fn add_to_search_paths_outcome(
    path: Seq<char>,
    path_exists: bool,
    r: Result<(), IoError>,
) -> bool {
    if !path_exists {
        r matches Err(IoError::PathDoesNotExist(p)) && p@ == path
    } else if !is_c_compatible(path) {
        r matches Err(IoError::StringConversion(e)) && c_string_error_of(path, e)
    } else {
        r is Ok
    }
}

/// `path_exists` answered that `path` exists, and `path` is a C string: only then is the path
/// handed to libpd.
pub open spec fn found_and_compatible<X: Fn(&str) -> bool>(path_exists: X, path: &str) -> bool {
    call_ensures(path_exists, (path,), true) && is_c_compatible(path@)
}

/// Adds a path to the list of paths where pd searches in.
///
/// `path_exists` tells whether the path exists in the file system; a path that does not is
/// refused. `register` hands the path to libpd, and is called exactly when the result is `Ok`.
pub fn add_to_search_paths<X: Fn(&str) -> bool, A: Fn(&str)>(
    path: &str,
    path_exists: &X,
    register: &A,
) -> (r: Result<(), IoError>)
    requires
        call_requires(*path_exists, (path,)),
        found_and_compatible(*path_exists, path) ==> call_requires(*register, (path,)),
    ensures
        exists|found: bool|
            call_ensures(*path_exists, (path,), found) && add_to_search_paths_outcome(
                path@,
                found,
                r,
            ),
        r is Ok ==> call_ensures(*register, (path,), ()),
{
    let found = path_exists(path);
    let r = if !found {
        Err(IoError::PathDoesNotExist(path.to_owned()))
    } else {
        match check_c_string(path) {
            Err(e) => Err(IoError::StringConversion(e)),
            Ok(()) => {
                assert(call_ensures(*path_exists, (path,), found));
                register(path);
                Ok(())
            },
        }
    };
    assert(add_to_search_paths_outcome(path@, found, r));
    assert(call_ensures(*path_exists, (path,), found));
    r
}

/// Closes a patch which was opened before.
///
/// A handle whose address is null is refused; otherwise `close_file` closes the patch at the
/// handle's address.
pub fn close_patch<C: Fn(usize)>(handle: PatchFileHandle, close_file: &C) -> (r: Result<
    (),
    PatchLifeCycleError,
>)
    requires
        handle@ != 0 ==> call_requires(*close_file, (handle@,)),
    ensures
        handle@ == 0 ==> r == Err::<(), PatchLifeCycleError>(
            PatchLifeCycleError::FailedToClosePatch,
        ),
        handle@ != 0 ==> r is Ok && call_ensures(*close_file, (handle@,), ()),
{
    let address = handle.into_inner();
    if address == 0 {
        Err(PatchLifeCycleError::FailedToClosePatch)
    } else {
        close_file(address);
        Ok(())
    }
}

/// What asking libpd for the `$0` of the patch at `address` answers: `0` means that the patch
/// is not open.
pub open spec fn dollar_zero_outcome<D: Fn(usize) -> i32>(
    address: usize,
    dollar_zero: D,
    r: Result<i32, PatchLifeCycleError>,
) -> bool {
    exists|value: i32|
        #[trigger] call_ensures(dollar_zero, (address,), value) && r == (if value == 0 {
            Err(PatchLifeCycleError::PatchIsNotOpen)
        } else {
            Ok(value)
        })
}

/// Gets the `$0` of an open patch: the unique number that pd gives to each open patch.
///
/// `dollar_zero` asks libpd for the `$0` of the patch at the given address; libpd answers `0`
/// when that patch is not open.
pub fn get_dollar_zero<D: Fn(usize) -> i32>(handle: &PatchFileHandle, dollar_zero: &D) -> (r:
    Result<i32, PatchLifeCycleError>)
    requires
        call_requires(*dollar_zero, (handle@,)),
    ensures
        dollar_zero_outcome(handle@, *dollar_zero, r),
{
    let value = dollar_zero(handle.address());
    if value == 0 {
        Err(PatchLifeCycleError::PatchIsNotOpen)
    } else {
        Ok(value)
    }
}

/// Initializes audio rendering with the given channel counts and sample rate.
///
/// `init_audio` makes libpd's call and returns its status, `0` on success.
pub fn initialize_audio<A: Fn(i32, i32, i32) -> i32>(
    input_channels: i32,
    output_channels: i32,
    sample_rate: i32,
    init_audio: &A,
) -> (r: Result<(), AudioInitializationError>)
    requires
        call_requires(*init_audio, (input_channels, output_channels, sample_rate)),
    ensures
        exists|status: i32|
            call_ensures(*init_audio, (input_channels, output_channels, sample_rate), status) && r
                == (if status == 0 {
                Ok(())
            } else {
                Err(AudioInitializationError::InitializationFailed)
            }),
{
    let status = init_audio(input_channels, output_channels, sample_rate);
    if status == 0 {
        Ok(())
    } else {
        Err(AudioInitializationError::InitializationFailed)
    }
}

/// Sets the flag for verbose printing to the pd console: `set_verbose` receives `1` to turn it
/// on and `0` to turn it off.
pub fn verbose_print_state<V: Fn(i32)>(active: bool, set_verbose: &V)
    requires
        call_requires(*set_verbose, ((if active { 1i32 } else { 0i32 }),)),
    ensures
        call_ensures(*set_verbose, ((if active { 1i32 } else { 0i32 }),), ()),
{
    if active {
        set_verbose(1)
    } else {
        set_verbose(0)
    }
}

/// Checks if verbose printing to the pd console is active: libpd's flag, read by
/// `get_verbose`, is `1` when it is.
pub fn verbose_print_state_active<G: Fn() -> i32>(get_verbose: &G) -> (r: bool)
    requires
        call_requires(*get_verbose, ()),
    ensures
        exists|flag: i32| call_ensures(*get_verbose, (), flag) && r == (flag == 1),
{
    get_verbose() == 1
}

/// A string option seen by its characters.
pub open spec fn option_view(o: Option<String>) -> Option<Seq<char>> {
    match o {
        Some(s) => Some(s@),
        None => None,
    }
}

/// `current_exe` may answer `answer` (the path of the running executable, or none).
pub open spec fn exe_answer<E: Fn() -> Option<String>>(
    current_exe: E,
    answer: Option<Seq<char>>,
) -> bool {
    exists|o: Option<String>| #[trigger] call_ensures(current_exe, (), o) && option_view(o) == answer
}

/// `path_exists` may answer `found` for the path `path`.
pub open spec fn exists_answer<X: Fn(&str) -> bool>(path_exists: X, path: Seq<char>, found: bool) -> bool {
    exists|q: &str| #[trigger] call_ensures(path_exists, (q,), found) && q@ == path
}

/// `open_file` may answer `address` for the file `name` in the directory `directory`.
pub open spec fn open_answer<O: Fn(&str, &str) -> usize>(
    open_file: O,
    name: Seq<char>,
    directory: Seq<char>,
    address: usize,
) -> bool {
    exists|a: &str, b: &str|
        #[trigger] call_ensures(open_file, (a, b), address) && a@ == name && b@ == directory
}

/// The directory part of a patch path: its parent, or the root when it has none.
pub open spec fn parent_or_root(path: Seq<char>) -> Seq<char> {
    match path_parent(path) {
        Some(parent) => parent,
        None => seq!['/'],
    }
}

/// How the second lookup next to the executable `exe`, for a bare file name, ends: in the
/// directory of the executable when the file is there, and otherwise in `manifest_dir`.
pub open spec fn bare_name_found<X: Fn(&str) -> bool>(
    exe: Seq<char>,
    name: Seq<char>,
    manifest_dir: Seq<char>,
    path_exists: X,
    dir: Option<Seq<char>>,
) -> bool {
    exists|found: bool|
        #[trigger] exists_answer(path_exists, path_join(path_pop(exe), name), found) && dir
            == Some(
            if found {
                path_pop(exe)
            } else {
                manifest_dir
            },
        )
}

/// How the second lookup for a bare file name ends, given the path of the executable if it
/// could be had.
pub open spec fn bare_name_lookup<X: Fn(&str) -> bool>(
    exe: Option<Seq<char>>,
    name: Seq<char>,
    manifest_dir: Seq<char>,
    path_exists: X,
    dir: Option<Seq<char>>,
) -> bool {
    match exe {
        None => dir is None,
        Some(e) => bare_name_found(e, name, manifest_dir, path_exists, dir),
    }
}

/// The directory of a bare file name: the path of the executable is asked for once more, and
/// the file is looked for next to it.
pub open spec fn bare_name_directory<E: Fn() -> Option<String>, X: Fn(&str) -> bool>(
    name: Seq<char>,
    manifest_dir: Seq<char>,
    current_exe: E,
    path_exists: X,
    dir: Option<Seq<char>>,
) -> bool {
    exists|exe: Option<Seq<char>>|
        #[trigger] exe_answer(current_exe, exe) && bare_name_lookup(
            exe,
            name,
            manifest_dir,
            path_exists,
            dir,
        )
}

/// How the lookup of a relative directory part ends next to the executable `exe`: there when
/// the directory exists, and otherwise in `manifest_dir`; an empty directory part goes on as a
/// bare file name.
pub open spec fn relative_found<E: Fn() -> Option<String>, X: Fn(&str) -> bool>(
    exe: Seq<char>,
    parent: Seq<char>,
    name: Seq<char>,
    manifest_dir: Seq<char>,
    current_exe: E,
    path_exists: X,
    dir: Option<Seq<char>>,
) -> bool {
    exists|found: bool|
        #[trigger] exists_answer(path_exists, path_join(path_pop(exe), parent), found) && if parent.len()
            == 0 {
            bare_name_directory(name, manifest_dir, current_exe, path_exists, dir)
        } else {
            dir == Some(
                if found {
                    path_join(path_pop(exe), parent)
                } else {
                    path_join(manifest_dir, parent)
                },
            )
        }
}

/// How the lookup of a relative directory part ends, given the path of the executable if it
/// could be had.
pub open spec fn relative_lookup<E: Fn() -> Option<String>, X: Fn(&str) -> bool>(
    exe: Option<Seq<char>>,
    parent: Seq<char>,
    name: Seq<char>,
    manifest_dir: Seq<char>,
    current_exe: E,
    path_exists: X,
    dir: Option<Seq<char>>,
) -> bool {
    match exe {
        None => dir is None,
        Some(e) => relative_found(e, parent, name, manifest_dir, current_exe, path_exists, dir),
    }
}

/// The directory in which a patch named `name` with the directory part `parent` is looked for.
///
/// An absolute directory is taken as it is. A relative one is tried next to the running
/// executable and otherwise in `manifest_dir`; a bare file name (an empty directory part) is
/// tried as a file next to the executable, and otherwise `manifest_dir` is the directory.
/// `dir` is none when the path of the executable cannot be had.
pub open spec fn resolves_to<E: Fn() -> Option<String>, X: Fn(&str) -> bool>(
    parent: Seq<char>,
    name: Seq<char>,
    manifest_dir: Seq<char>,
    current_exe: E,
    path_exists: X,
    dir: Option<Seq<char>>,
) -> bool {
    if path_is_absolute(parent) {
        dir == Some(parent)
    } else {
        exists|exe: Option<Seq<char>>|
            #[trigger] exe_answer(current_exe, exe) && relative_lookup(
                exe,
                parent,
                name,
                manifest_dir,
                current_exe,
                path_exists,
                dir,
            )
    }
}

/// libpd may be asked to open the file `name` in `directory` for the patch at `path`: `name` is
/// the file name of `path`, both are C strings, and `path_exists` answered that the file
/// exists in that directory.
pub open spec fn open_permitted<X: Fn(&str) -> bool>(
    path: Seq<char>,
    path_exists: X,
    name: Seq<char>,
    directory: Seq<char>,
) -> bool {
    &&& path_file_name(path) == Some(name)
    &&& is_c_compatible(name)
    &&& is_c_compatible(directory)
    &&& exists_answer(path_exists, path_join(directory, name), true)
}

/// What opening the patch `name` in `directory` answers: the patch file must exist there, both
/// names must be C strings, and libpd answers null when it cannot open the patch.
pub open spec fn opened_outcome<X: Fn(&str) -> bool, O: Fn(&str, &str) -> usize>(
    name: Seq<char>,
    directory: Seq<char>,
    path_exists: X,
    open_file: O,
    r: Result<PatchFileHandle, PatchLifeCycleError>,
) -> bool {
    let target = path_join(directory, name);
    exists|found: bool|
        #[trigger] exists_answer(path_exists, target, found) && if !found {
            r matches Err(PatchLifeCycleError::PathDoesNotExist(p)) && p@ == target
        } else if !is_c_compatible(name) {
            r matches Err(PatchLifeCycleError::StringConversion(e)) && c_string_error_of(name, e)
        } else if !is_c_compatible(directory) {
            r matches Err(PatchLifeCycleError::StringConversion(e)) && c_string_error_of(
                directory,
                e,
            )
        } else {
            exists|address: usize|
                #[trigger] open_answer(open_file, name, directory, address) && if address == 0 {
                    r == Err::<PatchFileHandle, PatchLifeCycleError>(
                        PatchLifeCycleError::FailedToOpenPatch,
                    )
                } else {
                    r matches Ok(handle) && handle@ == address
                }
        }
}

/// What opening the patch named `name` at `path_to_patch` answers: its directory is resolved,
/// and the patch is opened there.
pub open spec fn named_patch_outcome<
    E: Fn() -> Option<String>,
    X: Fn(&str) -> bool,
    O: Fn(&str, &str) -> usize,
>(
    path_to_patch: Seq<char>,
    name: Seq<char>,
    manifest_dir: Seq<char>,
    current_exe: E,
    path_exists: X,
    open_file: O,
    r: Result<PatchFileHandle, PatchLifeCycleError>,
) -> bool {
    exists|dir: Option<Seq<char>>|
        #[trigger] resolves_to(
            parent_or_root(path_to_patch),
            name,
            manifest_dir,
            current_exe,
            path_exists,
            dir,
        ) && match dir {
            None => r == Err::<PatchFileHandle, PatchLifeCycleError>(
                PatchLifeCycleError::FailedToOpenPatch,
            ),
            Some(d) => opened_outcome(name, d, path_exists, open_file, r),
        }
}

/// What opening the patch at `path_to_patch` answers: a path without a file name is refused.
pub open spec fn open_patch_outcome<
    E: Fn() -> Option<String>,
    X: Fn(&str) -> bool,
    O: Fn(&str, &str) -> usize,
>(
    path_to_patch: Seq<char>,
    manifest_dir: Seq<char>,
    current_exe: E,
    path_exists: X,
    open_file: O,
    r: Result<PatchFileHandle, PatchLifeCycleError>,
) -> bool {
    match path_file_name(path_to_patch) {
        None => r == Err::<PatchFileHandle, PatchLifeCycleError>(
            PatchLifeCycleError::FailedToOpenPatch,
        ),
        Some(name) => named_patch_outcome(
            path_to_patch,
            name,
            manifest_dir,
            current_exe,
            path_exists,
            open_file,
            r,
        ),
    }
}

/// The directory in which to look for a patch named `name` whose directory part is `parent`;
/// `None` when the path of the executable cannot be had.
fn patch_directory<E: Fn() -> Option<String>, X: Fn(&str) -> bool>(
    parent: &str,
    name: &str,
    manifest_dir: &str,
    current_exe: &E,
    path_exists: &X,
) -> (r: Option<String>)
    requires
        call_requires(*current_exe, ()),
        forall|path: &str| call_requires(*path_exists, (path,)),
    ensures
        resolves_to(parent@, name@, manifest_dir@, *current_exe, *path_exists, option_view(r)),
{
    if is_absolute(parent) {
        return Some(parent.to_owned());
    }
    let exe = current_exe();
    let ghost exe_view = option_view(exe);
    assert(exe_answer(*current_exe, exe_view));
    let exe = match exe {
        Some(e) => e,
        None => {
            assert(relative_lookup(
                exe_view,
                parent@,
                name@,
                manifest_dir@,
                *current_exe,
                *path_exists,
                None,
            ));
            return None;
        },
    };
    let exe_dir = pop(exe.as_str());
    let app_dir = join(exe_dir.as_str(), parent);
    let app_dir_str = app_dir.as_str();
    let found = path_exists(app_dir_str);
    assert(exists_answer(*path_exists, path_join(path_pop(exe@), parent@), found));
    let r = if parent.is_empty() {
        let exe2 = current_exe();
        let ghost exe2_view = option_view(exe2);
        assert(exe_answer(*current_exe, exe2_view));
        match exe2 {
            None => {
                assert(bare_name_lookup(exe2_view, name@, manifest_dir@, *path_exists, None));
                None
            },
            Some(exe2) => {
                let exe2_dir = pop(exe2.as_str());
                let app_file = join(exe2_dir.as_str(), name);
                let app_file_str = app_file.as_str();
                let found2 = path_exists(app_file_str);
                assert(exists_answer(*path_exists, path_join(path_pop(exe2@), name@), found2));
                let r = if found2 {
                    Some(exe2_dir)
                } else {
                    Some(manifest_dir.to_owned())
                };
                assert(bare_name_found(exe2@, name@, manifest_dir@, *path_exists, option_view(r)));
                assert(bare_name_lookup(
                    exe2_view,
                    name@,
                    manifest_dir@,
                    *path_exists,
                    option_view(r),
                ));
                r
            },
        }
    } else if found {
        Some(app_dir)
    } else {
        Some(join(manifest_dir, parent))
    };
    assert(relative_found(
        exe@,
        parent@,
        name@,
        manifest_dir@,
        *current_exe,
        *path_exists,
        option_view(r),
    ));
    assert(relative_lookup(
        exe_view,
        parent@,
        name@,
        manifest_dir@,
        *current_exe,
        *path_exists,
        option_view(r),
    ));
    r
}

/// Opens the patch `name` in `directory` once that directory is known.
fn open_in_directory<X: Fn(&str) -> bool, O: Fn(&str, &str) -> usize>(
    name: &str,
    directory: &str,
    path_exists: &X,
    open_file: &O,
) -> (r: Result<PatchFileHandle, PatchLifeCycleError>)
    requires
        forall|path: &str| call_requires(*path_exists, (path,)),
        is_c_compatible(name@) && is_c_compatible(directory@) && exists_answer(
            *path_exists,
            path_join(directory@, name@),
            true,
        ) ==> call_requires(*open_file, (name, directory)),
    ensures
        opened_outcome(name@, directory@, *path_exists, *open_file, r),
{
    let target = join(directory, name);
    let target_str = target.as_str();
    let found = path_exists(target_str);
    assert(exists_answer(*path_exists, path_join(directory@, name@), found));
    if !found {
        return Err(PatchLifeCycleError::PathDoesNotExist(target));
    }
    if let Err(e) = check_c_string(name) {
        return Err(PatchLifeCycleError::StringConversion(e));
    }
    if let Err(e) = check_c_string(directory) {
        return Err(PatchLifeCycleError::StringConversion(e));
    }
    let address = open_file(name, directory);
    assert(open_answer(*open_file, name@, directory@, address));
    if address == 0 {
        Err(PatchLifeCycleError::FailedToOpenPatch)
    } else {
        Ok(PatchFileHandle::new(address))
    }
}

/// Opens a pd patch.
///
/// The path may be absolute or relative. A relative path is looked for next to the running
/// executable first and then in `manifest_dir`; a bare file name is looked for as a file next
/// to the executable, and otherwise in `manifest_dir`.
///
/// `current_exe` gives the path of the running executable, `path_exists` tells whether a path
/// exists in the file system, and `open_file` makes libpd's call with the file name and its
/// directory, answering the address of the opened patch or null. The handle that comes back
/// closes the patch again.
pub fn open_patch<E: Fn() -> Option<String>, X: Fn(&str) -> bool, O: Fn(&str, &str) -> usize>(
    path_to_patch: &str,
    manifest_dir: &str,
    current_exe: &E,
    path_exists: &X,
    open_file: &O,
) -> (r: Result<PatchFileHandle, PatchLifeCycleError>)
    requires
        call_requires(*current_exe, ()),
        forall|path: &str| call_requires(*path_exists, (path,)),
        forall|name: &str, directory: &str|
            open_permitted(path_to_patch@, *path_exists, name@, directory@) ==> #[trigger]
                call_requires(*open_file, (name, directory)),
    ensures
        open_patch_outcome(
            path_to_patch@,
            manifest_dir@,
            *current_exe,
            *path_exists,
            *open_file,
            r,
        ),
{
    let file_name = match file_name_of(path_to_patch) {
        Some(name) => name,
        None => return Err(PatchLifeCycleError::FailedToOpenPatch),
    };
    let parent = match parent_of(path_to_patch) {
        Some(parent) => parent,
        None => {
            let root = "/";
            proof {
                reveal_strlit("/");
            }
            assert(root@ =~= seq!['/']);
            root.to_owned()
        },
    };
    assert(parent@ == parent_or_root(path_to_patch@));
    let directory = patch_directory(
        parent.as_str(),
        file_name.as_str(),
        manifest_dir,
        current_exe,
        path_exists,
    );
    assert(resolves_to(
        parent_or_root(path_to_patch@),
        file_name@,
        manifest_dir@,
        *current_exe,
        *path_exists,
        option_view(directory),
    ));
    let ghost dir = option_view(directory);
    let r = match directory {
        None => Err(PatchLifeCycleError::FailedToOpenPatch),
        Some(directory) => open_in_directory(
            file_name.as_str(),
            directory.as_str(),
            path_exists,
            open_file,
        ),
    };
    assert(match dir {
        None => r == Err::<PatchFileHandle, PatchLifeCycleError>(
            PatchLifeCycleError::FailedToOpenPatch,
        ),
        Some(d) => opened_outcome(file_name@, d, *path_exists, *open_file, r),
    });
    assert(named_patch_outcome(
        path_to_patch@,
        file_name@,
        manifest_dir@,
        *current_exe,
        *path_exists,
        *open_file,
        r,
    ));
    r
}

} // verus!
