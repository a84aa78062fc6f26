//! Starting, stopping and polling the pd GUI.
//!
//! The GUI is the pd desktop application: starting it needs the path to a pd installation,
//! the folder that holds `bin/`, `tcl/` and so on.

use crate::error::GuiLifeCycleError;
use crate::helpers::{c_string_error_of, check_c_string, is_c_compatible};
use vstd::prelude::*;

verus! {

/// What starting the GUI from `path_to_pd` answers, given whether that path exists.
pub open spec fn start_gui_outcome<G: Fn(&str) -> i32>(
    path_to_pd: &str,
    path_exists: bool,
    start: G,
    r: Result<(), GuiLifeCycleError>,
) -> bool {
    if !path_exists {
        r == Err::<(), GuiLifeCycleError>(GuiLifeCycleError::FailedToOpenGui)
    } else if !is_c_compatible(path_to_pd@) {
        r matches Err(GuiLifeCycleError::StringConversion(e)) && c_string_error_of(path_to_pd@, e)
    } else {
        exists|status: i32|
            #[trigger] call_ensures(start, (path_to_pd,), status) && r == (if status == 0 {
                Ok(())
            } else {
                Err(GuiLifeCycleError::FailedToOpenGui)
            })
    }
}

/// Opens the current patch within the pd GUI found at `path_to_pd`.
///
/// `path_exists` tells whether that path exists and `start` makes libpd's call, which answers
/// `0` on success.
pub fn start_gui<X: Fn(&str) -> bool, G: Fn(&str) -> i32>(
    path_to_pd: &str,
    path_exists: &X,
    start: &G,
) -> (r: Result<(), GuiLifeCycleError>)
    requires
        call_requires(*path_exists, (path_to_pd,)),
        forall|found: bool|
            #[trigger] call_ensures(*path_exists, (path_to_pd,), found) && found
                && is_c_compatible(path_to_pd@) ==> call_requires(*start, (path_to_pd,)),
    ensures
        exists|found: bool|
            #[trigger] call_ensures(*path_exists, (path_to_pd,), found) && start_gui_outcome(
                path_to_pd,
                found,
                *start,
                r,
            ),
{
    let found = path_exists(path_to_pd);
    let r = if !found {
        Err(GuiLifeCycleError::FailedToOpenGui)
    } else {
        match check_c_string(path_to_pd) {
            Err(e) => Err(GuiLifeCycleError::StringConversion(e)),
            Ok(()) => {
                let status = start(path_to_pd);
                assert(call_ensures(*start, (path_to_pd,), status));
                if status == 0 {
                    Ok(())
                } else {
                    Err(GuiLifeCycleError::FailedToOpenGui)
                }
            },
        }
    };
    assert(call_ensures(*path_exists, (path_to_pd,), found));
    r
}

/// Handles the pending GUI messages once; `poll` makes libpd's call, which answers `1` when
/// the queue was not empty. Gives `Some(())` then, so that polling can go on until `None`.
pub fn poll_gui<P: Fn() -> i32>(poll: &P) -> (r: Option<()>)
    requires
        call_requires(*poll, ()),
    ensures
        exists|status: i32|
            #[trigger] call_ensures(*poll, (), status) && r == (if status == 1 {
                Some(())
            } else {
                None
            }),
{
    let status = poll();
    assert(call_ensures(*poll, (), status));
    if status == 1 {
        Some(())
    } else {
        None
    }
}

} // verus!
