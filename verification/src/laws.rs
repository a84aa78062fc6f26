//! What holds of the library across calls: the state kept by [`Pd`](crate::Pd) and
//! [`PdGlobal`](crate::convenience::PdGlobal) stays consistent, and repeating an operation
//! changes nothing more.

use crate::audio_switch;
use crate::error::{
    ArrayError, IoError, PatchLifeCycleError, PdError, SendError, SubscriptionError,
};
use crate::helpers::is_c_compatible;
use crate::functions::array::transfer_outcome;
use crate::functions::send::{delivery_status_outcome, typed_delivery_outcome};
use crate::functions::util::{div_toward_zero, dsp_message_outcome, dsp_switch_outcome};
use crate::functions::receive::{bound_outcome, listening_outcome};
use crate::instance::PdInstance;
use crate::types::ReceiverHandle;
use vstd::std_specs::cmp::PartialEqSpec;
use crate::session::{
    closing, distinct_paths, is_same_path, opening, paths_contain, search_path_step, search_path_stage, search_paths_through,
    subscribe_step, subscribed_through, subscription_stage, PatchView,
};
use vstd::prelude::*;

verus! {

/// Adding a search path never puts the same path into the list twice.
pub proof fn search_path_step_keeps_paths_unique<X: Fn(&str) -> bool, A: Fn(&str)>(
    before: Seq<Seq<char>>,
    path: &str,
    path_exists: X,
    register: A,
    after: Seq<Seq<char>>,
    r: Result<(), IoError>,
)
    requires
        distinct_paths(before),
        search_path_step(before, path, path_exists, register, after, r),
    ensures
        distinct_paths(after),
{
    if !paths_contain(before, path@) && r is Ok {
        assert forall|i: int, j: int| 0 <= i < j < after.len() implies !#[trigger] is_same_path(
            after[i],
            after[j],
        ) by {
            assert(after[i] == before[i]);
            if j < before.len() {
                assert(after[j] == before[j]);
            } else {
                assert(after[j] == path@);
                if is_same_path(before[i], path@) {
                    assert(paths_contain(before, path@));
                }
            }
        }
    }
}

/// Adding a search path keeps the paths that were there, in their order, and adds at most
/// the new path at the end; when it succeeds, the path is among the search paths.
pub proof fn search_path_step_appends<X: Fn(&str) -> bool, A: Fn(&str)>(
    before: Seq<Seq<char>>,
    path: &str,
    path_exists: X,
    register: A,
    after: Seq<Seq<char>>,
    r: Result<(), IoError>,
)
    requires
        search_path_step(before, path, path_exists, register, after, r),
    ensures
        after == before || after == before.push(path@),
        r is Ok ==> paths_contain(after, path@),
{
    if r is Ok && !paths_contain(before, path@) {
        assert(after[before.len() as int] == path@);
        assert(is_same_path(after[before.len() as int], path@));
    }
}

/// Adding a path that was just added changes nothing, and asks nothing of the file system
/// or of libpd.
pub proof fn search_path_step_is_idempotent<X: Fn(&str) -> bool, A: Fn(&str)>(
    before: Seq<Seq<char>>,
    path: &str,
    path_exists: X,
    register: A,
    middle: Seq<Seq<char>>,
    first: Result<(), IoError>,
    after: Seq<Seq<char>>,
    second: Result<(), IoError>,
)
    requires
        search_path_step(before, path, path_exists, register, middle, first),
        first is Ok,
        search_path_step(middle, path, path_exists, register, after, second),
    ensures
        after == middle,
        second is Ok,
{
    search_path_step_appends(before, path, path_exists, register, middle, first);
}

/// Adding many search paths never puts the same path into the list twice, and keeps the paths
/// that were there, in their order.
pub proof fn search_paths_through_keeps_paths_unique<X: Fn(&str) -> bool, A: Fn(&str)>(
    before: Seq<Seq<char>>,
    paths: Seq<&str>,
    path_exists: X,
    register: A,
    after: Seq<Seq<char>>,
    r: Result<(), IoError>,
)
    requires
        distinct_paths(before),
        search_paths_through(before, paths, path_exists, register, after, r),
    ensures
        distinct_paths(after),
        before.is_prefix_of(after),
    decreases paths.len(),
{
    if paths.len() == 0 {
        assert(before.is_prefix_of(after)) by {
            assert(after.subrange(0, before.len() as int) =~= before);
        }
    } else {
        let (middle, first) = choose|middle: Seq<Seq<char>>, first: Result<(), IoError>|
            #[trigger] search_path_stage(middle, first) && search_paths_through(
                before,
                paths.drop_last(),
                path_exists,
                register,
                middle,
                first,
            ) && match first {
                Err(_) => after == middle && r == first,
                Ok(()) => search_path_step(middle, paths.last(), path_exists, register, after, r),
            };
        search_paths_through_keeps_paths_unique(
            before,
            paths.drop_last(),
            path_exists,
            register,
            middle,
            first,
        );
        if first is Ok {
            search_path_step_keeps_paths_unique(
                middle,
                paths.last(),
                path_exists,
                register,
                after,
                r,
            );
            search_path_step_appends(middle, paths.last(), path_exists, register, after, r);
            assert(before.is_prefix_of(after)) by {
                assert forall|i: int| 0 <= i < before.len() implies before[i] == after[i] by {
                    assert(middle[i] == before[i]);
                }
            }
        }
    }
}

/// After adding many search paths successfully, each of them is among the search paths, as a
/// path, and the paths that were there stay.
pub proof fn search_paths_through_adds_all<X: Fn(&str) -> bool, A: Fn(&str)>(
    before: Seq<Seq<char>>,
    paths: Seq<&str>,
    path_exists: X,
    register: A,
    after: Seq<Seq<char>>,
)
    requires
        search_paths_through(before, paths, path_exists, register, after, Ok(())),
    ensures
        forall|i: int| 0 <= i < paths.len() ==> paths_contain(after, #[trigger] paths[i]@),
        forall|i: int| 0 <= i < before.len() ==> after.contains(#[trigger] before[i]),
    decreases paths.len(),
{
    if paths.len() == 0 {
        assert forall|i: int| 0 <= i < before.len() implies after.contains(#[trigger] before[i]) by {
            assert(after[i] == before[i]);
        }
    } else {
        let (middle, first) = choose|middle: Seq<Seq<char>>, first: Result<(), IoError>|
            #[trigger] search_path_stage(middle, first) && search_paths_through(
                before,
                paths.drop_last(),
                path_exists,
                register,
                middle,
                first,
            ) && match first {
                Err(_) => after == middle && Ok::<(), IoError>(()) == first,
                Ok(()) => search_path_step(
                    middle,
                    paths.last(),
                    path_exists,
                    register,
                    after,
                    Ok(()),
                ),
            };
        search_paths_through_adds_all(before, paths.drop_last(), path_exists, register, middle);
        search_path_step_appends(middle, paths.last(), path_exists, register, after, Ok(()));
        assert forall|i: int| 0 <= i < paths.len() implies paths_contain(
            after,
            #[trigger] paths[i]@,
        ) by {
            if i < paths.len() - 1 {
                assert(paths.drop_last()[i] == paths[i]);
                assert(paths_contain(middle, paths.drop_last()[i]@));
                let k = choose|k: int|
                    0 <= k < middle.len() && #[trigger] is_same_path(middle[k], paths[i]@);
                assert(after[k] == middle[k]);
                assert(is_same_path(after[k], paths[i]@));
            }
        }
        assert forall|i: int| 0 <= i < before.len() implies after.contains(#[trigger] before[i]) by {
            let k = choose|k: int| 0 <= k < middle.len() && middle[k] == before[i];
            assert(after[k] == middle[k]);
        }
    }
}

/// Subscribing keeps every subscription that was there, and when it succeeds, the sender is
/// subscribed to.
pub proof fn subscribe_step_subscribes<B: Fn(&str) -> usize>(
    before: Map<Seq<char>, usize>,
    source: &str,
    bind: B,
    after: Map<Seq<char>, usize>,
    r: Result<(), SubscriptionError>,
)
    requires
        subscribe_step(before, source, bind, after, r),
    ensures
        before.submap_of(after),
        r is Ok ==> after.contains_key(source@),
        r is Err ==> after == before,
{
}

/// Subscribing to a sender that has no subscription, when it succeeds, adds that sender alone,
/// with the receiver that libpd bound for it: a non-null address that `bind` answered for the
/// sender's name.
pub proof fn subscribing_keeps_the_bound_receiver<B: Fn(&str) -> usize>(
    before: Map<Seq<char>, usize>,
    source: &str,
    bind: B,
    after: Map<Seq<char>, usize>,
    r: Result<(), SubscriptionError>,
)
    requires
        subscribe_step(before, source, bind, after, r),
        !before.contains_key(source@),
        r is Ok,
    ensures
        after == before.insert(source@, after[source@]),
        after[source@] != 0,
        call_ensures(bind, (source,), after[source@]),
{
    let listened = choose|listened: Result<ReceiverHandle, SubscriptionError>|
        #[trigger] listening_outcome(source, bind, listened) && match listened {
            Ok(handle) => after == before.insert(source@, handle@) && r is Ok,
            Err(e) => after == before && r == Err::<(), SubscriptionError>(e),
        };
    let handle = listened->Ok_0;
    assert(is_c_compatible(source@));
    let address = choose|address: usize|
        call_ensures(bind, (source,), address) && bound_outcome(source@, address, listened);
    assert(address == handle@);
    assert(after[source@] == handle@);
}

/// Subscribing to a sender that was just subscribed to changes nothing and asks nothing of
/// libpd.
pub proof fn subscribe_step_is_idempotent<B: Fn(&str) -> usize>(
    before: Map<Seq<char>, usize>,
    source: &str,
    bind: B,
    middle: Map<Seq<char>, usize>,
    first: Result<(), SubscriptionError>,
    after: Map<Seq<char>, usize>,
    second: Result<(), SubscriptionError>,
)
    requires
        subscribe_step(before, source, bind, middle, first),
        first is Ok,
        subscribe_step(middle, source, bind, after, second),
    ensures
        after == middle,
        second is Ok,
{
}

/// Subscribing to many senders keeps every subscription that was there, and when it
/// succeeds, each of the senders is subscribed to.
pub proof fn subscribed_through_subscribes_all<B: Fn(&str) -> usize>(
    before: Map<Seq<char>, usize>,
    sources: Seq<&str>,
    bind: B,
    after: Map<Seq<char>, usize>,
    r: Result<(), SubscriptionError>,
)
    requires
        subscribed_through(before, sources, bind, after, r),
    ensures
        before.submap_of(after),
        r is Ok ==> forall|i: int| 0 <= i < sources.len() ==> after.contains_key(#[trigger] sources[i]@),
    decreases sources.len(),
{
    if sources.len() > 0 {
        let (middle, first) = choose|middle: Map<Seq<char>, usize>, first: Result<(), SubscriptionError>|
            #[trigger] subscription_stage(middle, first) && subscribed_through(
                before,
                sources.drop_last(),
                bind,
                middle,
                first,
            ) && match first {
                Err(_) => after == middle && r == first,
                Ok(()) => subscribe_step(middle, sources.last(), bind, after, r),
            };
        subscribed_through_subscribes_all(before, sources.drop_last(), bind, middle, first);
        if first is Ok {
            subscribe_step_subscribes(middle, sources.last(), bind, after, r);
            if r is Ok {
                assert forall|i: int| 0 <= i < sources.len() implies after.contains_key(#[trigger] sources[i]@) by {
                    if i < sources.len() - 1 {
                        assert(sources.drop_last()[i] == sources[i]);
                    }
                }
            }
        }
    }
}

/// Switching audio on or off, when it succeeds, leaves audio switched that way; switching it
/// the way it is already changes nothing and sends nothing.
pub proof fn audio_switch_sets_state<S: Fn(i32) -> i32, A: Fn(i32), F: Fn(&str, &str) -> i32>(
    active: bool,
    on: bool,
    start_message: S,
    add_float: A,
    finish_message: F,
    now_active: bool,
    r: Result<(), PdError>,
)
    requires
        audio_switch(active, on, start_message, add_float, finish_message, now_active, r),
    ensures
        r is Ok ==> now_active == on,
        r is Err ==> now_active == active,
        active == on ==> r is Ok && now_active == active,
{
}

/// Switching audio succeeds only with the whole message sent: a message of one element was
/// started, the switch value was added to it, and it was sent as `dsp` to `pd`, which
/// received it.
pub proof fn switching_sends_the_dsp_message<
    S: Fn(i32) -> i32,
    A: Fn(i32),
    F: Fn(&str, &str) -> i32,
>(value: i32, start_message: S, add_float: A, finish_message: F, r: Result<(), PdError>)
    requires
        dsp_switch_outcome(value, start_message, add_float, finish_message, r),
        r is Ok,
    ensures
        exists|status: i32| #[trigger] call_ensures(start_message, (1i32,), status) && status == 0,
        call_ensures(add_float, (value,), ()),
        exists|receiver: &str, header: &str|
            receiver@ == seq!['p', 'd'] && header@ == seq!['d', 's', 'p'] && #[trigger] call_ensures(
                finish_message,
                (receiver, header),
                0i32,
            ),
{
    let status = choose|status: i32|
        call_ensures(start_message, (1i32,), status) && if status != 0 {
            r == Err::<(), PdError>(PdError::SizeError(crate::error::SizeError::TooLarge))
        } else {
            &&& call_ensures(add_float, (value,), ())
            &&& exists|sent: Result<(), SendError>|
                dsp_message_outcome(finish_message, sent) && r == match sent {
                    Ok(()) => Ok(()),
                    Err(e) => Err(PdError::SendError(e)),
                }
        };
    assert(status == 0);
    let sent = choose|sent: Result<(), SendError>|
        dsp_message_outcome(finish_message, sent) && r == match sent {
            Ok(()) => Ok(()),
            Err(e) => Err(PdError::SendError(e)),
        };
    assert(sent is Ok);
    let (receiver, header) = choose|receiver: &str, header: &str|
        receiver@ == seq!['p', 'd'] && header@ == seq!['d', 's', 'p'] && typed_delivery_outcome(
            receiver,
            header,
            finish_message,
            sent,
        );
    assert(is_c_compatible(receiver@) && is_c_compatible(header@));
    let answer = choose|answer: i32|
        call_ensures(finish_message, (receiver, header), answer) && delivery_status_outcome(
            receiver@,
            answer,
            sent,
        );
    assert(answer == 0);
    assert(call_ensures(finish_message, (receiver, header), 0i32));
}

/// Opening a patch while another one is open closes that one first: its address went to
/// `close_file`, unless it was null, in which case nothing is opened.
pub proof fn opening_closes_the_previous_patch<
    E: Fn() -> Option<String>,
    X: Fn(&str) -> bool,
    O: Fn(&str, &str) -> usize,
    C: Fn(usize),
    D: Fn(&str),
>(
    before: PatchView,
    path: Seq<char>,
    manifest_dir: Seq<char>,
    current_exe: E,
    path_exists: X,
    open_file: O,
    close_file: C,
    remove_temp: D,
    after: PatchView,
    r: Result<(), PatchLifeCycleError>,
    previous: usize,
)
    requires
        opening(
            before,
            path,
            manifest_dir,
            current_exe,
            path_exists,
            open_file,
            close_file,
            remove_temp,
            after,
            r,
        ),
        before.running_patch == Some(previous),
    ensures
        previous != 0 ==> call_ensures(close_file, (previous,), ()),
        previous == 0 ==> r == Err::<(), PatchLifeCycleError>(
            PatchLifeCycleError::FailedToClosePatch,
        ) && after.running_patch is None,
{
}

/// Closing the patch of a session always leaves no patch open, and it removes the temporary
/// file of an evaluated patch unless the open handle was null.
pub proof fn closing_closes<C: Fn(usize), D: Fn(&str)>(
    before: PatchView,
    close_file: C,
    remove_temp: D,
    after: PatchView,
    r: Result<(), PatchLifeCycleError>,
)
    requires
        closing(before, close_file, remove_temp, after, r),
    ensures
        after.running_patch is None,
        r is Ok ==> after.temporary_evaluated_patch is None,
{
}

/// When opening a patch succeeds, a patch is open: the one opened.
pub proof fn opening_opens<
    E: Fn() -> Option<String>,
    X: Fn(&str) -> bool,
    O: Fn(&str, &str) -> usize,
    C: Fn(usize),
    D: Fn(&str),
>(
    before: PatchView,
    path: Seq<char>,
    manifest_dir: Seq<char>,
    current_exe: E,
    path_exists: X,
    open_file: O,
    close_file: C,
    remove_temp: D,
    after: PatchView,
    r: Result<(), PatchLifeCycleError>,
)
    requires
        opening(
            before,
            path,
            manifest_dir,
            current_exe,
            path_exists,
            open_file,
            close_file,
            remove_temp,
            after,
            r,
        ),
        r is Ok,
    ensures
        after.running_patch is Some,
        after.running_patch != Some(0usize),
{
}

/// The number of ticks that fit a buffer, times the frames of a tick, is the buffer size
/// when the buffer holds whole ticks, and never more than the buffer size.
pub proof fn ticks_fill_the_buffer(buffer_size: int, frames: int)
    requires
        buffer_size >= 0,
        frames > 0,
    ensures
        div_toward_zero(buffer_size, frames) * frames <= buffer_size,
        buffer_size < (div_toward_zero(buffer_size, frames) + 1) * frames,
        buffer_size % frames == 0 ==> div_toward_zero(buffer_size, frames) * frames == buffer_size,
{
    let q = buffer_size / frames;
    assert(q * frames + buffer_size % frames == buffer_size) by (nonlinear_arith)
        requires
            frames > 0,
            q == buffer_size / frames,
    ;
    assert(0 <= buffer_size % frames < frames) by (nonlinear_arith)
        requires
            frames > 0,
    ;
    assert((q + 1) * frames == q * frames + frames) by (nonlinear_arith);
}

/// Unsubscribing from a sender leaves it unsubscribed, and unsubscribing from it again
/// changes nothing.
pub proof fn unsubscribing_twice_is_unsubscribing_once(
    subscriptions: Map<Seq<char>, usize>,
    source: Seq<char>,
)
    ensures
        !subscriptions.remove(source).contains_key(source),
        subscriptions.remove(source).remove(source) == subscriptions.remove(source),
{
    assert(subscriptions.remove(source).remove(source) =~= subscriptions.remove(source));
}

/// A read or write that reaches libpd moves a range that fits the array and the buffer on the
/// application's side: an answer of success means the range fitted.
pub proof fn transfer_stays_in_bounds<S: Fn(&str) -> i32, T: FnOnce(&str, i32, i32) -> i32>(
    name: &str,
    offset: i32,
    amount: i32,
    buffer_len: usize,
    size: S,
    transfer: T,
    r: Result<(), crate::error::ArrayError>,
)
    requires
        transfer_outcome(name, offset, amount, buffer_len, size, transfer, r),
        r is Ok,
    ensures
        0 <= amount <= buffer_len,
        exists|answer: i32|
            #[trigger] call_ensures(size, (name,), answer) && 0 <= answer && offset + amount
                <= answer,
{
}

/// A read or write whose range fits is not refused: when libpd gives the array's size as `n`,
/// a name that is a C string, `0 <= amount <= buffer_len` and `offset + amount <= n` bring
/// the transfer to libpd, and its status is the answer: success for `0`, the array not found
/// otherwise. In particular the whole array, `offset == 0` and `amount == n`, can be moved.
pub proof fn fitting_transfer_reaches_libpd<
    S: Fn(&str) -> i32,
    T: FnOnce(&str, i32, i32) -> i32,
>(
    name: &str,
    offset: i32,
    amount: i32,
    buffer_len: usize,
    size: S,
    transfer: T,
    n: i32,
    r: Result<(), ArrayError>,
)
    requires
        transfer_outcome(name, offset, amount, buffer_len, size, transfer, r),
        is_c_compatible(name@),
        forall|answer: i32| #[trigger] call_ensures(size, (name,), answer) ==> answer == n,
        0 <= n,
        0 <= amount <= buffer_len,
        offset + amount <= n,
    ensures
        exists|status: i32|
            #[trigger] call_ensures(transfer, (name, offset, amount), status) && r == (if status
                == 0 {
                Ok(())
            } else {
                Err(ArrayError::FailedToFindArray)
            }),
{
}

/// A transfer is refused as out of bounds exactly when its range does not fit: when libpd
/// gives the array's size as `n >= 0` and the name is a C string, the result is `OutOfBounds`
/// if and only if `offset + amount > n`, `amount < 0` or `amount > buffer_len`.
pub proof fn out_of_bounds_iff_range_does_not_fit<
    S: Fn(&str) -> i32,
    T: FnOnce(&str, i32, i32) -> i32,
>(
    name: &str,
    offset: i32,
    amount: i32,
    buffer_len: usize,
    size: S,
    transfer: T,
    n: i32,
    r: Result<(), ArrayError>,
)
    requires
        transfer_outcome(name, offset, amount, buffer_len, size, transfer, r),
        is_c_compatible(name@),
        forall|answer: i32| #[trigger] call_ensures(size, (name,), answer) ==> answer == n,
        0 <= n,
    ensures
        r == Err::<(), ArrayError>(ArrayError::OutOfBounds) <==> (offset + amount > n || amount < 0
            || amount > buffer_len),
{
}

/// Instances are equal when their numbers are, and this equality is an equivalence.
pub proof fn instance_equality_is_an_equivalence(a: PdInstance, b: PdInstance, c: PdInstance)
    ensures
        a.eq_spec(&b) == (a@.1 == b@.1),
        a.eq_spec(&a),
        a.eq_spec(&b) == b.eq_spec(&a),
        a.eq_spec(&b) && b.eq_spec(&c) ==> a.eq_spec(&c),
{
}

} // verus!
