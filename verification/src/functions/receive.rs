//! Subscribing to senders in pd.
//!
//! Subscribing to `foo` adds a virtual `|r foo|` to pd which forwards what it receives to the
//! listeners that the application registered. libpd answers a null receiver when it could not
//! create one.

use crate::error::SubscriptionError;
use crate::helpers::{c_string_error_of, check_c_string, is_c_compatible};
use crate::types::ReceiverHandle;
use vstd::prelude::*;

verus! {

/// What subscribing to `sender` answers when libpd's `bind` gives the receiver address
/// `address`.
pub open spec fn bound_outcome(
    sender: Seq<char>,
    address: usize,
    r: Result<ReceiverHandle, SubscriptionError>,
) -> bool {
    if address == 0 {
        r matches Err(SubscriptionError::FailedToSubscribeToSender(name)) && name@ == sender
    } else {
        r matches Ok(handle) && handle@ == address
    }
}

/// What subscribing to `sender` through `bind` answers: a sender name that is no C string is
/// refused before libpd is asked.
pub open spec fn listening_outcome<B: FnOnce(&str) -> usize>(
    sender: &str,
    bind: B,
    r: Result<ReceiverHandle, SubscriptionError>,
) -> bool {
    if !is_c_compatible(sender@) {
        r matches Err(SubscriptionError::StringConversion(e)) && c_string_error_of(sender@, e)
    } else {
        exists|address: usize|
            call_ensures(bind, (sender,), address) && bound_outcome(sender@, address, r)
    }
}

/// Subscribes to messages sent to the sender named `sender` in the loaded patch.
///
/// `bind` asks libpd for a receiver of that name and returns its address, null on failure.
/// The handle that comes back unsubscribes again.
pub fn start_listening_from<B: FnOnce(&str) -> usize>(sender: &str, bind: B) -> (r: Result<
    ReceiverHandle,
    SubscriptionError,
>)
    requires
        is_c_compatible(sender@) ==> call_requires(bind, (sender,)),
    ensures
        listening_outcome(sender, bind, r),
{
    match check_c_string(sender) {
        Err(e) => Err(SubscriptionError::StringConversion(e)),
        Ok(()) => {
            let address = bind(sender);
            let r = if address == 0 {
                Err(SubscriptionError::FailedToSubscribeToSender(sender.to_owned()))
            } else {
                Ok(ReceiverHandle::new(address))
            };
            assert(bound_outcome(sender@, address, r));
            assert(call_ensures(bind, (sender,), address));
            r
        },
    }
}

/// Unsubscribes the receiver of `source`; `unbind` removes the receiver at the given address
/// from libpd. A null handle is left alone.
pub fn stop_listening_from<U: Fn(usize)>(source: ReceiverHandle, unbind: &U)
    requires
        source@ != 0 ==> call_requires(*unbind, (source@,)),
    ensures
        source@ != 0 ==> call_ensures(*unbind, (source@,), ()),
{
    let address = source.into_inner();
    if address != 0 {
        unbind(address);
    }
}

/// Checks if a sender named `sender` exists in the loaded patch; `lookup` asks libpd, which
/// answers `1` when it does.
pub fn source_to_listen_from_exists<E: Fn(&str) -> i32>(sender: &str, lookup: &E) -> (r: bool)
    requires
        is_c_compatible(sender@),
        call_requires(*lookup, (sender,)),
    ensures
        exists|answer: i32| call_ensures(*lookup, (sender,), answer) && r == (answer == 1),
{
    lookup(sender) == 1
}

} // verus!
