//! Sending messages to pd.
//!
//! Messages go to named receivers in the loaded patch (`|r foo|` objects). libpd answers `0`
//! when the message was delivered and a negative status when no receiver of that name exists;
//! the MIDI functions answer a negative status when a value is out of range.

use crate::error::{SendError, SizeError};
use crate::helpers::{c_string_error_of, check_c_string, is_c_compatible};
use vstd::prelude::*;

verus! {

/// What a delivery to `receiver` answers when libpd gives `status`.
pub open spec fn delivery_status_outcome(
    receiver: Seq<char>,
    status: i32,
    r: Result<(), SendError>,
) -> bool {
    if status == 0 {
        r is Ok
    } else {
        r matches Err(SendError::MissingDestination(name)) && name@ == receiver
    }
}

/// What a delivery to `receiver` through `deliver` answers: a receiver name that is no C string
/// is refused before anything is sent, and otherwise libpd's status decides.
pub open spec fn delivery_outcome<F: Fn(&str) -> i32>(
    receiver: &str,
    deliver: F,
    r: Result<(), SendError>,
) -> bool {
    if !is_c_compatible(receiver@) {
        r matches Err(SendError::StringConversion(e)) && c_string_error_of(receiver@, e)
    } else {
        exists|status: i32|
            call_ensures(deliver, (receiver,), status) && delivery_status_outcome(
                receiver@,
                status,
                r,
            )
    }
}

/// What a delivery to `receiver` of a message with a second name (a selector or a symbol)
/// answers: both names must be C strings, the receiver's is checked first.
pub open spec fn typed_delivery_outcome<F: FnOnce(&str, &str) -> i32>(
    receiver: &str,
    second: &str,
    deliver: F,
    r: Result<(), SendError>,
) -> bool {
    if !is_c_compatible(receiver@) {
        r matches Err(SendError::StringConversion(e)) && c_string_error_of(receiver@, e)
    } else if !is_c_compatible(second@) {
        r matches Err(SendError::StringConversion(e)) && c_string_error_of(second@, e)
    } else {
        exists|status: i32|
            call_ensures(deliver, (receiver, second), status) && delivery_status_outcome(
                receiver@,
                status,
                r,
            )
    }
}

/// What a MIDI message answers when libpd gives `status`.
pub open spec fn midi_outcome(status: i32) -> Result<(), SendError> {
    if status == 0 {
        Ok(())
    } else {
        Err(SendError::OutOfRange)
    }
}

/// Delivers something to the pd receiver named `receiver`.
///
/// `deliver` makes the libpd call with the receiver's name and returns libpd's status. This is
/// what sending a float, a double or a list to a receiver comes down to.
pub fn deliver_to<F: Fn(&str) -> i32>(receiver: &str, deliver: &F) -> (r: Result<(), SendError>)
    requires
        is_c_compatible(receiver@) ==> call_requires(*deliver, (receiver,)),
    ensures
        delivery_outcome(receiver, *deliver, r),
{
    match check_c_string(receiver) {
        Err(e) => Err(SendError::StringConversion(e)),
        Ok(()) => {
            let status = deliver(receiver);
            let r = if status == 0 {
                Ok(())
            } else {
                Err(SendError::MissingDestination(receiver.to_owned()))
            };
            assert(delivery_status_outcome(receiver@, status, r));
            assert(call_ensures(*deliver, (receiver,), status));
            r
        },
    }
}

/// Delivers something named by a second string (a message selector or a symbol) to the pd
/// receiver named `receiver`.
pub fn deliver_typed_to<F: FnOnce(&str, &str) -> i32>(
    receiver: &str,
    second: &str,
    deliver: F,
) -> (r: Result<(), SendError>)
    requires
        is_c_compatible(receiver@) && is_c_compatible(second@) ==> call_requires(
            deliver,
            (receiver, second),
        ),
    ensures
        typed_delivery_outcome(receiver, second, deliver, r),
{
    match check_c_string(receiver) {
        Err(e) => Err(SendError::StringConversion(e)),
        Ok(()) => match check_c_string(second) {
            Err(e) => Err(SendError::StringConversion(e)),
            Ok(()) => {
                let status = deliver(receiver, second);
                let r = if status == 0 {
                    Ok(())
                } else {
                    Err(SendError::MissingDestination(receiver.to_owned()))
                };
                assert(delivery_status_outcome(receiver@, status, r));
                assert(call_ensures(deliver, (receiver, second), status));
                r
            },
        },
    }
}

/// Sends a `bang` to the pd receiver named `receiver`; `bang` makes libpd's call.
///
/// `send_bang_to("foo", ..)` sends a bang to `|s foo|` on the next tick.
pub fn send_bang_to<F: Fn(&str) -> i32>(receiver: &str, bang: &F) -> (r: Result<(), SendError>)
    requires
        is_c_compatible(receiver@) ==> call_requires(*bang, (receiver,)),
    ensures
        delivery_outcome(receiver, *bang, r),
{
    deliver_to(receiver, bang)
}

/// Sends the symbol `value` to the pd receiver named `receiver`; `symbol` makes libpd's call
/// with both names.
pub fn send_symbol_to<F: FnOnce(&str, &str) -> i32>(receiver: &str, value: &str, symbol: F) -> (r:
    Result<(), SendError>)
    requires
        is_c_compatible(receiver@) && is_c_compatible(value@) ==> call_requires(
            symbol,
            (receiver, value),
        ),
    ensures
        typed_delivery_outcome(receiver, value, symbol, r),
{
    deliver_typed_to(receiver, value, symbol)
}

/// Starts the composition of a list or typed message of up to `length` elements.
///
/// `start` makes libpd's call; a status other than `0` means that the length is too large.
pub fn start_message<S: Fn(i32) -> i32>(length: i32, start: &S) -> (r: Result<(), SizeError>)
    requires
        call_requires(*start, (length,)),
    ensures
        exists|status: i32|
            call_ensures(*start, (length,), status) && r == (if status == 0 {
                Ok(())
            } else {
                Err(SizeError::TooLarge)
            }),
{
    let status = start(length);
    let r = if status == 0 {
        Ok(())
    } else {
        Err(SizeError::TooLarge)
    };
    assert(call_ensures(*start, (length,), status));
    r
}

/// Adds a symbol to the message in composition; `add_symbol` makes libpd's call.
pub fn add_symbol_to_started_message<A: Fn(&str)>(value: &str, add_symbol: &A)
    requires
        is_c_compatible(value@),
        call_requires(*add_symbol, (value,)),
    ensures
        call_ensures(*add_symbol, (value,), ()),
{
    add_symbol(value)
}

/// Finishes the message in composition and sends it as a list to the receiver named
/// `receiver`; `finish` makes libpd's call.
pub fn finish_message_as_list_and_send_to<F: Fn(&str) -> i32>(receiver: &str, finish: &F) -> (r:
    Result<(), SendError>)
    requires
        is_c_compatible(receiver@) ==> call_requires(*finish, (receiver,)),
    ensures
        delivery_outcome(receiver, *finish, r),
{
    deliver_to(receiver, finish)
}

/// Finishes the message in composition and sends it as a typed message with the selector
/// `message_header` to the receiver named `receiver`; `finish` makes libpd's call.
///
/// With `receiver` `"pd"` and header `"dsp"`, a message `1` is the pd message `; pd dsp 1`.
pub fn finish_message_as_typed_message_and_send_to<F: FnOnce(&str, &str) -> i32>(
    receiver: &str,
    message_header: &str,
    finish: F,
) -> (r: Result<(), SendError>)
    requires
        is_c_compatible(receiver@) && is_c_compatible(message_header@) ==> call_requires(
            finish,
            (receiver, message_header),
        ),
    ensures
        typed_delivery_outcome(receiver, message_header, finish, r),
{
    deliver_typed_to(receiver, message_header, finish)
}

/// Sends a MIDI note on message to `|notein|` objects; `note_on` makes libpd's call.
///
/// Channel is 0-indexed, pitch is 0-127 and velocity is 0-127; a note on with velocity `0` is
/// a note off.
pub fn send_note_on<F: Fn(i32, i32, i32) -> i32>(
    channel: i32,
    pitch: i32,
    velocity: i32,
    note_on: &F,
) -> (r: Result<(), SendError>)
    requires
        call_requires(*note_on, (channel, pitch, velocity)),
    ensures
        exists|status: i32|
            call_ensures(*note_on, (channel, pitch, velocity), status) && r == midi_outcome(status),
{
    let status = note_on(channel, pitch, velocity);
    assert(call_ensures(*note_on, (channel, pitch, velocity), status));
    midi_status(status)
}

/// Sends a MIDI control change message to `|ctlin|` objects; `control_change` makes libpd's
/// call. Channel is 0-indexed, controller is 0-127 and value is 0-127.
pub fn send_control_change<F: Fn(i32, i32, i32) -> i32>(
    channel: i32,
    controller: i32,
    value: i32,
    control_change: &F,
) -> (r: Result<(), SendError>)
    requires
        call_requires(*control_change, (channel, controller, value)),
    ensures
        exists|status: i32|
            call_ensures(*control_change, (channel, controller, value), status) && r
                == midi_outcome(status),
{
    let status = control_change(channel, controller, value);
    assert(call_ensures(*control_change, (channel, controller, value), status));
    midi_status(status)
}

/// Sends a MIDI program change message to `|pgmin|` objects; `program_change` makes libpd's
/// call. Channel is 0-indexed, value is 0-127.
pub fn send_program_change<F: Fn(i32, i32) -> i32>(channel: i32, value: i32, program_change: &F) -> (r:
    Result<(), SendError>)
    requires
        call_requires(*program_change, (channel, value)),
    ensures
        exists|status: i32|
            call_ensures(*program_change, (channel, value), status) && r == midi_outcome(status),
{
    let status = program_change(channel, value);
    assert(call_ensures(*program_change, (channel, value), status));
    midi_status(status)
}

/// Sends a MIDI pitch bend message to `|bendin|` objects; `pitch_bend` makes libpd's call.
/// Channel is 0-indexed, value is -8192 to 8192.
pub fn send_pitch_bend<F: Fn(i32, i32) -> i32>(channel: i32, value: i32, pitch_bend: &F) -> (r:
    Result<(), SendError>)
    requires
        call_requires(*pitch_bend, (channel, value)),
    ensures
        exists|status: i32|
            call_ensures(*pitch_bend, (channel, value), status) && r == midi_outcome(status),
{
    let status = pitch_bend(channel, value);
    assert(call_ensures(*pitch_bend, (channel, value), status));
    midi_status(status)
}

/// Sends a MIDI after touch message to `|touchin|` objects; `after_touch` makes libpd's call.
/// Channel is 0-indexed, value is 0-127.
pub fn send_after_touch<F: Fn(i32, i32) -> i32>(channel: i32, value: i32, after_touch: &F) -> (r:
    Result<(), SendError>)
    requires
        call_requires(*after_touch, (channel, value)),
    ensures
        exists|status: i32|
            call_ensures(*after_touch, (channel, value), status) && r == midi_outcome(status),
{
    let status = after_touch(channel, value);
    assert(call_ensures(*after_touch, (channel, value), status));
    midi_status(status)
}

/// Sends a MIDI poly after touch message to `|polytouchin|` objects; `poly_after_touch` makes
/// libpd's call. Channel is 0-indexed, pitch is 0-127 and value is 0-127.
pub fn send_poly_after_touch<F: Fn(i32, i32, i32) -> i32>(
    channel: i32,
    pitch: i32,
    value: i32,
    poly_after_touch: &F,
) -> (r: Result<(), SendError>)
    requires
        call_requires(*poly_after_touch, (channel, pitch, value)),
    ensures
        exists|status: i32|
            call_ensures(*poly_after_touch, (channel, pitch, value), status) && r == midi_outcome(
                status,
            ),
{
    let status = poly_after_touch(channel, pitch, value);
    assert(call_ensures(*poly_after_touch, (channel, pitch, value), status));
    midi_status(status)
}

/// Sends a raw MIDI byte to `|midiin|` objects; `midi_byte` makes libpd's call.
/// Port is 0-indexed and byte is 0-255.
pub fn send_midi_byte<F: Fn(i32, i32) -> i32>(port: i32, byte: i32, midi_byte: &F) -> (r: Result<
    (),
    SendError,
>)
    requires
        call_requires(*midi_byte, (port, byte)),
    ensures
        exists|status: i32| call_ensures(*midi_byte, (port, byte), status) && r == midi_outcome(status),
{
    let status = midi_byte(port, byte);
    assert(call_ensures(*midi_byte, (port, byte), status));
    midi_status(status)
}

/// Sends a raw MIDI byte to `|sysexin|` objects; `sysex` makes libpd's call.
/// Port is 0-indexed and byte is 0-255.
pub fn send_sysex<F: Fn(i32, i32) -> i32>(port: i32, byte: i32, sysex: &F) -> (r: Result<
    (),
    SendError,
>)
    requires
        call_requires(*sysex, (port, byte)),
    ensures
        exists|status: i32| call_ensures(*sysex, (port, byte), status) && r == midi_outcome(status),
{
    let status = sysex(port, byte);
    assert(call_ensures(*sysex, (port, byte), status));
    midi_status(status)
}

/// Sends a raw MIDI byte to `|midirealtimein|` objects; `sys_realtime` makes libpd's call.
/// Port is 0-indexed and byte is 0-255.
pub fn send_sys_realtime<F: Fn(i32, i32) -> i32>(port: i32, byte: i32, sys_realtime: &F) -> (r:
    Result<(), SendError>)
    requires
        call_requires(*sys_realtime, (port, byte)),
    ensures
        exists|status: i32|
            call_ensures(*sys_realtime, (port, byte), status) && r == midi_outcome(status),
{
    let status = sys_realtime(port, byte);
    assert(call_ensures(*sys_realtime, (port, byte), status));
    midi_status(status)
}

/// Reads libpd's status for a MIDI message.
fn midi_status(status: i32) -> (r: Result<(), SendError>)
    ensures
        r == midi_outcome(status),
{
    if status == 0 {
        Ok(())
    } else {
        Err(SendError::OutOfRange)
    }
}

} // verus!
