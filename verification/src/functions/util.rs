//! Common operations built from the functions of libpd.

use crate::error::{PdError, SendError};
use crate::functions::send;
use crate::functions::send::{delivery_status_outcome, typed_delivery_outcome};
use crate::helpers::is_c_compatible;
use vstd::math::abs;
use vstd::prelude::*;

verus! {

/// The message `dsp <value>` to the receiver `pd` answers `r` when `finish_message` finishes
/// it with libpd.
pub open spec fn dsp_message_outcome<F: FnOnce(&str, &str) -> i32>(
    finish_message: F,
    r: Result<(), SendError>,
) -> bool {
    exists|receiver: &str, header: &str|
        receiver@ == seq!['p', 'd'] && header@ == seq!['d', 's', 'p'] && typed_delivery_outcome(
            receiver,
            header,
            finish_message,
            r,
        )
}

/// What switching audio answers: `start_message` starts a message of one element, `add_float`
/// adds the switch value `value` to it and `finish_message` sends it as `dsp` to `pd`.
pub open spec fn dsp_switch_outcome<
    S: FnOnce(i32) -> i32,
    A: FnOnce(i32),
    F: FnOnce(&str, &str) -> i32,
>(
    value: i32,
    start_message: S,
    add_float: A,
    finish_message: F,
    r: Result<(), PdError>,
) -> bool {
    exists|status: i32|
        call_ensures(start_message, (1i32,), status) && if status != 0 {
            r == Err::<(), PdError>(PdError::SizeError(crate::error::SizeError::TooLarge))
        } else {
            &&& call_ensures(add_float, (value,), ())
            &&& exists|sent: Result<(), SendError>|
                dsp_message_outcome(finish_message, sent) && r == match sent {
                    Ok(()) => Ok(()),
                    Err(e) => Err(PdError::SendError(e)),
                }
        }
}

/// Starting a message of one element with `start_message` may succeed: the message goes on
/// only after such an answer.
pub open spec fn start_succeeded<S: FnOnce(i32) -> i32>(start_message: S) -> bool {
    exists|status: i32| #[trigger] call_ensures(start_message, (1i32,), status) && status == 0
}

/// The receiver `pd` and the selector `dsp`, by which audio is switched.
pub open spec fn is_dsp_message(receiver: &str, header: &str) -> bool {
    receiver@ == seq!['p', 'd'] && header@ == seq!['d', 's', 'p']
}

/// Sends the message `dsp <value>` to `pd`.
fn switch_dsp<S: FnOnce(i32) -> i32, A: FnOnce(i32), F: FnOnce(&str, &str) -> i32>(
    value: i32,
    start_message: S,
    add_float: A,
    finish_message: F,
) -> (r: Result<(), PdError>)
    requires
        call_requires(start_message, (1i32,)),
        start_succeeded(start_message) ==> call_requires(add_float, (value,)),
        forall|receiver: &str, header: &str|
            start_succeeded(start_message) && call_ensures(add_float, (value,), ())
                && is_dsp_message(receiver, header) ==> call_requires(
                finish_message,
                (receiver, header),
            ),
    ensures
        dsp_switch_outcome(value, start_message, add_float, finish_message, r),
{
    let ghost start_spec = start_message;
    let ghost add_spec = add_float;
    let ghost finish_spec = finish_message;
    let status = start_message(1);
    if status != 0 {
        assert(call_ensures(start_spec, (1i32,), status));
        return Err(PdError::SizeError(crate::error::SizeError::TooLarge));
    }
    assert(call_ensures(start_spec, (1i32,), status));
    assert(start_succeeded(start_spec));
    add_float(value);
    assert(call_ensures(add_spec, (value,), ()));
    let receiver = "pd";
    let header = "dsp";
    proof {
        reveal_strlit("pd");
        reveal_strlit("dsp");
    }
    assert(receiver@ =~= seq!['p', 'd']);
    assert(header@ =~= seq!['d', 's', 'p']);
    assert(is_dsp_message(receiver, header));
    let sent = send::finish_message_as_typed_message_and_send_to(receiver, header, finish_message);
    assert(dsp_message_outcome(finish_spec, sent));
    match sent {
        Ok(()) => Ok(()),
        Err(e) => Err(PdError::SendError(e)),
    }
}

/// Switching audio through references to the closures is switching it through the closures.
proof fn lemma_dsp_switch_through_references<
    S: Fn(i32) -> i32,
    A: Fn(i32),
    F: Fn(&str, &str) -> i32,
>(value: i32, start_message: S, add_float: A, finish_message: F, r: Result<(), PdError>)
    requires
        dsp_switch_outcome(value, &start_message, &add_float, &finish_message, r),
    ensures
        dsp_switch_outcome(value, start_message, add_float, finish_message, r),
{
    let status = choose|status: i32|
        call_ensures(&start_message, (1i32,), status) && if status != 0 {
            r == Err::<(), PdError>(PdError::SizeError(crate::error::SizeError::TooLarge))
        } else {
            &&& call_ensures(&add_float, (value,), ())
            &&& exists|sent: Result<(), SendError>|
                dsp_message_outcome(&finish_message, sent) && r == match sent {
                    Ok(()) => Ok(()),
                    Err(e) => Err(PdError::SendError(e)),
                }
        };
    assert(call_ensures(start_message, (1i32,), status));
    if status == 0 {
        assert(call_ensures(add_float, (value,), ()));
        let sent = choose|sent: Result<(), SendError>|
            dsp_message_outcome(&finish_message, sent) && r == match sent {
                Ok(()) => Ok(()),
                Err(e) => Err(PdError::SendError(e)),
            };
        let (receiver, header) = choose|receiver: &str, header: &str|
            receiver@ == seq!['p', 'd'] && header@ == seq!['d', 's', 'p'] && typed_delivery_outcome(
                receiver,
                header,
                &finish_message,
                sent,
            );
        if is_c_compatible(receiver@) && is_c_compatible(header@) {
            let answer = choose|answer: i32|
                call_ensures(&finish_message, (receiver, header), answer)
                    && delivery_status_outcome(receiver@, answer, sent);
            assert(call_ensures(finish_message, (receiver, header), answer));
        }
        assert(typed_delivery_outcome(receiver, header, finish_message, sent));
        assert(dsp_message_outcome(finish_message, sent));
    }
}

/// Activates audio in pd: sends `dsp 1` to `pd`.
///
/// `start_message`, `add_float` and `finish_message` are libpd's calls that compose a message:
/// start one of the given length, add a float of the given value, and send it as a typed
/// message to a receiver.
pub fn dsp_on<S: Fn(i32) -> i32, A: Fn(i32), F: Fn(&str, &str) -> i32>(
    start_message: &S,
    add_float: &A,
    finish_message: &F,
) -> (r: Result<(), PdError>)
    requires
        call_requires(*start_message, (1i32,)),
        start_succeeded(*start_message) ==> call_requires(*add_float, (1i32,)),
        forall|receiver: &str, header: &str|
            start_succeeded(*start_message) && call_ensures(*add_float, (1i32,), ())
                && is_dsp_message(receiver, header) ==> call_requires(
                *finish_message,
                (receiver, header),
            ),
    ensures
        dsp_switch_outcome(1, *start_message, *add_float, *finish_message, r),
{
    let r = switch_dsp(1, start_message, add_float, finish_message);
    proof {
        lemma_dsp_switch_through_references(1, *start_message, *add_float, *finish_message, r);
    }
    r
}

/// De-activates audio in pd: sends `dsp 0` to `pd`, with the same calls as [`dsp_on`].
pub fn dsp_off<S: Fn(i32) -> i32, A: Fn(i32), F: Fn(&str, &str) -> i32>(
    start_message: &S,
    add_float: &A,
    finish_message: &F,
) -> (r: Result<(), PdError>)
    requires
        call_requires(*start_message, (1i32,)),
        start_succeeded(*start_message) ==> call_requires(*add_float, (0i32,)),
        forall|receiver: &str, header: &str|
            start_succeeded(*start_message) && call_ensures(*add_float, (0i32,), ())
                && is_dsp_message(receiver, header) ==> call_requires(
                *finish_message,
                (receiver, header),
            ),
    ensures
        dsp_switch_outcome(0, *start_message, *add_float, *finish_message, r),
{
    let r = switch_dsp(0, start_message, add_float, finish_message);
    proof {
        lemma_dsp_switch_through_references(0, *start_message, *add_float, *finish_message, r);
    }
    r
}

/// Division of integers that rounds toward zero, as Rust's `/` on integers does (spec `/` is
/// Euclidean division, which rounds a negative quotient the other way).
pub open spec fn div_toward_zero(a: int, b: int) -> int {
    let magnitude: int = (abs(a) / abs(b)) as int;
    if (a >= 0) == (b > 0) {
        magnitude
    } else {
        -magnitude
    }
}

/// The number of pd ticks that fill a buffer: `buffer_size / (block_size * channels)`,
/// rounded toward zero.
///
/// `block_size` is pd's block size, the number of frames of one tick.
pub fn calculate_ticks(channels: i32, buffer_size: i32, block_size: i32) -> (r: i32)
    requires
        block_size * channels != 0,
        i32::MIN <= block_size * channels <= i32::MAX,
        !(buffer_size == i32::MIN && block_size * channels == -1),
    ensures
        r == div_toward_zero(buffer_size as int, block_size * channels),
{
    let frames = block_size as i64 * channels as i64;
    let dividend = buffer_size as i64;
    let dividend_magnitude: u64 = if dividend >= 0 {
        dividend as u64
    } else {
        (-dividend) as u64
    };
    let divisor_magnitude: u64 = if frames >= 0 {
        frames as u64
    } else {
        (-frames) as u64
    };
    let magnitude = dividend_magnitude / divisor_magnitude;
    assert(magnitude <= dividend_magnitude) by (nonlinear_arith)
        requires
            divisor_magnitude >= 1,
            magnitude == dividend_magnitude / divisor_magnitude,
    ;
    assert(divisor_magnitude >= 2 ==> 2 * magnitude <= dividend_magnitude) by (nonlinear_arith)
        requires
            divisor_magnitude >= 1,
            magnitude == dividend_magnitude / divisor_magnitude,
    ;
    assert(dividend_magnitude == abs(buffer_size as int));
    assert(divisor_magnitude == abs(block_size * channels));
    if (dividend >= 0) == (frames > 0) {
        magnitude as i32
    } else {
        -(magnitude as i64) as i32
    }
}

} // verus!
