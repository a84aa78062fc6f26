//! Named arrays of the loaded patch.
//!
//! libpd answers the size of an array, or a negative status when no array of that name
//! exists; reads and writes answer `0` on success. Before a read or a write reaches libpd the
//! library checks the range against the array's size and against the length of the buffer
//! on the application's side, so that libpd never touches memory outside that buffer.

use crate::error::{ArrayError, SizeError};
use crate::helpers::{c_string_error_of, check_c_string, is_c_compatible};
use vstd::prelude::*;

verus! {

/// What asking for the size of the array `name` answers.
pub open spec fn array_size_outcome<S: Fn(&str) -> i32>(
    name: &str,
    size: S,
    r: Result<i32, SizeError>,
) -> bool {
    if !is_c_compatible(name@) {
        r matches Err(SizeError::StringConversion(e)) && c_string_error_of(name@, e)
    } else {
        exists|answer: i32|
            call_ensures(size, (name,), answer) && r == (if answer >= 0 {
                Ok(answer)
            } else {
                Err(SizeError::CouldNotDetermine)
            })
    }
}

/// A range of `amount` elements from `offset` fits an array of `array_size` elements and a
/// buffer of `buffer_len` elements.
pub open spec fn range_fits(offset: int, amount: int, array_size: int, buffer_len: int) -> bool {
    &&& offset + amount <= array_size
    &&& amount >= 0
    &&& amount <= buffer_len
}

/// A transfer of `amount` elements from `offset` on may reach libpd: the name is a C string,
/// and `size` answered a size of the array that the range fits, together with a buffer of
/// `buffer_len` elements.
pub open spec fn transfer_permitted<S: Fn(&str) -> i32>(
    name: &str,
    offset: i32,
    amount: i32,
    buffer_len: usize,
    size: S,
) -> bool {
    is_c_compatible(name@) && exists|answer: i32|
        #[trigger] call_ensures(size, (name,), answer) && answer >= 0 && range_fits(
            offset as int,
            amount as int,
            answer as int,
            buffer_len as int,
        )
}

/// What moving `amount` elements between the array `name` from `offset` on and a buffer of
/// `buffer_len` elements answers, with `size` giving the array's size and `transfer` moving
/// the elements.
pub open spec fn transfer_outcome<S: Fn(&str) -> i32, T: FnOnce(&str, i32, i32) -> i32>(
    name: &str,
    offset: i32,
    amount: i32,
    buffer_len: usize,
    size: S,
    transfer: T,
    r: Result<(), ArrayError>,
) -> bool {
    if !is_c_compatible(name@) {
        r matches Err(ArrayError::StringConversion(e)) && c_string_error_of(name@, e)
    } else {
        exists|answer: i32|
            #[trigger] call_ensures(size, (name,), answer) && if answer < 0 {
                r == Err::<(), ArrayError>(ArrayError::FailedToFindArray)
            } else if !range_fits(offset as int, amount as int, answer as int, buffer_len as int) {
                r == Err::<(), ArrayError>(ArrayError::OutOfBounds)
            } else {
                transferred_outcome(name, offset, amount, transfer, r)
            }
    }
}

/// What moving the elements answers once the range is known to fit: libpd's status decides.
pub open spec fn transferred_outcome<T: FnOnce(&str, i32, i32) -> i32>(
    name: &str,
    offset: i32,
    amount: i32,
    transfer: T,
    r: Result<(), ArrayError>,
) -> bool {
    exists|status: i32|
        call_ensures(transfer, (name, offset, amount), status) && r == (if status == 0 {
            Ok(())
        } else {
            Err(ArrayError::FailedToFindArray)
        })
}

/// Gets the size of the array named `name` in the loaded patch; `size` asks libpd.
pub fn array_size<S: Fn(&str) -> i32>(name: &str, size: &S) -> (r: Result<i32, SizeError>)
    requires
        is_c_compatible(name@) ==> call_requires(*size, (name,)),
    ensures
        array_size_outcome(name, *size, r),
{
    match check_c_string(name) {
        Err(e) => Err(SizeError::StringConversion(e)),
        Ok(()) => {
            let answer = size(name);
            let r = if answer >= 0 {
                Ok(answer)
            } else {
                Err(SizeError::CouldNotDetermine)
            };
            assert(call_ensures(*size, (name,), answer));
            r
        },
    }
}

/// Resizes the array named `name` to `size` elements; `resize` makes libpd's call, which
/// clips sizes below `1` or above its limit to `1` and answers `0` on success.
pub fn resize_array<R: Fn(&str, i64) -> i32>(name: &str, size: i32, resize: &R) -> (r: Result<
    (),
    SizeError,
>)
    requires
        is_c_compatible(name@) ==> call_requires(*resize, (name, size as i64)),
    ensures
        !is_c_compatible(name@) ==> (r matches Err(SizeError::StringConversion(e))
            && c_string_error_of(name@, e)),
        is_c_compatible(name@) ==> exists|status: i32|
            #[trigger] call_ensures(*resize, (name, size as i64), status) && r == (if status == 0 {
                Ok(())
            } else {
                Err(SizeError::CouldNotDetermine)
            }),
{
    match check_c_string(name) {
        Err(e) => Err(SizeError::StringConversion(e)),
        Ok(()) => {
            let status = resize(name, size as i64);
            let r = if status == 0 {
                Ok(())
            } else {
                Err(SizeError::CouldNotDetermine)
            };
            assert(call_ensures(*resize, (name, size as i64), status));
            r
        },
    }
}

/// Moves `amount` elements between the array `name` and a buffer of `buffer_len` elements,
/// after checking that the range fits both.
fn checked_transfer<S: Fn(&str) -> i32, T: FnOnce(&str, i32, i32) -> i32>(
    name: &str,
    offset: i32,
    amount: i32,
    buffer_len: usize,
    size: &S,
    transfer: T,
) -> (r: Result<(), ArrayError>)
    requires
        i32::MIN <= offset + amount <= i32::MAX,
        is_c_compatible(name@) ==> call_requires(*size, (name,)),
        transfer_permitted(name, offset, amount, buffer_len, *size) ==> call_requires(
            transfer,
            (name, offset, amount),
        ),
    ensures
        transfer_outcome(name, offset, amount, buffer_len, *size, transfer, r),
{
    match check_c_string(name) {
        Err(e) => Err(ArrayError::StringConversion(e)),
        Ok(()) => {
            let end = offset + amount;
            let answer = size(name);
            let r = if answer < 0 {
                Err(ArrayError::FailedToFindArray)
            } else if end > answer || amount < 0 || amount as usize > buffer_len {
                Err(ArrayError::OutOfBounds)
            } else {
                assert(call_ensures(*size, (name,), answer));
                assert(transfer_permitted(name, offset, amount, buffer_len, *size));
                let status = transfer(name, offset, amount);
                let moved = if status == 0 {
                    Ok(())
                } else {
                    Err(ArrayError::FailedToFindArray)
                };
                assert(call_ensures(transfer, (name, offset, amount), status));
                assert(transferred_outcome(name, offset, amount, transfer, moved));
                moved
            };
            assert(call_ensures(*size, (name,), answer));
            r
        },
    }
}

/// Reads `source_read_amount` values of the array named `source_name`, from
/// `source_read_offset` on, into a buffer of `destination_len` elements.
///
/// `array_size` asks libpd for the array's size and `read` makes libpd's read into the buffer.
/// A range that does not fit the array or the buffer is refused with `OutOfBounds`.
pub fn read_array_from<S: Fn(&str) -> i32, R: FnOnce(&str, i32, i32) -> i32>(
    source_name: &str,
    source_read_offset: i32,
    source_read_amount: i32,
    destination_len: usize,
    array_size: &S,
    read: R,
) -> (r: Result<(), ArrayError>)
    requires
        i32::MIN <= source_read_offset + source_read_amount <= i32::MAX,
        is_c_compatible(source_name@) ==> call_requires(*array_size, (source_name,)),
        transfer_permitted(
            source_name,
            source_read_offset,
            source_read_amount,
            destination_len,
            *array_size,
        ) ==> call_requires(read, (source_name, source_read_offset, source_read_amount)),
    ensures
        transfer_outcome(
            source_name,
            source_read_offset,
            source_read_amount,
            destination_len,
            *array_size,
            read,
            r,
        ),
{
    checked_transfer(
        source_name,
        source_read_offset,
        source_read_amount,
        destination_len,
        array_size,
        read,
    )
}

/// Writes `source_read_amount` values of a buffer of `source_len` elements to the array named
/// `destination_name`, from `destination_write_offset` on.
///
/// `array_size` asks libpd for the array's size and `write` makes libpd's write from the
/// buffer. A range that does not fit the array or the buffer is refused with `OutOfBounds`.
pub fn write_array_to<S: Fn(&str) -> i32, W: FnOnce(&str, i32, i32) -> i32>(
    destination_name: &str,
    destination_write_offset: i32,
    source_len: usize,
    source_read_amount: i32,
    array_size: &S,
    write: W,
) -> (r: Result<(), ArrayError>)
    requires
        i32::MIN <= destination_write_offset + source_read_amount <= i32::MAX,
        is_c_compatible(destination_name@) ==> call_requires(*array_size, (destination_name,)),
        transfer_permitted(
            destination_name,
            destination_write_offset,
            source_read_amount,
            source_len,
            *array_size,
        ) ==> call_requires(write, (destination_name, destination_write_offset, source_read_amount)),
    ensures
        transfer_outcome(
            destination_name,
            destination_write_offset,
            source_read_amount,
            source_len,
            *array_size,
            write,
            r,
        ),
{
    checked_transfer(
        destination_name,
        destination_write_offset,
        source_read_amount,
        source_len,
        array_size,
        write,
    )
}

} // verus!
