use std::cell::{Cell, RefCell};

use libpd_rs::convenience::{calculate_ticks, dsp_off, dsp_on};
use libpd_rs::error::{
    GuiLifeCycleError, InitializationError, PdError, SendError, SizeError, StringConversionError,
    SubscriptionError,
};
use libpd_rs::functions::gui::{poll_gui, start_gui};
use libpd_rs::functions::receive::{
    source_to_listen_from_exists, start_listening_from, stop_listening_from,
};
use libpd_rs::functions::send::{
    add_symbol_to_started_message, deliver_to, deliver_typed_to, send_after_touch, send_bang_to,
    send_control_change, send_midi_byte, send_note_on, send_pitch_bend, send_poly_after_touch,
    send_program_change, send_symbol_to, send_sys_realtime, send_sysex,
};
use libpd_rs::helpers::check_c_string;
use libpd_rs::types::ReceiverHandle;

fn receivers(receiver: &str) -> i32 {
    if receiver == "from_rust" {
        0
    } else {
        -1
    }
}

/// libpd's range checks on MIDI values: channels from 0, 7-bit values.
fn seven_bit(channel: i32, a: i32, b: i32) -> i32 {
    if channel < 0 || !(0..128).contains(&a) || !(0..128).contains(&b) {
        -1
    } else {
        0
    }
}

#[test]
fn deliveries() {
    assert_eq!(deliver_to("from_rust", &receivers), Ok(()));
    assert_eq!(
        deliver_to("nowhere", &receivers),
        Err(SendError::MissingDestination("nowhere".to_string()))
    );
    assert_eq!(send_bang_to("from_rust", &receivers), Ok(()));
    assert_eq!(
        send_symbol_to("nowhere", "daisy", &|r: &str, _: &str| receivers(r)),
        Err(SendError::MissingDestination("nowhere".to_string()))
    );
    assert_eq!(
        deliver_typed_to("from_rust", "set", &|r: &str, _: &str| receivers(r)),
        Ok(())
    );
}

#[test]
fn deliveries_refuse_names_with_nul() {
    let called: Cell<bool> = Cell::new(false);
    let deliver = |_: &str| {
        called.set(true);
        0
    };
    assert_eq!(
        deliver_to("fr\0m", &deliver),
        Err(SendError::StringConversion(
            StringConversionError::NullTerminatedString(2, b"fr\0m".to_vec())
        ))
    );
    assert!(!called.get());
    assert_eq!(
        send_symbol_to("from_rust", "\0", &|_: &str, _: &str| 0),
        Err(SendError::StringConversion(
            StringConversionError::NullTerminatedString(0, vec![0])
        ))
    );
}

#[test]
fn composed_symbol_reaches_libpd() {
    let added: RefCell<Vec<String>> = RefCell::new(Vec::new());
    add_symbol_to_started_message("daisy", &|s: &str| added.borrow_mut().push(s.to_string()));
    assert_eq!(*added.borrow(), vec!["daisy".to_string()]);
}

#[test]
fn midi_range_errors() {
    assert_eq!(send_note_on(0, 60, 100, &seven_bit), Ok(()));
    assert_eq!(send_note_on(0, 128, 100, &seven_bit), Err(SendError::OutOfRange));
    assert_eq!(send_control_change(-1, 1, 1, &seven_bit), Err(SendError::OutOfRange));
    assert_eq!(
        send_poly_after_touch(1, 60, 127, &seven_bit),
        Ok(())
    );
    let two = |channel: i32, value: i32| seven_bit(channel, value, 0);
    assert_eq!(send_program_change(1, 42, &two), Ok(()));
    assert_eq!(send_program_change(1, 200, &two), Err(SendError::OutOfRange));
    assert_eq!(send_after_touch(1, 300, &two), Err(SendError::OutOfRange));
    assert_eq!(send_pitch_bend(1, -8192, &|_, v| if (-8192..8192).contains(&v) { 0 } else { -1 }), Ok(()));
    assert_eq!(send_pitch_bend(1, 8192, &|_, v| if (-8192..8192).contains(&v) { 0 } else { -1 }), Err(SendError::OutOfRange));
    let byte = |port: i32, b: i32| if (0..0x0fff).contains(&port) && (0..256).contains(&b) { 0 } else { -1 };
    assert_eq!(send_midi_byte(0, 0xF8, &byte), Ok(()));
    assert_eq!(send_midi_byte(0, 256, &byte), Err(SendError::OutOfRange));
    assert_eq!(send_sysex(-1, 0xF0, &byte), Err(SendError::OutOfRange));
    assert_eq!(send_sys_realtime(0, 0xFA, &byte), Ok(()));
}

/// A stand-in for the receivers of libpd: binding creates an endpoint for any name, and a
/// sender exists once it was bound.
struct Endpoints {
    bound: RefCell<Vec<String>>,
}

impl Endpoints {
    fn bind(&self, sender: &str) -> usize {
        let mut bound = self.bound.borrow_mut();
        bound.push(sender.to_string());
        0x3000 + bound.len()
    }

    fn has(&self, sender: &str) -> i32 {
        i32::from(self.bound.borrow().iter().any(|s| s == sender))
    }
}

#[test]
fn listening() {
    let endpoints = Endpoints {
        bound: RefCell::new(Vec::new()),
    };
    let bind = |s: &str| endpoints.bind(s);
    let exists_here = |s: &str| endpoints.has(s);
    let unbind = |_: usize| {};

    let result = start_listening_from("list_from_pd", &bind);
    assert!(result.is_ok());
    // Just creates the endpoint.
    let result = start_listening_from("non_existent", &bind);
    assert!(result.is_ok());

    let handle_1 = start_listening_from("list_from_pd", &bind).unwrap();
    let handle_2 = start_listening_from("list_from_pd", &bind).unwrap();

    stop_listening_from(handle_1, &unbind);
    stop_listening_from(handle_2, &unbind);
    // It will just ignore the null pointer.
    let handle = ReceiverHandle::from(0);
    stop_listening_from(handle, &unbind);

    assert!(source_to_listen_from_exists("list_from_pd", &exists_here));
    assert!(!source_to_listen_from_exists("endpoint_not_created", &exists_here));
}

#[test]
fn listening_outcomes() {
    let handle = start_listening_from("list_from_pd", &|_: &str| 0x3000).unwrap();
    assert_eq!(handle.into_inner(), 0x3000);
    assert_eq!(
        start_listening_from("endpoint_not_created", &|_: &str| 0),
        Err(SubscriptionError::FailedToSubscribeToSender(
            "endpoint_not_created".to_string()
        ))
    );
    assert!(matches!(
        start_listening_from("bad\0name", &|_: &str| 0x3000),
        Err(SubscriptionError::StringConversion(_))
    ));

    let unbound: Cell<usize> = Cell::new(0);
    stop_listening_from(ReceiverHandle::new(0), &|a: usize| unbound.set(a));
    assert_eq!(unbound.get(), 0);
    stop_listening_from(ReceiverHandle::from(0x3000), &|a: usize| unbound.set(a));
    assert_eq!(unbound.get(), 0x3000);
}

#[test]
fn gui_lifecycle() {
    let started: Cell<bool> = Cell::new(false);
    assert_eq!(
        start_gui("/nowhere", &|_: &str| false, &|_: &str| {
            started.set(true);
            0
        }),
        Err(GuiLifeCycleError::FailedToOpenGui)
    );
    assert!(!started.get());
    assert_eq!(start_gui("/usr/lib/pd", &|_: &str| true, &|_: &str| 0), Ok(()));
    assert_eq!(
        start_gui("/usr/lib/pd", &|_: &str| true, &|_: &str| -1),
        Err(GuiLifeCycleError::FailedToOpenGui)
    );
    assert!(matches!(
        start_gui("/usr/\0lib", &|_: &str| true, &|_: &str| 0),
        Err(GuiLifeCycleError::StringConversion(_))
    ));
    let pending: Cell<i32> = Cell::new(3);
    let poll = || {
        if pending.get() > 0 {
            pending.set(pending.get() - 1);
            1
        } else {
            0
        }
    };
    let mut rounds = 0;
    while poll_gui(&poll).is_some() {
        rounds += 1;
    }
    assert_eq!(rounds, 3);
}

#[test]
fn dsp_switch_messages() {
    let started: Cell<i32> = Cell::new(0);
    let added: Cell<i32> = Cell::new(-1);
    let sent: RefCell<Vec<(String, String)>> = RefCell::new(Vec::new());
    let start = |length: i32| {
        started.set(length);
        0
    };
    let add = |value: i32| added.set(value);
    let finish = |receiver: &str, header: &str| {
        sent.borrow_mut()
            .push((receiver.to_string(), header.to_string()));
        0
    };
    dsp_on(&start, &add, &finish).unwrap();
    assert_eq!(started.get(), 1);
    assert_eq!(added.get(), 1);
    dsp_off(&start, &add, &finish).unwrap();
    assert_eq!(added.get(), 0);
    assert_eq!(
        *sent.borrow(),
        vec![
            ("pd".to_string(), "dsp".to_string()),
            ("pd".to_string(), "dsp".to_string())
        ]
    );
    added.set(-1);
    assert_eq!(
        dsp_on(&|_| -1, &add, &finish),
        Err(PdError::SizeError(SizeError::TooLarge))
    );
    assert_eq!(added.get(), -1);
    assert_eq!(sent.borrow().len(), 2);
}

#[test]
fn ticks() {
    assert_eq!(calculate_ticks(2, 1024, 64), 8);
    assert_eq!(calculate_ticks(1, 64, 64), 1);
    assert_eq!(calculate_ticks(2, 100, 64), 0);
    assert_eq!(calculate_ticks(-2, 1024, 64), -8);
    assert_eq!(calculate_ticks(2, -1000, 64), -7);
}

#[test]
fn c_strings() {
    assert_eq!(check_c_string("hello"), Ok(()));
    assert_eq!(check_c_string(""), Ok(()));
    assert_eq!(
        check_c_string("null\0byte"),
        Err(StringConversionError::NullTerminatedString(
            4,
            b"null\0byte".to_vec()
        ))
    );
    assert_eq!(
        check_c_string("é\0"),
        Err(StringConversionError::NullTerminatedString(2, "é\0".as_bytes().to_vec()))
    );
}

#[test]
fn error_conversions_and_messages() {
    let e = StringConversionError::NullTerminatedString(1, vec![b'a', 0]);
    assert_eq!(
        PdError::from(e.clone()),
        PdError::StringConversionError(e.clone())
    );
    assert_eq!(
        PdError::from(SendError::OutOfRange),
        PdError::SendError(SendError::OutOfRange)
    );
    assert_eq!(
        SendError::from(e.clone()),
        SendError::StringConversion(e)
    );
    assert_eq!(
        InitializationError::RingBufferInitializationError.message(),
        "Failed to initialize ring buffers which are needed for the message queue."
    );
    assert_eq!(
        InitializationError::InitializationFailed.message(),
        "An unknown error occurred in Pure Data initialization."
    );
}
