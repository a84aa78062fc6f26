use std::cell::{Cell, RefCell};

use libpd_rs::error::{
    AudioInitializationError, InitializationError, IoError, PatchLifeCycleError, SendError,
    SizeError, StringConversionError,
};
use libpd_rs::functions::send::{
    finish_message_as_list_and_send_to, finish_message_as_typed_message_and_send_to,
    start_message,
};
use libpd_rs::functions::util::dsp_on;
use libpd_rs::functions::{
    add_to_search_paths, close_patch, get_dollar_zero, init, initialize_audio, open_patch,
    verbose_print_state, verbose_print_state_active,
};
use libpd_rs::types::PatchFileHandle;

const MANIFEST_DIR: &str = "/work/libpd-rs";

fn current_exe() -> Option<String> {
    Some("/work/libpd-rs/target/debug/deps/functions-1234".to_string())
}

fn no_exe() -> Option<String> {
    None
}

fn path_exists(path: &str) -> bool {
    path == "/work/libpd-rs/tests/patches/echo.pd"
        || path == "/work/libpd-rs/tests/patches/sine.pd"
        || path == "/abs/patches/simple.pd"
}

fn open_file(name: &str, directory: &str) -> usize {
    if path_exists(&format!("{}/{}", directory, name)) {
        0x6000 + name.len()
    } else {
        0
    }
}

fn receivers(receiver: &str) -> i32 {
    if receiver == "pd" || receiver == "from_rust" {
        0
    } else {
        -1
    }
}

#[test]
fn message_building() {
    let sample_rate = 44100;
    let output_channels = 2;

    let _ = init(&|| 0).unwrap();
    let _ = initialize_audio(0, output_channels, sample_rate, &|_, _, _| 0).unwrap();
    dsp_on(&|_| 0, &|_| {}, &|r: &str, _: &str| receivers(r)).unwrap();

    let patch_handle = open_patch(
        "tests/patches/echo.pd",
        MANIFEST_DIR,
        &current_exe,
        &path_exists,
        &open_file,
    )
    .unwrap();

    // Starting a message of `i32::MAX` elements may fail, as an allocation in libpd may.
    let fake_start = |length: i32| if length == i32::MAX { -1 } else { 0 };
    if start_message(i32::MAX, &fake_start).is_ok() {
        let result = finish_message_as_list_and_send_to("no_land", &receivers);
        assert!(result.is_err());
        let result = finish_message_as_typed_message_and_send_to("no_land", "no_where", &|r: &str, _: &str| {
            receivers(r)
        });
        assert!(result.is_err());
    } else {
        start_message(1, &fake_start).unwrap();

        let result = finish_message_as_list_and_send_to("no_land", &receivers);
        assert!(result.is_err());
        let result = finish_message_as_typed_message_and_send_to("no_land", "no_where", &|r: &str, _: &str| {
            receivers(r)
        });
        assert!(result.is_err());
    }

    close_patch(patch_handle, &|_| {}).unwrap();
}

#[test]
fn init_statuses() {
    assert_eq!(init(&|| 0), Ok(()));
    assert_eq!(init(&|| -1), Ok(()));
    assert_eq!(
        init(&|| -2),
        Err(InitializationError::RingBufferInitializationError)
    );
    assert_eq!(init(&|| 7), Err(InitializationError::InitializationFailed));
    assert_eq!(initialize_audio(1, 2, 48000, &|_, _, _| 0), Ok(()));
    assert_eq!(
        initialize_audio(1, 2, 48000, &|_, _, _| -1),
        Err(AudioInitializationError::InitializationFailed)
    );
}

#[test]
fn initialize_audio_hands_over_configuration() {
    let seen: Cell<(i32, i32, i32)> = Cell::new((0, 0, 0));
    let record = |inputs: i32, outputs: i32, rate: i32| {
        seen.set((inputs, outputs, rate));
        0
    };
    initialize_audio(1, 2, 44100, &record).unwrap();
    assert_eq!(seen.get(), (1, 2, 44100));
}

#[test]
fn open_patch_resolves_relative_path_in_manifest_dir() {
    let opened: RefCell<Vec<(String, String)>> = RefCell::new(Vec::new());
    let record = |name: &str, directory: &str| {
        opened
            .borrow_mut()
            .push((name.to_string(), directory.to_string()));
        0x6000
    };
    let handle = open_patch(
        "tests/patches/sine.pd",
        MANIFEST_DIR,
        &current_exe,
        &path_exists,
        &record,
    )
    .unwrap();
    assert_eq!(handle.address(), 0x6000);
    assert_eq!(
        *opened.borrow(),
        vec![(
            "sine.pd".to_string(),
            "/work/libpd-rs/tests/patches".to_string()
        )]
    );
}

#[test]
fn open_patch_prefers_directory_next_to_executable() {
    let exe = || Some("/opt/app/bin/player".to_string());
    let exists = |path: &str| path == "/opt/app/bin/patches" || path == "/opt/app/bin/patches/a.pd";
    let opened: RefCell<Vec<String>> = RefCell::new(Vec::new());
    let record = |_name: &str, directory: &str| {
        opened.borrow_mut().push(directory.to_string());
        0x10
    };
    open_patch("patches/a.pd", MANIFEST_DIR, &exe, &exists, &record).unwrap();
    assert_eq!(*opened.borrow(), vec!["/opt/app/bin/patches".to_string()]);
}

#[test]
fn open_patch_bare_name_falls_back_to_manifest_dir() {
    let exists = |path: &str| path == "/work/libpd-rs/simple.pd";
    let opened: RefCell<Vec<(String, String)>> = RefCell::new(Vec::new());
    let record = |name: &str, directory: &str| {
        opened
            .borrow_mut()
            .push((name.to_string(), directory.to_string()));
        0x20
    };
    open_patch("simple.pd", MANIFEST_DIR, &current_exe, &exists, &record).unwrap();
    assert_eq!(
        *opened.borrow(),
        vec![("simple.pd".to_string(), MANIFEST_DIR.to_string())]
    );
}

#[test]
fn open_patch_absolute_path() {
    let handle = open_patch(
        "/abs/patches/simple.pd",
        MANIFEST_DIR,
        &no_exe,
        &path_exists,
        &open_file,
    )
    .unwrap();
    assert_eq!(handle.into_inner(), 0x6000 + "simple.pd".len());

    let missing = open_patch("/bad_path", MANIFEST_DIR, &current_exe, &path_exists, &open_file);
    assert_eq!(
        missing,
        Err(PatchLifeCycleError::PathDoesNotExist("/bad_path".to_string()))
    );
}

#[test]
fn open_patch_failures() {
    assert_eq!(
        open_patch("", MANIFEST_DIR, &current_exe, &path_exists, &open_file),
        Err(PatchLifeCycleError::FailedToOpenPatch)
    );
    assert_eq!(
        open_patch(
            "tests/patches/sine.pd",
            MANIFEST_DIR,
            &no_exe,
            &path_exists,
            &open_file
        ),
        Err(PatchLifeCycleError::FailedToOpenPatch)
    );
    assert_eq!(
        open_patch(
            "tests/patches/no_eresultistent.pd",
            MANIFEST_DIR,
            &current_exe,
            &path_exists,
            &open_file
        ),
        Err(PatchLifeCycleError::PathDoesNotExist(
            "/work/libpd-rs/tests/patches/no_eresultistent.pd".to_string()
        ))
    );
    assert_eq!(
        open_patch(
            "tests/patches/sine.pd",
            MANIFEST_DIR,
            &current_exe,
            &path_exists,
            &|_: &str, _: &str| 0
        ),
        Err(PatchLifeCycleError::FailedToOpenPatch)
    );
    let with_nul = open_patch("/abs/pat\0ches/x.pd", MANIFEST_DIR, &current_exe, &|_: &str| true, &open_file);
    assert_eq!(
        with_nul,
        Err(PatchLifeCycleError::StringConversion(
            StringConversionError::NullTerminatedString(8, b"/abs/pat\0ches".to_vec())
        ))
    );
}

#[test]
fn close_patch_and_dollar_zero() {
    assert_eq!(
        close_patch(PatchFileHandle::new(0), &|_| {}),
        Err(PatchLifeCycleError::FailedToClosePatch)
    );
    let closed: Cell<usize> = Cell::new(0);
    close_patch(PatchFileHandle::from(0x77), &|a: usize| closed.set(a)).unwrap();
    assert_eq!(closed.get(), 0x77);

    let handle = PatchFileHandle::new(0x77);
    assert_eq!(get_dollar_zero(&handle, &|_| 1003), Ok(1003));
    assert_eq!(
        get_dollar_zero(&handle, &|_| 0),
        Err(PatchLifeCycleError::PatchIsNotOpen)
    );
}

#[test]
fn add_to_search_paths_outcomes() {
    let registered: RefCell<Vec<String>> = RefCell::new(Vec::new());
    let record = |path: &str| registered.borrow_mut().push(path.to_string());
    assert_eq!(
        add_to_search_paths("/nope", &|_: &str| false, &record),
        Err(IoError::PathDoesNotExist("/nope".to_string()))
    );
    assert!(registered.borrow().is_empty());
    add_to_search_paths("/yes", &|_: &str| true, &record).unwrap();
    assert_eq!(*registered.borrow(), vec!["/yes".to_string()]);
}

#[test]
fn verbose_printing_flag() {
    let flag: Cell<i32> = Cell::new(0);
    verbose_print_state(true, &|v: i32| flag.set(v));
    assert_eq!(flag.get(), 1);
    assert!(verbose_print_state_active(&|| flag.get()));
    verbose_print_state(false, &|v: i32| flag.set(v));
    assert_eq!(flag.get(), 0);
    assert!(!verbose_print_state_active(&|| flag.get()));
}

#[test]
fn send_errors_name_the_receiver() {
    assert_eq!(
        finish_message_as_list_and_send_to("no_land", &receivers),
        Err(SendError::MissingDestination("no_land".to_string()))
    );
    assert_eq!(finish_message_as_list_and_send_to("from_rust", &receivers), Ok(()));
    assert_eq!(start_message(3, &|_| -1), Err(SizeError::TooLarge));
}

#[test]
fn main_functions_in_a_row() {
    let initialized: Cell<bool> = Cell::new(false);
    let queued_init = || {
        if initialized.replace(true) {
            -1
        } else {
            0
        }
    };
    assert!(init(&queued_init).is_ok());
    assert!(init(&queued_init).is_ok());

    assert!(initialize_audio(0, 2, 44100, &|_, _, _| 0).is_ok());
    assert!(initialize_audio(0, 1, 44100, &|_, _, _| 0).is_ok());

    let exists = |path: &str| {
        path == "/work/libpd-rs/tests/patches/simple.pd" || path == "/work/libpd-rs/tests/patches"
    };
    let open = |name: &str, _: &str| if name == "simple.pd" { 0x4400 } else { 0 };
    let open_at = |path: &str| open_patch(path, MANIFEST_DIR, &current_exe, &exists, &open);

    assert!(open_at("tests/patches/no_eresultistent.pd").is_err());
    assert!(open_at("/bad_path").is_err());
    let result = open_at("tests/patches/simple.pd");
    assert!(result.is_ok());
    assert!(close_patch(result.unwrap(), &|_| {}).is_ok());
    assert!(close_patch(PatchFileHandle::from(0), &|_| {}).is_err());

    let exists_relative = |path: &str| path == "tests/patches";
    assert!(add_to_search_paths("tests/patches", &exists_relative, &|_: &str| {}).is_ok());
    assert!(add_to_search_paths("/bad_path", &exists_relative, &|_: &str| {}).is_err());

    let patch_handle = open_at("tests/patches/simple.pd").unwrap();
    let dollar_zero = |address: usize| if address == 0x4400 { 1004 } else { 0 };
    let result = get_dollar_zero(&patch_handle, &dollar_zero);
    assert!(result.is_ok());
    assert_ne!(result.unwrap(), 0);
    assert!(get_dollar_zero(&PatchFileHandle::from(0), &dollar_zero).is_err());

    let flag: Cell<i32> = Cell::new(0);
    assert!(!verbose_print_state_active(&|| flag.get()));
    verbose_print_state(true, &|v: i32| flag.set(v));
    assert!(verbose_print_state_active(&|| flag.get()));
    verbose_print_state(false, &|v: i32| flag.set(v));
    assert!(!verbose_print_state_active(&|| flag.get()));
}

#[test]
fn open_patch_bare_name_next_to_executable() {
    let exe = || Some("/opt/app/bin/player".to_string());
    let exists = |path: &str| path == "/opt/app/bin/x.pd";
    let opened: RefCell<Vec<(String, String)>> = RefCell::new(Vec::new());
    let record = |name: &str, directory: &str| {
        opened
            .borrow_mut()
            .push((name.to_string(), directory.to_string()));
        0x30
    };
    let handle = open_patch("x.pd", MANIFEST_DIR, &exe, &exists, &record).unwrap();
    assert_eq!(handle.address(), 0x30);
    assert_eq!(
        *opened.borrow(),
        vec![("x.pd".to_string(), "/opt/app/bin".to_string())]
    );
}

#[test]
fn nothing_reaches_libpd_on_refused_input() {
    let called: Cell<bool> = Cell::new(false);
    let open = |_: &str, _: &str| {
        called.set(true);
        0x1
    };
    assert!(open_patch("/", MANIFEST_DIR, &current_exe, &|_: &str| true, &open).is_err());
    assert!(!called.get());
    assert!(close_patch(PatchFileHandle::new(0), &|_| called.set(true)).is_err());
    assert!(!called.get());
}
