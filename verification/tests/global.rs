use std::cell::{Cell, RefCell};

use libpd_rs::convenience::PdGlobal;
use libpd_rs::error::{
    AudioInitializationError, InitializationError, PatchLifeCycleError, PdError, SendError,
    SizeError,
};

const MANIFEST_DIR: &str = "/work/libpd-rs";
const SINE_ADDRESS: usize = 0x5100;

fn queued_init() -> i32 {
    0
}

fn init_audio(_inputs: i32, _outputs: i32, _sample_rate: i32) -> i32 {
    0
}

fn current_exe() -> Option<String> {
    Some("/work/libpd-rs/target/debug/deps/global-1234".to_string())
}

fn path_exists(path: &str) -> bool {
    path == "/work/libpd-rs/tests/patches/sine.pd" || path == "/work/libpd-rs/tests/patches"
}

fn open_file(name: &str, directory: &str) -> usize {
    if name == "sine.pd" && directory == "/work/libpd-rs/tests/patches" {
        SINE_ADDRESS
    } else {
        0
    }
}

fn close_file(_address: usize) {}

fn remove_temp(_path: &str) {}

fn start_message(_length: i32) -> i32 {
    0
}

fn add_float(_value: i32) {}

fn finish_message(receiver: &str, header: &str) -> i32 {
    if receiver == "pd" && header == "dsp" {
        0
    } else {
        -1
    }
}

fn dollar_zero_of(address: usize) -> i32 {
    if address == SINE_ADDRESS {
        1003
    } else {
        0
    }
}

fn configured_global() -> PdGlobal {
    PdGlobal::init_and_configure(0, 2, 44100, &queued_init, &init_audio).unwrap()
}

fn open_sine(pd: &mut PdGlobal) -> Result<(), PdError> {
    pd.open_patch(
        "tests/patches/sine.pd",
        MANIFEST_DIR,
        &current_exe,
        &path_exists,
        &open_file,
        &close_file,
        &remove_temp,
    )
}

#[test]
fn state() {
    let mut pd = PdGlobal::init_and_configure(0, 2, 44100, &queued_init, &init_audio).unwrap();
    open_sine(&mut pd).unwrap();
    assert!(!pd.audio_active());
    pd.activate_audio(true, &start_message, &add_float, &finish_message)
        .unwrap();
    assert!(pd.audio_active());
    pd.activate_audio(false, &start_message, &add_float, &finish_message)
        .unwrap();
    assert!(!pd.audio_active());

    assert_eq!(pd.sample_rate(), 44100);
    assert_eq!(pd.input_channels(), 0);
    assert_eq!(pd.output_channels(), 2);
}

#[test]
fn dollar_zero() {
    let mut pd = PdGlobal::init_and_configure(0, 2, 44100, &queued_init, &init_audio).unwrap();
    open_sine(&mut pd).unwrap();
    assert!(pd.dollar_zero(&dollar_zero_of).is_ok());
    assert_ne!(pd.dollar_zero(&dollar_zero_of).unwrap(), 0);
    pd.close_patch(&close_file, &remove_temp).unwrap();
    assert!(pd.dollar_zero(&dollar_zero_of).is_err());
}

#[test]
fn global_init_statuses() {
    let already = PdGlobal::init_and_configure(1, 2, 48000, &|| -1, &init_audio).unwrap();
    assert_eq!(already.sample_rate(), 48000);
    assert_eq!(already.input_channels(), 1);

    let ring = PdGlobal::init_and_configure(0, 2, 44100, &|| -2, &init_audio);
    assert_eq!(
        ring.err(),
        Some(PdError::InitializationError(
            InitializationError::RingBufferInitializationError
        ))
    );

    let failed = PdGlobal::init_and_configure(0, 2, 44100, &|| -3, &init_audio);
    assert_eq!(
        failed.err(),
        Some(PdError::InitializationError(
            InitializationError::InitializationFailed
        ))
    );

    let audio = PdGlobal::init_and_configure(0, 2, 44100, &queued_init, &|_, _, _| 1);
    assert_eq!(
        audio.err(),
        Some(PdError::AudioInitializationError(
            AudioInitializationError::InitializationFailed
        ))
    );
}

#[test]
fn global_audio_switch_sends_dsp_once() {
    let mut pd = configured_global();
    let sent: RefCell<Vec<i32>> = RefCell::new(Vec::new());
    let add = |value: i32| sent.borrow_mut().push(value);

    pd.activate_audio(true, &start_message, &add, &finish_message)
        .unwrap();
    pd.activate_audio(true, &start_message, &add, &finish_message)
        .unwrap();
    assert!(pd.audio_active());
    pd.activate_audio(false, &start_message, &add, &finish_message)
        .unwrap();
    pd.activate_audio(false, &start_message, &add, &finish_message)
        .unwrap();
    assert!(!pd.audio_active());
    assert_eq!(*sent.borrow(), vec![1, 0]);
}

#[test]
fn global_audio_switch_failures_keep_state() {
    let mut pd = configured_global();
    let too_large = pd.activate_audio(true, &|_| -1, &add_float, &finish_message);
    assert_eq!(too_large, Err(PdError::SizeError(SizeError::TooLarge)));
    assert!(!pd.audio_active());

    let missing = pd.activate_audio(true, &start_message, &add_float, &|_, _| -1);
    assert_eq!(
        missing,
        Err(PdError::SendError(SendError::MissingDestination(
            "pd".to_string()
        )))
    );
    assert!(!pd.audio_active());
}

#[test]
fn global_open_missing_patch() {
    let mut pd = configured_global();
    let r = pd.open_patch(
        "tests/patches/missing.pd",
        MANIFEST_DIR,
        &current_exe,
        &path_exists,
        &open_file,
        &close_file,
        &remove_temp,
    );
    assert_eq!(
        r,
        Err(PdError::PatchLifeCycleError(
            PatchLifeCycleError::PathDoesNotExist(
                "/work/libpd-rs/tests/patches/missing.pd".to_string()
            )
        ))
    );
    assert_eq!(
        pd.dollar_zero(&dollar_zero_of),
        Err(PdError::PatchLifeCycleError(
            PatchLifeCycleError::PatchIsNotOpen
        ))
    );
}

#[test]
fn global_close_without_patch_does_nothing() {
    let mut pd = configured_global();
    let closed: Cell<bool> = Cell::new(false);
    assert_eq!(pd.close_patch(&|_: usize| closed.set(true), &remove_temp), Ok(()));
    assert!(!closed.get());
}

#[test]
fn global_opening_again_closes_the_open_patch() {
    let mut pd = configured_global();
    let closed: Cell<usize> = Cell::new(0);
    let close = |address: usize| closed.set(address);
    open_sine(&mut pd).unwrap();
    pd.open_patch(
        "tests/patches/sine.pd",
        MANIFEST_DIR,
        &current_exe,
        &path_exists,
        &open_file,
        &close,
        &remove_temp,
    )
    .unwrap();
    assert_eq!(closed.get(), SINE_ADDRESS);
}

#[test]
fn global_eval_patch_writes_opens_and_removes_temp() {
    let mut pd = configured_global();
    let opened: RefCell<Vec<(String, String)>> = RefCell::new(Vec::new());
    let removed: RefCell<Vec<String>> = RefCell::new(Vec::new());
    let open = |name: &str, directory: &str| {
        opened
            .borrow_mut()
            .push((name.to_string(), directory.to_string()));
        0x7700
    };
    let remove = |path: &str| removed.borrow_mut().push(path.to_string());
    let exists = |path: &str| path == "/tmp/evaluated.pd";
    let make_temp = |_contents: &str| -> Result<String, String> { Ok("/tmp/evaluated.pd".to_string()) };

    pd.eval_patch(
        "#N canvas 0 0 100 100 10;",
        &make_temp,
        MANIFEST_DIR,
        &current_exe,
        &exists,
        &open,
        &close_file,
        &remove,
    )
    .unwrap();
    assert_eq!(
        *opened.borrow(),
        vec![("evaluated.pd".to_string(), "/tmp".to_string())]
    );
    assert_eq!(pd.dollar_zero(&|a: usize| if a == 0x7700 { 1010 } else { 0 }), Ok(1010));

    pd.close_patch(&close_file, &remove).unwrap();
    assert_eq!(*removed.borrow(), vec!["/tmp/evaluated.pd".to_string()]);
}

#[test]
fn global_eval_patch_temp_failure() {
    let mut pd = configured_global();
    let make_temp = |_contents: &str| -> Result<String, String> { Err("disk full".to_string()) };
    let r = pd.eval_patch(
        "#N canvas 0 0 100 100 10;",
        &make_temp,
        MANIFEST_DIR,
        &current_exe,
        &path_exists,
        &open_file,
        &close_file,
        &remove_temp,
    );
    assert!(r.is_err());
    assert!(pd.dollar_zero(&dollar_zero_of).is_err());
}
