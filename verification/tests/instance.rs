use std::cell::{Cell, RefCell};

use libpd_rs::error::{InstanceError, IoError, PdError, SubscriptionError};
use libpd_rs::instance::PdInstance;
use libpd_rs::Pd;

const MANIFEST_DIR: &str = "/work/libpd-rs";
const MAIN_ADDRESS: usize = 0x1000;
const SECOND_ADDRESS: usize = 0x2000;

fn queued_init(world: ()) -> ((), i32) {
    (world, 0)
}

fn init_audio(_inputs: i32, _outputs: i32, _sample_rate: i32) -> i32 {
    0
}

fn main_instance(world: ()) -> ((), usize) {
    (world, MAIN_ADDRESS)
}

fn this_instance(world: ()) -> ((), usize) {
    (world, MAIN_ADDRESS)
}

fn new_instance(world: ()) -> ((), usize) {
    (world, SECOND_ADDRESS)
}

fn instance_number(world: (), address: usize) -> ((), i32) {
    if address == MAIN_ADDRESS {
        (world, 0)
    } else {
        (world, 1)
    }
}

fn set_instance(world: (), _address: usize) {
    world
}

fn main_pd_instance() -> PdInstance {
    PdInstance::new(
        0,
        (),
        &queued_init,
        &main_instance,
        &this_instance,
        &new_instance,
        &instance_number,
        &set_instance,
    )
    .0
    .unwrap()
}

fn configured_pd() -> Pd {
    Pd::init_and_configure(Ok(main_pd_instance()), 0, 2, 44100, &init_audio).unwrap()
}

fn current_exe() -> Option<String> {
    Some("/work/libpd-rs/target/debug/deps/instance-1234".to_string())
}

fn path_exists(path: &str) -> bool {
    path == "/work/libpd-rs/tests/patches/sine.pd"
        || path == "/work/libpd-rs/tests/patches"
        || path == "/work/libpd-rs"
        || path == "/work/libpd-rs/tests"
}

fn open_file(name: &str, directory: &str) -> usize {
    if name == "sine.pd" && directory == "/work/libpd-rs/tests/patches" {
        0x5100
    } else {
        0
    }
}

fn close_file(_address: usize) {}

fn remove_temp(_path: &str) {}

fn register(_path: &str) {}

fn bind(source: &str) -> usize {
    0x9000 + source.len()
}

fn unbind(_address: usize) {}

#[test]
fn subscribe_unsubscribe() {
    let mut pd = Pd::init_and_configure(Ok(main_pd_instance()), 0, 2, 44100, &init_audio).unwrap();
    assert!(pd
        .open_patch(
            "tests/patches/sine.pd",
            MANIFEST_DIR,
            &current_exe,
            &path_exists,
            &open_file,
            &close_file,
            &remove_temp,
        )
        .is_ok());
    assert!(pd.subscribe_to("a_source", &bind).is_ok());
    assert!(pd.subscriptions.contains_key("a_source"));
    assert!(pd.subscribe_to_many(&["other", "another"], &bind).is_ok());
    assert!(pd.subscriptions.contains_key("a_source"));
    assert!(pd.subscriptions.contains_key("other"));
    assert!(pd.subscriptions.contains_key("another"));
    pd.unsubscribe_from("a_source", &unbind);
    pd.unsubscribe_from("a_source", &unbind);
    assert!(!pd.subscriptions.contains_key("a_source"));
    pd.unsubscribe_from_all(&unbind);
    assert!(!pd.subscriptions.contains_key("a_source"));
    assert!(!pd.subscriptions.contains_key("other"));
    assert!(!pd.subscriptions.contains_key("another"));
}

#[test]
fn search_paths() {
    let mut pd = Pd::init_and_configure(Ok(main_pd_instance()), 0, 2, 44100, &init_audio).unwrap();

    assert!(pd
        .add_path_to_search_paths("does not exist", &path_exists, &register)
        .is_err());
    assert!(pd
        .add_path_to_search_paths(MANIFEST_DIR, &path_exists, &register)
        .is_ok());
    assert!(pd
        .add_path_to_search_paths(MANIFEST_DIR, &path_exists, &register)
        .is_ok());
    assert_eq!(
        pd.search_paths
            .iter()
            .filter(|p| p.as_str() == MANIFEST_DIR)
            .count(),
        1
    );
    assert_eq!(pd.search_paths[0], MANIFEST_DIR.to_string());

    let base = MANIFEST_DIR.to_string();
    let other = format!("{}/tests", MANIFEST_DIR);
    pd.add_paths_to_search_paths(&[base.as_str(), other.as_str()], &path_exists, &register)
        .unwrap();

    assert_eq!(pd.search_paths[0], base);
    assert_eq!(pd.search_paths[1], other);

    assert!(pd
        .add_paths_to_search_paths(&["does not exist"], &path_exists, &register)
        .is_err());

    pd.clear_all_search_paths(&|| {});

    assert_eq!(pd.search_paths.len(), 0);
}

#[test]
fn search_path_errors_and_registration() {
    let mut pd = configured_pd();
    let registered: RefCell<Vec<String>> = RefCell::new(Vec::new());
    let record = |path: &str| registered.borrow_mut().push(path.to_string());

    assert_eq!(
        pd.add_path_to_search_paths("does not exist", &path_exists, &record),
        Err(PdError::IoError(IoError::PathDoesNotExist(
            "does not exist".to_string()
        )))
    );
    let with_nul = "/work/libpd-rs\0tests";
    let converted = pd.add_path_to_search_paths(with_nul, &|_: &str| true, &record);
    assert!(matches!(converted, Err(PdError::IoError(IoError::StringConversion(_)))));
    pd.add_path_to_search_paths(MANIFEST_DIR, &path_exists, &record)
        .unwrap();
    pd.add_path_to_search_paths(MANIFEST_DIR, &path_exists, &record)
        .unwrap();
    assert_eq!(*registered.borrow(), vec![MANIFEST_DIR.to_string()]);

    let tests_dir = "/work/libpd-rs/tests";
    let stopped = pd.add_paths_to_search_paths(
        &[tests_dir, "/nowhere", "/work/libpd-rs/tests/patches"],
        &path_exists,
        &record,
    );
    assert_eq!(
        stopped,
        Err(PdError::IoError(IoError::PathDoesNotExist("/nowhere".to_string())))
    );
    assert_eq!(
        pd.search_paths,
        vec![MANIFEST_DIR.to_string(), tests_dir.to_string()]
    );
}

#[test]
fn subscription_failures_and_unbinding() {
    let mut pd = configured_pd();
    let refused = pd.subscribe_to("nothing", &|_: &str| 0);
    assert_eq!(
        refused,
        Err(PdError::SubscriptionError(
            SubscriptionError::FailedToSubscribeToSender("nothing".to_string())
        ))
    );
    assert!(!pd.subscriptions.contains_key("nothing"));

    let calls: Cell<usize> = Cell::new(0);
    let counting_bind = |source: &str| {
        calls.set(calls.get() + 1);
        bind(source)
    };
    pd.subscribe_to("twice", &counting_bind).unwrap();
    pd.subscribe_to("twice", &counting_bind).unwrap();
    assert_eq!(calls.get(), 1);
    assert_eq!(pd.subscriptions.len(), 1);

    let many = pd.subscribe_to_many(&["first", "bad\0name", "last"], &bind);
    assert!(matches!(
        many,
        Err(PdError::SubscriptionError(SubscriptionError::StringConversion(_)))
    ));
    assert!(pd.subscriptions.contains_key("first"));
    assert!(!pd.subscriptions.contains_key("last"));

    let unbound: RefCell<Vec<usize>> = RefCell::new(Vec::new());
    let record = |address: usize| unbound.borrow_mut().push(address);
    pd.unsubscribe_from_many(&["twice", "unknown"], &record);
    assert_eq!(*unbound.borrow(), vec![bind("twice")]);
    pd.unsubscribe_from_all(&record);
    assert_eq!(*unbound.borrow(), vec![bind("twice"), bind("first")]);
    assert!(pd.subscriptions.is_empty());
}

#[test]
fn instance_creation() {
    let main = main_pd_instance();
    assert_eq!(main.as_ptr(), MAIN_ADDRESS);
    assert_eq!(main.number(), 0);
    assert!(main.is_main_instance(0));
    assert!(main.is_current_instance(Some(0)));
    assert!(!main.is_current_instance(None));

    let made_current: RefCell<Vec<usize>> = RefCell::new(Vec::new());
    let record = |world: (), address: usize| made_current.borrow_mut().push(address);
    let second = PdInstance::new(
        1,
        (),
        &queued_init,
        &main_instance,
        &this_instance,
        &new_instance,
        &instance_number,
        &record,
    )
    .0
    .unwrap();
    assert_eq!(second.as_ptr(), SECOND_ADDRESS);
    assert_eq!(second.number(), 1);
    assert!(!second.is_main_instance(0));
    assert_eq!(*made_current.borrow(), vec![SECOND_ADDRESS, MAIN_ADDRESS]);
    assert!(main != second);
    assert!(main == main_pd_instance());
}

#[test]
fn instance_creation_failures() {
    let (null, ()) = PdInstance::new(
        1,
        (),
        &queued_init,
        &main_instance,
        &this_instance,
        &|world: ()| (world, 0),
        &instance_number,
        &set_instance,
    );
    assert_eq!(
        null,
        Err(InstanceError::InstanceFailedToCreate(
            "Returned instance pointer is null.".to_string()
        ))
    );

    let (ring, ()) = PdInstance::new(
        0,
        (),
        &|world: ()| (world, -2),
        &main_instance,
        &this_instance,
        &new_instance,
        &instance_number,
        &set_instance,
    );
    assert_eq!(
        ring,
        Err(InstanceError::InstanceFailedToCreate(
            "Failed to initialize ring buffers which are needed for the message queue."
                .to_string()
        ))
    );

    let pd = Pd::init_and_configure(
        Err(InstanceError::NoCurrentInstanceSet),
        0,
        2,
        44100,
        &init_audio,
    );
    assert!(matches!(
        pd,
        Err(PdError::InstanceError(InstanceError::NoCurrentInstanceSet))
    ));
}

#[test]
fn pd_instance_queries_and_guard() {
    let pd = configured_pd();
    assert_eq!(pd.instance_number(), 0);
    assert!(pd.is_main_instance(0));
    assert!(pd.is_current_instance(Some(0)));
    assert!(!pd.is_current_instance(Some(1)));
    assert_eq!(pd.inner().as_ptr(), MAIN_ADDRESS);

    let made_current: RefCell<Vec<usize>> = RefCell::new(Vec::new());
    let record = |address: usize| made_current.borrow_mut().push(address);

    let guard = pd.set_as_active_instance(Some(0), &|| 0x4242, &record);
    assert_eq!(guard.previous_instance(), 0);
    assert!(made_current.borrow().is_empty());

    let guard = pd.set_as_active_instance(Some(3), &|| 0x4242, &record);
    assert_eq!(guard.previous_instance(), 0x4242);
    guard.restore(&record);
    assert_eq!(*made_current.borrow(), vec![MAIN_ADDRESS, 0x4242]);
}

#[test]
fn audio_context_makes_instance_current_before_receiving() {
    let mut pd = configured_pd();
    let calls: RefCell<Vec<String>> = RefCell::new(Vec::new());
    let set = |address: usize| calls.borrow_mut().push(format!("set {:#x}", address));
    let receive = || calls.borrow_mut().push("receive".to_string());

    let mut context = pd.audio_context();
    assert_eq!(context.instance().as_ptr(), MAIN_ADDRESS);
    context.receive_messages_from_pd(&set, &receive);
    context.receive_midi_messages_from_pd(&set, &receive);
    assert_eq!(
        *calls.borrow(),
        vec!["set 0x1000", "receive", "set 0x1000", "receive"]
    );

    calls.borrow_mut().clear();
    pd.set_as_current(&set);
    assert_eq!(*calls.borrow(), vec!["set 0x1000"]);
    assert_eq!(pd.inner_mut().number(), 0);
}

#[test]
fn instance_creation_switches_in_order() {
    let calls: RefCell<Vec<String>> = RefCell::new(Vec::new());
    let init = |world: ()| {
        calls.borrow_mut().push("init".to_string());
        (world, 0)
    };
    let set = |world: (), address: usize| {
        calls.borrow_mut().push(format!("set {:#x}", address));
        world
    };
    let (second, ()) = PdInstance::new(
        1,
        (),
        &init,
        &main_instance,
        &this_instance,
        &new_instance,
        &instance_number,
        &set,
    );
    assert!(second.is_ok());
    assert_eq!(*calls.borrow(), vec!["set 0x2000", "init", "set 0x1000"]);
}

#[test]
fn search_paths_compare_as_paths() {
    let mut pd = configured_pd();
    let registered: Cell<usize> = Cell::new(0);
    let record = |_: &str| registered.set(registered.get() + 1);
    pd.add_path_to_search_paths("/work/libpd-rs/tests", &path_exists, &record)
        .unwrap();
    pd.add_path_to_search_paths("/work/libpd-rs/tests/", &|_: &str| true, &record)
        .unwrap();
    pd.add_path_to_search_paths("/work//libpd-rs/tests", &|_: &str| true, &record)
        .unwrap();
    assert_eq!(registered.get(), 1);
    assert_eq!(pd.search_paths().len(), 1);
    assert_eq!(pd.subscriptions().len(), 0);
}
