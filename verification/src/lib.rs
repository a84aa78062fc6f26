//! Safe abstractions over libpd, the embeddable Pure Data.
//!
//! The library keeps the decisions, the state tracking and the result interpretation of the
//! libpd bindings: every call into libpd itself, and every look at the file system, is handed
//! to these functions as a closure, so that what the library decides around a call is verified
//! for every answer the call may give.
//!
//! [`Pd`] tracks one pd instance: its audio configuration, its open patch, its subscriptions
//! and its search paths. The modules under [`functions`] hold the single operations.

pub mod convenience;
pub mod error;
pub mod functions;
pub mod helpers;
pub mod instance;
pub mod laws;
pub mod path;
pub mod session;
pub mod types;

use crate::error::{
    io_result, patch_result, subscription_result, InstanceError, IoError, PatchLifeCycleError,
    PdError, SubscriptionError,
};
use crate::functions::util::{
    dsp_off, dsp_on, dsp_switch_outcome, is_dsp_message, start_succeeded,
};
use crate::functions::{
    dollar_zero_outcome, found_and_compatible, initialize_audio, open_permitted,
};
use crate::helpers::is_c_compatible;
use crate::instance::PdInstance;
use crate::session::{
    add_search_path, add_search_paths, closing, eval_open_permitted, evaluating, opening,
    path_views, paths_contain, search_path_step,
    search_paths_through, subscribe_step, subscribed_through, PatchState, PatchView,
    Subscriptions,
};
use vstd::prelude::*;

verus! {

/// What a [`Pd`] knows of itself besides its subscriptions and search paths.
pub struct PdView {
    /// The address and number of the instance.
    pub instance: (usize, i32),
    pub audio_active: bool,
    pub input_channels: i32,
    pub output_channels: i32,
    pub sample_rate: i32,
    pub patch: PatchView,
    /// The subscribed sender names, each with the address of its receiver.
    pub subscriptions: Map<Seq<char>, usize>,
    /// The search paths, in the order they were added.
    pub search_paths: Seq<Seq<char>>,
}

/// A pd instance with the state that the library keeps of it.
///
/// The state is kept by the methods of this type: what is done to the instance in other ways
/// (with the functions of [`functions`] directly) is not seen here.
pub struct Pd {
    inner: PdInstance,
    audio_active: bool,
    input_channels: i32,
    output_channels: i32,
    sample_rate: i32,
    patch: PatchState,
    /// The subscriptions which were made to senders in pd through this instance.
    pub subscriptions: Subscriptions,
    /// The paths which were added to the search paths of this instance, in order.
    pub search_paths: Vec<String>,
}

impl View for Pd {
    type V = PdView;

    closed spec fn view(&self) -> PdView {
        PdView {
            instance: self.inner@,
            audio_active: self.audio_active,
            input_channels: self.input_channels,
            output_channels: self.output_channels,
            sample_rate: self.sample_rate,
            patch: self.patch@,
            subscriptions: self.subscriptions@,
            search_paths: path_views(self.search_paths@),
        }
    }
}

/// What switching audio to `on` does to a state in which audio is `active`: nothing when it
/// is switched already, and otherwise the message `dsp 1` or `dsp 0` is sent, and audio is
/// switched when it was.
pub open spec fn audio_switch<S: Fn(i32) -> i32, A: Fn(i32), F: Fn(&str, &str) -> i32>(
    active: bool,
    on: bool,
    start_message: S,
    add_float: A,
    finish_message: F,
    now_active: bool,
    r: Result<(), PdError>,
) -> bool {
    if active == on {
        now_active == active && r is Ok
    } else {
        dsp_switch_outcome(
            if on {
                1
            } else {
                0
            },
            start_message,
            add_float,
            finish_message,
            r,
        ) && now_active == (if r is Ok {
            on
        } else {
            active
        })
    }
}

/// What the audio thread holds of an instance: before each of its operations the instance is
/// made current.
pub struct PdAudioContext {
    instance: PdInstance,
}

impl View for PdAudioContext {
    type V = (usize, i32);

    /// The address and number of the instance.
    closed spec fn view(&self) -> (usize, i32) {
        self.instance@
    }
}

impl PdAudioContext {
    /// Makes the instance current and handles the messages which pd queued for the
    /// application: `set_instance` makes the instance current and `receive` makes libpd's call
    /// that hands the queued messages to the registered hooks.
    pub fn receive_messages_from_pd<S: Fn(usize), R: Fn()>(&mut self, set_instance: &S, receive: &R)
        requires
            call_requires(*set_instance, (old(self)@.0,)),
            call_requires(*receive, ()),
        ensures
            final(self)@ == old(self)@,
            call_ensures(*set_instance, (old(self)@.0,), ()),
            call_ensures(*receive, (), ()),
    {
        self.instance.set_as_current(set_instance);
        receive();
    }

    /// Makes the instance current and handles the MIDI messages which pd queued for the
    /// application, as [`receive_messages_from_pd`](PdAudioContext::receive_messages_from_pd)
    /// does for the other messages.
    pub fn receive_midi_messages_from_pd<S: Fn(usize), R: Fn()>(
        &mut self,
        set_instance: &S,
        receive: &R,
    )
        requires
            call_requires(*set_instance, (old(self)@.0,)),
            call_requires(*receive, ()),
        ensures
            final(self)@ == old(self)@,
            call_ensures(*set_instance, (old(self)@.0,), ()),
            call_ensures(*receive, (), ()),
    {
        self.instance.set_as_current(set_instance);
        receive();
    }

    /// The instance of this context.
    pub fn instance(&self) -> (r: PdInstance)
        ensures
            r@ == self@,
    {
        self.instance
    }
}

/// The previous current instance, which is made current again when an operation on another
/// instance ends.
pub struct ActiveInstanceGuard {
    previous_instance: usize,
}

impl View for ActiveInstanceGuard {
    type V = usize;

    /// The address of the instance to make current again; null when nothing is to be done.
    closed spec fn view(&self) -> usize {
        self.previous_instance
    }
}

impl ActiveInstanceGuard {
    /// The address of the instance to make current again; null when nothing is to be done.
    pub fn previous_instance(&self) -> (r: usize)
        ensures
            r == self@,
    {
        self.previous_instance
    }

    /// Makes the previous instance current again with `set_instance`, unless it is null.
    pub fn restore<S: Fn(usize)>(self, set_instance: &S)
        requires
            self@ != 0 ==> call_requires(*set_instance, (self@,)),
        ensures
            self@ != 0 ==> call_ensures(*set_instance, (self@,), ()),
    {
        if self.previous_instance != 0 {
            set_instance(self.previous_instance);
        }
    }
}

/// Turns a result of the search paths into one of the umbrella error type.
pub(crate) fn lift_io(r: Result<(), IoError>) -> (lifted: Result<(), PdError>)
    ensures
        lifted == io_result(r),
{
    match r {
        Ok(()) => Ok(()),
        Err(e) => Err(PdError::IoError(e)),
    }
}

/// Turns a result of the patch lifecycle into one of the umbrella error type.
pub(crate) fn lift_patch(r: Result<(), PatchLifeCycleError>) -> (lifted: Result<(), PdError>)
    ensures
        lifted == patch_result(r),
{
    match r {
        Ok(()) => Ok(()),
        Err(e) => Err(PdError::PatchLifeCycleError(e)),
    }
}

/// Turns a result of subscribing into one of the umbrella error type.
pub(crate) fn lift_subscription(r: Result<(), SubscriptionError>) -> (lifted: Result<(), PdError>)
    ensures
        lifted == subscription_result(r),
{
    match r {
        Ok(()) => Ok(()),
        Err(e) => Err(PdError::SubscriptionError(e)),
    }
}

impl Pd {
    /// Configures a newly created instance: initializes audio with the given channel counts
    /// and sample rate, and starts with audio off, no patch, no subscriptions and no search
    /// paths.
    ///
    /// `instance` is the outcome of creating the instance with
    /// [`PdInstance::new`](crate::instance::PdInstance::new), and `init_audio` makes libpd's
    /// call that initializes audio, as in [`initialize_audio`].
    pub fn init_and_configure<A: Fn(i32, i32, i32) -> i32>(
        instance: Result<PdInstance, InstanceError>,
        input_channels: i32,
        output_channels: i32,
        sample_rate: i32,
        init_audio: &A,
    ) -> (r: Result<Self, PdError>)
        requires
            call_requires(*init_audio, (input_channels, output_channels, sample_rate)),
        ensures
            instance matches Err(e) ==> r == Err::<Self, PdError>(PdError::InstanceError(e)),
            instance matches Ok(inner) ==> exists|status: i32|
                #[trigger] call_ensures(
                    *init_audio,
                    (input_channels, output_channels, sample_rate),
                    status,
                ) && if status == 0 {
                    r matches Ok(pd) && pd@ == (PdView {
                        instance: inner@,
                        audio_active: false,
                        input_channels,
                        output_channels,
                        sample_rate,
                        patch: PatchView { running_patch: None, temporary_evaluated_patch: None },
                        subscriptions: Map::<Seq<char>, usize>::empty(),
                        search_paths: Seq::<Seq<char>>::empty(),
                    })
                } else {
                    r == Err::<Self, PdError>(
                        PdError::AudioInitializationError(
                            crate::error::AudioInitializationError::InitializationFailed,
                        ),
                    )
                },
    {
        let inner = match instance {
            Err(e) => return Err(PdError::InstanceError(e)),
            Ok(inner) => inner,
        };
        let initialized = initialize_audio(input_channels, output_channels, sample_rate, init_audio);
        let ghost status = choose|status: i32|
            call_ensures(*init_audio, (input_channels, output_channels, sample_rate), status) && initialized == (if status == 0 {
                Ok(())
            } else {
                Err(crate::error::AudioInitializationError::InitializationFailed)
            });
        assert(call_ensures(*init_audio, (input_channels, output_channels, sample_rate), status));
        let r = match initialized {
            Err(e) => Err(PdError::AudioInitializationError(e)),
            Ok(()) => Ok(
                Pd {
                    inner,
                    audio_active: false,
                    input_channels,
                    output_channels,
                    sample_rate,
                    patch: PatchState::new(),
                    subscriptions: Subscriptions::new(),
                    search_paths: Vec::new(),
                },
            ),
        };
        assert(path_views(Seq::<String>::empty()) =~= Seq::<Seq<char>>::empty());
        r
    }

    /// The instance.
    pub fn inner(&self) -> (r: &PdInstance)
        ensures
            r@ == self@.instance,
    {
        &self.inner
    }

    /// The instance, to be changed in place.
    pub fn inner_mut(&mut self) -> (r: &mut PdInstance)
        ensures
            r@ == old(self)@.instance,
            final(self)@ == (PdView { instance: final(r)@, ..old(self)@ }),
    {
        &mut self.inner
    }

    /// A context for the audio thread, which works on this instance.
    pub fn audio_context(&self) -> (r: PdAudioContext)
        ensures
            r@ == self@.instance,
    {
        PdAudioContext { instance: self.inner }
    }

    /// Makes this instance the current one; `set_instance` makes libpd's call.
    pub fn set_as_current<S: Fn(usize)>(&mut self, set_instance: &S)
        requires
            call_requires(*set_instance, (old(self)@.instance.0,)),
        ensures
            final(self)@ == old(self)@,
            call_ensures(*set_instance, (old(self)@.instance.0,), ()),
    {
        self.inner.set_as_current(set_instance)
    }

    /// The number of the instance.
    pub fn instance_number(&self) -> (r: i32)
        ensures
            r == self@.instance.1,
    {
        self.inner.number()
    }

    /// Whether this is the main instance, whose number is `main_instance_number`.
    pub fn is_main_instance(&self, main_instance_number: i32) -> (r: bool)
        ensures
            r == (self@.instance.1 == main_instance_number),
    {
        self.inner.is_main_instance(main_instance_number)
    }

    /// Whether this is the current instance; `current_instance_number` is the number of the
    /// current instance, none when no instance is current.
    pub fn is_current_instance(&self, current_instance_number: Option<i32>) -> (r: bool)
        ensures
            r == (current_instance_number == Some(self@.instance.1)),
    {
        self.inner.is_current_instance(current_instance_number)
    }

    /// Makes this instance current for the length of an operation.
    ///
    /// When it is current already nothing is done, and the guard restores nothing. Otherwise
    /// `this_instance` gives the address of the current instance, which the guard keeps, and
    /// `set_instance` makes this instance current.
    pub fn set_as_active_instance<T: Fn() -> usize, S: Fn(usize)>(
        &self,
        current_instance_number: Option<i32>,
        this_instance: &T,
        set_instance: &S,
    ) -> (r: ActiveInstanceGuard)
        requires
            current_instance_number != Some(self@.instance.1) ==> call_requires(*this_instance, ()),
            current_instance_number != Some(self@.instance.1) ==> call_requires(
                *set_instance,
                (self@.instance.0,),
            ),
        ensures
            current_instance_number == Some(self@.instance.1) ==> r@ == 0,
            current_instance_number != Some(self@.instance.1) ==> call_ensures(
                *this_instance,
                (),
                r@,
            ) && call_ensures(*set_instance, (self@.instance.0,), ()),
    {
        if self.inner.is_current_instance(current_instance_number) {
            return ActiveInstanceGuard { previous_instance: 0 };
        }
        let previous = this_instance();
        set_instance(self.inner.as_ptr());
        ActiveInstanceGuard { previous_instance: previous }
    }

    /// Adds a path to the search paths of this instance, unless it is there already.
    ///
    /// `path_exists` tells whether the path exists and `register` hands it to libpd, as in
    /// [`add_to_search_paths`](crate::functions::add_to_search_paths).
    pub fn add_path_to_search_paths<X: Fn(&str) -> bool, A: Fn(&str)>(
        &mut self,
        path: &str,
        path_exists: &X,
        register: &A,
    ) -> (r: Result<(), PdError>)
        requires
            call_requires(*path_exists, (path,)),
            !paths_contain(old(self)@.search_paths, path@) && found_and_compatible(*path_exists, path)
                ==> call_requires(*register, (path,)),
        ensures
            final(self)@ == (PdView { search_paths: final(self)@.search_paths, ..old(self)@ }),
            exists|added: Result<(), IoError>|
                #[trigger] search_path_step(
                    old(self)@.search_paths,
                    path,
                    *path_exists,
                    *register,
                    final(self)@.search_paths,
                    added,
                ) && r == io_result(added),
    {
        let ghost before = self@;
        let added = add_search_path(&mut self.search_paths, path, path_exists, register);
        assert(search_path_step(
            before.search_paths,
            path,
            *path_exists,
            *register,
            self@.search_paths,
            added,
        ));
        lift_io(added)
    }

    /// Adds each of `paths` that is not there yet to the search paths of this instance, in
    /// order; stops at the first one that fails, keeping the paths added before it.
    pub fn add_paths_to_search_paths<X: Fn(&str) -> bool, A: Fn(&str)>(
        &mut self,
        paths: &[&str],
        path_exists: &X,
        register: &A,
    ) -> (r: Result<(), PdError>)
        requires
            forall|path: &str| call_requires(*path_exists, (path,)),
            forall|path: &str|
                paths@.contains(path) && !paths_contain(old(self)@.search_paths, path@)
                    && found_and_compatible(*path_exists, path) ==> #[trigger] call_requires(
                    *register,
                    (path,),
                ),
        ensures
            final(self)@ == (PdView { search_paths: final(self)@.search_paths, ..old(self)@ }),
            exists|added: Result<(), IoError>|
                #[trigger] search_paths_through(
                    old(self)@.search_paths,
                    paths@,
                    *path_exists,
                    *register,
                    final(self)@.search_paths,
                    added,
                ) && r == io_result(added),
    {
        let ghost before = self@;
        let added = add_search_paths(&mut self.search_paths, paths, path_exists, register);
        assert(search_paths_through(
            before.search_paths,
            paths@,
            *path_exists,
            *register,
            self@.search_paths,
            added,
        ));
        lift_io(added)
    }

    /// Clears the search paths of this instance; `clear` clears them in libpd.
    pub fn clear_all_search_paths<C: Fn()>(&mut self, clear: &C)
        requires
            call_requires(*clear, ()),
        ensures
            final(self)@ == (PdView { search_paths: Seq::<Seq<char>>::empty(), ..old(self)@ }),
            call_ensures(*clear, (), ()),
    {
        clear();
        self.search_paths.clear();
        assert(self@.search_paths =~= Seq::<Seq<char>>::empty());
    }

    /// Closes the open patch of this instance, if there is one: `close_file` closes it in
    /// libpd, and `remove_temp` removes the temporary file of an evaluated patch.
    pub fn close_patch<C: Fn(usize), D: Fn(&str)>(&mut self, close_file: &C, remove_temp: &D) -> (r:
        Result<(), PdError>)
        requires
            forall|address: usize|
                old(self)@.patch.running_patch == Some(address) && address != 0 ==> call_requires(
                    *close_file,
                    (address,),
                ),
            forall|path: &str| call_requires(*remove_temp, (path,)),
        ensures
            exists|closed: Result<(), PatchLifeCycleError>|
                #[trigger] closing(
                    old(self)@.patch,
                    *close_file,
                    *remove_temp,
                    final(self)@.patch,
                    closed,
                ) && r == patch_result(closed),
            final(self)@ == (PdView { patch: final(self)@.patch, ..old(self)@ }),
    {
        let closed = self.patch.close_patch(close_file, remove_temp);
        lift_patch(closed)
    }

    /// Opens a patch for this instance, closing the open one first.
    ///
    /// The closures are those of [`open_patch`](crate::functions::open_patch) and of
    /// [`close_patch`](Pd::close_patch).
    pub fn open_patch<
        E: Fn() -> Option<String>,
        X: Fn(&str) -> bool,
        O: Fn(&str, &str) -> usize,
        C: Fn(usize),
        D: Fn(&str),
    >(
        &mut self,
        path: &str,
        manifest_dir: &str,
        current_exe: &E,
        path_exists: &X,
        open_file: &O,
        close_file: &C,
        remove_temp: &D,
    ) -> (r: Result<(), PdError>)
        requires
            call_requires(*current_exe, ()),
            forall|p: &str| call_requires(*path_exists, (p,)),
            forall|name: &str, directory: &str|
                open_permitted(path@, *path_exists, name@, directory@) ==> #[trigger] call_requires(
                    *open_file,
                    (name, directory),
                ),
            forall|address: usize|
                old(self)@.patch.running_patch == Some(address) && address != 0 ==> call_requires(
                    *close_file,
                    (address,),
                ),
            forall|p: &str| call_requires(*remove_temp, (p,)),
        ensures
            final(self)@ == (PdView { patch: final(self)@.patch, ..old(self)@ }),
            exists|opened: Result<(), PatchLifeCycleError>|
                #[trigger] opening(
                    old(self)@.patch,
                    path@,
                    manifest_dir@,
                    *current_exe,
                    *path_exists,
                    *open_file,
                    *close_file,
                    *remove_temp,
                    final(self)@.patch,
                    opened,
                ) && r == patch_result(opened),
    {
        let opened = self.patch.open_patch(
            path,
            manifest_dir,
            current_exe,
            path_exists,
            open_file,
            close_file,
            remove_temp,
        );
        lift_patch(opened)
    }

    /// Evaluates `contents` as a patch for this instance: the open patch is closed, the
    /// contents are written to a temporary file by `make_temp`, and that file is opened as the
    /// patch. The other closures are those of [`open_patch`](Pd::open_patch).
    pub fn eval_patch<
        M: Fn(&str) -> Result<String, String>,
        X: Fn(&str) -> bool,
        E: Fn() -> Option<String>,
        O: Fn(&str, &str) -> usize,
        C: Fn(usize),
        D: Fn(&str),
    >(
        &mut self,
        contents: &str,
        make_temp: &M,
        manifest_dir: &str,
        current_exe: &E,
        path_exists: &X,
        open_file: &O,
        close_file: &C,
        remove_temp: &D,
    ) -> (r: Result<(), PdError>)
        requires
            call_requires(*make_temp, (contents,)),
            call_requires(*current_exe, ()),
            forall|p: &str| call_requires(*path_exists, (p,)),
            forall|name: &str, directory: &str|
                eval_open_permitted(contents, *make_temp, *path_exists, name@, directory@)
                    ==> #[trigger] call_requires(*open_file, (name, directory)),
            forall|address: usize|
                old(self)@.patch.running_patch == Some(address) && address != 0 ==> call_requires(
                    *close_file,
                    (address,),
                ),
            forall|p: &str| call_requires(*remove_temp, (p,)),
        ensures
            final(self)@ == (PdView { patch: final(self)@.patch, ..old(self)@ }),
            exists|evaluated: Result<(), PatchLifeCycleError>|
                #[trigger] evaluating(
                    old(self)@.patch,
                    contents,
                    *make_temp,
                    manifest_dir@,
                    *current_exe,
                    *path_exists,
                    *open_file,
                    *close_file,
                    *remove_temp,
                    final(self)@.patch,
                    evaluated,
                ) && r == patch_result(evaluated),
    {
        let evaluated = self.patch.eval_patch(
            contents,
            make_temp,
            manifest_dir,
            current_exe,
            path_exists,
            open_file,
            close_file,
            remove_temp,
        );
        lift_patch(evaluated)
    }

    /// Starts listening to the sender `source`, unless it is listened to already; `bind` asks
    /// libpd for a receiver.
    pub fn subscribe_to<B: FnOnce(&str) -> usize>(&mut self, source: &str, bind: B) -> (r: Result<
        (),
        PdError,
    >)
        requires
            !old(self)@.subscriptions.contains_key(source@) && is_c_compatible(source@)
                ==> call_requires(bind, (source,)),
        ensures
            final(self)@ == (PdView { subscriptions: final(self)@.subscriptions, ..old(self)@ }),
            exists|subscribed: Result<(), SubscriptionError>|
                #[trigger] subscribe_step(
                    old(self)@.subscriptions,
                    source,
                    bind,
                    final(self)@.subscriptions,
                    subscribed,
                ) && r == subscription_result(subscribed),
    {
        let ghost before = self@;
        let subscribed = self.subscriptions.subscribe_to(source, bind);
        assert(subscribe_step(before.subscriptions, source, bind, self@.subscriptions, subscribed));
        lift_subscription(subscribed)
    }

    /// Starts listening to each of the senders `sources` that is not listened to yet, in
    /// order; stops at the first one that fails, keeping the subscriptions made before it.
    pub fn subscribe_to_many<B: Fn(&str) -> usize>(&mut self, sources: &[&str], bind: &B) -> (r:
        Result<(), PdError>)
        requires
            forall|source: &str|
                sources@.contains(source) && !old(self)@.subscriptions.contains_key(source@)
                    && is_c_compatible(source@) ==> #[trigger] call_requires(*bind, (source,)),
        ensures
            final(self)@ == (PdView { subscriptions: final(self)@.subscriptions, ..old(self)@ }),
            exists|subscribed: Result<(), SubscriptionError>|
                #[trigger] subscribed_through(
                    old(self)@.subscriptions,
                    sources@,
                    *bind,
                    final(self)@.subscriptions,
                    subscribed,
                ) && r == subscription_result(subscribed),
    {
        let ghost before = self@;
        let subscribed = self.subscriptions.subscribe_to_many(sources, bind);
        assert(subscribed_through(
            before.subscriptions,
            sources@,
            *bind,
            self@.subscriptions,
            subscribed,
        ));
        lift_subscription(subscribed)
    }

    /// Stops listening to the sender `source`, if it is listened to; `unbind` removes its
    /// receiver from libpd.
    pub fn unsubscribe_from<U: Fn(usize)>(&mut self, source: &str, unbind: &U)
        requires
            forall|address: usize| address != 0 ==> call_requires(*unbind, (address,)),
        ensures
            final(self)@ == (PdView { subscriptions: final(self)@.subscriptions, ..old(self)@ }),
            final(self)@.subscriptions == old(self)@.subscriptions.remove(source@),
            old(self)@.subscriptions.contains_key(source@) && old(self)@.subscriptions[source@]
                != 0 ==> call_ensures(*unbind, (old(self)@.subscriptions[source@],), ()),
    {
        self.subscriptions.unsubscribe_from(source, unbind);
    }

    /// Stops listening to each of the senders `sources` that is listened to.
    pub fn unsubscribe_from_many<U: Fn(usize)>(&mut self, sources: &[&str], unbind: &U)
        requires
            forall|address: usize| address != 0 ==> call_requires(*unbind, (address,)),
        ensures
            final(self)@ == (PdView { subscriptions: final(self)@.subscriptions, ..old(self)@ }),
            final(self)@.subscriptions == old(self)@.subscriptions.remove_keys(
                sources@.map_values(|s: &str| s@).to_set(),
            ),
            forall|name: Seq<char>|
                #![trigger old(self)@.subscriptions[name]]
                old(self)@.subscriptions.contains_key(name) && sources@.map_values(
                    |s: &str| s@,
                ).contains(name) && old(self)@.subscriptions[name] != 0 ==> call_ensures(
                    *unbind,
                    (old(self)@.subscriptions[name],),
                    (),
                ),
    {
        self.subscriptions.unsubscribe_from_many(sources, unbind);
    }

    /// Stops listening to every sender that is listened to.
    pub fn unsubscribe_from_all<U: Fn(usize)>(&mut self, unbind: &U)
        requires
            forall|address: usize| address != 0 ==> call_requires(*unbind, (address,)),
        ensures
            final(self)@ == (PdView { subscriptions: final(self)@.subscriptions, ..old(self)@ }),
            final(self)@.subscriptions == Map::<Seq<char>, usize>::empty(),
            forall|name: Seq<char>|
                #![trigger old(self)@.subscriptions[name]]
                old(self)@.subscriptions.contains_key(name) && old(self)@.subscriptions[name] != 0
                    ==> call_ensures(*unbind, (old(self)@.subscriptions[name],), ()),
    {
        self.subscriptions.unsubscribe_from_all(unbind);
    }

    /// The `$0` of the open patch, asked from libpd with `dollar_zero`; fails with
    /// `PatchIsNotOpen` when no patch is open.
    pub fn dollar_zero<Z: Fn(usize) -> i32>(&self, dollar_zero: &Z) -> (r: Result<i32, PdError>)
        requires
            forall|address: usize|
                self@.patch.running_patch == Some(address) ==> call_requires(
                    *dollar_zero,
                    (address,),
                ),
        ensures
            match self@.patch.running_patch {
                None => r == Err::<i32, PdError>(
                    PdError::PatchLifeCycleError(PatchLifeCycleError::PatchIsNotOpen),
                ),
                Some(address) => exists|answer: Result<i32, PatchLifeCycleError>|
                    #[trigger] dollar_zero_outcome(address, *dollar_zero, answer) && r == match answer {
                        Ok(value) => Ok(value),
                        Err(e) => Err(PdError::PatchLifeCycleError(e)),
                    },
            },
    {
        match self.patch.dollar_zero(dollar_zero) {
            Ok(value) => Ok(value),
            Err(e) => Err(PdError::PatchLifeCycleError(e)),
        }
    }

    /// The subscriptions made through this value.
    pub fn subscriptions(&self) -> (r: &Subscriptions)
        ensures
            r@ == self@.subscriptions,
    {
        &self.subscriptions
    }

    /// The search paths added through this value, in the order they were added.
    pub fn search_paths(&self) -> (r: &Vec<String>)
        ensures
            path_views(r@) == self@.search_paths,
    {
        &self.search_paths
    }

    /// Whether audio is active, as far as the methods of this type switched it.
    pub fn audio_active(&self) -> (r: bool)
        ensures
            r == self@.audio_active,
    {
        self.audio_active
    }

    /// Activates or deactivates audio: sends `dsp 1` or `dsp 0` to pd, unless audio is
    /// switched that way already. The closures are those of
    /// [`dsp_on`](crate::functions::util::dsp_on).
    pub fn activate_audio<S: Fn(i32) -> i32, A: Fn(i32), F: Fn(&str, &str) -> i32>(
        &mut self,
        on: bool,
        start_message: &S,
        add_float: &A,
        finish_message: &F,
    ) -> (r: Result<(), PdError>)
        requires
            old(self)@.audio_active != on ==> call_requires(*start_message, (1i32,)),
            old(self)@.audio_active != on && start_succeeded(*start_message) ==> call_requires(
                *add_float,
                ((if on { 1i32 } else { 0i32 }),),
            ),
            forall|receiver: &str, header: &str|
                old(self)@.audio_active != on && start_succeeded(*start_message) && call_ensures(
                    *add_float,
                    ((if on { 1i32 } else { 0i32 }),),
                    (),
                ) && is_dsp_message(receiver, header) ==> #[trigger] call_requires(
                    *finish_message,
                    (receiver, header),
                ),
        ensures
            final(self)@ == (PdView { audio_active: final(self)@.audio_active, ..old(self)@ }),
            audio_switch(
                old(self)@.audio_active,
                on,
                *start_message,
                *add_float,
                *finish_message,
                final(self)@.audio_active,
                r,
            ),
    {
        if on && !self.audio_active {
            let switched = dsp_on(start_message, add_float, finish_message);
            if switched.is_ok() {
                self.audio_active = true;
            }
            switched
        } else if !on && self.audio_active {
            let switched = dsp_off(start_message, add_float, finish_message);
            if switched.is_ok() {
                self.audio_active = false;
            }
            switched
        } else {
            Ok(())
        }
    }

    /// The sample rate which the instance was configured with.
    pub fn sample_rate(&self) -> (r: i32)
        ensures
            r == self@.sample_rate,
    {
        self.sample_rate
    }

    /// The number of input channels which the instance was configured with.
    pub fn input_channels(&self) -> (r: i32)
        ensures
            r == self@.input_channels,
    {
        self.input_channels
    }

    /// The number of output channels which the instance was configured with.
    pub fn output_channels(&self) -> (r: i32)
        ensures
            r == self@.output_channels,
    {
        self.output_channels
    }
}

} // verus!
