//! Convenience over the global pd instance.
//!
//! [`PdGlobal`] keeps the state of pd which the application changes through it, like [`Pd`]
//! does for an instance; the functions beside it are the common operations.
//!
//! [`Pd`]: crate::Pd

use crate::error::{
    io_result, patch_result, subscription_result, AudioInitializationError, IoError,
    PatchLifeCycleError, PdError, SubscriptionError,
};
use crate::functions::util::{
    div_toward_zero, dsp_switch_outcome, is_dsp_message, start_succeeded,
};
use crate::functions::{
    dollar_zero_outcome, found_and_compatible, init_outcome, init_result, init_succeeded, initialize_audio,
    open_permitted,
};
use crate::helpers::is_c_compatible;
use crate::session::{
    add_search_path, add_search_paths, closing, eval_open_permitted, evaluating, opening,
    path_views, paths_contain, search_path_step,
    search_paths_through, subscribe_step, subscribed_through, PatchState, PatchView,
    Subscriptions,
};
use crate::{audio_switch, lift_io, lift_patch, lift_subscription};
use vstd::prelude::*;

verus! {

/// What a [`PdGlobal`] knows of pd.
pub struct GlobalView {
    pub audio_active: bool,
    pub input_channels: i32,
    pub output_channels: i32,
    pub sample_rate: i32,
    pub patch: PatchView,
    /// The subscribed sender names, each with the address of its receiver.
    pub subscriptions: Map<Seq<char>, usize>,
    /// The search paths, in the order they were added.
    pub search_paths: Seq<Seq<char>>,
}

/// The global pd instance with the state that the library keeps of it.
///
/// Use one value of this type only: pd is initialized globally. The state is kept by the
/// methods of this type; what is done to pd in other ways (with the functions of
/// [`functions`](crate::functions) directly) is not seen here.
pub struct PdGlobal {
    audio_active: bool,
    input_channels: i32,
    output_channels: i32,
    sample_rate: i32,
    patch: PatchState,
    /// The subscriptions which were made to senders in pd through the app lifecycle.
    pub subscriptions: Subscriptions,
    /// The paths which were added to pd's search paths through the app lifecycle, in order.
    pub search_paths: Vec<String>,
}

impl View for PdGlobal {
    type V = GlobalView;

    closed spec fn view(&self) -> GlobalView {
        GlobalView {
            audio_active: self.audio_active,
            input_channels: self.input_channels,
            output_channels: self.output_channels,
            sample_rate: self.sample_rate,
            patch: self.patch@,
            subscriptions: self.subscriptions@,
            search_paths: path_views(self.search_paths@),
        }
    }
}

/// What configuring audio answers: with libpd's status `0` a fresh state, otherwise the
/// audio initialization error.
pub open spec fn configured<A: Fn(i32, i32, i32) -> i32>(
    input_channels: i32,
    output_channels: i32,
    sample_rate: i32,
    init_audio: A,
    r: Result<PdGlobal, PdError>,
) -> bool {
    exists|status: i32|
        #[trigger] call_ensures(init_audio, (input_channels, output_channels, sample_rate), status)
            && if status == 0 {
            r matches Ok(pd) && pd@ == (GlobalView {
                audio_active: false,
                input_channels,
                output_channels,
                sample_rate,
                patch: PatchView { running_patch: None, temporary_evaluated_patch: None },
                subscriptions: Map::<Seq<char>, usize>::empty(),
                search_paths: Seq::<Seq<char>>::empty(),
            })
        } else {
            r == Err::<PdGlobal, PdError>(
                PdError::AudioInitializationError(AudioInitializationError::InitializationFailed),
            )
        }
}

/// Activates audio in pd: sends `dsp 1` to `pd`, as [`dsp_on`](crate::functions::util::dsp_on)
/// does with the same closures.
pub fn dsp_on<S: Fn(i32) -> i32, A: Fn(i32), F: Fn(&str, &str) -> i32>(
    start_message: &S,
    add_float: &A,
    finish_message: &F,
) -> (r: Result<(), PdError>)
    requires
        call_requires(*start_message, (1i32,)),
        start_succeeded(*start_message) ==> call_requires(*add_float, (1i32,)),
        forall|receiver: &str, header: &str|
            start_succeeded(*start_message) && call_ensures(*add_float, (1i32,), ())
                && is_dsp_message(receiver, header) ==> call_requires(
                *finish_message,
                (receiver, header),
            ),
    ensures
        dsp_switch_outcome(1, *start_message, *add_float, *finish_message, r),
{
    crate::functions::util::dsp_on(start_message, add_float, finish_message)
}

/// De-activates audio in pd: sends `dsp 0` to `pd`, as
/// [`dsp_off`](crate::functions::util::dsp_off) does with the same closures.
pub fn dsp_off<S: Fn(i32) -> i32, A: Fn(i32), F: Fn(&str, &str) -> i32>(
    start_message: &S,
    add_float: &A,
    finish_message: &F,
) -> (r: Result<(), PdError>)
    requires
        call_requires(*start_message, (1i32,)),
        start_succeeded(*start_message) ==> call_requires(*add_float, (0i32,)),
        forall|receiver: &str, header: &str|
            start_succeeded(*start_message) && call_ensures(*add_float, (0i32,), ())
                && is_dsp_message(receiver, header) ==> call_requires(
                *finish_message,
                (receiver, header),
            ),
    ensures
        dsp_switch_outcome(0, *start_message, *add_float, *finish_message, r),
{
    crate::functions::util::dsp_off(start_message, add_float, finish_message)
}

/// The number of pd ticks that fill a buffer: `buffer_size / (block_size * channels)`, rounded
/// toward zero, as [`calculate_ticks`](crate::functions::util::calculate_ticks) computes it.
pub fn calculate_ticks(channels: i32, buffer_size: i32, block_size: i32) -> (r: i32)
    requires
        block_size * channels != 0,
        i32::MIN <= block_size * channels <= i32::MAX,
        !(buffer_size == i32::MIN && block_size * channels == -1),
    ensures
        r == div_toward_zero(buffer_size as int, block_size * channels),
{
    crate::functions::util::calculate_ticks(channels, buffer_size, block_size)
}

impl PdGlobal {
    /// Initializes pd and audio with the given channel counts and sample rate, and starts
    /// with audio off, no patch, no subscriptions and no search paths.
    ///
    /// `queued_init` and `init_audio` make libpd's calls, as in
    /// [`init`](crate::functions::init) and [`initialize_audio`]. Initializing pd again is no
    /// error.
    pub fn init_and_configure<I: FnOnce() -> i32, A: Fn(i32, i32, i32) -> i32>(
        input_channels: i32,
        output_channels: i32,
        sample_rate: i32,
        queued_init: I,
        init_audio: &A,
    ) -> (r: Result<Self, PdError>)
        requires
            call_requires(queued_init, ()),
            init_succeeded(queued_init) ==> call_requires(
                *init_audio,
                (input_channels, output_channels, sample_rate),
            ),
        ensures
            exists|status: i32|
                #[trigger] call_ensures(queued_init, (), status) && match init_outcome(status) {
                    Err(e) => r == Err::<Self, PdError>(PdError::InitializationError(e)),
                    Ok(()) => configured(
                        input_channels,
                        output_channels,
                        sample_rate,
                        *init_audio,
                        r,
                    ),
                },
    {
        let ghost init_spec = queued_init;
        let status = queued_init();
        let initialized = init_result(status);
        assert(call_ensures(init_spec, (), status));
        if let Err(e) = initialized {
            return Err(PdError::InitializationError(e));
        }
        assert(init_succeeded(init_spec));
        let configured_audio = initialize_audio(
            input_channels,
            output_channels,
            sample_rate,
            init_audio,
        );
        let ghost audio_status = choose|audio_status: i32|
            call_ensures(*init_audio, (input_channels, output_channels, sample_rate), audio_status)
                && configured_audio == (if audio_status == 0 {
                Ok(())
            } else {
                Err(AudioInitializationError::InitializationFailed)
            });
        assert(call_ensures(
            *init_audio,
            (input_channels, output_channels, sample_rate),
            audio_status,
        ));
        let r = match configured_audio {
            Err(e) => Err(PdError::AudioInitializationError(e)),
            Ok(()) => Ok(
                PdGlobal {
                    audio_active: false,
                    input_channels,
                    output_channels,
                    sample_rate,
                    patch: PatchState::new(),
                    subscriptions: Subscriptions::new(),
                    search_paths: Vec::new(),
                },
            ),
        };
        assert(path_views(Seq::<String>::empty()) =~= Seq::<Seq<char>>::empty());
        assert(configured(input_channels, output_channels, sample_rate, *init_audio, r));
        r
    }

    /// Adds a path to the search paths of pd, unless it is there already.
    ///
    /// `path_exists` tells whether the path exists and `register` hands it to libpd, as in
    /// [`add_to_search_paths`](crate::functions::add_to_search_paths).
    pub fn add_path_to_search_paths<X: Fn(&str) -> bool, A: Fn(&str)>(
        &mut self,
        path: &str,
        path_exists: &X,
        register: &A,
    ) -> (r: Result<(), PdError>)
        requires
            call_requires(*path_exists, (path,)),
            !paths_contain(old(self)@.search_paths, path@) && found_and_compatible(*path_exists, path)
                ==> call_requires(*register, (path,)),
        ensures
            final(self)@ == (GlobalView { search_paths: final(self)@.search_paths, ..old(self)@ }),
            exists|added: Result<(), IoError>|
                #[trigger] search_path_step(
                    old(self)@.search_paths,
                    path,
                    *path_exists,
                    *register,
                    final(self)@.search_paths,
                    added,
                ) && r == io_result(added),
    {
        let ghost before = self@;
        let added = add_search_path(&mut self.search_paths, path, path_exists, register);
        assert(search_path_step(
            before.search_paths,
            path,
            *path_exists,
            *register,
            self@.search_paths,
            added,
        ));
        lift_io(added)
    }

    /// Adds each of `paths` that is not there yet to the search paths of pd, in
    /// order; stops at the first one that fails, keeping the paths added before it.
    pub fn add_paths_to_search_paths<X: Fn(&str) -> bool, A: Fn(&str)>(
        &mut self,
        paths: &[&str],
        path_exists: &X,
        register: &A,
    ) -> (r: Result<(), PdError>)
        requires
            forall|path: &str| call_requires(*path_exists, (path,)),
            forall|path: &str|
                paths@.contains(path) && !paths_contain(old(self)@.search_paths, path@)
                    && found_and_compatible(*path_exists, path) ==> #[trigger] call_requires(
                    *register,
                    (path,),
                ),
        ensures
            final(self)@ == (GlobalView { search_paths: final(self)@.search_paths, ..old(self)@ }),
            exists|added: Result<(), IoError>|
                #[trigger] search_paths_through(
                    old(self)@.search_paths,
                    paths@,
                    *path_exists,
                    *register,
                    final(self)@.search_paths,
                    added,
                ) && r == io_result(added),
    {
        let ghost before = self@;
        let added = add_search_paths(&mut self.search_paths, paths, path_exists, register);
        assert(search_paths_through(
            before.search_paths,
            paths@,
            *path_exists,
            *register,
            self@.search_paths,
            added,
        ));
        lift_io(added)
    }

    /// Clears the search paths of pd; `clear` clears them in libpd.
    pub fn clear_all_search_paths<C: Fn()>(&mut self, clear: &C)
        requires
            call_requires(*clear, ()),
        ensures
            final(self)@ == (GlobalView { search_paths: Seq::<Seq<char>>::empty(), ..old(self)@ }),
            call_ensures(*clear, (), ()),
    {
        clear();
        self.search_paths.clear();
        assert(self@.search_paths =~= Seq::<Seq<char>>::empty());
    }

    /// Closes the open patch of pd, if there is one: `close_file` closes it in
    /// libpd, and `remove_temp` removes the temporary file of an evaluated patch.
    pub fn close_patch<C: Fn(usize), D: Fn(&str)>(&mut self, close_file: &C, remove_temp: &D) -> (r:
        Result<(), PdError>)
        requires
            forall|address: usize|
                old(self)@.patch.running_patch == Some(address) && address != 0 ==> call_requires(
                    *close_file,
                    (address,),
                ),
            forall|path: &str| call_requires(*remove_temp, (path,)),
        ensures
            exists|closed: Result<(), PatchLifeCycleError>|
                #[trigger] closing(
                    old(self)@.patch,
                    *close_file,
                    *remove_temp,
                    final(self)@.patch,
                    closed,
                ) && r == patch_result(closed),
            final(self)@ == (GlobalView { patch: final(self)@.patch, ..old(self)@ }),
    {
        let closed = self.patch.close_patch(close_file, remove_temp);
        lift_patch(closed)
    }

    /// Opens a patch for pd, closing the open one first.
    ///
    /// The closures are those of [`open_patch`](crate::functions::open_patch) and of
    /// [`close_patch`](PdGlobal::close_patch).
    pub fn open_patch<
        E: Fn() -> Option<String>,
        X: Fn(&str) -> bool,
        O: Fn(&str, &str) -> usize,
        C: Fn(usize),
        D: Fn(&str),
    >(
        &mut self,
        path: &str,
        manifest_dir: &str,
        current_exe: &E,
        path_exists: &X,
        open_file: &O,
        close_file: &C,
        remove_temp: &D,
    ) -> (r: Result<(), PdError>)
        requires
            call_requires(*current_exe, ()),
            forall|p: &str| call_requires(*path_exists, (p,)),
            forall|name: &str, directory: &str|
                open_permitted(path@, *path_exists, name@, directory@) ==> #[trigger] call_requires(
                    *open_file,
                    (name, directory),
                ),
            forall|address: usize|
                old(self)@.patch.running_patch == Some(address) && address != 0 ==> call_requires(
                    *close_file,
                    (address,),
                ),
            forall|p: &str| call_requires(*remove_temp, (p,)),
        ensures
            final(self)@ == (GlobalView { patch: final(self)@.patch, ..old(self)@ }),
            exists|opened: Result<(), PatchLifeCycleError>|
                #[trigger] opening(
                    old(self)@.patch,
                    path@,
                    manifest_dir@,
                    *current_exe,
                    *path_exists,
                    *open_file,
                    *close_file,
                    *remove_temp,
                    final(self)@.patch,
                    opened,
                ) && r == patch_result(opened),
    {
        let opened = self.patch.open_patch(
            path,
            manifest_dir,
            current_exe,
            path_exists,
            open_file,
            close_file,
            remove_temp,
        );
        lift_patch(opened)
    }

    /// Evaluates `contents` as a patch for pd: the open patch is closed, the
    /// contents are written to a temporary file by `make_temp`, and that file is opened as the
    /// patch. The other closures are those of [`open_patch`](PdGlobal::open_patch).
    pub fn eval_patch<
        M: Fn(&str) -> Result<String, String>,
        X: Fn(&str) -> bool,
        E: Fn() -> Option<String>,
        O: Fn(&str, &str) -> usize,
        C: Fn(usize),
        D: Fn(&str),
    >(
        &mut self,
        contents: &str,
        make_temp: &M,
        manifest_dir: &str,
        current_exe: &E,
        path_exists: &X,
        open_file: &O,
        close_file: &C,
        remove_temp: &D,
    ) -> (r: Result<(), PdError>)
        requires
            call_requires(*make_temp, (contents,)),
            call_requires(*current_exe, ()),
            forall|p: &str| call_requires(*path_exists, (p,)),
            forall|name: &str, directory: &str|
                eval_open_permitted(contents, *make_temp, *path_exists, name@, directory@)
                    ==> #[trigger] call_requires(*open_file, (name, directory)),
            forall|address: usize|
                old(self)@.patch.running_patch == Some(address) && address != 0 ==> call_requires(
                    *close_file,
                    (address,),
                ),
            forall|p: &str| call_requires(*remove_temp, (p,)),
        ensures
            final(self)@ == (GlobalView { patch: final(self)@.patch, ..old(self)@ }),
            exists|evaluated: Result<(), PatchLifeCycleError>|
                #[trigger] evaluating(
                    old(self)@.patch,
                    contents,
                    *make_temp,
                    manifest_dir@,
                    *current_exe,
                    *path_exists,
                    *open_file,
                    *close_file,
                    *remove_temp,
                    final(self)@.patch,
                    evaluated,
                ) && r == patch_result(evaluated),
    {
        let evaluated = self.patch.eval_patch(
            contents,
            make_temp,
            manifest_dir,
            current_exe,
            path_exists,
            open_file,
            close_file,
            remove_temp,
        );
        lift_patch(evaluated)
    }

    /// Starts listening to the sender `source`, unless it is listened to already; `bind` asks
    /// libpd for a receiver.
    pub fn subscribe_to<B: FnOnce(&str) -> usize>(&mut self, source: &str, bind: B) -> (r: Result<
        (),
        PdError,
    >)
        requires
            !old(self)@.subscriptions.contains_key(source@) && is_c_compatible(source@)
                ==> call_requires(bind, (source,)),
        ensures
            final(self)@ == (GlobalView { subscriptions: final(self)@.subscriptions, ..old(self)@ }),
            exists|subscribed: Result<(), SubscriptionError>|
                #[trigger] subscribe_step(
                    old(self)@.subscriptions,
                    source,
                    bind,
                    final(self)@.subscriptions,
                    subscribed,
                ) && r == subscription_result(subscribed),
    {
        let ghost before = self@;
        let subscribed = self.subscriptions.subscribe_to(source, bind);
        assert(subscribe_step(before.subscriptions, source, bind, self@.subscriptions, subscribed));
        lift_subscription(subscribed)
    }

    /// Starts listening to each of the senders `sources` that is not listened to yet, in
    /// order; stops at the first one that fails, keeping the subscriptions made before it.
    pub fn subscribe_to_many<B: Fn(&str) -> usize>(&mut self, sources: &[&str], bind: &B) -> (r:
        Result<(), PdError>)
        requires
            forall|source: &str|
                sources@.contains(source) && !old(self)@.subscriptions.contains_key(source@)
                    && is_c_compatible(source@) ==> #[trigger] call_requires(*bind, (source,)),
        ensures
            final(self)@ == (GlobalView { subscriptions: final(self)@.subscriptions, ..old(self)@ }),
            exists|subscribed: Result<(), SubscriptionError>|
                #[trigger] subscribed_through(
                    old(self)@.subscriptions,
                    sources@,
                    *bind,
                    final(self)@.subscriptions,
                    subscribed,
                ) && r == subscription_result(subscribed),
    {
        let ghost before = self@;
        let subscribed = self.subscriptions.subscribe_to_many(sources, bind);
        assert(subscribed_through(
            before.subscriptions,
            sources@,
            *bind,
            self@.subscriptions,
            subscribed,
        ));
        lift_subscription(subscribed)
    }

    /// Stops listening to the sender `source`, if it is listened to; `unbind` removes its
    /// receiver from libpd.
    pub fn unsubscribe_from<U: Fn(usize)>(&mut self, source: &str, unbind: &U)
        requires
            forall|address: usize| address != 0 ==> call_requires(*unbind, (address,)),
        ensures
            final(self)@ == (GlobalView { subscriptions: final(self)@.subscriptions, ..old(self)@ }),
            final(self)@.subscriptions == old(self)@.subscriptions.remove(source@),
            old(self)@.subscriptions.contains_key(source@) && old(self)@.subscriptions[source@]
                != 0 ==> call_ensures(*unbind, (old(self)@.subscriptions[source@],), ()),
    {
        self.subscriptions.unsubscribe_from(source, unbind);
    }

    /// Stops listening to each of the senders `sources` that is listened to.
    pub fn unsubscribe_from_many<U: Fn(usize)>(&mut self, sources: &[&str], unbind: &U)
        requires
            forall|address: usize| address != 0 ==> call_requires(*unbind, (address,)),
        ensures
            final(self)@ == (GlobalView { subscriptions: final(self)@.subscriptions, ..old(self)@ }),
            final(self)@.subscriptions == old(self)@.subscriptions.remove_keys(
                sources@.map_values(|s: &str| s@).to_set(),
            ),
            forall|name: Seq<char>|
                #![trigger old(self)@.subscriptions[name]]
                old(self)@.subscriptions.contains_key(name) && sources@.map_values(
                    |s: &str| s@,
                ).contains(name) && old(self)@.subscriptions[name] != 0 ==> call_ensures(
                    *unbind,
                    (old(self)@.subscriptions[name],),
                    (),
                ),
    {
        self.subscriptions.unsubscribe_from_many(sources, unbind);
    }

    /// Stops listening to every sender that is listened to.
    pub fn unsubscribe_from_all<U: Fn(usize)>(&mut self, unbind: &U)
        requires
            forall|address: usize| address != 0 ==> call_requires(*unbind, (address,)),
        ensures
            final(self)@ == (GlobalView { subscriptions: final(self)@.subscriptions, ..old(self)@ }),
            final(self)@.subscriptions == Map::<Seq<char>, usize>::empty(),
            forall|name: Seq<char>|
                #![trigger old(self)@.subscriptions[name]]
                old(self)@.subscriptions.contains_key(name) && old(self)@.subscriptions[name] != 0
                    ==> call_ensures(*unbind, (old(self)@.subscriptions[name],), ()),
    {
        self.subscriptions.unsubscribe_from_all(unbind);
    }

    /// The `$0` of the open patch, asked from libpd with `dollar_zero`; fails with
    /// `PatchIsNotOpen` when no patch is open.
    pub fn dollar_zero<Z: Fn(usize) -> i32>(&self, dollar_zero: &Z) -> (r: Result<i32, PdError>)
        requires
            forall|address: usize|
                self@.patch.running_patch == Some(address) ==> call_requires(
                    *dollar_zero,
                    (address,),
                ),
        ensures
            match self@.patch.running_patch {
                None => r == Err::<i32, PdError>(
                    PdError::PatchLifeCycleError(PatchLifeCycleError::PatchIsNotOpen),
                ),
                Some(address) => exists|answer: Result<i32, PatchLifeCycleError>|
                    #[trigger] dollar_zero_outcome(address, *dollar_zero, answer) && r == match answer {
                        Ok(value) => Ok(value),
                        Err(e) => Err(PdError::PatchLifeCycleError(e)),
                    },
            },
    {
        match self.patch.dollar_zero(dollar_zero) {
            Ok(value) => Ok(value),
            Err(e) => Err(PdError::PatchLifeCycleError(e)),
        }
    }

    /// The subscriptions made through this value.
    pub fn subscriptions(&self) -> (r: &Subscriptions)
        ensures
            r@ == self@.subscriptions,
    {
        &self.subscriptions
    }

    /// The search paths added through this value, in the order they were added.
    pub fn search_paths(&self) -> (r: &Vec<String>)
        ensures
            path_views(r@) == self@.search_paths,
    {
        &self.search_paths
    }

    /// Whether audio is active, as far as the methods of this type switched it.
    pub fn audio_active(&self) -> (r: bool)
        ensures
            r == self@.audio_active,
    {
        self.audio_active
    }

    /// Activates or deactivates audio: sends `dsp 1` or `dsp 0` to pd, unless audio is
    /// switched that way already. The closures are those of
    /// [`dsp_on`](crate::functions::util::dsp_on).
    pub fn activate_audio<S: Fn(i32) -> i32, A: Fn(i32), F: Fn(&str, &str) -> i32>(
        &mut self,
        on: bool,
        start_message: &S,
        add_float: &A,
        finish_message: &F,
    ) -> (r: Result<(), PdError>)
        requires
            old(self)@.audio_active != on ==> call_requires(*start_message, (1i32,)),
            old(self)@.audio_active != on && start_succeeded(*start_message) ==> call_requires(
                *add_float,
                ((if on { 1i32 } else { 0i32 }),),
            ),
            forall|receiver: &str, header: &str|
                old(self)@.audio_active != on && start_succeeded(*start_message) && call_ensures(
                    *add_float,
                    ((if on { 1i32 } else { 0i32 }),),
                    (),
                ) && is_dsp_message(receiver, header) ==> #[trigger] call_requires(
                    *finish_message,
                    (receiver, header),
                ),
        ensures
            final(self)@ == (GlobalView { audio_active: final(self)@.audio_active, ..old(self)@ }),
            audio_switch(
                old(self)@.audio_active,
                on,
                *start_message,
                *add_float,
                *finish_message,
                final(self)@.audio_active,
                r,
            ),
    {
        if on && !self.audio_active {
            let switched = dsp_on(start_message, add_float, finish_message);
            if switched.is_ok() {
                self.audio_active = true;
            }
            switched
        } else if !on && self.audio_active {
            let switched = dsp_off(start_message, add_float, finish_message);
            if switched.is_ok() {
                self.audio_active = false;
            }
            switched
        } else {
            Ok(())
        }
    }

    /// The sample rate which the instance was configured with.
    pub fn sample_rate(&self) -> (r: i32)
        ensures
            r == self@.sample_rate,
    {
        self.sample_rate
    }

    /// The number of input channels which the instance was configured with.
    pub fn input_channels(&self) -> (r: i32)
        ensures
            r == self@.input_channels,
    {
        self.input_channels
    }

    /// The number of output channels which the instance was configured with.
    pub fn output_channels(&self) -> (r: i32)
        ensures
            r == self@.output_channels,
    {
        self.output_channels
    }
}

} // verus!
