//! Pd instances.
//!
//! libpd runs any number of pd instances, one of which is current for a thread at a time. The
//! first instance created is the main instance. Each instance has a number, `pd_instanceno`,
//! by which instances are told apart.

use crate::error::{initialization_message, InstanceError};
use crate::functions::{init_outcome, init_result};
use vstd::prelude::*;
use vstd::std_specs::cmp::PartialEqSpecImpl;

verus! {

/// A pd instance: the address of libpd's instance and its number.
#[derive(Debug, Clone, Copy)]
pub struct PdInstance {
    inner: usize,
    number: i32,
}

impl View for PdInstance {
    type V = (usize, i32);

    /// The address of the instance and its number.
    closed spec fn view(&self) -> (usize, i32) {
        (self.inner, self.number)
    }
}

impl PartialEq for PdInstance {
    /// Two instances are the same when their numbers are.
    fn eq(&self, other: &Self) -> (r: bool) {
        self.number == other.number
    }
}

impl PartialEqSpecImpl for PdInstance {
    open spec fn obeys_eq_spec() -> bool {
        true
    }

    open spec fn eq_spec(&self, other: &Self) -> bool {
        self@.1 == other@.1
    }
}

impl Eq for PdInstance {

}

/// The message given when libpd answers a null instance.
pub open spec fn null_instance_message() -> Seq<char> {
    "Returned instance pointer is null."@
}

/// What failing to initialize an instance answers, for the status `status` of libpd's
/// queued initialization.
pub open spec fn init_failure(status: i32, r: Result<PdInstance, InstanceError>) -> bool {
    match init_outcome(status) {
        Ok(()) => false,
        Err(e) => (r matches Err(InstanceError::InstanceFailedToCreate(message)) && message@
            == initialization_message(e)),
    }
}

/// The main instance is read: `main_instance` answers its address, it is made current, and
/// `instance_number` reads its number; `last` is the state of libpd afterwards.
pub open spec fn main_instance_read<
    W,
    M: Fn(W) -> (W, usize),
    K: Fn(W, usize) -> (W, i32),
    S: Fn(W, usize) -> W,
>(
    world: W,
    main_instance: M,
    instance_number: K,
    set_instance: S,
    r: Result<PdInstance, InstanceError>,
    last: W,
) -> bool {
    exists|w1: W, main: usize, w2: W, w3: W, number: i32|
        #![trigger call_ensures(main_instance, (world,), (w1, main)), call_ensures(set_instance, (w1, main), w2), call_ensures(instance_number, (w2, main), (w3, number))]
        call_ensures(main_instance, (world,), (w1, main)) && call_ensures(
            set_instance,
            (w1, main),
            w2,
        ) && call_ensures(instance_number, (w2, main), (w3, number)) && last == w3 && (r matches Ok(
            instance,
        ) && instance@ == (main, number))
}

/// What creating the first, main instance does, in this order: libpd is initialized, and the
/// main instance is made current and read.
pub open spec fn main_instance_created<
    W,
    I: Fn(W) -> (W, i32),
    M: Fn(W) -> (W, usize),
    K: Fn(W, usize) -> (W, i32),
    S: Fn(W, usize) -> W,
>(
    world: W,
    queued_init: I,
    main_instance: M,
    instance_number: K,
    set_instance: S,
    r: Result<PdInstance, InstanceError>,
    last: W,
) -> bool {
    exists|w1: W, status: i32|
        #[trigger] call_ensures(queued_init, (world,), (w1, status)) && if init_outcome(
            status,
        ) is Err {
            init_failure(status, r) && last == w1
        } else {
            main_instance_read(w1, main_instance, instance_number, set_instance, r, last)
        }
}

/// After the new instance at `created` was initialized: the instance at `current` is made
/// current again, and the number of the new instance is read.
pub open spec fn previous_instance_restored<W, K: Fn(W, usize) -> (W, i32), S: Fn(W, usize) -> W>(
    world: W,
    current: usize,
    created: usize,
    instance_number: K,
    set_instance: S,
    r: Result<PdInstance, InstanceError>,
    last: W,
) -> bool {
    exists|w1: W, w2: W, number: i32|
        #![trigger call_ensures(set_instance, (world, current), w1), call_ensures(instance_number, (w1, created), (w2, number))]
        call_ensures(set_instance, (world, current), w1) && call_ensures(
            instance_number,
            (w1, created),
            (w2, number),
        ) && last == w2 && (r matches Ok(instance) && instance@ == (created, number))
}

/// What initializing the new instance at `created` does, in this order: it is made current,
/// libpd is initialized for it, and on success the instance at `current` is made current
/// again. When the initialization fails, the new instance stays current.
pub open spec fn new_instance_initialized<
    W,
    I: Fn(W) -> (W, i32),
    K: Fn(W, usize) -> (W, i32),
    S: Fn(W, usize) -> W,
>(
    world: W,
    current: usize,
    created: usize,
    queued_init: I,
    instance_number: K,
    set_instance: S,
    r: Result<PdInstance, InstanceError>,
    last: W,
) -> bool {
    exists|w1: W, w2: W, status: i32|
        #![trigger call_ensures(set_instance, (world, created), w1), call_ensures(queued_init, (w1,), (w2, status))]
        call_ensures(set_instance, (world, created), w1) && call_ensures(
            queued_init,
            (w1,),
            (w2, status),
        ) && if init_outcome(status) is Err {
            init_failure(status, r) && last == w2
        } else {
            previous_instance_restored(w2, current, created, instance_number, set_instance, r, last)
        }
}

/// What creating a further instance does, in this order: libpd is asked for the current
/// instance and a new one, both of which must be there, and the new one is initialized.
pub open spec fn further_instance_created<
    W,
    I: Fn(W) -> (W, i32),
    T: Fn(W) -> (W, usize),
    N: Fn(W) -> (W, usize),
    K: Fn(W, usize) -> (W, i32),
    S: Fn(W, usize) -> W,
>(
    world: W,
    queued_init: I,
    this_instance: T,
    new_instance: N,
    instance_number: K,
    set_instance: S,
    r: Result<PdInstance, InstanceError>,
    last: W,
) -> bool {
    exists|w1: W, current: usize, w2: W, created: usize|
        #![trigger call_ensures(this_instance, (world,), (w1, current)), call_ensures(new_instance, (w1,), (w2, created))]
        call_ensures(this_instance, (world,), (w1, current)) && call_ensures(
            new_instance,
            (w1,),
            (w2, created),
        ) && if current == 0 || created == 0 {
            (r matches Err(InstanceError::InstanceFailedToCreate(message)) && message@
                == null_instance_message()) && last == w2
        } else {
            new_instance_initialized(
                w2,
                current,
                created,
                queued_init,
                instance_number,
                set_instance,
                r,
                last,
            )
        }
}

impl PdInstance {
    /// Creates a pd instance, initialized.
    ///
    /// When no instance exists yet (`instance_count` is `0`), the main instance is initialized
    /// and made current. Otherwise a new instance is created and initialized, and the instance
    /// which was current is made current again.
    ///
    /// The closures make libpd's calls: `queued_init` initializes the current instance,
    /// `main_instance`, `this_instance` and `new_instance` answer the address of the main,
    /// the current and a newly created instance (null when there is none), `instance_number`
    /// reads the number of the instance at an address, and `set_instance` makes the instance at
    /// an address current.
    ///
    /// `world` stands for the state of libpd that these calls read and change: each call takes
    /// it and hands it on, so that the contract fixes the order of the calls; the state after
    /// the last call comes back with the result. Applications pass `()`.
    pub fn new<
        W,
        I: Fn(W) -> (W, i32),
        M: Fn(W) -> (W, usize),
        T: Fn(W) -> (W, usize),
        N: Fn(W) -> (W, usize),
        K: Fn(W, usize) -> (W, i32),
        S: Fn(W, usize) -> W,
    >(
        instance_count: usize,
        world: W,
        queued_init: &I,
        main_instance: &M,
        this_instance: &T,
        new_instance: &N,
        instance_number: &K,
        set_instance: &S,
    ) -> (created: (Result<PdInstance, InstanceError>, W))
        requires
            forall|w: W| call_requires(*queued_init, (w,)),
            forall|w: W| call_requires(*main_instance, (w,)),
            forall|w: W| call_requires(*this_instance, (w,)),
            forall|w: W| call_requires(*new_instance, (w,)),
            forall|w: W, address: usize| call_requires(*instance_number, (w, address)),
            forall|w: W, address: usize| call_requires(*set_instance, (w, address)),
        ensures
            instance_count == 0 ==> main_instance_created(
                world,
                *queued_init,
                *main_instance,
                *instance_number,
                *set_instance,
                created.0,
                created.1,
            ),
            instance_count != 0 ==> further_instance_created(
                world,
                *queued_init,
                *this_instance,
                *new_instance,
                *instance_number,
                *set_instance,
                created.0,
                created.1,
            ),
    {
        let ghost w0 = world;
        if instance_count == 0 {
            let (w1, status) = queued_init(world);
            assert(call_ensures(*queued_init, (w0,), (w1, status)));
            if let Err(e) = init_result(status) {
                let r = Err(InstanceError::InstanceFailedToCreate(e.message()));
                assert(init_failure(status, r));
                return (r, w1);
            }
            let ghost g1 = w1;
            let (w2, main) = main_instance(w1);
            let ghost g2 = w2;
            let w3 = set_instance(w2, main);
            let ghost g3 = w3;
            let (w4, number) = instance_number(w3, main);
            let r = Ok(PdInstance { inner: main, number });
            assert(call_ensures(*main_instance, (g1,), (g2, main)));
            assert(call_ensures(*set_instance, (g2, main), g3));
            assert(call_ensures(*instance_number, (g3, main), (w4, number)));
            assert(main_instance_read(g1, *main_instance, *instance_number, *set_instance, r, w4));
            return (r, w4);
        }
        let (w1, current) = this_instance(world);
        let ghost g1 = w1;
        let (w2, created) = new_instance(w1);
        let ghost g2 = w2;
        assert(call_ensures(*this_instance, (w0,), (g1, current)));
        assert(call_ensures(*new_instance, (g1,), (g2, created)));
        if current == 0 || created == 0 {
            let message = "Returned instance pointer is null.";
            return (Err(InstanceError::InstanceFailedToCreate(message.to_owned())), w2);
        }
        let w3 = set_instance(w2, created);
        let ghost g3 = w3;
        let (w4, status) = queued_init(w3);
        let ghost g4 = w4;
        assert(call_ensures(*set_instance, (g2, created), g3));
        assert(call_ensures(*queued_init, (g3,), (g4, status)));
        if let Err(e) = init_result(status) {
            let r = Err(InstanceError::InstanceFailedToCreate(e.message()));
            assert(init_failure(status, r));
            return (r, w4);
        }
        let w5 = set_instance(w4, current);
        let ghost g5 = w5;
        let (w6, number) = instance_number(w5, created);
        let r = Ok(PdInstance { inner: created, number });
        assert(call_ensures(*set_instance, (g4, current), g5));
        assert(call_ensures(*instance_number, (g5, created), (w6, number)));
        assert(previous_instance_restored(g4, current, created, *instance_number, *set_instance, r, w6));
        (r, w6)
    }

    /// The address of libpd's instance.
    pub fn as_ptr(&self) -> (r: usize)
        ensures
            r == self@.0,
    {
        self.inner
    }

    /// Makes this instance the current one: `set_instance` makes libpd's call with the
    /// address of the instance.
    pub fn set_as_current<S: Fn(usize)>(&self, set_instance: &S)
        requires
            call_requires(*set_instance, (self@.0,)),
        ensures
            call_ensures(*set_instance, (self@.0,), ()),
    {
        set_instance(self.inner)
    }

    /// The number of the instance, `pd_instanceno`.
    pub fn number(&self) -> (r: i32)
        ensures
            r == self@.1,
    {
        self.number
    }

    /// Whether this is the main instance, whose number is `main_instance_number`.
    pub fn is_main_instance(&self, main_instance_number: i32) -> (r: bool)
        ensures
            r == (self@.1 == main_instance_number),
    {
        self.number == main_instance_number
    }

    /// Whether this is the current instance; `current_instance_number` is the number of the
    /// current instance, none when no instance is current.
    pub fn is_current_instance(&self, current_instance_number: Option<i32>) -> (r: bool)
        ensures
            r == (current_instance_number == Some(self@.1)),
    {
        match current_instance_number {
            None => false,
            Some(number) => number == self.number,
        }
    }
}

} // verus!
