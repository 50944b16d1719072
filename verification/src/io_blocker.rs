//! The reactor: the record of which descriptors are watched for readiness
//! and of the callback that waits on each.
//!
//! The reactor decides; it makes no system call. An operation that changes
//! what the kernel watches hands back the request that the caller passes to
//! the kernel, and an operation that wakes a task hands back the callback
//! that the caller invokes. A callback leaves the reactor when it is handed
//! out, so none can be invoked twice.

use std::collections::HashMap;
use std::collections::HashSet;
use vstd::prelude::*;

use crate::sys::epoll_ctl_add;
use crate::sys::epoll_ctl_del;
use crate::sys::epollet;
use crate::sys::epollhup;
use crate::sys::epollin;
use crate::sys::epollpri;

verus! {

/// The event argument of a readiness call: the flags that are watched or
/// that became ready, and the word that the kernel hands back with them.
#[derive(Copy, Clone, Debug, PartialEq, Eq)]
pub struct EpollEvent {
    /// Readiness flags.
    pub events: u32,
    /// The word that identifies the descriptor.
    pub data: u64,
}

/// A change to the set of descriptors that the kernel watches, for the
/// caller to perform.
#[derive(Copy, Clone, Debug, PartialEq, Eq)]
pub struct CtlRequest {
    /// The operation: 1 registers the descriptor, 2 removes it.
    pub op: i32,
    /// The descriptor that the operation is about.
    pub fd: i32,
    /// The flags to watch, edge-triggered, and the descriptor as the word
    /// to hand back.
    pub event: EpollEvent,
}

/// Why the reactor refused an operation.
#[derive(Copy, Clone, Debug, PartialEq, Eq)]
pub enum ReactorError {
    /// The descriptor is negative, so it names no open file.
    BadDescriptor,
    /// An interest is already registered for the descriptor.
    AlreadyRegistered,
    /// No interest is registered for the descriptor.
    NotRegistered,
}

/// What the removal of an interest leaves for the caller to do.
#[derive(Debug)]
pub struct Removal<W> {
    /// The request that makes the kernel stop watching the descriptor.
    pub request: CtlRequest,
    /// The callback that was waiting on the descriptor, to be invoked now.
    pub waker: Option<W>,
}

/// The operation code that registers a descriptor.
pub const CTL_ADD: i32 = 1;

/// The operation code that removes a descriptor.
pub const CTL_DEL: i32 = 2;

/// The readiness flags of a descriptor that has something to deliver: data,
/// urgent data, or the news that its other end hung up.
pub const READ_EVENTS: i32 = 0x13;

/// Returns the flags that a stream watches on its descriptor.
pub fn read_events() -> (flags: i32)
    ensures
        flags == READ_EVENTS,
{
    let readable = epollin();
    let hung_up = epollhup();
    let urgent = epollpri();
    assert(0x1i32 | 0x10i32 | 0x2i32 == 0x13i32) by (bit_vector);
    readable | hung_up | urgent
}

/// The descriptor that a ready event is about: the low half of its word.
pub open spec fn ready_fd(event: EpollEvent) -> i32 {
    event.data as i32
}

/// The request that carries out `op` on `fd`: it watches `events`
/// edge-triggered and has the kernel hand `fd` back.
pub open spec fn ctl_request(op: i32, fd: i32, events: i32) -> CtlRequest {
    CtlRequest { op, fd, event: EpollEvent { events: (events | i32::MIN) as u32, data: fd as u64 } }
}

/// The descriptors whose callbacks fire when `events` are reported while
/// callbacks wait on `pending`: each descriptor of `pending` that occurs
/// among the events, once, in the order of first occurrence.
pub open spec fn fired(pending: Set<i32>, events: Seq<EpollEvent>) -> Seq<i32>
    decreases events.len(),
{
    if events.len() == 0 {
        Seq::empty()
    } else {
        let before = fired(pending, events.drop_last());
        let fd = ready_fd(events.last());
        if pending.contains(fd) && !before.contains(fd) {
            before.push(fd)
        } else {
            before
        }
    }
}

/// A callback fires at most once per batch of events, only if it was
/// waiting, and always if its descriptor is among the events.
pub proof fn lemma_fired(pending: Set<i32>, events: Seq<EpollEvent>)
    ensures
        fired(pending, events).no_duplicates(),
        fired(pending, events).len() <= events.len(),
        forall|fd: i32| #[trigger]
            fired(pending, events).contains(fd) <==> pending.contains(fd) && exists|i: int|
                0 <= i < events.len() && ready_fd(#[trigger] events[i]) == fd,
    decreases events.len(),
{
    if events.len() > 0 {
        let init = events.drop_last();
        let before = fired(pending, init);
        let last = ready_fd(events.last());
        lemma_fired(pending, init);
        assert forall|fd: i32| #[trigger]
            fired(pending, events).contains(fd) <==> pending.contains(fd) && exists|i: int|
                0 <= i < events.len() && ready_fd(#[trigger] events[i]) == fd by {
            let now = fired(pending, events);
            if now.contains(fd) {
                if before.contains(fd) {
                    let i = choose|i: int| 0 <= i < init.len() && ready_fd(#[trigger] init[i]) == fd;
                    assert(ready_fd(events[i]) == fd);
                } else {
                    let k = choose|k: int| 0 <= k < now.len() && now[k] == fd;
                    if k < before.len() {
                        assert(before[k] == fd);
                    }
                    assert(fd == last);
                    assert(ready_fd(events[events.len() - 1]) == fd);
                }
            }
            if pending.contains(fd) && exists|i: int|
                0 <= i < events.len() && ready_fd(#[trigger] events[i]) == fd {
                let i = choose|i: int| 0 <= i < events.len() && ready_fd(#[trigger] events[i]) == fd;
                if i < init.len() {
                    assert(ready_fd(init[i]) == fd);
                    assert(before.contains(fd));
                    let k = choose|k: int| 0 <= k < before.len() && before[k] == fd;
                    assert(now[k] == fd);
                } else {
                    assert(fd == last);
                    if before.contains(fd) {
                        let k = choose|k: int| 0 <= k < before.len() && before[k] == fd;
                        assert(now[k] == fd);
                    } else {
                        assert(now[now.len() - 1] == fd);
                    }
                }
            }
        }
    }
}

/// What a reactor holds, as contracts speak of it.
pub struct ReactorState<W> {
    /// The descriptors for which an interest is registered.
    pub interests: Set<i32>,
    /// The callback that waits on each descriptor, where there is one.
    pub wakers: Map<i32, W>,
}

impl<W> ReactorState<W> {
    /// A reactor watches open files only, and a negative number names
    /// none.
    pub open spec fn wf(self) -> bool {
        forall|fd: i32| self.interests.contains(fd) ==> fd >= 0
    }

    /// The state of a reactor that watches nothing and holds no callback.
    pub open spec fn empty() -> Self {
        ReactorState { interests: Set::empty(), wakers: Map::empty() }
    }

    /// What a registration of `fd` answers: the request for the kernel,
    /// unless the descriptor is negative or already registered.
    pub open spec fn add_result(self, fd: i32, events: i32) -> Result<CtlRequest, ReactorError> {
        if fd < 0 {
            Err(ReactorError::BadDescriptor)
        } else if self.interests.contains(fd) {
            Err(ReactorError::AlreadyRegistered)
        } else {
            Ok(ctl_request(CTL_ADD, fd, events))
        }
    }

    /// The state after a registration of `fd`: the descriptor is
    /// registered if the registration was accepted, and nothing changed
    /// if it was refused.
    pub open spec fn after_add(self, fd: i32, events: i32) -> Self {
        if self.add_result(fd, events) is Ok {
            ReactorState { interests: self.interests.insert(fd), wakers: self.wakers }
        } else {
            self
        }
    }

    /// The callback that waits on `fd`, if there is one.
    pub open spec fn waiting(self, fd: i32) -> Option<W> {
        if self.wakers.contains_key(fd) {
            Some(self.wakers[fd])
        } else {
            None
        }
    }

    /// What a removal of the interest in `fd` answers: the request for
    /// the kernel and the callback that waited on `fd`, unless the
    /// descriptor is negative or not registered.
    pub open spec fn remove_result(self, fd: i32, events: i32) -> Result<Removal<W>, ReactorError> {
        if fd < 0 {
            Err(ReactorError::BadDescriptor)
        } else if !self.interests.contains(fd) {
            Err(ReactorError::NotRegistered)
        } else {
            Ok(Removal { request: ctl_request(CTL_DEL, fd, events), waker: self.waiting(fd) })
        }
    }

    /// The state after a removal of the interest in `fd`: neither the
    /// interest nor a callback for `fd` is left if the removal was
    /// accepted, and nothing changed if it was refused.
    pub open spec fn after_remove(self, fd: i32, events: i32) -> Self {
        if self.remove_result(fd, events) is Ok {
            ReactorState { interests: self.interests.remove(fd), wakers: self.wakers.remove(fd) }
        } else {
            self
        }
    }

    /// The state after `waker` was stored for `fd`, in place of any
    /// callback that waited on `fd` before.
    pub open spec fn after_callback(self, fd: i32, waker: W) -> Self {
        ReactorState { interests: self.interests, wakers: self.wakers.insert(fd, waker) }
    }

    /// The callbacks that `events` wake, in the order in which their
    /// descriptors are first reported.
    pub open spec fn woken(self, events: Seq<EpollEvent>) -> Seq<W> {
        fired(self.wakers.dom(), events).map_values(|fd: i32| self.wakers[fd])
    }

    /// The state after `events` were reported: the callbacks that they
    /// woke have left, and the interests stay.
    pub open spec fn after_wake(self, events: Seq<EpollEvent>) -> Self {
        ReactorState {
            interests: self.interests,
            wakers: self.wakers.remove_keys(fired(self.wakers.dom(), events).to_set()),
        }
    }

    /// A descriptor holds at most one interest: a registration that
    /// follows another of the same descriptor, with no removal between the
    /// two, is refused, and the registration that was accepted stays.
    pub proof fn lemma_second_interest_fails(self, fd: i32, first: i32, second: i32)
        ensures
            self.after_add(fd, first).add_result(fd, second) is Err,
            self.add_result(fd, first) is Ok ==> self.after_add(fd, first).add_result(fd, second)
                == Err::<CtlRequest, ReactorError>(ReactorError::AlreadyRegistered),
            self.after_add(fd, first).after_add(fd, second) == self.after_add(fd, first),
    {
    }

    /// The removal of a registered interest hands out the callback that
    /// waits on its descriptor, and with that the callback has left the
    /// reactor: no later removal and no later report of readiness hands
    /// it out again.
    pub proof fn lemma_removal_wakes_once(self, fd: i32, events: i32)
        requires
            self.wf(),
            self.interests.contains(fd),
            self.wakers.contains_key(fd),
        ensures
            self.remove_result(fd, events) matches Ok(removal) && removal.waker == Some(
                self.wakers[fd],
            ),
            !self.after_remove(fd, events).wakers.contains_key(fd),
            forall|again: i32| #[trigger]
                self.after_remove(fd, events).remove_result(fd, again) is Err,
            forall|ready: Seq<EpollEvent>| !(#[trigger] fired(
                self.after_remove(fd, events).wakers.dom(),
                ready,
            )).contains(fd),
    {
        let after = self.after_remove(fd, events);
        assert forall|ready: Seq<EpollEvent>| !(#[trigger] fired(after.wakers.dom(), ready)).contains(
            fd,
        ) by {
            lemma_fired(after.wakers.dom(), ready);
        }
    }

    /// The last callback wins: a callback that is stored for a descriptor
    /// takes the place of the one that waited there, which is then neither
    /// kept nor handed out.
    pub proof fn lemma_last_callback_wins(self, fd: i32, first: W, second: W)
        ensures
            self.after_callback(fd, first).after_callback(fd, second) == self.after_callback(
                fd,
                second,
            ),
            self.after_callback(fd, first).after_callback(fd, second).waiting(fd) == Some(second),
    {
        assert(self.wakers.insert(fd, first).insert(fd, second) =~= self.wakers.insert(fd, second));
    }

    /// The removal of an interest that is not registered is refused and
    /// changes nothing, whatever was removed before: an interest cannot be
    /// removed twice.
    pub proof fn lemma_second_removal_fails(self, fd: i32, first: i32, second: i32)
        ensures
            self.after_remove(fd, first).remove_result(fd, second) is Err,
            self.after_remove(fd, first).after_remove(fd, second) == self.after_remove(fd, first),
    {
    }
}

/// The reactor's record: the descriptors with a registered interest, and
/// for each descriptor at most one callback that waits on it.
pub struct IoBlocker<W> {
    interests: HashSet<i32>,
    wakers: HashMap<i32, W>,
}

impl<W> View for IoBlocker<W> {
    type V = ReactorState<W>;

    closed spec fn view(&self) -> ReactorState<W> {
        ReactorState { interests: self.interests@, wakers: self.wakers@ }
    }
}

impl<W> IoBlocker<W> {
    /// Creates a reactor that watches nothing and holds no callback.
    pub fn new() -> (blocker: Self)
        ensures
            blocker@ == ReactorState::<W>::empty(),
            blocker@.wf(),
    {
        IoBlocker { interests: HashSet::new(), wakers: HashMap::new() }
    }

    /// Tells whether an interest is registered for `fd`.
    pub fn is_registered(&self, fd: i32) -> (registered: bool)
        ensures
            registered == self@.interests.contains(fd),
    {
        broadcast use vstd::std_specs::hash::group_hash_axioms;

        self.interests.contains(&fd)
    }

    /// Tells whether a callback waits on `fd`.
    pub fn has_callback(&self, fd: i32) -> (waiting: bool)
        ensures
            waiting == self@.wakers.contains_key(fd),
    {
        broadcast use vstd::std_specs::hash::group_hash_axioms;

        self.wakers.contains_key(&fd)
    }

    /// Builds the request that carries out `op` on `fd` with the given
    /// flags, edge-triggered, so that whoever is woken must read all that
    /// the descriptor holds. A negative descriptor is refused.
    pub fn ctl_interest(op: i32, fd: i32, events: i32) -> (request: Result<
        CtlRequest,
        ReactorError,
    >)
        ensures
            fd < 0 ==> request == Err::<CtlRequest, ReactorError>(ReactorError::BadDescriptor),
            fd >= 0 ==> request == Ok::<CtlRequest, ReactorError>(ctl_request(op, fd, events)),
    {
        if fd < 0 {
            return Err(ReactorError::BadDescriptor);
        }
        let flags = events | epollet();
        let event = EpollEvent { events: #[verifier::truncate] (flags as u32), data: fd as u64 };
        Ok(CtlRequest { op, fd, event })
    }

    /// Expresses an interest in the given readiness flags of `fd`.
    ///
    /// A descriptor holds at most one interest: a second registration is
    /// refused and changes nothing. On success the caller passes the
    /// request to the kernel, and withdraws the interest again if the
    /// kernel refuses it.
    pub fn add_interest(&mut self, fd: i32, events: i32) -> (request: Result<
        CtlRequest,
        ReactorError,
    >)
        ensures
            request == old(self)@.add_result(fd, events),
            final(self)@ == old(self)@.after_add(fd, events),
            old(self)@.wf() ==> final(self)@.wf(),
    {
        broadcast use vstd::std_specs::hash::group_hash_axioms;

        let request = Self::ctl_interest(epoll_ctl_add(), fd, events)?;
        if self.interests.contains(&fd) {
            return Err(ReactorError::AlreadyRegistered);
        }
        self.interests.insert(fd);
        Ok(request)
    }

    /// Removes the interest in `fd`, and hands out the callback that waits
    /// on it, if there is one, so that no task stays suspended on a
    /// descriptor that will never be reported again.
    ///
    /// Where no interest is registered the call is refused and changes
    /// nothing. On success the caller passes the request to the kernel and
    /// invokes the callback.
    pub fn remove_interest(&mut self, fd: i32, events: i32) -> (removal: Result<
        Removal<W>,
        ReactorError,
    >)
        ensures
            removal == old(self)@.remove_result(fd, events),
            final(self)@ == old(self)@.after_remove(fd, events),
            old(self)@.wf() ==> final(self)@.wf(),
    {
        broadcast use vstd::std_specs::hash::group_hash_axioms;

        let request = Self::ctl_interest(epoll_ctl_del(), fd, events)?;
        if !self.interests.remove(&fd) {
            assert(self.interests@ =~= old(self).interests@);
            return Err(ReactorError::NotRegistered);
        }
        let waker = self.wakers.remove(&fd);
        Ok(Removal { request, waker })
    }

    /// Stores the callback to invoke once `fd` becomes ready. It replaces
    /// the callback that waited on `fd` before, if there was one.
    ///
    /// The task that is woken is expected to read all that `fd` holds:
    /// the descriptor is watched edge-triggered and is not reported again
    /// for data that was left behind.
    pub fn set_callback(&mut self, fd: i32, waker: W)
        ensures
            final(self)@ == old(self)@.after_callback(fd, waker),
            old(self)@.wf() ==> final(self)@.wf(),
    {
        broadcast use vstd::std_specs::hash::group_hash_axioms;

        self.wakers.insert(fd, waker);
        assert(self@.interests == old(self)@.interests);
    }

    /// Takes the callbacks of the descriptors that `events` report ready,
    /// for the caller to invoke: each leaves the reactor, so a descriptor
    /// that is reported twice wakes its task once.
    pub fn wake_ready(&mut self, events: &Vec<EpollEvent>) -> (woken: Vec<W>)
        ensures
            woken@ == old(self)@.woken(events@),
            final(self)@ == old(self)@.after_wake(events@),
            old(self)@.wf() ==> final(self)@.wf(),
    {
        broadcast use vstd::std_specs::hash::group_hash_axioms;

        let ghost before = self.wakers@;
        let ghost pending = self.wakers@.dom();
        let mut woken: Vec<W> = Vec::new();
        let mut i: usize = 0;
        while i < events.len()
            invariant
                i <= events.len(),
                pending == before.dom(),
                self.interests == old(self).interests,
                woken@ == fired(pending, events@.take(i as int)).map_values(|fd: i32| before[fd]),
                self.wakers@ == before.remove_keys(fired(pending, events@.take(i as int)).to_set()),
            decreases events.len() - i,
        {
            let ghost so_far = fired(pending, events@.take(i as int));
            let ghost batch = events@.take(i + 1);
            let fd = #[verifier::truncate] (events[i].data as i32);
            proof {
                assert(batch.drop_last() =~= events@.take(i as int));
                assert(ready_fd(batch.last()) == fd);
                assert(self.wakers@.contains_key(fd) <==> pending.contains(fd) && !so_far.contains(
                    fd,
                ));
            }
            if let Some(waker) = self.wakers.remove(&fd) {
                woken.push(waker);
                proof {
                    assert(fired(pending, batch) == so_far.push(fd));
                    assert(woken@ =~= so_far.push(fd).map_values(|fd: i32| before[fd]));
                    so_far.lemma_push_to_set_commute(fd);
                    assert(self.wakers@ =~= before.remove_keys(so_far.push(fd).to_set()));
                }
            } else {
                proof {
                    assert(fired(pending, batch) == so_far);
                    assert(self.wakers@ =~= before.remove_keys(so_far.to_set()));
                }
            }
            i += 1;
        }
        assert(events@.take(events.len() as int) =~= events@);
        assert(self@.interests == old(self)@.interests);
        woken
    }
}

} // verus!
