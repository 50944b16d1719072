//! Device discovery: the stream of the addresses of the devices that are
//! connected, followed, where that is asked for, by the addresses of the
//! devices that are plugged in later.

use vstd::prelude::*;

use crate::device::Address;
use crate::io_blocker::read_events;
use crate::io_blocker::CtlRequest;
use crate::io_blocker::IoBlocker;
use crate::io_blocker::ReactorError;
use crate::io_blocker::ReactorState;
use crate::io_blocker::Removal;
use crate::io_blocker::READ_EVENTS;

verus! {

/// What a poll of a monitor came to, and what it leaves for the caller to
/// do.
#[derive(Debug)]
pub enum MonitorPoll {
    /// The address of a device.
    Found(Address),
    /// The monitor could not start to watch for new devices.
    Failed(ReactorError),
    /// All connected devices were reported, and no watch was asked for:
    /// the stream has ended.
    Finished,
    /// No new device was found. The callback is stored with the reactor,
    /// and the task suspends until it is invoked.
    Pending,
    /// All connected devices were reported and the watch for new ones has
    /// begun. The caller passes the request to the kernel and polls again
    /// at once, so that a device that was found meanwhile is not lost.
    Watching(CtlRequest),
}

/// What a step of a monitor that is read without a reactor came to.
#[derive(Debug)]
pub enum MonitorNext {
    /// The address of a device.
    Found(Address),
    /// All connected devices were reported, and no watch was asked for:
    /// the stream has ended.
    Finished,
    /// All connected devices were reported. The caller asks the source
    /// again, and waits there until a device is plugged in.
    Again,
}

/// What a monitor holds, as contracts speak of it.
pub struct MonitorState {
    /// The descriptor on which new devices are announced. It is present
    /// only where the monitor is asked to watch for them.
    pub fd: Option<i32>,
    /// Whether all connected devices were reported.
    pub enumerated: bool,
    /// Whether the interest in the descriptor is registered with the
    /// reactor.
    pub have_interest: bool,
}

impl MonitorState {
    /// A monitor holds an interest only while it watches: after the
    /// enumeration, and with a descriptor to watch.
    pub open spec fn wf(self) -> bool {
        self.have_interest ==> self.enumerated && self.fd is Some
    }

    /// The monitor as it starts: nothing is reported yet, and no interest
    /// is registered.
    pub open spec fn start(fd: Option<i32>) -> Self {
        MonitorState { fd, enumerated: false, have_interest: false }
    }

    /// Whether the monitor has ended: all connected devices were reported
    /// and there is nothing to watch. The source is not asked again once
    /// it has.
    pub open spec fn done(self) -> bool {
        self.enumerated && self.fd is None
    }

    /// What a poll answers to which the source gave `polled`, the address
    /// of the next device or nothing.
    pub open spec fn poll_result<W>(
        self,
        reactor: ReactorState<W>,
        polled: Option<Address>,
    ) -> MonitorPoll {
        if self.enumerated {
            match (self.fd, polled) {
                (None, _) => MonitorPoll::Finished,
                (Some(_), Some(address)) => MonitorPoll::Found(address),
                (Some(_), None) => MonitorPoll::Pending,
            }
        } else {
            match (polled, self.fd) {
                (Some(address), _) => MonitorPoll::Found(address),
                (None, None) => MonitorPoll::Finished,
                (None, Some(fd)) => match reactor.add_result(fd, READ_EVENTS) {
                    Ok(request) => MonitorPoll::Watching(request),
                    Err(e) => MonitorPoll::Failed(e),
                },
            }
        }
    }

    /// The monitor after a poll: the enumeration is over once the source
    /// gave nothing, and the interest is held once the reactor accepted
    /// it.
    pub open spec fn after_poll<W>(self, reactor: ReactorState<W>, polled: Option<Address>) -> Self {
        if !self.enumerated && polled is None {
            MonitorState {
                fd: self.fd,
                enumerated: true,
                have_interest: self.have_interest || (self.fd matches Some(fd) && reactor.add_result(
                    fd,
                    READ_EVENTS,
                ) is Ok),
            }
        } else {
            self
        }
    }

    /// The reactor after a poll: with the interest of the monitor where
    /// the enumeration gave way to the watch, with `waker` waiting on the
    /// descriptor where the watch found nothing, and as before otherwise.
    pub open spec fn reactor_after_poll<W>(
        self,
        reactor: ReactorState<W>,
        waker: W,
        polled: Option<Address>,
    ) -> ReactorState<W> {
        match (polled, self.fd) {
            (None, Some(fd)) => if self.enumerated {
                reactor.after_callback(fd, waker)
            } else {
                reactor.after_add(fd, READ_EVENTS)
            },
            _ => reactor,
        }
    }

    /// What a step without a reactor answers to which the source gave
    /// `polled`: the address that the source gave, and else the end of the
    /// stream or, where the monitor watches, the request to ask again.
    pub open spec fn next_result(self, polled: Option<Address>) -> MonitorNext {
        if self.done() {
            MonitorNext::Finished
        } else {
            match (polled, self.fd) {
                (Some(address), _) => MonitorNext::Found(address),
                (None, Some(_)) => MonitorNext::Again,
                (None, None) => MonitorNext::Finished,
            }
        }
    }

    /// The monitor after a step without a reactor: the enumeration is
    /// over once the source gave nothing.
    pub open spec fn after_next(self, polled: Option<Address>) -> Self {
        if polled is None {
            MonitorState { fd: self.fd, enumerated: true, have_interest: self.have_interest }
        } else {
            self
        }
    }

    /// What the removal of the monitor's interest answers: nothing to do
    /// where the monitor holds none, and else what the reactor answers.
    pub open spec fn remove_result<W>(self, reactor: ReactorState<W>) -> Result<
        Option<Removal<W>>,
        ReactorError,
    > {
        match self.fd {
            Some(fd) => if self.have_interest {
                match reactor.remove_result(fd, READ_EVENTS) {
                    Ok(removal) => Ok(Some(removal)),
                    Err(e) => Err(e),
                }
            } else {
                Ok(None)
            },
            None => Ok(None),
        }
    }

    /// The monitor after the removal of its interest: it holds none.
    pub open spec fn after_remove(self) -> Self {
        MonitorState { fd: self.fd, enumerated: self.enumerated, have_interest: false }
    }

    /// The reactor after the removal of the monitor's interest.
    pub open spec fn reactor_after_remove<W>(self, reactor: ReactorState<W>) -> ReactorState<W> {
        match self.fd {
            Some(fd) => if self.have_interest {
                reactor.after_remove(fd, READ_EVENTS)
            } else {
                reactor
            },
            None => reactor,
        }
    }

    /// Whether the reactor holds the interest that the monitor counts on.
    pub open spec fn registered_in<W>(self, reactor: ReactorState<W>) -> bool {
        self.have_interest ==> (self.fd matches Some(fd) && fd >= 0 && reactor.interests.contains(
            fd,
        ))
    }

    /// A monitor holds an interest exactly while it watches, and stays
    /// registered with its reactor through every poll, as long as nothing
    /// else removes its interest. So the removal of its interest cannot
    /// fail when the monitor is given up.
    pub proof fn lemma_removal_never_fails<W>(
        self,
        reactor: ReactorState<W>,
        waker: W,
        polled: Option<Address>,
    )
        requires
            self.wf(),
            self.registered_in(reactor),
        ensures
            self.after_poll(reactor, polled).wf(),
            self.after_poll(reactor, polled).registered_in(
                self.reactor_after_poll(reactor, waker, polled),
            ),
            self.remove_result(reactor) is Ok,
            self.after_remove().wf(),
            self.after_remove().registered_in(self.reactor_after_remove(reactor)),
            Self::start(self.fd).wf() && Self::start(self.fd).registered_in(reactor),
    {
    }

    /// While the source gives addresses the monitor hands each of them on
    /// and stays as it is: it reports the devices in the order in which the
    /// source names them, however many there are, and touches no reactor.
    pub proof fn lemma_addresses_pass_through<W>(
        self,
        reactor: ReactorState<W>,
        waker: W,
        address: Address,
    )
        requires
            !self.done(),
        ensures
            self.poll_result(reactor, Some(address)) == MonitorPoll::Found(address),
            self.after_poll(reactor, Some(address)) == self,
            self.reactor_after_poll(reactor, waker, Some(address)) == reactor,
    {
    }

    /// A monitor that does not watch ends with the enumeration: the first
    /// poll for which the source gives nothing ends the stream, and from
    /// then on the monitor is done, whatever it is handed.
    pub proof fn lemma_enumeration_ends<W>(
        self,
        reactor: ReactorState<W>,
        waker: W,
        later: Option<Address>,
    )
        requires
            self.fd is None,
            !self.enumerated,
        ensures
            self.poll_result(reactor, None) == MonitorPoll::Finished,
            self.after_poll(reactor, None).done(),
            self.reactor_after_poll(reactor, waker, None) == reactor,
            self.after_poll(reactor, None).poll_result(reactor, later) == MonitorPoll::Finished,
            self.after_poll(reactor, None).after_poll(reactor, later) == self.after_poll(
                reactor,
                None,
            ),
    {
    }

    /// A monitor that watches never ends. When the enumeration is over it
    /// registers its interest and asks to be polled again; from then on a
    /// poll for which the source gives nothing suspends the task with its
    /// callback waiting on the descriptor, and a poll for which the source
    /// gives an address hands it on.
    pub proof fn lemma_watch_follows_enumeration<W>(
        self,
        fd: i32,
        reactor: ReactorState<W>,
        waker: W,
        address: Address,
    )
        requires
            self.fd == Some(fd),
            !self.enumerated,
            !self.have_interest,
            fd >= 0,
            !reactor.interests.contains(fd),
        ensures
            self.poll_result(reactor, None) is Watching,
            ({
                let watching = self.after_poll(reactor, None);
                let registered = self.reactor_after_poll(reactor, waker, None);
                &&& watching.enumerated && watching.have_interest && !watching.done()
                &&& registered.interests.contains(fd)
                &&& watching.poll_result(registered, None) == MonitorPoll::Pending
                &&& watching.reactor_after_poll(registered, waker, None).wakers.contains_key(fd)
                &&& watching.reactor_after_poll(registered, waker, None).wakers[fd] == waker
                &&& watching.after_poll(registered, None) == watching
                &&& watching.poll_result(registered, Some(address)) == MonitorPoll::Found(address)
            }),
    {
    }
}

/// Enumerates the addresses of connected Wii Remotes and optionally streams
/// device addresses as new devices are discovered. An address may be
/// returned multiple times.
///
/// The stream ends only if discovery is disabled and all connected devices
/// have been returned.
///
/// A monitor asks nothing of the system itself. While
/// [`Monitor::is_done`] is false the caller asks the source for the next
/// address and hands the answer to [`Monitor::poll_next`].
#[derive(Debug)]
pub struct Monitor {
    // The file descriptor used by the monitor, only present in discovery
    // mode to monitor for hot-plug events.
    fd: Option<i32>,
    // Have we returned all the connected devices?
    enumerated: bool,
    // Is the interest in the descriptor registered?
    have_interest: bool,
}

impl View for Monitor {
    type V = MonitorState;

    closed spec fn view(&self) -> MonitorState {
        MonitorState { fd: self.fd, enumerated: self.enumerated, have_interest: self.have_interest }
    }
}

impl Monitor {
    /// Creates a monitor that first streams the connected devices'
    /// addresses and, if `fd` is present, then listens on it for hot-plug
    /// events, streaming the new addresses.
    pub fn new(fd: Option<i32>) -> (monitor: Monitor)
        ensures
            monitor@ == MonitorState::start(fd),
    {
        Monitor { fd, enumerated: false, have_interest: false }
    }

    /// Creates a monitor over the addresses of all connected devices.
    pub fn enumerate() -> (monitor: Monitor)
        ensures
            monitor@ == MonitorState::start(None),
    {
        Self::new(None)
    }

    /// Creates a monitor that goes first over the addresses of all
    /// connected devices, and then over the addresses of the devices that
    /// are announced on `fd`.
    pub fn discover(fd: i32) -> (monitor: Monitor)
        ensures
            monitor@ == MonitorState::start(Some(fd)),
    {
        Self::new(Some(fd))
    }

    /// Tells whether the stream has ended. The source is not asked for
    /// another address once it has.
    pub fn is_done(&self) -> (done: bool)
        ensures
            done == self@.done(),
    {
        self.enumerated && self.fd.is_none()
    }

    /// Takes the monitor one step on: `polled` is what the source gave
    /// when it was asked for the next address. `waker` is the callback of
    /// the task that polls; it is stored only where the task has to wait.
    pub fn poll_next<W>(
        &mut self,
        blocker: &mut IoBlocker<W>,
        waker: W,
        polled: Option<Address>,
    ) -> (poll: MonitorPoll)
        ensures
            poll == old(self)@.poll_result(old(blocker)@, polled),
            final(self)@ == old(self)@.after_poll(old(blocker)@, polled),
            final(blocker)@ == old(self)@.reactor_after_poll(old(blocker)@, waker, polled),
            old(blocker)@.wf() ==> final(blocker)@.wf(),
            old(self)@.wf() ==> final(self)@.wf(),
    {
        if self.enumerated {
            // Discover devices only if the descriptor is present.
            // Otherwise, the enumeration was all there is.
            let fd = match self.fd {
                Some(fd) => fd,
                None => {
                    return MonitorPoll::Finished;
                },
            };
            match polled {
                Some(address) => MonitorPoll::Found(address),
                None => {
                    // No new device is available: have the task woken
                    // once one is found.
                    blocker.set_callback(fd, waker);
                    MonitorPoll::Pending
                },
            }
        } else {
            match polled {
                Some(address) => MonitorPoll::Found(address),
                None => {
                    // The source gave nothing for the first time: the
                    // enumeration is complete.
                    self.enumerated = true;
                    match self.fd {
                        Some(fd) => {
                            // Listen for hot-plug events on the monitor
                            // descriptor.
                            match blocker.add_interest(fd, read_events()) {
                                Ok(request) => {
                                    self.have_interest = true;
                                    MonitorPoll::Watching(request)
                                },
                                Err(why) => MonitorPoll::Failed(why),
                            }
                        },
                        None => MonitorPoll::Finished,
                    }
                },
            }
        }
    }

    /// Takes the monitor one step on for a caller that waits in the
    /// source instead of suspending: `polled` is what the source gave when
    /// it was asked for the next address. No reactor takes part.
    pub fn next(&mut self, polled: Option<Address>) -> (step: MonitorNext)
        ensures
            step == old(self)@.next_result(polled),
            final(self)@ == old(self)@.after_next(polled),
    {
        if self.fd.is_none() && self.enumerated {
            // Already enumerated all connected devices.
            return MonitorNext::Finished;
        }
        match polled {
            Some(address) => MonitorNext::Found(address),
            None => {
                // After all connected devices are returned, the source
                // gives nothing once.
                self.enumerated = true;
                if self.fd.is_some() {
                    MonitorNext::Again
                } else {
                    MonitorNext::Finished
                }
            },
        }
    }

    /// Removes the interest of the monitor, if it holds one. This is what
    /// remains to do for a monitor that is given up.
    pub fn remove_interest<W>(&mut self, blocker: &mut IoBlocker<W>) -> (removal: Result<
        Option<Removal<W>>,
        ReactorError,
    >)
        ensures
            removal == old(self)@.remove_result(old(blocker)@),
            final(self)@ == old(self)@.after_remove(),
            final(blocker)@ == old(self)@.reactor_after_remove(old(blocker)@),
            old(blocker)@.wf() ==> final(blocker)@.wf(),
    {
        let held = self.have_interest;
        self.have_interest = false;
        match self.fd {
            Some(fd) => if held {
                match blocker.remove_interest(fd, read_events()) {
                    Ok(removal) => Ok(Some(removal)),
                    Err(e) => Err(e),
                }
            } else {
                Ok(None)
            },
            None => Ok(None),
        }
    }
}

} // verus!
