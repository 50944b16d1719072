use std::path::PathBuf;
use xwiimote::io_blocker::EpollEvent;
use xwiimote::io_blocker::ReactorError;
use xwiimote::monitor::MonitorNext;
use xwiimote::monitor::MonitorPoll;
use xwiimote::Address;
use xwiimote::IoBlocker;
use xwiimote::Monitor;

const FD: i32 = 21;

fn address(name: &str) -> Address {
    Address::from(PathBuf::from(name))
}

fn found(poll: MonitorPoll) -> PathBuf {
    match poll {
        MonitorPoll::Found(address) => address.path().clone(),
        other => panic!("no address: {:?}", other),
    }
}

#[test]
fn create_monitor() {
    Monitor::enumerate();
}

#[test]
fn an_address_keeps_its_path() {
    let a = address("/sys/bus/hid/devices/0005:057E:0306.0001");
    assert_eq!(a.path(), &PathBuf::from("/sys/bus/hid/devices/0005:057E:0306.0001"));
    assert_eq!(a.clone().path(), a.path());
}

#[test]
fn enumeration_yields_the_known_devices_and_ends() {
    let mut blocker: IoBlocker<u32> = IoBlocker::new();
    let mut monitor = Monitor::new(None);
    assert!(!monitor.is_done());
    assert_eq!(found(monitor.poll_next(&mut blocker, 1, Some(address("A")))), PathBuf::from("A"));
    assert!(!monitor.is_done());
    assert_eq!(found(monitor.poll_next(&mut blocker, 1, Some(address("B")))), PathBuf::from("B"));
    assert!(!monitor.is_done());
    assert!(matches!(monitor.poll_next(&mut blocker, 1, None), MonitorPoll::Finished));
    assert!(monitor.is_done());
    // The end is final, and the reactor was never touched.
    assert!(matches!(
        monitor.poll_next(&mut blocker, 1, Some(address("C"))),
        MonitorPoll::Finished
    ));
    assert!(matches!(monitor.poll_next(&mut blocker, 1, None), MonitorPoll::Finished));
    assert!(monitor.is_done());
    assert!(!blocker.has_callback(FD));
    assert!(!blocker.is_registered(FD));
}

#[test]
fn discovery_yields_the_known_devices_and_then_watches() {
    let mut blocker: IoBlocker<u32> = IoBlocker::new();
    let mut monitor = Monitor::discover(FD);
    assert_eq!(found(monitor.poll_next(&mut blocker, 1, Some(address("A")))), PathBuf::from("A"));
    assert_eq!(found(monitor.poll_next(&mut blocker, 1, Some(address("B")))), PathBuf::from("B"));
    assert!(!blocker.is_registered(FD));
    // The enumeration is over: the watch begins and the source is asked
    // again at once.
    match monitor.poll_next(&mut blocker, 1, None) {
        MonitorPoll::Watching(request) => {
            assert_eq!(request.op, libc::EPOLL_CTL_ADD);
            assert_eq!(request.fd, FD);
            assert_eq!(
                request.event.events,
                (libc::EPOLLIN | libc::EPOLLHUP | libc::EPOLLPRI | libc::EPOLLET) as u32
            );
        }
        other => panic!("not watching: {:?}", other),
    }
    assert!(blocker.is_registered(FD));
    assert!(!monitor.is_done());
    // Nothing yet: the task suspends until the descriptor is ready.
    assert!(matches!(monitor.poll_next(&mut blocker, 5, None), MonitorPoll::Pending));
    assert!(blocker.has_callback(FD));
    let ready = vec![EpollEvent { events: 1, data: FD as u64 }];
    assert_eq!(blocker.wake_ready(&ready), vec![5]);
    // C was posted.
    assert_eq!(found(monitor.poll_next(&mut blocker, 6, Some(address("C")))), PathBuf::from("C"));
    assert!(!blocker.has_callback(FD));
    assert!(matches!(monitor.poll_next(&mut blocker, 7, None), MonitorPoll::Pending));
    assert!(!monitor.is_done());
}

#[test]
fn a_device_found_while_the_watch_begins_is_not_lost() {
    let mut blocker: IoBlocker<u32> = IoBlocker::new();
    let mut monitor = Monitor::discover(FD);
    assert!(matches!(monitor.poll_next(&mut blocker, 1, None), MonitorPoll::Watching(_)));
    assert_eq!(found(monitor.poll_next(&mut blocker, 1, Some(address("C")))), PathBuf::from("C"));
    assert!(!blocker.has_callback(FD));
}

#[test]
fn an_address_may_be_yielded_again() {
    let mut blocker: IoBlocker<u32> = IoBlocker::new();
    let mut monitor = Monitor::discover(FD);
    assert_eq!(found(monitor.poll_next(&mut blocker, 1, Some(address("A")))), PathBuf::from("A"));
    assert_eq!(found(monitor.poll_next(&mut blocker, 1, Some(address("A")))), PathBuf::from("A"));
    assert!(matches!(monitor.poll_next(&mut blocker, 1, None), MonitorPoll::Watching(_)));
    assert_eq!(found(monitor.poll_next(&mut blocker, 1, Some(address("A")))), PathBuf::from("A"));
}

#[test]
fn the_watch_fails_where_the_descriptor_is_taken() {
    let mut blocker: IoBlocker<u32> = IoBlocker::new();
    blocker.add_interest(FD, libc::EPOLLIN).unwrap();
    let mut monitor = Monitor::discover(FD);
    match monitor.poll_next(&mut blocker, 1, None) {
        MonitorPoll::Failed(why) => assert_eq!(why, ReactorError::AlreadyRegistered),
        other => panic!("no failure: {:?}", other),
    }
    // The monitor holds no interest, so giving it up leaves the other
    // one alone.
    assert_eq!(monitor.remove_interest(&mut blocker).map(|removal| removal.is_none()), Ok(true));
    assert!(blocker.is_registered(FD));
    let mut monitor = Monitor::discover(-1);
    match monitor.poll_next(&mut blocker, 1, None) {
        MonitorPoll::Failed(why) => assert_eq!(why, ReactorError::BadDescriptor),
        other => panic!("no failure: {:?}", other),
    }
}

#[test]
fn giving_up_a_monitor_removes_its_interest_if_it_watches() {
    let mut blocker: IoBlocker<u32> = IoBlocker::new();
    // Before the watch there is nothing to remove.
    let mut monitor = Monitor::discover(FD);
    assert_eq!(monitor.remove_interest(&mut blocker).map(|removal| removal.is_none()), Ok(true));
    let mut monitor = Monitor::enumerate();
    assert!(matches!(monitor.poll_next(&mut blocker, 1, None), MonitorPoll::Finished));
    assert_eq!(monitor.remove_interest(&mut blocker).map(|removal| removal.is_none()), Ok(true));
    // A monitor that watches gives its interest up once.
    let mut monitor = Monitor::discover(FD);
    assert!(matches!(monitor.poll_next(&mut blocker, 1, None), MonitorPoll::Watching(_)));
    assert!(matches!(monitor.poll_next(&mut blocker, 9, None), MonitorPoll::Pending));
    let removal = monitor.remove_interest(&mut blocker).unwrap().unwrap();
    assert_eq!(removal.request.op, libc::EPOLL_CTL_DEL);
    assert_eq!(removal.request.fd, FD);
    assert_eq!(removal.waker, Some(9));
    assert!(!blocker.is_registered(FD));
    assert_eq!(monitor.remove_interest(&mut blocker).map(|removal| removal.is_none()), Ok(true));
}

#[test]
fn reading_without_a_reactor() {
    let mut monitor = Monitor::enumerate();
    match monitor.next(Some(address("A"))) {
        MonitorNext::Found(a) => assert_eq!(a.path(), &PathBuf::from("A")),
        other => panic!("no address: {:?}", other),
    }
    assert!(matches!(monitor.next(None), MonitorNext::Finished));
    assert!(monitor.is_done());
    assert!(matches!(monitor.next(Some(address("B"))), MonitorNext::Finished));
    let mut monitor = Monitor::discover(FD);
    assert!(matches!(monitor.next(Some(address("A"))), MonitorNext::Found(_)));
    assert!(matches!(monitor.next(None), MonitorNext::Again));
    assert!(matches!(monitor.next(None), MonitorNext::Again));
    assert!(matches!(monitor.next(Some(address("C"))), MonitorNext::Found(_)));
    assert!(!monitor.is_done());
}
