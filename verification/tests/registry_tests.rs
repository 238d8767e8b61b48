use waycore::error::SessionError;
use waycore::registry::{GlobalEntry, Interface, Registry};

fn entry(numeric_name: u32, interface: Interface, version: u32) -> GlobalEntry {
    GlobalEntry { numeric_name, interface, version }
}

#[test]
fn bind_underversioned_shell_fails() {
    let mut r = Registry::new();
    r.announce(entry(1, Interface::Compositor, 4));
    r.announce(entry(2, Interface::Shell, 2));
    r.announce(entry(3, Interface::Shm, 1));

    let shell = r.bind(Interface::Shell, 3);
    assert_eq!(shell, Err(SessionError::CapabilityUnavailable));

    let compositor = r.bind(Interface::Compositor, 4).unwrap();
    assert_eq!(compositor.numeric_name, 1);
    assert_eq!(compositor.version, 4);

    let shm = r.bind(Interface::Shm, 1).unwrap();
    assert_eq!(shm.numeric_name, 3);

    let shell_low = r.bind(Interface::Shell, 2).unwrap();
    assert_eq!(shell_low.numeric_name, 2);
    assert_eq!(shell_low.version, 2);
}

#[test]
fn bind_missing_interface_fails() {
    let mut r = Registry::new();
    r.announce(entry(1, Interface::Compositor, 5));
    assert_eq!(r.bind(Interface::Seat, 1), Err(SessionError::CapabilityUnavailable));
    assert!(r.bind(Interface::Seat, 1).unwrap_err().is_fatal());
}

#[test]
fn bind_picks_earliest_match() {
    let mut r = Registry::new();
    r.announce(entry(10, Interface::Seat, 7));
    r.announce(entry(11, Interface::Seat, 9));
    let seat = r.bind(Interface::Seat, 5).unwrap();
    assert_eq!(seat.numeric_name, 10);
    assert_eq!(seat.version, 7);
}

#[test]
fn bind_skips_underversioned_earlier_entry() {
    let mut r = Registry::new();
    r.announce(entry(10, Interface::Output, 2));
    r.announce(entry(11, Interface::Output, 4));
    let output = r.bind(Interface::Output, 3).unwrap();
    assert_eq!(output.numeric_name, 11);
}

#[test]
fn remove_takes_earliest_entry_with_name() {
    let mut r = Registry::new();
    r.announce(entry(5, Interface::Output, 1));
    r.announce(entry(6, Interface::Output, 2));
    let removed = r.remove(5).unwrap();
    assert_eq!(removed.numeric_name, 5);
    assert_eq!(r.len(), 1);
    assert_eq!(r.entry_at(0).numeric_name, 6);
}

#[test]
fn remove_absent_name_is_noop() {
    let mut r = Registry::new();
    r.announce(entry(5, Interface::Output, 1));
    assert_eq!(r.remove(99), None);
    assert_eq!(r.len(), 1);
}

#[test]
fn error_fatality_split() {
    assert!(SessionError::Transport.is_fatal());
    assert!(SessionError::CapabilityUnavailable.is_fatal());
    assert!(!SessionError::PoolExhausted.is_fatal());
    assert!(!SessionError::DeviceCreationFailed.is_fatal());
}
