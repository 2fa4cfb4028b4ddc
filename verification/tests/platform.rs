use wasefire_tools::platform::{reboot, version, VersionCache, VersionEvent, VersionStep};

#[test]
fn version_is_asked_once() {
    let mut cache = VersionCache::Unknown;
    assert!(matches!(version(&mut cache, VersionEvent::Asked), VersionStep::Measure));
    assert!(matches!(cache, VersionCache::Unknown));
    match version(&mut cache, VersionEvent::Measured(3)) {
        VersionStep::Fill(buffer) => assert_eq!(buffer, [0, 0, 0]),
        _ => panic!(),
    }
    assert!(matches!(cache, VersionCache::Measured(3)));
    match version(&mut cache, VersionEvent::Filled(b"1.0")) {
        VersionStep::Ready(version) => assert_eq!(version, b"1.0"),
        _ => panic!(),
    }
    assert!(matches!(cache, VersionCache::Known(b"1.0")));
    for _ in 0 .. 2 {
        match version(&mut cache, VersionEvent::Asked) {
            VersionStep::Ready(version) => assert_eq!(version, b"1.0"),
            _ => panic!(),
        }
        assert!(matches!(cache, VersionCache::Known(b"1.0")));
    }
}

#[test]
fn empty_version_is_known_too() {
    let mut cache = VersionCache::Unknown;
    match version(&mut cache, VersionEvent::Measured(0)) {
        VersionStep::Fill(buffer) => assert!(buffer.is_empty()),
        _ => panic!(),
    }
    version(&mut cache, VersionEvent::Filled(b""));
    assert!(matches!(version(&mut cache, VersionEvent::Asked), VersionStep::Ready(b"")));
}

#[test]
fn unanswered_question_is_asked_again() {
    let mut cache = VersionCache::Unknown;
    version(&mut cache, VersionEvent::Measured(7));
    assert!(matches!(version(&mut cache, VersionEvent::Asked), VersionStep::Measure));
    assert!(matches!(cache, VersionCache::Unknown));
    match version(&mut cache, VersionEvent::Measured(2)) {
        VersionStep::Fill(buffer) => assert_eq!(buffer, [0, 0]),
        _ => panic!(),
    }
    assert!(matches!(version(&mut cache, VersionEvent::Filled(b"v2")), VersionStep::Ready(b"v2")));
}

#[test]
fn returned_reboot_is_reported() {
    assert_eq!(reboot(0), "reboot() returned 0");
    assert_eq!(reboot(-42), "reboot() returned -42");
}
