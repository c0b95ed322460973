use core::time::Duration;
use s2n_quic_sched::connection_timers::{ConnectionTimers, VirtualTimer};
use s2n_quic_sched::frame::RetireConnectionID;
use s2n_quic_sched::interests::FrameExchangeInterests;
use s2n_quic_sched::time::Timestamp;

fn at(ms: u64) -> Timestamp {
    Timestamp::from_duration(Duration::from_millis(ms))
}

#[test]
fn connection_timers_iterates_armed_timers() {
    let mut timers = ConnectionTimers::default();
    assert!(timers.iter().is_empty());
    timers.local_idle_timer.set(at(30));
    timers.close_timer.set(at(10));
    assert_eq!(vec![at(10), at(30)], timers.iter());
    timers.peer_idle_timer.set(at(20));
    assert_eq!(vec![at(10), at(20), at(30)], timers.iter());
    timers.close_timer.cancel();
    assert_eq!(vec![at(20), at(30)], timers.iter());
    assert!(!timers.close_timer.is_armed());
    assert_eq!(Some(at(20)), timers.peer_idle_timer.expiration());
    let t = VirtualTimer::default();
    assert_eq!(None, t.expiration());
}

#[test]
fn retire_connection_id_tag() {
    let frame = RetireConnectionID { sequence_number: 3 };
    assert_eq!(0x19, frame.tag());
}

fn interests(delivery_notifications: bool, transmission: bool) -> FrameExchangeInterests {
    FrameExchangeInterests { delivery_notifications, transmission }
}

#[test]
fn interests_merge_laws() {
    let all = [
        interests(false, false),
        interests(false, true),
        interests(true, false),
        interests(true, true),
    ];
    for a in all {
        assert_eq!(a, a.merge(FrameExchangeInterests::none()));
        assert_eq!(a, FrameExchangeInterests::default().merge(a));
        for b in all {
            assert_eq!(a.merge(b), b.merge(a));
            for c in all {
                assert_eq!(a.merge(b).merge(c), a.merge(b.merge(c)));
            }
        }
    }
    assert_eq!(interests(true, true), interests(true, false).merge(interests(false, true)));
}
