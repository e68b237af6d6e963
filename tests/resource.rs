use f4::resource::{Pending, Resource, Threshold};

#[test]
fn claim_defers_lower_interrupt() {
    let shared = Resource::new(0u32, 3);
    let t = Threshold::new(1);
    assert!(t.preempted_by(2));
    let delivered_inside = shared.claim(&t, |_, th| {
        assert_eq!(th.value(), 3);
        th.preempted_by(2)
    });
    assert!(!delivered_inside);
    assert_eq!(t.value(), 1);
    assert!(t.preempted_by(2));
}

#[test]
fn nested_claims_restore_levels() {
    let r1 = Resource::new(10u32, 2);
    let r2 = Resource::new(20u32, 4);
    let t = Threshold::new(1);
    let (a, inner, after) = r1.claim(&t, |x, t1| {
        let a = t1.value();
        let inner = r2.claim(t1, |y, t2| (t2.value(), *x + *y));
        (a, inner, t1.value())
    });
    assert_eq!(a, 2);
    assert_eq!(inner, (4, 30));
    assert_eq!(after, 2);
    assert_eq!(t.value(), 1);
}

#[test]
fn nested_claims_of_varying_ceilings() {
    for p in 0u8..4 {
        for c1 in p..6 {
            for c2 in (c1 + 1)..8 {
                let r1 = Resource::new((), c1);
                let r2 = Resource::new((), c2);
                let t = Threshold::new(p);
                let (during, after_inner) = r1.claim(&t, |_, t1| {
                    let during = r2.claim(t1, |_, t2| t2.value());
                    (during, t1.value())
                });
                assert_eq!(during, c2);
                assert_eq!(after_inner, c1);
                assert_eq!(t.value(), p);
            }
        }
    }
}

#[test]
fn claim_below_current_level_keeps_it() {
    let low = Resource::new((), 2);
    let t = Threshold::new(5);
    let level = low.claim(&t, |_, th| th.value());
    assert_eq!(level, 5);
    assert_eq!(t.value(), 5);
}

#[test]
fn claim_mut_updates_data() {
    let mut counter = Resource::new(0u32, 3);
    let t = Threshold::new(1);
    for _ in 0..3 {
        counter.claim_mut(&t, |c, th| {
            assert_eq!(th.value(), 3);
            *c += 1;
        });
    }
    let v = counter.claim(&t, |c, _| *c);
    assert_eq!(v, 3);
    assert_eq!(counter.ceiling(), 3);
    assert_eq!(t.value(), 1);
}

#[test]
fn deferred_interrupt_delivered_once_after_claim() {
    let shared = Resource::new(0u32, 3);
    let t = Threshold::new(1);
    let mut pending = Pending::new();
    let delivered_inside = shared.claim(&t, |_, th| {
        let now = pending.raise(th, 2);
        let inside = pending.deliver(th);
        (now, inside)
    });
    assert_eq!(delivered_inside, (false, None));
    assert_eq!(pending.deliver(&t), Some(2));
    assert_eq!(pending.deliver(&t), None);
}

#[test]
fn pending_delivered_highest_first() {
    let t = Threshold::new(1);
    let masked = Threshold::new(6);
    let mut pending = Pending::new();
    assert!(!pending.raise(&masked, 2));
    assert!(!pending.raise(&masked, 5));
    assert!(!pending.raise(&masked, 1));
    assert!(pending.raise(&masked, 7));
    assert_eq!(pending.deliver(&masked), None);
    assert_eq!(pending.deliver(&t), Some(5));
    assert_eq!(pending.deliver(&t), Some(2));
    assert_eq!(pending.deliver(&t), None);
    assert_eq!(pending.deliver(&Threshold::new(0)), Some(1));
    assert!(!pending.raise(&Threshold::new(255), 255));
    assert_eq!(pending.deliver(&Threshold::new(254)), Some(255));
}

#[test]
fn claim_mut_result_and_data() {
    let mut r = Resource::new(vec![1u8], 4);
    let t = Threshold::new(2);
    let len = r.claim_mut(&t, |v, th| {
        v.push(th.value());
        v.len()
    });
    assert_eq!(len, 2);
    assert_eq!(r.claim(&t, |v, _| v.clone()), vec![1u8, 4]);
}
