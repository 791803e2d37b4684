use snui::damage::Damage;
use std::cmp::Ordering;

#[test]
fn damage_order_is_nothing_partial_frame() {
    assert_eq!(Damage::Nothing.partial_cmp(&Damage::Partial), Some(Ordering::Less));
    assert_eq!(Damage::Partial.partial_cmp(&Damage::Frame), Some(Ordering::Less));
    assert_eq!(Damage::Frame.partial_cmp(&Damage::Nothing), Some(Ordering::Greater));
    assert_eq!(Damage::Partial.partial_cmp(&Damage::Partial), Some(Ordering::Equal));
    assert!(Damage::Nothing < Damage::Frame);
}

#[test]
fn damage_max_is_commutative_and_keeps_the_larger() {
    let all = [Damage::Nothing, Damage::Partial, Damage::Frame];
    for a in all {
        for b in all {
            assert_eq!(a.max(b), b.max(a));
            assert!(a.max(b) >= a && a.max(b) >= b);
            for c in all {
                assert_eq!(a.max(b).max(c), a.max(b.max(c)));
            }
        }
        assert_eq!(a.max(a), a);
    }
    assert_eq!(Damage::Partial.max(Damage::Frame), Damage::Frame);
    assert_eq!(Damage::Nothing.max(Damage::Partial), Damage::Partial);
}

#[test]
fn damage_upgrade_raises_to_partial() {
    let mut d = Damage::Nothing;
    assert_eq!(d.upgrade(), Damage::Partial);
    assert_eq!(d, Damage::Partial);
    assert_eq!(d.upgrade(), Damage::Partial);
    let mut f = Damage::Frame;
    assert_eq!(f.upgrade(), Damage::Frame);
    assert_eq!(f, Damage::Frame);
}

#[test]
fn damage_is_some_is_not_none() {
    assert!(Damage::Nothing.is_none());
    assert!(!Damage::Nothing.is_some());
    assert!(Damage::Partial.is_some());
    assert!(Damage::Frame.is_some());
    assert!(!Damage::Frame.is_none());
    assert_eq!(Damage::default(), Damage::Nothing);
}
