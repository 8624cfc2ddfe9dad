use std::rc::Rc;
use weakkey::generic::Weak;
use weakkey::generic::WeakKey as GenericKey;
use weakkey::rc::RcKey;
use weakkey::rc::Strong;
use weakkey::rc::WeakKey;
use weakkey::rc::WeakRef;

/// The three weak-pointer cases: never allocated, dangling, and live (the
/// strong adapter that keeps the pointee alive is returned beside it).
fn weak_cases() -> Vec<(WeakRef<u32>, Option<Strong<u32>>)> {
    let dangling = {
        let s = Strong::from_rc(Rc::new(1u32));
        s.downgrade()
    };
    let live = Strong::from_rc(Rc::new(2u32));
    let live_weak = live.downgrade();
    vec![
        (WeakRef::unallocated(), None),
        (dangling, None),
        (live_weak, Some(live)),
    ]
}

#[test]
fn identity_agreement() {
    let s = Strong::from_rc(Rc::new(5u32));
    let s2 = s.duplicate();
    let w = s.downgrade();
    let w2 = w.clone_ref();
    let ks = GenericKey::new(s);
    let ks2 = GenericKey::new(s2);
    let kw = GenericKey::new(w);
    let kw2 = GenericKey::new(w2);
    assert!(ks == ks2);
    assert!(kw == kw2);
    assert_eq!(ks.key(), kw.key());
    assert_eq!(ks.hash_code(), ks2.hash_code());
    assert_eq!(ks.hash_code(), kw.hash_code());
}

#[test]
fn identity_agreement_concrete() {
    let rc = Rc::new(5u32);
    let ka = RcKey::new(rc.clone());
    let kb = RcKey::new(rc);
    assert!(ka == kb);
    assert_eq!(ka.key(), kb.key());
    assert_eq!(ka.hash_code(), kb.hash_code());
}

#[test]
fn distinctness() {
    let ka = RcKey::new(Rc::new(7u32));
    let kb = RcKey::new(Rc::new(7u32));
    assert!(ka != kb);
    assert_ne!(ka.key(), kb.key());
    assert_ne!(ka.hash_code(), kb.hash_code());
}

#[test]
fn unallocated_weaks_agree() {
    let a: WeakRef<u32> = WeakRef::unallocated();
    let b: WeakRef<u32> = WeakRef::unallocated();
    let ka = WeakKey::new(a);
    let kb = WeakKey::new(b);
    assert!(ka == kb);
    assert_eq!(ka.hash_code(), kb.hash_code());
    assert!(ka.upgrade().is_none());
}

#[test]
fn total_order() {
    let mut keys = Vec::new();
    keys.push(RcKey::new(Rc::new(1u32)));
    keys.push(RcKey::new(Rc::new(2u32)));
    keys.push(RcKey::new(Rc::new(3u32)));
    for a in &keys {
        assert!(!(a < a));
        for b in &keys {
            let eq = if a == b { 1 } else { 0 };
            let lt = if a < b { 1 } else { 0 };
            let gt = if b < a { 1 } else { 0 };
            assert_eq!(eq + lt + gt, 1);
        }
    }
}

#[test]
fn round_trip() {
    let rc = Rc::new(3u32);
    let k = RcKey::new(rc.clone());
    assert!(Rc::ptr_eq(k.inner(), &rc));
    assert!(Rc::ptr_eq(&k.into_inner(), &rc));

    let s = Strong::from_rc(rc.clone());
    let key_before = s.key();
    let k = GenericKey::new(s);
    assert_eq!(k.into_inner().key(), key_before);
}

#[test]
fn round_trip_weak() {
    let s = Strong::from_rc(Rc::new(4u32));
    let w = s.downgrade();
    let key_before = w.key();
    let k = WeakKey::new(w);
    let w = k.into_inner();
    assert_eq!(w.key(), key_before);
    let w2 = WeakRef::from_weak(w.into_weak());
    assert_eq!(w2.key(), key_before);
}

#[test]
fn strong_upgrade_identity() {
    let s = Strong::from_rc(Rc::new(9u32));
    let k = GenericKey::new(s);
    let up = k.upgrade().expect("a strong adapter always upgrades");
    assert_eq!(up.key(), k.key());
}

#[test]
fn weak_upgrade_liveness() {
    for (w, strong) in weak_cases() {
        let k = WeakKey::new(w);
        match strong {
            Some(s) => {
                let up = k.upgrade().expect("a live pointee upgrades");
                assert_eq!(up.key(), s.key());
                assert_eq!(up.key(), k.key());
            }
            None => assert!(k.upgrade().is_none()),
        }
    }
}

#[test]
fn clone_stability() {
    for (w, _strong) in weak_cases() {
        let k = WeakKey::new(w);
        let c = k.clone();
        assert!(c == k);
        assert_eq!(c.hash_code(), k.hash_code());
    }
    let k = RcKey::new(Rc::new(8u32));
    let c = k.clone();
    assert!(c == k);
    assert_eq!(c.hash_code(), k.hash_code());
    assert!(Rc::ptr_eq(c.inner(), k.inner()));
}

#[test]
fn eq_symmetric() {
    for (wa, _) in weak_cases() {
        for (wb, _) in weak_cases() {
            let ka = WeakKey::new(wa.clone_ref());
            let kb = WeakKey::new(wb.clone_ref());
            assert!(ka == ka);
            assert!(kb == kb);
            assert_eq!(ka == kb, kb == ka);
            assert_eq!(ka == kb, ka.key() == kb.key());
            assert_eq!(ka.hash_code() == kb.hash_code(), ka == kb);
        }
    }
}

#[test]
fn lt_trichotomy_weak() {
    for (wa, _) in weak_cases() {
        for (wb, _) in weak_cases() {
            let ka = WeakKey::new(wa.clone_ref());
            let kb = WeakKey::new(wb.clone_ref());
            assert!(!(ka < ka));
            assert!(!(kb < kb));
            let eq = if ka == kb { 1 } else { 0 };
            let lt = if ka < kb { 1 } else { 0 };
            let gt = if kb < ka { 1 } else { 0 };
            assert_eq!(eq + lt + gt, 1);
        }
    }
}

/// The scenario of one pointee with a strong and a weak wrapper: the weak
/// upgrades while a strong reference lives, stops upgrading once every
/// strong reference is dropped, and previously captured keys keep their
/// equality relations.
#[test]
fn scenario_drop_strong() {
    let sx = Strong::from_rc(Rc::new(42u32));
    let sx_key = sx.key();
    let wx = WeakKey::new(sx.downgrade());
    let up = wx.upgrade();
    assert!(up.is_some());
    drop(up);
    drop(sx);
    assert!(wx.upgrade().is_none());
    assert_eq!(sx_key, wx.key());
}

/// The scenario of two pointees in an ordered structure: whatever the
/// insertion sequence, the structure holds them in one fixed order.
#[test]
fn scenario_ordered_structure() {
    let ka = RcKey::new(Rc::new(1u32));
    let kb = RcKey::new(Rc::new(2u32));
    assert!(ka != kb);

    let mut first = Vec::new();
    insert_sorted(&mut first, ka.clone());
    insert_sorted(&mut first, kb.clone());
    let mut second = Vec::new();
    insert_sorted(&mut second, kb);
    insert_sorted(&mut second, ka);

    assert_eq!(first.len(), 2);
    assert_eq!(second.len(), 2);
    assert!(first[0] == second[0]);
    assert!(first[1] == second[1]);
    assert!(first[0] < first[1]);
}

fn insert_sorted(v: &mut Vec<RcKey<u32>>, k: RcKey<u32>) {
    let mut i: usize = 0;
    while i < v.len() && v[i] < k {
        i += 1;
    }
    v.insert(i, k);
}

#[test]
fn render_shows_key_only() {
    let k = RcKey::new(Rc::new(7u32));
    assert_eq!(k.render(), format!("WeakKey({:#x})", k.key()));
    let w: WeakKey<u32> = WeakKey::new(WeakRef::unallocated());
    assert_eq!(w.render(), format!("WeakKey({:#x})", w.key()));
    let g = GenericKey::new(Strong::from_rc(Rc::new(1u32)));
    assert_eq!(g.render(), format!("WeakKey({:#x})", g.key()));
}

#[test]
fn from_strong_agrees() {
    let s = Strong::from_rc(Rc::new(6u32));
    let wk = WeakKey::from_strong(&s);
    assert_eq!(wk.key(), s.key());
    assert!(wk.upgrade().is_some());
}

#[test]
fn stable_under_interior_mutability() {
    let rc = Rc::new(std::cell::RefCell::new(1u32));
    let ka = RcKey::new(rc.clone());
    let kb = RcKey::new(rc.clone());
    assert!(ka == kb);
    let h = ka.hash_code();
    *rc.borrow_mut() = 99;
    assert!(ka == kb);
    assert_eq!(ka.hash_code(), h);
    assert_eq!(ka.render(), kb.render());
}
