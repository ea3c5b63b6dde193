use remote_wheel::bone::Bone;
use remote_wheel::mask::{BoneMask, ALL_BITS};

#[test]
fn empty_and_all() {
    let empty = BoneMask::empty();
    assert!(empty.is_empty());
    assert_eq!(empty.len(), 0);
    assert_eq!(empty.bits(), 0);
    let all = BoneMask::all();
    assert!(!all.is_empty());
    assert_eq!(all.len(), 55);
    assert_eq!(all.bits(), ALL_BITS);
    assert_eq!(all.bits(), (1u64 << 55) - 1);
    assert_eq!(all.to_vec(), Bone::iter());
    for bone in Bone::iter() {
        assert!(all.contains(bone));
        assert!(!empty.contains(bone));
    }
}

#[test]
fn insert_and_remove_report_changes() {
    let mut mask = BoneMask::empty();
    assert!(mask.insert(Bone::Head));
    assert!(!mask.insert(Bone::Head));
    assert!(mask.insert(Bone::Hips));
    assert!(mask.contains(Bone::Head));
    assert!(mask.contains(Bone::Hips));
    assert!(!mask.contains(Bone::Neck));
    assert_eq!(mask.len(), 2);
    assert_eq!(mask.bits(), 1 | (1 << 11));
    assert!(mask.remove(Bone::Head));
    assert!(!mask.remove(Bone::Head));
    assert_eq!(mask, Bone::Hips.mask());
    mask.clear();
    assert!(mask.is_empty());
}

#[test]
fn the_last_bone_has_the_highest_bit() {
    let mask = BoneMask::single(Bone::RightLittleDistal);
    assert_eq!(mask.bits(), 1u64 << 54);
    assert_eq!(mask.len(), 1);
    let mut all = BoneMask::all();
    assert!(all.remove(Bone::RightLittleDistal));
    assert_eq!(all.len(), 54);
    assert!(all.bits() < (1u64 << 54));
}

#[test]
fn set_algebra() {
    let mut a = BoneMask::empty();
    a.insert(Bone::Hips);
    a.insert(Bone::Spine);
    a.insert(Bone::Chest);
    let mut b = BoneMask::empty();
    b.insert(Bone::Chest);
    b.insert(Bone::Neck);
    assert_eq!(a.union(&b).to_vec(), vec![Bone::Hips, Bone::Spine, Bone::Chest, Bone::Neck]);
    assert_eq!(a.intersection(&b).to_vec(), vec![Bone::Chest]);
    assert_eq!(a.difference(&b).to_vec(), vec![Bone::Hips, Bone::Spine]);
    assert_eq!(b.difference(&a).to_vec(), vec![Bone::Neck]);
    let mut c = a;
    c.remove_all(&b);
    assert_eq!(c, a.difference(&b));
    let mut d = a;
    d.insert_all(&b);
    assert_eq!(d, a.union(&b));
}

#[test]
fn iteration_goes_both_ways() {
    let mut mask = BoneMask::empty();
    mask.insert(Bone::Jaw);
    mask.insert(Bone::LeftFoot);
    mask.insert(Bone::RightLittleDistal);
    mask.insert(Bone::Hips);
    assert_eq!(
        mask.to_vec(),
        vec![Bone::Hips, Bone::LeftFoot, Bone::Jaw, Bone::RightLittleDistal]
    );
    assert_eq!(
        mask.to_vec_descending(),
        vec![Bone::RightLittleDistal, Bone::Jaw, Bone::LeftFoot, Bone::Hips]
    );
    assert_eq!(mask.len(), 4);
}
