use glam::{Quat, Vec3A};
use remote_wheel::avatar::{AvatarState, ForwardPose};
use remote_wheel::bone::Bone;
use remote_wheel::device::Wheel;
use remote_wheel::mask::BoneMask;
use remote_wheel::pose::{Pose, PoseBone};
use remote_wheel::transform::{compose_transforms, TrackingPoint};

fn close(a: Quat, b: Quat) -> bool {
    a.dot(b).abs() > 1.0 - 1e-5
}

fn sample_pose() -> Pose {
    let mut pose = Pose::new();
    pose.set_root_transform(Vec3A::new(1.0, 2.0, 3.0), Quat::from_rotation_y(0.3));
    for bone in Bone::iter() {
        let k = bone.ordinal() as f32;
        pose.set_local_transform(
            bone,
            Vec3A::new(0.01 * k, 0.1, -0.02 * k),
            Quat::from_euler(glam::EulerRot::YXZ, 0.01 * k, 0.02 * k, -0.03 * k),
        );
    }
    pose
}

fn composed(pose: &Pose, bone: Bone) -> (Vec3A, Quat) {
    let parent = match bone.parent() {
        Some(p) => composed(pose, p),
        None => pose.root_transform(),
    };
    let (pos, rot) = pose.local_transform(bone);
    (parent.0 + parent.1 * pos, (parent.1 * rot).normalize())
}

#[test]
fn a_new_pose_is_at_rest() {
    let mut pose = Pose::new();
    assert_eq!(pose.root_transform(), (Vec3A::ZERO, Quat::IDENTITY));
    assert_eq!(pose.globalized(), BoneMask::all());
    for bone in Bone::iter() {
        assert_eq!(pose.local_transform(bone), (Vec3A::ZERO, Quat::IDENTITY));
        assert_eq!(pose.global_transform(bone), (Vec3A::ZERO, Quat::IDENTITY));
    }
    let entry = PoseBone::new();
    assert_eq!(entry.local_pos, Vec3A::ZERO);
    assert_eq!(entry.local_rot, Quat::IDENTITY);
    assert_eq!(entry.global_pos, Vec3A::ZERO);
    assert_eq!(entry.global_rot, Quat::IDENTITY);
    assert_eq!(
        (TrackingPoint::identity().pos, TrackingPoint::identity().rot),
        (Vec3A::ZERO, Quat::IDENTITY)
    );
}

#[test]
fn composition_turns_then_moves() {
    let parent = (Vec3A::new(1.0, 0.0, 0.0), Quat::from_rotation_z(std::f32::consts::FRAC_PI_2));
    let local = (Vec3A::new(1.0, 0.0, 0.0), Quat::from_rotation_z(std::f32::consts::FRAC_PI_2));
    let (pos, rot) = compose_transforms(parent, local);
    assert!((pos - Vec3A::new(1.0, 1.0, 0.0)).length() < 1e-6);
    assert!(close(rot, Quat::from_rotation_z(std::f32::consts::PI)));
    assert!((rot.length() - 1.0).abs() < 1e-6);
    let (pos, rot) = compose_transforms((Vec3A::ZERO, Quat::from_xyzw(0.0, 0.0, 0.0, 2.0)), local);
    assert!((pos - Vec3A::new(4.0, 0.0, 0.0)).length() < 1e-5);
    assert!((rot.length() - 1.0).abs() < 1e-6);
}

#[test]
fn set_local_rot_stores_and_invalidates() {
    for bone in Bone::iter() {
        let mut pose = sample_pose();
        for other in Bone::iter() {
            pose.global_transform(other);
        }
        assert_eq!(pose.globalized(), BoneMask::all());
        let pos_before = pose.local_transform(bone).0;
        let rot = Quat::from_rotation_x(0.7);
        pose.set_local_rot(bone, rot);
        assert_eq!(pose.local_transform(bone), (pos_before, rot));
        assert!(pose.globalized().intersection(&bone.affected()).is_empty());
        assert_eq!(pose.globalized(), BoneMask::all().difference(&bone.affected()));
    }
}

#[test]
fn set_local_transform_stores_and_invalidates() {
    let mut pose = sample_pose();
    pose.global_transform(Bone::LeftHand);
    pose.global_transform(Bone::Head);
    let pos = Vec3A::new(9.0, 8.0, 7.0);
    let rot = Quat::from_rotation_y(1.0);
    pose.set_local_transform(Bone::UpperChest, pos, rot);
    assert_eq!(pose.local_transform(Bone::UpperChest), (pos, rot));
    assert_eq!(
        pose.globalized().to_vec(),
        vec![Bone::Hips, Bone::Spine, Bone::Chest]
    );
    assert!(!pose.is_globalized(Bone::LeftHand));
    assert!(pose.is_globalized(Bone::Chest));
}

#[test]
fn set_root_transform_invalidates_everything() {
    let mut pose = Pose::new();
    let pos = Vec3A::new(0.5, 0.0, -0.5);
    let rot = Quat::from_rotation_z(0.25);
    pose.set_root_transform(pos, rot);
    assert_eq!(pose.root_transform(), (pos, rot));
    assert!(pose.globalized().is_empty());
    let (hips_pos, hips_rot) = pose.global_transform(Bone::Hips);
    assert!((hips_pos - pos).length() < 1e-6);
    assert!(close(hips_rot, rot));
}

#[test]
fn global_transform_is_parent_composed_with_local() {
    let mut pose = sample_pose();
    for bone in Bone::iter() {
        let expected = composed(&pose, bone);
        let got = pose.global_transform(bone);
        assert_eq!(got, expected, "{:?}", bone);
    }
    // Every entry is cached now: the same values come from the cache.
    assert_eq!(pose.globalized(), BoneMask::all());
    for bone in Bone::iter() {
        assert_eq!(pose.global_transform(bone), composed(&pose, bone));
    }
    // With part of the cache invalid the values are the same again.
    pose.set_local_rot(Bone::Chest, Quat::from_rotation_x(-0.4));
    for bone in Bone::iter().into_iter().rev() {
        assert_eq!(pose.global_transform(bone), composed(&pose, bone));
    }
}

#[test]
fn global_transform_fills_the_cache_up_to_the_root() {
    let mut pose = sample_pose();
    assert!(pose.globalized().is_empty());
    pose.global_transform(Bone::LeftLowerArm);
    assert_eq!(
        pose.globalized().to_vec(),
        vec![
            Bone::Hips,
            Bone::Spine,
            Bone::Chest,
            Bone::UpperChest,
            Bone::LeftShoulder,
            Bone::LeftUpperArm,
            Bone::LeftLowerArm
        ]
    );
}

#[test]
fn set_global_rot_is_read_back() {
    for bone in [Bone::Hips, Bone::Head, Bone::LeftLowerArm, Bone::RightIndexDistal] {
        let mut pose = sample_pose();
        let parent_rot = match bone.parent() {
            Some(p) => pose.global_transform(p).1,
            None => pose.root_transform().1,
        };
        let expected_pos = composed(&pose, bone).0;
        let rot = Quat::from_euler(glam::EulerRot::YXZ, 0.4, -0.2, 0.9);
        pose.global_transform(Bone::RightLittleDistal);
        pose.global_transform(Bone::LeftLittleDistal);
        pose.set_global_rot(bone, rot);
        assert!(pose.is_globalized(bone));
        assert!(pose.globalized().intersection(&bone.descendants()).is_empty());
        let (pos, got) = pose.global_transform(bone);
        assert_eq!(got, rot);
        assert!((pos - expected_pos).length() < 1e-5);
        let local = pose.local_transform(bone).1;
        assert_eq!(local, parent_rot.inverse() * rot);
        assert!(close(local, parent_rot.inverse() * rot));
        assert!(close(parent_rot * local, rot));
    }
}

#[test]
fn forward_poses_are_written() {
    let state = AvatarState::new();
    let mut pose = sample_pose();
    let rot = Quat::from_rotation_z(0.6);
    state.write_forward(&mut pose, Bone::LeftIndexProximal, ForwardPose::Local(rot));
    assert_eq!(pose.local_transform(Bone::LeftIndexProximal).1, rot);
    assert!(!pose.is_globalized(Bone::LeftIndexProximal));
    state.write_forward(&mut pose, Bone::RightHand, ForwardPose::Global(rot));
    assert!(pose.is_globalized(Bone::RightHand));
    assert_eq!(pose.global_transform(Bone::RightHand).1, rot);
    assert!(!pose.is_globalized(Bone::RightIndexProximal));
}

#[test]
fn set_global_rot_leaves_the_cache_valid_above_and_at_the_bone() {
    let mut pose = sample_pose();
    pose.global_transform(Bone::LeftIndexDistal);
    pose.global_transform(Bone::Head);
    pose.set_global_rot(Bone::LeftLowerArm, Quat::from_rotation_x(0.2));
    assert_eq!(
        pose.globalized().to_vec(),
        vec![
            Bone::Hips,
            Bone::Spine,
            Bone::Chest,
            Bone::UpperChest,
            Bone::Neck,
            Bone::Head,
            Bone::LeftShoulder,
            Bone::LeftUpperArm,
            Bone::LeftLowerArm
        ]
    );
    let mut pose = sample_pose();
    pose.set_global_rot(Bone::Hips, Quat::from_rotation_x(0.2));
    assert_eq!(pose.globalized().to_vec(), vec![Bone::Hips]);
}

#[test]
fn glue_wheel_at_ninety_degrees() {
    let centre = Vec3A::new(0.0, 1.2, 0.4);
    let mut wheel = Wheel::new(centre, Quat::IDENTITY, Some("wheel".to_string()));
    assert_eq!(wheel.rot, Quat::IDENTITY);
    // A quarter of the axis over a range of 0 to 360 degrees is 90 degrees;
    // the wheel turns clockwise, which is the negative direction about Z.
    let value = 0.0 + 0.25 * (360.0 - 0.0f32);
    wheel.set_turn(Quat::from_rotation_z(-value.to_radians()));
    assert_eq!(wheel.pos, centre);
    assert_eq!(wheel.base_rot, Quat::IDENTITY);
    let turn = Quat::from_rotation_z(-std::f32::consts::FRAC_PI_2);
    assert!(close(wheel.rot, turn));

    let radius = 0.17f32;
    let hands = [(std::f32::consts::PI, -radius), (0.0, radius)];
    for (angle, x) in hands {
        let local = radius * Vec3A::new(angle.cos(), angle.sin(), 0.0);
        let (pos, _) = wheel.place(local, Quat::IDENTITY);
        let expected = centre + turn * Vec3A::new(x, 0.0, 0.0);
        assert!((pos - expected).length() < 1e-6);
        assert!(((pos - centre).length() - radius).abs() < 1e-6);
        assert!((pos.z - centre.z).abs() < 1e-6);
    }
    // Turned by -90 degrees, the left hand is at the top and the right hand
    // at the bottom of the wheel.
    let (left, _) = wheel.place(Vec3A::new(-radius, 0.0, 0.0), Quat::IDENTITY);
    let (right, _) = wheel.place(Vec3A::new(radius, 0.0, 0.0), Quat::IDENTITY);
    assert!((left - Vec3A::new(0.0, 1.2 + radius, 0.4)).length() < 1e-6);
    assert!((right - Vec3A::new(0.0, 1.2 - radius, 0.4)).length() < 1e-6);
}

#[test]
fn wheel_frames_place_hands() {
    let base = Quat::from_rotation_y(0.5);
    let mut wheel = Wheel::new(Vec3A::new(1.0, 2.0, 3.0), base, None);
    assert_eq!(wheel.trackers(), None);
    let turn = Quat::from_rotation_z(-0.25);
    wheel.set_turn(turn);
    assert_eq!(wheel.rot, base * turn);
    let local_pos = Vec3A::new(0.1, 0.2, 0.0);
    let local_rot = Quat::from_rotation_x(0.3);
    assert_eq!(
        wheel.place(local_pos, local_rot),
        (wheel.pos + wheel.rot * local_pos, wheel.rot * local_rot)
    );
    assert_eq!(
        wheel.place_at_rest(local_pos, local_rot),
        (wheel.pos + base * local_pos, base * local_rot)
    );
    wheel.tracker = Some("wheel".to_string());
    assert_eq!(wheel.trackers(), Some(("wheel".to_string(), wheel.pos, wheel.rot)));
}
