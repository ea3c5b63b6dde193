use glam::{Quat, Vec3A};
use remote_wheel::bone::Bone;
use remote_wheel::pose::Pose;
use remote_wheel::tracking::{DeviceKind, TrackingData};
use remote_wheel::transform::TrackingPoint;
use remote_wheel::osc::{ArgKind, IntArg};
use remote_wheel::vmc::{
    apply_incoming, build_outgoing, encode_outgoing, Address, Expected, Incoming, MessageError,
    OversizeWarning, MTU,
};
use rosc::{OscMessage, OscPacket, OscType};

fn scene() -> TrackingData {
    TrackingData::new(OscType::Float(-1.0))
}

fn messages(bytes: &[u8]) -> Vec<OscMessage> {
    let (rest, packet) = rosc::decoder::decode_udp(bytes).unwrap();
    assert!(rest.is_empty());
    match packet {
        OscPacket::Bundle(bundle) => {
            assert_eq!(bundle.timetag, rosc::OscTime::from((0, 0)));
            bundle
                .content
                .into_iter()
                .map(|p| match p {
                    OscPacket::Message(m) => m,
                    OscPacket::Bundle(_) => panic!("nested bundle"),
                })
                .collect()
        }
        OscPacket::Message(_) => panic!("not a bundle"),
    }
}

fn point_args(name: &str, pos: Vec3A, rot: Quat) -> Vec<OscType> {
    vec![
        OscType::String(name.to_string()),
        OscType::Float(pos.x),
        OscType::Float(pos.y),
        OscType::Float(pos.z),
        OscType::Float(rot.x),
        OscType::Float(rot.y),
        OscType::Float(rot.z),
        OscType::Float(rot.w),
    ]
}

#[test]
fn addresses_are_parsed() {
    let all = [
        (Address::RootPos, "/VMC/Ext/Root/Pos", Some(8)),
        (Address::BonePos, "/VMC/Ext/Bone/Pos", Some(8)),
        (Address::ControllerPos, "/VMC/Ext/Con/Pos", Some(8)),
        (Address::HmdPos, "/VMC/Ext/Hmd/Pos", Some(8)),
        (Address::TrackerPos, "/VMC/Ext/Tra/Pos", Some(8)),
        (Address::BlendVal, "/VMC/Ext/Blend/Val", Some(2)),
        (Address::BlendApply, "/VMC/Ext/Blend/Apply", None),
        (Address::Tracking, "/VMC/Ext/OK", Some(1)),
        (Address::Time, "/VMC/Ext/T", Some(1)),
    ];
    for (address, path, arity) in all {
        assert_eq!(address.path(), path);
        assert_eq!(Address::parse(path), Ok(address));
        assert_eq!(address.arity(), arity);
    }
    assert_eq!(Address::parse("/VMC/Ext/Cam"), Err(MessageError::UnrecognizedAddress));
    assert_eq!(Address::parse(""), Err(MessageError::UnrecognizedAddress));
    assert_eq!(Address::parse("/vmc/ext/ok"), Err(MessageError::UnrecognizedAddress));
    assert_eq!(DeviceKind::Hmd.address(), Address::HmdPos);
    assert_eq!(DeviceKind::Controller.address(), Address::ControllerPos);
    assert_eq!(DeviceKind::Tracker.address(), Address::TrackerPos);
}

#[test]
fn arguments_are_checked_by_type() {
    let good = [ArgKind::String, ArgKind::Float, ArgKind::Double, ArgKind::Float, ArgKind::Float, ArgKind::Float, ArgKind::Double, ArgKind::Float];
    for address in [
        Address::RootPos,
        Address::BonePos,
        Address::ControllerPos,
        Address::HmdPos,
        Address::TrackerPos,
    ] {
        assert_eq!(address.check_arguments(&good), Ok(()));
        assert_eq!(
            address.check_arguments(&good[..7]),
            Err(MessageError::WrongArgumentCount { expected: 8, got: 7 })
        );
        assert_eq!(
            address.check_arguments(&[ArgKind::Float, ArgKind::Float, ArgKind::Int, ArgKind::Float, ArgKind::Float, ArgKind::Float, ArgKind::Float, ArgKind::Float]),
            Err(MessageError::WrongArgumentType { index: 0 })
        );
        assert_eq!(
            address.check_arguments(&[ArgKind::String, ArgKind::Float, ArgKind::Int, ArgKind::Float, ArgKind::Other, ArgKind::Float, ArgKind::Float, ArgKind::Float]),
            Err(MessageError::WrongArgumentType { index: 2 })
        );
        assert_eq!(
            address.check_arguments(&[ArgKind::String, ArgKind::Float, ArgKind::Float, ArgKind::Float, ArgKind::Float, ArgKind::Float, ArgKind::Float, ArgKind::String]),
            Err(MessageError::WrongArgumentType { index: 7 })
        );
    }
    assert_eq!(Address::BlendVal.check_arguments(&[ArgKind::String, ArgKind::Float]), Ok(()));
    assert_eq!(Address::BlendVal.check_arguments(&[ArgKind::String, ArgKind::Double]), Ok(()));
    assert_eq!(
        Address::BlendVal.check_arguments(&[ArgKind::String, ArgKind::Int]),
        Err(MessageError::WrongArgumentType { index: 1 })
    );
    assert_eq!(
        Address::BlendVal.check_arguments(&[ArgKind::String]),
        Err(MessageError::WrongArgumentCount { expected: 2, got: 1 })
    );
    assert_eq!(Address::BlendApply.check_arguments(&[]), Ok(()));
    assert_eq!(Address::BlendApply.check_arguments(&[ArgKind::Other, ArgKind::Int]), Ok(()));
    assert_eq!(Address::Tracking.check_arguments(&[ArgKind::Int]), Ok(()));
    assert_eq!(Address::Tracking.check_arguments(&[ArgKind::Long]), Ok(()));
    assert_eq!(
        Address::Tracking.check_arguments(&[ArgKind::Float]),
        Err(MessageError::WrongArgumentType { index: 0 })
    );
    assert_eq!(
        Address::Tracking.check_arguments(&[]),
        Err(MessageError::WrongArgumentCount { expected: 1, got: 0 })
    );
    assert_eq!(Address::Time.check_arguments(&[ArgKind::Float]), Ok(()));
    assert_eq!(Address::Time.check_arguments(&[ArgKind::Double]), Ok(()));
    assert_eq!(
        Address::Time.check_arguments(&[ArgKind::Int]),
        Err(MessageError::WrongArgumentType { index: 0 })
    );
    assert_eq!(Address::Time.expected(0), Expected::Number);
    assert_eq!(Address::Tracking.expected(0), Expected::Whole);
    assert_eq!(Address::BonePos.expected(0), Expected::Name);
    assert_eq!(Address::BonePos.expected(5), Expected::Number);
    assert!(Expected::Whole.admits(ArgKind::Long));
    assert!(!Expected::Name.admits(ArgKind::Other));
}

#[test]
fn long_integers_must_fit() {
    assert_eq!(IntArg::Int(-7).to_i32(), Ok(-7));
    assert_eq!(IntArg::Long(1).to_i32(), Ok(1));
    assert_eq!(IntArg::Long(i32::MAX as i64).to_i32(), Ok(i32::MAX));
    assert_eq!(IntArg::Long(i32::MIN as i64).to_i32(), Ok(i32::MIN));
    assert_eq!(IntArg::Long(i32::MAX as i64 + 1).to_i32(), Err(MessageError::IntegerOutOfRange));
    assert_eq!(IntArg::Long(i32::MIN as i64 - 1).to_i32(), Err(MessageError::IntegerOutOfRange));
    assert_eq!(IntArg::Long(i64::MAX).to_i32(), Err(MessageError::IntegerOutOfRange));
}

#[test]
fn blendshapes_keep_their_slots() {
    let mut scene = scene();
    scene.update_blendshape("Joy", OscType::Float(0.25));
    scene.update_blendshape("Angry", OscType::Float(0.5));
    scene.update_blendshape("Joy", OscType::Float(0.75));
    scene.update_blendshape("Blink", OscType::Float(1.0));
    scene.update_blendshape("Angry", OscType::Float(0.0));
    let shapes = scene.blendshapes();
    let seen: Vec<(&str, OscType)> =
        shapes.iter().map(|s| (s.name.as_str(), s.value.clone())).collect();
    assert_eq!(
        seen,
        vec![
            ("Joy", OscType::Float(0.75)),
            ("Angry", OscType::Float(0.0)),
            ("Blink", OscType::Float(1.0))
        ]
    );
    assert_eq!(scene.blendshape_slot("Joy"), Some(0));
    assert_eq!(scene.blendshape_slot("Angry"), Some(1));
    assert_eq!(scene.blendshape_slot("Blink"), Some(2));
    assert_eq!(scene.blendshape_slot("Sorrow"), None);
    assert_eq!(scene.devices().len(), 0);
}

#[test]
fn devices_keep_their_slots_by_kind_and_name() {
    let mut scene = scene();
    let a = TrackingPoint::new(Vec3A::new(1.0, 0.0, 0.0), Quat::IDENTITY);
    let b = TrackingPoint::new(Vec3A::new(0.0, 2.0, 0.0), Quat::from_rotation_x(0.5));
    let c = TrackingPoint::new(Vec3A::new(0.0, 0.0, 3.0), Quat::from_rotation_y(0.5));
    scene.update_device(DeviceKind::Tracker, "wheel", &a);
    scene.update_device(DeviceKind::Controller, "wheel", &b);
    scene.update_device(DeviceKind::Hmd, "head", &a);
    scene.update_device(DeviceKind::Tracker, "wheel", &c);
    scene.update_device(DeviceKind::Hmd, "wheel", &b);
    let seen: Vec<(DeviceKind, &str, Vec3A, Quat)> = scene
        .devices()
        .iter()
        .map(|d| (d.kind, d.name.as_str(), d.point.pos, d.point.rot))
        .collect();
    assert_eq!(
        seen,
        vec![
            (DeviceKind::Tracker, "wheel", c.pos, c.rot),
            (DeviceKind::Controller, "wheel", b.pos, b.rot),
            (DeviceKind::Hmd, "head", a.pos, a.rot),
            (DeviceKind::Hmd, "wheel", b.pos, b.rot),
        ]
    );
    assert_eq!(scene.blendshapes().len(), 0);
}

#[test]
fn incoming_messages_are_applied() {
    let mut pose = Pose::new();
    let mut scene = scene();
    let point = TrackingPoint::new(Vec3A::new(0.0, 1.0, 0.0), Quat::from_rotation_y(0.5));

    let r = apply_incoming(
        &mut pose,
        &mut scene,
        Incoming::RootPos { name: "root".to_string(), point },
    );
    assert_eq!(r, Ok(()));
    assert_eq!(pose.root_transform(), (point.pos, point.rot));
    assert!(pose.globalized().is_empty());

    let r = apply_incoming(
        &mut pose,
        &mut scene,
        Incoming::BonePos { name: "LeftHand".to_string(), point },
    );
    assert_eq!(r, Ok(()));
    assert_eq!(pose.local_transform(Bone::LeftHand), (point.pos, point.rot));
    assert_eq!(pose.local_transform(Bone::RightHand), (Vec3A::ZERO, Quat::IDENTITY));

    let r = apply_incoming(
        &mut pose,
        &mut scene,
        Incoming::DevicePos { kind: DeviceKind::Tracker, name: "wheel".to_string(), point },
    );
    assert_eq!(r, Ok(()));
    assert_eq!(scene.devices().len(), 1);
    assert_eq!(scene.devices()[0].kind, DeviceKind::Tracker);

    let r = apply_incoming(
        &mut pose,
        &mut scene,
        Incoming::BlendVal { name: "Joy".to_string(), value: OscType::Float(0.5) },
    );
    assert_eq!(r, Ok(()));
    assert_eq!(scene.blendshapes()[0].value, OscType::Float(0.5));

    assert_eq!(apply_incoming(&mut pose, &mut scene, Incoming::BlendApply), Ok(()));

    assert!(!scene.tracking());
    let r = apply_incoming(&mut pose, &mut scene, Incoming::Tracking { flag: IntArg::Int(1) });
    assert_eq!(r, Ok(()));
    assert!(scene.tracking());
    let r = apply_incoming(&mut pose, &mut scene, Incoming::Tracking { flag: IntArg::Long(2) });
    assert_eq!(r, Ok(()));
    assert!(!scene.tracking());
    let r = apply_incoming(&mut pose, &mut scene, Incoming::Tracking { flag: IntArg::Long(1) });
    assert_eq!(r, Ok(()));
    assert!(scene.tracking());

    assert_eq!(*scene.time(), OscType::Float(-1.0));
    let r = apply_incoming(&mut pose, &mut scene, Incoming::Time { value: OscType::Float(12.5) });
    assert_eq!(r, Ok(()));
    assert_eq!(*scene.time(), OscType::Float(12.5));
}

#[test]
fn refused_messages_change_nothing() {
    let mut pose = Pose::new();
    let mut scene = scene();
    let point = TrackingPoint::new(Vec3A::new(0.0, 1.0, 0.0), Quat::from_rotation_y(0.5));
    let r = apply_incoming(
        &mut pose,
        &mut scene,
        Incoming::RootPos { name: "Root".to_string(), point },
    );
    assert_eq!(r, Err(MessageError::UnexpectedRootName));
    assert_eq!(pose.root_transform(), (Vec3A::ZERO, Quat::IDENTITY));
    let r = apply_incoming(
        &mut pose,
        &mut scene,
        Incoming::BonePos { name: "Tail".to_string(), point },
    );
    assert_eq!(r, Err(MessageError::UnknownBone));
    for bone in Bone::iter() {
        assert_eq!(pose.local_transform(bone), (Vec3A::ZERO, Quat::IDENTITY));
    }
    scene.set_tracking(1);
    let r = apply_incoming(
        &mut pose,
        &mut scene,
        Incoming::Tracking { flag: IntArg::Long(1 << 40) },
    );
    assert_eq!(r, Err(MessageError::IntegerOutOfRange));
    assert!(scene.tracking());
}

#[test]
fn neutral_render() {
    let mut pose = Pose::new();
    let mut scene = scene();
    let rest = TrackingPoint::new(Vec3A::ZERO, Quat::IDENTITY);
    let r = apply_incoming(
        &mut pose,
        &mut scene,
        Incoming::RootPos { name: "root".to_string(), point: rest },
    );
    assert_eq!(r, Ok(()));
    for bone in Bone::iter() {
        let r = apply_incoming(
            &mut pose,
            &mut scene,
            Incoming::BonePos { name: bone.name().to_string(), point: rest },
        );
        assert_eq!(r, Ok(()));
    }
    let content = build_outgoing(&pose, &scene);
    assert_eq!(content.len(), 59);
    let sent = messages(&encode_outgoing(&pose, &scene));
    assert_eq!(sent.len(), 1 + 55 + 0 + 0 + 1 + 1 + 1);
    assert_eq!(sent[0].addr, "/VMC/Ext/Root/Pos");
    assert_eq!(sent[0].args, point_args("root", Vec3A::ZERO, Quat::IDENTITY));
    for bone in Bone::iter() {
        let message = &sent[1 + bone.ordinal() as usize];
        assert_eq!(message.addr, "/VMC/Ext/Bone/Pos");
        assert_eq!(message.args, point_args(bone.name(), Vec3A::ZERO, Quat::IDENTITY));
        assert_eq!(
            message.args[4..],
            [
                OscType::Float(0.0),
                OscType::Float(0.0),
                OscType::Float(0.0),
                OscType::Float(1.0)
            ]
        );
    }
    assert_eq!(sent[56].addr, "/VMC/Ext/Blend/Apply");
    assert!(sent[56].args.is_empty());
    assert_eq!(sent[57].addr, "/VMC/Ext/OK");
    assert_eq!(sent[57].args, vec![OscType::Int(0)]);
    assert_eq!(sent[58].addr, "/VMC/Ext/T");
    assert_eq!(sent[58].args, vec![OscType::Float(-1.0)]);
}

#[test]
fn outgoing_bundle_round_trips() {
    let mut pose = Pose::new();
    let mut scene = scene();
    pose.set_root_transform(Vec3A::new(0.1, 0.2, 0.3), Quat::from_rotation_y(0.4));
    for bone in Bone::iter() {
        let k = bone.ordinal() as f32;
        pose.set_local_transform(bone, Vec3A::new(k, -k, 0.5 * k), Quat::from_rotation_z(0.01 * k));
    }
    let wheel = TrackingPoint::new(Vec3A::new(0.0, 1.2, 0.4), Quat::from_rotation_z(-1.0));
    let head = TrackingPoint::new(Vec3A::new(0.0, 1.7, 0.0), Quat::from_rotation_x(0.1));
    let pad = TrackingPoint::new(Vec3A::new(0.3, 1.0, 0.2), Quat::from_rotation_y(0.2));
    scene.update_device(DeviceKind::Tracker, "wheel", &wheel);
    scene.update_device(DeviceKind::Hmd, "head", &head);
    scene.update_device(DeviceKind::Controller, "pad", &pad);
    scene.update_blendshape("Joy", OscType::Float(0.5));
    scene.update_blendshape("Blink", OscType::Float(0.125));
    scene.update_blendshape("Joy", OscType::Float(0.75));
    scene.set_tracking(1);
    scene.set_time(OscType::Float(42.5));

    let built = build_outgoing(&pose, &scene);
    assert_eq!(built.len(), 1 + 55 + 3 + 2 + 3);
    let sent = messages(&encode_outgoing(&pose, &scene));
    assert_eq!(sent.len(), built.len());
    for (message, packet) in sent.iter().zip(built.iter()) {
        assert_eq!(OscPacket::Message(message.clone()), *packet);
    }

    let (root_pos, root_rot) = pose.root_transform();
    assert_eq!(sent[0].addr, "/VMC/Ext/Root/Pos");
    assert_eq!(sent[0].args, point_args("root", root_pos, root_rot));
    for bone in Bone::iter() {
        let (pos, rot) = pose.local_transform(bone);
        let message = &sent[1 + bone.ordinal() as usize];
        assert_eq!(message.addr, "/VMC/Ext/Bone/Pos");
        assert_eq!(message.args, point_args(bone.name(), pos, rot));
    }
    assert_eq!(sent[56].addr, "/VMC/Ext/Tra/Pos");
    assert_eq!(sent[56].args, point_args("wheel", wheel.pos, wheel.rot));
    assert_eq!(sent[57].addr, "/VMC/Ext/Hmd/Pos");
    assert_eq!(sent[57].args, point_args("head", head.pos, head.rot));
    assert_eq!(sent[58].addr, "/VMC/Ext/Con/Pos");
    assert_eq!(sent[58].args, point_args("pad", pad.pos, pad.rot));
    assert_eq!(sent[59].addr, "/VMC/Ext/Blend/Val");
    assert_eq!(sent[59].args, vec![OscType::String("Joy".to_string()), OscType::Float(0.75)]);
    assert_eq!(sent[60].addr, "/VMC/Ext/Blend/Val");
    assert_eq!(sent[60].args, vec![OscType::String("Blink".to_string()), OscType::Float(0.125)]);
    assert_eq!(sent[61].addr, "/VMC/Ext/Blend/Apply");
    assert!(sent[61].args.is_empty());
    assert_eq!(sent[62].addr, "/VMC/Ext/OK");
    assert_eq!(sent[62].args, vec![OscType::Int(1)]);
    assert_eq!(sent[63].addr, "/VMC/Ext/T");
    assert_eq!(sent[63].args, vec![OscType::Float(42.5)]);
}

#[test]
fn oversize_warning_is_given_once() {
    assert_eq!(MTU, 1500);
    let mut warning = OversizeWarning::new();
    assert!(!warning.check(1500));
    assert!(!warning.given);
    assert!(warning.check(1501));
    assert!(warning.given);
    assert!(!warning.check(4000));
    assert!(!warning.check(10));
    assert!(warning.given);
}
