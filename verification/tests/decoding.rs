use glam::{Quat, Vec3A};
use remote_wheel::bone::Bone;
use remote_wheel::osc::IntArg;
use remote_wheel::pose::Pose;
use remote_wheel::tracking::{DeviceKind, TrackingData};
use remote_wheel::transform::TrackingPoint;
use remote_wheel::vmc::{
    apply_incoming, decode, encode_outgoing, flatten, read_message, Address, Incoming, Message,
    MessageError,
};
use rosc::{OscBundle, OscMessage, OscPacket, OscType};

fn message(addr: &str, args: Vec<OscType>) -> OscPacket {
    OscPacket::Message(OscMessage { addr: addr.to_string(), args })
}

fn bundle(content: Vec<OscPacket>) -> OscPacket {
    OscPacket::Bundle(OscBundle { timetag: (0, 0).into(), content })
}

fn point_message(addr: &str, name: &str, numbers: [f32; 7]) -> Message {
    let mut args = vec![OscType::String(name.to_string())];
    args.extend(numbers.iter().map(|x| OscType::Float(*x)));
    Message { addr: addr.to_string(), args }
}

#[test]
fn datagrams_are_decoded() {
    let packet = bundle(vec![
        message("/VMC/Ext/OK", vec![OscType::Int(1)]),
        bundle(vec![message("/VMC/Ext/T", vec![OscType::Float(2.5)])]),
    ]);
    let bytes = rosc::encoder::encode(&packet).unwrap();
    let messages = decode(&bytes).unwrap();
    assert_eq!(messages.len(), 2);
    assert_eq!(messages[0].addr, "/VMC/Ext/OK");
    assert_eq!(messages[0].args, vec![OscType::Int(1)]);
    assert_eq!(messages[1].addr, "/VMC/Ext/T");
    assert_eq!(messages[1].args, vec![OscType::Float(2.5)]);
    assert!(decode(&[]).is_err());
    assert!(decode(b"not osc").is_err());
    let alone = rosc::encoder::encode(&message("/a", vec![OscType::Int(3), OscType::Nil])).unwrap();
    let messages = decode(&alone).unwrap();
    assert_eq!(messages.len(), 1);
    assert_eq!(messages[0].addr, "/a");
    assert_eq!(messages[0].args, vec![OscType::Int(3), OscType::Nil]);
}

#[test]
fn bundles_are_flattened_in_order() {
    let packet = bundle(vec![
        message("/1", vec![]),
        bundle(vec![
            message("/2", vec![OscType::Int(2)]),
            bundle(vec![]),
            bundle(vec![message("/3", vec![])]),
            message("/4", vec![]),
        ]),
        message("/5", vec![OscType::Bool(true)]),
    ]);
    let flat = flatten(&packet);
    let addrs: Vec<&str> = flat.iter().map(|m| m.addr.as_str()).collect();
    assert_eq!(addrs, vec!["/1", "/2", "/3", "/4", "/5"]);
    assert_eq!(flat[1].args, vec![OscType::Int(2)]);
    assert_eq!(flat[4].args, vec![OscType::Bool(true)]);
    let single = flatten(&message("/only", vec![OscType::Nil]));
    assert_eq!(single.len(), 1);
    assert_eq!(single[0].addr, "/only");
    assert!(flatten(&bundle(vec![])).is_empty());
}

#[test]
fn arguments_are_told_apart() {
    let kinds = [
        (OscType::Int(1), false, true),
        (OscType::Long(1), false, true),
        (OscType::Float(1.0), true, false),
        (OscType::Double(1.0), true, false),
        (OscType::String("a".to_string()), false, false),
        (OscType::Nil, false, false),
        (OscType::Bool(true), false, false),
        (OscType::Char('c'), false, false),
    ];
    for (arg, number, whole) in kinds {
        let as_time = Address::Time.read(&vec![arg.clone()]);
        let as_flag = Address::Tracking.read(&vec![arg.clone()]);
        assert_eq!(as_time.is_ok(), number, "{:?}", arg);
        assert_eq!(as_flag.is_ok(), whole, "{:?}", arg);
        if !number {
            assert_eq!(as_time.unwrap_err(), MessageError::WrongArgumentType { index: 0 });
        }
        if !whole {
            assert_eq!(as_flag.unwrap_err(), MessageError::WrongArgumentType { index: 0 });
        }
        let named = matches!(arg, OscType::String(_));
        let as_blend = Address::BlendVal.read(&vec![arg.clone(), OscType::Float(0.0)]);
        assert_eq!(as_blend.is_ok(), named, "{:?}", arg);
    }
}

#[test]
fn transforms_are_read() {
    let root = point_message("/VMC/Ext/Root/Pos", "root", [1.0, 2.0, 3.0, 0.0, 0.0, 0.0, 2.0]);
    match read_message(&root).unwrap() {
        Incoming::RootPos { name, point } => {
            assert_eq!(name, "root");
            assert_eq!(point.pos, Vec3A::new(1.0, 2.0, 3.0));
            assert_eq!(point.rot, Quat::IDENTITY);
        }
        other => panic!("{:?}", other),
    }
    let bone = point_message("/VMC/Ext/Bone/Pos", "Head", [0.0, 0.5, 0.0, 0.0, 3.0, 0.0, 4.0]);
    match read_message(&bone).unwrap() {
        Incoming::BonePos { name, point } => {
            assert_eq!(name, "Head");
            assert_eq!(point.pos, Vec3A::new(0.0, 0.5, 0.0));
            assert_eq!(point.rot, Quat::from_xyzw(0.0, 3.0, 0.0, 4.0).normalize());
            assert!((point.rot.y - 0.6).abs() < 1e-6);
            assert!((point.rot.w - 0.8).abs() < 1e-6);
        }
        other => panic!("{:?}", other),
    }
    let kinds = [
        ("/VMC/Ext/Con/Pos", DeviceKind::Controller),
        ("/VMC/Ext/Hmd/Pos", DeviceKind::Hmd),
        ("/VMC/Ext/Tra/Pos", DeviceKind::Tracker),
    ];
    for (addr, expected) in kinds {
        let device = point_message(addr, "wheel", [0.0, 1.0, 0.0, 1.0, 0.0, 0.0, 0.0]);
        match read_message(&device).unwrap() {
            Incoming::DevicePos { kind, name, point } => {
                assert_eq!(kind, expected);
                assert_eq!(name, "wheel");
                assert_eq!(point.rot, Quat::from_xyzw(1.0, 0.0, 0.0, 0.0));
            }
            other => panic!("{:?}", other),
        }
    }
}

#[test]
fn doubles_are_read_as_singles() {
    let mixed = Message {
        addr: "/VMC/Ext/Bone/Pos".to_string(),
        args: vec![
            OscType::String("Hips".to_string()),
            OscType::Double(0.1),
            OscType::Float(0.2),
            OscType::Double(0.3),
            OscType::Double(0.0),
            OscType::Float(0.0),
            OscType::Double(0.0),
            OscType::Double(1.0),
        ],
    };
    match read_message(&mixed).unwrap() {
        Incoming::BonePos { point, .. } => {
            assert_eq!(point.pos, Vec3A::new(0.1f64 as f32, 0.2, 0.3f64 as f32));
            assert_eq!(point.rot, Quat::IDENTITY);
        }
        other => panic!("{:?}", other),
    }
    let blend = Message {
        addr: "/VMC/Ext/Blend/Val".to_string(),
        args: vec![OscType::String("Joy".to_string()), OscType::Double(0.7)],
    };
    match read_message(&blend).unwrap() {
        Incoming::BlendVal { name, value } => {
            assert_eq!(name, "Joy");
            assert_eq!(value, OscType::Float(0.7f64 as f32));
        }
        other => panic!("{:?}", other),
    }
    let time = Message { addr: "/VMC/Ext/T".to_string(), args: vec![OscType::Double(1.5)] };
    match read_message(&time).unwrap() {
        Incoming::Time { value } => assert_eq!(value, OscType::Float(1.5)),
        other => panic!("{:?}", other),
    }
}

#[test]
fn flags_and_apply_are_read() {
    let ok = Message { addr: "/VMC/Ext/OK".to_string(), args: vec![OscType::Int(1)] };
    match read_message(&ok).unwrap() {
        Incoming::Tracking { flag } => assert_eq!(flag, IntArg::Int(1)),
        other => panic!("{:?}", other),
    }
    let ok = Message { addr: "/VMC/Ext/OK".to_string(), args: vec![OscType::Long(1 << 33)] };
    match read_message(&ok).unwrap() {
        Incoming::Tracking { flag } => {
            assert_eq!(flag, IntArg::Long(1 << 33));
            assert_eq!(flag.to_i32(), Err(MessageError::IntegerOutOfRange));
        }
        other => panic!("{:?}", other),
    }
    let apply = Message { addr: "/VMC/Ext/Blend/Apply".to_string(), args: vec![] };
    assert!(matches!(read_message(&apply), Ok(Incoming::BlendApply)));
    let apply = Message { addr: "/VMC/Ext/Blend/Apply".to_string(), args: vec![OscType::Nil] };
    assert!(matches!(read_message(&apply), Ok(Incoming::BlendApply)));
    assert!(matches!(Address::BlendApply.read(&vec![]), Ok(Incoming::BlendApply)));
}

#[test]
fn faulty_messages_are_refused() {
    let unknown = Message { addr: "/VMC/Ext/Cam".to_string(), args: vec![] };
    assert_eq!(read_message(&unknown).unwrap_err(), MessageError::UnrecognizedAddress);
    let short = Message {
        addr: "/VMC/Ext/Root/Pos".to_string(),
        args: vec![OscType::String("root".to_string())],
    };
    assert_eq!(
        read_message(&short).unwrap_err(),
        MessageError::WrongArgumentCount { expected: 8, got: 1 }
    );
    let mut wrong = point_message("/VMC/Ext/Bone/Pos", "Hips", [0.0; 7]);
    wrong.args[3] = OscType::Int(0);
    wrong.args[5] = OscType::Nil;
    assert_eq!(read_message(&wrong).unwrap_err(), MessageError::WrongArgumentType { index: 3 });
    let mut nameless = point_message("/VMC/Ext/Tra/Pos", "x", [0.0; 7]);
    nameless.args[0] = OscType::Float(0.0);
    assert_eq!(read_message(&nameless).unwrap_err(), MessageError::WrongArgumentType { index: 0 });
    let blend = Message {
        addr: "/VMC/Ext/Blend/Val".to_string(),
        args: vec![OscType::String("Joy".to_string()), OscType::Int(1)],
    };
    assert_eq!(read_message(&blend).unwrap_err(), MessageError::WrongArgumentType { index: 1 });
    let flag = Message { addr: "/VMC/Ext/OK".to_string(), args: vec![OscType::Float(1.0)] };
    assert_eq!(read_message(&flag).unwrap_err(), MessageError::WrongArgumentType { index: 0 });
    let time = Message { addr: "/VMC/Ext/T".to_string(), args: vec![] };
    assert_eq!(
        read_message(&time).unwrap_err(),
        MessageError::WrongArgumentCount { expected: 1, got: 0 }
    );
}

#[test]
fn codec_round_trip() {
    let mut pose = Pose::new();
    let mut scene = TrackingData::new(OscType::Float(-1.0));
    pose.set_root_transform(Vec3A::new(0.1, 0.2, 0.3), Quat::from_rotation_y(0.4));
    for bone in Bone::iter() {
        let k = bone.ordinal() as f32;
        pose.set_local_transform(
            bone,
            Vec3A::new(0.25 * k, -0.5, 0.125 * k),
            Quat::from_rotation_z(0.01 * k),
        );
    }
    let wheel = TrackingPoint::new(Vec3A::new(0.0, 1.25, 0.5), Quat::from_rotation_z(-1.0));
    scene.update_device(DeviceKind::Tracker, "wheel", &wheel);
    scene.update_device(DeviceKind::Hmd, "head", &wheel);
    scene.update_blendshape("Joy", OscType::Float(0.5));
    scene.update_blendshape("Blink", OscType::Float(0.125));
    scene.set_tracking(1);
    scene.set_time(OscType::Float(42.5));
    let bytes = encode_outgoing(&pose, &scene);

    let mut pose_back = Pose::new();
    let mut scene_back = TrackingData::new(OscType::Float(-1.0));
    let flat = decode(&bytes).unwrap();
    assert_eq!(flat.len(), 1 + 55 + 2 + 2 + 3);
    for (i, bone) in Bone::iter().into_iter().enumerate() {
        assert_eq!(flat[1 + i].addr, "/VMC/Ext/Bone/Pos");
        assert_eq!(flat[1 + i].args[0], OscType::String(bone.name().to_string()));
    }
    for m in &flat {
        let incoming = read_message(m).unwrap();
        assert_eq!(apply_incoming(&mut pose_back, &mut scene_back, incoming), Ok(()));
    }
    let close = |a: Quat, b: Quat| a.dot(b).abs() > 1.0 - 1e-6;
    assert_eq!(pose_back.root_transform().0, pose.root_transform().0);
    assert!(close(pose_back.root_transform().1, pose.root_transform().1));
    for bone in Bone::iter() {
        assert_eq!(pose_back.local_transform(bone).0, pose.local_transform(bone).0);
        assert!(close(pose_back.local_transform(bone).1, pose.local_transform(bone).1));
    }
    assert_eq!(scene_back.devices().len(), 2);
    for (a, b) in scene_back.devices().iter().zip(scene.devices().iter()) {
        assert_eq!((a.kind, &a.name, a.point.pos), (b.kind, &b.name, b.point.pos));
        assert!(close(a.point.rot, b.point.rot));
    }
    assert_eq!(scene_back.blendshapes().len(), 2);
    for (a, b) in scene_back.blendshapes().iter().zip(scene.blendshapes().iter()) {
        assert_eq!((&a.name, &a.value), (&b.name, &b.value));
    }
    assert!(scene_back.tracking());
    assert_eq!(*scene_back.time(), OscType::Float(42.5));
}
