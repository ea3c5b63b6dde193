//! The OSC values that the VMC stream is made of. Messages are built and
//! encoded by `rosc`; this module declares its types and names what its
//! constructors and its encoder return.

use vstd::prelude::*;

verus! {

/// `rosc::OscType`, one argument of a message; the verifier sees nothing
/// inside it. Float arguments are carried through the library as values of
/// this type.
#[verifier::external_type_specification]
#[verifier::external_body]
pub struct ExOscType(rosc::OscType);

/// `rosc::OscPacket`, a message or a bundle; the verifier sees nothing
/// inside it.
#[verifier::external_type_specification]
#[verifier::external_body]
pub struct ExOscPacket(rosc::OscPacket);

/// `rosc::OscError`, the decoder's error; it is handed on as it is.
#[verifier::external_type_specification]
#[verifier::external_body]
pub struct ExOscError(rosc::OscError);

/// Trusted: the derived `clone` of `rosc::OscType` returns an equal value.
pub assume_specification[ <rosc::OscType as Clone>::clone ](a: &rosc::OscType) -> (r:
    rosc::OscType)
    ensures
        r == *a,
;

/// The message to `addr` whose arguments are a name, the three components of
/// a position and the four components of a rotation, each a 32-bit float.
pub uninterp spec fn point_message(
    addr: Seq<char>,
    name: Seq<char>,
    pos: glam::Vec3A,
    rot: glam::Quat,
) -> rosc::OscPacket;

/// The message to `addr` whose arguments are a name and a value.
pub uninterp spec fn value_message(addr: Seq<char>, name: Seq<char>, value: rosc::OscType) -> rosc::OscPacket;

/// The message to `addr` whose one argument is a value.
pub uninterp spec fn scalar_message(addr: Seq<char>, value: rosc::OscType) -> rosc::OscPacket;

/// The message to `addr` whose one argument is a 32-bit integer.
pub uninterp spec fn int_message(addr: Seq<char>, value: i32) -> rosc::OscPacket;

/// The message to `addr` without arguments.
pub uninterp spec fn empty_message(addr: Seq<char>) -> rosc::OscPacket;

/// The bundle with time tag zero that holds the given packets in order.
pub uninterp spec fn bundle_of(content: Seq<rosc::OscPacket>) -> rosc::OscPacket;

/// The bytes of a packet in the OSC 1.0 encoding.
pub uninterp spec fn osc_encoding(packet: rosc::OscPacket) -> Seq<u8>;

/// Trusted: a `rosc::OscMessage` is made of an address and arguments; this
/// one gets the name as a string argument and seven float arguments read
/// from the fields of the two `glam` values. The result depends on the four
/// arguments alone.
#[verifier::external_body]
pub(crate) fn make_point_message(addr: &str, name: &str, pos: glam::Vec3A, rot: glam::Quat) -> (r:
    rosc::OscPacket)
    ensures
        r == point_message(addr@, name@, pos, rot),
{
    rosc::OscPacket::Message(rosc::OscMessage {
        addr: addr.to_owned(),
        args: vec![
            rosc::OscType::String(name.to_owned()),
            rosc::OscType::Float(pos.x),
            rosc::OscType::Float(pos.y),
            rosc::OscType::Float(pos.z),
            rosc::OscType::Float(rot.x),
            rosc::OscType::Float(rot.y),
            rosc::OscType::Float(rot.z),
            rosc::OscType::Float(rot.w),
        ],
    })
}

/// Trusted: the `rosc::OscMessage` with the name as a string argument and
/// the value as the second argument.
#[verifier::external_body]
pub(crate) fn make_value_message(addr: &str, name: &str, value: rosc::OscType) -> (r: rosc::OscPacket)
    ensures
        r == value_message(addr@, name@, value),
{
    rosc::OscPacket::Message(rosc::OscMessage {
        addr: addr.to_owned(),
        args: vec![rosc::OscType::String(name.to_owned()), value],
    })
}

/// Trusted: the `rosc::OscMessage` with the value as its one argument.
#[verifier::external_body]
pub(crate) fn make_scalar_message(addr: &str, value: rosc::OscType) -> (r: rosc::OscPacket)
    ensures
        r == scalar_message(addr@, value),
{
    rosc::OscPacket::Message(rosc::OscMessage { addr: addr.to_owned(), args: vec![value] })
}

/// Trusted: the `rosc::OscMessage` with one `rosc::OscType::Int` argument.
#[verifier::external_body]
pub(crate) fn make_int_message(addr: &str, value: i32) -> (r: rosc::OscPacket)
    ensures
        r == int_message(addr@, value),
{
    rosc::OscPacket::Message(rosc::OscMessage {
        addr: addr.to_owned(),
        args: vec![rosc::OscType::Int(value)],
    })
}

/// Trusted: the `rosc::OscMessage` with no argument.
#[verifier::external_body]
pub(crate) fn make_empty_message(addr: &str) -> (r: rosc::OscPacket)
    ensures
        r == empty_message(addr@),
{
    rosc::OscPacket::Message(rosc::OscMessage { addr: addr.to_owned(), args: vec![] })
}

/// Trusted: the `rosc::OscBundle` with the time tag made from `(0, 0)` and
/// the given packets as its content, in the given order.
#[verifier::external_body]
pub(crate) fn make_bundle(content: Vec<rosc::OscPacket>) -> (r: rosc::OscPacket)
    ensures
        r == bundle_of(content@),
{
    rosc::OscPacket::Bundle(rosc::OscBundle { timetag: (0, 0).into(), content })
}

/// Trusted: `rosc::encoder::encode` writes a packet into a fresh byte vector;
/// writing into a vector cannot fail, so the call always returns `Ok`, and
/// the bytes depend on the packet alone.
#[verifier::external_body]
pub(crate) fn encode_packet(packet: &rosc::OscPacket) -> (r: Vec<u8>)
    ensures
        r@ == osc_encoding(*packet),
{
    rosc::encoder::encode(packet).unwrap_or_default()
}

/// The type of an OSC argument, as far as the stream tells types apart.
#[derive(Clone, Copy, Debug, PartialEq, Eq, Structural, Hash)]
pub enum ArgKind {
    Int,
    Long,
    Float,
    Double,
    String,
    Other,
}

/// A whole-number argument as it arrives: in 32 or in 64 bits.
#[derive(Clone, Copy, Debug, PartialEq, Eq, Structural)]
pub enum IntArg {
    Int(i32),
    Long(i64),
}

/// A packet taken apart one level: a message with its address and
/// arguments, or a bundle with the packets it holds.
pub enum Unpacked {
    Message { addr: String, args: Vec<rosc::OscType> },
    Bundle { content: Vec<rosc::OscPacket> },
}

/// What decoding a datagram gives: the packet it holds, or the reason why
/// it holds none.
pub uninterp spec fn osc_decoding(data: Seq<u8>) -> Result<rosc::OscPacket, rosc::OscError>;

/// Whether a packet is a message; otherwise it is a bundle.
pub uninterp spec fn packet_is_message(packet: rosc::OscPacket) -> bool;

/// The address of a message.
pub uninterp spec fn packet_address(packet: rosc::OscPacket) -> Seq<char>;

/// The arguments of a message.
pub uninterp spec fn packet_args(packet: rosc::OscPacket) -> Seq<rosc::OscType>;

/// The packets that a bundle holds, in order.
pub uninterp spec fn packet_content(packet: rosc::OscPacket) -> Seq<rosc::OscPacket>;

/// How deep bundles are nested in a packet.
pub uninterp spec fn packet_depth(packet: rosc::OscPacket) -> nat;

/// The type of an argument.
pub uninterp spec fn kind_of(arg: rosc::OscType) -> ArgKind;

/// The text of a string argument; the empty text for any other.
pub uninterp spec fn text_of(arg: rosc::OscType) -> Seq<char>;

/// The number of an integer argument of either width; zero for any other.
pub uninterp spec fn whole_of(arg: rosc::OscType) -> IntArg;

/// A number argument as a 32-bit float argument: a 32-bit float as it is, a
/// 64-bit float rounded to 32 bits; any other argument as it is.
pub uninterp spec fn single_of(arg: rosc::OscType) -> rosc::OscType;

/// The vector whose components are the numbers of three float arguments.
pub uninterp spec fn vec3a_of_numbers(x: rosc::OscType, y: rosc::OscType, z: rosc::OscType) -> glam::Vec3A;

/// The quaternion whose components are the numbers of four float arguments.
pub uninterp spec fn quat_of_numbers(
    x: rosc::OscType,
    y: rosc::OscType,
    z: rosc::OscType,
    w: rosc::OscType,
) -> glam::Quat;

/// Trusted: `rosc::decoder::decode_udp` parses a datagram into a packet or
/// returns an error, without panicking; the bytes after the packet, which it
/// returns too, are dropped here. The result depends on the bytes alone.
#[verifier::external_body]
pub(crate) fn decode_datagram(data: &[u8]) -> (r: Result<rosc::OscPacket, rosc::OscError>)
    ensures
        r == osc_decoding(data@),
{
    rosc::decoder::decode_udp(data).map(|(_, packet)| packet)
}

/// Trusted: a `rosc::OscPacket` is a message, with an address and
/// arguments, or a bundle, with a list of packets; the parts are cloned out
/// as they are. A packet is a finite tree, so each packet of a bundle is
/// nested less deeply than the bundle.
#[verifier::external_body]
pub(crate) fn unpack(packet: &rosc::OscPacket) -> (r: Unpacked)
    ensures
        match r {
            Unpacked::Message { addr, args } => packet_is_message(*packet) && addr@
                == packet_address(*packet) && args@ == packet_args(*packet),
            Unpacked::Bundle { content } => !packet_is_message(*packet) && content@
                == packet_content(*packet) && (forall|i: int|
                0 <= i < content@.len() ==> packet_depth(#[trigger] content@[i]) < packet_depth(
                    *packet,
                )),
        },
{
    match packet {
        rosc::OscPacket::Message(m) => Unpacked::Message {
            addr: m.addr.clone(),
            args: m.args.clone(),
        },
        rosc::OscPacket::Bundle(b) => Unpacked::Bundle { content: b.content.clone() },
    }
}

/// Trusted: tells the variants of `rosc::OscType` apart.
#[verifier::external_body]
pub(crate) fn arg_kind(arg: &rosc::OscType) -> (r: ArgKind)
    ensures
        r == kind_of(*arg),
{
    match arg {
        rosc::OscType::Int(_) => ArgKind::Int,
        rosc::OscType::Long(_) => ArgKind::Long,
        rosc::OscType::Float(_) => ArgKind::Float,
        rosc::OscType::Double(_) => ArgKind::Double,
        rosc::OscType::String(_) => ArgKind::String,
        _ => ArgKind::Other,
    }
}

/// Trusted: the string that a `rosc::OscType::String` holds.
#[verifier::external_body]
pub(crate) fn arg_text(arg: &rosc::OscType) -> (r: String)
    ensures
        r@ == text_of(*arg),
{
    match arg {
        rosc::OscType::String(s) => s.clone(),
        _ => String::new(),
    }
}

/// Trusted: the integer that a `rosc::OscType::Int` or a
/// `rosc::OscType::Long` holds, in its own width.
#[verifier::external_body]
pub(crate) fn arg_whole(arg: &rosc::OscType) -> (r: IntArg)
    ensures
        r == whole_of(*arg),
{
    match arg {
        rosc::OscType::Int(x) => IntArg::Int(*x),
        rosc::OscType::Long(x) => IntArg::Long(*x),
        _ => IntArg::Int(0),
    }
}

/// Trusted: a `rosc::OscType::Double` becomes the `rosc::OscType::Float` of
/// the same number cast to 32 bits, the cast being the one that
/// `glam::DVec2::as_vec2` makes of each component; every other argument is
/// cloned.
#[verifier::external_body]
pub(crate) fn arg_single(arg: &rosc::OscType) -> (r: rosc::OscType)
    ensures
        r == single_of(*arg),
{
    match arg {
        rosc::OscType::Double(x) => rosc::OscType::Float(glam::DVec2::splat(*x).as_vec2().x),
        other => other.clone(),
    }
}

/// Trusted: `glam::Vec3A::new` of the numbers that three
/// `rosc::OscType::Float` arguments hold, zero standing for an argument of
/// another type.
#[verifier::external_body]
pub(crate) fn vec3a_from_numbers(x: &rosc::OscType, y: &rosc::OscType, z: &rosc::OscType) -> (r:
    glam::Vec3A)
    ensures
        r == vec3a_of_numbers(*x, *y, *z),
{
    glam::Vec3A::new(
        x.clone().float().unwrap_or_default(),
        y.clone().float().unwrap_or_default(),
        z.clone().float().unwrap_or_default(),
    )
}

/// Trusted: `glam::Quat::from_xyzw` of the numbers that four
/// `rosc::OscType::Float` arguments hold, zero standing for an argument of
/// another type.
#[verifier::external_body]
pub(crate) fn quat_from_numbers(
    x: &rosc::OscType,
    y: &rosc::OscType,
    z: &rosc::OscType,
    w: &rosc::OscType,
) -> (r: glam::Quat)
    ensures
        r == quat_of_numbers(*x, *y, *z, *w),
{
    glam::Quat::from_xyzw(
        x.clone().float().unwrap_or_default(),
        y.clone().float().unwrap_or_default(),
        z.clone().float().unwrap_or_default(),
        w.clone().float().unwrap_or_default(),
    )
}

} // verus!
