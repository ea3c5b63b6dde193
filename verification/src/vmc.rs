//! The rules of the VMC stream: which addresses exist and what arguments
//! each takes, what an incoming message does to the pose and the scene, and
//! which messages go out, in which order.

use vstd::prelude::*;

use crate::bone::{str_eq, Bone};
use crate::osc::{
    arg_kind, arg_single, arg_text, arg_whole, bundle_of, decode_datagram, empty_message,
    encode_packet, int_message, kind_of, make_bundle, make_empty_message, make_int_message,
    make_point_message, make_scalar_message, make_value_message, osc_decoding, osc_encoding,
    packet_address, packet_args, packet_content, packet_depth, packet_is_message, point_message,
    quat_from_numbers, quat_of_numbers, scalar_message, single_of, text_of, unpack,
    value_message, vec3a_from_numbers, vec3a_of_numbers, whole_of, ArgKind, IntArg, Unpacked,
};
use crate::pose::Pose;
use crate::tracking::{slot_of, DeviceKind, TrackingData};
use crate::transform::{quat_normalize, quat_unit, TrackingPoint};

verus! {

/// The size in bytes above which an encoded bundle may not pass every link.
pub const MTU: usize = 1500;

/// The addresses of the VMC stream.
#[derive(Clone, Copy, Debug, PartialEq, Eq, Structural, Hash)]
pub enum Address {
    RootPos,
    BonePos,
    ControllerPos,
    HmdPos,
    TrackerPos,
    BlendVal,
    BlendApply,
    Tracking,
    Time,
}

/// What an address wants at one place of its argument list.
#[derive(Clone, Copy, Debug, PartialEq, Eq, Structural, Hash)]
pub enum Expected {
    /// A string.
    Name,
    /// A 32-bit or a 64-bit float.
    Number,
    /// A 32-bit or a 64-bit integer.
    Whole,
}

/// Why a message was not applied.
#[derive(Clone, Copy, Debug, PartialEq, Eq, Structural)]
pub enum MessageError {
    /// No rule is known for the address.
    UnrecognizedAddress,
    /// The address takes `expected` arguments and got `got`.
    WrongArgumentCount { expected: usize, got: usize },
    /// The argument at `index`, counted from zero, has another type than the
    /// address wants there.
    WrongArgumentType { index: usize },
    /// A 64-bit integer does not fit in 32 bits.
    IntegerOutOfRange,
    /// The root transform came under a name other than `root`.
    UnexpectedRootName,
    /// A bone transform came under a name that no bone carries.
    UnknownBone,
}

impl DeviceKind {
    /// The address under which devices of this kind travel.
    pub open spec fn spec_address(self) -> Address {
        match self {
            DeviceKind::Hmd => Address::HmdPos,
            DeviceKind::Controller => Address::ControllerPos,
            DeviceKind::Tracker => Address::TrackerPos,
        }
    }

    pub fn address(&self) -> (r: Address)
        ensures
            r == self.spec_address(),
    {
        match *self {
            DeviceKind::Hmd => Address::HmdPos,
            DeviceKind::Controller => Address::ControllerPos,
            DeviceKind::Tracker => Address::TrackerPos,
        }
    }
}

impl Expected {
    /// Whether an argument of type `kind` is what is wanted.
    pub open spec fn spec_admits(self, kind: ArgKind) -> bool {
        match self {
            Expected::Name => kind == ArgKind::String,
            Expected::Number => kind == ArgKind::Float || kind == ArgKind::Double,
            Expected::Whole => kind == ArgKind::Int || kind == ArgKind::Long,
        }
    }

    pub fn admits(&self, kind: ArgKind) -> (r: bool)
        ensures
            r == self.spec_admits(kind),
    {
        match *self {
            Expected::Name => kind == ArgKind::String,
            Expected::Number => kind == ArgKind::Float || kind == ArgKind::Double,
            Expected::Whole => kind == ArgKind::Int || kind == ArgKind::Long,
        }
    }
}

impl Address {
    /// The address as it is written on the wire.
    pub open spec fn spec_path(self) -> Seq<char> {
        match self {
            Address::RootPos => "/VMC/Ext/Root/Pos"@,
            Address::BonePos => "/VMC/Ext/Bone/Pos"@,
            Address::ControllerPos => "/VMC/Ext/Con/Pos"@,
            Address::HmdPos => "/VMC/Ext/Hmd/Pos"@,
            Address::TrackerPos => "/VMC/Ext/Tra/Pos"@,
            Address::BlendVal => "/VMC/Ext/Blend/Val"@,
            Address::BlendApply => "/VMC/Ext/Blend/Apply"@,
            Address::Tracking => "/VMC/Ext/OK"@,
            Address::Time => "/VMC/Ext/T"@,
        }
    }

    /// How many arguments the address takes; `None` where any number goes.
    pub open spec fn spec_arity(self) -> Option<usize> {
        match self {
            Address::RootPos => Some(8),
            Address::BonePos => Some(8),
            Address::ControllerPos => Some(8),
            Address::HmdPos => Some(8),
            Address::TrackerPos => Some(8),
            Address::BlendVal => Some(2),
            Address::BlendApply => None,
            Address::Tracking => Some(1),
            Address::Time => Some(1),
        }
    }

    /// What the address wants at place `index` of its arguments: a
    /// transform comes as a name and seven numbers, a blendshape as a name
    /// and a number, the tracking flag as a whole number, the time as a
    /// number.
    pub open spec fn spec_expected(self, index: int) -> Expected {
        match self {
            Address::Tracking => Expected::Whole,
            Address::Time => Expected::Number,
            _ => if index == 0 {
                Expected::Name
            } else {
                Expected::Number
            },
        }
    }

    pub fn path(&self) -> (r: &'static str)
        ensures
            r@ == self.spec_path(),
    {
        match *self {
            Address::RootPos => "/VMC/Ext/Root/Pos",
            Address::BonePos => "/VMC/Ext/Bone/Pos",
            Address::ControllerPos => "/VMC/Ext/Con/Pos",
            Address::HmdPos => "/VMC/Ext/Hmd/Pos",
            Address::TrackerPos => "/VMC/Ext/Tra/Pos",
            Address::BlendVal => "/VMC/Ext/Blend/Val",
            Address::BlendApply => "/VMC/Ext/Blend/Apply",
            Address::Tracking => "/VMC/Ext/OK",
            Address::Time => "/VMC/Ext/T",
        }
    }

    pub fn arity(&self) -> (r: Option<usize>)
        ensures
            r == self.spec_arity(),
    {
        match *self {
            Address::BlendVal => Some(2),
            Address::BlendApply => None,
            Address::Tracking => Some(1),
            Address::Time => Some(1),
            _ => Some(8),
        }
    }

    pub fn expected(&self, index: usize) -> (r: Expected)
        ensures
            r == self.spec_expected(index as int),
    {
        match *self {
            Address::Tracking => Expected::Whole,
            Address::Time => Expected::Number,
            _ => if index == 0 {
                Expected::Name
            } else {
                Expected::Number
            },
        }
    }

    /// Reads an address off the wire: the address that is written so, or
    /// the error where there is none.
    pub fn parse(addr: &str) -> (r: Result<Address, MessageError>)
        ensures
            match r {
                Ok(a) => a.spec_path() == addr@,
                Err(e) => e == MessageError::UnrecognizedAddress && forall|a: Address|
                    a.spec_path() != addr@,
            },
    {
        if str_eq(addr, "/VMC/Ext/Root/Pos") {
            Ok(Address::RootPos)
        } else if str_eq(addr, "/VMC/Ext/Bone/Pos") {
            Ok(Address::BonePos)
        } else if str_eq(addr, "/VMC/Ext/Con/Pos") {
            Ok(Address::ControllerPos)
        } else if str_eq(addr, "/VMC/Ext/Hmd/Pos") {
            Ok(Address::HmdPos)
        } else if str_eq(addr, "/VMC/Ext/Tra/Pos") {
            Ok(Address::TrackerPos)
        } else if str_eq(addr, "/VMC/Ext/Blend/Val") {
            Ok(Address::BlendVal)
        } else if str_eq(addr, "/VMC/Ext/Blend/Apply") {
            Ok(Address::BlendApply)
        } else if str_eq(addr, "/VMC/Ext/OK") {
            Ok(Address::Tracking)
        } else if str_eq(addr, "/VMC/Ext/T") {
            Ok(Address::Time)
        } else {
            Err(MessageError::UnrecognizedAddress)
        }
    }

    /// Whether a message to this address may carry arguments of the given
    /// types.
    pub open spec fn spec_accepts(self, kinds: Seq<ArgKind>) -> bool {
        &&& self.spec_arity().is_some() ==> kinds.len() == self.spec_arity().unwrap()
        &&& self != Address::BlendApply ==> forall|i: int|
            0 <= i < kinds.len() ==> self.spec_expected(i).spec_admits(#[trigger] kinds[i])
    }

    /// Whether `fault` is the first fault of arguments of the given types:
    /// the wrong number of them, or else the first argument, in order, of a
    /// type that the address does not want at its place.
    pub open spec fn spec_fault(self, kinds: Seq<ArgKind>, fault: MessageError) -> bool {
        match fault {
            MessageError::WrongArgumentCount { expected, got } => self.spec_arity() == Some(
                expected,
            ) && got == kinds.len() && got != expected,
            MessageError::WrongArgumentType { index } => self.spec_arity() == Some(
                kinds.len() as usize,
            ) && index < kinds.len() && !self.spec_expected(index as int).spec_admits(
                kinds[index as int],
            ) && forall|i: int|
                0 <= i < index ==> self.spec_expected(i).spec_admits(#[trigger] kinds[i]),
            _ => false,
        }
    }

    /// Checks the arguments of a message to this address by their types. The
    /// number of arguments is checked first, then each argument in order;
    /// the first fault found is the error.
    pub fn check_arguments(&self, kinds: &[ArgKind]) -> (r: Result<(), MessageError>)
        ensures
            r.is_ok() <==> self.spec_accepts(kinds@),
            r.is_err() ==> self.spec_fault(kinds@, r.unwrap_err()),
    {
        let wanted = match self.arity() {
            Some(n) => n,
            None => {
                return Ok(());
            },
        };
        if kinds.len() != wanted {
            return Err(MessageError::WrongArgumentCount { expected: wanted, got: kinds.len() });
        }
        let mut i: usize = 0;
        while i < kinds.len()
            invariant
                i <= kinds@.len(),
                *self != Address::BlendApply,
                self.spec_arity() == Some(wanted),
                kinds@.len() == wanted,
                forall|k: int| 0 <= k < i ==> self.spec_expected(k).spec_admits(#[trigger] kinds@[k]),
            decreases kinds@.len() - i,
        {
            if !self.expected(i).admits(kinds[i]) {
                return Err(MessageError::WrongArgumentType { index: i });
            }
            i += 1;
        }
        Ok(())
    }
}

/// The length of an address and the first character after `/VMC/Ext/`:
/// enough to tell any two addresses apart.
pub open spec fn path_key(s: Seq<char>) -> (nat, char) {
    (
        s.len(),
        if s.len() > 9 {
            s[9]
        } else {
            ' '
        },
    )
}

spec fn address_key(a: Address) -> (nat, char) {
    match a {
        Address::RootPos => (17, 'R'),
        Address::BonePos => (17, 'B'),
        Address::ControllerPos => (16, 'C'),
        Address::HmdPos => (16, 'H'),
        Address::TrackerPos => (16, 'T'),
        Address::BlendVal => (18, 'B'),
        Address::BlendApply => (20, 'B'),
        Address::Tracking => (11, 'O'),
        Address::Time => (10, 'T'),
    }
}

proof fn lemma_path_key(a: Address)
    ensures
        path_key(a.spec_path()) == address_key(a),
{
    match a {
        Address::RootPos => {
            reveal_strlit("/VMC/Ext/Root/Pos");
            assert(path_key("/VMC/Ext/Root/Pos"@) == address_key(a));
        },
        Address::BonePos => {
            reveal_strlit("/VMC/Ext/Bone/Pos");
            assert(path_key("/VMC/Ext/Bone/Pos"@) == address_key(a));
        },
        Address::ControllerPos => {
            reveal_strlit("/VMC/Ext/Con/Pos");
            assert(path_key("/VMC/Ext/Con/Pos"@) == address_key(a));
        },
        Address::HmdPos => {
            reveal_strlit("/VMC/Ext/Hmd/Pos");
            assert(path_key("/VMC/Ext/Hmd/Pos"@) == address_key(a));
        },
        Address::TrackerPos => {
            reveal_strlit("/VMC/Ext/Tra/Pos");
            assert(path_key("/VMC/Ext/Tra/Pos"@) == address_key(a));
        },
        Address::BlendVal => {
            reveal_strlit("/VMC/Ext/Blend/Val");
            assert(path_key("/VMC/Ext/Blend/Val"@) == address_key(a));
        },
        Address::BlendApply => {
            reveal_strlit("/VMC/Ext/Blend/Apply");
            assert(path_key("/VMC/Ext/Blend/Apply"@) == address_key(a));
        },
        Address::Tracking => {
            reveal_strlit("/VMC/Ext/OK");
            assert(path_key("/VMC/Ext/OK"@) == address_key(a));
        },
        Address::Time => {
            reveal_strlit("/VMC/Ext/T");
            assert(path_key("/VMC/Ext/T"@) == address_key(a));
        },
    }
}

/// No two addresses are written alike, so `parse` finds the one address
/// that is written as its argument.
pub proof fn lemma_paths_distinct(a: Address, b: Address)
    requires
        a.spec_path() == b.spec_path(),
    ensures
        a == b,
{
    lemma_path_key(a);
    lemma_path_key(b);
}

impl IntArg {
    /// The number that the argument carries.
    pub open spec fn spec_value(self) -> int {
        match self {
            IntArg::Int(x) => x as int,
            IntArg::Long(x) => x as int,
        }
    }

    /// The argument as a 32-bit integer; a 64-bit one must fit.
    pub fn to_i32(&self) -> (r: Result<i32, MessageError>)
        ensures
            match r {
                Ok(v) => v == self.spec_value(),
                Err(e) => e == MessageError::IntegerOutOfRange && !(i32::MIN
                    <= self.spec_value() <= i32::MAX),
            },
    {
        match *self {
            IntArg::Int(x) => Ok(x),
            IntArg::Long(x) => {
                if x < -2147483648i64 || x > 2147483647i64 {
                    Err(MessageError::IntegerOutOfRange)
                } else {
                    Ok(x as i32)
                }
            },
        }
    }
}

/// A message of the stream whose arguments have been read.
#[derive(Debug)]
pub enum Incoming {
    RootPos { name: String, point: TrackingPoint },
    BonePos { name: String, point: TrackingPoint },
    DevicePos { kind: DeviceKind, name: String, point: TrackingPoint },
    BlendVal { name: String, value: rosc::OscType },
    BlendApply,
    Tracking { flag: IntArg },
    Time { value: rosc::OscType },
}

/// A message as it stands in a packet: an address and arguments.
#[derive(Debug)]
pub struct Message {
    pub addr: String,
    pub args: Vec<rosc::OscType>,
}

/// The address and the arguments of each message.
pub open spec fn message_views(messages: Seq<Message>) -> Seq<(Seq<char>, Seq<rosc::OscType>)> {
    Seq::new(messages.len(), |i: int| (messages[i].addr@, messages[i].args@))
}

/// The messages of a packet in the order in which they are applied: a
/// message alone, and of a bundle the messages of each packet it holds, one
/// packet after the other.
pub open spec fn spec_flatten(packet: rosc::OscPacket) -> Seq<(Seq<char>, Seq<rosc::OscType>)>
    decreases packet_depth(packet), packet_content(packet).len() + 1,
{
    if packet_is_message(packet) {
        seq![(packet_address(packet), packet_args(packet))]
    } else {
        spec_flatten_first(packet, packet_content(packet).len())
    }
}

/// The messages of the first `n` packets that a bundle holds.
pub open spec fn spec_flatten_first(packet: rosc::OscPacket, n: nat) -> Seq<
    (Seq<char>, Seq<rosc::OscType>),
>
    decreases packet_depth(packet), n,
{
    if n == 0 || n > packet_content(packet).len() {
        Seq::empty()
    } else {
        let child = packet_content(packet)[n - 1];
        spec_flatten_first(packet, (n - 1) as nat) + (if packet_depth(child) < packet_depth(
            packet,
        ) {
            spec_flatten(child)
        } else {
            Seq::empty()
        })
    }
}

/// Lists the messages of a packet in the order in which they are applied.
pub fn flatten(packet: &rosc::OscPacket) -> (r: Vec<Message>)
    ensures
        message_views(r@) == spec_flatten(*packet),
{
    let mut out: Vec<Message> = Vec::new();
    flatten_into(packet, &mut out);
    proof {
        assert(message_views(Seq::<Message>::empty()) =~= Seq::empty());
        assert(message_views(out@) =~= spec_flatten(*packet));
    }
    out
}

fn flatten_into(packet: &rosc::OscPacket, out: &mut Vec<Message>)
    ensures
        message_views(final(out)@) == message_views(old(out)@) + spec_flatten(*packet),
    decreases packet_depth(*packet),
{
    let ghost start = message_views(out@);
    match unpack(packet) {
        Unpacked::Message { addr, args } => {
            out.push(Message { addr, args });
            proof {
                assert(message_views(out@) =~= start + spec_flatten(*packet));
            }
        },
        Unpacked::Bundle { content } => {
            let mut i: usize = 0;
            proof {
                assert(message_views(out@) =~= start + spec_flatten_first(*packet, 0));
            }
            while i < content.len()
                invariant
                    i <= content@.len(),
                    content@ == packet_content(*packet),
                    !packet_is_message(*packet),
                    forall|k: int|
                        0 <= k < content@.len() ==> packet_depth(#[trigger] content@[k])
                            < packet_depth(*packet),
                    message_views(out@) == start + spec_flatten_first(*packet, i as nat),
                decreases content@.len() - i,
            {
                flatten_into(&content[i], out);
                proof {
                    assert(message_views(out@) =~= start + spec_flatten_first(
                        *packet,
                        (i + 1) as nat,
                    ));
                }
                i += 1;
            }
        },
    }
}

/// Decodes a datagram and lists the messages of the packet it holds, in the
/// order in which they are applied; where the datagram holds no packet, the
/// decoder's error.
pub fn decode(data: &[u8]) -> (r: Result<Vec<Message>, rosc::OscError>)
    ensures
        match r {
            Ok(messages) => osc_decoding(data@).is_ok() && message_views(messages@)
                == spec_flatten(osc_decoding(data@).unwrap()),
            Err(e) => osc_decoding(data@) == Err::<rosc::OscPacket, rosc::OscError>(e),
        },
{
    match decode_datagram(data) {
        Ok(packet) => Ok(flatten(&packet)),
        Err(e) => Err(e),
    }
}

/// The types of the arguments.
pub open spec fn spec_kinds(args: Seq<rosc::OscType>) -> Seq<ArgKind> {
    Seq::new(args.len(), |i: int| kind_of(args[i]))
}

/// The position and rotation that the seven numbers after the name give:
/// three for the position, four for the rotation, which is scaled to unit
/// length. Each number is taken in 32 bits.
pub open spec fn spec_point(args: Seq<rosc::OscType>) -> TrackingPoint {
    TrackingPoint {
        pos: vec3a_of_numbers(single_of(args[1]), single_of(args[2]), single_of(args[3])),
        rot: quat_unit(
            quat_of_numbers(
                single_of(args[4]),
                single_of(args[5]),
                single_of(args[6]),
                single_of(args[7]),
            ),
        ),
    }
}

/// Whether `message` is what the arguments of a message to `address` read
/// as.
pub open spec fn reads_as(address: Address, args: Seq<rosc::OscType>, message: Incoming) -> bool {
    match message {
        Incoming::RootPos { name, point } => address == Address::RootPos && name@ == text_of(
            args[0],
        ) && point == spec_point(args),
        Incoming::BonePos { name, point } => address == Address::BonePos && name@ == text_of(
            args[0],
        ) && point == spec_point(args),
        Incoming::DevicePos { kind, name, point } => address == kind.spec_address() && name@
            == text_of(args[0]) && point == spec_point(args),
        Incoming::BlendVal { name, value } => address == Address::BlendVal && name@ == text_of(
            args[0],
        ) && value == single_of(args[1]),
        Incoming::BlendApply => address == Address::BlendApply,
        Incoming::Tracking { flag } => address == Address::Tracking && flag == whole_of(args[0]),
        Incoming::Time { value } => address == Address::Time && value == single_of(args[0]),
    }
}

fn read_point(args: &Vec<rosc::OscType>) -> (r: TrackingPoint)
    requires
        args@.len() == 8,
    ensures
        r == spec_point(args@),
{
    let px = arg_single(&args[1]);
    let py = arg_single(&args[2]);
    let pz = arg_single(&args[3]);
    let rx = arg_single(&args[4]);
    let ry = arg_single(&args[5]);
    let rz = arg_single(&args[6]);
    let rw = arg_single(&args[7]);
    TrackingPoint {
        pos: vec3a_from_numbers(&px, &py, &pz),
        rot: quat_normalize(quat_from_numbers(&rx, &ry, &rz, &rw)),
    }
}

impl Address {
    /// Reads the arguments of a message to this address. They are checked
    /// by their types first; where the check finds a fault, the fault is
    /// the error.
    pub fn read(&self, args: &Vec<rosc::OscType>) -> (r: Result<Incoming, MessageError>)
        ensures
            match r {
                Ok(incoming) => self.spec_accepts(spec_kinds(args@)) && reads_as(
                    *self,
                    args@,
                    incoming,
                ),
                Err(e) => !self.spec_accepts(spec_kinds(args@)) && self.spec_fault(
                    spec_kinds(args@),
                    e,
                ),
            },
    {
        let mut kinds: Vec<ArgKind> = Vec::new();
        let mut i: usize = 0;
        while i < args.len()
            invariant
                i <= args@.len(),
                kinds@.len() == i,
                forall|k: int| 0 <= k < i ==> #[trigger] kinds@[k] == kind_of(args@[k]),
            decreases args@.len() - i,
        {
            kinds.push(arg_kind(&args[i]));
            i += 1;
        }
        proof {
            assert(kinds@ =~= spec_kinds(args@));
        }
        match self.check_arguments(kinds.as_slice()) {
            Err(e) => {
                return Err(e);
            },
            Ok(_) => {},
        }
        match *self {
            Address::RootPos => Ok(
                Incoming::RootPos { name: arg_text(&args[0]), point: read_point(args) },
            ),
            Address::BonePos => Ok(
                Incoming::BonePos { name: arg_text(&args[0]), point: read_point(args) },
            ),
            Address::ControllerPos => Ok(
                Incoming::DevicePos {
                    kind: DeviceKind::Controller,
                    name: arg_text(&args[0]),
                    point: read_point(args),
                },
            ),
            Address::HmdPos => Ok(
                Incoming::DevicePos {
                    kind: DeviceKind::Hmd,
                    name: arg_text(&args[0]),
                    point: read_point(args),
                },
            ),
            Address::TrackerPos => Ok(
                Incoming::DevicePos {
                    kind: DeviceKind::Tracker,
                    name: arg_text(&args[0]),
                    point: read_point(args),
                },
            ),
            Address::BlendVal => Ok(
                Incoming::BlendVal { name: arg_text(&args[0]), value: arg_single(&args[1]) },
            ),
            Address::BlendApply => Ok(Incoming::BlendApply),
            Address::Tracking => Ok(Incoming::Tracking { flag: arg_whole(&args[0]) }),
            Address::Time => Ok(Incoming::Time { value: arg_single(&args[0]) }),
        }
    }
}

/// Reads a message: its address, then its arguments as the address wants
/// them. The error is `UnrecognizedAddress` where no address is written as
/// the message's, and else the first fault of the arguments.
pub fn read_message(message: &Message) -> (r: Result<Incoming, MessageError>)
    ensures
        match r {
            Ok(incoming) => exists|a: Address|
                a.spec_path() == message.addr@ && a.spec_accepts(spec_kinds(message.args@))
                    && reads_as(a, message.args@, incoming),
            Err(e) => if e == MessageError::UnrecognizedAddress {
                forall|a: Address| a.spec_path() != message.addr@
            } else {
                exists|a: Address|
                    a.spec_path() == message.addr@ && !a.spec_accepts(spec_kinds(message.args@))
                        && a.spec_fault(spec_kinds(message.args@), e)
            },
        },
{
    match Address::parse(message.addr.as_str()) {
        Ok(address) => address.read(&message.args),
        Err(e) => Err(e),
    }
}

/// Applies one incoming message to the pose and the scene.
///
/// A root transform must come under the name `root` and replaces the root;
/// a bone transform must come under a bone's name and replaces that bone's
/// local transform; a device position or a blendshape value goes to its
/// slot, a new name getting the next slot; `Apply` changes nothing; the
/// tracking flag is set when the number is one; the time tag is stored. A
/// refused message changes nothing.
pub fn apply_incoming(pose: &mut Pose, scene: &mut TrackingData, message: Incoming) -> (r: Result<
    (),
    MessageError,
>)
    requires
        old(pose).wf(),
        old(scene).wf(),
    ensures
        final(pose).wf(),
        final(scene).wf(),
        r.is_err() ==> *final(pose) == *old(pose) && *final(scene) == *old(scene),
        old(pose).coherent() ==> final(pose).coherent(),
        match message {
            Incoming::RootPos { name, point } => if name@ == "root"@ {
                &&& r.is_ok()
                &&& final(pose).coherent()
                &&& final(pose).spec_root() == (point.pos, point.rot)
                &&& final(pose).spec_globalized() == Set::<Bone>::empty()
                &&& forall|c: Bone| final(pose).spec_local(c) == old(pose).spec_local(c)
                &&& *final(scene) == *old(scene)
            } else {
                r == Err::<(), MessageError>(MessageError::UnexpectedRootName)
            },
            Incoming::BonePos { name, point } => if exists|b: Bone| b.spec_name() == name@ {
                let bone = choose|b: Bone| b.spec_name() == name@;
                &&& r.is_ok()
                &&& final(pose).spec_root() == old(pose).spec_root()
                &&& final(pose).spec_local(bone) == (point.pos, point.rot)
                &&& forall|c: Bone| c != bone ==> final(pose).spec_local(c) == old(pose).spec_local(c)
                &&& final(pose).spec_globalized() == old(pose).spec_globalized().difference(
                    bone.spec_affected(),
                )
                &&& *final(scene) == *old(scene)
            } else {
                r == Err::<(), MessageError>(MessageError::UnknownBone)
            },
            Incoming::DevicePos { kind, name, point } => {
                &&& r.is_ok()
                &&& *final(pose) == *old(pose)
                &&& final(scene).spec_time() == old(scene).spec_time()
                &&& final(scene).spec_tracking() == old(scene).spec_tracking()
                &&& final(scene).spec_blendshapes() == old(scene).spec_blendshapes()
                &&& final(scene).spec_devices() == match slot_of(
                    old(scene).spec_device_keys(),
                    (kind, name@),
                ) {
                    Some(i) => old(scene).spec_devices().update(i, (kind, name@, point)),
                    None => old(scene).spec_devices().push((kind, name@, point)),
                }
            },
            Incoming::BlendVal { name, value } => {
                &&& r.is_ok()
                &&& *final(pose) == *old(pose)
                &&& final(scene).spec_time() == old(scene).spec_time()
                &&& final(scene).spec_tracking() == old(scene).spec_tracking()
                &&& final(scene).spec_devices() == old(scene).spec_devices()
                &&& final(scene).spec_blendshapes() == match slot_of(
                    old(scene).spec_blend_names(),
                    name@,
                ) {
                    Some(i) => old(scene).spec_blendshapes().update(i, (name@, value)),
                    None => old(scene).spec_blendshapes().push((name@, value)),
                }
            },
            Incoming::BlendApply => r.is_ok() && *final(pose) == *old(pose) && *final(scene)
                == *old(scene),
            Incoming::Tracking { flag } => if i32::MIN <= flag.spec_value() <= i32::MAX {
                &&& r.is_ok()
                &&& *final(pose) == *old(pose)
                &&& final(scene).spec_tracking() == (flag.spec_value() == 1)
                &&& final(scene).spec_time() == old(scene).spec_time()
                &&& final(scene).spec_blendshapes() == old(scene).spec_blendshapes()
                &&& final(scene).spec_devices() == old(scene).spec_devices()
            } else {
                r == Err::<(), MessageError>(MessageError::IntegerOutOfRange)
            },
            Incoming::Time { value } => {
                &&& r.is_ok()
                &&& *final(pose) == *old(pose)
                &&& final(scene).spec_time() == value
                &&& final(scene).spec_tracking() == old(scene).spec_tracking()
                &&& final(scene).spec_blendshapes() == old(scene).spec_blendshapes()
                &&& final(scene).spec_devices() == old(scene).spec_devices()
            },
        },
{
    match message {
        Incoming::RootPos { name, point } => {
            if str_eq(name.as_str(), "root") {
                pose.set_root_transform(point.pos, point.rot);
                Ok(())
            } else {
                Err(MessageError::UnexpectedRootName)
            }
        },
        Incoming::BonePos { name, point } => {
            match Bone::from_name(name.as_str()) {
                Some(bone) => {
                    proof {
                        let chosen = choose|b: Bone| b.spec_name() == name@;
                        crate::bone::lemma_names_distinct(bone, chosen);
                    }
                    pose.set_local_transform(bone, point.pos, point.rot);
                    Ok(())
                },
                None => Err(MessageError::UnknownBone),
            }
        },
        Incoming::DevicePos { kind, name, point } => {
            scene.update_device(kind, name.as_str(), &point);
            Ok(())
        },
        Incoming::BlendVal { name, value } => {
            scene.update_blendshape(name.as_str(), value);
            Ok(())
        },
        Incoming::BlendApply => Ok(()),
        Incoming::Tracking { flag } => {
            match flag.to_i32() {
                Ok(v) => {
                    scene.set_tracking(v);
                    Ok(())
                },
                Err(e) => Err(e),
            }
        },
        Incoming::Time { value } => {
            scene.set_time(value);
            Ok(())
        },
    }
}

/// The outgoing message for the bone numbered `i`: its name and its local
/// transform.
pub open spec fn bone_message(pose: Pose, i: int) -> rosc::OscPacket {
    let bone = Bone::spec_from_ordinal(i).unwrap();
    point_message(
        Address::BonePos.spec_path(),
        bone.spec_name(),
        pose.spec_local(bone).0,
        pose.spec_local(bone).1,
    )
}

/// The outgoing message for the auxiliary device in slot `i`.
pub open spec fn device_message(scene: TrackingData, i: int) -> rosc::OscPacket {
    let device = scene.spec_devices()[i];
    point_message(device.0.spec_address().spec_path(), device.1, device.2.pos, device.2.rot)
}

/// The outgoing message for the blendshape in slot `i`.
pub open spec fn blend_message(scene: TrackingData, i: int) -> rosc::OscPacket {
    value_message(
        Address::BlendVal.spec_path(),
        scene.spec_blendshapes()[i].0,
        scene.spec_blendshapes()[i].1,
    )
}

/// The messages of one outgoing bundle, in order: the root, every bone in
/// the canonical order with its local transform, the auxiliary devices by
/// slot, the blendshapes by slot, `Apply`, the tracking flag, the time tag.
pub open spec fn spec_outgoing(pose: Pose, scene: TrackingData) -> Seq<rosc::OscPacket> {
    seq![
        point_message(Address::RootPos.spec_path(), "root"@, pose.spec_root().0, pose.spec_root().1),
    ] + Seq::new(55, |i: int| bone_message(pose, i)) + Seq::new(
        scene.spec_devices().len(),
        |i: int| device_message(scene, i),
    ) + Seq::new(scene.spec_blendshapes().len(), |i: int| blend_message(scene, i)) + seq![
        empty_message(Address::BlendApply.spec_path()),
        int_message(
            Address::Tracking.spec_path(),
            if scene.spec_tracking() {
                1i32
            } else {
                0i32
            },
        ),
        scalar_message(Address::Time.spec_path(), scene.spec_time()),
    ]
}

/// Builds the messages of one outgoing bundle.
pub fn build_outgoing(pose: &Pose, scene: &TrackingData) -> (r: Vec<rosc::OscPacket>)
    requires
        pose.wf(),
    ensures
        r@ == spec_outgoing(*pose, *scene),
        r@.len() == 1 + 55 + scene.spec_devices().len() + scene.spec_blendshapes().len() + 3,
{
    let mut out: Vec<rosc::OscPacket> = Vec::new();
    let root = pose.root_transform();
    out.push(make_point_message(Address::RootPos.path(), "root", root.0, root.1));
    let ghost first = out@[0];
    let mut i: u8 = 0;
    while i < 55
        invariant
            i <= 55,
            pose.wf(),
            out@.len() == 1 + i,
            out@[0] == first,
            forall|k: int| 0 <= k < i ==> #[trigger] out@[1 + k] == bone_message(*pose, k),
        decreases 55 - i,
    {
        match Bone::from_ordinal(i) {
            Some(bone) => {
                let local = pose.local_transform(bone);
                out.push(make_point_message(Address::BonePos.path(), bone.name(), local.0, local.1));
            },
            None => {},
        }
        i += 1;
    }
    let ghost with_bones = out@;
    let devices = scene.devices();
    let mut d: usize = 0;
    while d < devices.len()
        invariant
            d <= devices@.len(),
            devices@.len() == scene.spec_devices().len(),
            forall|k: int|
                0 <= k < devices@.len() ==> ((#[trigger] devices@[k]).kind, devices@[k].name@, devices@[k].point)
                    == scene.spec_devices()[k],
            with_bones.len() == 56,
            out@.len() == 56 + d,
            forall|k: int| 0 <= k < 56 ==> #[trigger] out@[k] == with_bones[k],
            forall|k: int| 0 <= k < d ==> #[trigger] out@[56 + k] == device_message(*scene, k),
        decreases devices@.len() - d,
    {
        let device = &devices[d];
        out.push(
            make_point_message(
                device.kind.address().path(),
                device.name.as_str(),
                device.point.pos,
                device.point.rot,
            ),
        );
        d += 1;
    }
    let ghost with_devices = out@;
    let ghost base = 56 + devices@.len();
    let blendshapes = scene.blendshapes();
    let mut b: usize = 0;
    while b < blendshapes.len()
        invariant
            b <= blendshapes@.len(),
            blendshapes@.len() == scene.spec_blendshapes().len(),
            forall|k: int|
                0 <= k < blendshapes@.len() ==> ((#[trigger] blendshapes@[k]).name@, blendshapes@[k].value)
                    == scene.spec_blendshapes()[k],
            with_devices.len() == base,
            out@.len() == base + b,
            forall|k: int| 0 <= k < base ==> #[trigger] out@[k] == with_devices[k],
            forall|k: int| 0 <= k < b ==> #[trigger] out@[base + k] == blend_message(*scene, k),
        decreases blendshapes@.len() - b,
    {
        let shape = &blendshapes[b];
        out.push(
            make_value_message(Address::BlendVal.path(), shape.name.as_str(), shape.value.clone()),
        );
        b += 1;
    }
    let ghost with_blend = out@;
    out.push(make_empty_message(Address::BlendApply.path()));
    out.push(make_int_message(Address::Tracking.path(), if scene.tracking() { 1 } else { 0 }));
    out.push(make_scalar_message(Address::Time.path(), scene.time().clone()));
    proof {
        let want = spec_outgoing(*pose, *scene);
        assert(out@.len() == want.len());
        assert forall|k: int| 0 <= k < out@.len() implies out@[k] == want[k] by {
            if k == 0 {
                assert(with_blend[0] == with_devices[0]);
                assert(with_devices[0] == with_bones[0]);
            } else if k < 56 {
                assert(with_blend[k] == with_devices[k]);
                assert(with_devices[k] == with_bones[k]);
                assert(with_bones[1 + (k - 1)] == bone_message(*pose, k - 1));
            } else if k < base {
                assert(with_blend[k] == with_devices[k]);
                assert(with_devices[56 + (k - 56)] == device_message(*scene, k - 56));
            } else if k < base + blendshapes@.len() {
                assert(with_blend[base + (k - base)] == blend_message(*scene, k - base));
            }
        }
        assert(out@ =~= want);
    }
    out
}

/// Encodes the outgoing bundle of a pose and a scene: the OSC encoding of the
/// bundle with time tag zero that holds the outgoing messages in order.
pub fn encode_outgoing(pose: &Pose, scene: &TrackingData) -> (r: Vec<u8>)
    requires
        pose.wf(),
    ensures
        r@ == osc_encoding(bundle_of(spec_outgoing(*pose, *scene))),
{
    let content = build_outgoing(pose, scene);
    let bundle = make_bundle(content);
    encode_packet(&bundle)
}

/// Remembers whether the warning about an oversized bundle has been given:
/// it is given once.
#[derive(Clone, Copy, Debug, PartialEq, Eq, Structural)]
pub struct OversizeWarning {
    pub given: bool,
}

impl OversizeWarning {
    pub fn new() -> (r: OversizeWarning)
        ensures
            !r.given,
    {
        OversizeWarning { given: false }
    }

    /// Looks at the length of an encoded bundle and says whether to warn
    /// now: when the bundle is larger than `MTU` and no warning was given
    /// before.
    pub fn check(&mut self, encoded_len: usize) -> (r: bool)
        ensures
            r == (encoded_len > MTU && !old(self).given),
            final(self).given == (old(self).given || encoded_len > MTU),
    {
        if encoded_len > MTU && !self.given {
            self.given = true;
            true
        } else {
            false
        }
    }
}

} // verus!
