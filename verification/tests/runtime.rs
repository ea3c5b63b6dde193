use remote_wheel::color::{Color, ColorError};
use remote_wheel::controller::{axis_steps, button_number, Axis, AxisVisitor};
use remote_wheel::report::{
    next_source, react, Reaction, Report, ReportStats, Source, Timing, Update,
};

#[test]
fn datagrams_come_first() {
    assert_eq!(next_source(true, true, true), Some(Source::Datagram));
    assert_eq!(next_source(true, false, true), Some(Source::Datagram));
    assert_eq!(next_source(false, true, true), Some(Source::ReportTick));
    assert_eq!(next_source(false, true, false), Some(Source::ReportTick));
    assert_eq!(next_source(false, false, true), Some(Source::Update));
    assert_eq!(next_source(false, false, false), None);
}

#[test]
fn overflow_is_warned_about_and_the_loop_goes_on() {
    assert_eq!(react(Update::Overflowed(84)), Reaction::WarnMissed(84));
    assert_eq!(react(Update::Axis), Reaction::FoldAxis);
    assert_eq!(react(Update::Button), Reaction::FoldButton);
    assert_eq!(react(Update::Flush), Reaction::Nothing);
    assert_eq!(react(Update::Closed), Reaction::Stop);
}

#[test]
fn report_tick_after_one_packet() {
    let mut stats = ReportStats::new();
    assert!(stats.try_record(1_500));
    let report = stats.report();
    assert_eq!(
        report,
        Report { received: 1, timing: Some(Timing { min: 1_500, max: 1_500, total: 1_500 }) }
    );
    assert_eq!(stats, ReportStats::new());
    assert_eq!(stats.report(), Report { received: 0, timing: None });
}

#[test]
fn report_keeps_least_greatest_and_sum() {
    let mut stats = ReportStats::new();
    for nanos in [700, 300, 900, 500] {
        assert!(stats.has_room(nanos));
        stats.record(nanos);
    }
    assert_eq!(
        stats.report(),
        Report { received: 4, timing: Some(Timing { min: 300, max: 900, total: 2_400 }) }
    );
}

#[test]
fn counters_do_not_overflow() {
    let mut stats = ReportStats { received: u32::MAX, min: 1, max: 2, total: 3 };
    assert!(!stats.try_record(5));
    assert_eq!(stats, ReportStats { received: u32::MAX, min: 1, max: 2, total: 3 });
    let mut stats = ReportStats { received: 1, min: 1, max: 1, total: u64::MAX - 4 };
    assert!(!stats.try_record(5));
    assert!(stats.try_record(4));
    assert_eq!(stats.total, u64::MAX);
    assert_eq!(stats.received, 2);
}

#[test]
fn axes_are_numbered_from_one() {
    assert_eq!(Axis::try_from(0).map(|a| a.number()), Ok(1));
    assert_eq!(Axis::try_from(7).map(|a| a.number()), Ok(8));
    assert_eq!(Axis::try_from(254).map(|a| a.number()), Ok(255));
    assert_eq!(Axis::try_from(255), Err(()));
}

#[test]
fn axis_numbers_in_configurations() {
    let visitor = AxisVisitor;
    assert_eq!(visitor.visit_i64(1).map(|a| a.number()), Some(1));
    assert_eq!(visitor.visit_i64(255).map(|a| a.number()), Some(255));
    assert_eq!(visitor.visit_i64(0), None);
    assert_eq!(visitor.visit_i64(-1), None);
    assert_eq!(visitor.visit_i64(256), None);
    assert_eq!(visitor.visit_u64(3).map(|a| a.number()), Some(3));
    assert_eq!(visitor.visit_u64(0), None);
    assert_eq!(visitor.visit_u64(u64::MAX), None);
    assert_eq!(visitor.visit_int(200).map(|a| a.number()), Some(200));
    assert_eq!(visitor.visit_int(i128::MIN), None);
    assert_eq!(visitor.visit_int(1).map(|a| a.number()), Axis::try_from(0).ok().map(|a| a.number()));
}

#[test]
fn axis_names_of_older_configurations() {
    let visitor = AxisVisitor;
    let names = ["x", "y", "z", "rx", "ry", "rz", "slider", "dial"];
    for (i, name) in names.iter().enumerate() {
        assert_eq!(visitor.visit_str(name).map(|a| a.number() as usize), Some(i + 1));
    }
    assert_eq!(visitor.visit_str("X"), None);
    assert_eq!(visitor.visit_str(""), None);
    assert_eq!(visitor.visit_str("throttle"), None);
}

#[test]
fn colours_from_hexadecimal_text() {
    assert_eq!(Color::from_str("fff"), Ok(Color(255, 255, 255, 255)));
    assert_eq!(Color::from_str("1a0"), Ok(Color(17, 170, 0, 255)));
    assert_eq!(Color::from_str("0F08"), Ok(Color(0, 255, 0, 136)));
    assert_eq!(Color::from_str("ff8000"), Ok(Color(255, 128, 0, 255)));
    assert_eq!(Color::from_str("FF800040"), Ok(Color(255, 128, 0, 64)));
    assert_eq!(Color::from_str("+f+0+a"), Ok(Color(15, 0, 10, 255)));
    assert_eq!(Color::default(), Color(0, 0, 0, 0));
}

#[test]
fn texts_that_are_no_colours() {
    assert_eq!(Color::from_str(""), Err(ColorError::InvalidLength));
    assert_eq!(Color::from_str("ff"), Err(ColorError::InvalidLength));
    assert_eq!(Color::from_str("fffff"), Err(ColorError::InvalidLength));
    assert_eq!(Color::from_str("fffffff"), Err(ColorError::InvalidLength));
    assert_eq!(Color::from_str("fffffffff"), Err(ColorError::InvalidLength));
    assert_eq!(Color::from_str("gff"), Err(ColorError::InvalidRed));
    assert_eq!(Color::from_str("+ff"), Err(ColorError::InvalidRed));
    assert_eq!(Color::from_str("f-f"), Err(ColorError::InvalidGreen));
    assert_eq!(Color::from_str("ffx"), Err(ColorError::InvalidBlue));
    assert_eq!(Color::from_str("fff "), Err(ColorError::InvalidAlpha));
    assert_eq!(Color::from_str("f+ffff"), Err(ColorError::InvalidRed));
    assert_eq!(Color::from_str("ff-1ff"), Err(ColorError::InvalidGreen));
    assert_eq!(Color::from_str("ffffzz"), Err(ColorError::InvalidBlue));
    assert_eq!(Color::from_str("ffffff0x"), Err(ColorError::InvalidAlpha));
}

#[test]
fn overflow_handling() {
    let (mut sender, mut receiver) = async_broadcast::broadcast::<u32>(16);
    sender.set_overflow(true);
    for event in 0..100 {
        assert!(sender.try_broadcast(event).is_ok());
    }
    let missed = match receiver.try_recv() {
        Err(async_broadcast::TryRecvError::Overflowed(n)) => n,
        other => panic!("{:?}", other),
    };
    assert_eq!(missed, 84);
    assert_eq!(react(Update::Overflowed(missed)), Reaction::WarnMissed(84));
    // The warning is given once; the next receive hands over a real event.
    assert_eq!(receiver.try_recv(), Ok(84));
    assert_eq!(next_source(false, false, true), Some(Source::Update));
    assert_eq!(react(Update::Axis), Reaction::FoldAxis);
}

#[test]
fn axis_positions_count_from_the_low_end() {
    assert_eq!(axis_steps(i16::MIN), 0);
    assert_eq!(axis_steps(-1), 32767);
    assert_eq!(axis_steps(0), 32768);
    assert_eq!(axis_steps(1), 32769);
    assert_eq!(axis_steps(i16::MAX), 65535);
    for raw in [i16::MIN, -12345, -1, 0, 77, i16::MAX] {
        assert_eq!(axis_steps(raw), raw.wrapping_add_unsigned(32768) as u16);
    }
    assert_eq!(button_number(0), 1);
    assert_eq!(button_number(255), 256);
}
