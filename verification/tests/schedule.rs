use chip16::Flag;
use chip16::Flags;
use chip16::Pacer;
use chip16::State;

#[test]
fn display_goes_on_while_open_and_not_cancelled() {
    assert_eq!(State::display(true, false), State::Continue);
    assert_eq!(State::display(true, true), State::Stop);
    assert_eq!(State::display(false, false), State::Stop);
    assert_eq!(State::display(false, true), State::Stop);
}

#[test]
fn period_is_a_second_divided_by_the_rate() {
    assert_eq!(Pacer::new(60, 0).period(), 16_666_666);
    assert_eq!(Pacer::new(1_000_000, 0).period(), 1_000);
    assert_eq!(Pacer::new(1, 0).period(), 1_000_000_000);
    assert_eq!(Pacer::new(1_000_000_000, 0).period(), 1);
    assert_eq!(Pacer::new(3, 0).period(), 333_333_333);
    let pacer = Pacer::new(60, 1234);
    assert_eq!(pacer.accumulator(), 0);
    assert_eq!(pacer.previous_clock(), 1234);
}

#[test]
fn tick_accumulates_and_sleeps_for_the_rest() {
    let mut pacer = Pacer::new(60, 100);
    assert_eq!(pacer.tick(1_000_100), 15);
    assert_eq!(pacer.accumulator(), 1_000_000);
    assert_eq!(pacer.previous_clock(), 1_000_100);
    assert_eq!(pacer.tick(1_000_100), 15);
    assert_eq!(pacer.accumulator(), 1_000_000);
    assert_eq!(pacer.tick(16_000_100), 0);
    assert_eq!(pacer.accumulator(), 16_000_000);
}

#[test]
fn tick_retires_whole_periods() {
    let mut pacer = Pacer::new(60, 0);
    // 16_666_666 * 3 + 500_000
    assert_eq!(pacer.tick(50_499_998), 16);
    assert_eq!(pacer.accumulator(), 500_000);
    // exactly one period more leaves the accumulator where it was
    assert_eq!(pacer.tick(50_499_998 + 16_666_666), 16);
    assert_eq!(pacer.accumulator(), 500_000);
    // up to one nanosecond short of a period
    assert_eq!(pacer.tick(50_499_998 + 16_666_666 + 16_166_665), 0);
    assert_eq!(pacer.accumulator(), 16_666_665);
    assert_eq!(pacer.tick(50_499_998 + 16_666_666 + 16_166_666), 16);
    assert_eq!(pacer.accumulator(), 0);
}

#[test]
fn tick_takes_the_largest_clock_readings() {
    let mut pacer = Pacer::new(1_000_000, 0);
    assert_eq!(pacer.tick(u64::MAX), 0);
    assert_eq!(pacer.accumulator(), u64::MAX % 1_000);
    assert_eq!(pacer.period(), 1_000);
}

#[test]
fn pace_reads_the_clock() {
    let mut pacer = Pacer::start(60);
    assert_eq!(pacer.period(), 16_666_666);
    assert_eq!(pacer.accumulator(), 0);
    let started = pacer.previous_clock();
    assert!(started > 0);
    match pacer.pace() {
        Some(millis) => {
            assert!(millis <= 16);
            assert!(pacer.previous_clock() >= started);
            assert_eq!(
                pacer.accumulator(),
                (pacer.previous_clock() - started) % 16_666_666
            );
            assert_eq!(millis, (16_666_666 - pacer.accumulator()) / 1_000_000);
        }
        None => {
            assert_eq!(pacer.previous_clock(), started);
            assert_eq!(pacer.accumulator(), 0);
        }
    }
}

#[test]
fn pace_refuses_a_clock_that_went_back() {
    let mut pacer = Pacer::new(60, u64::MAX);
    assert_eq!(pacer.pace(), None);
    assert_eq!(pacer.previous_clock(), u64::MAX);
    assert_eq!(pacer.accumulator(), 0);
}

#[test]
fn flags_pack_into_their_bits() {
    assert_eq!(Flags::clear().bits(), 0);
    assert_eq!(Flags { carry: true, zero: false, overflow: false, negative: false }.bits(), 0x02);
    assert_eq!(Flags { carry: false, zero: true, overflow: false, negative: false }.bits(), 0x04);
    assert_eq!(Flags { carry: false, zero: false, overflow: true, negative: false }.bits(), 0x40);
    assert_eq!(Flags { carry: false, zero: false, overflow: false, negative: true }.bits(), 0x80);
    assert_eq!(Flags { carry: true, zero: true, overflow: true, negative: true }.bits(), 0xC6);
    assert_eq!(Flag::Carry.mask(), 0x02);
    assert_eq!(Flag::Zero.mask(), 0x04);
    assert_eq!(Flag::Overflow.mask(), 0x40);
    assert_eq!(Flag::Negative.mask(), 0x80);
}

#[test]
fn flags_unpack_from_their_bits() {
    for bits in 0u8..=255 {
        match Flags::from_bits(bits) {
            Some(flags) => {
                assert_eq!(bits & !0xC6, 0);
                assert_eq!(flags.bits(), bits);
            }
            None => assert_ne!(bits & !0xC6, 0),
        }
    }
    assert_eq!(
        Flags::from_bits(0x84),
        Some(Flags { carry: false, zero: true, overflow: false, negative: true })
    );
    assert_eq!(Flags::from_bits(0x01), None);
}

#[test]
fn flags_set_clear_and_test() {
    let mut flags = Flags::clear();
    assert!(!flags.contains(Flag::Zero));
    flags.insert(Flag::Zero);
    flags.insert(Flag::Negative);
    assert!(flags.contains(Flag::Zero));
    assert!(flags.contains(Flag::Negative));
    assert!(!flags.contains(Flag::Carry));
    assert!(!flags.contains(Flag::Overflow));
    assert_eq!(flags.bits(), 0x84);
    flags.remove(Flag::Zero);
    assert_eq!(flags, Flags { carry: false, zero: false, overflow: false, negative: true });
    flags.set(Flag::Carry, true);
    flags.set(Flag::Negative, false);
    flags.set(Flag::Overflow, true);
    assert_eq!(flags.bits(), 0x42);
}

#[test]
fn try_tick_accounts_for_a_reading_that_is_not_behind() {
    let mut pacer = Pacer::new(60, 100);
    assert_eq!(pacer.try_tick(100), Some(16));
    assert_eq!(pacer.accumulator(), 0);
    assert_eq!(pacer.try_tick(1_000_100), Some(15));
    assert_eq!(pacer.accumulator(), 1_000_000);
    assert_eq!(pacer.previous_clock(), 1_000_100);
}

#[test]
fn try_tick_refuses_a_reading_behind_the_previous_tick() {
    let mut pacer = Pacer::new(60, 100);
    assert_eq!(pacer.try_tick(2_000_100), Some(14));
    assert_eq!(pacer.try_tick(2_000_099), None);
    assert_eq!(pacer.accumulator(), 2_000_000);
    assert_eq!(pacer.previous_clock(), 2_000_100);
    assert_eq!(pacer.period(), 16_666_666);
}

#[test]
fn pace_succeeds_after_a_tick_at_reading_zero() {
    let mut pacer = Pacer::new(1_000_000, 0);
    let millis = pacer.pace();
    assert_eq!(millis, Some(0));
    assert!(pacer.previous_clock() > 0);
    assert_eq!(pacer.accumulator(), pacer.previous_clock() % 1_000);
}
