use soft_raster::color::{convert_to_rgb, RGBA};
use soft_raster::controls::{Controls, Key};
use soft_raster::fixed::Fixed;
use soft_raster::profile::Profiler;
use soft_raster::scalar::Scalar;
use soft_raster::signum::NonZeroSignum;
use soft_raster::state::State;
use soft_raster::timing::{Timing, MAX_TICKS_PER_FRAME, TARGET_FPS, TARGET_SLEEP};

#[test]
fn first_stamp_gives_one_tick() {
    assert_eq!((TARGET_FPS, TARGET_SLEEP, MAX_TICKS_PER_FRAME), (100, 10, 16));
    let mut timing = Timing::new();
    let time = timing.timing_loop(1000).unwrap();
    assert_eq!(time.ticks(), 1);
    assert_eq!(time.tick_number(), 1);
}

#[test]
fn ticks_follow_the_elapsed_time() {
    let mut timing = Timing::new();
    timing.timing_loop(0).unwrap();
    // the clock now stands at 10: nothing is due before 20
    assert!(timing.timing_loop(10).is_none());
    assert!(timing.timing_loop(19).is_none());
    let time = timing.timing_loop(20).unwrap();
    assert_eq!((time.ticks(), time.tick_number()), (1, 2));
    // 35 ms later: three ticks, five milliseconds kept for the next call
    let time = timing.timing_loop(55).unwrap();
    assert_eq!((time.ticks(), time.tick_number()), (3, 5));
    let time = timing.timing_loop(60).unwrap();
    assert_eq!((time.ticks(), time.tick_number()), (1, 6));
}

#[test]
fn long_pause_is_cut_to_sixteen_ticks() {
    let mut timing = Timing::new();
    timing.timing_loop(0).unwrap();
    let time = timing.timing_loop(100_000).unwrap();
    assert_eq!((time.ticks(), time.tick_number()), (16, 17));
    // the clock was set to the stamp itself
    assert!(timing.timing_loop(100_009).is_none());
    assert_eq!(timing.timing_loop(100_010).unwrap().ticks(), 1);
    // exactly sixteen ticks are not cut
    let time = timing.timing_loop(100_010 + 160).unwrap();
    assert_eq!(time.ticks(), 16);
    assert!(timing.timing_loop(100_010 + 169).is_none());
    assert_eq!(timing.timing_loop(100_010 + 170).unwrap().ticks(), 1);
}

#[test]
fn time_going_backwards() {
    let mut timing = Timing::new();
    timing.timing_loop(1000).unwrap();
    // a little backwards: nothing happens
    assert!(timing.timing_loop(950).is_none());
    assert!(timing.timing_loop(1010 - 100).is_none());
    // far backwards: counts as a long pause
    let time = timing.timing_loop(1010 - 101).unwrap();
    assert_eq!(time.ticks(), 16);
}

#[test]
fn stamps_wrap_around() {
    let mut timing = Timing::new();
    timing.timing_loop(i32::MAX - 30).unwrap();
    // the clock stands at MAX - 20; 25 ms later the stamp has wrapped
    let time = timing.timing_loop(i32::MIN + 4).unwrap();
    assert_eq!(time.ticks(), 2);
    assert!(timing.timing_loop(i32::MIN + 8).is_none());
    assert_eq!(timing.timing_loop(i32::MIN + 9).unwrap().ticks(), 1);
}

#[test]
fn keys_remember_their_state() {
    let mut key = Key::new();
    assert!(!key.is_pressed());
    key.update(true);
    assert!(key.is_pressed());
    key.update(false);
    assert!(!key.is_pressed());
}

fn fx(n: i32) -> Fixed {
    Fixed::from_i32(n)
}

#[test]
fn pointer_follows_absolute_position_when_unlocked() {
    let mut c: Controls<Fixed> = Controls::new(512, 256);
    assert_eq!((c.pointer_x(), c.pointer_y()), (256, 128));
    assert_eq!(c.pointer_precise_x(), fx(256));
    assert!(!c.is_pointer_locked());
    c.input_loop(
        false, fx(100), fx(50), fx(7), fx(7), fx(2), true, false, true, false, true, false, true,
        512, 256,
    );
    assert_eq!((c.pointer_precise_x(), c.pointer_precise_y()), (fx(50), fx(25)));
    assert_eq!((c.pointer_x(), c.pointer_y()), (50, 25));
    assert!(c.lmb.is_pressed() && c.arrow_up.is_pressed() && c.arrow_left.is_pressed());
    assert!(!c.arrow_down.is_pressed() && !c.arrow_right.is_pressed() && c.space.is_pressed());
    assert!(!c.a.is_pressed() && !c.c.is_pressed());
}

#[test]
fn locked_pointer_moves_by_deltas() {
    let mut c: Controls<Fixed> = Controls::new(512, 256);
    // the report that locks the pointer places it and moves it
    c.input_loop(
        true, fx(100), fx(50), fx(4), fx(-2), fx(2), false, false, false, false, false, false,
        false, 512, 256,
    );
    assert!(c.is_pointer_locked());
    assert_eq!((c.pointer_precise_x(), c.pointer_precise_y()), (fx(52), fx(24)));
    // from then on only the deltas count
    c.input_loop(
        true, fx(0), fx(0), fx(3), fx(3), fx(2), false, false, false, false, false, false, false,
        512, 256,
    );
    assert_eq!(c.pointer_precise_x(), Fixed::ratio(107, 2));
    // 53.5 + 0.5 = 54
    assert_eq!((c.pointer_x(), c.pointer_y()), (54, 26));
}

#[test]
fn pointer_pixel_stays_on_the_screen() {
    let mut c: Controls<Fixed> = Controls::new(512, 256);
    c.input_loop(
        false, fx(9000), fx(-40), fx(0), fx(0), fx(1), false, false, false, false, false, false,
        false, 512, 256,
    );
    assert_eq!((c.pointer_x(), c.pointer_y()), (511, 0));
    c.input_loop(
        false, fx(1), fx(1), fx(0), fx(0), fx(0), false, false, false, false, false, false, false,
        1, 1,
    );
    assert_eq!((c.pointer_x(), c.pointer_y()), (0, 0));
}

#[test]
fn profiler_is_switched_off() {
    let mut p = Profiler::new();
    p.call();
    p.call();
    assert_eq!(p.calls, 0);
}

#[test]
fn signs() {
    let pos = NonZeroSignum::pos();
    let neg = NonZeroSignum::neg();
    assert!(pos.is_positive() && !pos.is_negative());
    assert!(neg.is_negative() && !neg.is_positive());
    assert_eq!((pos.get(), neg.get()), (1, -1));
    assert_eq!(pos.negated().get(), -1);
    assert_eq!(neg.negated().get(), 1);
    assert_eq!(pos.step_i16(199), 200);
    assert_eq!(neg.step_i16(-1), -2);
}

#[test]
fn pixels_convert_to_packed_rgb() {
    let from = vec![RGBA::rgba(1, 2, 3, 4), RGBA::rgba(255, 0, 255, 0)];
    let mut to = vec![7u32; 3];
    convert_to_rgb(&from, &mut to);
    assert_eq!(to, vec![0x0001_0203, 0x00ff_00ff, 7]);
    let mut short = vec![0u32; 1];
    convert_to_rgb(&from, &mut short);
    assert_eq!(short, vec![0x0001_0203]);
}

#[test]
fn state_ticks_when_time_has_passed() {
    let mut state: State<Fixed> = State::new(16, 16);
    let due = state.tick(0, false, fx(3), fx(4), fx(0), fx(0), fx(1), true, false);
    assert_eq!(due.unwrap().tick_number(), 1);
    assert_eq!((state.controls.pointer_x(), state.controls.pointer_y()), (3, 4));
    assert!(state.controls.lmb.is_pressed());
    assert!(state.tick(5, false, fx(3), fx(4), fx(0), fx(0), fx(1), false, false).is_none());
    assert!(!state.controls.lmb.is_pressed());
}
