use raves::flags::{FlagSet, RavesFlags};
use raves::lut::{
    decode_pitch, osc_bitres_pos, osc_lut_pos, osc_notehz_index, osc_tanpi_pos, osc_w0f_pitch_pos,
    LutPos,
};
use raves::mathutil::{clipmaxnote, clipmaxu32, clipminmax};
use raves::params::{RavesParams, UserOscParamId, UserOscParams};
use raves::voice::{
    osc_cycle, osc_init, Frame, osc_noteon, osc_param, wrap_add, Raves, RavesState, K_MIX_HI, K_MIX_LO,
    K_SR220, K_SR440,
};
use raves::wavebank::{
    get_waves_a_elt, osc_wave_scan_pos, select_alt_wave, select_main_wave, select_sub_wave, Bank,
    ScanPos, WaveHandle,
};

fn control(shape_lfo: i32, pitch: u16) -> UserOscParams {
    UserOscParams { shape_lfo, pitch, cutoff: 0, resonance: 0, reserved0: [0; 3] }
}

struct Plan {
    bitcrush: Option<LutPos>,
    frames: Vec<Frame>,
}

/// Runs one block of `n` samples into a fresh buffer.
fn run(r: &mut Raves, c: &UserOscParams, w0: u32, n: usize) -> Plan {
    let start = ScanPos { i0: 0, i1: 1, frac: 0 };
    let blank = Frame { pos0: start, pos1: start, possub: start, wavemix: 0 };
    let mut frames = vec![blank; n];
    let bitcrush = osc_cycle(r, c, w0, &mut frames);
    Plan { bitcrush, frames }
}

fn handle(bank: Bank, index: usize) -> WaveHandle {
    WaveHandle { bank, index }
}

#[test]
fn clip_helpers() {
    assert_eq!(clipmaxu32(5, 10), 5);
    assert_eq!(clipmaxu32(10, 10), 10);
    assert_eq!(clipmaxu32(11, 10), 10);
    assert_eq!(clipmaxnote(69, 151), 69);
    assert_eq!(clipmaxnote(200, 151), 151);
    assert_eq!(clipminmax(-5, 3, 7), 3);
    assert_eq!(clipminmax(-5, -9, 7), -5);
    assert_eq!(clipminmax(-5, 9, 7), 7);
}

#[test]
fn flag_set_insert_and_clear() {
    let mut f = FlagSet::empty();
    assert!(!f.contains(RavesFlags::Wave0));
    f.insert(RavesFlags::Wave0);
    f.insert(RavesFlags::Reset);
    assert!(f.contains(RavesFlags::Wave0));
    assert!(f.contains(RavesFlags::Reset));
    assert!(!f.contains(RavesFlags::Wave1));
    assert!(!f.contains(RavesFlags::Clear));
    assert_eq!(f.bits, 2 | 64);
    f.insert(RavesFlags::Clear);
    assert_eq!(f.bits, 2 | 64);
    f.clear();
    assert_eq!(f, FlagSet::empty());
    assert!(!f.contains(RavesFlags::Reset));
}

#[test]
fn main_wave_thresholds() {
    let prev = handle(Bank::B, 3);
    assert_eq!(select_main_wave(0, prev), handle(Bank::A, 0));
    assert_eq!(select_main_wave(15, prev), handle(Bank::A, 15));
    assert_eq!(select_main_wave(16, prev), handle(Bank::B, 0));
    assert_eq!(select_main_wave(31, prev), handle(Bank::B, 15));
    assert_eq!(select_main_wave(32, prev), handle(Bank::C, 0));
    assert_eq!(select_main_wave(45, prev), handle(Bank::C, 13));
    assert_eq!(select_main_wave(46, prev), prev);
    assert_eq!(select_main_wave(1000, prev), prev);
}

#[test]
fn alt_and_sub_wave_thresholds() {
    let prev = handle(Bank::E, 7);
    assert_eq!(select_alt_wave(12, prev), handle(Bank::D, 12));
    assert_eq!(select_alt_wave(13, prev), handle(Bank::E, 0));
    assert_eq!(select_alt_wave(28, prev), handle(Bank::F, 0));
    assert_eq!(select_alt_wave(43, prev), handle(Bank::F, 15));
    assert_eq!(select_alt_wave(44, prev), prev);
    let sprev = handle(Bank::A, 2);
    assert_eq!(select_sub_wave(15, sprev), handle(Bank::A, 15));
    assert_eq!(select_sub_wave(16, sprev), sprev);
    assert_eq!(get_waves_a_elt(9), handle(Bank::A, 9));
}

#[test]
fn scan_positions() {
    assert_eq!(osc_wave_scan_pos(0), ScanPos { i0: 0, i1: 1, frac: 0 });
    assert_eq!(osc_wave_scan_pos(1 << 25), ScanPos { i0: 1, i1: 2, frac: 0 });
    assert_eq!(osc_wave_scan_pos((3 << 25) + 17), ScanPos { i0: 3, i1: 4, frac: 17 });
    assert_eq!(osc_wave_scan_pos(u32::MAX), ScanPos { i0: 127, i1: 128, frac: (1 << 25) - 1 });
}

#[test]
fn scan_is_continuous_across_the_wrap() {
    // A table with its guard sample equal to the first.
    let mut t: Vec<i64> = (0..128).map(|i| (i * 37 % 101) as i64 - 50).collect();
    t.push(t[0]);
    let value = |p: ScanPos| t[p.i0] * ((1i64 << 25) - p.frac as i64) + t[p.i1] * p.frac as i64;
    let before = osc_wave_scan_pos(u32::MAX);
    let after = osc_wave_scan_pos(u32::MAX.wrapping_add(1));
    assert_eq!(value(after) - value(before), t[128] - t[127]);
    assert!((value(after) - value(before)).abs() <= (t[0] - t[127]).abs());
}

#[test]
fn lut_positions() {
    assert_eq!(osc_lut_pos(7, 2, 10), LutPos { i0: 3, i1: 4, num: 1, den: 2 });
    assert_eq!(osc_lut_pos(20, 2, 10), LutPos { i0: 9, i1: 10, num: 2, den: 2 });
    assert_eq!(osc_lut_pos(99, 2, 10), LutPos { i0: 9, i1: 10, num: 2, den: 2 });
}

#[test]
fn bitcrush_zero_reads_first_entry() {
    assert_eq!(osc_bitres_pos(0), LutPos { i0: 0, i1: 1, num: 0, den: 100 });
}

#[test]
fn bitres_positions() {
    assert_eq!(osc_bitres_pos(37), LutPos { i0: 47, i1: 48, num: 36, den: 100 });
    assert_eq!(osc_bitres_pos(100), LutPos { i0: 127, i1: 128, num: 100, den: 100 });
}

#[test]
fn tanpi_positions() {
    assert_eq!(osc_tanpi_pos(450), LutPos { i0: 235, i1: 236, num: 50, den: 490 });
    assert_eq!(osc_tanpi_pos(490), LutPos { i0: 255, i1: 256, num: 490, den: 490 });
    assert_eq!(osc_tanpi_pos(0), LutPos { i0: 0, i1: 1, num: 0, den: 490 });
}

#[test]
fn pitch_a4_reads_note_69() {
    let (note, fine) = decode_pitch(0x4500);
    assert_eq!((note, fine), (69, 0));
    assert_eq!(osc_w0f_pitch_pos(note, fine), LutPos { i0: 69, i1: 70, num: 0, den: 255 });
    // The power-on increment stands for 440 Hz at 48 kHz.
    let w = K_SR440 as f64 / 4294967296.0;
    assert!((w - 440.0 / 48000.0).abs() < 1e-9);
    assert!((w - 0.009167).abs() < 1e-6);
    let ws = K_SR220 as f64 / 4294967296.0;
    assert!((ws - 220.0 / 48000.0).abs() < 1e-9);
}

#[test]
fn pitch_positions_at_the_top() {
    assert_eq!(decode_pitch(0x96c8), (150, 200));
    assert_eq!(osc_w0f_pitch_pos(150, 200), LutPos { i0: 150, i1: 151, num: 200, den: 255 });
    assert_eq!(osc_w0f_pitch_pos(151, 7), LutPos { i0: 151, i1: 151, num: 7, den: 255 });
    assert_eq!(osc_w0f_pitch_pos(255, 255), LutPos { i0: 151, i1: 151, num: 255, den: 255 });
    assert_eq!(osc_notehz_index(255), 151);
}

#[test]
fn power_on_values() {
    let r = Raves::new();
    assert_eq!(r.params, RavesParams::new());
    assert_eq!(r.params.submix, 50);
    assert_eq!(r.state, RavesState::new());
    assert_eq!(r.state.wave0, handle(Bank::A, 0));
    assert_eq!(r.state.wave1, handle(Bank::D, 0));
    assert_eq!(r.state.subwave, handle(Bank::A, 0));
    assert_eq!((r.state.w00, r.state.w01, r.state.w0sub), (K_SR440, K_SR440, K_SR220));
}

#[test]
fn init_restores_power_on() {
    let mut r = Raves::new();
    osc_param(&mut r, UserOscParamId::Id5, 40);
    osc_noteon(&mut r, &control(0, 0));
    osc_init(&mut r, 0, 0);
    assert_eq!(r, Raves::new());
}

#[test]
fn parameter_edits() {
    let mut r = Raves::new();
    osc_param(&mut r, UserOscParamId::Id1, 50);
    assert_eq!(r.params.wave0, 4);
    assert!(r.state.flags.contains(RavesFlags::Wave0));
    osc_param(&mut r, UserOscParamId::Id2, 50);
    assert_eq!(r.params.wave1, 6);
    assert!(r.state.flags.contains(RavesFlags::Wave1));
    osc_param(&mut r, UserOscParamId::Id3, 20);
    assert_eq!(r.params.subwave, 4);
    assert!(r.state.flags.contains(RavesFlags::SubWave));
    osc_param(&mut r, UserOscParamId::Id4, 10);
    assert_eq!(r.params.submix, 140);
    osc_param(&mut r, UserOscParamId::Id4, 200);
    assert_eq!(r.params.submix, 1000);
    osc_param(&mut r, UserOscParamId::Id5, 150);
    assert_eq!(r.params.ringmix, 100);
    assert!(!r.state.flags.contains(RavesFlags::RingMix));
    osc_param(&mut r, UserOscParamId::Id6, 37);
    assert_eq!(r.params.bitcrush, 37);
    assert!(r.state.flags.contains(RavesFlags::BitCrush));
    osc_param(&mut r, UserOscParamId::Shape, 2000);
    assert_eq!(r.params.shape, 1023);
    osc_param(&mut r, UserOscParamId::ShiftShape, 0);
    assert_eq!(r.params.shiftshape, 0);
    osc_param(&mut r, UserOscParamId::ShiftShape, 512);
    assert_eq!(r.params.shiftshape, 512);
    osc_param(&mut r, UserOscParamId::ShiftShape, 5000);
    assert_eq!(r.params.shiftshape, 1023);
    assert!(!r.state.flags.contains(RavesFlags::Reset));
}

#[test]
fn pitch_detune() {
    let mut r = Raves::new();
    r.update_pitch(1000);
    assert_eq!((r.state.w00, r.state.w01, r.state.w0sub), (1000, 1000, 500));
    osc_param(&mut r, UserOscParamId::ShiftShape, 1023);
    r.update_pitch(1000);
    assert_eq!((r.state.w00, r.state.w01, r.state.w0sub), (1000, 1000 + 22369, 500 + 13421));
    assert_eq!(wrap_add(u32::MAX, 2), 1);
}

#[test]
fn wave_edit_waits_for_the_cycle() {
    let mut r = Raves::new();
    osc_param(&mut r, UserOscParamId::Id1, 20);
    osc_param(&mut r, UserOscParamId::Id2, 30);
    osc_param(&mut r, UserOscParamId::Id3, 5);
    assert_eq!(r.state.wave0, handle(Bank::A, 0));
    assert_eq!(r.state.wave1, handle(Bank::D, 0));
    assert_eq!(r.state.subwave, handle(Bank::A, 0));
    run(&mut r, &control(0, 0x4500), K_SR440, 4);
    assert_eq!(r.state.wave0, handle(Bank::B, 4));
    assert_eq!(r.state.wave1, handle(Bank::F, 2));
    assert_eq!(r.state.subwave, handle(Bank::A, 5));
    assert_eq!(r.state.flags, FlagSet::empty());
}

#[test]
fn note_on_restarts_the_phases() {
    let mut r = Raves::new();
    run(&mut r, &control(1 << 30, 0x4500), K_SR440, 8);
    assert_ne!(r.state.phi0, 0);
    assert_eq!(r.state.lfo, 1 << 30);
    assert_eq!(r.state.lfoz, 1 << 30);
    osc_noteon(&mut r, &control(0, 0x4500));
    let w = 12345;
    let plan = run(&mut r, &control(-(1 << 29), 0x4500), w, 1);
    let start = ScanPos { i0: 0, i1: 1, frac: 0 };
    assert_eq!(plan.frames[0].pos0, start);
    assert_eq!(plan.frames[0].pos1, start);
    assert_eq!(plan.frames[0].possub, start);
    assert_eq!(r.state.phi0, r.state.w00);
    assert_eq!(r.state.phi1, r.state.w01);
    assert_eq!(r.state.phisub, r.state.w0sub);
    assert_eq!(r.state.w00, w);
    // The ramp starts from the previous target.
    assert_eq!(plan.frames[0].wavemix as i64, ((1i64 << 30) as i64).clamp(K_MIX_LO, K_MIX_HI));
}

#[test]
fn wavemix_stays_inside_its_bounds() {
    let mut r = Raves::new();
    osc_param(&mut r, UserOscParamId::Shape, 1023);
    let plan = run(&mut r, &control(i32::MAX, 0), K_SR440, 4);
    let plan = {
        let _ = plan;
        run(&mut r, &control(i32::MAX, 0), K_SR440, 4)
    };
    for f in plan.frames.iter() {
        assert_eq!(f.wavemix as i64, K_MIX_HI);
    }
    osc_param(&mut r, UserOscParamId::Shape, 0);
    run(&mut r, &control(i32::MIN, 0), K_SR440, 4);
    let plan = run(&mut r, &control(i32::MIN, 0), K_SR440, 4);
    for f in plan.frames.iter() {
        assert_eq!(f.wavemix as i64, K_MIX_LO);
    }
    assert_eq!(K_MIX_LO, 10737418);
    assert_eq!(K_MIX_HI, 2136746230);
}

#[test]
fn lfo_ramps_linearly_to_its_target() {
    let mut r = Raves::new();
    osc_param(&mut r, UserOscParamId::Shape, 0);
    let plan = run(&mut r, &control(1_000_000_000, 0), K_SR440, 4);
    let mixes: Vec<i32> = plan.frames.iter().map(|f| f.wavemix).collect();
    assert_eq!(mixes, vec![10737418, 250_000_000, 500_000_000, 750_000_000]);
    assert_eq!(r.state.lfoz, 1_000_000_000);
    let plan = run(&mut r, &control(0, 0), K_SR440, 4);
    let mixes: Vec<i32> = plan.frames.iter().map(|f| f.wavemix).collect();
    assert_eq!(mixes, vec![1_000_000_000, 750_000_000, 500_000_000, 250_000_000]);
    assert_eq!(r.state.lfoz, 0);
}

#[test]
fn empty_block_keeps_the_ramp() {
    let mut r = Raves::new();
    let plan = run(&mut r, &control(5000, 0), K_SR440, 0);
    assert!(plan.frames.is_empty());
    assert_eq!(r.state.lfo, 5000);
    assert_eq!(r.state.lfoz, 0);
    assert_eq!(r.state.phi0, 0);
}

#[test]
fn bitcrush_lookup_only_after_an_edit() {
    let mut r = Raves::new();
    assert_eq!(run(&mut r, &control(0, 0), K_SR440, 2).bitcrush, None);
    osc_param(&mut r, UserOscParamId::Id6, 0);
    let plan = run(&mut r, &control(0, 0), K_SR440, 2);
    assert_eq!(plan.bitcrush, Some(LutPos { i0: 0, i1: 1, num: 0, den: 100 }));
    osc_param(&mut r, UserOscParamId::Id6, 50);
    let plan = run(&mut r, &control(0, 0), K_SR440, 2);
    assert_eq!(plan.bitcrush, Some(LutPos { i0: 64, i1: 65, num: 0, den: 100 }));
    assert_eq!(run(&mut r, &control(0, 0), K_SR440, 2).bitcrush, None);
}

#[test]
fn phases_stay_in_the_cycle() {
    let mut r = Raves::new();
    let w: u32 = (1 << 31) - 1;
    let mut expected: u64 = 0;
    for _ in 0..50 {
        run(&mut r, &control(0, 0), w, 7);
        expected = (expected + 7 * w as u64) % (1u64 << 32);
        assert_eq!(r.state.phi0 as u64, expected);
    }
}

#[test]
fn two_quiet_blocks_advance_consistently() {
    let mut a = Raves::new();
    let mut b = Raves::new();
    let quiet = control(0, 0);
    let pa1 = run(&mut a, &quiet, K_SR440, 16);
    let pb1 = run(&mut b, &quiet, K_SR440, 16);
    assert_eq!(pa1.frames, pb1.frames);
    let pa2 = run(&mut a, &quiet, K_SR440, 16);
    assert_eq!(a, {
        run(&mut b, &quiet, K_SR440, 16);
        b
    });
    let total = (32 * K_SR440 as u64) % (1u64 << 32);
    assert_eq!(a.state.phi0 as u64, total);
    assert_eq!(pa2.frames[0].pos0, osc_wave_scan_pos((16 * K_SR440 as u64 % (1u64 << 32)) as u32));
    let mut long = Raves::new();
    run(&mut long, &quiet, K_SR440, 32);
    assert_eq!(long.state.phi0, a.state.phi0);
    assert_eq!(long.state.phi1, a.state.phi1);
    assert_eq!(long.state.phisub, a.state.phisub);
}

#[test]
fn out_of_range_selection_keeps_the_table() {
    let mut r = Raves::new();
    r.params.wave0 = 60;
    r.params.wave1 = 44;
    r.params.subwave = 16;
    let mut flags = FlagSet::empty();
    flags.insert(RavesFlags::Wave0);
    flags.insert(RavesFlags::Wave1);
    flags.insert(RavesFlags::SubWave);
    r.update_waves(flags);
    assert_eq!(r.state.wave0, handle(Bank::A, 0));
    assert_eq!(r.state.wave1, handle(Bank::D, 0));
    assert_eq!(r.state.subwave, handle(Bank::A, 0));
    r.params.wave0 = 33;
    r.update_waves(flags);
    assert_eq!(r.state.wave0, handle(Bank::C, 1));
}
