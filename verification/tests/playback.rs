use icy_animation::host::{base_directory, load_buffer, new_buffer, next_frame};
use icy_animation::{
    Animator, AttributedChar, BackgroundEffect, Buffer, BufferType, Color, FloatBits, LuaBuffer,
    MonitorGlobals, MonitorSettings, Position, Rgba, ScriptError, Size, DEFAULT_SPEED, MAX_FRAMES,
};

fn same(_kind: BufferType, ch: char, _page: usize) -> char {
    ch
}

fn same_back(_kind: BufferType, cell: AttributedChar) -> char {
    cell.ch
}

/// An animator with one frame for each of `durations`; frame `i` holds the
/// digit `i` at the origin.
fn animator_with(durations: &[u32]) -> Animator {
    let mut animator = Animator::default();
    let mut canvas = LuaBuffer::new(Buffer::with_type(Size::new(2, 1), BufferType::Unicode));
    for (i, duration) in durations.iter().enumerate() {
        let digit = char::from_digit(i as u32, 10).unwrap().to_string();
        canvas.set_char(&same, 0, 0, &digit).unwrap();
        animator.set_speed(*duration);
        animator.lua_next_frame(&canvas.buffer).unwrap();
    }
    animator.set_speed(DEFAULT_SPEED);
    animator
}

fn origin(buffer: &Buffer) -> char {
    buffer.get_char(0, Position::new(0, 0)).ch
}

#[test]
fn new_animator_is_idle() {
    let animator = Animator::default();
    assert_eq!(animator.frame_count(), 0);
    assert_eq!(animator.get_cur_frame(), 0);
    assert!(!animator.is_playing());
    assert!(!animator.get_is_loop());
    assert_eq!(animator.get_speed(), 100);
    assert_eq!(animator.last_advance(), 0);
    assert_eq!(animator.current_monitor_settings(), MonitorSettings::default());
    assert_eq!(animator.frame_counter(), 2);
    assert_eq!(DEFAULT_SPEED, 100);
    assert_eq!(MAX_FRAMES, 4096);
}

#[test]
fn default_monitor_settings() {
    let settings = MonitorSettings::default();
    assert!(!settings.use_filter);
    assert_eq!(settings.monitor_type, 0);
    assert_eq!(f32::from_bits(settings.gamma.to_bits()), 50.0);
    assert_eq!(f32::from_bits(settings.contrast.to_bits()), 50.0);
    assert_eq!(f32::from_bits(settings.saturation.to_bits()), 50.0);
    assert_eq!(f32::from_bits(settings.brightness.to_bits()), 30.0);
    assert_eq!(f32::from_bits(settings.light.to_bits()), 40.0);
    assert_eq!(f32::from_bits(settings.blur.to_bits()), 30.0);
    assert_eq!(f32::from_bits(settings.curvature.to_bits()), 10.0);
    assert_eq!(f32::from_bits(settings.scanlines.to_bits()), 10.0);
    assert_eq!(settings.background_effect, BackgroundEffect::Off);
    assert_eq!(settings.selection_fg, Rgba::from_rgb(0xAB, 0x00, 0xAB));
    assert_eq!(settings.selection_bg, Rgba { r: 0xAB, g: 0xAB, b: 0xAB, a: 255 });
}

#[test]
fn monitor_globals_replace_what_a_script_sets() {
    let mut settings = MonitorSettings::default();
    settings.use_filter = true;
    let globals = MonitorGlobals {
        monitor_type: 3,
        gamma: FloatBits::from_bits(1.5f32.to_bits()),
        contrast: FloatBits::from_bits(2.5f32.to_bits()),
        saturation: FloatBits::from_bits(3.5f32.to_bits()),
        brightness: FloatBits::from_bits(4.5f32.to_bits()),
        blur: FloatBits::from_bits(5.5f32.to_bits()),
        curvature: FloatBits::from_bits(6.5f32.to_bits()),
        scanlines: FloatBits::from_bits(7.5f32.to_bits()),
    };
    settings.apply_globals(&globals);
    assert_eq!(settings.globals(), globals);
    assert!(settings.use_filter);
    assert_eq!(f32::from_bits(settings.light.to_bits()), 40.0);
    assert_eq!(f32::from_bits(settings.scanlines.to_bits()), 7.5);
}

#[test]
fn script_scenario_yields_one_frame() {
    let mut animator = Animator::default();
    let mut buf = LuaBuffer::create(4, 2);
    assert_eq!(buf.fg_rgb(255, 0, 0), 16);
    buf.set_char(&same, 0, 0, "A").unwrap();
    let globals = animator.current_monitor_settings().globals();
    assert_eq!(animator.capture(&buf.buffer, &globals), Ok(()));
    assert_eq!(animator.frame_count(), 1);
    assert_eq!(animator.frame_counter(), 3);
    let (frame, settings, duration) = &animator.frames()[0];
    let cell = frame.get_char(0, Position::new(0, 0));
    let shown = LuaBuffer::new(frame.clone());
    assert_eq!(shown.convert_to_unicode(&same_back, cell), "A");
    assert_eq!(frame.get_color(cell.attribute.foreground_color), Some(Color::new(255, 0, 0)));
    assert_eq!(frame.get_size(), Size::new(4, 2));
    assert_eq!(*settings, MonitorSettings::default());
    assert_eq!(*duration, 100);
}

#[test]
fn a_frame_is_cut_off_from_the_canvas() {
    let mut animator = Animator::default();
    let mut buf = LuaBuffer::create(4, 2);
    buf.set_char(&same, 1, 0, "x").unwrap();
    animator.lua_next_frame(&buf.buffer).unwrap();
    buf.set_char(&same, 1, 0, "y").unwrap();
    buf.fg_rgb(9, 8, 7);
    animator.lua_next_frame(&buf.buffer).unwrap();
    buf.clear();
    assert_eq!(animator.frames()[0].0.get_char(0, Position::new(1, 0)).ch, 'x');
    assert_eq!(animator.frames()[0].0.palette_len(), 16);
    assert_eq!(animator.frames()[1].0.get_char(0, Position::new(1, 0)).ch, 'y');
    assert_eq!(animator.frames()[1].0.palette_len(), 17);
}

#[test]
fn capture_takes_the_monitor_globals() {
    let mut animator = Animator::default();
    let buf = LuaBuffer::create(1, 1);
    let mut globals = animator.current_monitor_settings().globals();
    globals.monitor_type = 2;
    globals.gamma = FloatBits::from_bits(12.0f32.to_bits());
    animator.capture(&buf.buffer, &globals).unwrap();
    assert_eq!(animator.frames()[0].1.monitor_type, 2);
    assert_eq!(f32::from_bits(animator.frames()[0].1.gamma.to_bits()), 12.0);
    assert_eq!(animator.current_monitor_settings().monitor_type, 2);
}

#[test]
fn frame_limit() {
    let mut animator = Animator::default();
    let buf = LuaBuffer::create(1, 1);
    for _ in 0..4096 {
        assert_eq!(animator.lua_next_frame(&buf.buffer), Ok(()));
    }
    assert_eq!(animator.frame_count(), 4096);
    let res = animator.lua_next_frame(&buf.buffer);
    assert_eq!(res, Err(ScriptError::FrameLimitExceeded));
    assert_eq!(res.unwrap_err().message(), "Maximum number of frames reached");
    assert_eq!(animator.frame_count(), 4096);
    let globals = animator.current_monitor_settings().globals();
    assert_eq!(animator.capture(&buf.buffer, &globals), Err(ScriptError::FrameLimitExceeded));
    assert_eq!(animator.frame_count(), 4096);
}

#[test]
fn playback_without_loop_runs_to_the_last_frame_and_stops() {
    let mut animator = animator_with(&[100, 100, 100]);
    let (picture, _) = animator.start_playback_at(1000);
    assert_eq!(origin(&picture.unwrap()), '0');
    assert!(animator.is_playing());
    assert_eq!(animator.get_cur_frame(), 0);

    let (picture, _) = animator.update_frame_at(1101);
    assert_eq!(animator.get_cur_frame(), 1);
    assert_eq!(origin(&picture.unwrap()), '1');
    let (picture, _) = animator.update_frame_at(1202);
    assert_eq!(animator.get_cur_frame(), 2);
    assert_eq!(origin(&picture.unwrap()), '2');
    assert!(animator.is_playing());

    let (picture, _) = animator.update_frame_at(1303);
    assert_eq!(animator.get_cur_frame(), 2);
    assert!(!animator.is_playing());
    assert_eq!(origin(&picture.unwrap()), '2');

    for now in [1500u128, 5000, 1_000_000] {
        let (picture, _) = animator.update_frame_at(now);
        assert!(picture.is_none());
        assert_eq!(animator.get_cur_frame(), 2);
        assert!(!animator.is_playing());
    }
}

#[test]
fn playback_with_loop_wraps_to_the_first_frame() {
    let mut animator = animator_with(&[100, 300, 100]);
    animator.set_is_loop(true);
    animator.start_playback_at(0);
    animator.update_frame_at(101);
    assert_eq!(animator.get_cur_frame(), 1);
    assert_eq!(animator.get_speed(), 300);
    animator.update_frame_at(402);
    assert_eq!(animator.get_cur_frame(), 2);
    let (picture, _) = animator.update_frame_at(503);
    assert_eq!(animator.get_cur_frame(), 0);
    assert!(animator.is_playing());
    assert!(animator.get_is_loop());
    assert_eq!(animator.get_speed(), DEFAULT_SPEED);
    assert_eq!(origin(&picture.unwrap()), '0');
    assert_eq!(animator.last_advance(), 503);
}

#[test]
fn a_single_frame_loops_on_itself() {
    let mut animator = animator_with(&[100]);
    animator.set_is_loop(true);
    animator.start_playback_at(0);
    for round in 1..5u128 {
        let (picture, _) = animator.update_frame_at(round * 101);
        assert_eq!(animator.get_cur_frame(), 0);
        assert!(animator.is_playing());
        assert_eq!(animator.get_speed(), 100);
        assert_eq!(origin(&picture.unwrap()), '0');
    }
}

#[test]
fn a_tick_waits_for_the_duration_of_the_frame() {
    let mut animator = animator_with(&[100, 250, 100]);
    animator.start_playback_at(1000);
    animator.set_cur_frame(1);
    assert_eq!(animator.get_speed(), 250);
    let (picture, _) = animator.update_frame_at(1200);
    assert!(picture.is_none());
    assert_eq!(animator.get_cur_frame(), 1);
    assert_eq!(animator.last_advance(), 1000);
    let (picture, _) = animator.update_frame_at(1260);
    assert_eq!(animator.get_cur_frame(), 2);
    assert_eq!(origin(&picture.unwrap()), '2');
    assert_eq!(animator.last_advance(), 1260);
    assert_eq!(animator.get_speed(), 100);
}

#[test]
fn a_tick_at_exactly_the_duration_does_not_move() {
    let mut animator = animator_with(&[100, 100]);
    animator.start_playback_at(0);
    animator.update_frame_at(100);
    assert_eq!(animator.get_cur_frame(), 0);
    animator.update_frame_at(101);
    assert_eq!(animator.get_cur_frame(), 1);
}

#[test]
fn a_late_tick_moves_one_frame_only() {
    let mut animator = animator_with(&[100, 100, 100, 100]);
    animator.start_playback_at(0);
    animator.update_frame_at(1_000_000);
    assert_eq!(animator.get_cur_frame(), 1);
    assert!(animator.is_playing());
}

#[test]
fn a_tick_before_the_last_advance_does_nothing() {
    let mut animator = animator_with(&[100, 100]);
    animator.start_playback_at(5000);
    let (picture, _) = animator.update_frame_at(10);
    assert!(picture.is_none());
    assert_eq!(animator.get_cur_frame(), 0);
    assert_eq!(animator.last_advance(), 5000);
}

#[test]
fn paused_animator_ignores_ticks() {
    let mut animator = animator_with(&[100, 100]);
    animator.update_frame_at(100_000);
    assert_eq!(animator.get_cur_frame(), 0);
    animator.start_playback_at(0);
    animator.set_is_playing(false);
    animator.update_frame_at(100_000);
    assert_eq!(animator.get_cur_frame(), 0);
    animator.set_is_playing(true);
    animator.update_frame_at(100_000);
    assert_eq!(animator.get_cur_frame(), 1);
}

#[test]
fn set_speed_overrides_the_frame_duration() {
    let mut animator = animator_with(&[100, 100, 100]);
    animator.start_playback_at(0);
    animator.set_speed(1000);
    animator.update_frame_at(500);
    assert_eq!(animator.get_cur_frame(), 0);
    animator.update_frame_at(1001);
    assert_eq!(animator.get_cur_frame(), 1);
    assert_eq!(animator.get_speed(), 100);
}

#[test]
fn seeking_to_the_current_frame_keeps_the_duration() {
    let mut animator = animator_with(&[100, 250]);
    animator.set_cur_frame(1);
    assert_eq!(animator.get_speed(), 250);
    animator.set_cur_frame(1);
    assert_eq!(animator.get_speed(), 250);
    assert_eq!(animator.get_cur_frame(), 1);
}

#[test]
fn empty_animator_is_inert() {
    let mut animator = Animator::default();
    let (picture, settings) = animator.display_frame();
    assert!(picture.is_none());
    assert_eq!(settings, MonitorSettings::default());
    let (picture, settings) = animator.start_playback_at(0);
    assert!(picture.is_none());
    assert_eq!(settings, MonitorSettings::default());
    let (picture, settings) = animator.update_frame_at(1000);
    assert!(picture.is_none());
    assert_eq!(settings, MonitorSettings::default());
    assert_eq!(animator.get_cur_frame(), 0);
    assert!(!animator.is_playing());
    animator.set_is_loop(true);
    animator.start_playback_at(0);
    let (picture, _) = animator.update_frame_at(1000);
    assert!(picture.is_none());
    assert_eq!(animator.get_cur_frame(), 0);
    assert!(animator.is_playing());
}

#[test]
fn display_frame_gives_a_terminal_copy() {
    let animator = animator_with(&[100, 100]);
    let (picture, settings) = animator.display_frame_at(1);
    let picture = picture.unwrap();
    assert!(picture.is_terminal_buffer());
    assert_eq!(origin(&picture), '1');
    assert_eq!(settings, MonitorSettings::default());
    assert!(!animator.frames()[1].0.is_terminal_buffer());
    let (picture, settings) = animator.display_frame_at(2);
    assert!(picture.is_none());
    assert_eq!(settings, MonitorSettings::default());
    let (picture, _) = animator.display_frame();
    assert_eq!(origin(&picture.unwrap()), '0');
}

#[test]
fn playback_by_the_clock() {
    let mut animator = animator_with(&[100, 100]);
    let (picture, _) = animator.start_playback();
    assert_eq!(origin(&picture.unwrap()), '0');
    assert!(animator.is_playing());
    // Far less than a frame's duration has passed since playback started.
    let (picture, _) = animator.update_frame();
    if picture.is_none() {
        assert_eq!(animator.get_cur_frame(), 0);
    } else {
        assert_eq!(animator.get_cur_frame(), 1);
    }
}

#[test]
fn new_buffer_gives_a_blank_canvas_object() {
    let buf = new_buffer(4, 2);
    assert_eq!(buf.width(), 4);
    assert_eq!(buf.height(), 2);
    assert_eq!(buf.layer(), 0);
    assert_eq!(buf.layer_count(), 1);
    assert_eq!(buf.get_char(&same_back, 0, 0), Ok(" ".to_string()));
}

#[test]
fn load_buffer_reports_what_went_wrong() {
    let missing = load_buffer("a.ans".to_string(), false, None);
    assert_eq!(missing.unwrap_err(), ScriptError::NotFound { file: "a.ans".to_string() });
    let missing = load_buffer("a.ans".to_string(), false, Some(Buffer::new(Size::new(1, 1))));
    assert_eq!(missing.unwrap_err(), ScriptError::NotFound { file: "a.ans".to_string() });
    let broken = load_buffer("b.ans".to_string(), true, None);
    assert_eq!(broken.unwrap_err(), ScriptError::LoadFailed { file: "b.ans".to_string() });
    let mut canvas = Buffer::with_type(Size::new(7, 3), BufferType::Viewdata);
    canvas.set_char(0, Position::new(1, 1), AttributedChar::invisible());
    let loaded = load_buffer("c.ans".to_string(), true, Some(canvas)).unwrap();
    assert_eq!(loaded.width(), 7);
    assert_eq!(loaded.layer(), 0);
    assert_eq!(loaded.x(), 0);
    assert_eq!(loaded.buffer.get_buffer_type(), BufferType::Viewdata);
}

#[test]
fn next_frame_wants_a_canvas_object() {
    let mut animator = Animator::default();
    let globals = animator.current_monitor_settings().globals();
    let res = next_frame(&mut animator, None, "Integer(3)".to_string(), &globals);
    let error = res.unwrap_err();
    assert_eq!(error, ScriptError::TypeMismatch { found: "Integer(3)".to_string() });
    assert_eq!(error.message(), "UserData parameter required, got: Integer(3)");
    assert_eq!(animator.frame_count(), 0);
    let mut buf = new_buffer(4, 2);
    buf.set_char(&same, 0, 0, "A").unwrap();
    assert_eq!(next_frame(&mut animator, Some(&buf), String::new(), &globals), Ok(()));
    assert_eq!(animator.frame_count(), 1);
    assert_eq!(animator.frames()[0].0.get_char(0, Position::new(0, 0)).ch, 'A');
}

#[test]
fn an_animator_without_frames_hands_out_the_default_settings() {
    let mut animator = Animator::default();
    let mut other = MonitorSettings::default();
    other.monitor_type = 4;
    other.gamma = FloatBits::from_bits(99.0f32.to_bits());
    animator.set_current_monitor_settings(other);
    // Not playing: the tick is idle.
    let (picture, settings) = animator.update_frame_at(1_000_000);
    assert!(picture.is_none());
    assert_eq!(settings, MonitorSettings::default());
    let (picture, settings) = animator.update_frame();
    assert!(picture.is_none());
    assert_eq!(settings, MonitorSettings::default());
    // Playing, too early: idle again.
    animator.start_playback_at(1_000_000);
    animator.set_current_monitor_settings(other);
    let (picture, settings) = animator.update_frame_at(1_000_001);
    assert!(picture.is_none());
    assert_eq!(settings, MonitorSettings::default());
    assert_eq!(animator.current_monitor_settings(), other);
    assert_eq!(animator.get_cur_frame(), 0);
    assert_eq!(animator.frame_count(), 0);
}

#[test]
fn an_idle_tick_hands_out_the_current_settings_and_no_picture() {
    let mut animator = animator_with(&[100, 100]);
    let mut other = MonitorSettings::default();
    other.monitor_type = 2;
    animator.set_current_monitor_settings(other);
    let (picture, settings) = animator.update_frame_at(1_000_000);
    assert!(picture.is_none());
    assert_eq!(settings, other);
    let (picture, settings) = animator.update_frame();
    assert!(picture.is_none());
    assert_eq!(settings, other);
    assert_eq!(animator.get_cur_frame(), 0);
    assert!(!animator.is_playing());
}

#[test]
fn a_relative_name_is_looked_for_under_the_base_directory() {
    assert_eq!(base_directory(true, Some("art".to_string())), Some("art".to_string()));
    assert_eq!(base_directory(true, None), None);
    assert_eq!(base_directory(false, Some("art".to_string())), None);
    assert_eq!(base_directory(false, None), None);
}
