use tetra::context::{ContextBuilder, WindowSettings};
use tetra::error::{StartupStep, TetraError};
use tetra::time::DEFAULT_TICK_NANOS;

#[test]
fn default_builder_asks_for_a_1280_by_720_window() {
    let settings = ContextBuilder::new().window_settings().unwrap();
    assert_eq!(
        settings,
        WindowSettings {
            title: "Tetra",
            width: 1280,
            height: 720,
            logical_width: 1280,
            logical_height: 720,
            scale: 1,
            vsync: true,
        }
    );
}

#[test]
fn window_size_is_logical_size_times_scale() {
    let settings = ContextBuilder::new()
        .title("Pong")
        .size(320, 180)
        .scale(4)
        .vsync(false)
        .window_settings()
        .unwrap();
    assert_eq!(
        settings,
        WindowSettings {
            title: "Pong",
            width: 1280,
            height: 720,
            logical_width: 320,
            logical_height: 180,
            scale: 4,
            vsync: false,
        }
    );
}

#[test]
fn each_option_overrides_only_itself() {
    let settings = ContextBuilder::new().scale(2).window_settings().unwrap();
    assert_eq!(settings.title, "Tetra");
    assert_eq!((settings.width, settings.height), (2560, 1440));
    assert!(settings.vsync);

    let settings = ContextBuilder::new().size(640, 480).window_settings().unwrap();
    assert_eq!((settings.width, settings.height), (640, 480));
    assert_eq!(settings.scale, 1);

    let settings = ContextBuilder::new().title("a").title("b").window_settings().unwrap();
    assert_eq!(settings.title, "b");
}

#[test]
fn largest_window_that_fits_is_accepted() {
    let settings = ContextBuilder::new()
        .size(65_535, 1)
        .scale(65_537)
        .window_settings()
        .unwrap();
    assert_eq!(settings.width, u32::MAX);
    assert_eq!(settings.height, 65_537);
}

#[test]
fn window_wider_than_32_bits_is_refused() {
    let refused = ContextBuilder::new().size(65_536, 1).scale(65_536).window_settings();
    assert!(matches!(refused, Err(TetraError::WindowCreation(_))));
}

#[test]
fn window_taller_than_32_bits_is_refused() {
    let refused = ContextBuilder::new().size(1, 3_000_000_000).scale(2).window_settings();
    match refused {
        Err(TetraError::WindowCreation(message)) => {
            assert_eq!(message, "window size out of range")
        }
        _ => panic!("a window of 6,000,000,000 rows was accepted"),
    }
}

#[test]
fn zero_scale_gives_an_empty_window() {
    let settings = ContextBuilder::new().scale(0).window_settings().unwrap();
    assert_eq!((settings.width, settings.height), (0, 0));
}

#[test]
fn build_wires_a_stopped_context_with_the_default_tick() {
    let ctx = ContextBuilder::new().build(Ok(())).unwrap();
    assert!(!ctx.is_running());
    assert!(!ctx.quits_on_escape());
    assert_eq!(ctx.tick_nanos(), DEFAULT_TICK_NANOS);
    assert_eq!(ctx.tick_nanos(), 16_666_666);
    assert_eq!(ctx.input().pointer_position(), (0, 0));
    for code in 0..322u32 {
        assert!(!ctx.input().is_key_down(code));
    }
}

#[test]
fn build_carries_the_escape_policy() {
    let ctx = ContextBuilder::new().quit_on_escape(true).build(Ok(())).unwrap();
    assert!(ctx.quits_on_escape());
    let ctx = ContextBuilder::new()
        .quit_on_escape(true)
        .quit_on_escape(false)
        .build(Ok(()))
        .unwrap();
    assert!(!ctx.quits_on_escape());
}

#[test]
fn build_keeps_the_platform_handles() {
    let ctx = ContextBuilder::new().build(Ok(vec![1u8, 2, 3])).unwrap();
    assert_eq!(ctx.platform(), &vec![1u8, 2, 3]);
}

#[test]
fn build_hands_back_a_platform_failure() {
    let failed: Result<(), TetraError> =
        Err(TetraError::PlatformInit(String::from("no video device")));
    match ContextBuilder::new().build(failed) {
        Err(TetraError::PlatformInit(message)) => assert_eq!(message, "no video device"),
        _ => panic!("the failure was not handed back"),
    }
}

#[test]
fn build_hands_back_a_window_failure() {
    let failed: Result<(), TetraError> =
        Err(TetraError::WindowCreation(String::from("no surface")));
    match ContextBuilder::new().build(failed) {
        Err(TetraError::WindowCreation(message)) => assert_eq!(message, "no surface"),
        _ => panic!("the failure was not handed back"),
    }
}

#[test]
fn error_message_is_the_text_it_carries() {
    let init = TetraError::PlatformInit(String::from("driver missing"));
    assert_eq!(init.message(), "driver missing");
    let window = TetraError::WindowCreation(String::from("too large"));
    assert_eq!(window.message(), "too large");
}

#[test]
fn window_step_gives_a_window_creation_error() {
    match TetraError::at_step(StartupStep::Window, String::from("bad size")) {
        TetraError::WindowCreation(message) => assert_eq!(message, "bad size"),
        _ => panic!("a failed window was reported as something else"),
    }
}

#[test]
fn every_other_step_gives_a_platform_init_error() {
    let steps = [
        (StartupStep::Init, "no platform"),
        (StartupStep::Video, "no display"),
        (StartupStep::Graphics, "no device"),
        (StartupStep::EventQueue, "no queue"),
    ];
    for (step, text) in steps {
        match TetraError::at_step(step, String::from(text)) {
            TetraError::PlatformInit(message) => assert_eq!(message, text),
            _ => panic!("a platform failure was reported as a window failure"),
        }
    }
}

#[test]
fn error_at_a_step_carries_the_message() {
    let error = TetraError::at_step(StartupStep::Graphics, String::from("driver too old"));
    assert_eq!(error.message(), "driver too old");
    let error = TetraError::at_step(StartupStep::Window, String::new());
    assert_eq!(error.message(), "");
}
