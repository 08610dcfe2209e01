use slint_ohos::display::{choose_config, next_context_attempt, ContextAttributes, egl_setup_error, EglSetupError, select_config, validate_surface_size, ConfigTraits, TimerBasedAnimationDriver};
use slint_ohos::error::PlatformError;

fn message(e: PlatformError) -> String {
    match e {
        PlatformError::Other(m) => m,
    }
}

#[test]
fn surface_size_must_be_non_zero() {
    assert!(validate_surface_size(800, 600).is_ok());
    assert_eq!(
        message(validate_surface_size(0, 600).unwrap_err()),
        "Attempting to create window surface with an invalid width: 0"
    );
    assert_eq!(
        message(validate_surface_size(800, 0).unwrap_err()),
        "Attempting to create window surface with an invalid height: 0"
    );
    assert_eq!(
        message(validate_surface_size(0, 0).unwrap_err()),
        "Attempting to create window surface with an invalid width: 0"
    );
}

fn cfg(t: Option<bool>, n: u8) -> ConfigTraits {
    ConfigTraits { supports_transparency: t, num_samples: n }
}

#[test]
fn config_choice() {
    assert_eq!(select_config(&[]), None);
    assert_eq!(select_config(&[cfg(None, 4)]), Some(0));
    // transparency wins over an opaque choice
    assert_eq!(select_config(&[cfg(Some(false), 4), cfg(Some(true), 4)]), Some(1));
    // fewer samples win
    assert_eq!(select_config(&[cfg(Some(true), 4), cfg(Some(true), 2)]), Some(1));
    // neither: the earlier choice stays
    assert_eq!(select_config(&[cfg(Some(true), 2), cfg(None, 4), cfg(Some(false), 2)]), Some(0));
    // fewer samples win even against transparency
    assert_eq!(select_config(&[cfg(Some(true), 4), cfg(Some(false), 0)]), Some(1));
    // an unknown transparency counts as none
    assert_eq!(select_config(&[cfg(None, 4), cfg(Some(true), 8), cfg(None, 8)]), Some(1));
}

#[test]
fn animation_callback_fires_once() {
    let mut d: TimerBasedAnimationDriver<&str> = TimerBasedAnimationDriver::new();
    assert!(!d.timer_running);
    assert!(d.is_ready_to_present());
    assert_eq!(d.timer_fired(), None);
    d.present_with_next_frame_callback("first");
    d.present_with_next_frame_callback("second");
    assert!(d.timer_running);
    assert_eq!(d.timer_fired(), Some("second"));
    assert!(!d.timer_running);
    assert_eq!(d.timer_fired(), None);
}

#[test]
fn egl_setup_messages() {
    assert_eq!(
        message(egl_setup_error(&EglSetupError::CreateDisplay("no display".to_string()))),
        "Error creating EGL display: no display"
    );
    assert_eq!(message(egl_setup_error(&EglSetupError::NoSuitableConfig)), "Unable to find suitable GL config");
    assert_eq!(
        message(egl_setup_error(&EglSetupError::MakeCurrent("bad".to_string()))),
        "FemtoVG Renderer: Failed to make newly created OpenGL context current: bad"
    );
    assert_eq!(message(choose_config(&[]).unwrap_err()), "Unable to find suitable GL config");
    assert_eq!(choose_config(&[cfg(None, 4), cfg(None, 1)]).ok(), Some(1));
}

#[test]
fn context_is_tried_with_gles2_then_defaults() {
    let first = next_context_attempt(None);
    assert_eq!(first, Some(ContextAttributes::Gles2));
    assert_eq!(ContextAttributes::Gles2.gles_version(), Some((2, 0)));
    let second = next_context_attempt(first);
    assert_eq!(second, Some(ContextAttributes::Default));
    assert_eq!(ContextAttributes::Default.gles_version(), None);
    assert_eq!(next_context_attempt(second), None);
}
