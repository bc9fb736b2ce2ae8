use figment_clap_together::{
    width_range, Cli, ConfigError, DisplayConfig, GeneralConfig, TerminalConfig, WIDTH_MAX,
    WIDTH_MIN,
};

/// The resolved configuration that the loader hands to the library: clap's
/// defaults, with the given display settings.
fn resolved(width: u32, theme: &str, no_color: bool) -> Cli {
    Cli {
        display: DisplayConfig {
            width,
            theme: theme.to_string(),
            no_color,
        },
        terminal: TerminalConfig {
            shell: "bash".to_string(),
            scrollback: 1000,
        },
        general: GeneralConfig {
            log_level: "info".to_string(),
        },
    }
}

/// Sanity check the range itself so the tests below stay honest if it's
/// ever changed.
#[test]
fn width_range_is_10_to_500() {
    assert_eq!(*width_range().start(), 10);
    assert_eq!(*width_range().end(), 500);
    assert_eq!(WIDTH_MIN, 10);
    assert_eq!(WIDTH_MAX, 500);
}

// ---------------------------------------------------------------------
// InvalidRange: display.width out of range, whichever source it came from.
// ---------------------------------------------------------------------

#[test]
fn invalid_range_error_from_toml() {
    // `[display] width = 999` in config.toml
    let err = resolved(999, "dark", false).into_validated().expect_err("999 is out of range");
    match err {
        ConfigError::Validation(msg) => {
            assert!(
                msg.contains("invalid range") && msg.contains("999"),
                "unexpected message: {msg}"
            );
        }
        other => panic!("expected Validation error, got: {}", other.to_string()),
    }
}

#[test]
fn invalid_range_error_from_env() {
    // MYAPP_DISPLAY__WIDTH=1
    let err = resolved(1, "dark", false).into_validated().expect_err("1 is below the minimum of 10");
    match err {
        ConfigError::Validation(msg) => {
            assert!(msg.contains("invalid range"), "unexpected message: {msg}");
        }
        other => panic!("expected Validation error, got: {}", other.to_string()),
    }
}

#[test]
fn invalid_range_error_from_cli() {
    // myapp --width 1000
    let err = resolved(1000, "dark", false).into_validated().expect_err("1000 is out of range");
    match err {
        ConfigError::Validation(msg) => {
            assert!(msg.contains("invalid range"), "unexpected message: {msg}");
        }
        other => panic!("expected Validation error, got: {}", other.to_string()),
    }
}

#[test]
fn width_at_range_boundaries_is_valid() {
    let low = resolved(10, "dark", false).into_validated().unwrap();
    assert_eq!(low.display.width, 10);

    let high = resolved(500, "dark", false).into_validated().unwrap();
    assert_eq!(high.display.width, 500);
}

#[test]
fn width_just_outside_boundaries_is_invalid() {
    assert!(resolved(9, "dark", false).into_validated().is_err());
    assert!(resolved(501, "dark", false).into_validated().is_err());
}

// ---------------------------------------------------------------------
// MutuallyExclusive: --no-color combined with a non-default theme.
// ---------------------------------------------------------------------

#[test]
fn mutually_exclusive_error_from_cli() {
    // myapp --no-color --theme neon
    let err = resolved(80, "neon", true)
        .into_validated()
        .expect_err("no_color + non-dark theme should conflict");
    match err {
        ConfigError::Validation(msg) => {
            assert!(
                msg.contains("mutually exclusive") && msg.contains("no_color"),
                "unexpected message: {msg}"
            );
        }
        other => panic!("expected Validation error, got: {}", other.to_string()),
    }
}

#[test]
fn mutually_exclusive_error_from_toml() {
    // `[display] no_color = true, theme = "neon"` in config.toml
    let err = resolved(80, "neon", true)
        .into_validated()
        .expect_err("no_color + non-dark theme from toml should conflict");
    match err {
        ConfigError::Validation(msg) => {
            assert!(msg.contains("mutually exclusive"), "unexpected message: {msg}");
        }
        other => panic!("expected Validation error, got: {}", other.to_string()),
    }
}

#[test]
fn no_color_alone_is_fine() {
    // --no-color with the (default) "dark" theme is not a conflict.
    let cfg = resolved(80, "dark", true).into_validated().unwrap();
    assert!(cfg.display.no_color);
    assert_eq!(cfg.display.theme, "dark");
}

#[test]
fn custom_theme_alone_is_fine() {
    // A non-default theme without --no-color is not a conflict.
    let cfg = resolved(80, "neon", false).into_validated().unwrap();
    assert!(!cfg.display.no_color);
    assert_eq!(cfg.display.theme, "neon");
}

// ---------------------------------------------------------------------
// Multiple errors collected at once (not just the first one found).
// ---------------------------------------------------------------------

#[test]
fn multiple_validation_errors_are_all_reported_together() {
    // myapp --width 999 --no-color --theme neon
    let err = resolved(999, "neon", true)
        .into_validated()
        .expect_err("both violations should surface");

    match err {
        ConfigError::Validation(msg) => {
            assert!(
                msg.contains("2 configuration error"),
                "expected both errors counted: {msg}"
            );
            assert!(msg.contains("invalid range"), "missing range error: {msg}");
            assert!(
                msg.contains("mutually exclusive"),
                "missing exclusivity error: {msg}"
            );
        }
        other => panic!("expected Validation error, got: {}", other.to_string()),
    }
}

// ---------------------------------------------------------------------
// Exact results of the rules.
// ---------------------------------------------------------------------

#[test]
fn validate_lists_each_violation_in_order() {
    let errors = resolved(999, "neon", true).validate().unwrap_err();
    assert_eq!(errors.0.len(), 2);
    match &errors.0[0] {
        ConfigError::InvalidRange(msg) => {
            assert_eq!(msg, "display.width = 999 is out of range (10..=500)")
        }
        other => panic!("expected InvalidRange, got: {}", other.to_string()),
    }
    match &errors.0[1] {
        ConfigError::MutuallyExclusive(a, b) => {
            assert_eq!(a, "display.no_color");
            assert_eq!(b, "display.theme = \"neon\"");
        }
        other => panic!("expected MutuallyExclusive, got: {}", other.to_string()),
    }
}

#[test]
fn validate_accepts_clap_defaults() {
    assert!(resolved(80, "dark", false).validate().is_ok());
}

#[test]
fn validate_reports_only_the_width() {
    let errors = resolved(0, "dark", true).validate().unwrap_err();
    assert_eq!(errors.0.len(), 1);
    assert_eq!(
        errors.to_string(),
        "found 1 configuration error(s):\n  1. invalid range: display.width = 0 is out of range (10..=500)\n"
    );
}

#[test]
fn validate_reports_only_the_conflict() {
    let errors = resolved(500, "", true).validate().unwrap_err();
    assert_eq!(errors.0.len(), 1);
    assert_eq!(
        errors.0[0].to_string(),
        "options 'display.no_color' and 'display.theme = \"\"' are mutually exclusive"
    );
}

#[test]
fn rejection_message_is_the_full_report() {
    let err = resolved(4294967295, "neon", true).into_validated().unwrap_err();
    match err {
        ConfigError::Validation(msg) => assert_eq!(
            msg,
            "found 2 configuration error(s):\n  1. invalid range: display.width = 4294967295 is out of range (10..=500)\n  2. options 'display.no_color' and 'display.theme = \"neon\"' are mutually exclusive\n"
        ),
        other => panic!("expected Validation error, got: {}", other.to_string()),
    }
}

#[test]
fn accepted_configuration_is_returned_unchanged() {
    let cfg = resolved(123, "light", false);
    let out = cfg.clone().into_validated().unwrap();
    assert_eq!(out, cfg);
}
