use motion_limits::alias::{resolve_key, LimitField};
use motion_limits::loader::Loader;
use motion_limits::local::LocalDocument;
use motion_limits::model::{
    derive_instant_corner_velocity, Axis, LimitConfiguration, Limiter, RetractionOptions,
    DEFAULT_MAX_VELOCITY, MICRO_PER_UNIT,
};
use motion_limits::numbers::parse_micros;
use motion_limits::overrides::{split_override, ConfigError, OverrideOutcome};
use motion_limits::remote::{
    moonraker_query_url, RemoteExtruderSettings, RemotePrinterSettings, RemoteRetractionSettings,
    RemoteSettings,
};

fn empty_document() -> LocalDocument {
    LocalDocument {
        max_velocity: None,
        max_acceleration: None,
        max_accel_to_decel: None,
        square_corner_velocity: None,
        instant_corner_velocity: None,
        firmware_retraction: None,
        limiters: None,
    }
}

fn plain_remote() -> RemoteSettings {
    RemoteSettings {
        printer: RemotePrinterSettings {
            max_velocity: 250 * MICRO_PER_UNIT,
            max_accel: 3000 * MICRO_PER_UNIT,
            max_accel_to_decel: 1500 * MICRO_PER_UNIT,
            square_corner_velocity: 5 * MICRO_PER_UNIT,
            max_x_velocity: None,
            max_x_accel: None,
            max_y_velocity: None,
            max_y_accel: None,
            max_z_velocity: None,
            max_z_accel: None,
        },
        extruder: RemoteExtruderSettings {
            max_extrude_only_velocity: 75 * MICRO_PER_UNIT,
            max_extrude_only_accel: 1500 * MICRO_PER_UNIT,
            instantaneous_corner_velocity: 8 * MICRO_PER_UNIT,
        },
        firmware_retraction: None,
    }
}

#[test]
fn default_configuration_is_conservative() {
    let c = LimitConfiguration::default();
    assert_eq!(c.max_velocity, 100 * MICRO_PER_UNIT);
    assert_eq!(c.max_acceleration, 1000 * MICRO_PER_UNIT);
    assert_eq!(c.max_accel_to_decel, 500 * MICRO_PER_UNIT);
    assert_eq!(c.square_corner_velocity, 5 * MICRO_PER_UNIT);
    assert_eq!(c.instant_corner_velocity, 1 * MICRO_PER_UNIT);
    assert_eq!(c.firmware_retraction, None);
    assert!(c.limiters.is_empty());
}

#[test]
fn corner_model_is_the_documented_ratio() {
    // 5 units/s * (sqrt(2) - 1) in micro-units, truncated.
    assert_eq!(derive_instant_corner_velocity(5 * MICRO_PER_UNIT), 2_071_070);
    assert_eq!(derive_instant_corner_velocity(0), 0);
}

#[test]
fn square_corner_setter_derives_instant_corner() {
    let mut c = LimitConfiguration::default();
    c.set_instant_corner_velocity(9 * MICRO_PER_UNIT);
    c.set_square_corner_velocity(5 * MICRO_PER_UNIT);
    // The later setter silently overwrites the explicit value.
    assert_eq!(c.instant_corner_velocity, 2_071_070);
    assert_eq!(c.square_corner_velocity, 5 * MICRO_PER_UNIT);
}

#[test]
fn parse_micros_accepts_plain_decimals() {
    assert_eq!(parse_micros("300"), Some(300 * MICRO_PER_UNIT));
    assert_eq!(parse_micros("5.0"), Some(5 * MICRO_PER_UNIT));
    assert_eq!(parse_micros("0.5"), Some(500_000));
    assert_eq!(parse_micros(".5"), Some(500_000));
    assert_eq!(parse_micros("5."), Some(5 * MICRO_PER_UNIT));
    assert_eq!(parse_micros("0"), Some(0));
    assert_eq!(parse_micros("1.234567"), Some(1_234_567));
}

#[test]
fn parse_micros_truncates_beyond_millionths() {
    assert_eq!(parse_micros("1.2345678"), Some(1_234_567));
    assert_eq!(parse_micros("0.9999999"), Some(999_999));
}

#[test]
fn parse_micros_rejects_malformed_input() {
    assert_eq!(parse_micros("fast"), None);
    assert_eq!(parse_micros(""), None);
    assert_eq!(parse_micros("."), None);
    assert_eq!(parse_micros("1.2.3"), None);
    assert_eq!(parse_micros("3 00"), None);
    assert_eq!(parse_micros("-5"), None);
}

#[test]
fn parse_micros_rejects_values_out_of_range() {
    assert_eq!(parse_micros("99999999999999999999999"), None);
    // The largest representable whole-unit count still parses.
    assert_eq!(parse_micros("18446744073709"), Some(18_446_744_073_709 * MICRO_PER_UNIT));
    assert_eq!(parse_micros("18446744073710"), None);
}

#[test]
fn split_override_takes_the_first_colon() {
    assert_eq!(split_override("max_velocity:300"), Some(("max_velocity", "300")));
    assert_eq!(split_override("a:b:c"), Some(("a", "b:c")));
    assert_eq!(split_override(":5"), Some(("", "5")));
    assert_eq!(split_override("novalue"), None);
}

#[test]
fn every_alias_resolves_to_its_group() {
    for k in ["max_acceleration", "max_accel", "accel"] {
        assert_eq!(resolve_key(k), Some(LimitField::Acceleration));
    }
    for k in ["max_accel_to_decel", "accel_to_decel", "a2d"] {
        assert_eq!(resolve_key(k), Some(LimitField::AccelToDecel));
    }
    for k in ["max_velocity", "velocity", "max_vel", "vel"] {
        assert_eq!(resolve_key(k), Some(LimitField::Velocity));
    }
    for k in ["square_corner_velocity", "scv", "SCV", "sqv", "SQV"] {
        assert_eq!(resolve_key(k), Some(LimitField::SquareCornerVelocity));
    }
    for k in ["instant_corner_velocity", "icv", "ICV"] {
        assert_eq!(resolve_key(k), Some(LimitField::InstantCornerVelocity));
    }
    assert_eq!(resolve_key("frobnicate"), None);
    assert_eq!(resolve_key("Scv"), None);
}

#[test]
fn alias_equivalence_for_accel() {
    let mut a = Loader::default();
    let mut b = Loader::default();
    a.apply_override("max_accel".to_string(), "1000".to_string()).unwrap();
    b.apply_override("accel".to_string(), "1000".to_string()).unwrap();
    assert_eq!(a.limits, b.limits);
    assert_eq!(a.limits.max_acceleration, 1000 * MICRO_PER_UNIT);
}

#[test]
fn unknown_override_key_is_skipped() {
    let mut l = Loader::default();
    let before = l.limits.clone();
    let r = l.apply_override("frobnicate".to_string(), "9".to_string());
    assert_eq!(r, Ok(OverrideOutcome::UnknownKey));
    assert_eq!(l.limits, before);
}

#[test]
fn malformed_override_value_is_fatal() {
    let mut l = Loader::default();
    let r = l.apply_override("max_velocity".to_string(), "fast".to_string());
    assert_eq!(
        r,
        Err(ConfigError::MalformedValue { key: "max_velocity".to_string(), value: "fast".to_string() })
    );
    // The previous value is untouched; the run is expected to abort.
    assert_eq!(l.limits.max_velocity, DEFAULT_MAX_VELOCITY);
}

#[test]
fn unknown_key_robustness_scenario() {
    let overrides = vec!["frobnicate:9".to_string(), "max_velocity:300".to_string()];
    let res = Loader::default().load_config(None, None, Some(overrides)).unwrap();
    assert_eq!(res.limits.max_velocity, 300 * MICRO_PER_UNIT);
    // Exactly one diagnostic, naming the dropped override.
    assert_eq!(res.skipped, vec!["frobnicate:9".to_string()]);
}

#[test]
fn malformed_numeric_override_terminates_the_run() {
    let overrides = vec!["max_velocity:fast".to_string()];
    let r = Loader::default().load_config(None, None, Some(overrides));
    assert_eq!(
        r.err().unwrap(),
        ConfigError::MalformedValue { key: "max_velocity".to_string(), value: "fast".to_string() }
    );
}

#[test]
fn override_without_separator_is_fatal() {
    let overrides = vec!["maxvel300".to_string()];
    let r = Loader::default().load_config(None, None, Some(overrides));
    assert_eq!(r.err().unwrap(), ConfigError::MissingSeparator { input: "maxvel300".to_string() });
}

#[test]
fn later_override_for_the_same_field_wins() {
    let overrides = vec!["max_velocity:120".to_string(), "vel:140".to_string()];
    let res = Loader::default().load_config(None, None, Some(overrides)).unwrap();
    assert_eq!(res.limits.max_velocity, 140 * MICRO_PER_UNIT);
}

#[test]
fn document_fixup_rederives_instant_corner_velocity() {
    let mut d = empty_document();
    d.square_corner_velocity = Some(10 * MICRO_PER_UNIT);
    d.instant_corner_velocity = Some(999);
    let res = Loader::default().load_config(Some(&d), None, None).unwrap();
    // The document's direct value is overwritten by the fix-up.
    assert_eq!(res.limits.instant_corner_velocity, 4_142_140);
    assert_eq!(res.limits.square_corner_velocity, 10 * MICRO_PER_UNIT);
}

#[test]
fn remote_merge_overwrites_scalars_and_appends_limiters() {
    let mut remote = plain_remote();
    remote.printer.max_x_velocity = Some(500 * MICRO_PER_UNIT);
    remote.printer.max_x_accel = Some(10000 * MICRO_PER_UNIT);
    remote.printer.max_y_velocity = Some(400 * MICRO_PER_UNIT);
    // Y has no acceleration: no Y limiter may appear.
    remote.printer.max_z_velocity = Some(30 * MICRO_PER_UNIT);
    remote.printer.max_z_accel = Some(300 * MICRO_PER_UNIT);
    let mut l = Loader::default();
    l.moonraker_config(&remote);
    assert_eq!(l.limits.max_velocity, 250 * MICRO_PER_UNIT);
    assert_eq!(l.limits.max_acceleration, 3000 * MICRO_PER_UNIT);
    assert_eq!(l.limits.max_accel_to_decel, 1500 * MICRO_PER_UNIT);
    assert_eq!(l.limits.square_corner_velocity, 5 * MICRO_PER_UNIT);
    // The extruder's instantaneous corner velocity lands last.
    assert_eq!(l.limits.instant_corner_velocity, 8 * MICRO_PER_UNIT);
    assert_eq!(
        l.limits.limiters,
        vec![
            Limiter::AxisLimiter {
                axis: Axis::X,
                max_velocity: 500 * MICRO_PER_UNIT,
                max_accel: 10000 * MICRO_PER_UNIT,
            },
            Limiter::AxisLimiter {
                axis: Axis::Z,
                max_velocity: 30 * MICRO_PER_UNIT,
                max_accel: 300 * MICRO_PER_UNIT,
            },
            Limiter::ExtruderLimiter {
                max_velocity: 75 * MICRO_PER_UNIT,
                max_accel: 1500 * MICRO_PER_UNIT,
            },
        ]
    );
}

#[test]
fn remote_retraction_defaults_lift_z_to_zero() {
    let mut remote = plain_remote();
    remote.firmware_retraction = Some(RemoteRetractionSettings {
        retract_length: 800_000,
        unretract_extra_length: 0,
        unretract_speed: 40 * MICRO_PER_UNIT,
        retract_speed: 60 * MICRO_PER_UNIT,
        lift_z: None,
    });
    let mut l = Loader::default();
    l.moonraker_config(&remote);
    assert_eq!(
        l.limits.firmware_retraction,
        Some(RetractionOptions {
            retract_length: 800_000,
            unretract_extra_length: 0,
            unretract_speed: 40 * MICRO_PER_UNIT,
            retract_speed: 60 * MICRO_PER_UNIT,
            lift_z: 0,
        })
    );
}

#[test]
fn remote_without_retraction_keeps_a_configured_one() {
    // A report replaces the retraction options only if it carries a
    // retraction block; without one, the document's configuration stands.
    let configured = RetractionOptions {
        retract_length: 1,
        unretract_extra_length: 2,
        unretract_speed: 3,
        retract_speed: 4,
        lift_z: 5,
    };
    let mut d = empty_document();
    d.firmware_retraction = Some(configured);
    let remote = plain_remote();
    let res = Loader::default().load_config(Some(&d), Some(&remote), None).unwrap();
    assert_eq!(res.limits.firmware_retraction, Some(configured));
}

#[test]
fn limiter_accumulation_is_not_idempotent() {
    // Fetching the same remote report twice appends two equal entries.
    let mut remote = plain_remote();
    remote.printer.max_x_velocity = Some(500 * MICRO_PER_UNIT);
    remote.printer.max_x_accel = Some(10000 * MICRO_PER_UNIT);
    let mut l = Loader::default();
    l.moonraker_config(&remote);
    l.moonraker_config(&remote);
    assert_eq!(l.limits.limiters.len(), 4);
    assert_eq!(l.limits.limiters[0], l.limits.limiters[2]);
    assert_eq!(l.limits.limiters[1], l.limits.limiters[3]);
    assert_eq!(
        l.limits.limiters[0],
        Limiter::AxisLimiter {
            axis: Axis::X,
            max_velocity: 500 * MICRO_PER_UNIT,
            max_accel: 10000 * MICRO_PER_UNIT,
        }
    );
}

#[test]
fn end_to_end_precedence_scenario() {
    // Default max velocity, then each source in turn.
    let mut d = empty_document();
    d.max_velocity = Some(200 * MICRO_PER_UNIT);
    let remote = plain_remote();
    let overrides = vec!["max_velocity:300".to_string()];
    let res = Loader::default().load_config(Some(&d), Some(&remote), Some(overrides)).unwrap();
    assert_eq!(res.limits.max_velocity, 300 * MICRO_PER_UNIT);
    // Remote derived the corner value from scv 5.0, then the extruder's
    // explicit 8.0 overwrote it.
    assert_eq!(res.limits.instant_corner_velocity, 8 * MICRO_PER_UNIT);
    assert!(res.skipped.is_empty());

    // Without the override, the remote value is last and wins.
    let res2 = Loader::default().load_config(Some(&d), Some(&remote), None).unwrap();
    assert_eq!(res2.limits.max_velocity, 250 * MICRO_PER_UNIT);

    // Without remote and override, the document's value wins.
    let res3 = Loader::default().load_config(Some(&d), None, None).unwrap();
    assert_eq!(res3.limits.max_velocity, 200 * MICRO_PER_UNIT);

    // With no source at all, the default stands.
    let res4 = Loader::default().load_config(None, None, None).unwrap();
    assert_eq!(res4.limits.max_velocity, DEFAULT_MAX_VELOCITY);
}

#[test]
fn query_url_appends_the_fixed_path() {
    assert_eq!(
        moonraker_query_url("http://printer.local"),
        "http://printer.local/printer/objects/query?configfile=settings"
    );
}

#[test]
fn non_ascii_keys_are_unknown() {
    let overrides = vec!["vélocité:300".to_string()];
    let res = Loader::default().load_config(None, None, Some(overrides)).unwrap();
    assert_eq!(res.skipped, vec!["vélocité:300".to_string()]);
    assert_eq!(res.limits.max_velocity, DEFAULT_MAX_VELOCITY);
}

#[test]
fn parse_micros_ignores_leading_zeros() {
    assert_eq!(parse_micros("00300"), Some(300 * MICRO_PER_UNIT));
    assert_eq!(parse_micros("0005.50"), Some(5_500_000));
}

#[test]
fn document_limiters_are_loaded_verbatim() {
    let mut d = empty_document();
    d.limiters = Some(vec![Limiter::ExtruderLimiter { max_velocity: 7, max_accel: 9 }]);
    let res = Loader::default().load_config(Some(&d), None, None).unwrap();
    assert_eq!(res.limits.limiters, vec![Limiter::ExtruderLimiter { max_velocity: 7, max_accel: 9 }]);
}
