use z3::text::{decimal_string, text_is_ok};
use z3::{Config, Context, ContextError};

#[test]
fn new_config_is_empty() {
    let cfg = Config::new();
    assert_eq!(cfg.len(), 0);
    assert_eq!(cfg.first_malformed(), None);
}

#[test]
fn pairs_are_kept_in_the_order_they_were_set() {
    let mut cfg = Config::new();
    cfg.set_param_value("timeout", "10");
    cfg.set_param_value("model", "true");
    cfg.set_param_value("timeout", "20");
    assert_eq!(cfg.len(), 3);
    assert_eq!((cfg.key(0), cfg.value(0)), ("timeout", "10"));
    assert_eq!((cfg.key(1), cfg.value(1)), ("model", "true"));
    assert_eq!((cfg.key(2), cfg.value(2)), ("timeout", "20"));
}

#[test]
fn boolean_options_are_written_as_words() {
    let mut cfg = Config::new();
    cfg.set_bool_param_value("auto_config", true);
    cfg.set_bool_param_value("auto_config", false);
    assert_eq!((cfg.key(0), cfg.value(0)), ("auto_config", "true"));
    assert_eq!((cfg.key(1), cfg.value(1)), ("auto_config", "false"));
}

#[test]
fn named_options_use_the_engine_s_keys() {
    let mut cfg = Config::new();
    cfg.set_proof_generation(true);
    cfg.set_model_generation(false);
    cfg.set_debug_ref_count(true);
    cfg.set_timeout_msec(1500);
    assert_eq!(cfg.len(), 4);
    assert_eq!((cfg.key(0), cfg.value(0)), ("proof", "true"));
    assert_eq!((cfg.key(1), cfg.value(1)), ("model", "false"));
    assert_eq!((cfg.key(2), cfg.value(2)), ("debug_ref_count", "true"));
    assert_eq!((cfg.key(3), cfg.value(3)), ("timeout", "1500"));
}

#[test]
fn numbers_are_written_in_decimal() {
    assert_eq!(decimal_string(0), "0");
    assert_eq!(decimal_string(7), "7");
    assert_eq!(decimal_string(10), "10");
    assert_eq!(decimal_string(1234567890), "1234567890");
    assert_eq!(decimal_string(u64::MAX), "18446744073709551615");
}

#[test]
fn timeout_of_zero_and_of_the_largest_number() {
    let mut cfg = Config::new();
    cfg.set_timeout_msec(0);
    cfg.set_timeout_msec(u64::MAX);
    assert_eq!(cfg.value(0), "0");
    assert_eq!(cfg.value(1), "18446744073709551615");
}

#[test]
fn a_text_with_a_nul_character_is_not_ok() {
    assert!(text_is_ok(""));
    assert!(text_is_ok("timeout"));
    assert!(text_is_ok("zéro"));
    assert!(!text_is_ok("\0"));
    assert!(!text_is_ok("time\0out"));
    assert!(!text_is_ok("timeout\0"));
}

#[test]
fn the_first_malformed_pair_is_found() {
    let mut cfg = Config::new();
    cfg.set_param_value("model", "true");
    assert_eq!(cfg.first_malformed(), None);
    cfg.set_param_value("pro\0of", "true");
    cfg.set_param_value("timeout", "1\00");
    assert_eq!(cfg.first_malformed(), Some(1));
}

#[test]
fn a_nul_character_in_a_value_is_found() {
    let mut cfg = Config::new();
    cfg.set_param_value("model", "true");
    cfg.set_param_value("timeout", "1\00");
    assert_eq!(cfg.first_malformed(), Some(1));
}

#[test]
fn context_of_a_good_configuration() {
    let mut cfg = Config::new();
    cfg.set_model_generation(true);
    let ctx = Context::new(&cfg, 0x7f00_1000).unwrap();
    assert_eq!(ctx.handle(), 0x7f00_1000);
}

#[test]
fn configuration_is_left_as_it_was() {
    let mut cfg = Config::new();
    cfg.set_model_generation(true);
    let first = Context::new(&cfg, 1).unwrap();
    let second = Context::new(&cfg, 2).unwrap();
    assert_eq!(cfg.len(), 1);
    assert!(!first.same(&second));
}

#[test]
fn engine_that_gives_no_session_is_reported() {
    let cfg = Config::new();
    assert_eq!(Context::new(&cfg, 0).unwrap_err(), ContextError::EngineRefused);
}

#[test]
fn malformed_configuration_is_reported_with_its_position() {
    let mut cfg = Config::new();
    cfg.set_param_value("model", "true");
    cfg.set_param_value("time\0out", "10");
    assert_eq!(Context::new(&cfg, 0).unwrap_err(), ContextError::MalformedParameter(1));
    assert_eq!(Context::new(&cfg, 0x1000).unwrap_err(), ContextError::MalformedParameter(1));
}
