use mod_ardain::ffi::{ConfigError, FfiConfig, Offset, Register, RegisterType};

fn sample() -> FfiConfig {
    let mut config = FfiConfig::new();
    config.insert_hook("input".to_string(), 0x0032_67e4);
    config.insert_hook("blade-create-save".to_string(), 0);
    config.insert_hook("bdat-item-condition".to_string(), 0x0011_2233);
    config.insert_function("return-title".to_string(), 0x0020_0000);
    config.insert_function("draw-font".to_string(), 0x0040_0000);
    config.insert_function("draw-font-color".to_string(), 0);
    config.insert_function("render-get".to_string(), -0x100);
    assert_eq!(config.insert_register("input-pad-data".to_string(), 'x', 8), Ok(()));
    assert_eq!(config.insert_register("bdat-item-cond-id".to_string(), 'w', 9), Ok(()));
    assert_eq!(config.insert_register("title-root".to_string(), 'r', 30), Ok(()));
    config
}

#[test]
fn test_cfg() {
    let config = sample();
    assert_eq!(config.get_hook("input"), Some(Offset::from(0x0032_67e4)));
    assert_eq!(config.get_function("return-title"), Some(Offset::from(0x0020_0000)));
    let register = config.get_register("input-pad-data").unwrap();
    assert_eq!(register.reg_type(), RegisterType::X);
    assert_eq!(register.index(), 8);
}

#[test]
fn zero_offset_is_absent_though_the_key_is_there() {
    let config = sample();
    assert_eq!(config.get_hook("blade-create-save"), None);
    assert_eq!(config.get_function("draw-font-color"), None);
}

#[test]
fn missing_key_is_absent() {
    let config = sample();
    assert_eq!(config.get_hook("title-screen-load"), None);
    assert_eq!(config.get_function("draw-font-scale"), None);
    assert_eq!(config.get_register("chain-attack-rate-branch"), None);
}

#[test]
fn empty_configuration_has_no_entries() {
    let config = FfiConfig::new();
    assert_eq!(config.get_hook("input"), None);
    assert_eq!(config.get_function("input"), None);
    assert_eq!(config.get_register("input"), None);
}

#[test]
fn namespaces_are_kept_apart() {
    let config = sample();
    assert_eq!(config.get_function("input"), None);
    assert_eq!(config.get_hook("return-title"), None);
}

#[test]
fn negative_offset_is_kept() {
    let config = sample();
    let offset = config.get_function("render-get").unwrap();
    assert_eq!(offset.value(), -0x100);
}

#[test]
fn later_entry_replaces_earlier_one() {
    let mut config = sample();
    config.insert_hook("input".to_string(), 0x44);
    assert_eq!(config.get_hook("input").unwrap().value(), 0x44);
    config.insert_hook("input".to_string(), 0);
    assert_eq!(config.get_hook("input"), None);
    assert_eq!(config.get_hook("bdat-item-condition").unwrap().value(), 0x0011_2233);
}

#[test]
fn every_entry_reads_back_as_it_was_written() {
    let config = sample();
    assert_eq!(config.get_hook("input").unwrap().value(), 0x0032_67e4);
    assert_eq!(config.get_hook("bdat-item-condition").unwrap().value(), 0x0011_2233);
    assert_eq!(config.get_function("draw-font").unwrap().value(), 0x0040_0000);
    let id = config.get_register("bdat-item-cond-id").unwrap();
    assert_eq!((id.reg_type(), id.index()), (RegisterType::W, 9));
    let root = config.get_register("title-root").unwrap();
    assert_eq!((root.reg_type(), root.index()), (RegisterType::R, 30));
}

#[test]
fn register_tags_name_the_three_classes() {
    assert_eq!(Register::parse('x', 0).unwrap().reg_type(), RegisterType::X);
    assert_eq!(Register::parse('w', 1).unwrap().reg_type(), RegisterType::W);
    assert_eq!(Register::parse('r', 2).unwrap().reg_type(), RegisterType::R);
    assert_eq!(Register::parse('r', 2).unwrap().index(), 2);
}

#[test]
fn unknown_register_tag_is_refused() {
    assert_eq!(Register::parse('q', 3), Err(ConfigError::UnsupportedRegisterType('q')));
    assert_eq!(Register::parse('X', 3), Err(ConfigError::UnsupportedRegisterType('X')));
    let mut config = FfiConfig::new();
    assert_eq!(
        config.insert_register("input-pad-data".to_string(), 'z', 1),
        Err(ConfigError::UnsupportedRegisterType('z'))
    );
    assert_eq!(config.get_register("input-pad-data"), None);
}

#[test]
fn register_index_beyond_the_context_is_refused() {
    assert!(Register::parse('x', 30).is_ok());
    assert_eq!(Register::parse('x', 31), Err(ConfigError::RegisterOutOfRange(31)));
    let mut config = FfiConfig::new();
    assert_eq!(
        config.insert_register("title-root".to_string(), 'w', 64),
        Err(ConfigError::RegisterOutOfRange(64))
    );
    assert_eq!(config.get_register("title-root"), None);
}

#[test]
fn refused_register_leaves_the_earlier_entry() {
    let mut config = sample();
    assert!(config.insert_register("input-pad-data".to_string(), 'x', 99).is_err());
    assert_eq!(config.get_register("input-pad-data").unwrap().index(), 8);
}
