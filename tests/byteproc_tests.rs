use byteproc::processor::{
    Base64Mode, Base64Module, ByteProcError, ByteProcessor, Config, InputType, ModuleRegistry,
    OutputType, Passthrough, XorModule,
};

fn expect_err<T>(r: Result<T, ByteProcError>) -> ByteProcError {
    match r {
        Ok(_) => panic!("expected an error"),
        Err(e) => e,
    }
}

#[test]
fn test_passthrough() {
    let module = Passthrough;
    assert_eq!(module.process(&[1, 2, 3, 4]).unwrap(), vec![1, 2, 3, 4]);
}

#[test]
fn test_xor_processing_via_config() {
    let mut config = Config::default();
    config.xor_enabled = true;
    config.xor_key = Some("abcd1234".to_string());
    let registry = ModuleRegistry::new(&config).expect("ModuleRegistry creation should succeed");

    let input_bytes = hex::decode("00112233").expect("Failed to decode input hex");
    let expected_output_bytes = vec![0xab, 0xdc, 0x30, 0x07];

    let processed_bytes = registry.process_all(input_bytes).expect("Processing failed");

    assert_eq!(processed_bytes, expected_output_bytes);
}

#[test]
fn test_input_type_from_str_valid() {
    assert_eq!(InputType::from_str("stdin").unwrap(), InputType::Stdin);
    assert_eq!(InputType::from_str("zmq_pull").unwrap(), InputType::ZmqPull);
    // case-insensitive
    assert_eq!(InputType::from_str("STDIN").unwrap(), InputType::Stdin);
}

#[test]
fn test_input_type_from_str_invalid() {
    assert!(InputType::from_str("unknown").is_err());
}

#[test]
fn test_output_type_from_str_and_display() {
    assert_eq!(OutputType::from_str("stdout").unwrap(), OutputType::Stdout);
    assert_eq!(OutputType::from_str("zmq_push").unwrap(), OutputType::ZmqPush);
    assert_eq!(OutputType::Stdout.as_str(), "stdout");
    assert_eq!(OutputType::ZmqPush.as_str(), "zmq_push");
    assert!(OutputType::from_str("invalid").is_err());
}

#[test]
fn test_config_max_stream_size_overflow() {
    let mut cfg = Config::default();
    cfg.max_stream_size_kb = usize::MAX;
    let err = cfg.max_stream_size().unwrap_err();
    assert!(matches!(err, ByteProcError::InvalidConfiguration(_)));
    assert!(err.message().contains("max_stream_size_kb too large"));
}

#[test]
fn test_config_base64_encode_flag() {
    let mut cfg = Config::default();
    cfg.base64_mode = Base64Mode::Decode;
    assert!(!cfg.base64_encode());
    cfg.base64_mode = Base64Mode::Encode;
    assert!(cfg.base64_encode());
}

#[test]
fn test_config_xor_pad_byte_parsing() {
    let mut cfg = Config::default();
    assert_eq!(cfg.xor_pad_byte(), Some(0));
    cfg.xor_pad = "ff".into();
    assert_eq!(cfg.xor_pad_byte(), Some(0xff));
    cfg.xor_pad = "GG".into();
    assert_eq!(cfg.xor_pad_byte(), None);
}

#[test]
fn test_config_validate_conditions() {
    let mut cfg = Config::default();
    cfg.input_type = InputType::ZmqPull;
    assert!(matches!(cfg.validate(), Err(ByteProcError::InvalidConfiguration(_))));
    let mut cfg = Config::default();
    cfg.output_type = OutputType::ZmqPush;
    assert!(cfg.validate().is_err());
    let mut cfg = Config::default();
    cfg.xor_enabled = true;
    assert!(cfg.validate().is_err());

    let cfg = Config::default();
    assert!(cfg.validate().is_ok());
}

#[test]
fn test_xor_module_new_empty_key() {
    let err = expect_err(XorModule::new("", None));
    assert_eq!(err.message(), "Invalid configuration: xor_key cannot be empty");
}

#[test]
fn test_xor_module_process_only() {
    let module = XorModule::new("ff", Some(0)).unwrap_or_else(|_| panic!("valid key"));
    let data = vec![0x00, 0x0f, 0xff];
    let out = module.process(&data).unwrap();
    assert_eq!(out, vec![0xff, 0xf0, 0x00]);
}

#[test]
fn test_base64_module_roundtrip_and_error() {
    let plaintext = b"hello world";
    let enc = Base64Module::new(true, true).process(plaintext).unwrap();
    assert_eq!(enc, b"aGVsbG8gd29ybGQ=".to_vec());

    let dec = Base64Module::new(false, true).process(&enc).unwrap();
    assert_eq!(&dec, plaintext);

    let err = Base64Module::new(false, true).process(b"!!! not base64 !!!").unwrap_err();
    assert!(matches!(err, ByteProcError::Module(_)));
}

#[test]
fn test_module_registry_only_xor() {
    let mut cfg = Config::default();
    cfg.xor_enabled = true;
    cfg.xor_key = Some("0f".into());
    let registry = ModuleRegistry::new(&cfg).unwrap_or_else(|_| panic!("valid config"));

    let out = registry.process_all(vec![1, 2, 3]).unwrap();
    assert_eq!(out, vec![0x0e, 0x0d, 0x0c]);
}

#[test]
fn test_module_registry_only_base64() {
    let mut cfg = Config::default();
    cfg.base64_enabled = true;
    cfg.base64_mode = Base64Mode::Encode;
    cfg.base64_padding = false;
    let registry = ModuleRegistry::new(&cfg).unwrap_or_else(|_| panic!("valid config"));

    let out = registry.process_all(b"foo".to_vec()).unwrap();
    assert_eq!(out, b"Zm9v".to_vec());
}

#[test]
fn test_module_registry_xor_then_base64() {
    let mut cfg = Config::default();
    cfg.xor_enabled = true;
    cfg.xor_key = Some("ff".into());
    cfg.base64_enabled = true;
    cfg.base64_mode = Base64Mode::Encode;
    cfg.base64_padding = false;
    let registry = ModuleRegistry::new(&cfg).unwrap_or_else(|_| panic!("valid config"));

    let out = registry.process_all(vec![0xff]).unwrap();
    assert_eq!(out, b"AA".to_vec());
}
