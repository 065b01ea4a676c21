use byteproc::processor::{
    check_size, decode_input, encode_output, parse_hex_byte, process_bounded, Base64Mode,
    Base64Module, ByteProcError, ByteProcessor, Config, InputType, ModuleRegistry, OutputType,
    Passthrough, XorModule,
};

fn xor_module(key: &str) -> XorModule {
    match XorModule::new(key, None) {
        Ok(m) => m,
        Err(e) => panic!("key rejected: {}", e.message()),
    }
}

fn registry(cfg: &Config) -> ModuleRegistry {
    match ModuleRegistry::new(cfg) {
        Ok(r) => r,
        Err(e) => panic!("configuration rejected: {}", e.message()),
    }
}

#[test]
fn passthrough_keeps_empty_and_names_itself() {
    assert_eq!(Passthrough.process(&[]).unwrap(), Vec::<u8>::new());
    assert_eq!(Passthrough.name(), "passthrough");
}

#[test]
fn xor_cycles_key_over_input() {
    let m = xor_module("abcd1234");
    assert_eq!(m.process(&[0x00, 0x11, 0x22, 0x33]).unwrap(), vec![0xab, 0xdc, 0x30, 0x07]);
    assert_eq!(m.name(), "xor");
}

#[test]
fn xor_twice_restores_input_of_odd_length() {
    let m = xor_module("a1b2c3");
    let x: Vec<u8> = vec![9, 8, 7, 6, 5, 4, 3];
    let once = m.process(&x).unwrap();
    assert_ne!(once, x);
    assert_eq!(m.process(&once).unwrap(), x);
}

#[test]
fn xor_key_errors() {
    assert!(matches!(XorModule::new("", None), Err(ByteProcError::InvalidConfiguration(_))));
    assert!(matches!(XorModule::new("abc", None), Err(ByteProcError::HexDecode(_))));
    assert!(matches!(XorModule::new("zz", None), Err(ByteProcError::HexDecode(_))));
    assert!(XorModule::new("AbCd", Some(3)).is_ok());
}

#[test]
fn base64_unpadded_encode_and_decode() {
    let enc = Base64Module::new(true, false).process(b"fo").unwrap();
    assert_eq!(enc, b"Zm8".to_vec());
    let dec = Base64Module::new(false, false).process(&enc).unwrap();
    assert_eq!(dec, b"fo".to_vec());
    assert_eq!(Base64Module::new(true, false).name(), "base64");
}

#[test]
fn base64_decode_respects_padding_mode() {
    assert!(matches!(
        Base64Module::new(false, false).process(b"Zm8="),
        Err(ByteProcError::Module(_))
    ));
    assert!(matches!(
        Base64Module::new(false, true).process(b"Zm8"),
        Err(ByteProcError::Module(_))
    ));
    // non-zero trailing bits are not a canonical encoding
    assert!(matches!(
        Base64Module::new(false, true).process(b"Zh=="),
        Err(ByteProcError::Module(_))
    ));
    assert_eq!(Base64Module::new(false, true).process(b"").unwrap(), Vec::<u8>::new());
}

#[test]
fn base64_round_trip_all_byte_values() {
    let x: Vec<u8> = (0u8..=255).collect();
    for padding in [true, false] {
        let enc = Base64Module::new(true, padding).process(&x).unwrap();
        let dec = Base64Module::new(false, padding).process(&enc).unwrap();
        assert_eq!(dec, x);
    }
}

#[test]
fn registry_requires_key_when_xor_enabled() {
    let mut cfg = Config::default();
    cfg.xor_enabled = true;
    assert!(matches!(ModuleRegistry::new(&cfg), Err(ByteProcError::InvalidConfiguration(_))));
    cfg.xor_key = Some("xyz1".into());
    assert!(matches!(ModuleRegistry::new(&cfg), Err(ByteProcError::HexDecode(_))));
    cfg.xor_key = Some(String::new());
    assert!(matches!(ModuleRegistry::new(&cfg), Err(ByteProcError::InvalidConfiguration(_))));
}

#[test]
fn registry_default_is_identity() {
    let reg = registry(&Config::default());
    assert_eq!(reg.process_all(vec![5, 6, 7]).unwrap(), vec![5, 6, 7]);
}

#[test]
fn registry_stops_at_failing_module() {
    let mut cfg = Config::default();
    cfg.base64_enabled = true;
    cfg.base64_mode = Base64Mode::Decode;
    let reg = registry(&cfg);
    assert!(matches!(reg.process_all(b"@@@@".to_vec()), Err(ByteProcError::Module(_))));
    assert_eq!(reg.process_all(b"AQI=".to_vec()).unwrap(), vec![1, 2]);
}

#[test]
fn registries_from_same_config_agree() {
    let mut cfg = Config::default();
    cfg.xor_enabled = true;
    cfg.xor_key = Some("5a".into());
    cfg.base64_enabled = true;
    let a = registry(&cfg);
    let b = registry(&cfg.clone());
    let input = vec![1, 2, 3, 4, 5];
    let out_a = a.process_all(input.clone()).unwrap();
    let out_b = b.process_all(input).unwrap();
    assert_eq!(out_a, out_b);
    assert_eq!(out_a, b"W1hZXl8=".to_vec());
}

#[test]
fn size_bound_rejects_long_input_before_chain() {
    let mut cfg = Config::default();
    cfg.max_stream_size_kb = 1;
    // the key would be rejected, but the size check comes first
    cfg.xor_enabled = true;
    cfg.xor_key = Some("zz".into());
    let r = process_bounded(&cfg, vec![0u8; 1025]);
    assert!(matches!(r, Err(ByteProcError::MaxSizeExceeded(1024, 1025))));
}

#[test]
fn size_bound_rejects_expanded_output() {
    let mut cfg = Config::default();
    cfg.max_stream_size_kb = 1;
    cfg.base64_enabled = true;
    let r = process_bounded(&cfg, vec![0u8; 1000]);
    assert!(matches!(r, Err(ByteProcError::MaxSizeExceeded(1024, 1336))));
    let ok = process_bounded(&cfg, vec![0u8; 700]).unwrap();
    assert_eq!(ok.len(), 936);
}

#[test]
fn size_bound_at_limit_passes() {
    let mut cfg = Config::default();
    cfg.max_stream_size_kb = 1;
    assert_eq!(process_bounded(&cfg, vec![7u8; 1024]).unwrap(), vec![7u8; 1024]);
    cfg.max_stream_size_kb = usize::MAX;
    assert!(matches!(
        process_bounded(&cfg, vec![]),
        Err(ByteProcError::InvalidConfiguration(_))
    ));
}

#[test]
fn check_size_reports_limit_and_length() {
    assert!(check_size(3, &[1, 2, 3]).is_ok());
    let e = check_size(2, &[1, 2, 3]).unwrap_err();
    assert!(matches!(e, ByteProcError::MaxSizeExceeded(2, 3)));
    assert_eq!(e.message(), "Stream too large: max 2 bytes, got 3");
}

#[test]
fn hex_input_and_output() {
    assert_eq!(decode_input("0aFF").unwrap(), vec![0x0a, 0xff]);
    assert_eq!(decode_input("").unwrap(), Vec::<u8>::new());
    assert!(matches!(decode_input("0g"), Err(ByteProcError::HexDecode(_))));
    assert!(matches!(decode_input("123"), Err(ByteProcError::HexDecode(_))));
    assert_eq!(encode_output(&[0xab, 0x01, 0xf0]), "ab01f0");
    assert_eq!(encode_output(&[]), "");
}

#[test]
fn hex_byte_readings() {
    assert_eq!(parse_hex_byte("+1f"), Some(0x1f));
    assert_eq!(parse_hex_byte("000ff"), Some(0xff));
    assert_eq!(parse_hex_byte("100"), None);
    assert_eq!(parse_hex_byte(""), None);
    assert_eq!(parse_hex_byte("+"), None);
    assert_eq!(parse_hex_byte("-1"), None);
}

#[test]
fn mode_words() {
    assert_eq!(Base64Mode::from_str("DeCode").unwrap(), Base64Mode::Decode);
    assert_eq!(Base64Mode::from_str("encode").unwrap(), Base64Mode::Encode);
    assert!(Base64Mode::from_str("encodex").is_err());
    assert_eq!(Base64Mode::Decode.as_str(), "decode");
    assert_eq!(InputType::ZmqPull.as_str(), "zmq_pull");
    assert_eq!(OutputType::from_str("STDOUT").unwrap(), OutputType::Stdout);
}

#[test]
fn error_messages() {
    assert_eq!(ByteProcError::HexDecode("x".into()).message(), "Hex decode error: x");
    assert_eq!(ByteProcError::Module("y".into()).message(), "Module processing error: y");
    assert_eq!(ByteProcError::Io("z".into()).message(), "I/O error: z");
    assert_eq!(ByteProcError::Zmq("w".into()).message(), "ZeroMQ error: w");
}
