use awg_remote::codec::{encode_command, setup_command, valid_buf_size, Command};
use awg_remote::waveform::{ShapeParams, Waveform};

fn encoded_text(c: &Command) -> String {
    String::from_utf8(encode_command(c)).expect("wire text is UTF-8")
}

#[test]
fn encode_exact_sine() {
    let mut w = Waveform::new();
    w.set_function("Sine").unwrap();
    let c = setup_command(1000, 1024, w);
    assert_eq!(
        encoded_text(&c),
        "{\"command\":\"setup\",\"freq\":1000,\"buf_size\":1024,\"wave\":\
         {\"function\":\"Sine\",\"amplitude\":0.480,\"offset\":0.500,\
         \"shape_params\":[null,null,null],\"replicate\":0}}"
    );
}

#[test]
fn encode_exact_exponential() {
    let mut w = Waveform::new();
    w.set_function("Exponential").unwrap();
    let c = setup_command(50, 32, w);
    assert_eq!(
        encoded_text(&c),
        "{\"command\":\"setup\",\"freq\":50,\"buf_size\":32,\"wave\":\
         {\"function\":\"Exponential\",\"amplitude\":0.500,\"offset\":0.000,\
         \"shape_params\":[0.080,null,null],\"replicate\":-1}}"
    );
}

#[test]
fn encode_fresh_wave_has_null_function() {
    let c = setup_command(0, 64, Waveform::new());
    let text = encoded_text(&c);
    assert!(text.contains("\"function\":null"), "got: {}", text);
}

#[test]
fn encode_negative_milli_values() {
    let mut w = Waveform::new();
    w.set_function("Pulse").unwrap();
    w.set_amplitude_milli(-1500);
    w.set_offset_milli(-1);
    let c = setup_command(1, 64, w);
    let text = encoded_text(&c);
    assert!(text.contains("\"amplitude\":-1.500"), "got: {}", text);
    assert!(text.contains("\"offset\":-0.001"), "got: {}", text);
}

#[test]
fn encode_is_valid_json_with_expected_fields() {
    let mut w = Waveform::new();
    w.set_function("Gaussian").unwrap();
    w.set_replicate(3);
    let c = setup_command(2500, 4096, w);
    let v: serde_json::Value = serde_json::from_str(&encoded_text(&c)).expect("parses as JSON");
    assert_eq!(v["command"].as_str(), Some("setup"));
    assert_eq!(v["freq"].as_u64(), Some(2500));
    assert_eq!(v["buf_size"].as_u64(), Some(4096));
    assert_eq!(v["wave"]["function"].as_str(), Some("Gaussian"));
    assert_eq!(v["wave"]["amplitude"].as_f64(), Some(0.55));
    assert_eq!(v["wave"]["offset"].as_f64(), Some(0.0));
    assert_eq!(v["wave"]["replicate"].as_i64(), Some(3));
    let params = v["wave"]["shape_params"].as_array().expect("array");
    assert_eq!(params.len(), 3);
    assert_eq!(params[0].as_f64(), Some(0.095));
    assert!(params[1].is_null());
    assert!(params[2].is_null());
}

#[test]
fn encode_large_numbers() {
    let mut w = Waveform::new();
    w.set_function("Sine").unwrap();
    w.set_amplitude_milli(1_234_567);
    let c = setup_command(u32::MAX, 65536, w);
    let text = encoded_text(&c);
    assert!(text.contains("\"freq\":4294967295"), "got: {}", text);
    assert!(text.contains("\"amplitude\":1234.567"), "got: {}", text);
}

#[test]
fn buf_size_validation() {
    assert!(valid_buf_size(32));
    assert!(valid_buf_size(64));
    assert!(valid_buf_size(1024));
    assert!(valid_buf_size(65536));
    assert!(!valid_buf_size(0));
    assert!(!valid_buf_size(30));
    assert!(!valid_buf_size(33));
    assert!(!valid_buf_size(65540));
}

#[test]
fn setup_command_carries_its_arguments() {
    let mut w = Waveform::new();
    w.set_function("Sinc").unwrap();
    let c = setup_command(440, 128, w);
    assert_eq!(c.command, "setup");
    assert_eq!(c.freq, 440);
    assert_eq!(c.buf_size, 128);
    assert_eq!(c.wave, w);
    assert_eq!(c.wave.shape_params, ShapeParams { p0: Some(29), p1: None, p2: None });
}
