//! The engine's items under one path.
pub use crate::config::{
    default_base64_mode, default_base64_padding, default_input_type, default_log_append,
    default_log_enabled, default_log_file, default_log_level, default_max_stream_size_kb,
    default_output_type, default_xor_pad, default_zmq_linger_ms, default_zmq_max_reconnect_attempts,
    default_zmq_receive_timeout_ms, default_zmq_reconnect_interval_ms, default_zmq_send_timeout_ms,
    parse_hex_byte, Base64Mode, Config, InputType, OutputType,
};
pub use crate::error::ByteProcError;
pub use crate::modules::{Base64Module, ByteProcessor, Passthrough, XorModule};
pub use crate::pipeline::{check_size, decode_input, encode_output, process_bounded};
pub use crate::registry::ModuleRegistry;
