//! One message through the engine: hex text in, the size bound checked on
//! the decoded input and on the chain's output, hex text out.
use crate::codec::{bytes_to_hex, hex_decoded, hex_encoded, hex_to_bytes};
use crate::config::Config;
use crate::error::ByteProcError;
use crate::registry::{configured_chain, run_chain, xor_settings_usable, ModuleRegistry};
use vstd::prelude::*;

verus! {

/// The size bound of a configuration, in bytes.
pub open spec fn size_bound(cfg: Config) -> int {
    cfg.max_stream_size_kb * 1024
}

/// Fails with `MaxSizeExceeded(limit, length)` when `data` is longer than
/// `limit`.
pub fn check_size(limit: usize, data: &[u8]) -> (r: Result<(), ByteProcError>)
    ensures
        data@.len() <= limit ==> r is Ok,
        data@.len() > limit ==> (r matches Err(ByteProcError::MaxSizeExceeded(l, actual)) && l
            == limit && actual == data@.len()),
{
    if data.len() > limit {
        Err(ByteProcError::MaxSizeExceeded(limit, data.len()))
    } else {
        Ok(())
    }
}

/// Strict hex decoding of the raw message text.
pub fn decode_input(raw_hex: &str) -> (r: Result<Vec<u8>, ByteProcError>)
    ensures
        match r {
            Ok(v) => hex_decoded(raw_hex@) == Some(v@),
            Err(e) => hex_decoded(raw_hex@) is None && e is HexDecode,
        },
{
    match hex_to_bytes(raw_hex) {
        Ok(v) => Ok(v),
        Err(e) => Err(ByteProcError::HexDecode(e.to_string())),
    }
}

/// Lower-case hex text of the processed bytes.
pub fn encode_output(data: &[u8]) -> (r: String)
    requires
        data@.len() <= usize::MAX / 2,
    ensures
        r@ == hex_encoded(data@),
{
    bytes_to_hex(data)
}

/// Runs the configured chain on decoded input, with the size bound checked
/// before any module runs and again on the output.
pub fn process_bounded(cfg: &Config, input: Vec<u8>) -> (r: Result<Vec<u8>, ByteProcError>)
    ensures
        size_bound(*cfg) > usize::MAX ==> r matches Err(ByteProcError::InvalidConfiguration(_)),
        size_bound(*cfg) <= usize::MAX && input@.len() > size_bound(*cfg) ==> (r matches Err(
            ByteProcError::MaxSizeExceeded(limit, actual),
        ) && limit == size_bound(*cfg) && actual == input@.len()),
        size_bound(*cfg) <= usize::MAX && input@.len() <= size_bound(*cfg) && !xor_settings_usable(
            *cfg,
        ) ==> (r matches Err(ByteProcError::InvalidConfiguration(_)) || r matches Err(
            ByteProcError::HexDecode(_),
        )),
        size_bound(*cfg) <= usize::MAX && input@.len() <= size_bound(*cfg) && xor_settings_usable(
            *cfg,
        ) ==> match run_chain(configured_chain(*cfg), input@) {
            None => r matches Err(ByteProcError::Module(_)),
            Some(out) => if out.len() > size_bound(*cfg) {
                r matches Err(ByteProcError::MaxSizeExceeded(limit, actual)) && limit == size_bound(
                    *cfg,
                ) && actual == out.len()
            } else {
                r matches Ok(v) && v@ == out
            },
        },
{
    let limit = match cfg.max_stream_size() {
        Ok(n) => n,
        Err(e) => {
            return Err(e);
        },
    };
    match check_size(limit, input.as_slice()) {
        Ok(()) => {},
        Err(e) => {
            return Err(e);
        },
    }
    let registry = match ModuleRegistry::new(cfg) {
        Ok(reg) => reg,
        Err(e) => {
            return Err(e);
        },
    };
    let processed = match registry.process_all(input) {
        Ok(v) => v,
        Err(e) => {
            return Err(e);
        },
    };
    match check_size(limit, processed.as_slice()) {
        Ok(()) => Ok(processed),
        Err(e) => Err(e),
    }
}

} // verus!
