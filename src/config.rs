//! The resolved configuration that the registry is built from.
use crate::codec::{hex_digit_value, is_hex_digit};
use crate::error::ByteProcError;
use vstd::prelude::*;

verus! {

/// ASCII upper-case letters to lower case; every other character unchanged.
pub open spec fn ascii_lower(c: char) -> char {
    if 'A' <= c && c <= 'Z' {
        ((c as u32) + 32) as char
    } else {
        c
    }
}

/// A string with its ASCII letters lowered.
pub open spec fn ascii_lowered(s: Seq<char>) -> Seq<char> {
    s.map_values(|c: char| ascii_lower(c))
}

fn lowers_to(c: char, w: char) -> (r: bool)
    ensures
        r == (ascii_lower(c) == w),
{
    if 'A' <= c && c <= 'Z' {
        (c as u32) + 32 == (w as u32)
    } else {
        c == w
    }
}

/// Whether `s` equals the lower-case word `word` when ASCII case is ignored.
fn is_word_ignoring_case(s: &str, word: &str) -> (r: bool)
    ensures
        r == (ascii_lowered(s@) == word@),
{
    let n = s.unicode_len();
    if n != word.unicode_len() {
        assert(ascii_lowered(s@).len() != word@.len());
        return false;
    }
    let mut i: usize = 0;
    while i < n
        invariant
            n == s@.len() == word@.len(),
            i <= n,
            forall|j: int| 0 <= j < i ==> ascii_lower(s@[j]) == word@[j],
        decreases n - i,
    {
        if !lowers_to(s.get_char(i), word.get_char(i)) {
            assert(ascii_lowered(s@)[i as int] != word@[i as int]);
            return false;
        }
        i += 1;
    }
    assert(ascii_lowered(s@) =~= word@);
    true
}

/// Where the raw input comes from.
#[derive(Debug, Clone, Copy, PartialEq, Eq, Structural)]
pub enum InputType {
    Stdin,
    ZmqPull,
}

impl InputType {
    /// Parses `stdin` or `zmq_pull`, ignoring ASCII case.
    pub fn from_str(s: &str) -> (r: Result<InputType, ByteProcError>)
        ensures
            r matches Ok(InputType::Stdin) <==> ascii_lowered(s@) == "stdin"@,
            r matches Ok(InputType::ZmqPull) <==> ascii_lowered(s@) == "zmq_pull"@,
            r is Err ==> r matches Err(ByteProcError::InvalidConfiguration(_)),
    {
        proof {
            reveal_strlit("stdin");
            reveal_strlit("zmq_pull");
            assert("stdin"@[0] != "zmq_pull"@[0]);
        }
        if is_word_ignoring_case(s, "stdin") {
            Ok(InputType::Stdin)
        } else if is_word_ignoring_case(s, "zmq_pull") {
            Ok(InputType::ZmqPull)
        } else {
            Err(ByteProcError::InvalidConfiguration(String::from_str("unknown input type")))
        }
    }

    /// The configuration word for this input type.
    pub fn as_str(&self) -> (r: &'static str)
        ensures
            *self == InputType::Stdin ==> r@ == "stdin"@,
            *self == InputType::ZmqPull ==> r@ == "zmq_pull"@,
    {
        match self {
            InputType::Stdin => "stdin",
            InputType::ZmqPull => "zmq_pull",
        }
    }
}

/// Where the result goes.
#[derive(Debug, Clone, Copy, PartialEq, Eq, Structural)]
pub enum OutputType {
    Stdout,
    ZmqPush,
}

impl OutputType {
    /// Parses `stdout` or `zmq_push`, ignoring ASCII case.
    pub fn from_str(s: &str) -> (r: Result<OutputType, ByteProcError>)
        ensures
            r matches Ok(OutputType::Stdout) <==> ascii_lowered(s@) == "stdout"@,
            r matches Ok(OutputType::ZmqPush) <==> ascii_lowered(s@) == "zmq_push"@,
            r is Err ==> r matches Err(ByteProcError::InvalidConfiguration(_)),
    {
        proof {
            reveal_strlit("stdout");
            reveal_strlit("zmq_push");
            assert("stdout"@[0] != "zmq_push"@[0]);
        }
        if is_word_ignoring_case(s, "stdout") {
            Ok(OutputType::Stdout)
        } else if is_word_ignoring_case(s, "zmq_push") {
            Ok(OutputType::ZmqPush)
        } else {
            Err(ByteProcError::InvalidConfiguration(String::from_str("unknown output type")))
        }
    }

    /// The configuration word for this output type.
    pub fn as_str(&self) -> (r: &'static str)
        ensures
            *self == OutputType::Stdout ==> r@ == "stdout"@,
            *self == OutputType::ZmqPush ==> r@ == "zmq_push"@,
    {
        match self {
            OutputType::Stdout => "stdout",
            OutputType::ZmqPush => "zmq_push",
        }
    }
}

/// The direction of the Base64 module.
#[derive(Debug, Clone, Copy, PartialEq, Eq, Structural)]
pub enum Base64Mode {
    Encode,
    Decode,
}

impl Base64Mode {
    /// Parses `encode` or `decode`, ignoring ASCII case.
    pub fn from_str(s: &str) -> (r: Result<Base64Mode, ByteProcError>)
        ensures
            r matches Ok(Base64Mode::Encode) <==> ascii_lowered(s@) == "encode"@,
            r matches Ok(Base64Mode::Decode) <==> ascii_lowered(s@) == "decode"@,
            r is Err ==> r matches Err(ByteProcError::InvalidConfiguration(_)),
    {
        proof {
            reveal_strlit("encode");
            reveal_strlit("decode");
            assert("encode"@[0] != "decode"@[0]);
        }
        if is_word_ignoring_case(s, "encode") {
            Ok(Base64Mode::Encode)
        } else if is_word_ignoring_case(s, "decode") {
            Ok(Base64Mode::Decode)
        } else {
            Err(ByteProcError::InvalidConfiguration(String::from_str("unknown base64 mode")))
        }
    }

    /// The configuration word for this mode.
    pub fn as_str(&self) -> (r: &'static str)
        ensures
            *self == Base64Mode::Encode ==> r@ == "encode"@,
            *self == Base64Mode::Decode ==> r@ == "decode"@,
    {
        match self {
            Base64Mode::Encode => "encode",
            Base64Mode::Decode => "decode",
        }
    }
}


/// Value of a string of hex digits, most significant first.
pub open spec fn hex_number(d: Seq<char>) -> int
    decreases d.len(),
{
    if d.len() == 0 {
        0
    } else {
        hex_number(d.drop_last()) * 16 + hex_digit_value(d.last())
    }
}

/// The digits of a base-16 number: the text after an optional leading `+`.
pub open spec fn hex_byte_digits(s: Seq<char>) -> Seq<char> {
    if s.len() > 0 && s[0] == '+' {
        s.drop_first()
    } else {
        s
    }
}

/// Reading of a byte in base 16: an optional `+`, then one or more hex
/// digits whose value is below 256.
pub open spec fn hex_byte_of(s: Seq<char>) -> Option<u8> {
    let d = hex_byte_digits(s);
    if d.len() > 0 && (forall|i: int| 0 <= i < d.len() ==> is_hex_digit(#[trigger] d[i]))
        && hex_number(d) < 256 {
        Some(hex_number(d) as u8)
    } else {
        None
    }
}

proof fn lemma_hex_number_nonneg(d: Seq<char>)
    requires
        forall|k: int| 0 <= k < d.len() ==> is_hex_digit(#[trigger] d[k]),
    ensures
        hex_number(d) >= 0,
    decreases d.len(),
{
    if d.len() > 0 {
        lemma_hex_number_nonneg(d.drop_last());
        assert(is_hex_digit(d[d.len() - 1]));
    }
}

proof fn lemma_hex_number_grows(d: Seq<char>, i: int, j: int)
    requires
        0 <= i <= j <= d.len(),
        forall|k: int| 0 <= k < d.len() ==> is_hex_digit(#[trigger] d[k]),
    ensures
        hex_number(d.take(j)) >= hex_number(d.take(i)),
    decreases j - i,
{
    if i < j {
        lemma_hex_number_grows(d, i, j - 1);
        assert(d.take(j).drop_last() =~= d.take(j - 1));
        lemma_hex_number_nonneg(d.take(j - 1));
        assert(is_hex_digit(d[j - 1]));
    }
}

fn hex_char_value(c: char) -> (r: u32)
    requires
        is_hex_digit(c),
    ensures
        r == hex_digit_value(c),
{
    if '0' <= c && c <= '9' {
        (c as u32) - ('0' as u32)
    } else if 'a' <= c && c <= 'f' {
        (c as u32) - ('a' as u32) + 10
    } else {
        (c as u32) - ('A' as u32) + 10
    }
}

fn is_hex_char(c: char) -> (r: bool)
    ensures
        r == is_hex_digit(c),
{
    ('0' <= c && c <= '9') || ('a' <= c && c <= 'f') || ('A' <= c && c <= 'F')
}

/// Reads a byte written in base 16 (an optional `+`, then hex digits).
pub fn parse_hex_byte(s: &str) -> (r: Option<u8>)
    ensures
        r == hex_byte_of(s@),
{
    let n = s.unicode_len();
    let start: usize = if n > 0 && s.get_char(0) == '+' {
        1
    } else {
        0
    };
    let ghost d = hex_byte_digits(s@);
    assert(d =~= s@.subrange(start as int, n as int));
    if start == n {
        return None;
    }
    let mut acc: u32 = 0;
    let mut i: usize = start;
    while i < n
        invariant
            start <= i <= n,
            n == s@.len(),
            d == s@.subrange(start as int, n as int),
            d == hex_byte_digits(s@),
            forall|k: int| 0 <= k < i - start ==> is_hex_digit(#[trigger] d[k]),
            acc == hex_number(d.take(i - start)),
            acc < 256,
        decreases n - i,
    {
        let c = s.get_char(i);
        assert(c == d[i - start]);
        if !is_hex_char(c) {
            assert(!is_hex_digit(d[i - start]));
            return None;
        }
        let next = acc * 16 + hex_char_value(c);
        assert(d.take(i - start + 1).drop_last() =~= d.take(i - start));
        if next >= 256 {
            proof {
                if forall|k: int| 0 <= k < d.len() ==> is_hex_digit(#[trigger] d[k]) {
                    lemma_hex_number_grows(d, i - start + 1, d.len() as int);
                    assert(d.take(d.len() as int) =~= d);
                }
            }
            return None;
        }
        acc = next;
        i += 1;
    }
    assert(d.take(n - start) =~= d);
    Some(acc as u8)
}

pub fn default_max_stream_size_kb() -> (r: usize)
    ensures
        r == 64,
{
    64
}

pub fn default_input_type() -> (r: InputType)
    ensures
        r == InputType::Stdin,
{
    InputType::Stdin
}

pub fn default_output_type() -> (r: OutputType)
    ensures
        r == OutputType::Stdout,
{
    OutputType::Stdout
}

pub fn default_zmq_reconnect_interval_ms() -> (r: u32)
    ensures
        r == 1000,
{
    1000
}

pub fn default_zmq_max_reconnect_attempts() -> (r: u32)
    ensures
        r == 5,
{
    5
}

pub fn default_zmq_send_timeout_ms() -> (r: i32)
    ensures
        r == 5000,
{
    5000
}

pub fn default_zmq_receive_timeout_ms() -> (r: i32)
    ensures
        r == 5000,
{
    5000
}

pub fn default_zmq_linger_ms() -> (r: i32)
    ensures
        r == 3000,
{
    3000
}

pub fn default_log_enabled() -> (r: bool)
    ensures
        r,
{
    true
}

pub fn default_log_level() -> (r: String)
    ensures
        r@ == "info"@,
{
    String::from_str("info")
}

pub fn default_log_file() -> (r: String)
    ensures
        r@ == "byteproc.log"@,
{
    String::from_str("byteproc.log")
}

pub fn default_log_append() -> (r: bool)
    ensures
        r,
{
    true
}

pub fn default_xor_pad() -> (r: String)
    ensures
        r@ == "00"@,
{
    String::from_str("00")
}

pub fn default_base64_mode() -> (r: Base64Mode)
    ensures
        r == Base64Mode::Encode,
{
    Base64Mode::Encode
}

pub fn default_base64_padding() -> (r: bool)
    ensures
        r,
{
    true
}

/// The resolved settings of one run.
#[derive(Debug, Clone)]
pub struct Config {
    /// Bound on decoded input and on output, in KiB.
    pub max_stream_size_kb: usize,
    pub input_type: InputType,
    pub input_zmq_socket: Option<String>,
    pub input_zmq_bind: bool,
    pub output_type: OutputType,
    pub output_zmq_socket: Option<String>,
    pub output_zmq_bind: bool,
    pub zmq_reconnect_interval_ms: u32,
    pub zmq_max_reconnect_attempts: u32,
    pub zmq_send_timeout_ms: i32,
    pub zmq_receive_timeout_ms: i32,
    pub zmq_linger_ms: i32,
    pub log_enabled: bool,
    pub log_level: String,
    pub log_file: String,
    pub log_append: bool,
    pub xor_enabled: bool,
    /// Hex text of the XOR key; required when XOR is enabled.
    pub xor_key: Option<String>,
    /// Hex text of a pad byte; read, but not used by the transform.
    pub xor_pad: String,
    pub base64_enabled: bool,
    pub base64_mode: Base64Mode,
    pub base64_padding: bool,
}

impl Default for Config {
    fn default() -> (r: Config)
        ensures
            r.max_stream_size_kb == 64,
            r.input_type == InputType::Stdin,
            r.input_zmq_socket is None,
            !r.input_zmq_bind,
            r.output_type == OutputType::Stdout,
            r.output_zmq_socket is None,
            !r.output_zmq_bind,
            r.zmq_reconnect_interval_ms == 1000,
            r.zmq_max_reconnect_attempts == 5,
            r.zmq_send_timeout_ms == 5000,
            r.zmq_receive_timeout_ms == 5000,
            r.zmq_linger_ms == 3000,
            r.log_enabled,
            r.log_level@ == "info"@,
            r.log_file@ == "byteproc.log"@,
            r.log_append,
            !r.xor_enabled,
            r.xor_key is None,
            r.xor_pad@ == "00"@,
            !r.base64_enabled,
            r.base64_mode == Base64Mode::Encode,
            r.base64_padding,
    {
        Config {
            max_stream_size_kb: default_max_stream_size_kb(),
            input_type: default_input_type(),
            input_zmq_socket: None,
            input_zmq_bind: false,
            output_type: default_output_type(),
            output_zmq_socket: None,
            output_zmq_bind: false,
            zmq_reconnect_interval_ms: default_zmq_reconnect_interval_ms(),
            zmq_max_reconnect_attempts: default_zmq_max_reconnect_attempts(),
            zmq_send_timeout_ms: default_zmq_send_timeout_ms(),
            zmq_receive_timeout_ms: default_zmq_receive_timeout_ms(),
            zmq_linger_ms: default_zmq_linger_ms(),
            log_enabled: default_log_enabled(),
            log_level: default_log_level(),
            log_file: default_log_file(),
            log_append: default_log_append(),
            xor_enabled: false,
            xor_key: None,
            xor_pad: default_xor_pad(),
            base64_enabled: false,
            base64_mode: default_base64_mode(),
            base64_padding: default_base64_padding(),
        }
    }
}

/// Whether the settings name every socket they use and a key for XOR.
pub open spec fn config_is_valid(c: Config) -> bool {
    &&& !(c.input_type == InputType::ZmqPull && c.input_zmq_socket is None)
    &&& !(c.output_type == OutputType::ZmqPush && c.output_zmq_socket is None)
    &&& !(c.xor_enabled && c.xor_key is None)
}

impl Config {
    /// The size bound in bytes, `max_stream_size_kb * 1024`.
    pub fn max_stream_size(&self) -> (r: Result<usize, ByteProcError>)
        ensures
            self.max_stream_size_kb * 1024 <= usize::MAX ==> r == Ok::<usize, ByteProcError>(
                (self.max_stream_size_kb * 1024) as usize,
            ),
            self.max_stream_size_kb * 1024 > usize::MAX ==> (r matches Err(
                ByteProcError::InvalidConfiguration(e),
            ) && e@ == "max_stream_size_kb too large"@),
    {
        match self.max_stream_size_kb.checked_mul(1024) {
            Some(n) => Ok(n),
            None => Err(
                ByteProcError::InvalidConfiguration(String::from_str("max_stream_size_kb too large")),
            ),
        }
    }

    /// Whether the Base64 module encodes (rather than decodes).
    pub fn base64_encode(&self) -> (r: bool)
        ensures
            r == (self.base64_mode == Base64Mode::Encode),
    {
        self.base64_mode == Base64Mode::Encode
    }

    /// The pad byte read in base 16, if it reads.
    pub fn xor_pad_byte(&self) -> (r: Option<u8>)
        ensures
            r == hex_byte_of(self.xor_pad@),
    {
        parse_hex_byte(self.xor_pad.as_str())
    }

    /// Checks that a socket is given for each queue transport and a key for XOR.
    pub fn validate(&self) -> (r: Result<(), ByteProcError>)
        ensures
            r is Ok <==> config_is_valid(*self),
            r is Err ==> r matches Err(ByteProcError::InvalidConfiguration(_)),
    {
        if self.input_type == InputType::ZmqPull && self.input_zmq_socket.is_none() {
            return Err(
                ByteProcError::InvalidConfiguration(
                    String::from_str("input_zmq_socket must be set for zmq_pull"),
                ),
            );
        }
        if self.output_type == OutputType::ZmqPush && self.output_zmq_socket.is_none() {
            return Err(
                ByteProcError::InvalidConfiguration(
                    String::from_str("output_zmq_socket must be set for zmq_push"),
                ),
            );
        }
        if self.xor_enabled && self.xor_key.is_none() {
            return Err(
                ByteProcError::InvalidConfiguration(
                    String::from_str("xor_key must be set if xor_enabled"),
                ),
            );
        }
        Ok(())
    }
}

} // verus!
