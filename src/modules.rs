//! The processor abstraction and its three transforms.
use crate::codec::{
    b64_decoded, b64_text, b64_text_len, base64_decode, base64_encode, hex_decoded, hex_to_bytes,
};
use crate::error::ByteProcError;
use vstd::prelude::*;
use zeroize::Zeroize;

verus! {

/// Cyclic XOR: byte `i` of `x` combined with byte `i mod |k|` of the key.
pub open spec fn xor_cycle(x: Seq<u8>, k: Seq<u8>) -> Seq<u8> {
    Seq::new(x.len(), |i: int| x[i] ^ k[i % k.len() as int])
}

/// What the Base64 transform yields: the text of the input when encoding
/// (nothing when its length would not fit a `usize`), the bytes that the
/// input is the text of when decoding (nothing when it is no such text).
pub open spec fn base64_transform(encode: bool, padding: bool, x: Seq<u8>) -> Option<Seq<u8>> {
    if encode {
        if b64_text_len(x.len() as int, padding) <= usize::MAX {
            Some(b64_text(x, padding))
        } else {
            None
        }
    } else {
        b64_decoded(x, padding)
    }
}

/// A named, deterministic transformation of one byte buffer into another.
pub trait ByteProcessor {
    /// The processor's stable identifier.
    spec fn spec_name(&self) -> Seq<char>;

    /// The output for an input, or `None` where the input is malformed for
    /// this processor.
    spec fn transform(&self, input: Seq<u8>) -> Option<Seq<u8>>;

    fn name(&self) -> (r: &'static str)
        ensures
            r@ == self.spec_name(),
    ;

    fn process(&self, input: &[u8]) -> (r: Result<Vec<u8>, ByteProcError>)
        ensures
            match r {
                Ok(out) => self.transform(input@) == Some(out@),
                Err(e) => self.transform(input@) is None && e is Module,
            },
    ;
}

/// Hands its input back unchanged.
#[derive(Debug, Clone, Copy)]
pub struct Passthrough;

impl ByteProcessor for Passthrough {
    open spec fn spec_name(&self) -> Seq<char> {
        "passthrough"@
    }

    open spec fn transform(&self, input: Seq<u8>) -> Option<Seq<u8>> {
        Some(input)
    }

    fn name(&self) -> (r: &'static str) {
        "passthrough"
    }

    fn process(&self, input: &[u8]) -> (r: Result<Vec<u8>, ByteProcError>)
        ensures
            r matches Ok(out) && out@ == input@,
    {
        let mut out: Vec<u8> = Vec::with_capacity(input.len());
        let mut i: usize = 0;
        while i < input.len()
            invariant
                i <= input@.len(),
                out@ == input@.subrange(0, i as int),
            decreases input@.len() - i,
        {
            out.push(input[i]);
            i += 1;
        }
        assert(out@ =~= input@);
        Ok(out)
    }
}

/// Relies on `<Vec<u8> as zeroize::Zeroize>::zeroize`: it overwrites the
/// elements and the spare capacity with zeros, then clears the vector.
#[verifier::external_body]
fn wipe(bytes: &mut Vec<u8>)
    ensures
        final(bytes)@.len() == 0,
    opens_invariants none
    no_unwind
{
    bytes.zeroize();
}

/// Key material that is overwritten with zeros when it goes out of scope.
struct XorKey {
    key: Vec<u8>,
}

impl Drop for XorKey {
    fn drop(&mut self)
        opens_invariants none
        no_unwind
    {
        wipe(&mut self.key);
    }
}

/// XOR of every input byte with a key byte, the key repeated cyclically.
pub struct XorModule {
    key: XorKey,
}

impl XorModule {
    #[verifier::type_invariant]
    spec fn key_not_empty(&self) -> bool {
        self.key.key@.len() > 0
    }

    /// The key bytes.
    pub closed spec fn key(&self) -> Seq<u8> {
        self.key.key@
    }

    /// Builds the module from a hex key. `pad_byte` is accepted and not
    /// consulted: the key is always repeated cyclically.
    pub fn new(hex_key: &str, pad_byte: Option<u8>) -> (r: Result<XorModule, ByteProcError>)
        ensures
            hex_decoded(hex_key@) is None <==> r matches Err(ByteProcError::HexDecode(_)),
            hex_decoded(hex_key@) is Some && hex_decoded(hex_key@)->Some_0.len() == 0 <==> r matches Err(
                ByteProcError::InvalidConfiguration(_),
            ),
            r is Ok <==> hex_decoded(hex_key@) is Some && hex_decoded(hex_key@)->Some_0.len() > 0,
            r matches Ok(m) ==> hex_decoded(hex_key@) == Some(m.key()),
    {
        let raw = match hex_to_bytes(hex_key) {
            Ok(v) => v,
            Err(e) => {
                return Err(ByteProcError::HexDecode(e.to_string()));
            },
        };
        if raw.len() == 0 {
            return Err(
                ByteProcError::InvalidConfiguration(String::from_str("xor_key cannot be empty")),
            );
        }
        Ok(XorModule { key: XorKey { key: raw } })
    }
}

impl ByteProcessor for XorModule {
    open spec fn spec_name(&self) -> Seq<char> {
        "xor"@
    }

    open spec fn transform(&self, input: Seq<u8>) -> Option<Seq<u8>> {
        Some(xor_cycle(input, self.key()))
    }

    fn name(&self) -> (r: &'static str) {
        "xor"
    }

    fn process(&self, input: &[u8]) -> (r: Result<Vec<u8>, ByteProcError>)
        ensures
            r matches Ok(out) && out@ == xor_cycle(input@, self.key()),
    {
        proof {
            use_type_invariant(self);
        }
        let key = &self.key.key;
        let n = key.len();
        let mut out: Vec<u8> = Vec::with_capacity(input.len());
        let mut i: usize = 0;
        while i < input.len()
            invariant
                n == self.key().len() > 0,
                key@ == self.key(),
                i <= input@.len(),
                out@ == xor_cycle(input@, self.key()).subrange(0, i as int),
            decreases input@.len() - i,
        {
            out.push(input[i] ^ key[i % n]);
            i += 1;
        }
        assert(out@ =~= xor_cycle(input@, self.key()));
        Ok(out)
    }
}

/// Base64 in one direction, padded or not.
#[derive(Debug, Clone, Copy)]
pub struct Base64Module {
    pub encode: bool,
    pub padding: bool,
}

impl Base64Module {
    pub fn new(encode: bool, padding: bool) -> (r: Base64Module)
        ensures
            r.encode == encode,
            r.padding == padding,
    {
        Base64Module { encode, padding }
    }
}

impl ByteProcessor for Base64Module {
    open spec fn spec_name(&self) -> Seq<char> {
        "base64"@
    }

    open spec fn transform(&self, input: Seq<u8>) -> Option<Seq<u8>> {
        base64_transform(self.encode, self.padding, input)
    }

    fn name(&self) -> (r: &'static str) {
        "base64"
    }

    fn process(&self, input: &[u8]) -> (r: Result<Vec<u8>, ByteProcError>) {
        if self.encode {
            let n = input.len();
            let full = (n / 3).checked_mul(4);
            let extra: usize = if n % 3 == 0 {
                0
            } else if self.padding {
                4
            } else {
                n % 3 + 1
            };
            let total = match full {
                Some(f) => f.checked_add(extra),
                None => None,
            };
            if total.is_none() {
                return Err(
                    ByteProcError::Module(String::from_str("input too large to encode")),
                );
            }
            Ok(base64_encode(input, self.padding))
        } else {
            match base64_decode(input, self.padding) {
                Ok(v) => {
                    proof {
                        crate::codec::lemma_decode_text(v@, self.padding);
                    }
                    Ok(v)
                },
                Err(e) => Err(ByteProcError::Module(e.to_string())),
            }
        }
    }
}

/// Applying the same XOR key twice gives back the input, whatever the
/// input's length relative to the key's.
pub proof fn lemma_xor_involution(k: Seq<u8>, x: Seq<u8>)
    requires
        k.len() > 0,
    ensures
        xor_cycle(xor_cycle(x, k), k) == x,
{
    let y = xor_cycle(xor_cycle(x, k), k);
    assert forall|i: int| 0 <= i < x.len() implies y[i] == x[i] by {
        let a = x[i];
        let b = k[i % k.len() as int];
        assert((a ^ b) ^ b == a) by (bit_vector);
    }
    assert(y =~= x);
}

/// Decoding what encoding produced, in the same padding mode, gives back the
/// original bytes.
pub proof fn lemma_base64_round_trip(x: Seq<u8>, padding: bool)
    ensures
        base64_transform(true, padding, x) matches Some(t) ==> base64_transform(false, padding, t)
            == Some(x),
{
    crate::codec::lemma_decode_text(x, padding);
}

} // verus!
