//! A reverse-proxy front end core: a method/path router with per-route
//! middleware chains over a mutable per-request context, JWT bearer-token
//! authentication, and an ntor-style Diffie-Hellman handshake engine with a
//! session-keyed authenticated-encryption codec.
pub mod http;
pub mod config;
pub mod context;
pub mod crypto;
pub mod db;
pub mod handler;
pub mod ntor;
pub mod router;
pub mod types;
pub mod json;
pub mod jwt;
pub mod kv;

use vstd::prelude::*;

verus! {

/// Converts a byte vector into a fixed 32-byte array; wrong-length input
/// yields an all-zero array.
pub fn vec_to_array32(vec: Vec<u8>) -> (r: [u8; 32])
    ensures
        vec@.len() == 32 ==> r@ == vec@,
        vec@.len() != 32 ==> r@ == Seq::new(32, |i: int| 0u8),
{
    let mut out: [u8; 32] = [0u8; 32];
    if vec.len() == 32 {
        let mut i: usize = 0;
        while i < 32
            invariant
                i <= 32,
                vec@.len() == 32,
                forall|j: int| 0 <= j < i ==> out@[j] == vec@[j],
                out@.len() == 32,
            decreases 32 - i,
        {
            out[i] = vec[i];
            i += 1;
        }
        assert(out@ =~= vec@);
    } else {
        assert(out@ =~= Seq::new(32, |i: int| 0u8));
    }
    out
}


/// Byte-for-byte equality of two byte vectors.
pub fn bytes_eq(a: &Vec<u8>, b: &Vec<u8>) -> (r: bool)
    ensures
        r == (a@ == b@),
{
    if a.len() != b.len() {
        return false;
    }
    let mut i: usize = 0;
    while i < a.len()
        invariant
            i <= a@.len(),
            a@.len() == b@.len(),
            forall|j: int| 0 <= j < i ==> a@[j] == b@[j],
        decreases a@.len() - i,
    {
        if a[i] != b[i] {
            return false;
        }
        i += 1;
    }
    proof {
        assert(a@ =~= b@);
    }
    true
}


/// Converts a string's UTF-8 bytes into a fixed 32-byte array; any other
/// byte length yields nothing.
pub fn string_to_array32(s: String) -> (r: Option<[u8; 32]>)
    ensures
        match r {
            Some(a) => vstd::utf8::encode_utf8(s@).len() == 32 && a@ == vstd::utf8::encode_utf8(
                s@,
            ),
            None => vstd::utf8::encode_utf8(s@).len() != 32,
        },
{
    let bytes = s.as_str().as_bytes_vec();
    if bytes.len() == 32 {
        Some(vec_to_array32(bytes))
    } else {
        None
    }
}

} // verus!
