//! Length-prefixed framing of responses. A serialized response body is
//! wrapped as `Content-length: {byte-length}\n\n{body}`, so the stream's
//! reader can find message boundaries without caring what the body holds.

use vstd::prelude::*;
use vstd::string::StringSliceAdditionalSpecFns;
use crate::text::{dec_digits, digit_char_of, is_digit, usize_to_string};

verus! {

/// The framed form of a body whose serialization is `byte_len` bytes long.
pub open spec fn frame_spec(body: Seq<char>, byte_len: nat) -> Seq<char> {
    "Content-length: "@ + dec_digits(byte_len) + "\n\n"@ + body
}

/// Wraps one serialized response body in its length-prefixed envelope. The
/// length counts the bytes of the very body that follows, so a frame is
/// self-delimiting.
pub fn frame_message(body: &str) -> (r: String)
    ensures
        r@ == frame_spec(body@, (body.spec_bytes().len() as usize) as nat),
{
    let n = body.len();
    let mut r = String::from_str("Content-length: ");
    let num = usize_to_string(n);
    r.append(num.as_str());
    r.append("\n\n");
    r.append(body);
    proof {
        assert(r@ =~= frame_spec(body@, (body.spec_bytes().len() as usize) as nat));
    }
    r
}

proof fn lemma_digit_char_is_digit(d: nat)
    ensures
        is_digit(digit_char_of(d)),
{
    assert(('0' as u32) == 48 && ('9' as u32) == 57);
}

proof fn lemma_dec_digits_all_digits(n: nat)
    ensures
        forall|i: int| 0 <= i < dec_digits(n).len() ==> is_digit(#[trigger] dec_digits(n)[i]),
    decreases n,
{
    lemma_digit_char_is_digit(n % 10);
    if n >= 10 {
        lemma_dec_digits_all_digits(n / 10);
        assert(dec_digits(n).last() == digit_char_of(n % 10));
        assert forall|i: int| 0 <= i < dec_digits(n).len() implies is_digit(
            #[trigger] dec_digits(n)[i],
        ) by {
            if i < dec_digits(n / 10).len() {
                assert(dec_digits(n)[i] == dec_digits(n / 10)[i]);
            }
        }
    }
}

/// A frame is self-delimiting: its first newline stands right after the
/// header's digits, so a reader can find the blank line, take the announced
/// byte count, and recover the body exactly. Writing each frame as one
/// uninterrupted piece is what keeps this decodable under concurrency; the
/// surrounding process does so by funneling all frames through one writer.
pub proof fn lemma_frame_self_delimiting(body: Seq<char>, byte_len: nat)
    ensures
        ({
            let f = frame_spec(body, byte_len);
            let d = dec_digits(byte_len).len() as int;
            &&& f.len() == 18 + d + body.len()
            &&& forall|i: int| 0 <= i < 16 + d ==> f[i] != '\n'
            &&& f[16 + d] == '\n'
            &&& f[16 + d + 1] == '\n'
            &&& f.subrange(18 + d, f.len() as int) == body
        }),
{
    reveal_strlit("Content-length: ");
    reveal_strlit("\n\n");
    let f = frame_spec(body, byte_len);
    let d = dec_digits(byte_len).len() as int;
    lemma_dec_digits_all_digits(byte_len);
    assert(forall|i: int| 0 <= i < 16 ==> f[i] == "Content-length: "@[i]);
    assert forall|i: int| 0 <= i < 16 + d implies f[i] != '\n' by {
        if i >= 16 {
            assert(f[i] == dec_digits(byte_len)[i - 16]);
            assert(is_digit(f[i]));
        }
    }
    assert(f[16 + d] == "\n\n"@[0]);
    assert(f[16 + d + 1] == "\n\n"@[1]);
    assert(f.subrange(18 + d, f.len() as int) =~= body);
}

} // verus!
