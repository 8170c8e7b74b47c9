//! Log-line formatting and the masking rules that keep credentials and
//! personal data out of log output: passwords are erased, usernames keep at
//! most a three-byte prefix per word, phone numbers keep three bytes at each
//! end. Emission of the lines is left to the caller; these functions only
//! build them.
use vstd::prelude::*;

use crate::byteseq::{find_first_byte, lemma_first_byte, push_bytes, spec_first_byte};
use vstd::slice::slice_subrange;

verus! {

/// The masking filler: three asterisks.
pub open spec fn spec_mask_filler() -> Seq<u8> {
    seq![42u8, 42u8, 42u8]
}

/// A masked password shows nothing but the filler.
pub fn password_mask() -> (r: Vec<u8>)
    ensures
        r@ == spec_mask_filler(),
{
    let mut out: Vec<u8> = Vec::new();
    out.push(42u8);
    out.push(42u8);
    out.push(42u8);
    proof {
        assert(out@ =~= spec_mask_filler());
    }
    out
}

/// A masked word: at most its first three bytes, then the filler.
pub open spec fn spec_mask_word(w: Seq<u8>) -> Seq<u8> {
    if w.len() <= 3 {
        w + spec_mask_filler()
    } else {
        w.subrange(0, 3) + spec_mask_filler()
    }
}

/// A masked username: every space-separated word masked, the spaces kept.
pub open spec fn spec_username_mask(s: Seq<u8>) -> Seq<u8>
    decreases s.len(),
{
    let i = spec_first_byte(s, 32);
    if i < 0 || i >= s.len() {
        spec_mask_word(s)
    } else {
        spec_mask_word(s.subrange(0, i)) + seq![32u8] + spec_username_mask(
            s.subrange(i + 1, s.len() as int),
        )
    }
}

/// Masks one word.
fn mask_word(w: &[u8]) -> (r: Vec<u8>)
    ensures
        r@ == spec_mask_word(w@),
{
    let k: usize = if w.len() <= 3 {
        w.len()
    } else {
        3
    };
    let mut out: Vec<u8> = Vec::new();
    push_bytes(&mut out, slice_subrange(w, 0, k));
    out.push(42u8);
    out.push(42u8);
    out.push(42u8);
    proof {
        if w@.len() <= 3 {
            assert(w@.subrange(0, w@.len() as int) =~= w@);
        }
        assert(out@ =~= spec_mask_word(w@));
    }
    out
}

/// Masks every word of a username, keeping the word structure visible.
fn mask_words(s: &[u8]) -> (r: Vec<u8>)
    ensures
        r@ == spec_username_mask(s@),
    decreases s@.len(),
{
    proof {
        lemma_first_byte(s@, 32);
    }
    let i = find_first_byte(s, 32);
    if i >= s.len() {
        mask_word(s)
    } else {
        let mut out = mask_word(slice_subrange(s, 0, i));
        out.push(32u8);
        let rest = mask_words(slice_subrange(s, i + 1, s.len()));
        push_bytes(&mut out, rest.as_slice());
        proof {
            assert(out@ =~= spec_username_mask(s@));
        }
        out
    }
}

/// Masks a username for logging: a three-byte prefix per word, the rest
/// replaced by the filler.
pub fn username_mask(username: &Vec<u8>) -> (r: Vec<u8>)
    ensures
        r@ == spec_username_mask(username@),
{
    mask_words(username.as_slice())
}

/// A masked phone number: three bytes at each end around the filler when the
/// number is long enough to hide anything, the bare filler otherwise.
pub open spec fn spec_phone_mask(s: Seq<u8>) -> Seq<u8> {
    if s.len() > 5 {
        s.subrange(0, 3) + spec_mask_filler() + s.subrange(s.len() - 3, s.len() as int)
    } else {
        spec_mask_filler()
    }
}

/// Masks a phone number for logging.
pub fn phone_mask(msisdn: &Vec<u8>) -> (r: Vec<u8>)
    ensures
        r@ == spec_phone_mask(msisdn@),
{
    let n = msisdn.len();
    if n > 5 {
        let mut out: Vec<u8> = Vec::new();
        push_bytes(&mut out, slice_subrange(msisdn.as_slice(), 0, 3));
        out.push(42u8);
        out.push(42u8);
        out.push(42u8);
        push_bytes(&mut out, slice_subrange(msisdn.as_slice(), n - 3, n));
        proof {
            assert(out@ =~= spec_phone_mask(msisdn@));
        }
        out
    } else {
        password_mask()
    }
}

/// The informational log line: the request identifier in brackets, then the
/// handler and method joined by a dot.
pub open spec fn spec_info_line(log_id: Seq<u8>, handler: Seq<u8>, method: Seq<u8>) -> Seq<u8> {
    seq![91u8, 32u8] + log_id + seq![32u8, 93u8, 32u8] + handler + seq![46u8] + method
}

/// Builds the informational log line for a handler step.
pub fn info_logger(log_id: &Vec<u8>, handler: &Vec<u8>, method: &Vec<u8>) -> (r: Vec<u8>)
    ensures
        r@ == spec_info_line(log_id@, handler@, method@),
{
    let mut out: Vec<u8> = Vec::new();
    out.push(91u8);
    out.push(32u8);
    push_bytes(&mut out, log_id.as_slice());
    out.push(32u8);
    out.push(93u8);
    out.push(32u8);
    push_bytes(&mut out, handler.as_slice());
    out.push(46u8);
    push_bytes(&mut out, method.as_slice());
    proof {
        assert(out@ =~= spec_info_line(log_id@, handler@, method@));
    }
    out
}

/// The error log line: the failing method, then the message.
pub open spec fn spec_error_line(method: Seq<u8>, message: Seq<u8>) -> Seq<u8> {
    method + seq![44u8, 32u8, 101u8, 114u8, 114u8, 111u8, 114u8, 58u8, 32u8] + message
}

/// Builds the error log line for a failed step.
pub fn error_logger(method: &Vec<u8>, message: &Vec<u8>) -> (r: Vec<u8>)
    ensures
        r@ == spec_error_line(method@, message@),
{
    let mut out: Vec<u8> = Vec::new();
    push_bytes(&mut out, method.as_slice());
    out.push(44u8);
    out.push(32u8);
    out.push(101u8);
    out.push(114u8);
    out.push(114u8);
    out.push(111u8);
    out.push(114u8);
    out.push(58u8);
    out.push(32u8);
    push_bytes(&mut out, message.as_slice());
    proof {
        assert(out@ =~= spec_error_line(method@, message@));
    }
    out
}

} // verus!
