//! Filename derivation for cached weight files.
//!
//! A model's display name is normalized to lowercase alphanumerics and
//! underscores so that it is filesystem-safe, and the cache path is built
//! from that normalized name.

use vstd::prelude::*;
use vstd::string::StrSliceExecFns;
use vstd::string::StringExecFns;

verus! {

/// What one character of a display name becomes in a filename: digits and
/// lowercase letters stay, uppercase letters are lowered, everything else
/// (spaces included) becomes an underscore.
pub open spec fn sanitize_char_spec(c: char) -> char {
    if 48 <= c as u32 <= 57 || 97 <= c as u32 <= 122 {
        c
    } else if 65 <= c as u32 <= 90 {
        ((c as u32 + 32) as u8) as char
    } else {
        '_'
    }
}

/// The whole display name, character by character.
pub open spec fn sanitized(s: Seq<char>) -> Seq<char> {
    s.map_values(|c: char| sanitize_char_spec(c))
}

fn sanitize_char(c: char) -> (r: char)
    ensures
        r == sanitize_char_spec(c),
{
    let u = c as u32;
    if (48 <= u && u <= 57) || (97 <= u && u <= 122) {
        c
    } else if 65 <= u && u <= 90 {
        ((u + 32) as u8) as char
    } else {
        '_'
    }
}

/// Relies on `core::iter::Iterator::collect` building a `String` from
/// characters: the result holds exactly the characters of the vector, in
/// order.
#[verifier::external_body]
fn string_from_chars(v: &Vec<char>) -> (r: String)
    ensures
        r@ == v@,
{
    v.iter().collect()
}

/// Keeps digits and lowercase letters, lowers uppercase letters, and turns
/// every other character into an underscore, so the result is safe as a
/// file name.
pub fn remove_non_alphanum(s: &String) -> (r: String)
    ensures
        r@ == sanitized(s@),
{
    let n = s.as_str().unicode_len();
    let mut out: Vec<char> = Vec::new();
    let mut i: usize = 0;
    while i < n
        invariant
            n == s@.len(),
            i <= n,
            out@ == sanitized(s@.subrange(0, i as int)),
        decreases n - i,
    {
        let c = s.as_str().get_char(i);
        out.push(sanitize_char(c));
        proof {
            assert(s@.subrange(0, i + 1) =~= s@.subrange(0, i as int).push(s@[i as int]));
            assert(sanitized(s@.subrange(0, i + 1)) =~= sanitized(
                s@.subrange(0, i as int),
            ).push(sanitize_char_spec(s@[i as int])));
        }
        i = i + 1;
    }
    proof {
        assert(s@.subrange(0, n as int) =~= s@);
    }
    string_from_chars(&out)
}

/// The on-disk cache path of a model's weight file: the sanitized display
/// name under the cache directory, with the engine's file extension.
pub fn model_filename(name: &String) -> (r: String)
    ensures
        r@ == "models/"@ + sanitized(name@) + ".onnx"@,
{
    let clean_name = remove_non_alphanum(name);
    let path = String::from_str("models/").concat(clean_name.as_str());
    path.concat(".onnx")
}

} // verus!
