//! Turning what the JVM hands over into an owned string.

use vstd::prelude::*;
use vstd::utf8::{
    decode_utf8, encode_utf8, encode_utf8_decode_utf8, encode_utf8_valid_utf8, valid_utf8,
};

use jni::objects::JString;
use jni::JNIEnv;

use crate::jni_specs::{get_string, into_bytes_and_text, java_text};

verus! {

/// The JVM could not hand over, or `jni` could not read, the characters of a
/// string handle: the handle was null or released, a Java exception was
/// pending, or the JVM ran out of memory.
#[derive(Debug, Clone, Copy, PartialEq, Eq, Structural)]
pub struct ConversionFailure;

/// `text` is what `jni` makes of the modified UTF-8 bytes `bytes`.
///
/// Where those bytes are also valid standard UTF-8, as they are for every
/// string without NUL and without characters beyond U+FFFF, that is their
/// UTF-8 decoding.
pub open spec fn is_decoding_of(text: Seq<char>, bytes: Seq<u8>) -> bool {
    &&& text == java_text(bytes)
    &&& valid_utf8(bytes) ==> text == decode_utf8(bytes)
}

/// The owned string, or the failure, that a fetch of a string's characters
/// comes to.
///
/// `fetched` holds, on success, the modified UTF-8 bytes that the JVM handed
/// over and the text that `jni` decoded from them; the text is returned as it
/// is, and any error of `jni` becomes a [`ConversionFailure`].
pub fn finish_conversion(fetched: Result<(Vec<u8>, String), jni::errors::Error>) -> (r: Result<
    String,
    ConversionFailure,
>)
    ensures
        match fetched {
            Ok((_, text)) => r matches Ok(s) && s@ == text@,
            Err(_) => r == Err::<String, ConversionFailure>(ConversionFailure),
        },
{
    match fetched {
        Ok((_, text)) => Ok(text),
        Err(_) => Err(ConversionFailure),
    }
}

/// Converts the Java string that `js` refers to into an owned `String`.
///
/// On success the result is what `jni` decodes from the modified UTF-8 bytes
/// that the JVM handed over for the string, and owns its characters: nothing
/// of it depends on `js` once the call returns. Any failure of the JVM or of
/// `jni` to produce those bytes is returned as a [`ConversionFailure`].
pub fn jstring_to_string<'a>(env: JNIEnv<'a>, js: JString<'a>) -> (r: Result<
    String,
    ConversionFailure,
>)
    ensures
        r matches Ok(s) ==> exists|bytes: Seq<u8>| !bytes.contains(0u8) && is_decoding_of(s@, bytes),
{
    let fetched = match get_string(&env, js) {
        Ok(chars) => Ok(into_bytes_and_text(chars)),
        Err(e) => Err(e),
    };
    let ghost bytes = match &fetched {
        Ok((b, _)) => b@,
        Err(_) => Seq::empty(),
    };
    let r = finish_conversion(fetched);
    assert(r matches Ok(s) ==> !bytes.contains(0u8) && is_decoding_of(s@, bytes));
    r
}

/// A conversion returns the string's own characters: wherever the bytes that
/// the JVM hands over are the UTF-8 encoding of the string's content, the
/// text decoded from them is that content. Modified UTF-8 and UTF-8 agree on
/// every string without NUL and without characters beyond U+FFFF, whatever
/// script it is written in.
pub proof fn lemma_decoding_returns_content(content: Seq<char>, bytes: Seq<u8>, text: Seq<char>)
    requires
        bytes == encode_utf8(content),
        is_decoding_of(text, bytes),
    ensures
        text == content,
{
    encode_utf8_valid_utf8(content);
    encode_utf8_decode_utf8(content);
}

/// An empty string converts to an empty string.
pub proof fn lemma_empty_decodes_to_empty(text: Seq<char>)
    requires
        is_decoding_of(text, Seq::<u8>::empty()),
    ensures
        text.len() == 0,
{
    lemma_decoding_returns_content(Seq::<char>::empty(), Seq::<u8>::empty(), text);
}

/// Two conversions of the same bytes give equal texts.
pub proof fn lemma_same_bytes_same_text(bytes: Seq<u8>, first: Seq<char>, second: Seq<char>)
    requires
        is_decoding_of(first, bytes),
        is_decoding_of(second, bytes),
    ensures
        first == second,
{
}

} // verus!
