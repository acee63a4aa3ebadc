//! What the library relies on from the `jni` crate.

use vstd::prelude::*;
use vstd::utf8::{decode_utf8, valid_utf8};

use jni::objects::JString;
use jni::strings::JavaStr;
use jni::JNIEnv;

verus! {

/// A thread's JNI environment, carried through opaquely.
#[verifier::external_type_specification]
#[verifier::external_body]
pub struct ExJNIEnv<'a>(jni::JNIEnv<'a>);

/// A local reference to a `java.lang.String`, carried through opaquely.
#[verifier::external_type_specification]
#[verifier::external_body]
pub struct ExJString<'a>(jni::objects::JString<'a>);

/// A string's characters pinned by `GetStringUTFChars`, released on drop.
#[verifier::external_type_specification]
#[verifier::external_body]
pub struct ExJavaStr<'a: 'b, 'b>(jni::strings::JavaStr<'a, 'b>);

/// An error of the `jni` crate, carried through opaquely.
#[verifier::external_type_specification]
#[verifier::external_body]
pub struct ExJniError(jni::errors::Error);

/// The text that `jni` decodes from a string's modified UTF-8 bytes, as the
/// JVM's `GetStringUTFChars` hands them over.
pub uninterp spec fn java_text(bytes: Seq<u8>) -> Seq<char>;

/// Relies on `JNIEnv::get_string`: it asks the JVM for the string's
/// characters. What comes back depends on the JVM's state alone (a null or
/// released handle, a pending exception, memory), so nothing is stated.
#[verifier::external_body]
pub(crate) fn get_string<'a, 'b>(env: &'b JNIEnv<'a>, js: JString<'a>) -> (r: Result<
    JavaStr<'a, 'b>,
    jni::errors::Error,
>) {
    env.get_string(js)
}

/// Relies on `From<JavaStr> for String`: the text is `cesu8::from_java_cesu8`
/// of the string's bytes (which returns bytes that are valid UTF-8 as they
/// stand), or else their lossy UTF-8 decoding. The bytes are read through the
/// `CStr` that `JavaStr` dereferences to, so they hold no NUL.
#[verifier::external_body]
pub(crate) fn into_bytes_and_text(s: JavaStr) -> (r: (Vec<u8>, String))
    ensures
        r.1@ == java_text(r.0@),
        valid_utf8(r.0@) ==> r.1@ == decode_utf8(r.0@),
        !r.0@.contains(0u8),
{
    let bytes = s.to_bytes().to_vec();
    (bytes, String::from(s))
}

} // verus!
