//! SDDL text and security-descriptor inheritance.
//!
//! The codec and the inheritance rules are libpeios'. What goes in is a C
//! string, and what comes out is sized by a [probe](crate::probe): the bytes of
//! a descriptor or of a compiled condition, or text.
use crate::error::{Error, Result, EINVAL};
use crate::security::sd::SecurityDescriptor;
use crate::util::{c_string, text};
use vstd::prelude::*;

verus! {

/// The argument of parsing an SDDL string or a conditional expression: the
/// string with its NUL. One with an interior NUL is `EINVAL`.
pub fn source(sddl: &str) -> (r: Result<Vec<u8>>)
    ensures
        match r {
            Ok(v) => crate::util::as_c_string(vstd::utf8::encode_utf8(sddl@)) == Ok::<
                Seq<u8>,
                Error,
            >(v@),
            Err(e) => crate::util::as_c_string(vstd::utf8::encode_utf8(sddl@)) == Err::<
                Seq<u8>,
                Error,
            >(e),
        },
{
    c_string(sddl.as_bytes())
}

/// The descriptor that a call wrote: what the probe yielded, wrapped.
pub fn descriptor(outcome: Result<Vec<u8>>) -> (r: Result<SecurityDescriptor>)
    ensures
        match outcome {
            Ok(bytes) => r matches Ok(sd) && sd@ == bytes@,
            Err(e) => r == Err::<SecurityDescriptor, Error>(e),
        },
{
    match outcome {
        Ok(bytes) => Ok(SecurityDescriptor::from_bytes(bytes)),
        Err(e) => Err(e),
    }
}

/// The text that a call rendered: what the probe yielded, as a string. Bytes
/// that are no UTF-8 are `EINVAL`.
pub fn rendered(outcome: Result<Vec<u8>>) -> (r: Result<String>)
    ensures
        match outcome {
            Ok(bytes) => match r {
                Ok(s) => vstd::utf8::encode_utf8(s@) == bytes@,
                Err(e) => !vstd::utf8::valid_utf8(bytes@) && e.errno == EINVAL,
            },
            Err(e) => r == Err::<String, Error>(e),
        },
{
    match outcome {
        Ok(bytes) => match text(bytes.as_slice()) {
            Ok(s) => Ok(s.to_owned()),
            Err(e) => Err(e),
        },
        Err(e) => Err(e),
    }
}

} // verus!
