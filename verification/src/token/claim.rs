//! Claims: named, typed, multi-valued security attributes of a token.
use crate::error::{Error, Result};
use crate::security::Sid;
use crate::util::c_string;
use vstd::prelude::*;
use vstd::slice::slice_to_vec;

verus! {

/// Claim attribute bits.
#[derive(Debug, Clone, Copy, PartialEq, Eq, Hash, Structural)]
pub struct ClaimAttr(pub u32);

/// The typed values a [`Claim`] carries. Every value in a claim shares one type;
/// the variant fixes the claim's wire value-type.
#[derive(Debug, Clone, PartialEq, Eq)]
pub enum ClaimValues<const MAX_LEN: usize> {
    /// Signed 64-bit integers.
    Int64(Vec<i64>),
    /// Unsigned 64-bit integers.
    Uint64(Vec<u64>),
    /// Booleans.
    Boolean(Vec<bool>),
    /// UTF-8 strings (transcoded to UTF-16LE on the wire).
    String(Vec<String>),
    /// Binary SIDs.
    Sid(Vec<Sid<MAX_LEN>>),
    /// Opaque octet blobs.
    Octet(Vec<Vec<u8>>),
}

/// A claim attribute.
#[derive(Debug, Clone, PartialEq, Eq)]
pub struct Claim<const MAX_LEN: usize> {
    /// The claim name (UTF-8; transcoded to UTF-16LE on the wire). Must not
    /// contain an interior NUL.
    pub name: String,
    /// Claim attribute bits.
    pub flags: ClaimAttr,
    /// The claim's typed values.
    pub values: ClaimValues<MAX_LEN>,
}

/// The header's codes of the claim value-types.
#[derive(Debug, Clone, Copy, PartialEq, Eq, Structural)]
pub struct ClaimTypeCodes {
    /// `KACS_CLAIM_TYPE_INT64`.
    pub int64: u32,
    /// `KACS_CLAIM_TYPE_UINT64`.
    pub uint64: u32,
    /// `KACS_CLAIM_TYPE_BOOLEAN`.
    pub boolean: u32,
    /// `KACS_CLAIM_TYPE_STRING`.
    pub string: u32,
    /// `KACS_CLAIM_TYPE_SID`.
    pub sid: u32,
    /// `KACS_CLAIM_TYPE_OCTET`.
    pub octet: u32,
}

/// One claim value as the call takes it: a number in place, or bytes.
#[derive(Debug)]
pub struct ClaimValue {
    /// The number, `0` where the value is bytes.
    pub scalar: u64,
    /// The bytes; `None` is a null pointer of length `0`.
    pub bytes: Option<Vec<u8>>,
}

/// A [`ClaimValue`] as values.
#[verifier::ext_equal]
pub struct ClaimValueModel {
    /// The number.
    pub scalar: u64,
    /// The bytes.
    pub bytes: Option<Seq<u8>>,
}

impl View for ClaimValue {
    type V = ClaimValueModel;

    open spec fn view(&self) -> ClaimValueModel {
        ClaimValueModel {
            scalar: self.scalar,
            bytes: match self.bytes {
                Some(b) => Some(b@),
                None => None,
            },
        }
    }
}

/// A number as a claim value.
pub open spec fn scalar_value(s: u64) -> ClaimValueModel {
    ClaimValueModel { scalar: s, bytes: None }
}

/// Bytes as a claim value.
pub open spec fn bytes_value(b: Seq<u8>) -> ClaimValueModel {
    ClaimValueModel { scalar: 0, bytes: Some(b) }
}

fn scalar(s: u64) -> (v: ClaimValue)
    ensures
        v@ == scalar_value(s),
{
    ClaimValue { scalar: s, bytes: None }
}

fn bytes(b: &[u8]) -> (v: ClaimValue)
    ensures
        v@ == bytes_value(b@),
{
    ClaimValue { scalar: 0, bytes: Some(slice_to_vec(b)) }
}

impl<const MAX_LEN: usize> ClaimValues<MAX_LEN> {
    /// The wire value-type of these values.
    pub open spec fn type_code(self, codes: ClaimTypeCodes) -> u32 {
        match self {
            ClaimValues::Int64(_) => codes.int64,
            ClaimValues::Uint64(_) => codes.uint64,
            ClaimValues::Boolean(_) => codes.boolean,
            ClaimValues::String(_) => codes.string,
            ClaimValues::Sid(_) => codes.sid,
            ClaimValues::Octet(_) => codes.octet,
        }
    }

    /// The wire value-type of these values, cut to 16 bits.
    pub fn value_type(&self, codes: ClaimTypeCodes) -> (t: u16)
        ensures
            t == self.type_code(codes) as u16,
    {
        let t: u32 = match self {
            ClaimValues::Int64(_) => codes.int64,
            ClaimValues::Uint64(_) => codes.uint64,
            ClaimValues::Boolean(_) => codes.boolean,
            ClaimValues::String(_) => codes.string,
            ClaimValues::Sid(_) => codes.sid,
            ClaimValues::Octet(_) => codes.octet,
        };
        t as u16
    }

    /// The values as the call takes them, in order. Numbers and booleans stand
    /// in place, a signed number by its two's complement; the rest are bytes.
    pub open spec fn as_call_values(self) -> Seq<ClaimValueModel> {
        match self {
            ClaimValues::Int64(v) => v@.map_values(|x: i64| scalar_value(x as u64)),
            ClaimValues::Uint64(v) => v@.map_values(|x: u64| scalar_value(x)),
            ClaimValues::Boolean(v) => v@.map_values(
                |x: bool|
                    scalar_value(
                        if x {
                            1u64
                        } else {
                            0u64
                        },
                    ),
            ),
            ClaimValues::String(v) => v@.map_values(
                |s: String| bytes_value(vstd::utf8::encode_utf8(s@)),
            ),
            ClaimValues::Sid(v) => v@.map_values(|s: Sid<MAX_LEN>| bytes_value(s@)),
            ClaimValues::Octet(v) => v@.map_values(|b: Vec<u8>| bytes_value(b@)),
        }
    }

    /// The values as the call takes them.
    pub fn to_ffi(&self) -> (out: Vec<ClaimValue>)
        ensures
            out@.map_values(|v: ClaimValue| v@) == self.as_call_values(),
    {
        let mut out: Vec<ClaimValue> = Vec::new();
        let ghost want = self.as_call_values();
        match self {
            ClaimValues::Int64(v) => {
                for i in 0..v.len()
                    invariant
                        want == v@.map_values(|x: i64| scalar_value(x as u64)),
                        out@.len() == i,
                        forall|j: int| 0 <= j < i ==> (#[trigger] out@[j])@ == want[j],
                {
                    out.push(scalar(v[i] as u64));
                }
            },
            ClaimValues::Uint64(v) => {
                for i in 0..v.len()
                    invariant
                        want == v@.map_values(|x: u64| scalar_value(x)),
                        out@.len() == i,
                        forall|j: int| 0 <= j < i ==> (#[trigger] out@[j])@ == want[j],
                {
                    out.push(scalar(v[i]));
                }
            },
            ClaimValues::Boolean(v) => {
                for i in 0..v.len()
                    invariant
                        want == v@.map_values(
                            |x: bool|
                                scalar_value(
                                    if x {
                                        1u64
                                    } else {
                                        0u64
                                    },
                                ),
                        ),
                        out@.len() == i,
                        forall|j: int| 0 <= j < i ==> (#[trigger] out@[j])@ == want[j],
                {
                    let s: u64 = if v[i] {
                        1
                    } else {
                        0
                    };
                    out.push(scalar(s));
                }
            },
            ClaimValues::String(v) => {
                for i in 0..v.len()
                    invariant
                        want == v@.map_values(
                            |s: String| bytes_value(vstd::utf8::encode_utf8(s@)),
                        ),
                        out@.len() == i,
                        forall|j: int| 0 <= j < i ==> (#[trigger] out@[j])@ == want[j],
                {
                    out.push(bytes(v[i].as_str().as_bytes()));
                }
            },
            ClaimValues::Sid(v) => {
                for i in 0..v.len()
                    invariant
                        want == v@.map_values(|s: Sid<MAX_LEN>| bytes_value(s@)),
                        out@.len() == i,
                        forall|j: int| 0 <= j < i ==> (#[trigger] out@[j])@ == want[j],
                {
                    out.push(bytes(v[i].as_bytes()));
                }
            },
            ClaimValues::Octet(v) => {
                for i in 0..v.len()
                    invariant
                        want == v@.map_values(|b: Vec<u8>| bytes_value(b@)),
                        out@.len() == i,
                        forall|j: int| 0 <= j < i ==> (#[trigger] out@[j])@ == want[j],
                {
                    out.push(bytes(v[i].as_slice()));
                }
            },
        }
        assert(out@.map_values(|v: ClaimValue| v@) =~= want);
        out
    }
}

/// A claim as the call takes it.
#[derive(Debug)]
pub struct ClaimSpec {
    /// The NUL-terminated name.
    pub name: Vec<u8>,
    /// The wire value-type.
    pub value_type: u16,
    /// The attribute bits.
    pub flags: u32,
    /// The values.
    pub values: Vec<ClaimValue>,
}

/// A [`ClaimSpec`] as values.
#[verifier::ext_equal]
pub struct ClaimSpecModel {
    /// The NUL-terminated name.
    pub name: Seq<u8>,
    /// The wire value-type.
    pub value_type: u16,
    /// The attribute bits.
    pub flags: u32,
    /// The values.
    pub values: Seq<ClaimValueModel>,
}

impl View for ClaimSpec {
    type V = ClaimSpecModel;

    open spec fn view(&self) -> ClaimSpecModel {
        ClaimSpecModel {
            name: self.name@,
            value_type: self.value_type,
            flags: self.flags,
            values: self.values@.map_values(|v: ClaimValue| v@),
        }
    }
}

impl<const MAX_LEN: usize> Claim<MAX_LEN> {
    /// This claim as the call takes it, or `EINVAL` where its name holds a NUL.
    pub open spec fn as_call_claim(self, codes: ClaimTypeCodes) -> Result<ClaimSpecModel> {
        match crate::util::as_c_string(vstd::utf8::encode_utf8(self.name@)) {
            Ok(name) => Ok(
                ClaimSpecModel {
                    name,
                    value_type: self.values.type_code(codes) as u16,
                    flags: self.flags.0,
                    values: self.values.as_call_values(),
                },
            ),
            Err(e) => Err(e),
        }
    }

    /// This claim as the call takes it. A name with an interior NUL is `EINVAL`.
    pub fn to_call(&self, codes: ClaimTypeCodes) -> (r: Result<ClaimSpec>)
        ensures
            match r {
                Ok(c) => self.as_call_claim(codes) == Ok::<ClaimSpecModel, Error>(c@),
                Err(e) => self.as_call_claim(codes) == Err::<ClaimSpecModel, Error>(e),
            },
    {
        let name = match c_string(self.name.as_str().as_bytes()) {
            Ok(n) => n,
            Err(e) => return Err(e),
        };
        Ok(
            ClaimSpec {
                name,
                value_type: self.values.value_type(codes),
                flags: self.flags.0,
                values: self.values.to_ffi(),
            },
        )
    }
}

/// The strings of a vector, as values.
pub open spec fn texts(v: Seq<String>) -> Seq<Seq<char>> {
    v.map_values(|s: String| s@)
}

/// Whether two claims' values are of one type and the same.
pub open spec fn same_values<const N: usize>(a: ClaimValues<N>, b: ClaimValues<N>) -> bool {
    match (a, b) {
        (ClaimValues::Int64(v), ClaimValues::Int64(w)) => v@ == w@,
        (ClaimValues::Uint64(v), ClaimValues::Uint64(w)) => v@ == w@,
        (ClaimValues::Boolean(v), ClaimValues::Boolean(w)) => v@ == w@,
        (ClaimValues::String(v), ClaimValues::String(w)) => texts(v@) == texts(w@),
        (ClaimValues::Sid(v), ClaimValues::Sid(w)) => v@.map_values(|s: Sid<N>| s@)
            == w@.map_values(|s: Sid<N>| s@),
        (ClaimValues::Octet(v), ClaimValues::Octet(w)) => v@.map_values(|b: Vec<u8>| b@)
            == w@.map_values(|b: Vec<u8>| b@),
        _ => false,
    }
}

/// Nothing of a claim's values is lost on the way into the call: values of one
/// type that become the same there were the same, in number and order too.
pub proof fn law_claim_values_kept<const N: usize>(a: ClaimValues<N>, b: ClaimValues<N>)
    requires
        a is Int64 <==> b is Int64,
        a is Uint64 <==> b is Uint64,
        a is Boolean <==> b is Boolean,
        a is String <==> b is String,
        a is Sid <==> b is Sid,
    ensures
        a.as_call_values() == b.as_call_values() <==> same_values(a, b),
{
    let x = a.as_call_values();
    let y = b.as_call_values();
    match (a, b) {
        (ClaimValues::Int64(v), ClaimValues::Int64(w)) => {
            if x == y {
                assert(x.len() == v@.len() && y.len() == w@.len());
                assert forall|i: int| 0 <= i < v@.len() implies v@[i] == w@[i] by {
                    let p = v@[i];
                    let q = w@[i];
                    assert(x[i] == scalar_value(p as u64) && y[i] == scalar_value(q as u64));
                    assert(p as u64 == q as u64 ==> p == q) by (bit_vector);
                }
                assert(v@ =~= w@);
            }
        },
        (ClaimValues::Uint64(v), ClaimValues::Uint64(w)) => {
            if x == y {
                assert(x.len() == v@.len() && y.len() == w@.len());
                assert forall|i: int| 0 <= i < v@.len() implies v@[i] == w@[i] by {
                    assert(x[i] == scalar_value(v@[i]) && y[i] == scalar_value(w@[i]));
                }
                assert(v@ =~= w@);
            }
        },
        (ClaimValues::Boolean(v), ClaimValues::Boolean(w)) => {
            if x == y {
                assert(x.len() == v@.len() && y.len() == w@.len());
                assert forall|i: int| 0 <= i < v@.len() implies v@[i] == w@[i] by {
                    assert(x[i] == y[i]);
                }
                assert(v@ =~= w@);
            }
        },
        (ClaimValues::String(v), ClaimValues::String(w)) => {
            if x == y {
                assert(x.len() == v@.len() && y.len() == w@.len());
                assert forall|i: int| 0 <= i < v@.len() implies v@[i]@ == w@[i]@ by {
                    assert(x[i] == y[i]);
                    vstd::utf8::encode_utf8_decode_utf8(v@[i]@);
                    vstd::utf8::encode_utf8_decode_utf8(w@[i]@);
                }
                assert(texts(v@) =~= texts(w@));
            }
            if same_values(a, b) {
                assert(texts(v@).len() == v@.len() && texts(w@).len() == w@.len());
                assert forall|i: int| 0 <= i < x.len() implies x[i] == y[i] by {
                    assert(texts(v@)[i] == texts(w@)[i]);
                }
                assert(x =~= y);
            }
        },
        (ClaimValues::Sid(v), ClaimValues::Sid(w)) => {
            let s = v@.map_values(|s: Sid<N>| s@);
            let t = w@.map_values(|s: Sid<N>| s@);
            if x == y {
                assert(x.len() == v@.len() && y.len() == w@.len());
                assert forall|i: int| 0 <= i < v@.len() implies v@[i]@ == w@[i]@ by {
                    assert(x[i] == y[i]);
                }
                assert(s =~= t);
            }
            if s == t {
                assert(s.len() == v@.len() && t.len() == w@.len());
                assert forall|i: int| 0 <= i < x.len() implies x[i] == y[i] by {
                    assert(s[i] == t[i]);
                }
                assert(x =~= y);
            }
        },
        (ClaimValues::Octet(v), ClaimValues::Octet(w)) => {
            let s = v@.map_values(|b: Vec<u8>| b@);
            let t = w@.map_values(|b: Vec<u8>| b@);
            if x == y {
                assert(x.len() == v@.len() && y.len() == w@.len());
                assert forall|i: int| 0 <= i < v@.len() implies v@[i]@ == w@[i]@ by {
                    assert(x[i] == y[i]);
                }
                assert(s =~= t);
            }
            if s == t {
                assert(s.len() == v@.len() && t.len() == w@.len());
                assert forall|i: int| 0 <= i < x.len() implies x[i] == y[i] by {
                    assert(s[i] == t[i]);
                }
                assert(x =~= y);
            }
        },
        _ => {},
    }
}

/// A claim's values as the call takes them: one for each and in order. A number is
/// the scalar, a negative one plus `2^64`, a boolean `1` or `0`, with no bytes
/// beside it; what is bytes is there byte for byte, with `0` for the scalar.
pub proof fn law_claim_values_one_for_one<const N: usize>(values: ClaimValues<N>, i: int)
    ensures
        ({
            let out = values.as_call_values();
            match values {
                ClaimValues::Int64(v) => out.len() == v@.len() && (0 <= i < v@.len()
                    ==> out[i].bytes is None && out[i].scalar == (if v@[i] < 0 {
                    v@[i] + 0x1_0000_0000_0000_0000
                } else {
                    v@[i] as int
                })),
                ClaimValues::Uint64(v) => out.len() == v@.len() && (0 <= i < v@.len()
                    ==> out[i].bytes is None && out[i].scalar == v@[i]),
                ClaimValues::Boolean(v) => out.len() == v@.len() && (0 <= i < v@.len()
                    ==> out[i].bytes is None && out[i].scalar == (if v@[i] {
                    1int
                } else {
                    0int
                })),
                ClaimValues::String(v) => out.len() == v@.len() && (0 <= i < v@.len()
                    ==> out[i].scalar == 0 && out[i].bytes == Some(
                    vstd::utf8::encode_utf8(v@[i]@),
                )),
                ClaimValues::Sid(v) => out.len() == v@.len() && (0 <= i < v@.len() ==> out[i].scalar
                    == 0 && out[i].bytes == Some(v@[i]@)),
                ClaimValues::Octet(v) => out.len() == v@.len() && (0 <= i < v@.len()
                    ==> out[i].scalar == 0 && out[i].bytes == Some(v@[i]@)),
            }
        }),
{
    if let ClaimValues::Int64(v) = values {
        if 0 <= i < v@.len() {
            let x: i64 = v@[i];
            assert(x < 0 ==> x as u64 == x + 0x1_0000_0000_0000_0000) by (bit_vector);
            assert(x >= 0 ==> x as u64 == x) by (bit_vector);
        }
    }
}

/// A claim's values carry the code of their own type.
pub proof fn law_claim_types_by_name<const N: usize>(values: ClaimValues<N>, codes: ClaimTypeCodes)
    ensures
        values is Int64 ==> values.type_code(codes) == codes.int64,
        values is Uint64 ==> values.type_code(codes) == codes.uint64,
        values is Boolean ==> values.type_code(codes) == codes.boolean,
        values is String ==> values.type_code(codes) == codes.string,
        values is Sid ==> values.type_code(codes) == codes.sid,
        values is Octet ==> values.type_code(codes) == codes.octet,
{
}

/// A claim becomes a call exactly where its name holds no NUL, and is `EINVAL`
/// otherwise.
pub proof fn law_claim_refused_for_nul<const N: usize>(claim: Claim<N>, codes: ClaimTypeCodes)
    ensures
        claim.as_call_claim(codes) is Ok <==> !vstd::utf8::encode_utf8(claim.name@).contains(0u8),
        claim.as_call_claim(codes) matches Err(e) ==> e.errno == 22,
{
}

/// What a call is made of: the bytes of the claim's name and a NUL, the claim's
/// own attribute bits, the code of the type of its values, and its values, each
/// number and each string of bytes in its place.
pub proof fn law_claim_by_name<const N: usize>(
    claim: Claim<N>,
    codes: ClaimTypeCodes,
    call: ClaimSpec,
)
    requires
        claim.as_call_claim(codes) == Ok::<ClaimSpecModel, Error>(call@),
    ensures
        call.flags == claim.flags.0,
        call.name@.len() == vstd::utf8::encode_utf8(claim.name@).len() + 1,
        call.name@.last() == 0,
        call.name@.drop_last() == vstd::utf8::encode_utf8(claim.name@),
        claim.values is Int64 ==> call.value_type == codes.int64 as u16,
        claim.values is Uint64 ==> call.value_type == codes.uint64 as u16,
        claim.values is Boolean ==> call.value_type == codes.boolean as u16,
        claim.values is String ==> call.value_type == codes.string as u16,
        claim.values is Sid ==> call.value_type == codes.sid as u16,
        claim.values is Octet ==> call.value_type == codes.octet as u16,
        call.values@.len() == claim.values.as_call_values().len(),
        forall|i: int|
            0 <= i < call.values@.len() ==> {
                let want = claim.values.as_call_values()[i];
                &&& (#[trigger] call.values@[i]).scalar == want.scalar
                &&& want.bytes is None <==> call.values@[i].bytes is None
                &&& call.values@[i].bytes matches Some(b) ==> want.bytes == Some(b@)
            },
{
    assert(call@.flags == claim.flags.0);
    assert(call.name@.drop_last() =~= vstd::utf8::encode_utf8(claim.name@));
    assert forall|i: int| 0 <= i < call.values@.len() implies (#[trigger] call.values@[i])@
        == claim.values.as_call_values()[i] by {
        assert(call@.values[i] == call.values@[i]@);
    }
}

/// Attribute bits reach the call: two claims that become the same call have the
/// same attribute bits and the same name.
pub proof fn law_claim_flags_told_apart<const N: usize>(
    a: Claim<N>,
    b: Claim<N>,
    codes: ClaimTypeCodes,
)
    requires
        !vstd::utf8::encode_utf8(a.name@).contains(0u8),
    ensures
        a.as_call_claim(codes) == b.as_call_claim(codes) ==> a.flags == b.flags && a.name@
            == b.name@,
{
    let x = vstd::utf8::encode_utf8(a.name@);
    let y = vstd::utf8::encode_utf8(b.name@);
    if a.as_call_claim(codes) == b.as_call_claim(codes) {
        assert(x.push(0u8) == y.push(0u8));
        assert(x =~= x.push(0u8).drop_last());
        assert(y =~= y.push(0u8).drop_last());
        vstd::utf8::encode_utf8_decode_utf8(a.name@);
        vstd::utf8::encode_utf8_decode_utf8(b.name@);
    }
}

/// A value and a call as values are their parts, each under its own name.
pub proof fn law_claim_call_by_name(v: ClaimValue, c: ClaimSpec)
    ensures
        v@.scalar == v.scalar,
        v@.bytes is Some <==> v.bytes is Some,
        v.bytes matches Some(b) ==> v@.bytes == Some(b@),
        c@.name == c.name@,
        c@.value_type == c.value_type,
        c@.flags == c.flags,
        c@.values.len() == c.values@.len(),
        forall|i: int| 0 <= i < c.values@.len() ==> c@.values[i] == (#[trigger] c.values@[i])@,
{
}

} // verus!
