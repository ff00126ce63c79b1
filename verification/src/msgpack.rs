//! MessagePack for event payloads: the log of a [`Writer`], and what the replies
//! of a decode cursor mean.
//!
//! The codec is libpeios'. The writer keeps what is to be written, in order, and
//! the log is played into libpeios' writer when the bytes are asked for; the
//! first error latches there and surfaces then.
use crate::error::{Error, Result, EINVAL};
use crate::util::{borrowed, check_reply, owned_bytes, text};
use vstd::prelude::*;
use vstd::slice::slice_to_vec;

verus! {

/// The value kind of the next value of a decode cursor. Integers, signed and
/// unsigned, of all widths, are [`Type::Int`].
#[derive(Debug, Clone, Copy, PartialEq, Eq, Hash, Structural)]
pub enum Type {
    /// The `nil` value.
    Nil,
    /// A boolean.
    Bool,
    /// An integer (signed or unsigned, any width).
    Int,
    /// A floating-point value.
    Float,
    /// A UTF-8 string.
    Str,
    /// A binary blob.
    Bin,
    /// An array header.
    Array,
    /// A map header.
    MapHeader,
    /// An extension value.
    Ext,
}

/// The header's codes of the value kinds.
#[derive(Debug, Clone, Copy, PartialEq, Eq, Structural)]
pub struct TypeCodes {
    /// `PEIOS_MP_NIL`.
    pub nil: u32,
    /// `PEIOS_MP_BOOL`.
    pub boolean: u32,
    /// `PEIOS_MP_INT`.
    pub int_: u32,
    /// `PEIOS_MP_FLOAT`.
    pub float: u32,
    /// `PEIOS_MP_STR`.
    pub str_: u32,
    /// `PEIOS_MP_BIN`.
    pub bin: u32,
    /// `PEIOS_MP_ARRAY`.
    pub array: u32,
    /// `PEIOS_MP_MAP`.
    pub map_: u32,
    /// `PEIOS_MP_EXT`.
    pub ext: u32,
}

impl TypeCodes {
    /// The code of a kind.
    pub open spec fn code(self, ty: Type) -> u32 {
        match ty {
            Type::Nil => self.nil,
            Type::Bool => self.boolean,
            Type::Int => self.int_,
            Type::Float => self.float,
            Type::Str => self.str_,
            Type::Bin => self.bin,
            Type::Array => self.array,
            Type::MapHeader => self.map_,
            Type::Ext => self.ext,
        }
    }

    /// Whether no two kinds share a code.
    pub open spec fn distinct(self) -> bool {
        forall|a: Type, b: Type| #[trigger] self.code(a) == #[trigger] self.code(b) ==> a == b
    }
}

impl Type {
    /// The kind that a raw code stands for: the first whose code it is.
    pub open spec fn of_code(v: u32, codes: TypeCodes) -> Option<Type> {
        if v == codes.nil {
            Some(Type::Nil)
        } else if v == codes.boolean {
            Some(Type::Bool)
        } else if v == codes.int_ {
            Some(Type::Int)
        } else if v == codes.float {
            Some(Type::Float)
        } else if v == codes.str_ {
            Some(Type::Str)
        } else if v == codes.bin {
            Some(Type::Bin)
        } else if v == codes.array {
            Some(Type::Array)
        } else if v == codes.map_ {
            Some(Type::MapHeader)
        } else if v == codes.ext {
            Some(Type::Ext)
        } else {
            None
        }
    }

    /// The kind that a raw code stands for, or `None` if it is no kind's.
    pub fn from_raw(v: u32, codes: TypeCodes) -> (ty: Option<Type>)
        ensures
            ty == Type::of_code(v, codes),
    {
        if v == codes.nil {
            Some(Type::Nil)
        } else if v == codes.boolean {
            Some(Type::Bool)
        } else if v == codes.int_ {
            Some(Type::Int)
        } else if v == codes.float {
            Some(Type::Float)
        } else if v == codes.str_ {
            Some(Type::Str)
        } else if v == codes.bin {
            Some(Type::Bin)
        } else if v == codes.array {
            Some(Type::Array)
        } else if v == codes.map_ {
            Some(Type::MapHeader)
        } else if v == codes.ext {
            Some(Type::Ext)
        } else {
            None
        }
    }

    /// What the reply to a peek means: `None` at the end of the input or on an
    /// invalid lead byte (a negative reply), and on a code of no kind.
    pub fn from_peek(t: i32, codes: TypeCodes) -> (ty: Option<Type>)
        ensures
            ty == (if t < 0 {
                None::<Type>
            } else {
                Type::of_code(t as u32, codes)
            }),
    {
        if t < 0 {
            None
        } else {
            Type::from_raw(t as u32, codes)
        }
    }
}

/// A kind's code is read back as that kind, a code is read as a kind only where
/// it is that kind's, and any other code as none.
pub proof fn law_type_codes(codes: TypeCodes, v: u32)
    requires
        codes.distinct(),
    ensures
        forall|t: Type| Type::of_code(#[trigger] codes.code(t), codes) == Some(t),
        match Type::of_code(v, codes) {
            Some(t) => codes.code(t) == v,
            None => forall|t: Type| #[trigger] codes.code(t) != v,
        },
{
    assert forall|t: Type| Type::of_code(#[trigger] codes.code(t), codes) == Some(t) by {
        let found = Type::of_code(codes.code(t), codes);
        assert(found is Some);
        assert(codes.code(found->0) == codes.code(t));
    }
}

// ---- writing ----------------------------------------------------------------

/// One entry of a writer's log.
#[derive(Debug)]
pub enum WriteOp {
    /// A `nil`.
    Nil,
    /// A boolean.
    Bool(bool),
    /// A signed integer.
    Int(i64),
    /// An unsigned integer.
    Uint(u64),
    /// A floating-point value, by its bits.
    Float(u64),
    /// The bytes of a UTF-8 string.
    Str(Vec<u8>),
    /// A binary blob.
    Bin(Vec<u8>),
    /// An array header.
    Array(u32),
    /// A map header.
    MapHeader(u32),
    /// An extension value: its type id and its bytes.
    Ext(i8, Vec<u8>),
    /// Pre-encoded bytes.
    Raw(Vec<u8>),
}

/// A [`WriteOp`] as values.
pub enum WriteOpModel {
    /// A `nil`.
    Nil,
    /// A boolean.
    Bool(bool),
    /// A signed integer.
    Int(i64),
    /// An unsigned integer.
    Uint(u64),
    /// A floating-point value, by its bits.
    Float(u64),
    /// The bytes of a UTF-8 string.
    Str(Seq<u8>),
    /// A binary blob.
    Bin(Seq<u8>),
    /// An array header.
    Array(u32),
    /// A map header.
    MapHeader(u32),
    /// An extension value.
    Ext(i8, Seq<u8>),
    /// Pre-encoded bytes.
    Raw(Seq<u8>),
}

impl View for WriteOp {
    type V = WriteOpModel;

    open spec fn view(&self) -> WriteOpModel {
        match *self {
            WriteOp::Nil => WriteOpModel::Nil,
            WriteOp::Bool(v) => WriteOpModel::Bool(v),
            WriteOp::Int(v) => WriteOpModel::Int(v),
            WriteOp::Uint(v) => WriteOpModel::Uint(v),
            WriteOp::Float(v) => WriteOpModel::Float(v),
            WriteOp::Str(b) => WriteOpModel::Str(b@),
            WriteOp::Bin(b) => WriteOpModel::Bin(b@),
            WriteOp::Array(n) => WriteOpModel::Array(n),
            WriteOp::MapHeader(n) => WriteOpModel::MapHeader(n),
            WriteOp::Ext(ty, b) => WriteOpModel::Ext(ty, b@),
            WriteOp::Raw(b) => WriteOpModel::Raw(b@),
        }
    }
}

/// A MessagePack encoder: the values to write, in order.
///
/// Containers are written header-first: after an array or a map header follow
/// exactly `count` values (a map needs `count` key/value PAIRS). An under- or
/// over-filled container is reported when the bytes are asked for.
#[derive(Debug)]
pub struct Writer {
    ops: Vec<WriteOp>,
}

impl View for Writer {
    type V = Seq<WriteOpModel>;

    closed spec fn view(&self) -> Seq<WriteOpModel> {
        self.ops@.map_values(|op: WriteOp| op@)
    }
}

impl Writer {
    /// Create an empty writer.
    pub fn new() -> (w: Writer)
        ensures
            w@ == Seq::<WriteOpModel>::empty(),
    {
        let w = Writer { ops: Vec::new() };
        assert(w@ =~= Seq::<WriteOpModel>::empty());
        w
    }

    fn log(&mut self, op: WriteOp)
        ensures
            final(self)@ == old(self)@.push(op@),
    {
        self.ops.push(op);
        assert(self@ =~= old(self)@.push(op@));
    }

    /// The log, to be played into libpeios' writer from first to last.
    pub fn ops(&self) -> (ops: &[WriteOp])
        ensures
            ops@.map_values(|op: WriteOp| op@) == self@,
    {
        self.ops.as_slice()
    }

    /// Reset to empty, reusing the writer.
    pub fn reset(&mut self) -> (w: &mut Self)
        ensures
            w@ == Seq::<WriteOpModel>::empty(),
            *final(self) == *final(w),
    {
        self.ops = Vec::new();
        assert(self@ =~= Seq::<WriteOpModel>::empty());
        self
    }

    /// Write a `nil`.
    pub fn write_nil(&mut self) -> (w: &mut Self)
        ensures
            w@ == old(self)@.push(WriteOpModel::Nil),
            *final(self) == *final(w),
    {
        self.log(WriteOp::Nil);
        self
    }

    /// Write a boolean.
    pub fn write_bool(&mut self, v: bool) -> (w: &mut Self)
        ensures
            w@ == old(self)@.push(WriteOpModel::Bool(v)),
            *final(self) == *final(w),
    {
        self.log(WriteOp::Bool(v));
        self
    }

    /// Write a signed integer.
    pub fn write_int(&mut self, v: i64) -> (w: &mut Self)
        ensures
            w@ == old(self)@.push(WriteOpModel::Int(v)),
            *final(self) == *final(w),
    {
        self.log(WriteOp::Int(v));
        self
    }

    /// Write an unsigned integer.
    pub fn write_uint(&mut self, v: u64) -> (w: &mut Self)
        ensures
            w@ == old(self)@.push(WriteOpModel::Uint(v)),
            *final(self) == *final(w),
    {
        self.log(WriteOp::Uint(v));
        self
    }

    /// Write a floating-point value, given by its bits.
    pub fn write_float_bits(&mut self, bits: u64) -> (w: &mut Self)
        ensures
            w@ == old(self)@.push(WriteOpModel::Float(bits)),
            *final(self) == *final(w),
    {
        self.log(WriteOp::Float(bits));
        self
    }

    /// Write a UTF-8 string.
    pub fn write_str(&mut self, s: &str) -> (w: &mut Self)
        ensures
            w@ == old(self)@.push(WriteOpModel::Str(vstd::utf8::encode_utf8(s@))),
            *final(self) == *final(w),
    {
        self.log(WriteOp::Str(slice_to_vec(s.as_bytes())));
        self
    }

    /// Write a binary blob.
    pub fn write_bin(&mut self, b: &[u8]) -> (w: &mut Self)
        ensures
            w@ == old(self)@.push(WriteOpModel::Bin(b@)),
            *final(self) == *final(w),
    {
        self.log(WriteOp::Bin(slice_to_vec(b)));
        self
    }

    /// Write an array header; follow with exactly `count` values.
    pub fn write_array(&mut self, count: u32) -> (w: &mut Self)
        ensures
            w@ == old(self)@.push(WriteOpModel::Array(count)),
            *final(self) == *final(w),
    {
        self.log(WriteOp::Array(count));
        self
    }

    /// Write a map header; follow with exactly `count` key/value PAIRS.
    pub fn write_map(&mut self, count: u32) -> (w: &mut Self)
        ensures
            w@ == old(self)@.push(WriteOpModel::MapHeader(count)),
            *final(self) == *final(w),
    {
        self.log(WriteOp::MapHeader(count));
        self
    }

    /// Write an extension value with signed type id `ext_type`.
    pub fn write_ext(&mut self, ext_type: i8, b: &[u8]) -> (w: &mut Self)
        ensures
            w@ == old(self)@.push(WriteOpModel::Ext(ext_type, b@)),
            *final(self) == *final(w),
    {
        self.log(WriteOp::Ext(ext_type, slice_to_vec(b)));
        self
    }

    /// Append pre-encoded MessagePack bytes verbatim (the escape hatch).
    pub fn write_raw(&mut self, b: &[u8]) -> (w: &mut Self)
        ensures
            w@ == old(self)@.push(WriteOpModel::Raw(b@)),
            *final(self) == *final(w),
    {
        self.log(WriteOp::Raw(slice_to_vec(b)));
        self
    }

    /// The latched error, given the errno that libpeios' writer latched on the
    /// log (`0` is none).
    pub fn error(&self, c_err: i32) -> (r: Result<()>)
        ensures
            r == (if c_err == 0 {
                Ok::<(), Error>(())
            } else {
                Err::<(), Error>(Error { errno: c_err })
            }),
    {
        check_reply(c_err, c_err)
    }

    /// The bytes of the one value that was written, given the reply of libpeios'
    /// writer that played the log: the number of bytes or a failure, and where
    /// it points. A success that points nowhere is `EINVAL`.
    pub fn to_bytes(&self, n: isize, errno: i32, bytes: Option<&[u8]>) -> (r: Result<Vec<u8>>)
        ensures
            match r {
                Ok(v) => n >= 0 && (bytes matches Some(b) && v@ == b@),
                Err(e) => if n < 0 {
                    e.errno == errno
                } else {
                    bytes is None && e.errno == EINVAL
                },
            },
    {
        owned_bytes(n, errno, bytes)
    }
}

impl Default for Writer {
    /// An empty writer.
    fn default() -> (w: Writer)
        ensures
            w@ == Seq::<WriteOpModel>::empty(),
    {
        Writer::new()
    }
}

// ---- what comes back --------------------------------------------------------

/// What the reply to reading a string means: as of any call that points at
/// bytes, and bytes that are no UTF-8 are `EINVAL`.
pub fn read_str<'a>(n: isize, errno: i32, bytes: Option<&'a [u8]>) -> (r: Result<&'a str>)
    ensures
        match r {
            Ok(s) => n >= 0 && (bytes matches Some(b) && vstd::utf8::encode_utf8(s@) == b@),
            Err(e) => if n < 0 {
                e.errno == errno
            } else {
                e.errno == EINVAL && match bytes {
                    Some(b) => !vstd::utf8::valid_utf8(b@),
                    None => true,
                }
            },
        },
{
    match borrowed(n, errno, bytes) {
        Ok(b) => text(b),
        Err(e) => Err(e),
    }
}

/// Every kind has the code of its own name, and a code is read as the kind of that
/// name (the first where two share a code), any other as none.
pub proof fn law_types_by_name(codes: TypeCodes, v: u32)
    ensures
        codes.code(Type::Nil) == codes.nil,
        codes.code(Type::Bool) == codes.boolean,
        codes.code(Type::Int) == codes.int_,
        codes.code(Type::Float) == codes.float,
        codes.code(Type::Str) == codes.str_,
        codes.code(Type::Bin) == codes.bin,
        codes.code(Type::Array) == codes.array,
        codes.code(Type::MapHeader) == codes.map_,
        codes.code(Type::Ext) == codes.ext,
        v == codes.nil ==> Type::of_code(v, codes) == Some(Type::Nil),
        v == codes.boolean && v != codes.nil ==> Type::of_code(v, codes) == Some(Type::Bool),
        v == codes.int_ && v != codes.nil && v != codes.boolean
            ==> Type::of_code(v, codes) == Some(Type::Int),
        v == codes.float && v != codes.nil && v != codes.boolean && v != codes.int_
            ==> Type::of_code(v, codes) == Some(Type::Float),
        v == codes.str_ && v != codes.nil && v != codes.boolean && v != codes.int_
            && v != codes.float ==> Type::of_code(v, codes) == Some(Type::Str),
        v == codes.bin && v != codes.nil && v != codes.boolean && v != codes.int_
            && v != codes.float && v != codes.str_ ==> Type::of_code(v, codes) == Some(Type::Bin),
        v == codes.array && v != codes.nil && v != codes.boolean && v != codes.int_
            && v != codes.float && v != codes.str_ && v != codes.bin
            ==> Type::of_code(v, codes) == Some(Type::Array),
        v == codes.map_ && v != codes.nil && v != codes.boolean && v != codes.int_
            && v != codes.float && v != codes.str_ && v != codes.bin && v != codes.array
            ==> Type::of_code(v, codes) == Some(Type::MapHeader),
        v == codes.ext && v != codes.nil && v != codes.boolean && v != codes.int_
            && v != codes.float && v != codes.str_ && v != codes.bin && v != codes.array
            && v != codes.map_ ==> Type::of_code(v, codes) == Some(Type::Ext),
        v != codes.nil && v != codes.boolean && v != codes.int_ && v != codes.float
            && v != codes.str_ && v != codes.bin && v != codes.array && v != codes.map_
            && v != codes.ext ==> Type::of_code(v, codes) is None,
{
}

/// An entry of the log is its kind with its value.
pub proof fn law_write_log_by_name(
    flag: bool,
    signed: i64,
    unsigned: u64,
    bytes: Vec<u8>,
    count: u32,
    ty: i8,
)
    ensures
        WriteOp::Nil@ == WriteOpModel::Nil,
        WriteOp::Bool(flag)@ == WriteOpModel::Bool(flag),
        WriteOp::Int(signed)@ == WriteOpModel::Int(signed),
        WriteOp::Uint(unsigned)@ == WriteOpModel::Uint(unsigned),
        WriteOp::Float(unsigned)@ == WriteOpModel::Float(unsigned),
        WriteOp::Str(bytes)@ == WriteOpModel::Str(bytes@),
        WriteOp::Bin(bytes)@ == WriteOpModel::Bin(bytes@),
        WriteOp::Array(count)@ == WriteOpModel::Array(count),
        WriteOp::MapHeader(count)@ == WriteOpModel::MapHeader(count),
        WriteOp::Ext(ty, bytes)@ == WriteOpModel::Ext(ty, bytes@),
        WriteOp::Raw(bytes)@ == WriteOpModel::Raw(bytes@),
{
}

} // verus!
