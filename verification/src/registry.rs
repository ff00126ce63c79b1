//! LCS, the layered configuration registry.
//!
//! LCS is Peios's kernel-mediated configuration store: a hierarchy of keys, each
//! secured by a security descriptor, holding typed values, with every write
//! tagged by a precedence-ordered *layer* so that the effective view resolves to
//! the highest-precedence entry. Reads and writes may enlist in a transaction;
//! where there is none, its handle is the "none" sentinel.
//!
//! [`reads`] holds the reads that take several calls, [`records`] the format of
//! a batch read, [`walk`] the cursor of an enumeration. This file holds the
//! vocabulary, and the requests of the calls that are made once.
use crate::error::{Error, Result, EINVAL};
use crate::util::{c_string, opt_fd};
use vstd::prelude::*;

pub mod reads;
pub mod records;
pub mod walk;

pub use reads::{EnumValue, KeyInfo, RegValue, Subkey};
pub use records::{parse_value_records, ValueRecord};

verus! {

// ---- vocabulary -------------------------------------------------------------

/// Key access-right mask: the key-object rights plus the standard rights.
#[derive(Debug, Clone, Copy, PartialEq, Eq, Hash, Structural)]
pub struct KeyAccess(pub u32);

/// Flags for opening a key.
#[derive(Debug, Clone, Copy, PartialEq, Eq, Hash, Structural)]
pub struct OpenFlags(pub u32);

/// Flags for creating a key.
#[derive(Debug, Clone, Copy, PartialEq, Eq, Hash, Structural)]
pub struct CreateFlags(pub u32);

/// Change-watch filter. An empty filter disarms.
#[derive(Debug, Clone, Copy, PartialEq, Eq, Hash, Structural)]
pub struct NotifyFilter(pub u32);

/// Security-information component bits of a key's descriptor.
#[derive(Debug, Clone, Copy, PartialEq, Eq, Hash, Structural)]
pub struct SecInfo(pub u32);

/// A registry value type: a raw `REG_*` code.
#[derive(Debug, Clone, Copy, PartialEq, Eq, Hash, Structural)]
pub struct ValueType(pub u32);

impl ValueType {
    /// Wrap a raw `REG_*` value-type code.
    pub fn from_raw(v: u32) -> (ty: ValueType)
        ensures
            ty == ValueType(v),
    {
        ValueType(v)
    }
}

/// Whether creating a key opened an existing one or made a new one. This is a
/// success output, not an error.
#[derive(Debug, Clone, Copy, PartialEq, Eq, Hash, Structural)]
pub enum Disposition {
    /// A new key was created.
    CreatedNew,
    /// An existing key was opened.
    OpenedExisting,
}

impl Disposition {
    /// The disposition that a raw code stands for, where `opened_existing` is
    /// the code of an opened key: every other code is a created one.
    pub fn from_raw(v: u32, opened_existing: u32) -> (d: Disposition)
        ensures
            d == (if v == opened_existing {
                Disposition::OpenedExisting
            } else {
                Disposition::CreatedNew
            }),
    {
        if v == opened_existing {
            Disposition::OpenedExisting
        } else {
            Disposition::CreatedNew
        }
    }
}

/// The state of a transaction.
#[derive(Debug, Clone, Copy, PartialEq, Eq, Hash, Structural)]
pub enum TxnState {
    /// Active but not yet bound to a source.
    ActiveUnbound,
    /// Active and bound to a source.
    ActiveBound,
    /// Committed (terminal).
    Committed,
    /// Aborted (terminal).
    Aborted,
    /// Timed out (terminal).
    TimedOut,
    /// The bound source went down (terminal).
    SourceDown,
}

/// The header's codes of the transaction states.
#[derive(Debug, Clone, Copy, PartialEq, Eq, Structural)]
pub struct TxnStateCodes {
    /// `REG_TXN_ACTIVE_UNBOUND`.
    pub active_unbound: u32,
    /// `REG_TXN_ACTIVE_BOUND`.
    pub active_bound: u32,
    /// `REG_TXN_COMMITTED`.
    pub committed: u32,
    /// `REG_TXN_ABORTED`.
    pub aborted: u32,
    /// `REG_TXN_TIMED_OUT`.
    pub timed_out: u32,
    /// `REG_TXN_SOURCE_DOWN`.
    pub source_down: u32,
}

impl TxnStateCodes {
    /// The code of a state.
    pub open spec fn code(self, state: TxnState) -> u32 {
        match state {
            TxnState::ActiveUnbound => self.active_unbound,
            TxnState::ActiveBound => self.active_bound,
            TxnState::Committed => self.committed,
            TxnState::Aborted => self.aborted,
            TxnState::TimedOut => self.timed_out,
            TxnState::SourceDown => self.source_down,
        }
    }

    /// Whether no two states share a code.
    pub open spec fn distinct(self) -> bool {
        forall|a: TxnState, b: TxnState| #[trigger]
            self.code(a) == #[trigger] self.code(b) ==> a == b
    }
}

impl TxnState {
    /// The state that a raw code stands for: the first whose code it is.
    pub open spec fn of_code(v: u32, codes: TxnStateCodes) -> Option<TxnState> {
        if v == codes.active_unbound {
            Some(TxnState::ActiveUnbound)
        } else if v == codes.active_bound {
            Some(TxnState::ActiveBound)
        } else if v == codes.committed {
            Some(TxnState::Committed)
        } else if v == codes.aborted {
            Some(TxnState::Aborted)
        } else if v == codes.timed_out {
            Some(TxnState::TimedOut)
        } else if v == codes.source_down {
            Some(TxnState::SourceDown)
        } else {
            None
        }
    }

    /// The state that a raw code stands for, or `None` if it is no state's.
    pub fn from_raw(v: u32, codes: TxnStateCodes) -> (state: Option<TxnState>)
        ensures
            state == TxnState::of_code(v, codes),
    {
        if v == codes.active_unbound {
            Some(TxnState::ActiveUnbound)
        } else if v == codes.active_bound {
            Some(TxnState::ActiveBound)
        } else if v == codes.committed {
            Some(TxnState::Committed)
        } else if v == codes.aborted {
            Some(TxnState::Aborted)
        } else if v == codes.timed_out {
            Some(TxnState::TimedOut)
        } else if v == codes.source_down {
            Some(TxnState::SourceDown)
        } else {
            None
        }
    }
}

/// A state's code is read back as that state, a code is read as a state only
/// where it is that state's, and any other code as none.
pub proof fn law_txn_state_codes(codes: TxnStateCodes, v: u32)
    requires
        codes.distinct(),
    ensures
        forall|s: TxnState| TxnState::of_code(#[trigger] codes.code(s), codes) == Some(s),
        match TxnState::of_code(v, codes) {
            Some(s) => codes.code(s) == v,
            None => forall|s: TxnState| #[trigger] codes.code(s) != v,
        },
{
    assert forall|s: TxnState| TxnState::of_code(#[trigger] codes.code(s), codes) == Some(s) by {
        let found = TxnState::of_code(codes.code(s), codes);
        assert(found is Some);
        assert(codes.code(found->0) == codes.code(s));
    }
}

/// The status of a transaction: its state plus the errno that ended it (`0`
/// while active or after a clean commit).
#[derive(Debug, Clone, Copy, PartialEq, Eq, Hash, Structural)]
pub struct TxnStatus {
    /// The transaction state.
    pub state: TxnState,
    /// The errno that terminated the transaction, or `0`.
    pub terminal_errno: i32,
}

impl TxnStatus {
    /// What the reply to a status query means. A state that no code stands for
    /// is `EINVAL`.
    pub fn from_reply(
        ret: i32,
        errno: i32,
        state: u32,
        terminal_errno: i32,
        codes: TxnStateCodes,
    ) -> (r: Result<TxnStatus>)
        ensures
            r == (if ret != 0 {
                Err::<TxnStatus, Error>(Error { errno })
            } else {
                match TxnState::of_code(state, codes) {
                    Some(s) => Ok(TxnStatus { state: s, terminal_errno }),
                    None => Err(Error { errno: EINVAL }),
                }
            }),
    {
        if ret != 0 {
            return Err(Error { errno });
        }
        match TxnState::from_raw(state, codes) {
            Some(s) => Ok(TxnStatus { state: s, terminal_errno }),
            None => Err(Error { errno: EINVAL }),
        }
    }
}

// ---- opening and creating keys ----------------------------------------------

/// The arguments of a key open.
#[derive(Debug)]
pub struct OpenKeyRequest {
    /// The key to resolve the path against, or the "none" handle.
    pub parent_fd: i32,
    /// The NUL-terminated path.
    pub path: Vec<u8>,
    /// The desired access bits.
    pub access: u32,
    /// The flag bits.
    pub flags: u32,
}

/// The arguments of opening `path` under `parent` (`None` for an absolute path).
/// A path with an interior NUL is `EINVAL`.
pub fn open_key(parent: Option<i32>, path: &str, access: KeyAccess, flags: OpenFlags) -> (r: Result<
    OpenKeyRequest,
>)
    ensures
        match r {
            Ok(q) => {
                &&& crate::util::as_c_string(vstd::utf8::encode_utf8(path@))
                    == Ok::<Seq<u8>, Error>(q.path@)
                &&& q.parent_fd == crate::util::fd_or_none(parent)
                &&& q.access == access.0
                &&& q.flags == flags.0
            },
            Err(e) => crate::util::as_c_string(vstd::utf8::encode_utf8(path@))
                == Err::<Seq<u8>, Error>(e),
        },
{
    match c_string(path.as_bytes()) {
        Ok(path) => Ok(
            OpenKeyRequest { parent_fd: opt_fd(parent), path, access: access.0, flags: flags.0 },
        ),
        Err(e) => Err(e),
    }
}

/// The arguments of a key create.
#[derive(Debug)]
pub struct CreateKeyRequest {
    /// The key to resolve the path against, or the "none" handle.
    pub parent_fd: i32,
    /// The NUL-terminated path.
    pub path: Vec<u8>,
    /// The desired access bits.
    pub access: u32,
    /// The flag bits.
    pub flags: u32,
    /// The NUL-terminated layer name; `None` is the base layer (a null pointer).
    pub layer: Option<Vec<u8>>,
    /// The transaction, or the "none" handle.
    pub txn_fd: i32,
}

/// What an optional string becomes on its way into a C call.
pub open spec fn as_opt_c_string(s: Option<&str>) -> Result<Option<Seq<u8>>> {
    match s {
        None => Ok(None),
        Some(t) => match crate::util::as_c_string(vstd::utf8::encode_utf8(t@)) {
            Ok(c) => Ok(Some(c)),
            Err(e) => Err(e),
        },
    }
}

/// An optional byte string as a value.
pub open spec fn opt_bytes(v: Option<Vec<u8>>) -> Option<Seq<u8>> {
    match v {
        Some(b) => Some(b@),
        None => None,
    }
}

/// Terminate an optional string with a NUL for a C call.
fn opt_c_string(s: Option<&str>) -> (r: Result<Option<Vec<u8>>>)
    ensures
        match r {
            Ok(v) => as_opt_c_string(s) == Ok::<Option<Seq<u8>>, Error>(opt_bytes(v)),
            Err(e) => as_opt_c_string(s) == Err::<Option<Seq<u8>>, Error>(e),
        },
{
    match s {
        None => Ok(None),
        Some(t) => match c_string(t.as_bytes()) {
            Ok(c) => Ok(Some(c)),
            Err(e) => Err(e),
        },
    }
}

/// The arguments of opening or creating `path` under `parent` (`None` for an
/// absolute path) in `layer` (`None` for the base layer) within `txn`. A path or
/// a layer name with an interior NUL is `EINVAL`.
pub fn create_key(
    parent: Option<i32>,
    path: &str,
    access: KeyAccess,
    flags: CreateFlags,
    layer: Option<&str>,
    txn: Option<i32>,
) -> (r: Result<CreateKeyRequest>)
    ensures
        match r {
            Ok(q) => {
                &&& crate::util::as_c_string(vstd::utf8::encode_utf8(path@))
                    == Ok::<Seq<u8>, Error>(q.path@)
                &&& as_opt_c_string(layer) == Ok::<Option<Seq<u8>>, Error>(opt_bytes(q.layer))
                &&& q.parent_fd == crate::util::fd_or_none(parent)
                &&& q.access == access.0
                &&& q.flags == flags.0
                &&& q.txn_fd == crate::util::fd_or_none(txn)
            },
            Err(e) => {
                &&& e.errno == EINVAL
                &&& vstd::utf8::encode_utf8(path@).contains(0u8) || as_opt_c_string(layer) is Err
            },
        },
{
    let path = match c_string(path.as_bytes()) {
        Ok(p) => p,
        Err(e) => return Err(e),
    };
    let layer = match opt_c_string(layer) {
        Ok(l) => l,
        Err(e) => return Err(e),
    };
    Ok(
        CreateKeyRequest {
            parent_fd: opt_fd(parent),
            path,
            access: access.0,
            flags: flags.0,
            layer,
            txn_fd: opt_fd(txn),
        },
    )
}

/// What the reply to a key create means: the key's fd and its disposition, or
/// the errno of a negative fd.
pub fn created_key(fd: i32, errno: i32, disposition: u32, opened_existing: u32) -> (r: Result<
    (i32, Disposition),
>)
    ensures
        r == (if fd < 0 {
            Err::<(i32, Disposition), Error>(Error { errno })
        } else if disposition == opened_existing {
            Ok((fd, Disposition::OpenedExisting))
        } else {
            Ok((fd, Disposition::CreatedNew))
        }),
{
    if fd < 0 {
        return Err(Error { errno });
    }
    Ok((fd, Disposition::from_raw(disposition, opened_existing)))
}

// ---- writing values ---------------------------------------------------------

/// The length argument of a byte string: its length, cut to 32 bits.
pub fn len_u32(b: &[u8]) -> (n: u32)
    ensures
        n == b@.len() as u32,
{
    b.len() as u32
}

/// Whether the pointer argument of an output window is null: a window of zero
/// capacity is a true probe.
pub fn window_is_null(cap: usize) -> (null: bool)
    ensures
        null == (cap == 0),
{
    cap == 0
}

/// A layer name as a length-counted argument: the bytes and the length, cut to
/// 32 bits, or no bytes and `0` for the base layer.
#[derive(Debug, Clone, Copy)]
pub struct LayerArg<'a> {
    /// The name's bytes; `None` is a null pointer.
    pub name: Option<&'a [u8]>,
    /// The length argument.
    pub len: u32,
}

/// A layer name as a length-counted argument. A NUL in it is passed on: it is
/// the length that ends it.
pub fn opt_layer<'a>(layer: Option<&'a str>) -> (arg: LayerArg<'a>)
    ensures
        match layer {
            Some(l) => {
                &&& arg.name matches Some(b) && b@ == vstd::utf8::encode_utf8(l@)
                &&& arg.len == vstd::utf8::encode_utf8(l@).len() as u32
            },
            None => arg.name is None && arg.len == 0,
        },
{
    match layer {
        Some(l) => {
            let b = l.as_bytes();
            LayerArg { name: Some(b), len: len_u32(b) }
        },
        None => LayerArg { name: None, len: 0 },
    }
}

/// A value write in the making. Chained setters refine it;
/// [`request`](Self::request) gives the arguments of the call.
#[derive(Debug, Clone, Copy)]
pub struct SetValue<'a> {
    /// The key's fd.
    pub key: i32,
    /// The value name (empty = the key's default value).
    pub name: &'a [u8],
    /// The value type.
    pub ty: ValueType,
    /// The value data.
    pub data: &'a [u8],
    /// The target layer (`None` = the base layer).
    pub layer: Option<&'a str>,
    /// The sequence number to compare with; `0` disables the comparison.
    pub expected_seq: u64,
    /// The transaction to enlist in.
    pub txn: Option<i32>,
}

/// The arguments of a value write.
#[derive(Debug)]
pub struct SetValueRequest<'a> {
    /// The key's fd.
    pub key: i32,
    /// The value name.
    pub name: &'a [u8],
    /// The length argument of the name.
    pub name_len: u32,
    /// The value type's code.
    pub ty: u32,
    /// The value data.
    pub data: &'a [u8],
    /// The length argument of the data.
    pub data_len: u32,
    /// The NUL-terminated layer name; `None` is the base layer (a null pointer).
    pub layer: Option<Vec<u8>>,
    /// The length argument of the layer name, the NUL not counted.
    pub layer_len: u32,
    /// The transaction, or the "none" handle.
    pub txn_fd: i32,
    /// The sequence number to compare with.
    pub expected_seq: u64,
}

impl<'a> SetValue<'a> {
    /// Begin a write of `data` under `name`: to the base layer, without a
    /// sequence comparison, outside any transaction.
    pub fn new(key: i32, name: &'a [u8], ty: ValueType, data: &'a [u8]) -> (w: SetValue<'a>)
        ensures
            w == (SetValue { key, name, ty, data, layer: None, expected_seq: 0, txn: None }),
    {
        SetValue { key, name, ty, data, layer: None, expected_seq: 0, txn: None }
    }

    /// Target a specific layer by name (default: the base layer).
    pub fn layer(&mut self, layer: &'a str) -> (w: &mut Self)
        ensures
            *w == (SetValue { layer: Some(layer), ..*old(self) }),
            *final(self) == *final(w),
    {
        self.layer = Some(layer);
        self
    }

    /// Compare-and-swap guard: apply only if the current sequence matches `seq`.
    /// `0` (the default) disables it.
    pub fn expect_seq(&mut self, seq: u64) -> (w: &mut Self)
        ensures
            *w == (SetValue { expected_seq: seq, ..*old(self) }),
            *final(self) == *final(w),
    {
        self.expected_seq = seq;
        self
    }

    /// Enlist the write in `txn` (default: auto-commit).
    pub fn in_txn(&mut self, txn: i32) -> (w: &mut Self)
        ensures
            *w == (SetValue { txn: Some(txn), ..*old(self) }),
            *final(self) == *final(w),
    {
        self.txn = Some(txn);
        self
    }

    /// The arguments of the write. A layer name with an interior NUL is
    /// `EINVAL`; value names and data are length-counted and may hold one.
    pub fn request(&self) -> (r: Result<SetValueRequest<'a>>)
        ensures
            match r {
                Ok(q) => {
                    &&& q.key == self.key
                    &&& q.name == self.name
                    &&& q.name_len == self.name@.len() as u32
                    &&& q.ty == self.ty.0
                    &&& q.data == self.data
                    &&& q.data_len == self.data@.len() as u32
                    &&& as_opt_c_string(self.layer) == Ok::<Option<Seq<u8>>, Error>(
                        opt_bytes(q.layer),
                    )
                    &&& q.layer_len == (match self.layer {
                        Some(l) => vstd::utf8::encode_utf8(l@).len() as u32,
                        None => 0u32,
                    })
                    &&& q.txn_fd == crate::util::fd_or_none(self.txn)
                    &&& q.expected_seq == self.expected_seq
                },
                Err(e) => as_opt_c_string(self.layer) == Err::<Option<Seq<u8>>, Error>(e),
            },
    {
        let layer = match opt_c_string(self.layer) {
            Ok(l) => l,
            Err(e) => return Err(e),
        };
        let layer_len: u32 = match self.layer {
            Some(l) => len_u32(l.as_bytes()),
            None => 0,
        };
        Ok(
            SetValueRequest {
                key: self.key,
                name: self.name,
                name_len: len_u32(self.name),
                ty: self.ty.0,
                data: self.data,
                data_len: len_u32(self.data),
                layer,
                layer_len,
                txn_fd: opt_fd(self.txn),
                expected_seq: self.expected_seq,
            },
        )
    }
}

// ---- other calls made once --------------------------------------------------

/// The arguments, besides the key, of removing a layer's entry for a value.
#[derive(Debug, Clone, Copy)]
pub struct DeleteValueRequest<'a> {
    /// The value name.
    pub name: &'a [u8],
    /// The length argument of the name.
    pub name_len: u32,
    /// The layer.
    pub layer: LayerArg<'a>,
    /// The transaction, or the "none" handle.
    pub txn_fd: i32,
}

/// The arguments of removing the entry of `layer` for the value `name`.
pub fn delete_value<'a>(name: &'a [u8], layer: Option<&'a str>, txn: Option<i32>) -> (q:
    DeleteValueRequest<'a>)
    ensures
        q.name == name,
        q.name_len == name@.len() as u32,
        layer matches Some(l) ==> q.layer.name matches Some(b) && b@ == vstd::utf8::encode_utf8(l@)
            && q.layer.len == b@.len() as u32,
        layer is None ==> q.layer.name is None && q.layer.len == 0,
        q.txn_fd == crate::util::fd_or_none(txn),
{
    DeleteValueRequest { name, name_len: len_u32(name), layer: opt_layer(layer), txn_fd: opt_fd(txn) }
}

/// The arguments, besides the key, of a call on a layer: deleting or hiding a
/// key in it, or a blanket tombstone on it.
#[derive(Debug, Clone, Copy)]
pub struct LayerRequest<'a> {
    /// The layer.
    pub layer: LayerArg<'a>,
    /// The transaction, or the "none" handle.
    pub txn_fd: i32,
    /// `1` to set and `0` to clear (a blanket tombstone only).
    pub set: i32,
}

/// The arguments of a call on `layer` (`None` = the base layer) within `txn`.
pub fn on_layer<'a>(layer: Option<&'a str>, set: bool, txn: Option<i32>) -> (q: LayerRequest<'a>)
    ensures
        layer matches Some(l) ==> q.layer.name matches Some(b) && b@ == vstd::utf8::encode_utf8(l@)
            && q.layer.len == b@.len() as u32,
        layer is None ==> q.layer.name is None && q.layer.len == 0,
        q.txn_fd == crate::util::fd_or_none(txn),
        q.set == (if set {
            1i32
        } else {
            0i32
        }),
{
    LayerRequest {
        layer: opt_layer(layer),
        txn_fd: opt_fd(txn),
        set: if set {
            1
        } else {
            0
        },
    }
}

/// Every state has the code of its own name, and a code is read as the state of
/// that name (the first where two share a code), any other as none.
pub proof fn law_txn_states_by_name(codes: TxnStateCodes, v: u32)
    ensures
        codes.code(TxnState::ActiveUnbound) == codes.active_unbound,
        codes.code(TxnState::ActiveBound) == codes.active_bound,
        codes.code(TxnState::Committed) == codes.committed,
        codes.code(TxnState::Aborted) == codes.aborted,
        codes.code(TxnState::TimedOut) == codes.timed_out,
        codes.code(TxnState::SourceDown) == codes.source_down,
        v == codes.active_unbound ==> TxnState::of_code(v, codes) == Some(TxnState::ActiveUnbound),
        v == codes.active_bound && v != codes.active_unbound
            ==> TxnState::of_code(v, codes) == Some(TxnState::ActiveBound),
        v == codes.committed && v != codes.active_unbound && v != codes.active_bound
            ==> TxnState::of_code(v, codes) == Some(TxnState::Committed),
        v == codes.aborted && v != codes.active_unbound && v != codes.active_bound
            && v != codes.committed ==> TxnState::of_code(v, codes) == Some(TxnState::Aborted),
        v == codes.timed_out && v != codes.active_unbound && v != codes.active_bound
            && v != codes.committed && v != codes.aborted
            ==> TxnState::of_code(v, codes) == Some(TxnState::TimedOut),
        v == codes.source_down && v != codes.active_unbound && v != codes.active_bound
            && v != codes.committed && v != codes.aborted && v != codes.timed_out
            ==> TxnState::of_code(v, codes) == Some(TxnState::SourceDown),
        v != codes.active_unbound && v != codes.active_bound && v != codes.committed
            && v != codes.aborted && v != codes.timed_out && v != codes.source_down
            ==> TxnState::of_code(v, codes) is None,
{
}

/// An optional string is absent exactly where none is given; one that is given is
/// passed as its bytes and a NUL, and refused exactly where it holds a NUL.
pub proof fn law_optional_string(s: &str, v: Vec<u8>)
    ensures
        as_opt_c_string(None) == Ok::<Option<Seq<u8>>, Error>(None),
        vstd::utf8::encode_utf8(s@).contains(0u8) ==> as_opt_c_string(Some(s)) == Err::<
            Option<Seq<u8>>,
            Error,
        >(Error { errno: 22 }),
        !vstd::utf8::encode_utf8(s@).contains(0u8) ==> as_opt_c_string(Some(s)) == Ok::<
            Option<Seq<u8>>,
            Error,
        >(Some(vstd::utf8::encode_utf8(s@).push(0u8))),
        opt_bytes(None) is None,
        opt_bytes(Some(v)) == Some(v@),
{
}

} // verus!
