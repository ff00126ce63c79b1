//! The registry reads that take several calls.
//!
//! The reads of one value, one enumeration entry and a key's metadata hand over
//! a descriptor with one or two output windows. The first call has empty windows
//! and learns the lengths; an `ERANGE` reply means that a window was too small,
//! and the next call gets windows of the lengths just reported. A read is tried
//! four times. The descriptor of a key and the packed values of a key are sized
//! by a call of their own first.
use crate::error::{Error, Result, ENOENT, ERANGE};
use crate::exchange::{Exchange, Step};
use crate::registry::records::{parse_value_records, RecordModel, ValueRecord};
use crate::registry::ValueType;
use crate::security::SecurityDescriptor;
use crate::util::truncate;
use vstd::prelude::*;

verus! {

/// How many times a read is tried.
pub const MAX_TRIES: u8 = 4;

// ---- one value --------------------------------------------------------------

/// An owned registry value.
#[derive(Debug, Clone, PartialEq, Eq)]
pub struct RegValue {
    /// The effective entry's sequence number.
    pub sequence: u64,
    /// The value type.
    pub ty: ValueType,
    /// The value data.
    pub data: Vec<u8>,
    /// The name of the layer the effective entry came from.
    pub layer: Vec<u8>,
}

/// A [`RegValue`] as values.
pub struct RegValueModel {
    /// The effective entry's sequence number.
    pub sequence: u64,
    /// The value type.
    pub ty: ValueType,
    /// The value data.
    pub data: Seq<u8>,
    /// The layer name.
    pub layer: Seq<u8>,
}

impl View for RegValue {
    type V = RegValueModel;

    open spec fn view(&self) -> RegValueModel {
        RegValueModel {
            sequence: self.sequence,
            ty: self.ty,
            data: self.data@,
            layer: self.layer@,
        }
    }
}

/// The next call of a value read.
#[derive(Debug, Clone, Copy, PartialEq, Eq, Structural)]
pub struct ValueRead {
    /// The capacity of the data window.
    pub data_cap: u32,
    /// The capacity of the layer-name window.
    pub layer_cap: u32,
    /// The calls made so far.
    pub tries: u8,
}

/// The reply to a call of a value read.
#[derive(Debug)]
pub struct ValueReply {
    /// What the call returned.
    pub ret: i32,
    /// The errno, where `ret` is not `0`.
    pub errno: i32,
    /// The reported sequence number.
    pub sequence: u64,
    /// The reported value type.
    pub ty: u32,
    /// The reported length of the data.
    pub data_len: u32,
    /// The reported length of the layer name.
    pub layer_len: u32,
    /// The data window, as the call left it.
    pub data: Vec<u8>,
    /// The layer-name window, as the call left it.
    pub layer: Vec<u8>,
}

/// A [`ValueReply`] as values.
pub struct ValueReplyModel {
    /// What the call returned.
    pub ret: i32,
    /// The errno.
    pub errno: i32,
    /// The reported sequence number.
    pub sequence: u64,
    /// The reported value type.
    pub ty: u32,
    /// The reported length of the data.
    pub data_len: u32,
    /// The reported length of the layer name.
    pub layer_len: u32,
    /// The data window.
    pub data: Seq<u8>,
    /// The layer-name window.
    pub layer: Seq<u8>,
}

impl View for ValueReply {
    type V = ValueReplyModel;

    open spec fn view(&self) -> ValueReplyModel {
        ValueReplyModel {
            ret: self.ret,
            errno: self.errno,
            sequence: self.sequence,
            ty: self.ty,
            data_len: self.data_len,
            layer_len: self.layer_len,
            data: self.data@,
            layer: self.layer@,
        }
    }
}

impl ValueReplyModel {
    /// The value that a successful reply carries.
    pub open spec fn value(self) -> RegValueModel {
        RegValueModel {
            sequence: self.sequence,
            ty: ValueType(self.ty),
            data: crate::util::truncated(self.data, self.data_len as int),
            layer: crate::util::truncated(self.layer, self.layer_len as int),
        }
    }
}

impl Exchange for ValueRead {
    type Reply = ValueReply;

    type ReplyModel = ValueReplyModel;

    type Out = RegValue;

    type OutModel = RegValueModel;

    open spec fn reply_model(reply: ValueReply) -> ValueReplyModel {
        reply@
    }

    open spec fn out_model(out: RegValue) -> RegValueModel {
        out@
    }

    open spec fn inv(self) -> bool {
        self.tries < MAX_TRIES
    }

    open spec fn step(self, reply: ValueReplyModel) -> Step<ValueRead, RegValueModel> {
        if reply.ret == 0 {
            Step::Done(Ok(reply.value()))
        } else if reply.errno != ERANGE {
            Step::Done(Err(Error { errno: reply.errno }))
        } else if self.tries + 1 < MAX_TRIES {
            Step::Call(
                ValueRead {
                    data_cap: reply.data_len,
                    layer_cap: reply.layer_len,
                    tries: (self.tries + 1) as u8,
                },
            )
        } else {
            Step::Done(Err(Error { errno: ERANGE }))
        }
    }

    open spec fn budget(self) -> nat {
        (MAX_TRIES - self.tries) as nat
    }

    proof fn step_spends(self, reply: ValueReplyModel) {
    }

    /// Take the reply to the call that this state describes.
    fn reply(self, reply: ValueReply) -> (next: Step<ValueRead, RegValue>)
    {
        if reply.ret == 0 {
            let data = truncate(reply.data, reply.data_len as usize);
            let layer = truncate(reply.layer, reply.layer_len as usize);
            Step::Done(
                Ok(RegValue { sequence: reply.sequence, ty: ValueType(reply.ty), data, layer }),
            )
        } else if reply.errno != ERANGE {
            Step::Done(Err(Error { errno: reply.errno }))
        } else if self.tries + 1 < MAX_TRIES {
            Step::Call(
                ValueRead {
                    data_cap: reply.data_len,
                    layer_cap: reply.layer_len,
                    tries: self.tries + 1,
                },
            )
        } else {
            Step::Done(Err(Error { errno: ERANGE }))
        }
    }
}

impl ValueRead {
    /// Where a value read starts.
    pub open spec fn start() -> ValueRead {
        ValueRead { data_cap: 0, layer_cap: 0, tries: 0 }
    }

    /// Begin a value read: the first call has empty windows.
    pub fn new() -> (s: ValueRead)
        ensures
            s == ValueRead::start(),
            s.inv(),
            s.budget() == 4,
    {
        ValueRead { data_cap: 0, layer_cap: 0, tries: 0 }
    }
}

/// A value read makes at most four calls, and yields the value of a reply that
/// succeeded. It fails with the errno of a failed call.
pub proof fn law_value_read_outcome(replies: Seq<ValueReplyModel>)
    ensures
        replies.len() >= 4 ==> crate::exchange::run(ValueRead::start(), replies) is Some,
        crate::exchange::run(ValueRead::start(), replies) matches Some(Ok(v)) ==> exists|i: int|
            0 <= i < replies.len() && (#[trigger] replies[i]).ret == 0 && v == replies[i].value(),
        crate::exchange::run(ValueRead::start(), replies) matches Some(Err(e)) ==> exists|i: int|
            0 <= i < replies.len() && (#[trigger] replies[i]).ret != 0 && e.errno
                == replies[i].errno,
{
    if replies.len() >= 4 {
        crate::exchange::law_exchange_ends(ValueRead::start(), replies);
    }
    if crate::exchange::run(ValueRead::start(), replies) is Some {
        let (i, last) = crate::exchange::law_outcome_of_last_reply(ValueRead::start(), replies);
        assert(replies[i] == replies[i]);
    }
}

/// A value read gives up exactly when four calls in a row found a window too
/// small.
pub proof fn law_value_read_gives_up(replies: Seq<ValueReplyModel>)
    ensures
        (crate::exchange::run(ValueRead::start(), replies) matches Some(Err(e)) && e.errno == ERANGE)
            <==> replies.len() >= 4 && forall|i: int|
            0 <= i < 4 ==> (#[trigger] replies[i]).ret != 0 && replies[i].errno == ERANGE,
{
    reveal_with_fuel(crate::exchange::run, 5);
    crate::exchange::lemma_leading_replies(replies);
}

/// Where the value does not change between two calls, two calls are enough: the
/// second gets windows of the lengths that the first reported, and what it
/// writes into them is the value, whole.
pub proof fn law_value_read_settled(short: ValueReplyModel, full: ValueReplyModel)
    requires
        short.ret != 0,
        short.errno == ERANGE,
        full.ret == 0,
        full.data_len == short.data_len,
        full.layer_len == short.layer_len,
        full.data.len() == short.data_len,
        full.layer.len() == short.layer_len,
    ensures
        ValueRead::start().step(short) == Step::<ValueRead, RegValueModel>::Call(
            ValueRead { data_cap: short.data_len, layer_cap: short.layer_len, tries: 1 },
        ),
        crate::exchange::run(ValueRead::start(), seq![short, full]) == Some(
            Ok::<RegValueModel, Error>(
                RegValueModel {
                    sequence: full.sequence,
                    ty: ValueType(full.ty),
                    data: full.data,
                    layer: full.layer,
                },
            ),
        ),
{
    reveal_with_fuel(crate::exchange::run, 3);
    assert(seq![short, full].drop_first() =~= seq![full]);
}

// ---- one enumeration entry: a value -----------------------------------------

/// One entry of a value enumeration.
#[derive(Debug, Clone, PartialEq, Eq)]
pub struct EnumValue {
    /// The value name.
    pub name: Vec<u8>,
    /// The value type.
    pub ty: ValueType,
    /// The value data.
    pub data: Vec<u8>,
}

impl View for EnumValue {
    type V = RecordModel;

    open spec fn view(&self) -> RecordModel {
        RecordModel { name: self.name@, ty: self.ty, data: self.data@ }
    }
}

/// The next call of a read of one enumeration entry.
#[derive(Debug, Clone, Copy, PartialEq, Eq, Structural)]
pub struct EnumValueRead {
    /// The capacity of the name window.
    pub name_cap: u32,
    /// The capacity of the data window.
    pub data_cap: u32,
    /// The calls made so far.
    pub tries: u8,
}

/// The reply to a call of an enumeration-entry read.
#[derive(Debug)]
pub struct EnumValueReply {
    /// What the call returned.
    pub ret: i32,
    /// The errno, where `ret` is not `0`.
    pub errno: i32,
    /// The reported value type.
    pub ty: u32,
    /// The reported length of the name.
    pub name_len: u32,
    /// The reported length of the data.
    pub data_len: u32,
    /// The name window, as the call left it.
    pub name: Vec<u8>,
    /// The data window, as the call left it.
    pub data: Vec<u8>,
}

/// An [`EnumValueReply`] as values.
pub struct EnumValueReplyModel {
    /// What the call returned.
    pub ret: i32,
    /// The errno.
    pub errno: i32,
    /// The reported value type.
    pub ty: u32,
    /// The reported length of the name.
    pub name_len: u32,
    /// The reported length of the data.
    pub data_len: u32,
    /// The name window.
    pub name: Seq<u8>,
    /// The data window.
    pub data: Seq<u8>,
}

impl View for EnumValueReply {
    type V = EnumValueReplyModel;

    open spec fn view(&self) -> EnumValueReplyModel {
        EnumValueReplyModel {
            ret: self.ret,
            errno: self.errno,
            ty: self.ty,
            name_len: self.name_len,
            data_len: self.data_len,
            name: self.name@,
            data: self.data@,
        }
    }
}

impl EnumValueReplyModel {
    /// The entry that a successful reply carries.
    pub open spec fn entry(self) -> RecordModel {
        RecordModel {
            name: crate::util::truncated(self.name, self.name_len as int),
            ty: ValueType(self.ty),
            data: crate::util::truncated(self.data, self.data_len as int),
        }
    }
}

impl Exchange for EnumValueRead {
    type Reply = EnumValueReply;

    type ReplyModel = EnumValueReplyModel;

    type Out = Option<EnumValue>;

    type OutModel = Option<RecordModel>;

    open spec fn reply_model(reply: EnumValueReply) -> EnumValueReplyModel {
        reply@
    }

    open spec fn out_model(out: Option<EnumValue>) -> Option<RecordModel> {
        entry_model(out)
    }

    open spec fn inv(self) -> bool {
        self.tries < MAX_TRIES
    }

    open spec fn step(self, reply: EnumValueReplyModel) -> Step<
        EnumValueRead,
        Option<RecordModel>,
    > {
        if reply.ret == 0 {
            Step::Done(Ok(Some(reply.entry())))
        } else if reply.errno == ENOENT {
            Step::Done(Ok(None))
        } else if reply.errno != ERANGE {
            Step::Done(Err(Error { errno: reply.errno }))
        } else if self.tries + 1 < MAX_TRIES {
            Step::Call(
                EnumValueRead {
                    name_cap: reply.name_len,
                    data_cap: reply.data_len,
                    tries: (self.tries + 1) as u8,
                },
            )
        } else {
            Step::Done(Err(Error { errno: ERANGE }))
        }
    }

    open spec fn budget(self) -> nat {
        (MAX_TRIES - self.tries) as nat
    }

    proof fn step_spends(self, reply: EnumValueReplyModel) {
    }

    /// Take the reply to the call that this state describes. Past the last
    /// entry (`ENOENT`) the outcome is `Ok(None)`.
    fn reply(self, reply: EnumValueReply) -> (next: Step<EnumValueRead, Option<EnumValue>>)
    {
        if reply.ret == 0 {
            let name = truncate(reply.name, reply.name_len as usize);
            let data = truncate(reply.data, reply.data_len as usize);
            Step::Done(Ok(Some(EnumValue { name, ty: ValueType(reply.ty), data })))
        } else if reply.errno == ENOENT {
            Step::Done(Ok(None))
        } else if reply.errno != ERANGE {
            Step::Done(Err(Error { errno: reply.errno }))
        } else if self.tries + 1 < MAX_TRIES {
            Step::Call(
                EnumValueRead {
                    name_cap: reply.name_len,
                    data_cap: reply.data_len,
                    tries: self.tries + 1,
                },
            )
        } else {
            Step::Done(Err(Error { errno: ERANGE }))
        }
    }
}

/// The entry of an enumeration step, as values.
pub open spec fn entry_model(v: Option<EnumValue>) -> Option<RecordModel> {
    match v {
        Some(e) => Some(e@),
        None => None,
    }
}

impl EnumValueRead {
    /// Where the read of an entry starts.
    pub open spec fn start() -> EnumValueRead {
        EnumValueRead { name_cap: 0, data_cap: 0, tries: 0 }
    }

    /// Begin the read of an entry: the first call has empty windows.
    pub fn new() -> (s: EnumValueRead)
        ensures
            s == EnumValueRead::start(),
            s.inv(),
            s.budget() == 4,
    {
        EnumValueRead { name_cap: 0, data_cap: 0, tries: 0 }
    }
}

/// The read of an entry makes at most four calls. It yields the entry of a reply
/// that succeeded, or nothing where a call said that there is no such entry; it
/// fails with the errno of a failed call, and never with `ENOENT`.
pub proof fn law_enum_value_outcome(replies: Seq<EnumValueReplyModel>)
    ensures
        replies.len() >= 4 ==> crate::exchange::run(EnumValueRead::start(), replies) is Some,
        crate::exchange::run(EnumValueRead::start(), replies) matches Some(Ok(Some(v)))
            ==> exists|i: int|
            0 <= i < replies.len() && (#[trigger] replies[i]).ret == 0 && v == replies[i].entry(),
        crate::exchange::run(EnumValueRead::start(), replies) matches Some(Ok(None))
            ==> exists|i: int|
            0 <= i < replies.len() && (#[trigger] replies[i]).ret != 0 && replies[i].errno
                == ENOENT,
        crate::exchange::run(EnumValueRead::start(), replies) matches Some(Err(e)) ==> e.errno
            != ENOENT && exists|i: int|
            0 <= i < replies.len() && (#[trigger] replies[i]).ret != 0 && e.errno
                == replies[i].errno,
{
    if replies.len() >= 4 {
        crate::exchange::law_exchange_ends(EnumValueRead::start(), replies);
    }
    if crate::exchange::run(EnumValueRead::start(), replies) is Some {
        let (i, last) = crate::exchange::law_outcome_of_last_reply(
            EnumValueRead::start(),
            replies,
        );
        assert(replies[i] == replies[i]);
    }
}

/// A value entry read gives up exactly when four calls in a row found a window too
/// small.
pub proof fn law_enum_value_gives_up(replies: Seq<EnumValueReplyModel>)
    ensures
        (crate::exchange::run(EnumValueRead::start(), replies) matches Some(Err(e)) && e.errno == ERANGE)
            <==> replies.len() >= 4 && forall|i: int|
            0 <= i < 4 ==> (#[trigger] replies[i]).ret != 0 && replies[i].errno == ERANGE,
{
    reveal_with_fuel(crate::exchange::run, 5);
    crate::exchange::lemma_leading_replies(replies);
}

/// Where the entry does not change between two calls, two calls are enough: the
/// second gets windows of the lengths that the first reported, and what it
/// writes into them is the entry, whole.
pub proof fn law_enum_value_settled(short: EnumValueReplyModel, full: EnumValueReplyModel)
    requires
        short.ret != 0,
        short.errno == ERANGE,
        full.ret == 0,
        full.name_len == short.name_len,
        full.data_len == short.data_len,
        full.name.len() == short.name_len,
        full.data.len() == short.data_len,
    ensures
        EnumValueRead::start().step(short) == Step::<EnumValueRead, Option<RecordModel>>::Call(
            EnumValueRead { name_cap: short.name_len, data_cap: short.data_len, tries: 1 },
        ),
        crate::exchange::run(EnumValueRead::start(), seq![short, full]) == Some(
            Ok::<Option<RecordModel>, Error>(
                Some(RecordModel { name: full.name, ty: ValueType(full.ty), data: full.data }),
            ),
        ),
{
    reveal_with_fuel(crate::exchange::run, 3);
    assert(seq![short, full].drop_first() =~= seq![full]);
}

// ---- one enumeration entry: a subkey ----------------------------------------

/// One child-key entry.
#[derive(Debug, Clone, PartialEq, Eq)]
pub struct Subkey {
    /// The child key's leaf name.
    pub name: Vec<u8>,
    /// The child's last-write time (ns since the Unix epoch).
    pub last_write_time: u64,
    /// The child's subkey count.
    pub subkey_count: u32,
    /// The child's value count.
    pub value_count: u32,
}

/// A [`Subkey`] as values.
pub struct SubkeyModel {
    /// The child key's leaf name.
    pub name: Seq<u8>,
    /// The child's last-write time.
    pub last_write_time: u64,
    /// The child's subkey count.
    pub subkey_count: u32,
    /// The child's value count.
    pub value_count: u32,
}

impl View for Subkey {
    type V = SubkeyModel;

    open spec fn view(&self) -> SubkeyModel {
        SubkeyModel {
            name: self.name@,
            last_write_time: self.last_write_time,
            subkey_count: self.subkey_count,
            value_count: self.value_count,
        }
    }
}

/// The next call of a read of one child-key entry.
#[derive(Debug, Clone, Copy, PartialEq, Eq, Structural)]
pub struct SubkeyRead {
    /// The capacity of the name window.
    pub name_cap: u32,
    /// The calls made so far.
    pub tries: u8,
}

/// The reply to a call of a child-key read.
#[derive(Debug)]
pub struct SubkeyReply {
    /// What the call returned.
    pub ret: i32,
    /// The errno, where `ret` is not `0`.
    pub errno: i32,
    /// The reported length of the name.
    pub name_len: u32,
    /// The reported last-write time.
    pub last_write_time: u64,
    /// The reported subkey count.
    pub subkey_count: u32,
    /// The reported value count.
    pub value_count: u32,
    /// The name window, as the call left it.
    pub name: Vec<u8>,
}

/// A [`SubkeyReply`] as values.
pub struct SubkeyReplyModel {
    /// What the call returned.
    pub ret: i32,
    /// The errno.
    pub errno: i32,
    /// The reported length of the name.
    pub name_len: u32,
    /// The reported last-write time.
    pub last_write_time: u64,
    /// The reported subkey count.
    pub subkey_count: u32,
    /// The reported value count.
    pub value_count: u32,
    /// The name window.
    pub name: Seq<u8>,
}

impl View for SubkeyReply {
    type V = SubkeyReplyModel;

    open spec fn view(&self) -> SubkeyReplyModel {
        SubkeyReplyModel {
            ret: self.ret,
            errno: self.errno,
            name_len: self.name_len,
            last_write_time: self.last_write_time,
            subkey_count: self.subkey_count,
            value_count: self.value_count,
            name: self.name@,
        }
    }
}

impl SubkeyReplyModel {
    /// The entry that a successful reply carries.
    pub open spec fn entry(self) -> SubkeyModel {
        SubkeyModel {
            name: crate::util::truncated(self.name, self.name_len as int),
            last_write_time: self.last_write_time,
            subkey_count: self.subkey_count,
            value_count: self.value_count,
        }
    }
}

impl Exchange for SubkeyRead {
    type Reply = SubkeyReply;

    type ReplyModel = SubkeyReplyModel;

    type Out = Option<Subkey>;

    type OutModel = Option<SubkeyModel>;

    open spec fn reply_model(reply: SubkeyReply) -> SubkeyReplyModel {
        reply@
    }

    open spec fn out_model(out: Option<Subkey>) -> Option<SubkeyModel> {
        subkey_model(out)
    }

    open spec fn inv(self) -> bool {
        self.tries < MAX_TRIES
    }

    open spec fn step(self, reply: SubkeyReplyModel) -> Step<SubkeyRead, Option<SubkeyModel>> {
        if reply.ret == 0 {
            Step::Done(Ok(Some(reply.entry())))
        } else if reply.errno == ENOENT {
            Step::Done(Ok(None))
        } else if reply.errno != ERANGE {
            Step::Done(Err(Error { errno: reply.errno }))
        } else if self.tries + 1 < MAX_TRIES {
            Step::Call(SubkeyRead { name_cap: reply.name_len, tries: (self.tries + 1) as u8 })
        } else {
            Step::Done(Err(Error { errno: ERANGE }))
        }
    }

    open spec fn budget(self) -> nat {
        (MAX_TRIES - self.tries) as nat
    }

    proof fn step_spends(self, reply: SubkeyReplyModel) {
    }

    /// Take the reply to the call that this state describes. Past the last
    /// child (`ENOENT`) the outcome is `Ok(None)`.
    fn reply(self, reply: SubkeyReply) -> (next: Step<SubkeyRead, Option<Subkey>>)
    {
        if reply.ret == 0 {
            let name = truncate(reply.name, reply.name_len as usize);
            Step::Done(
                Ok(
                    Some(
                        Subkey {
                            name,
                            last_write_time: reply.last_write_time,
                            subkey_count: reply.subkey_count,
                            value_count: reply.value_count,
                        },
                    ),
                ),
            )
        } else if reply.errno == ENOENT {
            Step::Done(Ok(None))
        } else if reply.errno != ERANGE {
            Step::Done(Err(Error { errno: reply.errno }))
        } else if self.tries + 1 < MAX_TRIES {
            Step::Call(SubkeyRead { name_cap: reply.name_len, tries: self.tries + 1 })
        } else {
            Step::Done(Err(Error { errno: ERANGE }))
        }
    }
}

/// The child of an enumeration step, as values.
pub open spec fn subkey_model(v: Option<Subkey>) -> Option<SubkeyModel> {
    match v {
        Some(s) => Some(s@),
        None => None,
    }
}

impl SubkeyRead {
    /// Where the read of a child entry starts.
    pub open spec fn start() -> SubkeyRead {
        SubkeyRead { name_cap: 0, tries: 0 }
    }

    /// Begin the read of a child entry: the first call has an empty window.
    pub fn new() -> (s: SubkeyRead)
        ensures
            s == SubkeyRead::start(),
            s.inv(),
            s.budget() == 4,
    {
        SubkeyRead { name_cap: 0, tries: 0 }
    }
}

/// The read of a child entry makes at most four calls. It yields the entry of a
/// reply that succeeded, or nothing where a call said that there is no such
/// child; it fails with the errno of a failed call, and never with `ENOENT`.
pub proof fn law_subkey_outcome(replies: Seq<SubkeyReplyModel>)
    ensures
        replies.len() >= 4 ==> crate::exchange::run(SubkeyRead::start(), replies) is Some,
        crate::exchange::run(SubkeyRead::start(), replies) matches Some(Ok(Some(v)))
            ==> exists|i: int|
            0 <= i < replies.len() && (#[trigger] replies[i]).ret == 0 && v == replies[i].entry(),
        crate::exchange::run(SubkeyRead::start(), replies) matches Some(Ok(None))
            ==> exists|i: int|
            0 <= i < replies.len() && (#[trigger] replies[i]).ret != 0 && replies[i].errno
                == ENOENT,
        crate::exchange::run(SubkeyRead::start(), replies) matches Some(Err(e)) ==> e.errno
            != ENOENT && exists|i: int|
            0 <= i < replies.len() && (#[trigger] replies[i]).ret != 0 && e.errno
                == replies[i].errno,
{
    if replies.len() >= 4 {
        crate::exchange::law_exchange_ends(SubkeyRead::start(), replies);
    }
    if crate::exchange::run(SubkeyRead::start(), replies) is Some {
        let (i, last) = crate::exchange::law_outcome_of_last_reply(SubkeyRead::start(), replies);
        assert(replies[i] == replies[i]);
    }
}

/// A child entry read gives up exactly when four calls in a row found a window too
/// small.
pub proof fn law_subkey_gives_up(replies: Seq<SubkeyReplyModel>)
    ensures
        (crate::exchange::run(SubkeyRead::start(), replies) matches Some(Err(e)) && e.errno == ERANGE)
            <==> replies.len() >= 4 && forall|i: int|
            0 <= i < 4 ==> (#[trigger] replies[i]).ret != 0 && replies[i].errno == ERANGE,
{
    reveal_with_fuel(crate::exchange::run, 5);
    crate::exchange::lemma_leading_replies(replies);
}

/// Where the entry does not change between two calls, two calls are enough: the
/// second gets a window of the length that the first reported, and what it
/// writes into it is the name, whole.
pub proof fn law_subkey_settled(short: SubkeyReplyModel, full: SubkeyReplyModel)
    requires
        short.ret != 0,
        short.errno == ERANGE,
        full.ret == 0,
        full.name_len == short.name_len,
        full.name.len() == short.name_len,
    ensures
        SubkeyRead::start().step(short) == Step::<SubkeyRead, Option<SubkeyModel>>::Call(
            SubkeyRead { name_cap: short.name_len, tries: 1 },
        ),
        crate::exchange::run(SubkeyRead::start(), seq![short, full]) == Some(
            Ok::<Option<SubkeyModel>, Error>(
                Some(
                    SubkeyModel {
                        name: full.name,
                        last_write_time: full.last_write_time,
                        subkey_count: full.subkey_count,
                        value_count: full.value_count,
                    },
                ),
            ),
        ),
{
    reveal_with_fuel(crate::exchange::run, 3);
    assert(seq![short, full].drop_first() =~= seq![full]);
}

// ---- a key's metadata -------------------------------------------------------

/// A key's name and metadata.
#[derive(Debug, Clone, PartialEq, Eq)]
pub struct KeyInfo {
    /// The key's leaf name.
    pub name: Vec<u8>,
    /// Last-write time (ns since the Unix epoch).
    pub last_write_time: u64,
    /// Per-hive change epoch.
    pub hive_generation: u64,
    /// Number of subkeys.
    pub subkey_count: u32,
    /// Number of values.
    pub value_count: u32,
    /// Longest subkey name length.
    pub max_subkey_name_len: u32,
    /// Longest value name length.
    pub max_value_name_len: u32,
    /// Largest value data size.
    pub max_value_data_size: u32,
    /// Security-descriptor size.
    pub sd_size: u32,
    /// Whether the key is volatile.
    pub volatile: bool,
    /// Whether the key is a symlink.
    pub symlink: bool,
}

/// The fixed-size part of a metadata reply, as the call reports it.
#[derive(Debug, Clone, Copy, PartialEq, Eq, Structural)]
pub struct KeyFacts {
    /// Last-write time.
    pub last_write_time: u64,
    /// Per-hive change epoch.
    pub hive_generation: u64,
    /// Number of subkeys.
    pub subkey_count: u32,
    /// Number of values.
    pub value_count: u32,
    /// Longest subkey name length.
    pub max_subkey_name_len: u32,
    /// Longest value name length.
    pub max_value_name_len: u32,
    /// Largest value data size.
    pub max_value_data_size: u32,
    /// Security-descriptor size.
    pub sd_size: u32,
    /// Not `0` for a volatile key.
    pub volatile_key: u32,
    /// Not `0` for a symlink.
    pub symlink: u32,
}

/// A [`KeyInfo`] as values.
pub struct KeyInfoModel {
    /// The key's leaf name.
    pub name: Seq<u8>,
    /// Last-write time.
    pub last_write_time: u64,
    /// Per-hive change epoch.
    pub hive_generation: u64,
    /// Number of subkeys.
    pub subkey_count: u32,
    /// Number of values.
    pub value_count: u32,
    /// Longest subkey name length.
    pub max_subkey_name_len: u32,
    /// Longest value name length.
    pub max_value_name_len: u32,
    /// Largest value data size.
    pub max_value_data_size: u32,
    /// Security-descriptor size.
    pub sd_size: u32,
    /// Whether the key is volatile.
    pub volatile: bool,
    /// Whether the key is a symlink.
    pub symlink: bool,
}

impl View for KeyInfo {
    type V = KeyInfoModel;

    open spec fn view(&self) -> KeyInfoModel {
        KeyInfoModel {
            name: self.name@,
            last_write_time: self.last_write_time,
            hive_generation: self.hive_generation,
            subkey_count: self.subkey_count,
            value_count: self.value_count,
            max_subkey_name_len: self.max_subkey_name_len,
            max_value_name_len: self.max_value_name_len,
            max_value_data_size: self.max_value_data_size,
            sd_size: self.sd_size,
            volatile: self.volatile,
            symlink: self.symlink,
        }
    }
}

/// The next call of a metadata read.
#[derive(Debug, Clone, Copy, PartialEq, Eq, Structural)]
pub struct InfoRead {
    /// The capacity of the name window.
    pub name_cap: u32,
    /// The calls made so far.
    pub tries: u8,
}

/// The reply to a call of a metadata read.
#[derive(Debug)]
pub struct InfoReply {
    /// What the call returned.
    pub ret: i32,
    /// The errno, where `ret` is not `0`.
    pub errno: i32,
    /// The reported length of the name.
    pub name_len: u32,
    /// The reported metadata.
    pub facts: KeyFacts,
    /// The name window, as the call left it.
    pub name: Vec<u8>,
}

/// An [`InfoReply`] as values.
pub struct InfoReplyModel {
    /// What the call returned.
    pub ret: i32,
    /// The errno.
    pub errno: i32,
    /// The reported length of the name.
    pub name_len: u32,
    /// The reported metadata.
    pub facts: KeyFacts,
    /// The name window.
    pub name: Seq<u8>,
}

impl View for InfoReply {
    type V = InfoReplyModel;

    open spec fn view(&self) -> InfoReplyModel {
        InfoReplyModel {
            ret: self.ret,
            errno: self.errno,
            name_len: self.name_len,
            facts: self.facts,
            name: self.name@,
        }
    }
}

impl InfoReplyModel {
    /// The metadata that a successful reply carries.
    pub open spec fn info(self) -> KeyInfoModel {
        KeyInfoModel {
            name: crate::util::truncated(self.name, self.name_len as int),
            last_write_time: self.facts.last_write_time,
            hive_generation: self.facts.hive_generation,
            subkey_count: self.facts.subkey_count,
            value_count: self.facts.value_count,
            max_subkey_name_len: self.facts.max_subkey_name_len,
            max_value_name_len: self.facts.max_value_name_len,
            max_value_data_size: self.facts.max_value_data_size,
            sd_size: self.facts.sd_size,
            volatile: self.facts.volatile_key != 0,
            symlink: self.facts.symlink != 0,
        }
    }
}

impl Exchange for InfoRead {
    type Reply = InfoReply;

    type ReplyModel = InfoReplyModel;

    type Out = KeyInfo;

    type OutModel = KeyInfoModel;

    open spec fn reply_model(reply: InfoReply) -> InfoReplyModel {
        reply@
    }

    open spec fn out_model(out: KeyInfo) -> KeyInfoModel {
        out@
    }

    open spec fn inv(self) -> bool {
        self.tries < MAX_TRIES
    }

    open spec fn step(self, reply: InfoReplyModel) -> Step<InfoRead, KeyInfoModel> {
        if reply.ret == 0 {
            Step::Done(Ok(reply.info()))
        } else if reply.errno != ERANGE {
            Step::Done(Err(Error { errno: reply.errno }))
        } else if self.tries + 1 < MAX_TRIES {
            Step::Call(InfoRead { name_cap: reply.name_len, tries: (self.tries + 1) as u8 })
        } else {
            Step::Done(Err(Error { errno: ERANGE }))
        }
    }

    open spec fn budget(self) -> nat {
        (MAX_TRIES - self.tries) as nat
    }

    proof fn step_spends(self, reply: InfoReplyModel) {
    }

    /// Take the reply to the call that this state describes.
    fn reply(self, reply: InfoReply) -> (next: Step<InfoRead, KeyInfo>)
    {
        if reply.ret == 0 {
            let name = truncate(reply.name, reply.name_len as usize);
            let facts = reply.facts;
            Step::Done(
                Ok(
                    KeyInfo {
                        name,
                        last_write_time: facts.last_write_time,
                        hive_generation: facts.hive_generation,
                        subkey_count: facts.subkey_count,
                        value_count: facts.value_count,
                        max_subkey_name_len: facts.max_subkey_name_len,
                        max_value_name_len: facts.max_value_name_len,
                        max_value_data_size: facts.max_value_data_size,
                        sd_size: facts.sd_size,
                        volatile: facts.volatile_key != 0,
                        symlink: facts.symlink != 0,
                    },
                ),
            )
        } else if reply.errno != ERANGE {
            Step::Done(Err(Error { errno: reply.errno }))
        } else if self.tries + 1 < MAX_TRIES {
            Step::Call(InfoRead { name_cap: reply.name_len, tries: self.tries + 1 })
        } else {
            Step::Done(Err(Error { errno: ERANGE }))
        }
    }
}

impl InfoRead {
    /// Where a metadata read starts.
    pub open spec fn start() -> InfoRead {
        InfoRead { name_cap: 0, tries: 0 }
    }

    /// Begin a metadata read: the first call has an empty window.
    pub fn new() -> (s: InfoRead)
        ensures
            s == InfoRead::start(),
            s.inv(),
            s.budget() == 4,
    {
        InfoRead { name_cap: 0, tries: 0 }
    }
}

/// A metadata read makes at most four calls, and yields the metadata of a reply
/// that succeeded. It fails with the errno of a failed call.
pub proof fn law_info_read_outcome(replies: Seq<InfoReplyModel>)
    ensures
        replies.len() >= 4 ==> crate::exchange::run(InfoRead::start(), replies) is Some,
        crate::exchange::run(InfoRead::start(), replies) matches Some(Ok(v)) ==> exists|i: int|
            0 <= i < replies.len() && (#[trigger] replies[i]).ret == 0 && v == replies[i].info(),
        crate::exchange::run(InfoRead::start(), replies) matches Some(Err(e)) ==> exists|i: int|
            0 <= i < replies.len() && (#[trigger] replies[i]).ret != 0 && e.errno
                == replies[i].errno,
{
    if replies.len() >= 4 {
        crate::exchange::law_exchange_ends(InfoRead::start(), replies);
    }
    if crate::exchange::run(InfoRead::start(), replies) is Some {
        let (i, last) = crate::exchange::law_outcome_of_last_reply(InfoRead::start(), replies);
        assert(replies[i] == replies[i]);
    }
}

/// A metadata read gives up exactly when four calls in a row found a window too
/// small.
pub proof fn law_info_read_gives_up(replies: Seq<InfoReplyModel>)
    ensures
        (crate::exchange::run(InfoRead::start(), replies) matches Some(Err(e)) && e.errno == ERANGE)
            <==> replies.len() >= 4 && forall|i: int|
            0 <= i < 4 ==> (#[trigger] replies[i]).ret != 0 && replies[i].errno == ERANGE,
{
    reveal_with_fuel(crate::exchange::run, 5);
    crate::exchange::lemma_leading_replies(replies);
}

/// Where the key does not change between two calls, two calls are enough: the
/// second gets a window of the length that the first reported, and yields its
/// own facts with the name, whole.
pub proof fn law_info_read_settled(short: InfoReplyModel, full: InfoReplyModel)
    requires
        short.ret != 0,
        short.errno == ERANGE,
        full.ret == 0,
        full.name_len == short.name_len,
        full.name.len() == short.name_len,
    ensures
        InfoRead::start().step(short) == Step::<InfoRead, KeyInfoModel>::Call(
            InfoRead { name_cap: short.name_len, tries: 1 },
        ),
        crate::exchange::run(InfoRead::start(), seq![short, full]) == Some(
            Ok::<KeyInfoModel, Error>(full.info()),
        ),
        full.info().name == full.name,
{
    reveal_with_fuel(crate::exchange::run, 3);
    assert(seq![short, full].drop_first() =~= seq![full]);
}

// ---- a key's security descriptor --------------------------------------------

/// The next call of a descriptor read.
#[derive(Debug, Clone, Copy, PartialEq, Eq, Structural)]
pub struct SecurityRead {
    /// Whether the call asks for the size (no buffer) rather than fills one.
    pub sizing: bool,
    /// The capacity of the buffer; `0` while sizing.
    pub cap: u32,
    /// The fills made so far.
    pub fills: u8,
}

/// The reply to a call of a descriptor read.
#[derive(Debug)]
pub struct SecurityReply {
    /// What the call returned.
    pub ret: i32,
    /// The errno, where `ret` is not `0`.
    pub errno: i32,
    /// The reported length.
    pub len: u32,
    /// The buffer, as the call left it.
    pub buf: Vec<u8>,
}

/// A [`SecurityReply`] as values.
pub struct SecurityReplyModel {
    /// What the call returned.
    pub ret: i32,
    /// The errno.
    pub errno: i32,
    /// The reported length.
    pub len: u32,
    /// The buffer.
    pub buf: Seq<u8>,
}

impl View for SecurityReply {
    type V = SecurityReplyModel;

    open spec fn view(&self) -> SecurityReplyModel {
        SecurityReplyModel {
            ret: self.ret,
            errno: self.errno,
            len: self.len,
            buf: self.buf@,
        }
    }
}

impl Exchange for SecurityRead {
    type Reply = SecurityReply;

    type ReplyModel = SecurityReplyModel;

    type Out = SecurityDescriptor;

    type OutModel = Seq<u8>;

    open spec fn reply_model(reply: SecurityReply) -> SecurityReplyModel {
        reply@
    }

    open spec fn out_model(out: SecurityDescriptor) -> Seq<u8> {
        out@
    }

    open spec fn inv(self) -> bool {
        &&& self.fills < MAX_TRIES
        &&& self.sizing ==> self.fills == 0 && self.cap == 0
    }

    open spec fn step(self, reply: SecurityReplyModel) -> Step<SecurityRead, Seq<u8>> {
        if self.sizing {
            if reply.ret == 0 || reply.errno == ERANGE {
                Step::Call(SecurityRead { sizing: false, cap: reply.len, fills: 0 })
            } else {
                Step::Done(Err(Error { errno: reply.errno }))
            }
        } else if reply.ret == 0 {
            Step::Done(Ok(crate::util::truncated(reply.buf, reply.len as int)))
        } else if reply.errno != ERANGE {
            Step::Done(Err(Error { errno: reply.errno }))
        } else if self.fills + 1 < MAX_TRIES {
            Step::Call(
                SecurityRead { sizing: false, cap: reply.len, fills: (self.fills + 1) as u8 },
            )
        } else {
            Step::Done(Err(Error { errno: ERANGE }))
        }
    }

    open spec fn budget(self) -> nat {
        let fills = (MAX_TRIES - self.fills) as nat;
        if self.sizing {
            fills + 1
        } else {
            fills
        }
    }

    proof fn step_spends(self, reply: SecurityReplyModel) {
    }

    /// Take the reply to the call that this state describes. `ERANGE` is no
    /// failure of the sizing call: the size has been reported.
    fn reply(self, reply: SecurityReply) -> (next: Step<SecurityRead, SecurityDescriptor>)
    {
        if self.sizing {
            if reply.ret == 0 || reply.errno == ERANGE {
                Step::Call(SecurityRead { sizing: false, cap: reply.len, fills: 0 })
            } else {
                Step::Done(Err(Error { errno: reply.errno }))
            }
        } else if reply.ret == 0 {
            let buf = truncate(reply.buf, reply.len as usize);
            Step::Done(Ok(SecurityDescriptor::from_bytes(buf)))
        } else if reply.errno != ERANGE {
            Step::Done(Err(Error { errno: reply.errno }))
        } else if self.fills + 1 < MAX_TRIES {
            Step::Call(SecurityRead { sizing: false, cap: reply.len, fills: self.fills + 1 })
        } else {
            Step::Done(Err(Error { errno: ERANGE }))
        }
    }
}

impl SecurityRead {
    /// Where a descriptor read starts.
    pub open spec fn start() -> SecurityRead {
        SecurityRead { sizing: true, cap: 0, fills: 0 }
    }

    /// Begin a descriptor read: the first call asks for the size.
    pub fn new() -> (s: SecurityRead)
        ensures
            s == SecurityRead::start(),
            s.inv(),
            s.budget() == 5,
    {
        SecurityRead { sizing: true, cap: 0, fills: 0 }
    }
}

/// A descriptor read makes at most five calls, and yields the bytes that a fill
/// wrote. It fails with the errno of a failed call.
pub proof fn law_security_read_outcome(replies: Seq<SecurityReplyModel>)
    ensures
        replies.len() >= 5 ==> crate::exchange::run(SecurityRead::start(), replies) is Some,
        crate::exchange::run(SecurityRead::start(), replies) matches Some(Ok(v)) ==> exists|i: int|
            1 <= i < replies.len() && (#[trigger] replies[i]).ret == 0 && v
                == crate::util::truncated(replies[i].buf, replies[i].len as int),
        crate::exchange::run(SecurityRead::start(), replies) matches Some(Err(e)) ==> exists|
            i: int,
        |
            0 <= i < replies.len() && (#[trigger] replies[i]).ret != 0 && e.errno
                == replies[i].errno,
{
    if replies.len() >= 5 {
        crate::exchange::law_exchange_ends(SecurityRead::start(), replies);
    }
    if crate::exchange::run(SecurityRead::start(), replies) is Some {
        match SecurityRead::start().step(replies[0]) {
            Step::Done(_) => {},
            Step::Call(next) => {
                let (i, last) = crate::exchange::law_outcome_of_last_reply(
                    next,
                    replies.drop_first(),
                );
                assert(replies[i + 1] == replies.drop_first()[i]);
            },
        }
    }
}

/// Where the descriptor does not change between two calls, two calls are enough,
/// whether the sizing call succeeds or says `ERANGE`: the second gets a buffer of
/// the size that the first reported, and what it writes is the descriptor, whole.
pub proof fn law_security_read_settled(size: SecurityReplyModel, fill: SecurityReplyModel)
    requires
        size.ret == 0 || size.errno == ERANGE,
        fill.ret == 0,
        fill.len == size.len,
        fill.buf.len() == size.len,
    ensures
        SecurityRead::start().step(size) == Step::<SecurityRead, Seq<u8>>::Call(
            SecurityRead { sizing: false, cap: size.len, fills: 0 },
        ),
        crate::exchange::run(SecurityRead::start(), seq![size, fill]) == Some(
            Ok::<Seq<u8>, Error>(fill.buf),
        ),
{
    reveal_with_fuel(crate::exchange::run, 3);
    assert(seq![size, fill].drop_first() =~= seq![fill]);
}

/// A descriptor read gives up exactly when the size was reported and four fills
/// in a row found their buffer too small.
pub proof fn law_security_read_gives_up(replies: Seq<SecurityReplyModel>)
    ensures
        (crate::exchange::run(SecurityRead::start(), replies) matches Some(Err(e)) && e.errno
            == ERANGE) <==> replies.len() >= 5 && (replies[0].ret == 0 || replies[0].errno
            == ERANGE) && forall|i: int|
            1 <= i < 5 ==> (#[trigger] replies[i]).ret != 0 && replies[i].errno == ERANGE,
{
    reveal_with_fuel(crate::exchange::run, 6);
    crate::exchange::lemma_leading_replies(replies);
}

// ---- all values of a key ----------------------------------------------------

/// What `count` packed records in `buf` are, or `EINVAL` where `buf` does not
/// begin with so many.
pub open spec fn parsed(buf: Seq<u8>, count: nat) -> Result<Seq<RecordModel>> {
    if exists|rs: Seq<RecordModel>|
        rs.len() == count && #[trigger] crate::registry::records::begins_with_records(buf, rs) {
        Ok(
            choose|rs: Seq<RecordModel>|
                rs.len() == count && #[trigger] crate::registry::records::begins_with_records(
                    buf,
                    rs,
                ),
        )
    } else {
        Err(Error { errno: crate::error::EINVAL })
    }
}

/// The next call of a batch read.
#[derive(Debug, Clone, Copy, PartialEq, Eq, Structural)]
pub struct BatchRead {
    /// Whether the call asks for the size (no buffer) rather than fills one.
    pub sizing: bool,
    /// The capacity of the buffer; `0` while sizing.
    pub cap: u32,
}

/// The reply to a call of a batch read.
#[derive(Debug)]
pub struct BatchReply {
    /// What the call returned.
    pub ret: i32,
    /// The errno, where `ret` is not `0`.
    pub errno: i32,
    /// The reported length.
    pub len: u32,
    /// The reported number of records.
    pub count: u32,
    /// The buffer, as the call left it.
    pub buf: Vec<u8>,
}

/// A [`BatchReply`] as values.
pub struct BatchReplyModel {
    /// What the call returned.
    pub ret: i32,
    /// The errno.
    pub errno: i32,
    /// The reported length.
    pub len: u32,
    /// The reported number of records.
    pub count: u32,
    /// The buffer.
    pub buf: Seq<u8>,
}

impl View for BatchReply {
    type V = BatchReplyModel;

    open spec fn view(&self) -> BatchReplyModel {
        BatchReplyModel {
            ret: self.ret,
            errno: self.errno,
            len: self.len,
            count: self.count,
            buf: self.buf@,
        }
    }
}

impl Exchange for BatchRead {
    type Reply = BatchReply;

    type ReplyModel = BatchReplyModel;

    type Out = Vec<ValueRecord>;

    type OutModel = Seq<RecordModel>;

    open spec fn reply_model(reply: BatchReply) -> BatchReplyModel {
        reply@
    }

    open spec fn out_model(out: Vec<ValueRecord>) -> Seq<RecordModel> {
        crate::registry::records::record_models(out@)
    }

    open spec fn inv(self) -> bool {
        self.sizing ==> self.cap == 0
    }

    open spec fn step(self, reply: BatchReplyModel) -> Step<BatchRead, Seq<RecordModel>> {
        if self.sizing {
            if reply.ret == 0 || reply.errno == ERANGE {
                Step::Call(BatchRead { sizing: false, cap: reply.len })
            } else {
                Step::Done(Err(Error { errno: reply.errno }))
            }
        } else if reply.ret != 0 {
            Step::Done(Err(Error { errno: reply.errno }))
        } else {
            Step::Done(
                parsed(crate::util::truncated(reply.buf, reply.len as int), reply.count as nat),
            )
        }
    }

    open spec fn budget(self) -> nat {
        if self.sizing {
            2
        } else {
            1
        }
    }

    proof fn step_spends(self, reply: BatchReplyModel) {
    }

    /// Take the reply to the call that this state describes. The fill is not
    /// tried again: where it fails, with `ERANGE` too, the read fails.
    fn reply(self, reply: BatchReply) -> (next: Step<BatchRead, Vec<ValueRecord>>)
    {
        if self.sizing {
            if reply.ret == 0 || reply.errno == ERANGE {
                Step::Call(BatchRead { sizing: false, cap: reply.len })
            } else {
                Step::Done(Err(Error { errno: reply.errno }))
            }
        } else if reply.ret != 0 {
            Step::Done(Err(Error { errno: reply.errno }))
        } else {
            let buf = truncate(reply.buf, reply.len as usize);
            let records = parse_value_records(buf.as_slice(), reply.count as usize);
            proof {
                if records is Ok {
                    let found = crate::registry::records::record_models(records->Ok_0@);
                    assert(found.len() == reply.count);
                    let any = parsed(buf@, reply.count as nat)->Ok_0;
                    crate::registry::records::law_parse_is_unique(buf@, found, any);
                }
            }
            Step::Done(records)
        }
    }
}

impl BatchRead {
    /// Where a batch read starts.
    pub open spec fn start() -> BatchRead {
        BatchRead { sizing: true, cap: 0 }
    }

    /// Begin a batch read: the first call asks for the size.
    pub fn new() -> (s: BatchRead)
        ensures
            s == BatchRead::start(),
            s.inv(),
            s.budget() == 2,
    {
        BatchRead { sizing: true, cap: 0 }
    }
}

/// A batch read makes at most two calls. What it yields is what the second
/// call's records say, and packing those records gives the bytes of that call.
/// It fails with the errno of a failed call, or with `EINVAL` where the second
/// call's bytes do not begin with as many records as it reported.
pub proof fn law_batch_read_outcome(replies: Seq<BatchReplyModel>)
    ensures
        replies.len() >= 2 ==> crate::exchange::run(BatchRead::start(), replies) is Some,
        crate::exchange::run(BatchRead::start(), replies) matches Some(Ok(rs)) ==> replies.len()
            >= 2 && replies[1].ret == 0 && rs.len() == replies[1].count
            && crate::registry::records::begins_with_records(
            crate::util::truncated(replies[1].buf, replies[1].len as int),
            rs,
        ),
        crate::exchange::run(BatchRead::start(), replies) matches Some(Err(e)) ==> {
            ||| replies[0].ret != 0 && e.errno == replies[0].errno && e.errno != ERANGE
            ||| replies.len() >= 2 && replies[1].ret != 0 && e.errno == replies[1].errno
            ||| replies.len() >= 2 && replies[1].ret == 0 && e.errno == crate::error::EINVAL
                && forall|rs: Seq<RecordModel>|
                rs.len() == replies[1].count
                    ==> !#[trigger] crate::registry::records::begins_with_records(
                    crate::util::truncated(replies[1].buf, replies[1].len as int),
                    rs,
                )
        },
{
    reveal_with_fuel(crate::exchange::run, 3);
    if replies.len() >= 2 {
        crate::exchange::law_exchange_ends(BatchRead::start(), replies);
        assert(replies.drop_first()[0] == replies[1]);
    }
}

/// Where the values do not change between two calls, a batch read gives back the
/// records that the second call packed, whether the sizing call succeeds or says
/// `ERANGE`: the second gets a buffer of the size that the first reported.
pub proof fn law_batch_read_settled(
    size: BatchReplyModel,
    fill: BatchReplyModel,
    rs: Seq<RecordModel>,
)
    requires
        forall|i: int|
            0 <= i < rs.len() ==> crate::registry::records::encodable(#[trigger] rs[i]),
        size.ret == 0 || size.errno == ERANGE,
        fill.ret == 0,
        fill.len == size.len,
        fill.buf.len() == size.len,
        fill.count == rs.len(),
        fill.buf == crate::registry::records::encode_records(rs),
    ensures
        BatchRead::start().step(size) == Step::<BatchRead, Seq<RecordModel>>::Call(
            BatchRead { sizing: false, cap: size.len },
        ),
        crate::exchange::run(BatchRead::start(), seq![size, fill]) == Some(
            Ok::<Seq<RecordModel>, Error>(rs),
        ),
{
    reveal_with_fuel(crate::exchange::run, 3);
    assert(seq![size, fill].drop_first() =~= seq![fill]);
    let none = Seq::<u8>::empty();
    assert(crate::registry::records::encode_records(rs) + none =~= fill.buf);
    crate::registry::records::law_parse_inverts_encode(rs, none, rs);
    let any = parsed(fill.buf, rs.len())->Ok_0;
    crate::registry::records::law_parse_is_unique(fill.buf, rs, any);
}

/// What follows each reply of a value read. A success ends it, and every reported
/// part is in its own field, data and layer name as the leading bytes of their own
/// windows. `ERANGE` makes each window as long as was reported for it; any other
/// failure ends the read with its errno.
pub proof fn law_value_read_follows_replies(s: ValueRead, reply: ValueReply, out: RegValue)
    ensures
        ({
            let next = s.step(<ValueRead as Exchange>::reply_model(reply));
            &&& reply.ret == 0 ==> next is Done && next->Done_0 is Ok
            &&& reply.ret != 0 && reply.errno == 34 && s.tries < 3 ==> (next matches Step::Call(q)
                && q.data_cap == reply.data_len && q.layer_cap == reply.layer_len && q.tries
                == s.tries + 1)
            &&& reply.ret != 0 && reply.errno == 34 && s.tries >= 3 ==> (next matches Step::Done(
                Err(e),
            ) && e.errno == 34)
            &&& reply.ret != 0 && reply.errno != 34 ==> (next matches Step::Done(Err(e))
                && e.errno == reply.errno)
        }),
        s.step(<ValueRead as Exchange>::reply_model(reply))
            == Step::<ValueRead, RegValueModel>::Done(
            Ok(<ValueRead as Exchange>::out_model(out)),
        ) ==> {
            &&& reply.ret == 0
            &&& out.sequence == reply.sequence
            &&& out.ty.0 == reply.ty
            &&& out.data@.len() == (if reply.data_len < reply.data@.len() {
                reply.data_len as nat
            } else {
                reply.data@.len()
            })
            &&& forall|i: int|
                0 <= i < out.data@.len() ==> #[trigger] out.data@[i] == reply.data@[i]
            &&& out.layer@.len() == (if reply.layer_len < reply.layer@.len() {
                reply.layer_len as nat
            } else {
                reply.layer@.len()
            })
            &&& forall|i: int|
                0 <= i < out.layer@.len() ==> #[trigger] out.layer@[i] == reply.layer@[i]
        },
{
}

/// What follows each reply of a value-entry read. A success ends it, and every
/// reported part is in its own field, name and data as the leading bytes of their
/// own windows. `ENOENT` ends it without an entry, `ERANGE` makes each window as
/// long as was reported for it; any other failure ends the read with its errno.
pub proof fn law_enum_value_follows_replies(s: EnumValueRead, reply: EnumValueReply, out: EnumValue)
    ensures
        ({
            let next = s.step(<EnumValueRead as Exchange>::reply_model(reply));
            &&& reply.ret == 0 ==> (next matches Step::Done(Ok(entry)) && entry is Some)
            &&& reply.ret != 0 && reply.errno == 2
                ==> (next matches Step::Done(Ok(entry)) && entry is None)
            &&& <EnumValueRead as Exchange>::out_model(None) is None
            &&& <EnumValueRead as Exchange>::out_model(Some(out)) is Some
            &&& reply.ret != 0 && reply.errno == 34 && s.tries < 3 ==> (next matches Step::Call(q)
                && q.name_cap == reply.name_len && q.data_cap == reply.data_len && q.tries
                == s.tries + 1)
            &&& reply.ret != 0 && reply.errno == 34 && s.tries >= 3 ==> (next matches Step::Done(
                Err(e),
            ) && e.errno == 34)
            &&& reply.ret != 0 && reply.errno != 34 && reply.errno != 2
                ==> (next matches Step::Done(Err(e)) && e.errno == reply.errno)
        }),
        s.step(<EnumValueRead as Exchange>::reply_model(reply))
            == Step::<EnumValueRead, Option<RecordModel>>::Done(
            Ok(<EnumValueRead as Exchange>::out_model(Some(out))),
        ) ==> {
            &&& reply.ret == 0
            &&& out.ty.0 == reply.ty
            &&& out.name@.len() == (if reply.name_len < reply.name@.len() {
                reply.name_len as nat
            } else {
                reply.name@.len()
            })
            &&& forall|i: int|
                0 <= i < out.name@.len() ==> #[trigger] out.name@[i] == reply.name@[i]
            &&& out.data@.len() == (if reply.data_len < reply.data@.len() {
                reply.data_len as nat
            } else {
                reply.data@.len()
            })
            &&& forall|i: int|
                0 <= i < out.data@.len() ==> #[trigger] out.data@[i] == reply.data@[i]
        },
{
}

/// What follows each reply of a subkey read. A success ends it, and every reported
/// part is in its own field, the name as the leading bytes of its window. `ENOENT`
/// ends it without an entry, `ERANGE` makes the window as long as was reported; any
/// other failure ends the read with its errno.
pub proof fn law_subkey_follows_replies(s: SubkeyRead, reply: SubkeyReply, out: Subkey)
    ensures
        ({
            let next = s.step(<SubkeyRead as Exchange>::reply_model(reply));
            &&& reply.ret == 0 ==> (next matches Step::Done(Ok(entry)) && entry is Some)
            &&& reply.ret != 0 && reply.errno == 2
                ==> (next matches Step::Done(Ok(entry)) && entry is None)
            &&& <SubkeyRead as Exchange>::out_model(None) is None
            &&& <SubkeyRead as Exchange>::out_model(Some(out)) is Some
            &&& reply.ret != 0 && reply.errno == 34 && s.tries < 3 ==> (next matches Step::Call(q)
                && q.name_cap == reply.name_len && q.tries == s.tries + 1)
            &&& reply.ret != 0 && reply.errno == 34 && s.tries >= 3 ==> (next matches Step::Done(
                Err(e),
            ) && e.errno == 34)
            &&& reply.ret != 0 && reply.errno != 34 && reply.errno != 2
                ==> (next matches Step::Done(Err(e)) && e.errno == reply.errno)
        }),
        s.step(<SubkeyRead as Exchange>::reply_model(reply))
            == Step::<SubkeyRead, Option<SubkeyModel>>::Done(
            Ok(<SubkeyRead as Exchange>::out_model(Some(out))),
        ) ==> {
            &&& reply.ret == 0
            &&& out.last_write_time == reply.last_write_time
            &&& out.subkey_count == reply.subkey_count
            &&& out.value_count == reply.value_count
            &&& out.name@.len() == (if reply.name_len < reply.name@.len() {
                reply.name_len as nat
            } else {
                reply.name@.len()
            })
            &&& forall|i: int|
                0 <= i < out.name@.len() ==> #[trigger] out.name@[i] == reply.name@[i]
        },
{
}

/// What follows each reply of a metadata read. A success ends it, and every reported
/// fact is in the field of its own name; the key is volatile, and a symlink, exactly
/// where that was not reported as `0`. `ERANGE` makes the window as long as was
/// reported; any other failure ends the read with its errno.
pub proof fn law_info_read_follows_replies(s: InfoRead, reply: InfoReply, out: KeyInfo)
    ensures
        ({
            let next = s.step(<InfoRead as Exchange>::reply_model(reply));
            &&& reply.ret == 0 ==> next is Done && next->Done_0 is Ok
            &&& reply.ret != 0 && reply.errno == 34 && s.tries < 3 ==> (next matches Step::Call(q)
                && q.name_cap == reply.name_len && q.tries == s.tries + 1)
            &&& reply.ret != 0 && reply.errno == 34 && s.tries >= 3 ==> (next matches Step::Done(
                Err(e),
            ) && e.errno == 34)
            &&& reply.ret != 0 && reply.errno != 34 ==> (next matches Step::Done(Err(e))
                && e.errno == reply.errno)
        }),
        s.step(<InfoRead as Exchange>::reply_model(reply)) == Step::<InfoRead, KeyInfoModel>::Done(
            Ok(<InfoRead as Exchange>::out_model(out)),
        ) ==> {
            &&& reply.ret == 0
            &&& out.last_write_time == reply.facts.last_write_time
            &&& out.hive_generation == reply.facts.hive_generation
            &&& out.subkey_count == reply.facts.subkey_count
            &&& out.value_count == reply.facts.value_count
            &&& out.max_subkey_name_len == reply.facts.max_subkey_name_len
            &&& out.max_value_name_len == reply.facts.max_value_name_len
            &&& out.max_value_data_size == reply.facts.max_value_data_size
            &&& out.sd_size == reply.facts.sd_size
            &&& out.volatile <==> reply.facts.volatile_key != 0
            &&& out.symlink <==> reply.facts.symlink != 0
            &&& out.name@.len() == (if reply.name_len < reply.name@.len() {
                reply.name_len as nat
            } else {
                reply.name@.len()
            })
            &&& forall|i: int|
                0 <= i < out.name@.len() ==> #[trigger] out.name@[i] == reply.name@[i]
        },
{
}

/// What follows each reply of a descriptor read. A sizing call that succeeds, or
/// says `ERANGE`, is followed by a fill of the reported size, and a fill that was
/// too small by one of the size it reported, four in all. A fill that succeeds
/// yields the leading bytes of its buffer, as many as it reported.
pub proof fn law_security_read_follows_replies(
    s: SecurityRead,
    reply: SecurityReply,
    out: SecurityDescriptor,
)
    ensures
        ({
            let next = s.step(<SecurityRead as Exchange>::reply_model(reply));
            &&& s.sizing && (reply.ret == 0 || reply.errno == 34) ==> (next matches Step::Call(q)
                && !q.sizing && q.cap == reply.len && q.fills == 0)
            &&& !s.sizing && reply.ret == 0 ==> next is Done && next->Done_0 is Ok
            &&& !s.sizing && reply.ret != 0 && reply.errno == 34 && s.fills < 3 ==> (
            next matches Step::Call(q) && !q.sizing && q.cap == reply.len && q.fills == s.fills + 1)
            &&& !s.sizing && reply.ret != 0 && reply.errno == 34 && s.fills >= 3 ==> (
            next matches Step::Done(Err(e)) && e.errno == 34)
            &&& reply.ret != 0 && reply.errno != 34 ==> (next matches Step::Done(Err(e)) && e.errno
                == reply.errno)
        }),
        s.step(<SecurityRead as Exchange>::reply_model(reply))
            == Step::<SecurityRead, Seq<u8>>::Done(
            Ok(<SecurityRead as Exchange>::out_model(out)),
        ) ==> {
            &&& reply.ret == 0 && !s.sizing
            &&& out@.len() == (if reply.len < reply.buf@.len() {
                reply.len as nat
            } else {
                reply.buf@.len()
            })
            &&& forall|i: int| 0 <= i < out@.len() ==> #[trigger] out@[i] == reply.buf@[i]
        },
{
}

/// What follows each reply of a batch read. A sizing call that succeeds, or says
/// `ERANGE`, is followed by one fill of the reported size; any other failure ends
/// the read with its errno. A fill that succeeds yields as many records as it
/// reported, which packed begin its buffer, cut to the reported length; where no
/// such records are, the read fails with `EINVAL`.
pub proof fn law_batch_read_follows_replies(s: BatchRead, reply: BatchReply, out: Vec<ValueRecord>)
    ensures
        ({
            let next = s.step(<BatchRead as Exchange>::reply_model(reply));
            let bytes = crate::util::truncated(reply.buf@, reply.len as int);
            &&& s.sizing && (reply.ret == 0 || reply.errno == 34) ==> (next matches Step::Call(q)
                && !q.sizing && q.cap == reply.len)
            &&& reply.ret != 0 && (!s.sizing || reply.errno != 34) ==> (next matches Step::Done(
                Err(e),
            ) && e.errno == reply.errno)
            &&& !s.sizing && reply.ret == 0 ==> next is Done
            &&& !s.sizing && reply.ret == 0 ==> (next matches Step::Done(Err(e)) ==> e.errno == 22
                && forall|rs: Seq<RecordModel>|
                rs.len() == reply.count
                    ==> !#[trigger] crate::registry::records::begins_with_records(bytes, rs))
            &&& next == Step::<BatchRead, Seq<RecordModel>>::Done(
                Ok(<BatchRead as Exchange>::out_model(out)),
            ) ==> {
                &&& !s.sizing && reply.ret == 0
                &&& out@.len() == reply.count
                &&& crate::registry::records::begins_with_records(
                    bytes,
                    Seq::new(
                        out@.len(),
                        |i: int|
                            RecordModel {
                                name: out@[i].name@,
                                ty: out@[i].ty,
                                data: out@[i].data@,
                            },
                    ),
                )
            }
        }),
{
    let models = Seq::new(
        out@.len(),
        |i: int| RecordModel { name: out@[i].name@, ty: out@[i].ty, data: out@[i].data@ },
    );
    assert(<BatchRead as Exchange>::out_model(out) =~= models);
}

/// Every read starts with empty windows or with a sizing call, and with nothing
/// tried.
pub proof fn law_reads_start_empty()
    ensures
        ValueRead::start().data_cap == 0,
        ValueRead::start().layer_cap == 0,
        ValueRead::start().tries == 0,
        EnumValueRead::start().name_cap == 0,
        EnumValueRead::start().data_cap == 0,
        EnumValueRead::start().tries == 0,
        SubkeyRead::start().name_cap == 0,
        SubkeyRead::start().tries == 0,
        InfoRead::start().name_cap == 0,
        InfoRead::start().tries == 0,
        SecurityRead::start().sizing,
        SecurityRead::start().cap == 0,
        SecurityRead::start().fills == 0,
        BatchRead::start().sizing,
        BatchRead::start().cap == 0,
{
}

} // verus!
