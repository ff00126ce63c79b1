//! The packed records of a batch read.
//!
//! A batch read returns the values of a key back to back, each as
//! `[name_len u32][name][type u32][data_len u32][data]` with little-endian
//! integers. [`parse_value_records`] takes them apart; its contract is stated
//! over [`encode_records`], the format itself.
use crate::error::{Error, Result, EINVAL};
use crate::registry::ValueType;
use vstd::prelude::*;
use vstd::slice::{slice_subrange, slice_to_vec};

verus! {

/// One record from a batch read.
#[derive(Debug, Clone, PartialEq, Eq)]
pub struct ValueRecord {
    /// The value name (empty = the key's default value).
    pub name: Vec<u8>,
    /// The value type.
    pub ty: ValueType,
    /// The value data.
    pub data: Vec<u8>,
}

/// A [`ValueRecord`] as values.
#[verifier::ext_equal]
pub struct RecordModel {
    /// The value name.
    pub name: Seq<u8>,
    /// The value type.
    pub ty: ValueType,
    /// The value data.
    pub data: Seq<u8>,
}

impl View for ValueRecord {
    type V = RecordModel;

    open spec fn view(&self) -> RecordModel {
        RecordModel { name: self.name@, ty: self.ty, data: self.data@ }
    }
}

/// The records of a vector, as values.
pub open spec fn record_models(v: Seq<ValueRecord>) -> Seq<RecordModel> {
    v.map_values(|r: ValueRecord| r@)
}

// ---- the format -------------------------------------------------------------

/// `n` as four little-endian bytes.
pub open spec fn le32(n: int) -> Seq<u8> {
    seq![
        (n % 256) as u8,
        ((n / 256) % 256) as u8,
        ((n / 65536) % 256) as u8,
        ((n / 16777216) % 256) as u8,
    ]
}

/// The number that four little-endian bytes stand for.
pub open spec fn from_le32(b: Seq<u8>) -> int {
    b[0] + 256 * b[1] + 65536 * b[2] + 16777216 * b[3]
}

/// Whether both lengths of a record fit their fields.
pub open spec fn encodable(r: RecordModel) -> bool {
    r.name.len() <= u32::MAX && r.data.len() <= u32::MAX
}

/// One record in the packed format.
pub open spec fn encode_record(r: RecordModel) -> Seq<u8> {
    le32(r.name.len() as int) + r.name + le32(r.ty.0 as int) + le32(r.data.len() as int) + r.data
}

/// Records in the packed format, back to back.
pub open spec fn encode_records(rs: Seq<RecordModel>) -> Seq<u8>
    decreases rs.len(),
{
    if rs.len() == 0 {
        Seq::empty()
    } else {
        encode_record(rs[0]) + encode_records(rs.drop_first())
    }
}

/// Whether `buf` begins with exactly the records `rs`.
pub open spec fn begins_with_records(buf: Seq<u8>, rs: Seq<RecordModel>) -> bool {
    &&& forall|i: int| 0 <= i < rs.len() ==> encodable(#[trigger] rs[i])
    &&& encode_records(rs).is_prefix_of(buf)
}

// ---- taking records apart ---------------------------------------------------

/// The record that `buf` begins with, and what follows it.
#[verifier::opaque]
spec fn split_record(buf: Seq<u8>) -> Option<(RecordModel, Seq<u8>)> {
    if buf.len() < 4 {
        None
    } else {
        let name_len = from_le32(buf);
        let named = buf.skip(4);
        if named.len() < name_len {
            None
        } else {
            let typed = named.skip(name_len);
            if typed.len() < 8 {
                None
            } else {
                let ty = ValueType(from_le32(typed) as u32);
                let data_len = from_le32(typed.skip(4));
                let rest = typed.skip(8);
                if rest.len() < data_len {
                    None
                } else {
                    Some(
                        (
                            RecordModel {
                                name: named.take(name_len),
                                ty,
                                data: rest.take(data_len),
                            },
                            rest.skip(data_len),
                        ),
                    )
                }
            }
        }
    }
}

/// The first `count` records of `buf`.
spec fn split_records(buf: Seq<u8>, count: nat) -> Option<Seq<RecordModel>>
    decreases count,
{
    if count == 0 {
        Some(Seq::empty())
    } else {
        match split_record(buf) {
            None => None,
            Some((r, rest)) => match split_records(rest, (count - 1) as nat) {
                None => None,
                Some(rs) => Some(seq![r] + rs),
            },
        }
    }
}

/// The four digits to base 256 of a number below 2^32.
proof fn lemma_digits(n: int, b0: int, b1: int, b2: int, b3: int)
    requires
        0 <= b0 < 256,
        0 <= b1 < 256,
        0 <= b2 < 256,
        0 <= b3 < 256,
        n == b0 + 256 * b1 + 65536 * b2 + 16777216 * b3,
    ensures
        n % 256 == b0,
        (n / 256) % 256 == b1,
        (n / 65536) % 256 == b2,
        (n / 16777216) % 256 == b3,
{
    assert(n / 256 == b1 + 256 * b2 + 65536 * b3);
    assert(n / 65536 == b2 + 256 * b3);
    assert(n / 16777216 == b3);
}

/// A number below 2^32 is the sum of its four digits to base 256.
proof fn lemma_digits_sum(n: int)
    requires
        0 <= n <= u32::MAX,
    ensures
        n == n % 256 + 256 * ((n / 256) % 256) + 65536 * ((n / 65536) % 256) + 16777216 * ((n
            / 16777216) % 256),
{
    let q1 = n / 256;
    let q2 = q1 / 256;
    let q3 = q2 / 256;
    assert(q2 == n / 65536);
    assert(q3 == n / 16777216);
    assert(q3 < 256);
}

/// Four little-endian bytes give a number back, and a number its four bytes.
proof fn lemma_le32(n: int, b: Seq<u8>)
    ensures
        0 <= n <= u32::MAX ==> from_le32(le32(n)) == n,
        b.len() >= 4 ==> 0 <= from_le32(b) <= u32::MAX,
        b.len() >= 4 ==> le32(from_le32(b)) == b.take(4),
{
    if 0 <= n <= u32::MAX {
        lemma_digits_sum(n);
    }
    if b.len() >= 4 {
        lemma_digits(from_le32(b), b[0] as int, b[1] as int, b[2] as int, b[3] as int);
        assert(le32(from_le32(b)) =~= b.take(4));
    }
}

/// Only the first four bytes matter to [`from_le32`].
proof fn lemma_from_le32_prefix(n: int, rest: Seq<u8>)
    requires
        0 <= n <= u32::MAX,
    ensures
        from_le32(le32(n) + rest) == n,
{
    lemma_le32(n, Seq::empty());
    let b = le32(n) + rest;
    assert(b[0] == le32(n)[0] && b[1] == le32(n)[1] && b[2] == le32(n)[2] && b[3] == le32(n)[3]);
}

/// Six pieces concatenated from the left are the same from the right.
proof fn lemma_concat(a: Seq<u8>, b: Seq<u8>, c: Seq<u8>, d: Seq<u8>, e: Seq<u8>, f: Seq<u8>)
    ensures
        a + b + c + d + e + f == a + (b + (c + (d + (e + f)))),
{
    assert(a + b + c + d + e + f =~= a + (b + (c + (d + (e + f)))));
}

/// Two pieces put together are cut apart again.
proof fn lemma_cut(a: Seq<u8>, b: Seq<u8>)
    ensures
        (a + b).take(a.len() as int) == a,
        (a + b).skip(a.len() as int) == b,
{
    assert((a + b).take(a.len() as int) =~= a);
    assert((a + b).skip(a.len() as int) =~= b);
}

/// A record put before `rest` is split off again.
proof fn lemma_split_encoded(r: RecordModel, rest: Seq<u8>)
    requires
        encodable(r),
    ensures
        split_record(encode_record(r) + rest) == Some((r, rest)),
{
    let name_len = r.name.len() as int;
    let data_len = r.data.len() as int;
    let ty = r.ty.0 as int;
    let after_data = r.data + rest;
    let after_ty = le32(data_len) + after_data;
    let after_name = le32(ty) + after_ty;
    let after_len = r.name + after_name;
    let buf = encode_record(r) + rest;
    assert(buf == le32(name_len) + after_len) by {
        lemma_concat(le32(name_len), r.name, le32(ty), le32(data_len), r.data, rest);
    }
    assert(from_le32(buf) == name_len && buf.skip(4) == after_len) by {
        lemma_from_le32_prefix(name_len, after_len);
        lemma_cut(le32(name_len), after_len);
    }
    assert(after_len.take(name_len) == r.name && after_len.skip(name_len) == after_name) by {
        lemma_cut(r.name, after_name);
    }
    assert(from_le32(after_name) == ty && after_name.skip(4) == after_ty) by {
        lemma_from_le32_prefix(ty, after_ty);
        lemma_cut(le32(ty), after_ty);
    }
    assert(from_le32(after_ty) == data_len && after_ty.skip(4) == after_data) by {
        lemma_from_le32_prefix(data_len, after_data);
        lemma_cut(le32(data_len), after_data);
    }
    assert(after_name.skip(8) == after_data) by {
        assert(after_name.skip(8) =~= after_name.skip(4).skip(4));
    }
    assert(after_data.take(data_len) == r.data && after_data.skip(data_len) == rest) by {
        lemma_cut(r.data, rest);
    }
    reveal(split_record);
}

/// A record that was split off stands at the front of the buffer.
proof fn lemma_split_is_encoded(buf: Seq<u8>)
    requires
        split_record(buf) is Some,
    ensures
        split_record(buf) matches Some((r, rest)) && encodable(r) && buf == encode_record(r) + rest,
{
    reveal(split_record);
    let (r, rest) = split_record(buf)->0;
    let name_len = from_le32(buf);
    let named = buf.skip(4);
    let typed = named.skip(name_len);
    let ty = from_le32(typed);
    let sized = typed.skip(4);
    let data_len = from_le32(sized);
    let body = typed.skip(8);
    lemma_le32(name_len, buf);
    lemma_le32(ty, typed);
    lemma_le32(data_len, sized);
    assert(buf == le32(name_len) + named) by {
        assert(buf =~= buf.take(4) + named);
    }
    assert(named == r.name + typed) by {
        assert(named =~= named.take(name_len) + typed);
    }
    assert(typed == le32(ty) + sized) by {
        assert(typed =~= typed.take(4) + sized);
    }
    assert(sized == le32(data_len) + body) by {
        assert(sized =~= sized.take(4) + body);
    }
    assert(body == r.data + rest) by {
        assert(body =~= body.take(data_len) + rest);
    }
    lemma_concat(le32(name_len), r.name, le32(ty), le32(data_len), r.data, rest);
}

/// Records found by splitting stand at the front of the buffer.
proof fn lemma_split_sound(buf: Seq<u8>, rs: Seq<RecordModel>)
    requires
        split_records(buf, rs.len()) == Some(rs),
    ensures
        begins_with_records(buf, rs),
    decreases rs.len(),
{
    if rs.len() == 0 {
        assert(encode_records(rs) =~= Seq::<u8>::empty());
    } else {
        lemma_split_is_encoded(buf);
        let (r, rest) = split_record(buf)->0;
        let tail = split_records(rest, (rs.len() - 1) as nat)->0;
        lemma_split_records_len(rest, (rs.len() - 1) as nat);
        assert(rs == seq![r] + tail);
        assert(rs[0] == r);
        assert(rs.drop_first() =~= tail);
        lemma_split_sound(rest, tail);
        assert forall|i: int| 0 <= i < rs.len() implies encodable(#[trigger] rs[i]) by {
            if i > 0 {
                assert(rs[i] == tail[i - 1]);
            }
        }
        lemma_prefix_concat(encode_record(r), encode_records(tail), rest);
    }
}

/// Records at the front of the buffer are found by splitting.
proof fn lemma_split_complete(buf: Seq<u8>, rs: Seq<RecordModel>)
    requires
        begins_with_records(buf, rs),
    ensures
        split_records(buf, rs.len()) == Some(rs),
    decreases rs.len(),
{
    if rs.len() == 0 {
        assert(rs =~= Seq::empty());
    } else {
        let tail = rs.drop_first();
        let head = encode_record(rs[0]);
        let packed = encode_records(tail);
        let rest = buf.skip(head.len() as int);
        lemma_prefix_split(head, packed, buf);
        lemma_split_encoded(rs[0], rest);
        assert forall|i: int| 0 <= i < tail.len() implies encodable(#[trigger] tail[i]) by {
            assert(tail[i] == rs[i + 1]);
        }
        lemma_split_complete(rest, tail);
        assert(seq![rs[0]] + tail =~= rs);
    }
}

/// Splitting finds records exactly where the buffer begins with them.
proof fn lemma_split_records_iff(buf: Seq<u8>, rs: Seq<RecordModel>)
    ensures
        split_records(buf, rs.len()) == Some(rs) <==> begins_with_records(buf, rs),
{
    if split_records(buf, rs.len()) == Some(rs) {
        lemma_split_sound(buf, rs);
    }
    if begins_with_records(buf, rs) {
        lemma_split_complete(buf, rs);
    }
}

proof fn lemma_prefix_split(a: Seq<u8>, b: Seq<u8>, buf: Seq<u8>)
    requires
        (a + b).is_prefix_of(buf),
    ensures
        buf == a + buf.skip(a.len() as int),
        b.is_prefix_of(buf.skip(a.len() as int)),
{
    let rest = buf.skip(a.len() as int);
    assert forall|i: int| 0 <= i < a.len() implies a[i] == buf[i] by {
        assert((a + b)[i] == a[i]);
    }
    assert(buf =~= a + rest);
    assert forall|i: int| 0 <= i < b.len() implies b[i] == rest[i] by {
        assert((a + b)[a.len() + i] == b[i]);
    }
    assert(b =~= rest.take(b.len() as int));
}

proof fn lemma_prefix_concat(a: Seq<u8>, b: Seq<u8>, c: Seq<u8>)
    requires
        b.is_prefix_of(c),
    ensures
        (a + b).is_prefix_of(a + c),
{
    let whole = a + c;
    let cut = a + b;
    assert forall|i: int| 0 <= i < cut.len() implies cut[i] == whole[i] by {
        if i >= a.len() {
            assert(b[i - a.len()] == c[i - a.len()]);
        }
    }
    assert(cut =~= whole.take(cut.len() as int));
}

/// How many records splitting finds.
proof fn lemma_split_records_len(buf: Seq<u8>, count: nat)
    ensures
        split_records(buf, count) matches Some(rs) ==> rs.len() == count,
    decreases count,
{
    if count > 0 {
        match split_record(buf) {
            None => {},
            Some((r, rest)) => lemma_split_records_len(rest, (count - 1) as nat),
        }
    }
}

// ---- the parser -------------------------------------------------------------

/// The little-endian integer at `pos` and the position behind it, or `EINVAL`
/// past the end.
fn read_u32(buf: &[u8], pos: usize) -> (r: Result<(u32, usize)>)
    requires
        pos <= buf@.len(),
    ensures
        match r {
            Ok((n, end)) => end == pos + 4 && end <= buf@.len() && n == from_le32(
                buf@.skip(pos as int),
            ),
            Err(e) => buf@.len() - pos < 4 && e.errno == EINVAL,
        },
{
    if buf.len() - pos < 4 {
        return Err(Error { errno: EINVAL });
    }
    let b0: u32 = buf[pos] as u32;
    let b1: u32 = buf[pos + 1] as u32;
    let b2: u32 = buf[pos + 2] as u32;
    let b3: u32 = buf[pos + 3] as u32;
    Ok((b0 + 256 * b1 + 65536 * b2 + 16777216 * b3, pos + 4))
}

/// The `len` bytes at `pos` and the position behind them, or `EINVAL` past the
/// end.
fn read_bytes(buf: &[u8], pos: usize, len: u32) -> (r: Result<(Vec<u8>, usize)>)
    requires
        pos <= buf@.len(),
    ensures
        match r {
            Ok((v, end)) => end == pos + len && end <= buf@.len() && v@ == buf@.skip(
                pos as int,
            ).take(len as int),
            Err(e) => buf@.len() - pos < len && e.errno == EINVAL,
        },
{
    if ((buf.len() - pos) as u64) < len as u64 {
        return Err(Error { errno: EINVAL });
    }
    let end: usize = pos + len as usize;
    let v = slice_to_vec(slice_subrange(buf, pos, end));
    assert(v@ =~= buf@.skip(pos as int).take(len as int));
    Ok((v, end))
}

/// The record at `pos` and the position behind it.
fn read_record(buf: &[u8], pos: usize) -> (r: Result<(ValueRecord, usize)>)
    requires
        pos <= buf@.len(),
    ensures
        match r {
            Ok((rec, end)) => pos <= end <= buf@.len() && split_record(buf@.skip(pos as int))
                == Some((rec@, buf@.skip(end as int))),
            Err(e) => e.errno == EINVAL && split_record(buf@.skip(pos as int)) is None,
        },
{
    proof {
        reveal(split_record);
    }
    let ghost here = buf@.skip(pos as int);
    let (name_len, name_pos): (u32, usize) = match read_u32(buf, pos) {
        Ok(found) => found,
        Err(e) => return Err(e),
    };
    assert(here.skip(4) =~= buf@.skip(name_pos as int));
    let (name, ty_pos): (Vec<u8>, usize) = match read_bytes(buf, name_pos, name_len) {
        Ok(found) => found,
        Err(e) => return Err(e),
    };
    let ghost typed = buf@.skip(ty_pos as int);
    assert(here.skip(4).skip(name_len as int) =~= typed);
    let (ty, len_pos): (u32, usize) = match read_u32(buf, ty_pos) {
        Ok(found) => found,
        Err(e) => return Err(e),
    };
    assert(typed.skip(4) =~= buf@.skip(len_pos as int));
    let (data_len, data_pos): (u32, usize) = match read_u32(buf, len_pos) {
        Ok(found) => found,
        Err(e) => return Err(e),
    };
    assert(typed.skip(8) =~= buf@.skip(data_pos as int));
    let (data, end): (Vec<u8>, usize) = match read_bytes(buf, data_pos, data_len) {
        Ok(found) => found,
        Err(e) => return Err(e),
    };
    assert(typed.skip(8).skip(data_len as int) =~= buf@.skip(end as int));
    Ok((ValueRecord { name, ty: ValueType(ty), data }, end))
}

/// Parse `count` packed records from `buf`.
///
/// The result is the one sequence of `count` records that `buf` begins with;
/// bytes behind them are not looked at. Where `buf` begins with no `count`
/// records, because it is cut short anywhere, the error is `EINVAL`.
pub fn parse_value_records(buf: &[u8], count: usize) -> (r: Result<Vec<ValueRecord>>)
    ensures
        match r {
            Ok(v) => v@.len() == count && begins_with_records(buf@, record_models(v@)),
            Err(e) => e.errno == EINVAL && forall|rs: Seq<RecordModel>|
                rs.len() == count ==> !#[trigger] begins_with_records(buf@, rs),
        },
{
    let mut out: Vec<ValueRecord> = Vec::new();
    let mut pos: usize = 0;
    let mut done: usize = 0;
    assert(buf@.skip(0) =~= buf@);
    while done < count
        invariant
            done <= count,
            pos <= buf@.len(),
            out@.len() == done,
            split_records(buf@, count as nat) == match split_records(
                buf@.skip(pos as int),
                (count - done) as nat,
            ) {
                Some(rs) => Some(record_models(out@) + rs),
                None => None,
            },
        decreases count - done,
    {
        match read_record(buf, pos) {
            Ok((rec, end)) => {
                let ghost before = record_models(out@);
                out.push(rec);
                proof {
                    let after = record_models(out@);
                    assert(after =~= before.push(rec@));
                    match split_records(buf@.skip(end as int), (count - done - 1) as nat) {
                        Some(rs) => {
                            assert(before + (seq![rec@] + rs) =~= after + rs);
                        },
                        None => {},
                    }
                }
                pos = end;
                done = done + 1;
            },
            Err(e) => {
                proof {
                    assert forall|rs: Seq<RecordModel>|
                        rs.len() == count implies !#[trigger] begins_with_records(buf@, rs) by {
                        lemma_split_records_iff(buf@, rs);
                    }
                }
                return Err(e);
            },
        }
    }
    proof {
        assert(record_models(out@) + Seq::<RecordModel>::empty() =~= record_models(out@));
        lemma_split_records_iff(buf@, record_models(out@));
    }
    Ok(out)
}

/// What a batch read packs, parsing gives back: the same records in the same
/// order, whatever bytes follow, and no other records fit.
pub proof fn law_parse_inverts_encode(
    rs: Seq<RecordModel>,
    trailing: Seq<u8>,
    parsed: Seq<RecordModel>,
)
    requires
        forall|i: int| 0 <= i < rs.len() ==> encodable(#[trigger] rs[i]),
        parsed.len() == rs.len(),
    ensures
        begins_with_records(encode_records(rs) + trailing, parsed) <==> parsed == rs,
{
    let buf = encode_records(rs) + trailing;
    assert(encode_records(rs) =~= buf.take(encode_records(rs).len() as int));
    assert(begins_with_records(buf, rs));
    lemma_split_records_iff(buf, rs);
    lemma_split_records_iff(buf, parsed);
}

/// A buffer begins with at most one sequence of `count` records, so parsing has
/// one answer.
pub proof fn law_parse_is_unique(buf: Seq<u8>, a: Seq<RecordModel>, b: Seq<RecordModel>)
    requires
        a.len() == b.len(),
        begins_with_records(buf, a),
        begins_with_records(buf, b),
    ensures
        a == b,
{
    lemma_split_records_iff(buf, a);
    lemma_split_records_iff(buf, b);
}

/// A buffer cut short anywhere inside its records holds fewer of them: no
/// sequence of as many records fits, and parsing fails.
pub proof fn law_truncated_records_refused(rs: Seq<RecordModel>, cut: int, other: Seq<RecordModel>)
    requires
        forall|i: int| 0 <= i < rs.len() ==> encodable(#[trigger] rs[i]),
        0 <= cut < encode_records(rs).len(),
        other.len() == rs.len(),
    ensures
        !begins_with_records(encode_records(rs).take(cut), other),
{
    let whole = encode_records(rs);
    let part = whole.take(cut);
    if begins_with_records(part, other) {
        let e = encode_records(other);
        assert(e =~= whole.take(e.len() as int)) by {
            assert forall|i: int| 0 <= i < e.len() implies e[i] == whole[i] by {
                assert(e[i] == part[i]);
            }
        }
        assert(begins_with_records(whole, other));
        assert(whole =~= whole.take(whole.len() as int));
        assert(begins_with_records(whole, rs));
        law_parse_is_unique(whole, other, rs);
        assert(e.len() <= part.len());
    }
}

/// The layout of a record: the length of its name in four little-endian bytes,
/// the name, its type and the length of its data in four little-endian bytes each,
/// and the data.
pub proof fn law_record_layout(r: RecordModel)
    requires
        r.name.len() <= u32::MAX,
        r.data.len() <= u32::MAX,
    ensures
        ({
            let e = encode_record(r);
            let n = r.name.len() as int;
            &&& e.len() == 12 + n + r.data.len()
            &&& e[0] + 256 * e[1] + 65536 * e[2] + 16777216 * e[3] == n
            &&& e.subrange(4, 4 + n) == r.name
            &&& e[4 + n] + 256 * e[5 + n] + 65536 * e[6 + n] + 16777216 * e[7 + n] == r.ty.0
            &&& e[8 + n] + 256 * e[9 + n] + 65536 * e[10 + n] + 16777216 * e[11 + n]
                == r.data.len()
            &&& e.subrange(12 + n, e.len() as int) == r.data
        }),
{
    let e = encode_record(r);
    let n = r.name.len() as int;
    lemma_digits_sum(n);
    lemma_digits_sum(r.ty.0 as int);
    lemma_digits_sum(r.data.len() as int);
    assert(e.subrange(4, 4 + n) =~= r.name);
    assert(e.subrange(12 + n, e.len() as int) =~= r.data);
}

/// Records are packed back to back: none is nothing, one is its own bytes, and
/// records that follow others are packed behind them.
pub proof fn law_records_back_to_back(r: RecordModel, a: Seq<RecordModel>, b: Seq<RecordModel>)
    ensures
        encode_records(Seq::empty()).len() == 0,
        encode_records(seq![r]) == encode_record(r),
        encode_records(a + b) == encode_records(a) + encode_records(b),
    decreases a.len(),
{
    reveal_with_fuel(encode_records, 2);
    assert(seq![r].drop_first() =~= Seq::empty());
    assert(encode_records(seq![r]) =~= encode_record(r));
    if a.len() == 0 {
        assert(a + b =~= b);
        assert(encode_records(a) + encode_records(b) =~= encode_records(b));
    } else {
        let rest = a.drop_first();
        law_records_back_to_back(r, rest, b);
        assert((a + b).drop_first() =~= rest + b);
        assert((a + b)[0] == a[0]);
        assert(encode_record(a[0]) + (encode_records(rest) + encode_records(b)) =~= encode_records(
            a,
        ) + encode_records(b));
    }
}

/// A buffer begins with records exactly where their lengths fit their fields and
/// the buffer is the packed records with anything behind them.
pub proof fn law_begins_with_records(buf: Seq<u8>, rs: Seq<RecordModel>)
    ensures
        begins_with_records(buf, rs) <==> {
            &&& forall|i: int|
                0 <= i < rs.len() ==> (#[trigger] rs[i]).name.len() <= u32::MAX && rs[i].data.len()
                    <= u32::MAX
            &&& encode_records(rs).len() <= buf.len()
            &&& forall|i: int|
                0 <= i < encode_records(rs).len() ==> #[trigger] encode_records(rs)[i] == buf[i]
        },
{
    let e = encode_records(rs);
    if begins_with_records(buf, rs) {
        assert forall|i: int| 0 <= i < rs.len() implies (#[trigger] rs[i]).name.len() <= u32::MAX
            && rs[i].data.len() <= u32::MAX by {
            assert(encodable(rs[i]));
        }
        assert forall|i: int| 0 <= i < e.len() implies #[trigger] e[i] == buf[i] by {
            assert(e[i] == buf.subrange(0, e.len() as int)[i]);
        }
    }
    if e.len() <= buf.len() && forall|i: int| 0 <= i < e.len() ==> #[trigger] e[i] == buf[i] {
        assert(e =~= buf.subrange(0, e.len() as int));
    }
}

/// Records as values are one for one and in order, each part under its own name.
pub proof fn law_records_by_name(v: Seq<ValueRecord>)
    ensures
        record_models(v).len() == v.len(),
        forall|i: int|
            0 <= i < v.len() ==> {
                &&& (#[trigger] record_models(v)[i]).name == v[i].name@
                &&& record_models(v)[i].ty == v[i].ty
                &&& record_models(v)[i].data == v[i].data@
            },
{
}

/// Four bytes stand for a number with the lowest first, and a number of 32 bits is
/// four such bytes.
pub proof fn law_lowest_byte_first(n: u32, b: Seq<u8>)
    requires
        b.len() >= 4,
    ensures
        from_le32(b) == b[0] + 256 * b[1] + 65536 * b[2] + 16777216 * b[3],
        le32(n as int).len() == 4,
        ({
            let d = le32(n as int);
            d[0] + 256 * d[1] + 65536 * d[2] + 16777216 * d[3] == n
        }),
{
    lemma_digits_sum(n as int);
}

} // verus!
