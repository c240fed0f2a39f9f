//! The response classifier: given the bytes buffered so far and the
//! command that was sent, either a complete typed response together
//! with the exact number of bytes it occupied, a request for more
//! bytes, or a decode failure. [`decode_spec`] states the whole
//! behaviour; [`CommandResp::create`] computes it.
use crate::command::{Command, CommandV, Item, ItemView, Key, key_of_bytes};
use crate::error::{ErrV, MementoError};
use crate::kw::{
    kw_deleted, kw_end, kw_error, kw_exists, kw_not_found, kw_not_stored, kw_stat, kw_stored,
    kw_touched, kw_value, kw_version, lit_kw_deleted, lit_kw_end, lit_kw_error, lit_kw_exists,
    lit_kw_not_found, lit_kw_not_stored, lit_kw_stat, lit_kw_stored, lit_kw_touched, lit_kw_value,
    lit_kw_version,
};
use crate::stat::{Stat, StatV, stat_line_val};
use crate::wire::{bytes_eq, crlf_pos, dec_val, find_crlf, is_dec, lemma_find_crlf_bounds,
    parse_u64, split_ws, sub_vec, tokens_of};
use vstd::prelude::*;
use vstd::slice::slice_to_vec;

verus! {

/// Specification-level image of a [`CommandResp`], with byte vectors
/// seen as sequences.
pub ghost enum RespV {
    Stored,
    Error,
    NotStored,
    Exists,
    NotFound,
    NoResponse,
    Values(Seq<(Seq<u8>, ItemView)>),
    Value { key: Seq<u8>, item: ItemView },
    Stats(Seq<StatV>),
    Counter(u64),
    Deleted,
    Touched,
    Version(Seq<u8>),
}

/// The closed set of replies a server can send.
#[derive(Debug)]
pub enum CommandResp {
    /// The store succeeded.
    Stored,
    /// The server reported a protocol error.
    Error,
    /// The store was declined.
    NotStored,
    /// A compare-and-swap conflict.
    Exists,
    /// The key was not found, or a retrieval came back empty.
    NotFound,
    /// The connection closed before any byte of a response arrived.
    NoResponse,
    /// The key/item pairs of a multi-key retrieval, in server order.
    Values(Vec<(Key, Item)>),
    /// The single key/item pair of a single-key retrieval.
    Value { key: Key, item: Item },
    /// The statistics lines of a statistics reply, in server order.
    Stats(Vec<Stat>),
    /// The value of a counter after an increment or decrement.
    Counter(u64),
    /// The delete succeeded.
    Deleted,
    /// The touch succeeded.
    Touched,
    /// The server's version string.
    Version(Vec<u8>),
}

impl View for CommandResp {
    type V = RespV;

    open spec fn view(&self) -> RespV {
        match self {
            CommandResp::Stored => RespV::Stored,
            CommandResp::Error => RespV::Error,
            CommandResp::NotStored => RespV::NotStored,
            CommandResp::Exists => RespV::Exists,
            CommandResp::NotFound => RespV::NotFound,
            CommandResp::NoResponse => RespV::NoResponse,
            CommandResp::Values(vs) => RespV::Values(vs.deep_view()),
            CommandResp::Value { key, item } => RespV::Value { key: key@, item: item@ },
            CommandResp::Stats(ss) => RespV::Stats(ss.deep_view()),
            CommandResp::Counter(v) => RespV::Counter(*v),
            CommandResp::Deleted => RespV::Deleted,
            CommandResp::Touched => RespV::Touched,
            CommandResp::Version(v) => RespV::Version(v@),
        }
    }
}

impl Default for CommandResp {
    /// The reply that stands for "the server sent nothing".
    fn default() -> (r: CommandResp)
        ensures
            r@ == RespV::NoResponse,
    {
        CommandResp::NoResponse
    }
}

/// The complete CRLF-terminated lines of `s` up to and including the
/// first line that consists of the terminator `END` alone: the data
/// lines (terminator discarded) and the byte count of the whole block.
/// `None` while no terminator line is buffered yet.
pub open spec fn block_lines(s: Seq<u8>) -> Option<(Seq<Seq<u8>>, int)>
    decreases s.len(),
{
    let j = find_crlf(s);
    if j < 0 || j + 2 > s.len() {
        None
    } else {
        let line = s.take(j);
        let rest = s.skip(j + 2);
        if line == kw_end() {
            Some((Seq::empty(), j + 2))
        } else {
            match block_lines(rest) {
                None => None,
                Some((ls, c)) => Some((seq![line] + ls, j + 2 + c)),
            }
        }
    }
}

/// A complete block occupies at least its terminator line and at most
/// the whole buffer.
pub proof fn lemma_block_lines_bounds(s: Seq<u8>)
    ensures
        match block_lines(s) {
            Some((ls, c)) => 2 <= c <= s.len(),
            None => true,
        },
    decreases s.len(),
{
    let j = find_crlf(s);
    if !(j < 0 || j + 2 > s.len()) && s.take(j) != kw_end() {
        lemma_block_lines_bounds(s.skip(j + 2));
    }
}

/// Collect the lines of a reply block, per [`block_lines`].
fn take_block_lines(s: &[u8]) -> (r: Option<(Vec<Vec<u8>>, usize)>)
    ensures
        match r {
            Some(p) => block_lines(s@) == Some((p.0.deep_view(), p.1 as int)),
            None => block_lines(s@) is None,
        },
    decreases s@.len(),
{
    let n = s.len();
    let j = match crlf_pos(s) {
        Some(j) => j,
        None => {
            return None;
        },
    };
    proof {
        lemma_find_crlf_bounds(s@, 0);
    }
    let line = sub_vec(s, 0, j);
    proof {
        assert(line@ =~= s@.take(j as int));
    }
    if bytes_eq(line.as_slice(), lit_kw_end().as_slice()) {
        let empty: Vec<Vec<u8>> = Vec::new();
        proof {
            assert(empty.deep_view() =~= Seq::<Seq<u8>>::empty());
        }
        Some((empty, j + 2))
    } else {
        let rest = &s[j + 2..n];
        proof {
            assert(rest@ =~= s@.skip(j + 2));
        }
        match take_block_lines(rest) {
            None => None,
            Some((ls, c)) => {
                proof {
                    lemma_block_lines_bounds(rest@);
                }
                let mut ls = ls;
                let ghost pre = ls.deep_view();
                ls.insert(0, line);
                proof {
                    assert(ls.deep_view().skip(1) =~= pre);
                    assert(ls@[0] == line);
                    assert(line.deep_view() =~= line@);
                    assert(ls.deep_view()[0] == ls@[0].deep_view());
                    assert(ls.deep_view() =~= seq![s@.take(j as int)] + pre);
                }
                Some((ls, j + 2 + c))
            },
        }
    }
}

/// The key/item pairs read from the data lines of a retrieval block at
/// or after `i`: each pair is a `VALUE` header line, whose echoed key
/// [`key_of_bytes`] extracts, and the payload line that follows it. A
/// block that ends with an unpaired header is malformed.
pub open spec fn values_from(lines: Seq<Seq<u8>>, i: int) -> Result<Seq<(Seq<u8>, ItemView)>, ErrV>
    decreases lines.len() - i,
{
    if i < 0 || i >= lines.len() {
        Ok(Seq::empty())
    } else if i + 1 == lines.len() {
        Err(ErrV::InvalidItem(lines[i]))
    } else {
        match key_of_bytes(lines[i]) {
            Err(e) => Err(e),
            Ok(k) => match values_from(lines, i + 2) {
                Err(e) => Err(e),
                Ok(vs) => Ok(
                    seq![(k, ItemView { value: lines[i + 1], expires: None::<u64> })] + vs,
                ),
            },
        }
    }
}

/// The statistics read from the data lines of a statistics block at or
/// after `i`, in order; the first malformed line fails the decode.
pub open spec fn stats_from(lines: Seq<Seq<u8>>, i: int) -> Result<Seq<StatV>, ErrV>
    decreases lines.len() - i,
{
    if i < 0 || i >= lines.len() {
        Ok(Seq::empty())
    } else {
        match stat_line_val(lines[i]) {
            Err(e) => Err(e),
            Ok(st) => match stats_from(lines, i + 1) {
                Err(e) => Err(e),
                Ok(ss) => Ok(seq![st] + ss),
            },
        }
    }
}

/// What one decode attempt yields over a buffer and the command that
/// was sent.
pub ghost enum Decoded {
    /// No complete response is buffered yet; read more bytes.
    NeedMore,
    /// A complete response, and how many bytes of the buffer it
    /// occupied; the rest of the buffer belongs to no response.
    Done { resp: RespV, used: int },
    /// The buffered response is malformed.
    Fail(ErrV),
}

/// The whole behaviour of one decode attempt. The first token of the
/// first complete line classifies the response: the single-line replies
/// are complete at once; `VALUE` and `STAT` open blocks that are
/// complete only once an `END` line is buffered; a bare token answers
/// an increment or decrement as a counter value; anything else asks for
/// more bytes. A partial line is never interpreted.
pub open spec fn decode_spec(buf: Seq<u8>, cmd: CommandV) -> Decoded {
    let j = find_crlf(buf);
    if j < 0 {
        Decoded::NeedMore
    } else {
        let line0 = buf.take(j);
        let toks = tokens_of(line0);
        if toks.len() == 0 {
            Decoded::NeedMore
        } else {
            let t0 = toks[0];
            if t0 == kw_stored() {
                Decoded::Done { resp: RespV::Stored, used: j + 2 }
            } else if t0 == kw_error() {
                Decoded::Done { resp: RespV::Error, used: j + 2 }
            } else if t0 == kw_not_stored() {
                Decoded::Done { resp: RespV::NotStored, used: j + 2 }
            } else if t0 == kw_not_found() {
                Decoded::Done { resp: RespV::NotFound, used: j + 2 }
            } else if t0 == kw_deleted() {
                Decoded::Done { resp: RespV::Deleted, used: j + 2 }
            } else if t0 == kw_end() {
                Decoded::Done { resp: RespV::NotFound, used: j + 2 }
            } else if t0 == kw_exists() {
                Decoded::Done { resp: RespV::Exists, used: j + 2 }
            } else if t0 == kw_touched() {
                Decoded::Done { resp: RespV::Touched, used: j + 2 }
            } else if t0 == kw_version() {
                Decoded::Done { resp: RespV::Version(toks.last()), used: j + 2 }
            } else if t0 == kw_value() {
                decode_value_block(buf, cmd, line0)
            } else if t0 == kw_stat() {
                decode_stat_block(buf)
            } else {
                match cmd {
                    CommandV::Incr { .. } | CommandV::Decr { .. } => if is_dec(t0) && dec_val(t0)
                        <= u64::MAX {
                        Decoded::Done { resp: RespV::Counter(dec_val(t0) as u64), used: j + 2 }
                    } else {
                        Decoded::Fail(ErrV::InvalidIntegerValue(t0))
                    },
                    _ => Decoded::NeedMore,
                }
            }
        }
    }
}

/// A retrieval block: complete once its `END` line is buffered; a
/// single-key retrieval takes the first pair alone, a multi-key
/// retrieval all pairs in order; under any other command the block is
/// not a recognized reply.
pub open spec fn decode_value_block(buf: Seq<u8>, cmd: CommandV, line0: Seq<u8>) -> Decoded {
    match block_lines(buf) {
        None => Decoded::NeedMore,
        Some((lines, used)) => match cmd {
            CommandV::Get { .. } => {
                if lines.len() >= 2 {
                    match key_of_bytes(lines[0]) {
                        Err(e) => Decoded::Fail(e),
                        Ok(k) => Decoded::Done {
                            resp: RespV::Value {
                                key: k,
                                item: ItemView { value: lines[1], expires: None::<u64> },
                            },
                            used: used,
                        },
                    }
                } else {
                    Decoded::Fail(ErrV::InvalidItem(line0))
                }
            },
            CommandV::Gets { .. } => match values_from(lines, 0) {
                Err(e) => Decoded::Fail(e),
                Ok(vs) => Decoded::Done { resp: RespV::Values(vs), used: used },
            },
            _ => Decoded::NeedMore,
        },
    }
}

/// A statistics block: complete once its `END` line is buffered; every
/// data line must parse.
pub open spec fn decode_stat_block(buf: Seq<u8>) -> Decoded {
    match block_lines(buf) {
        None => Decoded::NeedMore,
        Some((lines, used)) => match stats_from(lines, 0) {
            Err(e) => Decoded::Fail(e),
            Ok(ss) => Decoded::Done { resp: RespV::Stats(ss), used: used },
        },
    }
}

/// Read the key/item pairs of a retrieval block, per [`values_from`].
fn parse_values(lines: &Vec<Vec<u8>>, i: usize) -> (r: Result<Vec<(Key, Item)>, MementoError>)
    ensures
        match r {
            Ok(vs) => values_from(lines.deep_view(), i as int) == Ok::<_, ErrV>(vs.deep_view()),
            Err(e) => values_from(lines.deep_view(), i as int) == Err::<Seq<(Seq<u8>, ItemView)>,
                _,
            >(e@),
        },
    decreases lines@.len() - i,
{
    let n = lines.len();
    if i >= n {
        let empty: Vec<(Key, Item)> = Vec::new();
        proof {
            assert(empty.deep_view() =~= Seq::<(Seq<u8>, ItemView)>::empty());
        }
        return Ok(empty);
    }
    proof {
        assert(lines.deep_view()[i as int] == lines@[i as int]@);
    }
    if i + 1 == n {
        return Err(MementoError::InvalidItem(slice_to_vec(lines[i].as_slice())));
    }
    proof {
        assert(lines.deep_view()[i + 1 as int] == lines@[i + 1 as int]@);
    }
    let key = match Key::from_bytes(slice_to_vec(lines[i].as_slice())) {
        Ok(k) => k,
        Err(e) => {
            return Err(e);
        },
    };
    let item = Item::timeless(slice_to_vec(lines[i + 1].as_slice()));
    match parse_values(lines, i + 2) {
        Err(e) => Err(e),
        Ok(rest) => {
            let mut out = rest;
            let ghost pre = out.deep_view();
            out.insert(0, (key, item));
            proof {
                assert(out.deep_view().skip(1) =~= pre);
                assert(out@[0] == (key, item));
                assert(out.deep_view()[0] == out@[0].deep_view());
                assert(out.deep_view() =~= seq![(key@, item@)] + pre);
            }
            Ok(out)
        },
    }
}

/// Read the statistics of a statistics block, per [`stats_from`].
fn parse_stats(lines: &Vec<Vec<u8>>, i: usize) -> (r: Result<Vec<Stat>, MementoError>)
    ensures
        match r {
            Ok(ss) => stats_from(lines.deep_view(), i as int) == Ok::<_, ErrV>(ss.deep_view()),
            Err(e) => stats_from(lines.deep_view(), i as int) == Err::<Seq<StatV>, _>(e@),
        },
    decreases lines@.len() - i,
{
    let n = lines.len();
    if i >= n {
        let empty: Vec<Stat> = Vec::new();
        proof {
            assert(empty.deep_view() =~= Seq::<StatV>::empty());
        }
        return Ok(empty);
    }
    proof {
        assert(lines.deep_view()[i as int] == lines@[i as int]@);
    }
    let st = match Stat::from_line(lines[i].as_slice()) {
        Ok(s) => s,
        Err(e) => {
            return Err(e);
        },
    };
    match parse_stats(lines, i + 1) {
        Err(e) => Err(e),
        Ok(rest) => {
            let mut out = rest;
            let ghost pre = out.deep_view();
            out.insert(0, st);
            proof {
                assert(out.deep_view().skip(1) =~= pre);
                assert(out@[0] == st);
                assert(out.deep_view()[0] == out@[0].deep_view());
                assert(out.deep_view() =~= seq![st@] + pre);
            }
            Ok(out)
        },
    }
}

impl CommandResp {
    /// One decode attempt against the bytes buffered so far, knowing
    /// which command produced them, per [`decode_spec`]: `Ok(None)`
    /// asks for more bytes, `Ok(Some((resp, used)))` hands back the
    /// complete response and how many buffered bytes it occupied, and
    /// `Err` reports a malformed response. Bytes after `used` are left
    /// for the caller to keep.
    pub fn create(buf: &[u8], cmd: &Command) -> (r: Result<
        Option<(CommandResp, usize)>,
        MementoError,
    >)
        ensures
            match r {
                Ok(None) => decode_spec(buf@, cmd@) is NeedMore,
                Ok(Some(p)) => decode_spec(buf@, cmd@) == (Decoded::Done {
                    resp: p.0@,
                    used: p.1 as int,
                }) && p.1 <= buf@.len(),
                Err(e) => decode_spec(buf@, cmd@) == Decoded::Fail(e@),
            },
    {
        let n = buf.len();
        let j = match crlf_pos(buf) {
            Some(j) => j,
            None => {
                return Ok(None);
            },
        };
        proof {
            lemma_find_crlf_bounds(buf@, 0);
        }
        let line0 = sub_vec(buf, 0, j);
        proof {
            assert(line0@ =~= buf@.take(j as int));
        }
        let toks = split_ws(line0.as_slice());
        if toks.len() == 0 {
            return Ok(None);
        }
        proof {
            assert(toks.deep_view()[0] == toks@[0]@);
            assert(toks.deep_view().last() == toks@[toks@.len() - 1]@);
        }
        let t0 = toks[0].as_slice();
        if bytes_eq(t0, lit_kw_stored().as_slice()) {
            Ok(Some((CommandResp::Stored, j + 2)))
        } else if bytes_eq(t0, lit_kw_error().as_slice()) {
            Ok(Some((CommandResp::Error, j + 2)))
        } else if bytes_eq(t0, lit_kw_not_stored().as_slice()) {
            Ok(Some((CommandResp::NotStored, j + 2)))
        } else if bytes_eq(t0, lit_kw_not_found().as_slice()) {
            Ok(Some((CommandResp::NotFound, j + 2)))
        } else if bytes_eq(t0, lit_kw_deleted().as_slice()) {
            Ok(Some((CommandResp::Deleted, j + 2)))
        } else if bytes_eq(t0, lit_kw_end().as_slice()) {
            Ok(Some((CommandResp::NotFound, j + 2)))
        } else if bytes_eq(t0, lit_kw_exists().as_slice()) {
            Ok(Some((CommandResp::Exists, j + 2)))
        } else if bytes_eq(t0, lit_kw_touched().as_slice()) {
            Ok(Some((CommandResp::Touched, j + 2)))
        } else if bytes_eq(t0, lit_kw_version().as_slice()) {
            let last = toks[toks.len() - 1].as_slice();
            Ok(Some((CommandResp::Version(slice_to_vec(last)), j + 2)))
        } else if bytes_eq(t0, lit_kw_value().as_slice()) {
            let (lines, used) = match take_block_lines(buf) {
                Some(p) => p,
                None => {
                    return Ok(None);
                },
            };
            proof {
                lemma_block_lines_bounds(buf@);
            }
            match cmd {
                Command::Get(_) => {
                    if lines.len() >= 2 {
                        proof {
                            assert(lines.deep_view()[0] == lines@[0]@);
                            assert(lines.deep_view()[1] == lines@[1]@);
                        }
                        let key = match Key::from_bytes(slice_to_vec(lines[0].as_slice())) {
                            Ok(k) => k,
                            Err(e) => {
                                return Err(e);
                            },
                        };
                        let item = Item::timeless(slice_to_vec(lines[1].as_slice()));
                        Ok(Some((CommandResp::Value { key, item }, used)))
                    } else {
                        Err(MementoError::InvalidItem(line0))
                    }
                },
                Command::Gets(_) => {
                    match parse_values(&lines, 0) {
                        Err(e) => Err(e),
                        Ok(vs) => Ok(Some((CommandResp::Values(vs), used))),
                    }
                },
                _ => Ok(None),
            }
        } else if bytes_eq(t0, lit_kw_stat().as_slice()) {
            let (lines, used) = match take_block_lines(buf) {
                Some(p) => p,
                None => {
                    return Ok(None);
                },
            };
            proof {
                lemma_block_lines_bounds(buf@);
            }
            match parse_stats(&lines, 0) {
                Err(e) => Err(e),
                Ok(ss) => Ok(Some((CommandResp::Stats(ss), used))),
            }
        } else {
            match cmd {
                Command::Incr(_) | Command::Decr(_) => match parse_u64(t0) {
                    Some(v) => Ok(Some((CommandResp::Counter(v), j + 2))),
                    None => Err(MementoError::InvalidIntegerValue(slice_to_vec(t0))),
                },
                _ => Ok(None),
            }
        }
    }
}

} // verus!
