//! The typed server statistics: one `STAT <name> <value>` line of a
//! statistics reply parses into one known field, or into a fallback
//! carrying the raw name and value.
use crate::error::{ErrV, MementoError};
use crate::kw::{
    lit_sn_bytes, lit_sn_cmd_get, lit_sn_cmd_set, lit_sn_connection_structures,
    lit_sn_curr_connections, lit_sn_curr_items, lit_sn_decr_hits, lit_sn_incr_hits,
    lit_sn_max_connections, lit_sn_pid, lit_sn_pointer_size, lit_sn_rejected_connections,
    lit_sn_rusage_system, lit_sn_rusage_user, lit_sn_time, lit_sn_total_connections,
    lit_sn_total_items, lit_sn_uptime, lit_sn_version, sn_bytes, sn_cmd_get, sn_cmd_set,
    sn_connection_structures, sn_curr_connections, sn_curr_items, sn_decr_hits, sn_incr_hits,
    sn_max_connections, sn_pid, sn_pointer_size, sn_rejected_connections, sn_rusage_system,
    sn_rusage_user, sn_time, sn_total_connections, sn_total_items, sn_uptime, sn_version,
};
use crate::wire::{bytes_eq, dec_val, is_dec, parse_u64, split_ws, sub_vec, tokens_of};
use vstd::prelude::*;
use vstd::slice::slice_to_vec;

verus! {

/// Specification-level image of a [`Stat`], with byte vectors seen as
/// sequences.
pub ghost enum StatV {
    Pid(u32),
    Uptime(u32),
    Time(u32),
    Version(Seq<u8>),
    PointerSize(usize),
    RUsageUser(u32, u32),
    RUsageSystem(u32, u32),
    MaxConnections(u32),
    CurrConnections(u32),
    TotalConnections(u32),
    RejectedConnections(u64),
    ConnectionStructures(u32),
    Bytes(u64),
    TotalItems(u64),
    CurrItems(u64),
    CmdGet(u64),
    CmdSet(u64),
    IncrHits(u64),
    DecrHits(u64),
    Other { name: Seq<u8>, value: Seq<u8> },
}

/// One server statistic.
#[derive(Debug, Clone, PartialEq, Eq)]
pub enum Stat {
    /// Process id of the server process.
    Pid(u32),
    /// Seconds since the server started.
    Uptime(u32),
    /// Current UNIX time according to the server.
    Time(u32),
    /// Version string of the server.
    Version(Vec<u8>),
    /// Default size of pointers on the host, generally 32 or 64.
    PointerSize(usize),
    /// Accumulated user CPU time as seconds then microseconds.
    RUsageUser(u32, u32),
    /// Accumulated system CPU time as seconds then microseconds.
    RUsageSystem(u32, u32),
    /// Maximum number of simultaneous connections.
    MaxConnections(u32),
    /// Number of open connections.
    CurrConnections(u32),
    /// Connections opened since the server started.
    TotalConnections(u32),
    /// Connections rejected at the connection limit.
    RejectedConnections(u64),
    /// Connection structures allocated by the server.
    ConnectionStructures(u32),
    /// Bytes currently used to store items.
    Bytes(u64),
    /// Items stored since the server started.
    TotalItems(u64),
    /// Items stored now.
    CurrItems(u64),
    /// Retrieval requests so far.
    CmdGet(u64),
    /// Storage requests so far.
    CmdSet(u64),
    /// Successful increment requests.
    IncrHits(u64),
    /// Successful decrement requests.
    DecrHits(u64),
    /// Any statistic this library does not know by name.
    Other { name: Vec<u8>, value: Vec<u8> },
}

impl View for Stat {
    type V = StatV;

    open spec fn view(&self) -> StatV {
        match self {
            Stat::Pid(v) => StatV::Pid(*v),
            Stat::Uptime(v) => StatV::Uptime(*v),
            Stat::Time(v) => StatV::Time(*v),
            Stat::Version(v) => StatV::Version(v@),
            Stat::PointerSize(v) => StatV::PointerSize(*v),
            Stat::RUsageUser(s0, s1) => StatV::RUsageUser(*s0, *s1),
            Stat::RUsageSystem(s0, s1) => StatV::RUsageSystem(*s0, *s1),
            Stat::MaxConnections(v) => StatV::MaxConnections(*v),
            Stat::CurrConnections(v) => StatV::CurrConnections(*v),
            Stat::TotalConnections(v) => StatV::TotalConnections(*v),
            Stat::RejectedConnections(v) => StatV::RejectedConnections(*v),
            Stat::ConnectionStructures(v) => StatV::ConnectionStructures(*v),
            Stat::Bytes(v) => StatV::Bytes(*v),
            Stat::TotalItems(v) => StatV::TotalItems(*v),
            Stat::CurrItems(v) => StatV::CurrItems(*v),
            Stat::CmdGet(v) => StatV::CmdGet(*v),
            Stat::CmdSet(v) => StatV::CmdSet(*v),
            Stat::IncrHits(v) => StatV::IncrHits(*v),
            Stat::DecrHits(v) => StatV::DecrHits(*v),
            Stat::Other { name, value } => StatV::Other { name: name@, value: value@ },
        }
    }
}

impl DeepView for Stat {
    type V = StatV;

    open spec fn deep_view(&self) -> StatV {
        self.view()
    }
}

/// Read a statistic value as a `u32`: exactly the non-empty all-digit
/// numerals whose value fits.
pub open spec fn val_u32(t: Seq<u8>) -> Result<u32, ErrV> {
    if is_dec(t) && dec_val(t) <= u32::MAX {
        Ok(dec_val(t) as u32)
    } else {
        Err(ErrV::InvalidIntegerValue(t))
    }
}

/// Read a statistic value as a `u64`: exactly the non-empty all-digit
/// numerals whose value fits.
pub open spec fn val_u64(t: Seq<u8>) -> Result<u64, ErrV> {
    if is_dec(t) && dec_val(t) <= u64::MAX {
        Ok(dec_val(t) as u64)
    } else {
        Err(ErrV::InvalidIntegerValue(t))
    }
}

/// Read a statistic value as a `usize`: exactly the non-empty all-digit
/// numerals whose value fits.
pub open spec fn val_usize(t: Seq<u8>) -> Result<usize, ErrV> {
    if is_dec(t) && dec_val(t) <= usize::MAX {
        Ok(dec_val(t) as usize)
    } else {
        Err(ErrV::InvalidIntegerValue(t))
    }
}

/// Index of the first occurrence of `b` in `s` at or after `i`, or -1.
pub open spec fn find_byte_at(s: Seq<u8>, b: u8, i: int) -> int
    decreases s.len() - i,
{
    if i < 0 || i >= s.len() {
        -1
    } else if s[i] == b {
        i
    } else {
        find_byte_at(s, b, i + 1)
    }
}

/// Index of the first occurrence of `b` in `s`, or -1.
pub open spec fn find_byte(s: Seq<u8>, b: u8) -> int {
    find_byte_at(s, b, 0)
}

pub proof fn lemma_find_byte_bounds(s: Seq<u8>, b: u8, i: int)
    requires
        0 <= i,
    ensures
        find_byte_at(s, b, i) == -1 || (i <= find_byte_at(s, b, i) < s.len()),
    decreases s.len() - i,
{
    if i < s.len() && s[i] != b {
        lemma_find_byte_bounds(s, b, i + 1);
    }
}

/// Scan `s` for the first occurrence of `b`.
#[verifier::loop_isolation(false)]
pub fn byte_pos(s: &[u8], b: u8) -> (r: Option<usize>)
    ensures
        match r {
            Some(j) => find_byte(s@, b) == j as int,
            None => find_byte(s@, b) == -1,
        },
{
    let n = s.len();
    let mut i: usize = 0;
    while i < n
        invariant
            0 <= i <= n,
            find_byte(s@, b) == find_byte_at(s@, b, i as int),
        decreases n - i,
    {
        if s[i] == b {
            return Some(i);
        }
        i = i + 1;
    }
    None
}

/// The two dot-separated halves of a CPU-time value `"<secs>.<micros>"`:
/// the bytes before the first dot and those between the first and the
/// second dot (or the end). A value with no dot is malformed.
pub open spec fn dot_halves(t: Seq<u8>) -> Result<(Seq<u8>, Seq<u8>), ErrV> {
    let j = find_byte(t, 46);
    if j < 0 {
        Err(ErrV::InvalidItem(t))
    } else {
        let rest = t.skip(j + 1);
        let k = find_byte(rest, 46);
        Ok((t.take(j), if k < 0 { rest } else { rest.take(k) }))
    }
}

/// Read a CPU-time value as a (seconds, microseconds) pair.
pub open spec fn val_rusage(t: Seq<u8>) -> Result<(u32, u32), ErrV> {
    match dot_halves(t) {
        Err(e) => Err(e),
        Ok((a, b)) => match val_u32(a) {
            Err(e) => Err(e),
            Ok(secs) => match val_u32(b) {
                Err(e) => Err(e),
                Ok(micros) => Ok((secs, micros)),
            },
        },
    }
}

/// The statistic that a name and a value token denote.
pub open spec fn stat_of(name: Seq<u8>, value: Seq<u8>) -> Result<StatV, ErrV> {
    if name == sn_pid() {
        match val_u32(value) {
            Ok(v) => Ok(StatV::Pid(v)),
            Err(e) => Err(e),
        }
    } else if name == sn_uptime() {
        match val_u32(value) {
            Ok(v) => Ok(StatV::Uptime(v)),
            Err(e) => Err(e),
        }
    } else if name == sn_time() {
        match val_u32(value) {
            Ok(v) => Ok(StatV::Time(v)),
            Err(e) => Err(e),
        }
    } else if name == sn_version() {
        Ok(StatV::Version(value))
    } else if name == sn_pointer_size() {
        match val_usize(value) {
            Ok(v) => Ok(StatV::PointerSize(v)),
            Err(e) => Err(e),
        }
    } else if name == sn_rusage_user() {
        match val_rusage(value) {
            Ok(v) => Ok(StatV::RUsageUser(v.0, v.1)),
            Err(e) => Err(e),
        }
    } else if name == sn_rusage_system() {
        match val_rusage(value) {
            Ok(v) => Ok(StatV::RUsageSystem(v.0, v.1)),
            Err(e) => Err(e),
        }
    } else if name == sn_max_connections() {
        match val_u32(value) {
            Ok(v) => Ok(StatV::MaxConnections(v)),
            Err(e) => Err(e),
        }
    } else if name == sn_curr_connections() {
        match val_u32(value) {
            Ok(v) => Ok(StatV::CurrConnections(v)),
            Err(e) => Err(e),
        }
    } else if name == sn_total_connections() {
        match val_u32(value) {
            Ok(v) => Ok(StatV::TotalConnections(v)),
            Err(e) => Err(e),
        }
    } else if name == sn_rejected_connections() {
        match val_u64(value) {
            Ok(v) => Ok(StatV::RejectedConnections(v)),
            Err(e) => Err(e),
        }
    } else if name == sn_connection_structures() {
        match val_u32(value) {
            Ok(v) => Ok(StatV::ConnectionStructures(v)),
            Err(e) => Err(e),
        }
    } else if name == sn_bytes() {
        match val_u64(value) {
            Ok(v) => Ok(StatV::Bytes(v)),
            Err(e) => Err(e),
        }
    } else if name == sn_total_items() {
        match val_u64(value) {
            Ok(v) => Ok(StatV::TotalItems(v)),
            Err(e) => Err(e),
        }
    } else if name == sn_curr_items() {
        match val_u64(value) {
            Ok(v) => Ok(StatV::CurrItems(v)),
            Err(e) => Err(e),
        }
    } else if name == sn_cmd_get() {
        match val_u64(value) {
            Ok(v) => Ok(StatV::CmdGet(v)),
            Err(e) => Err(e),
        }
    } else if name == sn_cmd_set() {
        match val_u64(value) {
            Ok(v) => Ok(StatV::CmdSet(v)),
            Err(e) => Err(e),
        }
    } else if name == sn_incr_hits() {
        match val_u64(value) {
            Ok(v) => Ok(StatV::IncrHits(v)),
            Err(e) => Err(e),
        }
    } else if name == sn_decr_hits() {
        match val_u64(value) {
            Ok(v) => Ok(StatV::DecrHits(v)),
            Err(e) => Err(e),
        }
    } else {
        Ok(StatV::Other { name: name, value: value })
    }
}

/// The statistic carried by one line of a statistics reply block: the
/// line's second token names the field and its third is the value; a
/// line with fewer than three tokens is malformed.
pub open spec fn stat_line_val(line: Seq<u8>) -> Result<StatV, ErrV> {
    let toks = tokens_of(line);
    if toks.len() < 3 {
        Err(ErrV::InvalidItem(line))
    } else {
        stat_of(toks[1], toks[2])
    }
}

/// Read a value token as a `u32`, per [`val_u32`].
fn parse_u32_tok(t: &[u8]) -> (r: Result<u32, MementoError>)
    ensures
        match r {
            Ok(v) => val_u32(t@) == Ok::<u32, ErrV>(v),
            Err(e) => val_u32(t@) == Err::<u32, ErrV>(e@),
        },
{
    match parse_u64(t) {
        Some(v) if v <= u32::MAX as u64 => Ok(v as u32),
        _ => Err(MementoError::InvalidIntegerValue(slice_to_vec(t))),
    }
}

/// Read a value token as a `u64`, per [`val_u64`].
fn parse_u64_tok(t: &[u8]) -> (r: Result<u64, MementoError>)
    ensures
        match r {
            Ok(v) => val_u64(t@) == Ok::<u64, ErrV>(v),
            Err(e) => val_u64(t@) == Err::<u64, ErrV>(e@),
        },
{
    match parse_u64(t) {
        Some(v) => Ok(v),
        None => Err(MementoError::InvalidIntegerValue(slice_to_vec(t))),
    }
}

/// Read a value token as a `usize`, per [`val_usize`].
fn parse_usize_tok(t: &[u8]) -> (r: Result<usize, MementoError>)
    ensures
        match r {
            Ok(v) => val_usize(t@) == Ok::<usize, ErrV>(v),
            Err(e) => val_usize(t@) == Err::<usize, ErrV>(e@),
        },
{
    match parse_u64(t) {
        Some(v) if v <= usize::MAX as u64 => Ok(v as usize),
        _ => Err(MementoError::InvalidIntegerValue(slice_to_vec(t))),
    }
}

/// Read a CPU-time value token, per [`val_rusage`].
fn parse_rusage_tok(t: &[u8]) -> (r: Result<(u32, u32), MementoError>)
    ensures
        match r {
            Ok(v) => val_rusage(t@) == Ok::<(u32, u32), ErrV>(v),
            Err(e) => val_rusage(t@) == Err::<(u32, u32), ErrV>(e@),
        },
{
    let j = match byte_pos(t, 46) {
        Some(j) => j,
        None => {
            return Err(MementoError::InvalidItem(slice_to_vec(t)));
        },
    };
    proof {
        lemma_find_byte_bounds(t@, 46, 0);
        assert((j as int) < t@.len());
    }
    let n = t.len();
    let first = sub_vec(t, 0, j);
    let rest = &t[j + 1..n];
    proof {
        assert(rest@ =~= t@.skip(j + 1));
    }
    let second = match byte_pos(rest, 46) {
        Some(k) => {
            proof {
                lemma_find_byte_bounds(rest@, 46, 0);
            }
            let s = sub_vec(rest, 0, k);
            proof {
                assert(s@ =~= rest@.take(k as int));
            }
            s
        },
        None => slice_to_vec(rest),
    };
    let secs = match parse_u32_tok(first.as_slice()) {
        Ok(v) => v,
        Err(e) => {
            return Err(e);
        },
    };
    let micros = match parse_u32_tok(second.as_slice()) {
        Ok(v) => v,
        Err(e) => {
            return Err(e);
        },
    };
    Ok((secs, micros))
}

impl Stat {
    /// Parse one line of a statistics reply block, per
    /// [`stat_line_val`].
    pub fn from_line(line: &[u8]) -> (r: Result<Stat, MementoError>)
        ensures
            match r {
                Ok(s) => stat_line_val(line@) == Ok::<StatV, ErrV>(s@),
                Err(e) => stat_line_val(line@) == Err::<StatV, ErrV>(e@),
            },
    {
        let toks = split_ws(line);
        proof {
            if toks@.len() >= 3 {
                assert(toks.deep_view()[1] == toks@[1]@);
                assert(toks.deep_view()[2] == toks@[2]@);
            }
        }
        if toks.len() < 3 {
            return Err(MementoError::InvalidItem(slice_to_vec(line)));
        }
        let name = toks[1].as_slice();
        let value = toks[2].as_slice();
        if bytes_eq(name, lit_sn_pid().as_slice()) {
            match parse_u32_tok(value) {
                Ok(v) => Ok(Stat::Pid(v)),
                Err(e) => Err(e),
            }
        } else if bytes_eq(name, lit_sn_uptime().as_slice()) {
            match parse_u32_tok(value) {
                Ok(v) => Ok(Stat::Uptime(v)),
                Err(e) => Err(e),
            }
        } else if bytes_eq(name, lit_sn_time().as_slice()) {
            match parse_u32_tok(value) {
                Ok(v) => Ok(Stat::Time(v)),
                Err(e) => Err(e),
            }
        } else if bytes_eq(name, lit_sn_version().as_slice()) {
            Ok(Stat::Version(slice_to_vec(value)))
        } else if bytes_eq(name, lit_sn_pointer_size().as_slice()) {
            match parse_usize_tok(value) {
                Ok(v) => Ok(Stat::PointerSize(v)),
                Err(e) => Err(e),
            }
        } else if bytes_eq(name, lit_sn_rusage_user().as_slice()) {
            match parse_rusage_tok(value) {
                Ok(v) => Ok(Stat::RUsageUser(v.0, v.1)),
                Err(e) => Err(e),
            }
        } else if bytes_eq(name, lit_sn_rusage_system().as_slice()) {
            match parse_rusage_tok(value) {
                Ok(v) => Ok(Stat::RUsageSystem(v.0, v.1)),
                Err(e) => Err(e),
            }
        } else if bytes_eq(name, lit_sn_max_connections().as_slice()) {
            match parse_u32_tok(value) {
                Ok(v) => Ok(Stat::MaxConnections(v)),
                Err(e) => Err(e),
            }
        } else if bytes_eq(name, lit_sn_curr_connections().as_slice()) {
            match parse_u32_tok(value) {
                Ok(v) => Ok(Stat::CurrConnections(v)),
                Err(e) => Err(e),
            }
        } else if bytes_eq(name, lit_sn_total_connections().as_slice()) {
            match parse_u32_tok(value) {
                Ok(v) => Ok(Stat::TotalConnections(v)),
                Err(e) => Err(e),
            }
        } else if bytes_eq(name, lit_sn_rejected_connections().as_slice()) {
            match parse_u64_tok(value) {
                Ok(v) => Ok(Stat::RejectedConnections(v)),
                Err(e) => Err(e),
            }
        } else if bytes_eq(name, lit_sn_connection_structures().as_slice()) {
            match parse_u32_tok(value) {
                Ok(v) => Ok(Stat::ConnectionStructures(v)),
                Err(e) => Err(e),
            }
        } else if bytes_eq(name, lit_sn_bytes().as_slice()) {
            match parse_u64_tok(value) {
                Ok(v) => Ok(Stat::Bytes(v)),
                Err(e) => Err(e),
            }
        } else if bytes_eq(name, lit_sn_total_items().as_slice()) {
            match parse_u64_tok(value) {
                Ok(v) => Ok(Stat::TotalItems(v)),
                Err(e) => Err(e),
            }
        } else if bytes_eq(name, lit_sn_curr_items().as_slice()) {
            match parse_u64_tok(value) {
                Ok(v) => Ok(Stat::CurrItems(v)),
                Err(e) => Err(e),
            }
        } else if bytes_eq(name, lit_sn_cmd_get().as_slice()) {
            match parse_u64_tok(value) {
                Ok(v) => Ok(Stat::CmdGet(v)),
                Err(e) => Err(e),
            }
        } else if bytes_eq(name, lit_sn_cmd_set().as_slice()) {
            match parse_u64_tok(value) {
                Ok(v) => Ok(Stat::CmdSet(v)),
                Err(e) => Err(e),
            }
        } else if bytes_eq(name, lit_sn_incr_hits().as_slice()) {
            match parse_u64_tok(value) {
                Ok(v) => Ok(Stat::IncrHits(v)),
                Err(e) => Err(e),
            }
        } else if bytes_eq(name, lit_sn_decr_hits().as_slice()) {
            match parse_u64_tok(value) {
                Ok(v) => Ok(Stat::DecrHits(v)),
                Err(e) => Err(e),
            }
        } else {
            Ok(Stat::Other { name: slice_to_vec(name), value: slice_to_vec(value) })
        }
    }
}

} // verus!
