//! The command encoder: every command has one exact byte sequence on
//! the wire, stated by [`encoded`] and produced by [`Command::encode`].
//! Encoding is pure, so re-sending a command yields the same bytes.
use crate::command::{Command, CommandV, Item, ItemView, Key};
use crate::kw::{
    crlf, lit_vb_add, lit_vb_append, lit_vb_decr, lit_vb_delete, lit_vb_get, lit_vb_gets,
    lit_vb_incr, lit_vb_prepend, lit_vb_quit, lit_vb_replace, lit_vb_set, lit_vb_stats,
    lit_vb_version, vb_add, vb_append, vb_decr, vb_delete, vb_get, vb_gets, vb_incr, vb_prepend,
    vb_quit, vb_replace, vb_set, vb_stats, vb_version,
};
use crate::wire::{dec_digits, u64_to_dec};
use vstd::prelude::*;

verus! {

/// The keys of a multi-key retrieval, joined by single spaces.
pub open spec fn joined(keys: Seq<Seq<u8>>) -> Seq<u8>
    decreases keys.len(),
{
    if keys.len() == 0 {
        Seq::empty()
    } else if keys.len() == 1 {
        keys[0]
    } else {
        keys[0] + seq![32u8] + joined(keys.skip(1))
    }
}

/// Appending one more key extends the join by a separating space.
pub proof fn lemma_joined_snoc(s: Seq<Seq<u8>>, x: Seq<u8>)
    ensures
        joined(s.push(x)) == if s.len() == 0 {
            x
        } else {
            joined(s) + seq![32u8] + x
        },
    decreases s.len(),
{
    let sx = s.push(x);
    if s.len() == 0 {
        assert(sx.len() == 1 && sx[0] == x);
    } else if s.len() == 1 {
        assert(sx.skip(1) =~= seq![x]);
        assert(joined(sx.skip(1)) == x);
    } else {
        assert(sx.skip(1) =~= s.skip(1).push(x));
        lemma_joined_snoc(s.skip(1), x);
        assert(joined(sx) =~= joined(s) + seq![32u8] + x);
    }
}

/// The header-plus-payload wire form of the store family:
/// `<verb> <key> 0 <ttl-seconds> <payload-length>` then the payload
/// line, both CRLF-terminated. The flags field is always 0, and the
/// stated length is exactly the byte length of the payload.
pub open spec fn encoded_store(verb: Seq<u8>, key: Seq<u8>, item: ItemView) -> Seq<u8> {
    verb + seq![32u8] + key + seq![32u8, 48u8, 32u8] + dec_digits(item.spec_seconds() as nat)
        + seq![32u8] + dec_digits(item.value.len()) + crlf() + item.value + crlf()
}

/// The exact bytes that a command sends on the wire.
pub open spec fn encoded(c: CommandV) -> Seq<u8> {
    match c {
        CommandV::SetCmd { key, item } => encoded_store(vb_set(), key, item),
        CommandV::Add { key, item } => encoded_store(vb_add(), key, item),
        CommandV::Append { key, item } => encoded_store(vb_append(), key, item),
        CommandV::Prepend { key, item } => encoded_store(vb_prepend(), key, item),
        CommandV::Replace { key, item } => encoded_store(vb_replace(), key, item),
        CommandV::Stats => vb_stats() + crlf(),
        CommandV::Get { key } => vb_get() + seq![32u8] + key + crlf(),
        CommandV::Gets { keys } => vb_gets() + seq![32u8] + joined(keys) + crlf(),
        CommandV::Incr { key, delta } => vb_incr() + seq![32u8] + key + seq![32u8] + dec_digits(
            delta as nat,
        ) + crlf(),
        CommandV::Decr { key, delta } => vb_decr() + seq![32u8] + key + seq![32u8] + dec_digits(
            delta as nat,
        ) + crlf(),
        CommandV::Delete { key } => vb_delete() + seq![32u8] + key + crlf(),
        CommandV::Version => vb_version() + crlf(),
        CommandV::Quit => vb_quit() + crlf(),
    }
}

/// Append the two CRLF-terminated lines of a store-family command.
fn encode_store(verb: Vec<u8>, key: &Key, item: &Item) -> (r: Vec<u8>)
    ensures
        r@ == encoded_store(verb@, key@, item@),
{
    let mut out = verb;
    out.push(32);
    out.extend_from_slice(key.as_bytes());
    out.push(32);
    out.push(48);
    out.push(32);
    let secs = u64_to_dec(item.seconds());
    out.extend_from_slice(secs.as_slice());
    out.push(32);
    let payload = item.as_bytes();
    let len_dec = u64_to_dec(payload.len() as u64);
    out.extend_from_slice(len_dec.as_slice());
    out.push(13);
    out.push(10);
    out.extend_from_slice(payload);
    out.push(13);
    out.push(10);
    proof {
        assert(out@ =~= encoded_store(verb@, key@, item@));
    }
    out
}

/// Append a single space-separated key and the line terminator.
fn encode_one_key(verb: Vec<u8>, key: &Key) -> (r: Vec<u8>)
    ensures
        r@ == verb@ + seq![32u8] + key@ + crlf(),
{
    let mut out = verb;
    out.push(32);
    out.extend_from_slice(key.as_bytes());
    out.push(13);
    out.push(10);
    proof {
        assert(out@ =~= verb@ + seq![32u8] + key@ + crlf());
    }
    out
}

/// Append the line terminator to a bare verb.
fn encode_bare(verb: Vec<u8>) -> (r: Vec<u8>)
    ensures
        r@ == verb@ + crlf(),
{
    let mut out = verb;
    out.push(13);
    out.push(10);
    proof {
        assert(out@ =~= out@.subrange(0, out@.len() - 2) + crlf());
    }
    out
}

impl Command {
    /// The exact byte sequence to send for this command, per
    /// [`encoded`]. Encoding is pure: the same command always yields
    /// the same bytes, so a caller-level retry re-sends an identical
    /// encoding.
    #[verifier::loop_isolation(false)]
    pub fn encode(&self) -> (r: Vec<u8>)
        ensures
            r@ == encoded(self@),
    {
        match self {
            Command::SetCmd(c) => encode_store(lit_vb_set(), &c.key, &c.item),
            Command::Add(c) => encode_store(lit_vb_add(), &c.key, &c.item),
            Command::Append(c) => encode_store(lit_vb_append(), &c.key, &c.item),
            Command::Prepend(c) => encode_store(lit_vb_prepend(), &c.key, &c.item),
            Command::Replace(c) => encode_store(lit_vb_replace(), &c.key, &c.item),
            Command::Stats => encode_bare(lit_vb_stats()),
            Command::Get(key) => encode_one_key(lit_vb_get(), key),
            Command::Gets(keys) => {
                let mut out = lit_vb_gets();
                out.push(32);
                let ghost prefix = out@;
                let n = keys.len();
                let mut i: usize = 0;
                while i < n
                    invariant
                        0 <= i <= n,
                        out@ == prefix + joined(keys.deep_view().take(i as int)),
                    decreases n - i,
                {
                    proof {
                        assert(keys.deep_view()[i as int] == keys@[i as int]@);
                        lemma_joined_snoc(keys.deep_view().take(i as int), keys.deep_view()[i as int]);
                        assert(keys.deep_view().take(i + 1 as int) =~= keys.deep_view().take(
                            i as int,
                        ).push(keys.deep_view()[i as int]));
                    }
                    if i > 0 {
                        out.push(32);
                    }
                    out.extend_from_slice(keys[i].as_bytes());
                    proof {
                        assert(out@ =~= prefix + joined(keys.deep_view().take(i + 1 as int)));
                    }
                    i = i + 1;
                }
                proof {
                    assert(keys.deep_view().take(n as int) =~= keys.deep_view());
                }
                out.push(13);
                out.push(10);
                proof {
                    assert(out@ =~= vb_gets() + seq![32u8] + joined(keys.deep_view()) + crlf());
                }
                out
            },
            Command::Incr(c) => {
                let mut out = lit_vb_incr();
                out.push(32);
                out.extend_from_slice(c.key.as_bytes());
                out.push(32);
                let delta = u64_to_dec(c.value);
                out.extend_from_slice(delta.as_slice());
                out.push(13);
                out.push(10);
                proof {
                    assert(out@ =~= encoded(self@));
                }
                out
            },
            Command::Decr(c) => {
                let mut out = lit_vb_decr();
                out.push(32);
                out.extend_from_slice(c.key.as_bytes());
                out.push(32);
                let delta = u64_to_dec(c.value);
                out.extend_from_slice(delta.as_slice());
                out.push(13);
                out.push(10);
                proof {
                    assert(out@ =~= encoded(self@));
                }
                out
            },
            Command::Delete(key) => encode_one_key(lit_vb_delete(), key),
            Command::Version => encode_bare(lit_vb_version()),
            Command::Quit => encode_bare(lit_vb_quit()),
        }
    }
}

} // verus!
