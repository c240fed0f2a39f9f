//! Client-side codec for a line-oriented, text-based key/value cache
//! protocol over a single connection: typed commands are encoded to
//! the wire format, and the server's CRLF-delimited replies are
//! decoded incrementally, tolerating partial reads. The transport
//! itself (sockets, reads, writes) lives outside this crate; the
//! codec here works on plain bytes.
mod command;
mod decode;
mod encode;
mod error;
mod kw;
mod laws;
mod stat;
mod stream;
mod wire;

pub use command::{
    Add, Append, Command, CommandV, Decr, Incr, Item, ItemView, Key, Prepend, Replace, SetCmd,
    key_of_bytes,
};
pub use decode::{
    CommandResp, Decoded, RespV, block_lines, decode_spec, decode_stat_block, decode_value_block,
    stats_from, values_from,
};
pub use encode::{encoded, encoded_store, joined};
pub use error::{ErrV, MementoError};
pub use laws::{
    lemma_dec_digits_round_trip, lemma_decode_extension, lemma_echoed_key,
    lemma_user_key_round_trip, lemma_value_reply_round_trip, no_cr, value_reply,
};
pub use stat::{Stat, StatV, stat_line_val, stat_of};
pub use stream::{Decoder, DecoderView};
pub use wire::{dec_digits, dec_val, find_crlf, is_dec, is_ws, tokens_of};

use vstd::prelude::*;

verus! {

/// The command that stores `item` under `key` unconditionally.
pub fn set(key: Key, item: Item) -> (r: Command)
    ensures
        r@ == (CommandV::SetCmd { key: key@, item: item@ }),
{
    Command::SetCmd(SetCmd::new(key, item))
}

/// The command that retrieves one key.
pub fn get(key: Key) -> (r: Command)
    ensures
        r@ == (CommandV::Get { key: key@ }),
{
    Command::Get(key)
}

/// The command that retrieves several keys at once.
pub fn gets(keys: Vec<Key>) -> (r: Command)
    ensures
        r@ == (CommandV::Gets { keys: keys.deep_view() }),
{
    Command::Gets(keys)
}

/// The command that asks the server for its statistics.
pub fn stats() -> (r: Command)
    ensures
        r@ == CommandV::Stats,
{
    Command::Stats
}

} // verus!
