//! The typed command model: validated keys, stored items, and the
//! closed set of operations the protocol offers.
use crate::error::{ErrV, MementoError};
use crate::kw::{kw_value, lit_kw_value};
use crate::wire::{bytes_eq, split_ws, tokens_of};
use vstd::prelude::*;
use vstd::string::{StrSliceExecFns, StringSliceAdditionalSpecFns};

verus! {

/// A validated key: at most 250 bytes when it comes from the user, or
/// the server-echoed second token of a reply line that opens with
/// `VALUE`.
#[derive(Debug, Clone, PartialEq, Eq)]
pub struct Key {
    value: Vec<u8>,
}

impl View for Key {
    type V = Seq<u8>;

    closed spec fn view(&self) -> Seq<u8> {
        self.value@
    }
}

impl DeepView for Key {
    type V = Seq<u8>;

    open spec fn deep_view(&self) -> Seq<u8> {
        self.view()
    }
}

/// What constructing a key from raw bytes yields: a reply line that
/// opens with the token `VALUE` echoes its second token as the key
/// (no length check: the line already came from the server); any other
/// input is the key itself and must be at most 250 bytes.
pub open spec fn key_of_bytes(s: Seq<u8>) -> Result<Seq<u8>, ErrV> {
    let toks = tokens_of(s);
    if toks.len() > 0 && toks[0] == kw_value() {
        Ok(
            if toks.len() >= 2 {
                toks[1]
            } else {
                Seq::empty()
            },
        )
    } else if s.len() > 250 {
        Err(ErrV::TooLongKey(s))
    } else {
        Ok(s)
    }
}

impl Key {
    /// Build a key from raw bytes, as [`key_of_bytes`] describes.
    pub fn from_bytes(value: Vec<u8>) -> (r: Result<Key, MementoError>)
        ensures
            match r {
                Ok(k) => key_of_bytes(value@) == Ok::<Seq<u8>, ErrV>(k@),
                Err(e) => key_of_bytes(value@) == Err::<Seq<u8>, ErrV>(e@),
            },
    {
        let toks = split_ws(value.as_slice());
        proof {
            if toks@.len() > 0 {
                assert(toks.deep_view()[0] == toks@[0]@);
            }
            if toks@.len() >= 2 {
                assert(toks.deep_view()[1] == toks@[1]@);
            }
        }
        if toks.len() > 0 && bytes_eq(toks[0].as_slice(), lit_kw_value().as_slice()) {
            if toks.len() >= 2 {
                let mut toks = toks;
                let echoed = toks.remove(1);
                Ok(Key { value: echoed })
            } else {
                Ok(Key { value: Vec::new() })
            }
        } else if value.len() > 250 {
            Err(MementoError::TooLongKey(value))
        } else {
            Ok(Key { value })
        }
    }

    /// Build a key from a string, as [`key_of_bytes`] describes, over
    /// the string's UTF-8 bytes.
    pub fn from_str(value: &str) -> (r: Result<Key, MementoError>)
        ensures
            match r {
                Ok(k) => key_of_bytes(value.spec_bytes()) == Ok::<Seq<u8>, ErrV>(k@),
                Err(e) => key_of_bytes(value.spec_bytes()) == Err::<Seq<u8>, ErrV>(e@),
            },
    {
        Key::from_bytes(value.as_bytes_vec())
    }

    /// The bytes of the key.
    pub fn as_bytes(&self) -> (r: &[u8])
        ensures
            r@ == self@,
    {
        self.value.as_slice()
    }
}

/// Specification-level image of an [`Item`].
pub ghost struct ItemView {
    pub value: Seq<u8>,
    pub expires: Option<u64>,
}

impl ItemView {
    /// The time-to-live in whole seconds as the wire format carries it:
    /// 0 stands for "no expiration".
    pub open spec fn spec_seconds(self) -> u64 {
        match self.expires {
            Some(s) => s,
            None => 0,
        }
    }
}

/// A value to store, with an optional time-to-live in seconds.
#[derive(Debug, Clone, PartialEq, Eq)]
pub struct Item {
    value: Vec<u8>,
    expires: Option<u64>,
}

impl View for Item {
    type V = ItemView;

    closed spec fn view(&self) -> ItemView {
        ItemView { value: self.value@, expires: self.expires }
    }
}

impl DeepView for Item {
    type V = ItemView;

    open spec fn deep_view(&self) -> ItemView {
        self.view()
    }
}

impl Item {
    /// An item that expires after `expires` seconds.
    pub fn expires(value: Vec<u8>, expires: u64) -> (r: Item)
        ensures
            r@ == (ItemView { value: value@, expires: Some(expires) }),
    {
        Item { value, expires: Some(expires) }
    }

    /// An item with no expiration.
    pub fn timeless(value: Vec<u8>) -> (r: Item)
        ensures
            r@ == (ItemView { value: value@, expires: None }),
    {
        Item { value, expires: None }
    }

    /// An item with no expiration whose value is the UTF-8 bytes of
    /// `value`.
    pub fn from_str(value: &str) -> (r: Item)
        ensures
            r@ == (ItemView { value: value.spec_bytes(), expires: None }),
    {
        Item { value: value.as_bytes_vec(), expires: None }
    }

    /// The time-to-live in whole seconds for the wire format: 0 if the
    /// item never expires.
    pub fn seconds(&self) -> (r: u64)
        ensures
            r == self@.spec_seconds(),
    {
        match self.expires {
            Some(s) => s,
            None => 0,
        }
    }

    /// The bytes of the stored value.
    pub fn as_bytes(&self) -> (r: &[u8])
        ensures
            r@ == self@.value,
    {
        self.value.as_slice()
    }
}

/// Store a value under a key unconditionally.
#[derive(Debug, Clone)]
pub struct SetCmd {
    pub key: Key,
    pub item: Item,
}

impl SetCmd {
    pub fn new(key: Key, item: Item) -> (r: SetCmd)
        ensures
            r.key@ == key@,
            r.item@ == item@,
    {
        SetCmd { key, item }
    }
}

/// Store a value only if the key is not present yet.
#[derive(Debug, Clone)]
pub struct Add {
    pub key: Key,
    pub item: Item,
}

impl Add {
    pub fn new(key: Key, item: Item) -> (r: Add)
        ensures
            r.key@ == key@,
            r.item@ == item@,
    {
        Add { key, item }
    }
}

/// Append to the value already stored under a key.
#[derive(Debug, Clone)]
pub struct Append {
    pub key: Key,
    pub item: Item,
}

impl Append {
    pub fn new(key: Key, item: Item) -> (r: Append)
        ensures
            r.key@ == key@,
            r.item@ == item@,
    {
        Append { key, item }
    }
}

/// Prepend to the value already stored under a key.
#[derive(Debug, Clone)]
pub struct Prepend {
    pub key: Key,
    pub item: Item,
}

impl Prepend {
    pub fn new(key: Key, item: Item) -> (r: Prepend)
        ensures
            r.key@ == key@,
            r.item@ == item@,
    {
        Prepend { key, item }
    }
}

/// Store a value only if the key is already present.
#[derive(Debug, Clone)]
pub struct Replace {
    pub key: Key,
    pub item: Item,
}

impl Replace {
    pub fn new(key: Key, item: Item) -> (r: Replace)
        ensures
            r.key@ == key@,
            r.item@ == item@,
    {
        Replace { key, item }
    }
}

/// Increase the counter stored under a key by a delta.
#[derive(Debug, Clone)]
pub struct Incr {
    pub key: Key,
    pub value: u64,
}

impl Incr {
    pub fn new(key: Key, value: u64) -> (r: Incr)
        ensures
            r.key@ == key@,
            r.value == value,
    {
        Incr { key, value }
    }
}

/// Decrease the counter stored under a key by a delta.
#[derive(Debug, Clone)]
pub struct Decr {
    pub key: Key,
    pub value: u64,
}

impl Decr {
    pub fn new(key: Key, value: u64) -> (r: Decr)
        ensures
            r.key@ == key@,
            r.value == value,
    {
        Decr { key, value }
    }
}

/// Specification-level image of a [`Command`].
pub ghost enum CommandV {
    SetCmd { key: Seq<u8>, item: ItemView },
    Add { key: Seq<u8>, item: ItemView },
    Append { key: Seq<u8>, item: ItemView },
    Prepend { key: Seq<u8>, item: ItemView },
    Replace { key: Seq<u8>, item: ItemView },
    Stats,
    Get { key: Seq<u8> },
    Gets { keys: Seq<Seq<u8>> },
    Incr { key: Seq<u8>, delta: u64 },
    Decr { key: Seq<u8>, delta: u64 },
    Delete { key: Seq<u8> },
    Version,
    Quit,
}

/// The closed set of operations the protocol offers.
#[derive(Debug, Clone)]
pub enum Command {
    SetCmd(SetCmd),
    Add(Add),
    Append(Append),
    Prepend(Prepend),
    Replace(Replace),
    Stats,
    Get(Key),
    Gets(Vec<Key>),
    Incr(Incr),
    Decr(Decr),
    Delete(Key),
    Version,
    Quit,
}

impl View for Command {
    type V = CommandV;

    open spec fn view(&self) -> CommandV {
        match self {
            Command::SetCmd(c) => CommandV::SetCmd { key: c.key@, item: c.item@ },
            Command::Add(c) => CommandV::Add { key: c.key@, item: c.item@ },
            Command::Append(c) => CommandV::Append { key: c.key@, item: c.item@ },
            Command::Prepend(c) => CommandV::Prepend { key: c.key@, item: c.item@ },
            Command::Replace(c) => CommandV::Replace { key: c.key@, item: c.item@ },
            Command::Stats => CommandV::Stats,
            Command::Get(k) => CommandV::Get { key: k@ },
            Command::Gets(ks) => CommandV::Gets { keys: ks.deep_view() },
            Command::Incr(c) => CommandV::Incr { key: c.key@, delta: c.value },
            Command::Decr(c) => CommandV::Decr { key: c.key@, delta: c.value },
            Command::Delete(k) => CommandV::Delete { key: k@ },
            Command::Version => CommandV::Version,
            Command::Quit => CommandV::Quit,
        }
    }
}

} // verus!
