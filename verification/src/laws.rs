//! The laws the codec obeys, each stated over the specification
//! functions that the encoder's and decoder's own contracts use:
//! keys survive the trip onto the wire and back, and a decode that
//! has completed or failed never changes its mind when more bytes
//! arrive, so fragmented reads decode exactly as one big read does.
use crate::command::key_of_bytes;
use crate::decode::{Decoded, block_lines, decode_spec};
use crate::command::{CommandV, ItemView};
use crate::decode::RespV;
use crate::error::ErrV;
use crate::kw::{crlf, kw_end, kw_stat, kw_value};
use crate::wire::{
    dec_digits, dec_val, digit_val, find_crlf, find_crlf_at, is_dec, is_digit, is_ws,
    lemma_find_crlf_bounds, tok_end, tokens_from, tokens_of,
};
use vstd::prelude::*;

verus! {

/// A user-supplied key that is not a reply line and fits the length
/// bound comes back from key construction exactly as it was given.
pub proof fn lemma_user_key_round_trip(k: Seq<u8>)
    requires
        k.len() <= 250,
        tokens_of(k).len() == 0 || tokens_of(k)[0] != kw_value(),
    ensures
        key_of_bytes(k) == Ok::<Seq<u8>, ErrV>(k),
{
}

/// Every byte of a decimal numeral is a digit.
pub proof fn lemma_dec_digits_are_digits(n: nat)
    ensures
        forall|i: int| 0 <= i < dec_digits(n).len() ==> is_digit(#[trigger] dec_digits(n)[i]),
    decreases n,
{
    if n >= 10 {
        lemma_dec_digits_are_digits(n / 10);
        assert forall|i: int| 0 <= i < dec_digits(n).len() implies is_digit(
            dec_digits(n)[i],
        ) by {
            if i < dec_digits(n / 10).len() {
                assert(dec_digits(n)[i] == dec_digits(n / 10)[i]);
            } else {
                assert(dec_digits(n)[i] == (48 + n % 10) as u8);
            }
        }
    }
}

/// A decimal numeral the encoder writes reads back as the number it
/// was written from: the counter value an increment sends is the
/// value a server echoing it would hand back.
pub proof fn lemma_dec_digits_round_trip(n: nat)
    ensures
        is_dec(dec_digits(n)),
        dec_val(dec_digits(n)) == n,
    decreases n,
{
    lemma_dec_digits_are_digits(n);
    if n < 10 {
        assert(dec_digits(n).drop_last() =~= Seq::<u8>::empty());
        assert(dec_digits(n).last() == (48 + n) as u8);
        assert(dec_digits(n).len() == 1);
        assert(dec_val(Seq::<u8>::empty()) == 0);
        assert(dec_val(dec_digits(n)) == digit_val((48 + n) as u8));
        assert(digit_val((48 + n) as u8) == n);
    } else {
        lemma_dec_digits_round_trip(n / 10);
        assert(dec_digits(n).drop_last() =~= dec_digits(n / 10));
        assert(dec_digits(n).last() == (48 + n % 10) as u8);
        assert(digit_val((48 + n % 10) as u8) == n % 10);
        assert(dec_val(dec_digits(n)) == (n / 10) * 10 + n % 10);
        assert((n / 10) * 10 + n % 10 == n) by (nonlinear_arith);
    }
}

/// No byte of `s` is a carriage return.
pub open spec fn no_cr(s: Seq<u8>) -> bool {
    forall|i: int| 0 <= i < s.len() ==> s[i] != 13u8
}

/// In a buffer that opens with a line free of carriage returns, the
/// first CRLF is exactly the line's terminator.
proof fn lemma_find_crlf_clean_at(a: Seq<u8>, b: Seq<u8>, i: int)
    requires
        no_cr(a),
        0 <= i <= a.len(),
    ensures
        find_crlf_at(a + crlf() + b, i) == a.len(),
    decreases a.len() - i,
{
    let s = a + crlf() + b;
    if i < a.len() {
        assert(s[i] == a[i]);
        lemma_find_crlf_clean_at(a, b, i + 1);
    } else {
        assert(s[i] == 13u8 && s[i + 1] == 10u8);
    }
}

/// The first complete line of `a + CRLF + b` is `a`, when `a` holds no
/// carriage return.
pub proof fn lemma_find_crlf_clean(a: Seq<u8>, b: Seq<u8>)
    requires
        no_cr(a),
    ensures
        find_crlf(a + crlf() + b) == a.len(),
        (a + crlf() + b).take(a.len() as int) == a,
{
    lemma_find_crlf_clean_at(a, b, 0);
    assert((a + crlf() + b).take(a.len() as int) =~= a);
}

/// A maximal run of non-whitespace bytes is one token.
proof fn lemma_tok_end_run(s: Seq<u8>, i: int, j: int)
    requires
        0 <= i <= j <= s.len(),
        forall|m: int| i <= m < j ==> !is_ws(#[trigger] s[m]),
        j == s.len() || is_ws(s[j]),
    ensures
        tok_end(s, i) == j,
    decreases j - i,
{
    if i < j {
        lemma_tok_end_run(s, i + 1, j);
    }
}

/// A reply line of the shape `VALUE <key> <anything>` echoes exactly
/// the key between its first two separating spaces, whatever follows:
/// the key a retrieval reply carries is re-derived unchanged.
pub proof fn lemma_echoed_key(k: Seq<u8>, tail: Seq<u8>)
    requires
        0 < k.len(),
        forall|i: int| 0 <= i < k.len() ==> !is_ws(#[trigger] k[i]),
    ensures
        key_of_bytes(kw_value() + seq![32u8] + k + seq![32u8] + tail) == Ok::<Seq<u8>, ErrV>(k),
{
    let h = kw_value() + seq![32u8] + k + seq![32u8] + tail;
    assert(h[0] == 86u8 && h[1] == 65u8 && h[2] == 76u8 && h[3] == 85u8 && h[4] == 69u8 && h[5]
        == 32u8);
    lemma_tok_end_run(h, 0, 5);
    assert(tokens_from(h, 0) == seq![h.subrange(0, 5)] + tokens_from(h, 5));
    assert(h.subrange(0, 5) =~= kw_value());
    assert(tokens_from(h, 5) == tokens_from(h, 6));
    let ke = 6 + k.len() as int;
    assert(forall|m: int| 6 <= m < ke ==> h[m] == k[m - 6] && !is_ws(#[trigger] h[m]));
    assert(h[ke] == 32u8);
    lemma_tok_end_run(h, 6, ke);
    assert(tokens_from(h, 6) == seq![h.subrange(6, ke)] + tokens_from(h, ke));
    assert(h.subrange(6, ke) =~= k);
    let toks = tokens_of(h);
    assert(toks.len() >= 2);
    assert(toks[0] == kw_value());
    assert(toks[1] == k);
}

/// The exact bytes of a retrieval reply that echoes one key with one
/// payload: the `VALUE <key> 0 <length>` header line, the payload
/// line, and the terminator line.
pub open spec fn value_reply(k: Seq<u8>, payload: Seq<u8>) -> Seq<u8> {
    kw_value() + seq![32u8] + k + seq![32u8, 48u8, 32u8] + dec_digits(payload.len()) + crlf()
        + payload + crlf() + kw_end() + crlf()
}

/// Round trip of a key through the wire: a single-key retrieval whose
/// reply echoes the key yields exactly that key and payload, and
/// consumes the whole reply. The key must be a real token (non-empty,
/// no whitespace, no line-terminator bytes), and the payload must be
/// a line of its own: free of carriage returns and not the terminator
/// word itself.
pub proof fn lemma_value_reply_round_trip(k: Seq<u8>, payload: Seq<u8>, q: Seq<u8>)
    requires
        0 < k.len(),
        forall|i: int| 0 <= i < k.len() ==> !is_ws(#[trigger] k[i]) && k[i] != 13u8 && k[i]
            != 10u8,
        no_cr(payload),
        payload != kw_end(),
    ensures
        decode_spec(value_reply(k, payload), CommandV::Get { key: q }) == (Decoded::Done {
            resp: RespV::Value { key: k, item: ItemView { value: payload, expires: None::<u64> } },
            used: value_reply(k, payload).len() as int,
        }),
{
    let dec = dec_digits(payload.len());
    let header = kw_value() + seq![32u8] + k + seq![32u8, 48u8, 32u8] + dec;
    let reply = value_reply(k, payload);
    lemma_dec_digits_are_digits(payload.len());
    assert(no_cr(header));
    let after_header = payload + crlf() + kw_end() + crlf();
    assert(reply =~= header + crlf() + after_header);
    lemma_find_crlf_clean(header, after_header);
    let j = header.len() as int;
    assert(find_crlf(reply) == j);
    assert(reply.take(j) == header);

    // The header tokenizes as `VALUE`, the key, and the rest.
    assert(header =~= kw_value() + seq![32u8] + k + seq![32u8] + (seq![48u8, 32u8] + dec));
    lemma_echoed_key(k, seq![48u8, 32u8] + dec);
    assert(key_of_bytes(header) == Ok::<Seq<u8>, ErrV>(k));
    let toks = tokens_of(header);
    assert(toks.len() > 0 && toks[0] == kw_value());

    // The classifier reaches the retrieval branch: `VALUE` is none of
    // the single-line keywords.
    assert(kw_value().len() == 5);

    // The block is complete: header line, payload line, terminator.
    assert(header != kw_end());
    let rest1 = reply.skip(j + 2);
    assert(rest1 =~= payload + crlf() + (kw_end() + crlf()));
    lemma_find_crlf_clean(payload, kw_end() + crlf());
    assert(find_crlf(rest1) == payload.len() as int);
    assert(rest1.take(payload.len() as int) == payload);
    let rest2 = rest1.skip(payload.len() as int + 2);
    assert(rest2 =~= kw_end() + crlf() + Seq::<u8>::empty());
    lemma_find_crlf_clean(kw_end(), Seq::<u8>::empty());
    assert(find_crlf(rest2) == 3);
    assert(rest2.take(3) == kw_end());
    assert(block_lines(rest2) == Some((Seq::<Seq<u8>>::empty(), 5int)));
    assert(block_lines(rest1) == Some((seq![payload], payload.len() + 7int)));
    assert(block_lines(reply) == Some((seq![header, payload], j + 2 + payload.len() + 7)));
    assert(seq![header, payload][0] == header && seq![header, payload][1] == payload);
    assert(j + 2 + payload.len() + 7 == reply.len());
}

/// Once a decode attempt has reached a verdict, a complete response or
/// a failure, feeding the decoder more bytes never changes it: the
/// first CRLF and the block terminator it judged by sit in the bytes
/// it already had. Hence a response fed one byte at a time decodes to
/// exactly what it decodes to when fed at once.
pub proof fn lemma_decode_extension(buf: Seq<u8>, ext: Seq<u8>, cmd: CommandV)
    requires
        !(decode_spec(buf, cmd) is NeedMore),
    ensures
        decode_spec(buf + ext, cmd) == decode_spec(buf, cmd),
{
    let s = buf + ext;
    let j = find_crlf(buf);
    assert(j >= 0);
    lemma_find_crlf_bounds(buf, 0);
    lemma_find_crlf_ext(buf, ext, 0);
    assert(find_crlf(s) == j);
    assert(s.take(j) =~= buf.take(j));
    let line0 = buf.take(j);
    let toks = tokens_of(line0);
    if toks[0] == kw_value() || toks[0] == kw_stat() {
        assert(block_lines(buf) is Some);
        lemma_block_lines_ext(buf, ext);
    }
}

/// A CRLF found in a buffer is still the first CRLF after the buffer
/// grows.
proof fn lemma_find_crlf_ext(s: Seq<u8>, e: Seq<u8>, i: int)
    requires
        0 <= i,
        find_crlf_at(s, i) >= 0,
    ensures
        find_crlf_at(s + e, i) == find_crlf_at(s, i),
    decreases s.len() - i,
{
    if !(i + 2 > s.len()) && !(s[i] == 13u8 && s[i + 1] == 10u8) {
        lemma_find_crlf_ext(s, e, i + 1);
    }
}

/// A complete reply block is still the same block after the buffer
/// grows.
proof fn lemma_block_lines_ext(s: Seq<u8>, e: Seq<u8>)
    requires
        block_lines(s) is Some,
    ensures
        block_lines(s + e) == block_lines(s),
    decreases s.len(),
{
    let j = find_crlf(s);
    lemma_find_crlf_bounds(s, 0);
    lemma_find_crlf_ext(s, e, 0);
    assert((s + e).take(j) =~= s.take(j));
    if s.take(j) != kw_end() {
        assert((s + e).skip(j + 2) =~= s.skip(j + 2) + e);
        lemma_block_lines_ext(s.skip(j + 2), e);
    }
}

} // verus!
