//! Byte-level primitives shared by the encoder and the decoder: scanning
//! for CRLF line terminators, whitespace tokenization, and unsigned
//! decimal numerals.
use vstd::prelude::*;

verus! {

/// Byte value of carriage return.
pub const CR: u8 = 13;

/// Byte value of line feed.
pub const LF: u8 = 10;

/// ASCII whitespace as the protocol uses it between tokens.
pub open spec fn is_ws(b: u8) -> bool {
    b == 32u8 || b == 9u8
}

/// Index of the first CRLF pair of `s` at or after `i`, or -1 if there
/// is none.
pub open spec fn find_crlf_at(s: Seq<u8>, i: int) -> int
    decreases s.len() - i,
{
    if i < 0 || i + 2 > s.len() {
        -1
    } else if s[i] == 13u8 && s[i + 1] == 10u8 {
        i
    } else {
        find_crlf_at(s, i + 1)
    }
}

/// Index of the first CRLF pair of `s`, or -1 if no complete line is
/// buffered yet.
pub open spec fn find_crlf(s: Seq<u8>) -> int {
    find_crlf_at(s, 0)
}

/// A found CRLF index is in bounds and leaves room for the two
/// terminator bytes.
pub proof fn lemma_find_crlf_bounds(s: Seq<u8>, i: int)
    requires
        0 <= i,
    ensures
        find_crlf_at(s, i) == -1 || (i <= find_crlf_at(s, i) && find_crlf_at(s, i) + 2 <= s.len()),
    decreases s.len() - i,
{
    if !(i < 0 || i + 2 > s.len()) && !(s[i] == 13u8 && s[i + 1] == 10u8) {
        lemma_find_crlf_bounds(s, i + 1);
    }
}

/// Scan `s` for the first CRLF pair.
#[verifier::loop_isolation(false)]
pub fn crlf_pos(s: &[u8]) -> (r: Option<usize>)
    ensures
        match r {
            Some(j) => find_crlf(s@) == j as int,
            None => find_crlf(s@) == -1,
        },
{
    let n = s.len();
    if n < 2 {
        return None;
    }
    let mut i: usize = 0;
    while i <= n - 2
        invariant
            0 <= i <= n,
            find_crlf(s@) == find_crlf_at(s@, i as int),
        decreases n - i,
    {
        if s[i] == CR && s[i + 1] == LF {
            return Some(i);
        }
        i = i + 1;
    }
    None
}

/// Whether two byte slices hold the same bytes.
#[verifier::loop_isolation(false)]
pub fn bytes_eq(a: &[u8], b: &[u8]) -> (r: bool)
    ensures
        r == (a@ == b@),
{
    if a.len() != b.len() {
        proof {
            assert(a@.len() != b@.len());
        }
        return false;
    }
    let n = a.len();
    let mut i: usize = 0;
    while i < n
        invariant
            0 <= i <= n,
            a@.len() == n,
            b@.len() == n,
            forall|k: int| 0 <= k < i ==> a@[k] == b@[k],
        decreases n - i,
    {
        if a[i] != b[i] {
            return false;
        }
        i = i + 1;
    }
    proof {
        assert(a@ =~= b@);
    }
    true
}

/// End of the token that starts at `i`: the index of the first
/// whitespace byte at or after `i`, or the length of `s`.
pub open spec fn tok_end(s: Seq<u8>, i: int) -> int
    decreases s.len() - i,
{
    if i < 0 || i >= s.len() {
        s.len() as int
    } else if is_ws(s[i]) {
        i
    } else {
        tok_end(s, i + 1)
    }
}

pub proof fn lemma_tok_end_bounds(s: Seq<u8>, i: int)
    requires
        0 <= i <= s.len(),
    ensures
        i <= tok_end(s, i) <= s.len(),
    decreases s.len() - i,
{
    if i < s.len() && !is_ws(s[i]) {
        lemma_tok_end_bounds(s, i + 1);
    }
}

#[via_fn]
proof fn tokens_from_dec(s: Seq<u8>, i: int) {
    if 0 <= i < s.len() && !is_ws(s[i]) {
        lemma_tok_end_bounds(s, i + 1);
    }
}

/// The whitespace-separated tokens of `s` at or after `i`, in order.
pub open spec fn tokens_from(s: Seq<u8>, i: int) -> Seq<Seq<u8>>
    decreases s.len() - i,
        via tokens_from_dec
{
    if i < 0 || i >= s.len() {
        seq![]
    } else if is_ws(s[i]) {
        tokens_from(s, i + 1)
    } else {
        seq![s.subrange(i, tok_end(s, i))] + tokens_from(s, tok_end(s, i))
    }
}

/// The whitespace-separated tokens of `s`, in order. A line with no
/// non-whitespace byte has no tokens.
pub open spec fn tokens_of(s: Seq<u8>) -> Seq<Seq<u8>> {
    tokens_from(s, 0)
}

/// Split `line` into its whitespace-separated tokens.
#[verifier::loop_isolation(false)]
pub fn split_ws(line: &[u8]) -> (r: Vec<Vec<u8>>)
    ensures
        r.deep_view() == tokens_of(line@),
{
    let n = line.len();
    let mut r: Vec<Vec<u8>> = Vec::new();
    let mut i: usize = 0;
    while i < n
        invariant
            0 <= i <= n,
            r.deep_view() + tokens_from(line@, i as int) =~= tokens_of(line@),
        decreases n - i,
    {
        if line[i] == 32 || line[i] == 9 {
            i = i + 1;
        } else {
            let start = i;
            let mut j: usize = i;
            while j < n && !(line[j] == 32 || line[j] == 9)
                invariant
                    start <= j <= n,
                    tok_end(line@, start as int) == tok_end(line@, j as int),
                decreases n - j,
            {
                j = j + 1;
            }
            proof {
                assert(tok_end(line@, start as int) == j as int);
            }
            let tok = sub_vec(line, start, j);
            r.push(tok);
            proof {
                assert(r.deep_view().last() =~= line@.subrange(start as int, j as int));
                assert(r.deep_view() =~= r.deep_view().subrange(0, r.deep_view().len() - 1).push(
                    line@.subrange(start as int, j as int),
                ));
                assert(r.deep_view() + tokens_from(line@, j as int) =~= tokens_of(line@));
            }
            i = j;
        }
    }
    proof {
        assert(r.deep_view() =~= tokens_of(line@));
    }
    r
}

/// Whether `b` is an ASCII decimal digit.
pub open spec fn is_digit(b: u8) -> bool {
    48 <= b <= 57
}

/// Whether `s` is a non-empty run of ASCII decimal digits.
pub open spec fn is_dec(s: Seq<u8>) -> bool {
    s.len() > 0 && forall|i: int| 0 <= i < s.len() ==> is_digit(s[i])
}

pub open spec fn digit_val(b: u8) -> nat {
    if is_digit(b) {
        (b - 48) as nat
    } else {
        0
    }
}

/// The value of `s` read as an unsigned decimal numeral.
pub open spec fn dec_val(s: Seq<u8>) -> nat
    decreases s.len(),
{
    if s.len() == 0 {
        0
    } else {
        dec_val(s.drop_last()) * 10 + digit_val(s.last())
    }
}

/// Reading more digits never shrinks the value.
pub proof fn lemma_dec_val_prefix(s: Seq<u8>, i: int)
    requires
        0 <= i <= s.len(),
    ensures
        dec_val(s.take(i)) <= dec_val(s),
    decreases s.len() - i,
{
    if i < s.len() {
        assert(s.take(i + 1).drop_last() =~= s.take(i));
        assert(dec_val(s.take(i)) <= dec_val(s.take(i + 1)));
        lemma_dec_val_prefix(s, i + 1);
    } else {
        assert(s.take(i) =~= s);
    }
}

/// Read `s` as an unsigned decimal numeral: `Some` exactly when `s` is
/// a non-empty run of digits whose value fits in a `u64`.
#[verifier::loop_isolation(false)]
pub fn parse_u64(s: &[u8]) -> (r: Option<u64>)
    ensures
        match r {
            Some(v) => is_dec(s@) && v == dec_val(s@),
            None => !is_dec(s@) || dec_val(s@) > u64::MAX,
        },
{
    let n = s.len();
    if n == 0 {
        return None;
    }
    let mut acc: u64 = 0;
    let mut i: usize = 0;
    while i < n
        invariant
            0 <= i <= n,
            forall|k: int| 0 <= k < i ==> is_digit(s@[k]),
            acc == dec_val(s@.take(i as int)),
        decreases n - i,
    {
        let b = s[i];
        if b < 48 || b > 57 {
            return None;
        }
        let d = (b - 48) as u64;
        proof {
            assert(s@.take(i + 1 as int).drop_last() =~= s@.take(i as int));
            assert(s@.take(i + 1 as int).last() == s@[i as int]);
        }
        if acc > (u64::MAX - d) / 10 {
            proof {
                assert(acc * 10 + d > u64::MAX) by {
                    let q = (u64::MAX - d) / 10;
                    assert(acc >= q + 1);
                    assert(acc * 10 >= (q + 1) * 10) by (nonlinear_arith)
                        requires
                            acc >= q + 1,
                    ;
                    assert(q * 10 + 10 > u64::MAX - d);
                }
                assert(dec_val(s@.take(i + 1 as int)) > u64::MAX);
                lemma_dec_val_prefix(s@, i + 1 as int);
            }
            return None;
        }
        proof {
            let q = (u64::MAX - d) / 10;
            assert(acc * 10 <= q * 10) by (nonlinear_arith)
                requires
                    acc <= q,
            ;
            assert(q * 10 <= u64::MAX - d);
        }
        acc = acc * 10 + d;
        i = i + 1;
    }
    proof {
        assert(s@.take(n as int) =~= s@);
    }
    Some(acc)
}

/// The decimal numeral of `n`, most significant digit first, with no
/// leading zeros (a single `0` for zero).
pub open spec fn dec_digits(n: nat) -> Seq<u8>
    decreases n,
{
    if n < 10 {
        seq![(48 + n) as u8]
    } else {
        dec_digits(n / 10).push((48 + n % 10) as u8)
    }
}

/// Write `n` as a decimal numeral.
#[verifier::loop_isolation(false)]
pub fn u64_to_dec(n: u64) -> (r: Vec<u8>)
    ensures
        r@ == dec_digits(n as nat),
{
    let mut out: Vec<u8> = Vec::new();
    let mut m: u64 = n;
    while m >= 10
        invariant
            dec_digits(n as nat) =~= dec_digits(m as nat) + out@,
        decreases m,
    {
        let d = (m % 10) as u8 + 48;
        out.insert(0, d);
        m = m / 10;
        proof {
            assert(dec_digits(n as nat) =~= dec_digits(m as nat) + out@);
        }
    }
    out.insert(0, (m as u8) + 48);
    proof {
        assert(out@ =~= dec_digits(n as nat));
    }
    out
}

/// Copy of the bytes of `s` from `from` (inclusive) to `to` (exclusive).
#[verifier::loop_isolation(false)]
pub fn sub_vec(s: &[u8], from: usize, to: usize) -> (r: Vec<u8>)
    requires
        from <= to <= s@.len(),
    ensures
        r@ == s@.subrange(from as int, to as int),
{
    let mut r: Vec<u8> = Vec::new();
    let mut i: usize = from;
    while i < to
        invariant
            from <= i <= to,
            r@ == s@.subrange(from as int, i as int),
        decreases to - i,
    {
        let b = s[i];
        r.push(b);
        proof {
            assert(r@ =~= s@.subrange(from as int, i + 1 as int));
        }
        i = i + 1;
    }
    r
}

} // verus!
