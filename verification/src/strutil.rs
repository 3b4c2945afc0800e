//! Verified string utilities: character classification, substring search,
//! trimming, replacement, decimal parsing and formatting, and the small
//! path algebra (join, parent, basename) this crate models host paths with.

use vstd::prelude::*;

verus! {

/// Whitespace characters recognised when trimming values.
pub open spec fn is_space(c: char) -> bool {
    c == ' ' || c == '\t' || c == '\n' || c == '\r' || c == '\u{0c}' || c == '\u{0b}'
}

/// Executable test for [`is_space`].
pub fn is_space_char(c: char) -> (r: bool)
    ensures
        r == is_space(c),
{
    c == ' ' || c == '\t' || c == '\n' || c == '\r' || c == '\u{0c}' || c == '\u{0b}'
}

/// The characters of a string slice, as a vector.
pub fn str_to_chars(s: &str) -> (r: Vec<char>)
    ensures
        r@ == s@,
{
    let n: usize = s.unicode_len();
    let mut out: Vec<char> = Vec::new();
    let mut i: usize = 0;
    while i < n
        invariant
            n == s@.len(),
            i <= n,
            out@ == s@.subrange(0, i as int),
        decreases n - i,
    {
        out.push(s.get_char(i));
        i = i + 1;
        proof {
            assert(out@ =~= s@.subrange(0, i as int));
        }
    }
    proof {
        assert(out@ =~= s@);
    }
    out
}

/// Relies on std's `String: FromIterator<char>`: collecting characters
/// yields the string with exactly those characters in order.
#[verifier::external_body]
pub fn chars_to_string(v: &Vec<char>) -> (r: String)
    ensures
        r@ == v@,
{
    v.iter().collect()
}

/// The pattern `n` occurs in `h` starting at position `i`.
pub open spec fn has_sub_at(h: Seq<char>, n: Seq<char>, i: int) -> bool {
    0 <= i && i + n.len() <= h.len() && h.subrange(i, i + n.len() as int) == n
}

/// The pattern `n` occurs somewhere in `h`.
pub open spec fn contains_seq(h: Seq<char>, n: Seq<char>) -> bool {
    exists|i: int| has_sub_at(h, n, i)
}

/// Whether `n` occurs in `h` at position `i`.
fn match_at(h: &Vec<char>, n: &Vec<char>, i: usize) -> (r: bool)
    requires
        i + n@.len() <= h@.len(),
    ensures
        r == has_sub_at(h@, n@, i as int),
{
    let hn = h.len();
    let mut j: usize = 0;
    while j < n.len()
        invariant
            i + n@.len() <= h@.len(),
            h@.len() == hn,
            j <= n@.len(),
            forall|k: int| 0 <= k < j ==> h@[i + k] == n@[k],
        decreases n@.len() - j,
    {
        if h[i + j] != n[j] {
            proof {
                assert(h@.subrange(i as int, i + n@.len() as int)[j as int] != n@[j as int]);
            }
            return false;
        }
        j = j + 1;
    }
    proof {
        assert(h@.subrange(i as int, i + n@.len() as int) =~= n@);
    }
    true
}

/// The position of the leftmost occurrence of `n` in `h`, if any.
pub fn find_sub(h: &Vec<char>, n: &Vec<char>) -> (r: Option<usize>)
    ensures
        match r {
            Some(i) => has_sub_at(h@, n@, i as int) && forall|j: int|
                0 <= j < i ==> !has_sub_at(h@, n@, j),
            None => !contains_seq(h@, n@),
        },
{
    if n.len() > h.len() {
        return None;
    }
    if n.len() == 0 {
        proof {
            assert(h@.subrange(0, 0) =~= n@);
        }
        return Some(0);
    }
    let last: usize = h.len() - n.len();
    let mut i: usize = 0;
    while i <= last
        invariant
            1 <= n@.len() <= h@.len(),
            h@.len() <= usize::MAX,
            last == h@.len() - n@.len(),
            i <= last + 1,
            forall|j: int| 0 <= j < i ==> !has_sub_at(h@, n@, j),
        decreases last + 1 - i,
    {
        if match_at(h, n, i) {
            return Some(i);
        }
        i = i + 1;
    }
    None
}

/// Whether the string `h` contains the string `n`.
pub fn str_contains(h: &str, n: &str) -> (r: bool)
    ensures
        r == contains_seq(h@, n@),
{
    let hv = str_to_chars(h);
    let nv = str_to_chars(n);
    match find_sub(&hv, &nv) {
        Some(_) => true,
        None => false,
    }
}

/// Copy of `v[from..to]`.
pub fn sub_vec(v: &Vec<char>, from: usize, to: usize) -> (out: Vec<char>)
    requires
        from <= to <= v@.len(),
    ensures
        out@ == v@.subrange(from as int, to as int),
{
    let mut out: Vec<char> = Vec::new();
    let mut i: usize = from;
    while i < to
        invariant
            from <= i <= to <= v@.len(),
            out@ == v@.subrange(from as int, i as int),
        decreases to - i,
    {
        out.push(v[i]);
        i = i + 1;
        proof {
            assert(out@ =~= v@.subrange(from as int, i as int));
        }
    }
    out
}

/// Append every character of `src` to `out`.
pub fn push_all(out: &mut Vec<char>, src: &Vec<char>)
    ensures
        final(out)@ == old(out)@ + src@,
{
    let n = src.len();
    let mut i: usize = 0;
    while i < n
        invariant
            n == src@.len(),
            i <= n,
            out@ == old(out)@ + src@.subrange(0, i as int),
        decreases n - i,
    {
        out.push(src[i]);
        i = i + 1;
        proof {
            assert(old(out)@ + src@.subrange(0, i - 1) + seq![src@[i - 1]] =~= old(out)@
                + src@.subrange(0, i as int));
        }
    }
    proof {
        assert(old(out)@ + src@.subrange(0, n as int) =~= old(out)@ + src@);
    }
}

/// `s` with leading whitespace removed.
pub open spec fn trim_start_spec(s: Seq<char>) -> Seq<char>
    decreases s.len(),
{
    if s.len() > 0 && is_space(s[0]) {
        trim_start_spec(s.skip(1))
    } else {
        s
    }
}

/// `s` with trailing whitespace removed.
pub open spec fn trim_end_spec(s: Seq<char>) -> Seq<char>
    decreases s.len(),
{
    if s.len() > 0 && is_space(s.last()) {
        trim_end_spec(s.drop_last())
    } else {
        s
    }
}

/// `s` with whitespace removed from both ends.
pub open spec fn trim_spec(s: Seq<char>) -> Seq<char> {
    trim_end_spec(trim_start_spec(s))
}

/// The index of the first non-whitespace character of `v`.
fn first_non_space(v: &Vec<char>) -> (a: usize)
    ensures
        a <= v@.len(),
        trim_start_spec(v@) == v@.skip(a as int),
        forall|j: int| 0 <= j < a ==> is_space(v@[j]),
        a < v@.len() ==> !is_space(v@[a as int]),
{
    let n = v.len();
    let mut a: usize = 0;
    proof {
        assert(v@.skip(0) =~= v@);
    }
    while a < n && is_space_char(v[a])
        invariant
            n == v@.len(),
            a <= n,
            trim_start_spec(v@) == trim_start_spec(v@.skip(a as int)),
            forall|j: int| 0 <= j < a ==> is_space(v@[j]),
        decreases n - a,
    {
        proof {
            assert(v@.skip(a as int).skip(1) =~= v@.skip(a + 1));
        }
        a = a + 1;
    }
    proof {
        if a < v@.len() {
            assert(trim_start_spec(v@.skip(a as int)) == v@.skip(a as int));
        } else {
            assert(v@.skip(a as int) =~= Seq::<char>::empty());
        }
    }
    a
}

/// Characters of `v` with whitespace removed from both ends.
pub fn trim_chars(v: &Vec<char>) -> (out: Vec<char>)
    ensures
        out@ == trim_spec(v@),
{
    let n = v.len();
    let a = first_non_space(v);
    let ghost t = v@.skip(a as int);
    let mut b: usize = n;
    proof {
        assert(t.take(n - a) =~= t);
    }
    while b > a && is_space_char(v[b - 1])
        invariant
            n == v@.len(),
            a <= b <= n,
            t == v@.skip(a as int),
            trim_end_spec(t) == trim_end_spec(t.take(b - a)),
            forall|j: int| 0 <= j < a ==> is_space(v@[j]),
            a < v@.len() ==> !is_space(v@[a as int]),
        decreases b,
    {
        proof {
            assert(t.take(b - a).last() == v@[b - 1]);
            assert(t.take(b - a).drop_last() =~= t.take(b - a - 1));
        }
        b = b - 1;
    }
    proof {
        if b == a {
            assert(t.take(0) =~= Seq::<char>::empty());
        } else {
            assert(t.take(b - a).last() == v@[b - 1]);
            assert(trim_end_spec(t.take(b - a)) == t.take(b - a));
        }
        assert(t.take(b - a) =~= v@.subrange(a as int, b as int));
    }
    sub_vec(v, a, b)
}

/// `s` trimmed at both ends, as a fresh string.
pub fn trim_str(s: &str) -> (out: String)
    ensures
        out@ == trim_spec(s@),
{
    let v = str_to_chars(s);
    let t = trim_chars(&v);
    chars_to_string(&t)
}

/// After leading whitespace, `s` begins with `/` (a container-absolute path).
pub open spec fn is_container_absolute(s: Seq<char>) -> bool {
    trim_start_spec(s).len() > 0 && trim_start_spec(s)[0] == '/'
}

/// Executable test for [`is_container_absolute`].
pub fn container_absolute(v: &Vec<char>) -> (r: bool)
    ensures
        r == is_container_absolute(v@),
{
    let a = first_non_space(v);
    if a < v.len() {
        v[a] == '/'
    } else {
        proof {
            assert(v@.skip(a as int) =~= Seq::<char>::empty());
        }
        false
    }
}

/// `s` with every non-overlapping occurrence of `p`, scanned left to right,
/// replaced by `r`.
pub open spec fn replace_seq(s: Seq<char>, p: Seq<char>, r: Seq<char>) -> Seq<char>
    decreases s.len(),
{
    if p.len() == 0 || s.len() < p.len() {
        s
    } else if s.subrange(0, p.len() as int) == p {
        r + replace_seq(s.skip(p.len() as int), p, r)
    } else {
        seq![s[0]] + replace_seq(s.skip(1), p, r)
    }
}

/// Replacement, on character vectors.
pub fn replace_chars(s: &Vec<char>, p: &Vec<char>, r: &Vec<char>) -> (out: Vec<char>)
    requires
        p@.len() >= 1,
    ensures
        out@ == replace_seq(s@, p@, r@),
{
    let n = s.len();
    let mut out: Vec<char> = Vec::new();
    let mut i: usize = 0;
    proof {
        assert(s@.skip(0) =~= s@);
        assert(Seq::<char>::empty() + replace_seq(s@, p@, r@) =~= replace_seq(s@, p@, r@));
    }
    while i < n
        invariant
            n == s@.len(),
            p@.len() >= 1,
            i <= n,
            replace_seq(s@, p@, r@) == out@ + replace_seq(s@.skip(i as int), p@, r@),
        decreases n - i,
    {
        if p.len() <= n - i && match_at(s, p, i) {
            push_all(&mut out, r);
            proof {
                let tail = s@.skip(i as int);
                assert(tail.subrange(0, p@.len() as int) =~= s@.subrange(
                    i as int,
                    i + p@.len(),
                ));
                assert(tail.skip(p@.len() as int) =~= s@.skip(i + p@.len()));
            }
            i = i + p.len();
        } else {
            out.push(s[i]);
            proof {
                let tail = s@.skip(i as int);
                if tail.len() >= p@.len() {
                    assert(tail.subrange(0, p@.len() as int) =~= s@.subrange(
                        i as int,
                        i + p@.len(),
                    ));
                }
                assert(tail.skip(1) =~= s@.skip(i + 1));
                assert(seq![tail[0]] + tail.skip(1) =~= tail);
            }
            i = i + 1;
        }
    }
    proof {
        assert(s@.skip(n as int) =~= Seq::<char>::empty());
        assert(out@ + Seq::<char>::empty() =~= out@);
    }
    out
}

/// Replacement, on string slices.
pub fn replace_str(s: &str, p: &str, r: &str) -> (out: String)
    requires
        p@.len() >= 1,
    ensures
        out@ == replace_seq(s@, p@, r@),
{
    let sv = str_to_chars(s);
    let pv = str_to_chars(p);
    let rv = str_to_chars(r);
    let ov = replace_chars(&sv, &pv, &rv);
    chars_to_string(&ov)
}


/// A decimal digit character.
pub open spec fn is_digit(c: char) -> bool {
    48 <= c as u32 <= 57
}

/// Numeric value of a digit character.
pub open spec fn digit_val(c: char) -> int {
    c as u32 - 48
}

/// Every character of `s` is a decimal digit.
pub open spec fn all_digits(s: Seq<char>) -> bool {
    forall|i: int| 0 <= i < s.len() ==> is_digit(s[i])
}

/// The number denoted by a string of decimal digits, most significant first.
pub open spec fn digits_val(s: Seq<char>) -> int
    decreases s.len(),
{
    if s.len() == 0 {
        0
    } else {
        digits_val(s.drop_last()) * 10 + digit_val(s.last())
    }
}

/// `s` without an optional leading plus sign.
pub open spec fn unsigned_part(s: Seq<char>) -> Seq<char> {
    if s.len() > 0 && s[0] == '+' {
        s.skip(1)
    } else {
        s
    }
}

/// `s` denotes an unsigned 16-bit port number, as `u16::from_str` accepts it:
/// an optional plus sign, then one or more digits, value at most 65535.
pub open spec fn is_u16_string(s: Seq<char>) -> bool {
    let d = unsigned_part(s);
    d.len() > 0 && all_digits(d) && digits_val(d) <= 65535
}

/// The number denoted by `s`, when [`is_u16_string`] holds of it.
pub open spec fn u16_value(s: Seq<char>) -> int {
    digits_val(unsigned_part(s))
}

proof fn lemma_digits_val_nonneg(s: Seq<char>)
    requires
        all_digits(s),
    ensures
        digits_val(s) >= 0,
    decreases s.len(),
{
    if s.len() > 0 {
        assert(all_digits(s.drop_last()));
        lemma_digits_val_nonneg(s.drop_last());
    }
}

proof fn lemma_digits_prefix_le(d: Seq<char>, i: int)
    requires
        0 <= i <= d.len(),
        all_digits(d),
    ensures
        digits_val(d.subrange(0, i)) <= digits_val(d),
    decreases d.len() - i,
{
    if i == d.len() {
        assert(d.subrange(0, i) =~= d);
    } else {
        let pre = d.subrange(0, i);
        let ext = d.subrange(0, i + 1);
        assert(ext.drop_last() =~= pre);
        assert(all_digits(pre));
        lemma_digits_val_nonneg(pre);
        assert(digits_val(ext) == digits_val(pre) * 10 + digit_val(ext.last()));
        lemma_digits_prefix_le(d, i + 1);
    }
}

/// Parse an unsigned 16-bit number, accepting exactly the strings that
/// [`is_u16_string`] describes.
pub fn parse_u16(v: &Vec<char>) -> (r: Option<u16>)
    ensures
        r is Some <==> is_u16_string(v@),
        r is Some ==> r->0 == u16_value(v@),
{
    let n = v.len();
    let start: usize = if n > 0 && v[0] == '+' {
        1
    } else {
        0
    };
    let ghost d = unsigned_part(v@);
    proof {
        if start == 1 {
            assert(d =~= v@.skip(1));
        } else {
            assert(d =~= v@);
        }
    }
    if start == n {
        proof {
            assert(d.len() == 0);
        }
        return None;
    }
    let mut acc: u32 = 0;
    let mut i: usize = start;
    while i < n
        invariant
            start <= i <= n,
            n == v@.len(),
            d == unsigned_part(v@),
            d.len() == n - start,
            forall|k: int| 0 <= k < d.len() ==> d[k] == v@[start + k],
            all_digits(d.subrange(0, i - start)),
            acc <= 65535,
            acc == digits_val(d.subrange(0, i - start)),
        decreases n - i,
    {
        let c = v[i];
        let cu: u32 = c as u32;
        if cu < 48 || cu > 57 {
            proof {
                assert(d[i - start] == v@[i as int]);
                assert(!is_digit(d[i - start]));
            }
            return None;
        }
        let dv: u32 = cu - 48;
        proof {
            let pre = d.subrange(0, i - start);
            let ext = d.subrange(0, i + 1 - start);
            assert(ext.drop_last() =~= pre);
            assert(ext.last() == v@[i as int]);
        }
        acc = acc * 10 + dv;
        i = i + 1;
        if acc > 65535 {
            proof {
                if all_digits(d) {
                    lemma_digits_prefix_le(d, i - start);
                }
            }
            return None;
        }
    }
    proof {
        assert(d.subrange(0, n - start) =~= d);
    }
    Some(acc as u16)
}

/// The digit character for a value in 0..10.
pub open spec fn dec_digit(n: int) -> char {
    if n == 0 { '0' }
    else if n == 1 { '1' }
    else if n == 2 { '2' }
    else if n == 3 { '3' }
    else if n == 4 { '4' }
    else if n == 5 { '5' }
    else if n == 6 { '6' }
    else if n == 7 { '7' }
    else if n == 8 { '8' }
    else { '9' }
}

/// Decimal representation of `n`, most significant digit first, no sign,
/// no leading zeros (a lone zero for 0).
pub open spec fn dec_seq(n: nat) -> Seq<char>
    decreases n,
{
    if n < 10 {
        seq![dec_digit(n as int)]
    } else {
        dec_seq(n / 10) + seq![dec_digit((n % 10) as int)]
    }
}

fn dec_digit_char(n: u64) -> (c: char)
    requires
        n < 10,
    ensures
        c == dec_digit(n as int),
{
    if n == 0 { '0' }
    else if n == 1 { '1' }
    else if n == 2 { '2' }
    else if n == 3 { '3' }
    else if n == 4 { '4' }
    else if n == 5 { '5' }
    else if n == 6 { '6' }
    else if n == 7 { '7' }
    else if n == 8 { '8' }
    else { '9' }
}

fn push_dec(n: u64, out: &mut Vec<char>)
    ensures
        final(out)@ == old(out)@ + dec_seq(n as nat),
    decreases n,
{
    if n < 10 {
        out.push(dec_digit_char(n));
    } else {
        push_dec(n / 10, out);
        out.push(dec_digit_char(n % 10));
    }
}

/// The decimal representation of `n`.
pub fn u64_to_string(n: u64) -> (r: String)
    ensures
        r@ == dec_seq(n as nat),
{
    let mut v: Vec<char> = Vec::new();
    push_dec(n, &mut v);
    proof {
        assert(Seq::<char>::empty() + dec_seq(n as nat) =~= dec_seq(n as nat));
    }
    chars_to_string(&v)
}

/// Decimal representation of a signed number: a minus sign before the
/// magnitude when negative.
pub open spec fn dec_i32_seq(n: int) -> Seq<char> {
    if n >= 0 {
        dec_seq(n as nat)
    } else {
        seq!['-'] + dec_seq((-n) as nat)
    }
}

/// The decimal representation of a signed 32-bit number.
pub fn i32_to_string(n: i32) -> (r: String)
    ensures
        r@ == dec_i32_seq(n as int),
{
    if n >= 0 {
        u64_to_string(n as u64)
    } else {
        let mag: u64 = (-(n as i64)) as u64;
        let mut v: Vec<char> = Vec::new();
        v.push('-');
        push_dec(mag, &mut v);
        proof {
            assert(seq!['-'] + dec_seq(mag as nat) =~= dec_i32_seq(n as int));
        }
        chars_to_string(&v)
    }
}


/// An absolute path: begins with a slash.
pub open spec fn is_abs_path(s: Seq<char>) -> bool {
    s.len() > 0 && s[0] == '/'
}

/// Executable test for [`is_abs_path`].
pub fn path_is_absolute(s: &str) -> (r: bool)
    ensures
        r == is_abs_path(s@),
{
    let v = str_to_chars(s);
    v.len() > 0 && v[0] == '/'
}

/// Joining `child` onto `base`, as Unix paths join: an absolute child
/// replaces the base; otherwise the two are glued with a single separator.
pub open spec fn join_path_spec(base: Seq<char>, child: Seq<char>) -> Seq<char> {
    if is_abs_path(child) {
        child
    } else if base.len() == 0 {
        child
    } else if base.last() == '/' {
        base + child
    } else {
        base + seq!['/'] + child
    }
}

/// Join `child` onto `base`.
pub fn join_path(base: &str, child: &str) -> (r: String)
    ensures
        r@ == join_path_spec(base@, child@),
{
    let bv = str_to_chars(base);
    let cv = str_to_chars(child);
    if cv.len() > 0 && cv[0] == '/' {
        chars_to_string(&cv)
    } else if bv.len() == 0 {
        chars_to_string(&cv)
    } else {
        let mut out = sub_vec(&bv, 0, bv.len());
        proof {
            assert(out@ =~= bv@);
        }
        if bv[bv.len() - 1] != '/' {
            out.push('/');
            proof {
                assert(out@ =~= bv@ + seq!['/']);
            }
        }
        push_all(&mut out, &cv);
        proof {
            if base@.last() == '/' {
                assert(out@ =~= base@ + child@);
            } else {
                assert(out@ =~= base@ + seq!['/'] + child@);
            }
        }
        chars_to_string(&out)
    }
}

/// `s` with trailing slashes removed.
pub open spec fn strip_trailing_slashes(s: Seq<char>) -> Seq<char>
    decreases s.len(),
{
    if s.len() > 0 && s.last() == '/' {
        strip_trailing_slashes(s.drop_last())
    } else {
        s
    }
}

/// The characters after the last slash of `s` (all of `s` when it has none).
pub open spec fn after_last_slash(s: Seq<char>) -> Seq<char>
    decreases s.len(),
{
    if s.len() == 0 {
        s
    } else if s.last() == '/' {
        Seq::<char>::empty()
    } else {
        after_last_slash(s.drop_last()) + seq![s.last()]
    }
}

/// The final path component of `s`: trailing slashes are ignored, and a
/// path ending in `..`, a bare root, or an empty string has none.
pub open spec fn basename_spec(s: Seq<char>) -> Option<Seq<char>> {
    let b = after_last_slash(strip_trailing_slashes(s));
    if b.len() == 0 || b == seq!['.', '.'] {
        None
    } else {
        Some(b)
    }
}

/// The path without its final component: trailing slashes are ignored; the
/// root and the empty string have no parent; a single relative component
/// has the empty parent.
pub open spec fn parent_spec(s: Seq<char>) -> Option<Seq<char>> {
    let t = strip_trailing_slashes(s);
    if t.len() == 0 {
        None
    } else {
        let p0 = t.take(t.len() - after_last_slash(t).len());
        if p0 == seq!['/'] {
            Some(p0)
        } else {
            Some(strip_trailing_slashes(p0))
        }
    }
}

fn strip_slashes_upto(v: &Vec<char>, upto: usize) -> (b: usize)
    requires
        upto <= v@.len(),
    ensures
        b <= upto,
        strip_trailing_slashes(v@.take(upto as int)) == v@.take(b as int),
        b > 0 ==> v@[b - 1] != '/',
{
    let mut b = upto;
    while b > 0 && v[b - 1] == '/'
        invariant
            b <= upto <= v@.len(),
            strip_trailing_slashes(v@.take(upto as int)) == strip_trailing_slashes(
                v@.take(b as int),
            ),
        decreases b,
    {
        proof {
            assert(v@.take(b as int).last() == v@[b - 1]);
            assert(v@.take(b as int).drop_last() =~= v@.take(b - 1));
        }
        b = b - 1;
    }
    proof {
        assert(strip_trailing_slashes(v@.take(b as int)) == v@.take(b as int));
    }
    b
}

fn scan_back_to_slash(v: &Vec<char>, b: usize) -> (k: usize)
    requires
        b <= v@.len(),
    ensures
        k <= b,
        after_last_slash(v@.take(b as int)) == v@.subrange(k as int, b as int),
        k > 0 ==> v@[k - 1] == '/',
{
    let ghost t = v@.take(b as int);
    let mut k = b;
    proof {
        assert(t.take(b as int) =~= t);
        assert(after_last_slash(t.take(b as int)) + v@.subrange(b as int, b as int)
            =~= after_last_slash(t));
    }
    while k > 0 && v[k - 1] != '/'
        invariant
            k <= b <= v@.len(),
            t == v@.take(b as int),
            after_last_slash(t) == after_last_slash(t.take(k as int)) + v@.subrange(
                k as int,
                b as int,
            ),
        decreases k,
    {
        proof {
            let cur = t.take(k as int);
            assert(cur.last() == v@[k - 1]);
            assert(cur.drop_last() =~= t.take(k - 1));
            assert(after_last_slash(cur) == after_last_slash(t.take(k - 1)) + seq![v@[k - 1]]);
            assert(after_last_slash(t.take(k - 1)) + seq![v@[k - 1]] + v@.subrange(
                k as int,
                b as int,
            ) =~= after_last_slash(t.take(k - 1)) + v@.subrange(k - 1, b as int));
        }
        k = k - 1;
    }
    proof {
        if k > 0 {
            assert(t.take(k as int).last() == v@[k - 1]);
            assert(after_last_slash(t.take(k as int)) =~= Seq::<char>::empty());
        } else {
            assert(t.take(0) =~= Seq::<char>::empty());
        }
        assert(Seq::<char>::empty() + v@.subrange(k as int, b as int) =~= v@.subrange(
            k as int,
            b as int,
        ));
    }
    k
}

/// The final path component of `s`, if it has one.
pub fn path_basename(s: &str) -> (r: Option<String>)
    ensures
        match r {
            Some(b) => basename_spec(s@) == Some(b@),
            None => basename_spec(s@) is None,
        },
{
    let v = str_to_chars(s);
    let b = strip_slashes_upto(&v, v.len());
    proof {
        assert(v@.take(v@.len() as int) =~= v@);
    }
    let k = scan_back_to_slash(&v, b);
    if k == b {
        return None;
    }
    if b - k == 2 && v[k] == '.' && v[k + 1] == '.' {
        proof {
            assert(v@.subrange(k as int, b as int) =~= seq!['.', '.']);
        }
        return None;
    }
    proof {
        let sub = v@.subrange(k as int, b as int);
        if sub == seq!['.', '.'] {
            assert(sub.len() == 2);
            assert(sub[0] == v@[k as int] && sub[1] == v@[k + 1]);
            assert(false);
        }
    }
    let bs = sub_vec(&v, k, b);
    Some(chars_to_string(&bs))
}

/// The parent of `s`, if it has one.
pub fn path_parent(s: &str) -> (r: Option<String>)
    ensures
        match r {
            Some(p) => parent_spec(s@) == Some(p@),
            None => parent_spec(s@) is None,
        },
{
    let v = str_to_chars(s);
    let b = strip_slashes_upto(&v, v.len());
    proof {
        assert(v@.take(v@.len() as int) =~= v@);
    }
    if b == 0 {
        return None;
    }
    let ghost t = v@.take(b as int);
    let k = scan_back_to_slash(&v, b);
    proof {
        assert(t.take(t.len() - after_last_slash(t).len()) =~= v@.take(k as int));
    }
    if k == 1 && v[0] == '/' {
        proof {
            assert(v@.take(1) =~= seq!['/']);
        }
        let pv = sub_vec(&v, 0, 1);
        proof {
            assert(pv@ =~= seq!['/']);
        }
        return Some(chars_to_string(&pv));
    }
    proof {
        if k > 0 {
            assert(v@.take(k as int).last() == v@[k - 1]);
            assert(v@.take(k as int) != seq!['/']);
        } else {
            assert(v@.take(0) =~= Seq::<char>::empty());
            assert(v@.take(k as int) != seq!['/']);
        }
    }
    let p = strip_slashes_upto(&v, k);
    let pv = sub_vec(&v, 0, p);
    proof {
        assert(pv@ =~= v@.take(p as int));
    }
    Some(chars_to_string(&pv))
}


/// Trimming a string with no whitespace characters leaves it unchanged.
pub proof fn lemma_trim_id(s: Seq<char>)
    requires
        forall|i: int| 0 <= i < s.len() ==> !is_space(s[i]),
    ensures
        trim_spec(s) == s,
{
    assert(trim_start_spec(s) == s);
    assert(trim_end_spec(s) == s);
}


/// Bracket nesting depth just after the first `i` characters of `s`: every
/// opening bracket counts, even inside string literals, so this is an upper
/// bound on the structural nesting of a JSON text.
pub open spec fn bracket_depth_at(s: Seq<char>, i: int) -> int
    decreases i,
{
    if i <= 0 {
        0
    } else {
        let prev = bracket_depth_at(s, i - 1);
        let c = s[i - 1];
        if c == '[' || c == '{' {
            prev + 1
        } else if (c == ']' || c == '}') && prev > 0 {
            prev - 1
        } else {
            prev
        }
    }
}

/// The deepest bracket nesting reached in the first `i` characters of `s`.
pub open spec fn max_bracket_depth_upto(s: Seq<char>, i: int) -> int
    decreases i,
{
    if i <= 0 {
        0
    } else {
        let m = max_bracket_depth_upto(s, i - 1);
        let d = bracket_depth_at(s, i);
        if d > m {
            d
        } else {
            m
        }
    }
}

/// The text's bracket nesting never exceeds `limit`. Because brackets
/// inside string literals also count, this is conservative: it admits no
/// text whose structural nesting exceeds `limit`.
pub open spec fn nesting_within(s: Seq<char>, limit: int) -> bool {
    max_bracket_depth_upto(s, s.len() as int) <= limit
}

/// Whether the text's bracket nesting stays within `limit`.
pub fn nesting_depth_within(text: &str, limit: usize) -> (r: bool)
    ensures
        r == nesting_within(text@, limit as int),
{
    let v = str_to_chars(text);
    let n = v.len();
    let mut depth: usize = 0;
    let mut m: usize = 0;
    let mut i: usize = 0;
    while i < n
        invariant
            v@ == text@,
            n == v@.len(),
            i <= n,
            depth <= i,
            m <= i,
            depth == bracket_depth_at(text@, i as int),
            m == max_bracket_depth_upto(text@, i as int),
        decreases n - i,
    {
        let c = v[i];
        if c == '[' || c == '{' {
            depth = depth + 1;
        } else if (c == ']' || c == '}') && depth > 0 {
            depth = depth - 1;
        }
        i = i + 1;
        if depth > m {
            m = depth;
        }
    }
    m <= limit
}

} // verus!




