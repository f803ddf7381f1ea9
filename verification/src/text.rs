use crate::bridge::is_unicode_ws;
use crate::bridge::is_ws_char;
use vstd::prelude::*;

verus! {

// ---------------------------------------------------------------------------
// Decimal representation of unsigned integers
// ---------------------------------------------------------------------------

/// The character for one decimal digit.
pub open spec fn digit_char(d: int) -> char
    recommends
        0 <= d < 10,
{
    if d == 0 {
        '0'
    } else if d == 1 {
        '1'
    } else if d == 2 {
        '2'
    } else if d == 3 {
        '3'
    } else if d == 4 {
        '4'
    } else if d == 5 {
        '5'
    } else if d == 6 {
        '6'
    } else if d == 7 {
        '7'
    } else if d == 8 {
        '8'
    } else {
        '9'
    }
}

/// The usual decimal writing of `n`: most significant digit first, no sign,
/// no leading zero except for `n == 0` itself.
pub open spec fn spec_decimal(n: nat) -> Seq<char>
    decreases n,
{
    if n < 10 {
        seq![digit_char(n as int)]
    } else {
        spec_decimal(n / 10) + seq![digit_char((n % 10) as int)]
    }
}

fn digit_str(d: u64) -> (r: &'static str)
    requires
        d < 10,
    ensures
        r@ =~= seq![digit_char(d as int)],
{
    proof {
        reveal_strlit("0");
        reveal_strlit("1");
        reveal_strlit("2");
        reveal_strlit("3");
        reveal_strlit("4");
        reveal_strlit("5");
        reveal_strlit("6");
        reveal_strlit("7");
        reveal_strlit("8");
        reveal_strlit("9");
    }
    if d == 0 {
        "0"
    } else if d == 1 {
        "1"
    } else if d == 2 {
        "2"
    } else if d == 3 {
        "3"
    } else if d == 4 {
        "4"
    } else if d == 5 {
        "5"
    } else if d == 6 {
        "6"
    } else if d == 7 {
        "7"
    } else if d == 8 {
        "8"
    } else {
        "9"
    }
}

/// Appends the decimal writing of `n` to `s`.
pub fn push_decimal(s: &mut String, n: u64)
    ensures
        final(s)@ == old(s)@ + spec_decimal(n as nat),
    decreases n,
{
    if n >= 10 {
        push_decimal(s, n / 10);
        let d = digit_str(n % 10);
        s.append(d);
        proof {
            assert(s@ =~= old(s)@ + spec_decimal(n as nat));
        }
    } else {
        let d = digit_str(n);
        s.append(d);
        proof {
            assert(s@ =~= old(s)@ + spec_decimal(n as nat));
        }
    }
}

/// The decimal writing of `n` as a fresh string.
pub fn u64_to_string(n: u64) -> (r: String)
    ensures
        r@ == spec_decimal(n as nat),
{
    let mut s = String::new();
    push_decimal(&mut s, n);
    proof {
        assert(s@ =~= spec_decimal(n as nat));
    }
    s
}

pub proof fn lemma_decimal_len(n: nat)
    ensures
        spec_decimal(n).len() >= 1,
        (spec_decimal(n).len() == 1) == (n < 10),
    decreases n,
{
    if n >= 10 {
        lemma_decimal_len(n / 10);
    }
}

proof fn lemma_digit_char_injective(a: int, b: int)
    requires
        0 <= a < 10,
        0 <= b < 10,
        digit_char(a) == digit_char(b),
    ensures
        a == b,
{
}

/// Two different numbers never share a decimal writing.
pub proof fn lemma_decimal_injective(a: nat, b: nat)
    requires
        spec_decimal(a) == spec_decimal(b),
    ensures
        a == b,
    decreases a,
{
    lemma_decimal_len(a);
    lemma_decimal_len(b);
    if a < 10 && b < 10 {
        assert(spec_decimal(a)[0] == digit_char(a as int));
        assert(spec_decimal(b)[0] == digit_char(b as int));
        lemma_digit_char_injective(a as int, b as int);
    } else if a >= 10 && b >= 10 {
        let la = spec_decimal(a / 10).len() as int;
        let lb = spec_decimal(b / 10).len() as int;
        assert(spec_decimal(a).len() == la + 1);
        assert(spec_decimal(b).len() == lb + 1);
        assert(la == lb);
        assert(spec_decimal(a)[la] == digit_char((a % 10) as int));
        assert(spec_decimal(b)[lb] == digit_char((b % 10) as int));
        lemma_digit_char_injective((a % 10) as int, (b % 10) as int);
        assert(spec_decimal(a / 10) =~= spec_decimal(a).subrange(0, la));
        assert(spec_decimal(b / 10) =~= spec_decimal(b).subrange(0, lb));
        lemma_decimal_injective(a / 10, b / 10);
    } else {
        assert(false);
    }
}

// ---------------------------------------------------------------------------
// Parsing decimal text, as `str::parse::<u32>` accepts it
// ---------------------------------------------------------------------------

/// An ASCII decimal digit.
pub open spec fn is_dec_digit(c: char) -> bool {
    48 <= c as int && c as int <= 57
}

/// The value of one ASCII decimal digit.
pub open spec fn digit_val(c: char) -> int {
    c as int - 48
}

pub open spec fn all_dec_digits(s: Seq<char>) -> bool {
    forall|i: int| 0 <= i < s.len() ==> is_dec_digit(#[trigger] s[i])
}

/// The number that a digit string writes, most significant digit first.
pub open spec fn digits_val(s: Seq<char>) -> int
    decreases s.len(),
{
    if s.len() == 0 {
        0
    } else {
        digits_val(s.drop_last()) * 10 + digit_val(s.last())
    }
}

/// What `str::parse::<u32>` accepts: an optional leading `+`, then one or
/// more ASCII decimal digits whose value fits in a `u32`.
pub open spec fn spec_parse_u32(s: Seq<char>) -> Option<u32> {
    let body = if s.len() > 0 && s[0] == '+' {
        s.drop_first()
    } else {
        s
    };
    if body.len() > 0 && all_dec_digits(body) && digits_val(body) <= u32::MAX {
        Some(digits_val(body) as u32)
    } else {
        None
    }
}

pub proof fn lemma_digits_val_nonneg(s: Seq<char>)
    requires
        all_dec_digits(s),
    ensures
        digits_val(s) >= 0,
    decreases s.len(),
{
    if s.len() > 0 {
        assert(all_dec_digits(s.drop_last())) by {
            assert(forall|i: int|
                0 <= i < s.len() - 1 ==> #[trigger] s.drop_last()[i] == s[i]);
        }
        lemma_digits_val_nonneg(s.drop_last());
    }
}

/// A digit string writes at least as large a number as any of its prefixes.
pub proof fn lemma_digits_val_prefix(s: Seq<char>, k: int)
    requires
        all_dec_digits(s),
        0 <= k <= s.len(),
    ensures
        digits_val(s) >= digits_val(s.subrange(0, k)),
    decreases s.len() - k,
{
    if k < s.len() {
        let t = s.subrange(0, k + 1);
        assert(t.drop_last() =~= s.subrange(0, k));
        assert(all_dec_digits(s.subrange(0, k)));
        lemma_digits_val_nonneg(s.subrange(0, k));
        assert(digits_val(t) == digits_val(s.subrange(0, k)) * 10 + digit_val(s[k]));
        assert(digit_val(s[k]) >= 0);
        assert(digits_val(s.subrange(0, k)) * 10 >= digits_val(s.subrange(0, k))) by (nonlinear_arith)
            requires digits_val(s.subrange(0, k)) >= 0;
        lemma_digits_val_prefix(s, k + 1);
    } else {
        assert(s.subrange(0, k) =~= s);
    }
}

/// The integer that `text` writes in decimal, exactly as `str::parse::<u32>`
/// would read it: `None` on an empty body, a non-digit, or overflow.
pub fn parse_u32(text: &str) -> (r: Option<u32>)
    ensures
        r == spec_parse_u32(text@),
{
    let n = text.unicode_len();
    let start: usize = if n > 0 && text.get_char(0) == '+' {
        1
    } else {
        0
    };
    let ghost body = if text@.len() > 0 && text@[0] == '+' {
        text@.drop_first()
    } else {
        text@
    };
    proof {
        assert(body =~= text@.subrange(start as int, n as int));
    }
    if start == n {
        return None;
    }
    let mut acc: u32 = 0;
    let mut i: usize = start;
    while i < n
        invariant
            start <= i <= n,
            n == text@.len(),
            start == 0 || start == 1,
            body == (if text@.len() > 0 && text@[0] == '+' {
                text@.drop_first()
            } else {
                text@
            }),
            body == text@.subrange(start as int, n as int),
            body.len() == n - start,
            all_dec_digits(body.subrange(0, i - start)),
            acc == digits_val(body.subrange(0, i - start)),
        decreases n - i,
    {
        let c = text.get_char(i);
        let d = c as u32;
        proof {
            assert(body[i - start] == text@[i as int]);
            assert(c as int == d as int);
        }
        if d < 48 || d > 57 {
            proof {
                assert(!is_dec_digit(body[i - start]));
                assert(!all_dec_digits(body));
                assert(spec_parse_u32(text@) is None);
            }
            return None;
        }
        let ghost pre = body.subrange(0, i - start);
        let ghost cur = body.subrange(0, i + 1 - start);
        proof {
            assert(cur.drop_last() =~= pre);
            assert(cur.last() == body[i - start]);
            assert(digits_val(cur) == digits_val(pre) * 10 + digit_val(body[i - start]));
        }
        let wide: u64 = acc as u64 * 10 + (d - 48) as u64;
        proof {
            assert(digits_val(cur) == wide as int);
        }
        if wide > u32::MAX as u64 {
            proof {
                if all_dec_digits(body) {
                    lemma_digits_val_prefix(body, i + 1 - start);
                    assert(digits_val(body) > u32::MAX);
                }
                assert(spec_parse_u32(text@) is None);
            }
            return None;
        }
        acc = wide as u32;
        i += 1;
        proof {
            assert(body.subrange(0, i - start) =~= cur);
        }
    }
    proof {
        assert(body.subrange(0, n - start) =~= body);
        assert(spec_parse_u32(text@) == Some(acc));
    }
    Some(acc)
}

// ---------------------------------------------------------------------------
// Character-exact string equality
// ---------------------------------------------------------------------------

/// Whether two strings hold the same characters.
pub fn str_eq(a: &str, b: &str) -> (r: bool)
    ensures
        r == (a@ == b@),
{
    let na = a.unicode_len();
    let nb = b.unicode_len();
    if na != nb {
        return false;
    }
    let mut i: usize = 0;
    while i < na
        invariant
            i <= na,
            na == a@.len(),
            na == b@.len(),
            forall|j: int| 0 <= j < i ==> a@[j] == b@[j],
        decreases na - i,
    {
        if a.get_char(i) != b.get_char(i) {
            return false;
        }
        i += 1;
    }
    proof {
        assert(a@ =~= b@);
    }
    true
}

// ---------------------------------------------------------------------------
// Trimming whitespace, as `str::trim` removes it
// ---------------------------------------------------------------------------

pub open spec fn trim_start_rec(s: Seq<char>) -> Seq<char>
    decreases s.len(),
{
    if s.len() > 0 && is_unicode_ws(s[0]) {
        trim_start_rec(s.drop_first())
    } else {
        s
    }
}

pub open spec fn trim_end_rec(s: Seq<char>) -> Seq<char>
    decreases s.len(),
{
    if s.len() > 0 && is_unicode_ws(s.last()) {
        trim_end_rec(s.drop_last())
    } else {
        s
    }
}

/// `s` with leading and trailing whitespace removed.
pub open spec fn spec_trim(s: Seq<char>) -> Seq<char> {
    trim_end_rec(trim_start_rec(s))
}

/// `text` with leading and trailing whitespace removed, as `str::trim`
/// strips it.
pub fn trim_str<'a>(text: &'a str) -> (r: &'a str)
    ensures
        r@ == spec_trim(text@),
{
    let n = text.unicode_len();
    let mut i: usize = 0;
    proof {
        assert(text@.subrange(0, n as int) =~= text@);
    }
    loop
        invariant
            i <= n,
            n == text@.len(),
            trim_start_rec(text@) == trim_start_rec(text@.subrange(i as int, n as int)),
        ensures
            i <= n,
            n == text@.len(),
            trim_start_rec(text@) == text@.subrange(i as int, n as int),
            i < n ==> !is_unicode_ws(text@[i as int]),
        decreases n - i,
    {
        if i == n {
            proof {
                assert(text@.subrange(i as int, n as int) =~= Seq::<char>::empty());
            }
            break;
        }
        let c = text.get_char(i);
        if !is_ws_char(c) {
            proof {
                let cur = text@.subrange(i as int, n as int);
                assert(cur[0] == text@[i as int]);
            }
            break;
        }
        proof {
            let cur = text@.subrange(i as int, n as int);
            assert(cur[0] == text@[i as int]);
            assert(cur.drop_first() =~= text@.subrange(i + 1, n as int));
        }
        i += 1;
    }
    let mut j: usize = n;
    loop
        invariant
            i <= j <= n,
            n == text@.len(),
            trim_start_rec(text@) == text@.subrange(i as int, n as int),
            i < n ==> !is_unicode_ws(text@[i as int]),
            trim_end_rec(text@.subrange(i as int, n as int)) == trim_end_rec(
                text@.subrange(i as int, j as int),
            ),
        ensures
            i <= j <= n,
            n == text@.len(),
            trim_start_rec(text@) == text@.subrange(i as int, n as int),
            trim_end_rec(text@.subrange(i as int, n as int)) == text@.subrange(i as int, j as int),
        decreases j - i,
    {
        if j == i {
            proof {
                assert(text@.subrange(i as int, j as int) =~= Seq::<char>::empty());
            }
            break;
        }
        let c = text.get_char(j - 1);
        if !is_ws_char(c) {
            proof {
                let cur = text@.subrange(i as int, j as int);
                assert(cur.last() == text@[j - 1]);
            }
            break;
        }
        proof {
            let cur = text@.subrange(i as int, j as int);
            assert(cur.last() == text@[j - 1]);
            assert(cur.drop_last() =~= text@.subrange(i as int, j - 1));
        }
        j -= 1;
    }
    let r = text.substring_char(i, j);
    proof {
        assert(r@ == spec_trim(text@));
    }
    r
}

/// Trimming gives the empty string exactly when every character of `s` is
/// whitespace; in particular the empty string stays empty.
pub proof fn lemma_trim_empty_iff_ws(s: Seq<char>)
    ensures
        (spec_trim(s).len() == 0) == (forall|i: int|
            0 <= i < s.len() ==> is_unicode_ws(#[trigger] s[i])),
{
    lemma_trim_start_empty_iff_ws(s);
    lemma_trim_start_head(s);
    let t = trim_start_rec(s);
    if t.len() > 0 {
        lemma_trim_end_nonempty(t);
    }
}

proof fn lemma_trim_start_empty_iff_ws(s: Seq<char>)
    ensures
        (trim_start_rec(s).len() == 0) == (forall|i: int|
            0 <= i < s.len() ==> is_unicode_ws(#[trigger] s[i])),
    decreases s.len(),
{
    if s.len() > 0 && is_unicode_ws(s[0]) {
        lemma_trim_start_empty_iff_ws(s.drop_first());
        assert(forall|i: int|
            0 <= i < s.drop_first().len() ==> #[trigger] s.drop_first()[i] == s[i + 1]);
        if forall|i: int| 0 <= i < s.drop_first().len() ==> is_unicode_ws(#[trigger] s.drop_first()[i]) {
            assert forall|i: int| 0 <= i < s.len() implies is_unicode_ws(#[trigger] s[i]) by {
                if i > 0 {
                    assert(s[i] == s.drop_first()[i - 1]);
                }
            }
        }
    }
}

proof fn lemma_trim_start_head(s: Seq<char>)
    ensures
        trim_start_rec(s).len() > 0 ==> !is_unicode_ws(trim_start_rec(s)[0]),
    decreases s.len(),
{
    if s.len() > 0 && is_unicode_ws(s[0]) {
        lemma_trim_start_head(s.drop_first());
    }
}

proof fn lemma_trim_end_nonempty(t: Seq<char>)
    requires
        t.len() > 0,
        !is_unicode_ws(t[0]),
    ensures
        trim_end_rec(t).len() > 0,
    decreases t.len(),
{
    if is_unicode_ws(t.last()) {
        assert(t.drop_last()[0] == t[0]);
        lemma_trim_end_nonempty(t.drop_last());
    }
}

} // verus!
