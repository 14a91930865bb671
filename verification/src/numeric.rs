//! Decimal rendering and parsing of page numbers.
//!
//! Callback payloads embed page indices as decimal text (`page_3`,
//! `back_to_page_0`).  Parsing mirrors `usize::from_str`: an optional leading
//! `+`, then one or more ASCII digits, rejecting anything else and values
//! that do not fit in `usize`.  Rendering produces the canonical decimal
//! digits with no sign and no leading zeros.
use crate::text::push_char;
use vstd::prelude::*;
use vstd::string::*;

verus! {

pub open spec fn is_digit(c: char) -> bool {
    '0' <= c && c <= '9'
}

pub open spec fn digit_val(c: char) -> int {
    c as int - '0' as int
}

pub open spec fn is_digit_seq(s: Seq<char>) -> bool {
    forall|i: int| 0 <= i < s.len() ==> is_digit(s[i])
}

/// Numeric value of a sequence of decimal digits, most significant first.
pub open spec fn digit_seq_val(s: Seq<char>) -> int
    decreases s.len(),
{
    if s.len() == 0 {
        0
    } else {
        digit_seq_val(s.drop_last()) * 10 + digit_val(s.last())
    }
}

/// The digit sequence `usize::from_str` would accept, if any: the whole
/// input, less an optional leading `+`.
pub open spec fn spec_digit_body(s: Seq<char>) -> Seq<char> {
    if s.len() > 0 && s[0] == '+' {
        s.subrange(1, s.len() as int)
    } else {
        s
    }
}

/// What parsing `s` as a `usize` yields: the value when `s` is well formed
/// and in range, nothing otherwise.
pub open spec fn spec_parse_usize(s: Seq<char>) -> Option<int> {
    let body = spec_digit_body(s);
    if body.len() > 0 && is_digit_seq(body) && digit_seq_val(body) <= usize::MAX {
        Some(digit_seq_val(body))
    } else {
        None
    }
}

pub open spec fn digit_char(d: int) -> char {
    if d == 0 {
        '0'
    } else if d == 1 {
        '1'
    } else if d == 2 {
        '2'
    } else if d == 3 {
        '3'
    } else if d == 4 {
        '4'
    } else if d == 5 {
        '5'
    } else if d == 6 {
        '6'
    } else if d == 7 {
        '7'
    } else if d == 8 {
        '8'
    } else {
        '9'
    }
}

/// Decimal digits of `n`, most significant first.
pub open spec fn spec_render_usize(n: int) -> Seq<char>
    decreases n,
{
    if n < 10 {
        seq![digit_char(n)]
    } else {
        spec_render_usize(n / 10).push(digit_char(n % 10))
    }
}

/// Parse a decimal `usize` from untrusted text; never panics.
pub fn parse_usize(s: &str) -> (r: Option<usize>)
    ensures
        match r {
            Some(v) => spec_parse_usize(s@) == Some(v as int),
            None => spec_parse_usize(s@) is None,
        },
{
    let s_len = s.unicode_len();
    let mut start: usize = 0;
    if s_len > 0 && s.get_char(0) == '+' {
        start = 1;
    }
    assert(s@.subrange(start as int, s@.len() as int) =~= spec_digit_body(s@));
    if start == s_len {
        return None;
    }
    let mut acc: usize = 0;
    let mut i: usize = start;
    while i < s_len
        invariant
            start <= i <= s_len,
            s_len == s@.len(),
            start < s_len,
            start == if s@.len() > 0 && s@[0] == '+' {
                1int
            } else {
                0int
            },
            is_digit_seq(s@.subrange(start as int, i as int)),
            acc == digit_seq_val(s@.subrange(start as int, i as int)),
        decreases s_len - i,
    {
        let c = s.get_char(i);
        if c < '0' || c > '9' {
            assert(!is_digit(s@[i as int]));
            assert(spec_digit_body(s@)[i - start] == s@[i as int]);
            return None;
        }
        let d: usize = (c as u32 as usize) - 48;
        assert(d == digit_val(s@[i as int]));
        let grown = match acc.checked_mul(10) {
            Some(g) => g,
            None => {
                proof {
                    lemma_digit_body_overflow(s@, start as int, i as int);
                }
                return None;
            },
        };
        let next = match grown.checked_add(d) {
            Some(n) => n,
            None => {
                proof {
                    lemma_digit_body_overflow(s@, start as int, i as int);
                }
                return None;
            },
        };
        proof {
            assert(s@.subrange(start as int, i + 1).drop_last() =~= s@.subrange(
                start as int,
                i as int,
            ));
            assert(s@.subrange(start as int, i + 1).last() == s@[i as int]);
        }
        acc = next;
        i += 1;
    }
    proof {
        assert(s@.subrange(start as int, i as int) =~= spec_digit_body(s@));
    }
    Some(acc)
}

/// When the digits read so far would overflow with one more digit, the whole
/// digit body is out of range (or not a digit body at all).
proof fn lemma_digit_body_overflow(s: Seq<char>, start: int, i: int)
    requires
        0 <= start <= i < s.len(),
        start == if s.len() > 0 && s[0] == '+' {
            1int
        } else {
            0int
        },
        is_digit(s[i]),
        is_digit_seq(s.subrange(start, i)),
        digit_seq_val(s.subrange(start, i)) * 10 + digit_val(s[i]) > usize::MAX,
    ensures
        spec_parse_usize(s) is None,
{
    let body = spec_digit_body(s);
    assert(body =~= s.subrange(start, s.len() as int));
    if is_digit_seq(body) {
        assert(s.subrange(start, i + 1).drop_last() =~= s.subrange(start, i));
        assert(s.subrange(start, i + 1).last() == s[i]);
        assert(digit_seq_val(s.subrange(start, i + 1)) > usize::MAX);
        assert(forall|j: int|
            start <= j < s.len() ==> is_digit(s[j])) by {
            assert(forall|j: int| start <= j < s.len() ==> s[j] == body[j - start]);
        }
        lemma_digit_seq_val_extend_mono(s, start, i + 1, s.len() as int);
        assert(digit_seq_val(body) > usize::MAX);
    }
}

/// Extending a digit sequence on the right never decreases its value.
proof fn lemma_digit_seq_val_extend_mono(s: Seq<char>, start: int, mid: int, end: int)
    requires
        0 <= start <= mid <= end <= s.len(),
        forall|j: int| start <= j < end ==> is_digit(s[j]),
    ensures
        digit_seq_val(s.subrange(start, end)) >= digit_seq_val(s.subrange(start, mid)),
    decreases end - mid,
{
    if mid < end {
        lemma_digit_seq_val_extend_mono(s, start, mid, end - 1);
        assert(s.subrange(start, end).drop_last() =~= s.subrange(start, end - 1));
        assert(s.subrange(start, end).last() == s[end - 1]);
        assert(is_digit(s[end - 1]));
        lemma_digit_seq_val_nonneg(s.subrange(start, end - 1));
        assert(digit_seq_val(s.subrange(start, end)) == digit_seq_val(
            s.subrange(start, end - 1),
        ) * 10 + digit_val(s[end - 1]));
    } else {
        assert(s.subrange(start, end) =~= s.subrange(start, mid));
    }
}

proof fn lemma_digit_seq_val_nonneg(s: Seq<char>)
    requires
        is_digit_seq(s),
    ensures
        digit_seq_val(s) >= 0,
    decreases s.len(),
{
    if s.len() > 0 {
        assert(is_digit_seq(s.drop_last())) by {
            assert(forall|i: int| 0 <= i < s.len() - 1 ==> s.drop_last()[i] == s[i]);
        }
        lemma_digit_seq_val_nonneg(s.drop_last());
        assert(is_digit(s.last()));
    }
}

/// Render `n` in decimal.
pub fn render_usize(n: usize) -> (r: String)
    ensures
        r@ == spec_render_usize(n as int),
{
    render_u64(n as u64)
}

/// Signed decimal rendering: a minus sign, then the digits.
pub open spec fn spec_render_i64(n: int) -> Seq<char> {
    if n >= 0 {
        spec_render_usize(n)
    } else {
        seq!['-'] + spec_render_usize(-n)
    }
}

pub fn render_i64(n: i64) -> (r: String)
    ensures
        r@ == spec_render_i64(n as int),
{
    if n >= 0 {
        render_u64(n as u64)
    } else {
        let magnitude: u64 = ((-(n + 1)) as u64) + 1;
        let mut out = String::from_str("-");
        out.append(render_u64(magnitude).as_str());
        proof {
            assert("-"@ =~= seq!['-']) by {
                reveal_strlit("-");
            }
        }
        out
    }
}

fn render_u64(n: u64) -> (r: String)
    ensures
        r@ == spec_render_usize(n as int),
    decreases n,
{
    if n < 10 {
        let mut out = String::new();
        push_char(&mut out, digit_char_exec(n));
        proof {
            assert(out@ =~= spec_render_usize(n as int));
        }
        out
    } else {
        let mut out = render_u64(n / 10);
        push_char(&mut out, digit_char_exec(n % 10));
        out
    }
}

/// Executable digit-to-character table.
fn digit_char_exec(d: u64) -> (c: char)
    requires
        d <= 9,
    ensures
        c == digit_char(d as int),
{
    match d {
        0 => '0',
        1 => '1',
        2 => '2',
        3 => '3',
        4 => '4',
        5 => '5',
        6 => '6',
        7 => '7',
        8 => '8',
        _ => '9',
    }
}

/// Rendering then parsing restores the number: the payload a navigation
/// button carries decodes to the page it was built from.
pub proof fn lemma_parse_render_round_trip(n: int)
    requires
        0 <= n <= usize::MAX,
    ensures
        spec_parse_usize(spec_render_usize(n)) == Some(n),
{
    lemma_render_digits(n);
    lemma_render_val(n);
    let r = spec_render_usize(n);
    assert(r.len() > 0);
    assert(r[0] != '+') by {
        lemma_render_first_digit(n);
    }
    assert(spec_digit_body(r) == r);
}

/// Every character the renderer emits is a digit.
proof fn lemma_render_digits(n: int)
    ensures
        is_digit_seq(spec_render_usize(n)),
        spec_render_usize(n).len() > 0,
    decreases n,
{
    if n < 10 {
        if n <= 0 {
        } else {
        }
    } else {
        lemma_render_digits(n / 10);
        let prev = spec_render_usize(n / 10);
        let whole = spec_render_usize(n);
        assert(whole == prev.push(digit_char(n % 10)));
        assert(forall|i: int| 0 <= i < whole.len() ==> is_digit(whole[i])) by {
            assert(forall|i: int| 0 <= i < prev.len() ==> whole[i] == prev[i]);
            assert(whole[whole.len() - 1] == digit_char(n % 10));
        }
    }
}

/// The rendered digits evaluate back to the number itself.
proof fn lemma_render_val(n: int)
    requires
        n >= 0,
    ensures
        digit_seq_val(spec_render_usize(n)) == n,
    decreases n,
{
    if n < 10 {
        let whole = spec_render_usize(n);
        assert(whole == seq![digit_char(n)]);
        assert(whole.len() == 1);
        assert(whole.drop_last() =~= Seq::<char>::empty());
        assert(digit_seq_val(Seq::<char>::empty()) == 0);
        assert(whole.last() == digit_char(n));
        assert(digit_seq_val(whole) == digit_seq_val(whole.drop_last()) * 10 + digit_val(
            whole.last(),
        ));
        assert(digit_val(digit_char(n)) == n);
    } else {
        lemma_render_val(n / 10);
        let whole = spec_render_usize(n);
        assert(whole == spec_render_usize(n / 10).push(digit_char(n % 10)));
        assert(whole.drop_last() =~= spec_render_usize(n / 10));
        assert(whole.last() == digit_char(n % 10));
        assert(0 <= n % 10 <= 9);
        assert(digit_val(digit_char(n % 10)) == n % 10);
        assert(digit_seq_val(whole) == digit_seq_val(whole.drop_last()) * 10 + digit_val(
            whole.last(),
        ));
        assert(n / 10 * 10 + n % 10 == n);
        assert(digit_seq_val(whole) == n);
    }
}

proof fn lemma_render_first_digit(n: int)
    ensures
        spec_render_usize(n)[0] != '+',
    decreases n,
{
    if n < 10 {
    } else {
        lemma_render_first_digit(n / 10);
        assert(spec_render_usize(n)[0] == spec_render_usize(n / 10)[0]);
    }
}

} // verus!
