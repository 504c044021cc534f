//! Text helpers used when messages and help pages are assembled: white-space
//! trimming, padding to a column width and decimal numbers.
//!
//! Every function is described over `Seq<char>`, the view of a string.

use vstd::prelude::*;
use vstd::std_specs::iter::IteratorSpec;
use vstd::string::*;

verus! {

/// Whether `c` is white space: the characters that carry Unicode's
/// `White_Space` property.
pub open spec fn is_whitespace(c: char) -> bool {
    let n = c as u32;
    ||| 0x09 <= n <= 0x0D
    ||| n == 0x20
    ||| n == 0x85
    ||| n == 0xA0
    ||| n == 0x1680
    ||| 0x2000 <= n <= 0x200A
    ||| n == 0x2028
    ||| n == 0x2029
    ||| n == 0x202F
    ||| n == 0x205F
    ||| n == 0x3000
}

/// `s` without its leading white space.
pub open spec fn trim_front(s: Seq<char>) -> Seq<char>
    decreases s.len(),
{
    if s.len() > 0 && is_whitespace(s.first()) {
        trim_front(s.drop_first())
    } else {
        s
    }
}

/// `s` without its trailing white space.
pub open spec fn trim_back(s: Seq<char>) -> Seq<char>
    decreases s.len(),
{
    if s.len() > 0 && is_whitespace(s.last()) {
        trim_back(s.drop_last())
    } else {
        s
    }
}

/// `s` without leading and trailing white space.
pub open spec fn trimmed(s: Seq<char>) -> Seq<char> {
    trim_back(trim_front(s))
}

/// `s` followed by as many blanks as it takes to reach `width` characters;
/// a longer `s` is left as it is.
pub open spec fn padded(s: Seq<char>, width: nat) -> Seq<char> {
    if s.len() >= width {
        s
    } else {
        s + Seq::new((width - s.len()) as nat, |i: int| ' ')
    }
}

/// The character that stands for the digit `d`.
pub open spec fn digit(d: nat) -> char {
    if d == 0 {
        '0'
    } else if d == 1 {
        '1'
    } else if d == 2 {
        '2'
    } else if d == 3 {
        '3'
    } else if d == 4 {
        '4'
    } else if d == 5 {
        '5'
    } else if d == 6 {
        '6'
    } else if d == 7 {
        '7'
    } else if d == 8 {
        '8'
    } else {
        '9'
    }
}

/// `n` written in base ten, without leading zeros.
pub open spec fn decimal(n: nat) -> Seq<char>
    decreases n,
{
    if n < 10 {
        seq![digit(n)]
    } else {
        decimal(n / 10).push(digit(n % 10))
    }
}

/// Whether `part` stands somewhere in `whole`, in one piece.
pub open spec fn occurs_in(part: Seq<char>, whole: Seq<char>) -> bool {
    exists|i: int|
        0 <= i && i + part.len() <= whole.len() && #[trigger] whole.subrange(i, i + part.len())
            == part
}

/// What stands in a text stands in every text around it.
pub proof fn lemma_occurs_within(
    part: Seq<char>,
    before: Seq<char>,
    whole: Seq<char>,
    after: Seq<char>,
)
    requires
        occurs_in(part, whole),
    ensures
        occurs_in(part, before + whole + after),
{
    let i = choose|i: int|
        0 <= i && i + part.len() <= whole.len() && #[trigger] whole.subrange(i, i + part.len())
            == part;
    let around = before + whole + after;
    let k = before.len() + i;
    assert(around.subrange(k, k + part.len()) =~= whole.subrange(i, i + part.len()));
}

/// A text stands in itself.
pub proof fn lemma_occurs_in_itself(part: Seq<char>)
    ensures
        occurs_in(part, part),
{
    let start: int = 0;
    assert(part.subrange(start, start + part.len()) =~= part);
}

/// The texts of `lines`, one after the other.
pub open spec fn joined(lines: Seq<Seq<char>>) -> Seq<char>
    decreases lines.len(),
{
    if lines.len() == 0 {
        Seq::empty()
    } else {
        joined(lines.drop_last()) + lines.last()
    }
}

/// Each of the texts that were joined stands in the whole.
pub proof fn lemma_joined_holds_line(lines: Seq<Seq<char>>, i: int)
    requires
        0 <= i < lines.len(),
    ensures
        occurs_in(lines[i], joined(lines)),
    decreases lines.len(),
{
    let front = joined(lines.drop_last());
    if i == lines.len() - 1 {
        lemma_occurs_in_itself(lines[i]);
        lemma_occurs_within(lines[i], front, lines[i], Seq::empty());
        assert(front + lines[i] + Seq::<char>::empty() =~= joined(lines));
    } else {
        lemma_joined_holds_line(lines.drop_last(), i);
        lemma_occurs_within(lines[i], Seq::empty(), front, lines.last());
        assert(Seq::<char>::empty() + front + lines.last() =~= joined(lines));
    }
}

/// Tells whether `c` is white space.
pub fn whitespace(c: char) -> (b: bool)
    ensures
        b == is_whitespace(c),
{
    let n: u32 = c as u32;
    (0x09 <= n && n <= 0x0D) || n == 0x20 || n == 0x85 || n == 0xA0 || n == 0x1680 || (0x2000 <= n
        && n <= 0x200A) || n == 0x2028 || n == 0x2029 || n == 0x202F || n == 0x205F || n == 0x3000
}

/// Leading white space ends at `k`: everything before `k` is dropped and the
/// rest is kept.
pub proof fn lemma_trim_front(s: Seq<char>, k: int)
    requires
        0 <= k <= s.len(),
        forall|j: int| 0 <= j < k ==> is_whitespace(#[trigger] s[j]),
        k < s.len() ==> !is_whitespace(s[k]),
    ensures
        trim_front(s) == s.skip(k),
    decreases k,
{
    if k == 0 {
        assert(s.skip(0) =~= s);
    } else {
        assert(is_whitespace(s[0]));
        let rest = s.drop_first();
        assert forall|j: int| 0 <= j < k - 1 implies is_whitespace(#[trigger] rest[j]) by {
            assert(rest[j] == s[j + 1]);
        }
        lemma_trim_front(rest, k - 1);
        assert(rest.skip(k - 1) =~= s.skip(k));
    }
}

/// Trailing white space starts at `k`: everything from `k` on is dropped and
/// what stands before it is kept.
pub proof fn lemma_trim_back(s: Seq<char>, k: int)
    requires
        0 <= k <= s.len(),
        forall|j: int| k <= j < s.len() ==> is_whitespace(#[trigger] s[j]),
        0 < k ==> !is_whitespace(s[k - 1]),
    ensures
        trim_back(s) == s.take(k),
    decreases s.len() - k,
{
    if k == s.len() {
        assert(s.take(k) =~= s);
    } else {
        assert(is_whitespace(s[s.len() - 1]));
        let rest = s.drop_last();
        assert forall|j: int| k <= j < rest.len() implies is_whitespace(#[trigger] rest[j]) by {
            assert(rest[j] == s[j]);
        }
        lemma_trim_back(rest, k);
        assert(rest.take(k) =~= s.take(k));
    }
}

/// The place at which the leading white space of `s` ends.
proof fn lemma_front_end(s: Seq<char>) -> (k: int)
    ensures
        0 <= k <= s.len(),
        forall|j: int| 0 <= j < k ==> is_whitespace(#[trigger] s[j]),
        k < s.len() ==> !is_whitespace(s[k]),
    decreases s.len(),
{
    if s.len() > 0 && is_whitespace(s.first()) {
        let rest = s.drop_first();
        let k = lemma_front_end(rest);
        assert forall|j: int| 0 <= j < k + 1 implies is_whitespace(#[trigger] s[j]) by {
            if j > 0 {
                assert(s[j] == rest[j - 1]);
            }
        }
        k + 1
    } else {
        0
    }
}

/// The place at which the trailing white space of `s` starts.
proof fn lemma_back_start(s: Seq<char>) -> (k: int)
    ensures
        0 <= k <= s.len(),
        forall|j: int| k <= j < s.len() ==> is_whitespace(#[trigger] s[j]),
        0 < k ==> !is_whitespace(s[k - 1]),
    decreases s.len(),
{
    if s.len() > 0 && is_whitespace(s.last()) {
        let rest = s.drop_last();
        let k = lemma_back_start(rest);
        assert forall|j: int| k <= j < s.len() implies is_whitespace(#[trigger] s[j]) by {
            if j < rest.len() {
                assert(s[j] == rest[j]);
            }
        }
        k
    } else {
        s.len() as int
    }
}

/// Where the trimmed text stands in `s`: from the first to the last
/// character that is no white space.
pub proof fn lemma_trimmed_bounds(s: Seq<char>) -> (bounds: (int, int))
    ensures
        0 <= bounds.0 <= bounds.1 <= s.len(),
        trimmed(s) == s.subrange(bounds.0, bounds.1),
        forall|j: int| 0 <= j < bounds.0 ==> is_whitespace(#[trigger] s[j]),
        forall|j: int| bounds.1 <= j < s.len() ==> is_whitespace(#[trigger] s[j]),
        bounds.0 < bounds.1 ==> !is_whitespace(s[bounds.0]) && !is_whitespace(s[bounds.1 - 1]),
{
    let a = lemma_front_end(s);
    lemma_trim_front(s, a);
    let rest = s.skip(a);
    let m = lemma_back_start(rest);
    lemma_trim_back(rest, m);
    assert(rest.take(m) =~= s.subrange(a, a + m));
    assert forall|j: int| a + m <= j < s.len() implies is_whitespace(#[trigger] s[j]) by {
        assert(s[j] == rest[j - a]);
    }
    if 0 < m {
        assert(rest[m - 1] == s[a + m - 1]);
    }
    (a, a + m)
}

/// What stands in a text still stands in it when both are trimmed.
pub proof fn lemma_occurs_trimmed(part: Seq<char>, whole: Seq<char>)
    requires
        occurs_in(part, whole),
    ensures
        occurs_in(trimmed(part), trimmed(whole)),
{
    let i = choose|i: int|
        0 <= i && i + part.len() <= whole.len() && #[trigger] whole.subrange(i, i + part.len())
            == part;
    let (x, y) = lemma_trimmed_bounds(part);
    let (a, b) = lemma_trimmed_bounds(whole);
    let inner = trimmed(whole);
    if x < y {
        assert(part[x] == whole.subrange(i, i + part.len())[x]);
        assert(part[y - 1] == whole.subrange(i, i + part.len())[y - 1]);
        assert(!is_whitespace(whole[i + x]));
        assert(!is_whitespace(whole[i + y - 1]));
        let k = i + x - a;
        assert(inner.subrange(k, k + (y - x)) =~= part.subrange(x, y));
    } else {
        let start: int = 0;
        assert(inner.subrange(start, start + 0) =~= trimmed(part));
    }
}

/// Removes leading and trailing white space.
pub fn trim(s: &str) -> (out: String)
    ensures
        out@ == trimmed(s@),
{
    broadcast use {next_postcondition, axiom_spec_iter};

    let n: usize = s.unicode_len();
    let mut chars = s.chars();
    let mut i: usize = 0;
    let mut start: usize = 0;
    let mut end: usize = 0;
    let mut leading = true;
    while i < n
        invariant
            n == s@.len(),
            i <= n,
            chars.remaining() == s@.skip(i as int),
            forall|j: int| 0 <= j < start ==> is_whitespace(#[trigger] s@[j]),
            leading ==> start == i && end == 0,
            !leading ==> start < end <= i && !is_whitespace(s@[start as int]) && !is_whitespace(
                s@[end - 1],
            ),
            forall|j: int| end <= j < i && !leading ==> is_whitespace(#[trigger] s@[j]),
        decreases n - i,
    {
        let next = chars.next();
        assert(next == Some(s@[i as int]));
        assert(s@.skip(i as int).drop_first() =~= s@.skip(i + 1));
        match next {
            Some(c) => {
                if whitespace(c) {
                    if leading {
                        start = i + 1;
                    }
                } else {
                    leading = false;
                    end = i + 1;
                }
            },
            None => {},
        }
        i += 1;
    }
    if leading {
        end = start;
    }
    proof {
        lemma_trim_front(s@, start as int);
        let rest = s@.skip(start as int);
        assert forall|j: int| end - start <= j < rest.len() implies is_whitespace(
            #[trigger] rest[j],
        ) by {
            assert(rest[j] == s@[j + start]);
        }
        lemma_trim_back(rest, end - start);
        assert(rest.take(end - start) =~= s@.subrange(start as int, end as int));
    }
    String::from_str(s.substring_char(start, end))
}

/// Pads `s` with blanks on the right up to `width` characters.
pub fn pad(s: &str, width: usize) -> (out: String)
    ensures
        out@ == padded(s@, width as nat),
{
    let mut out = String::from_str(s);
    let mut n: usize = s.unicode_len();
    proof {
        reveal_strlit(" ");
    }
    while n < width
        invariant
            n == out@.len(),
            s@.len() <= n,
            n <= width || n == s@.len(),
            out@ == s@ + Seq::new((n - s@.len()) as nat, |i: int| ' '),
            " "@ == seq![' '],
        decreases width - n,
    {
        out.append(" ");
        n += 1;
        assert(out@ =~= s@ + Seq::new((n - s@.len()) as nat, |i: int| ' '));
    }
    assert(out@ =~= padded(s@, width as nat));
    out
}

/// The digit `d` as a text.
fn digit_str(d: usize) -> (s: &'static str)
    requires
        d < 10,
    ensures
        s@ == seq![digit(d as nat)],
{
    proof {
        reveal_strlit("0");
        reveal_strlit("1");
        reveal_strlit("2");
        reveal_strlit("3");
        reveal_strlit("4");
        reveal_strlit("5");
        reveal_strlit("6");
        reveal_strlit("7");
        reveal_strlit("8");
        reveal_strlit("9");
    }
    let s = if d == 0 {
        "0"
    } else if d == 1 {
        "1"
    } else if d == 2 {
        "2"
    } else if d == 3 {
        "3"
    } else if d == 4 {
        "4"
    } else if d == 5 {
        "5"
    } else if d == 6 {
        "6"
    } else if d == 7 {
        "7"
    } else if d == 8 {
        "8"
    } else {
        "9"
    };
    assert(s@ =~= seq![digit(d as nat)]);
    s
}

/// Writes `n` in base ten.
pub fn decimal_string(n: usize) -> (out: String)
    ensures
        out@ == decimal(n as nat),
    decreases n,
{
    if n < 10 {
        String::from_str(digit_str(n))
    } else {
        let mut out = decimal_string(n / 10);
        out.append(digit_str(n % 10));
        assert(out@ =~= decimal(n as nat));
        out
    }
}

} // verus!
