//! Text helpers shared by the rest of the library: comparing strings,
//! trimming white space, taking the first line of a text and writing
//! integers in decimal.
use vstd::prelude::*;
use vstd::string::*;

verus! {

/// Unicode `White_Space` property, the set of characters that
/// `char::is_whitespace` accepts.
pub open spec fn is_white_space(c: char) -> bool {
    let n = c as u32;
    ||| 0x09 <= n <= 0x0D
    ||| n == 0x20
    ||| n == 0x85
    ||| n == 0xA0
    ||| n == 0x1680
    ||| 0x2000 <= n <= 0x200A
    ||| n == 0x2028
    ||| n == 0x2029
    ||| n == 0x202F
    ||| n == 0x205F
    ||| n == 0x3000
}

/// `s` without its leading white space.
pub open spec fn trim_start(s: Seq<char>) -> Seq<char>
    decreases s.len(),
{
    if s.len() > 0 && is_white_space(s[0]) {
        trim_start(s.drop_first())
    } else {
        s
    }
}

/// `s` without its trailing white space.
pub open spec fn trim_end(s: Seq<char>) -> Seq<char>
    decreases s.len(),
{
    if s.len() > 0 && is_white_space(s.last()) {
        trim_end(s.drop_last())
    } else {
        s
    }
}

/// `s` without leading and trailing white space, as `str::trim` gives it.
pub open spec fn trimmed(s: Seq<char>) -> Seq<char> {
    trim_end(trim_start(s))
}

/// The characters of `s` before its first line feed (all of `s` if it has none).
pub open spec fn before_newline(s: Seq<char>) -> Seq<char>
    decreases s.len(),
{
    if s.len() == 0 || s[0] == '\n' {
        Seq::empty()
    } else {
        seq![s[0]] + before_newline(s.drop_first())
    }
}

/// The first item that `str::lines` yields for `s`: `None` for the empty
/// text; otherwise the text up to the first line feed, without a carriage
/// return just before that line feed, or the whole text when it has no line
/// feed.
pub open spec fn first_line(s: Seq<char>) -> Option<Seq<char>> {
    if s.len() == 0 {
        None
    } else if s.contains('\n') {
        let line = before_newline(s);
        if line.len() > 0 && line.last() == '\r' {
            Some(line.drop_last())
        } else {
            Some(line)
        }
    } else {
        Some(s)
    }
}

/// The decimal digit character for `d < 10`.
pub open spec fn digit_char(d: nat) -> char {
    if d == 0 { '0' }
    else if d == 1 { '1' }
    else if d == 2 { '2' }
    else if d == 3 { '3' }
    else if d == 4 { '4' }
    else if d == 5 { '5' }
    else if d == 6 { '6' }
    else if d == 7 { '7' }
    else if d == 8 { '8' }
    else { '9' }
}

/// The decimal writing of `n`, without leading zeros.
pub open spec fn decimal(n: nat) -> Seq<char>
    decreases n,
{
    if n < 10 {
        seq![digit_char(n)]
    } else {
        decimal(n / 10).push(digit_char(n % 10))
    }
}

/// The decimal writing of an integer, with a leading `-` when it is negative,
/// as `Display` and `Debug` write integers.
pub open spec fn int_text(i: int) -> Seq<char> {
    if i < 0 {
        seq!['-'] + decimal((-i) as nat)
    } else {
        decimal(i as nat)
    }
}

/// Whether two strings hold the same characters.
pub fn same_text(a: &str, b: &str) -> (r: bool)
    ensures
        r == (a@ == b@),
{
    let a_owned = String::from_str(a);
    let b_owned = String::from_str(b);
    a_owned == b_owned
}

/// `prefix` followed by `rest`, as a new `String`.
pub fn joined(prefix: &str, rest: &str) -> (r: String)
    ensures
        r@ == prefix@ + rest@,
{
    let mut out = String::from_str(prefix);
    out.append(rest);
    out
}

/// Whether `c` is white space in the sense of `char::is_whitespace`.
pub fn is_white_space_char(c: char) -> (r: bool)
    ensures
        r == is_white_space(c),
{
    let n = c as u32;
    (0x09 <= n && n <= 0x0D) || n == 0x20 || n == 0x85 || n == 0xA0 || n == 0x1680 || (0x2000
        <= n && n <= 0x200A) || n == 0x2028 || n == 0x2029 || n == 0x202F || n == 0x205F || n
        == 0x3000
}

/// The characters of `s`, in order.
pub fn chars_of(s: &str) -> (v: Vec<char>)
    ensures
        v@ == s@,
{
    broadcast use vstd::string::group_string_axioms;
    let mut v: Vec<char> = Vec::new();
    for c in it: s.chars()
        invariant
            it.seq() == s@,
            v@ == it.seq().take(it.index() as int),
    {
        v.push(c);
        assert(it.seq().take(it.index() + 1) == it.seq().take(it.index() as int).push(c));
    }
    assert(s@.take(s@.len() as int) == s@);
    v
}

proof fn lemma_trim_start_at(s: Seq<char>, i: int)
    requires
        0 <= i <= s.len(),
        forall|k: int| 0 <= k < i ==> is_white_space(#[trigger] s[k]),
        i == s.len() || !is_white_space(s[i]),
    ensures
        trim_start(s) == s.subrange(i, s.len() as int),
    decreases i,
{
    if i == 0 {
        assert(s.subrange(0, s.len() as int) =~= s);
    } else {
        let t = s.drop_first();
        assert forall|k: int| 0 <= k < i - 1 implies is_white_space(#[trigger] t[k]) by {
            assert(t[k] == s[k + 1]);
        }
        if i - 1 < t.len() {
            assert(t[i - 1] == s[i]);
        }
        lemma_trim_start_at(t, i - 1);
        assert(t.subrange(i - 1, t.len() as int) =~= s.subrange(i, s.len() as int));
    }
}

proof fn lemma_trim_end_at(s: Seq<char>, j: int)
    requires
        0 <= j <= s.len(),
        forall|k: int| j <= k < s.len() ==> is_white_space(#[trigger] s[k]),
        j == 0 || !is_white_space(s[j - 1]),
    ensures
        trim_end(s) == s.subrange(0, j),
    decreases s.len() - j,
{
    if j == s.len() {
        assert(s.subrange(0, j) =~= s);
    } else {
        let t = s.drop_last();
        assert forall|k: int| j <= k < t.len() implies is_white_space(#[trigger] t[k]) by {
            assert(t[k] == s[k]);
        }
        if j > 0 {
            assert(t[j - 1] == s[j - 1]);
        }
        lemma_trim_end_at(t, j);
        assert(t.subrange(0, j) =~= s.subrange(0, j));
    }
}

/// `s` without leading and trailing white space, as `str::trim` gives it.
pub fn trim_text(s: &str) -> (r: String)
    ensures
        r@ == trimmed(s@),
{
    let v = chars_of(s);
    let n = v.len();
    let mut i: usize = 0;
    while i < n && is_white_space_char(v[i])
        invariant
            n == v@.len(),
            v@ == s@,
            i <= n,
            forall|k: int| 0 <= k < i ==> is_white_space(#[trigger] v@[k]),
        decreases n - i,
    {
        i = i + 1;
    }
    let mut j: usize = n;
    while j > i && is_white_space_char(v[j - 1])
        invariant
            n == v@.len(),
            v@ == s@,
            i <= j <= n,
            forall|k: int| j <= k < n ==> is_white_space(#[trigger] v@[k]),
        decreases j - i,
    {
        j = j - 1;
    }
    proof {
        lemma_trim_start_at(s@, i as int);
        let t = s@.subrange(i as int, n as int);
        assert forall|k: int| j - i <= k < t.len() implies is_white_space(#[trigger] t[k]) by {
            assert(t[k] == s@[k + i]);
        }
        if j > i {
            assert(t[j - i - 1] == s@[j - 1]);
        }
        lemma_trim_end_at(t, j - i);
        assert(t.subrange(0, j - i) =~= s@.subrange(i as int, j as int));
    }
    let part = s.substring_char(i, j);
    String::from_str(part)
}

proof fn lemma_before_newline_at(s: Seq<char>, k: int)
    requires
        0 <= k < s.len(),
        s[k] == '\n',
        forall|m: int| 0 <= m < k ==> #[trigger] s[m] != '\n',
    ensures
        before_newline(s) == s.take(k),
    decreases k,
{
    if k == 0 {
        assert(s.take(0) =~= Seq::<char>::empty());
    } else {
        let t = s.drop_first();
        assert(t[k - 1] == s[k]);
        assert forall|m: int| 0 <= m < k - 1 implies #[trigger] t[m] != '\n' by {
            assert(t[m] == s[m + 1]);
        }
        lemma_before_newline_at(t, k - 1);
        assert(seq![s[0]] + t.take(k - 1) =~= s.take(k));
    }
}

/// The first item that `str::lines` yields for `s`.
pub fn first_line_of(s: &str) -> (r: Option<String>)
    ensures
        match first_line(s@) {
            Some(line) => r is Some && r->0@ == line,
            None => r is None,
        },
{
    let v = chars_of(s);
    let n = v.len();
    if n == 0 {
        return None;
    }
    let mut k: usize = 0;
    while k < n && v[k] != '\n'
        invariant
            n == v@.len(),
            v@ == s@,
            k <= n,
            forall|m: int| 0 <= m < k ==> #[trigger] v@[m] != '\n',
        decreases n - k,
    {
        k = k + 1;
    }
    if k == n {
        proof {
            assert(!s@.contains('\n')) by {
                if s@.contains('\n') {
                    let m = choose|m: int| 0 <= m < s@.len() && s@[m] == '\n';
                    assert(v@[m] != '\n');
                }
            }
        }
        return Some(String::from_str(s));
    }
    proof {
        assert(s@[k as int] == '\n');
        assert(s@.contains('\n'));
        lemma_before_newline_at(s@, k as int);
    }
    if k > 0 && v[k - 1] == '\r' {
        proof {
            assert(s@.take(k as int).drop_last() =~= s@.subrange(0, k - 1));
        }
        let part = s.substring_char(0, k - 1);
        Some(String::from_str(part))
    } else {
        proof {
            assert(s@.take(k as int) =~= s@.subrange(0, k as int));
        }
        let part = s.substring_char(0, k);
        Some(String::from_str(part))
    }
}

/// The one-character text of the digit `d < 10`.
fn digit_text(d: u64) -> (r: &'static str)
    requires
        d < 10,
    ensures
        r@ == seq![digit_char(d as nat)],
{
    if d == 0 {
        proof { reveal_strlit("0"); }
        "0"
    } else if d == 1 {
        proof { reveal_strlit("1"); }
        "1"
    } else if d == 2 {
        proof { reveal_strlit("2"); }
        "2"
    } else if d == 3 {
        proof { reveal_strlit("3"); }
        "3"
    } else if d == 4 {
        proof { reveal_strlit("4"); }
        "4"
    } else if d == 5 {
        proof { reveal_strlit("5"); }
        "5"
    } else if d == 6 {
        proof { reveal_strlit("6"); }
        "6"
    } else if d == 7 {
        proof { reveal_strlit("7"); }
        "7"
    } else if d == 8 {
        proof { reveal_strlit("8"); }
        "8"
    } else {
        proof { reveal_strlit("9"); }
        "9"
    }
}

/// Appends the decimal writing of `n` to `out`.
pub fn push_decimal(out: &mut String, n: u64)
    ensures
        final(out)@ == old(out)@ + decimal(n as nat),
    decreases n,
{
    if n >= 10 {
        push_decimal(out, n / 10);
    }
    let d = n % 10;
    out.append(digit_text(d));
    proof {
        if n < 10 {
            assert(d == n);
        }
    }
}

/// Appends the decimal writing of `i` (with a `-` when negative) to `out`.
pub fn push_int(out: &mut String, i: i32)
    ensures
        final(out)@ == old(out)@ + int_text(i as int),
{
    if i < 0 {
        proof { reveal_strlit("-"); }
        out.append("-");
        let magnitude: u64 = (-(i as i64)) as u64;
        push_decimal(out, magnitude);
        proof {
            assert(old(out)@ + "-"@ + decimal(magnitude as nat) =~= old(out)@ + (seq!['-']
                + decimal((-i) as nat)));
        }
    } else {
        push_decimal(out, i as u64);
    }
}

} // verus!
