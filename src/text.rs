use vstd::prelude::*;
use vstd::string::*;

verus! {

/// The code point of `c` folded for case: ASCII upper-case letters map to
/// lower case, and so do the two non-ASCII letters whose upper case is an
/// ASCII letter, the long s (U+017F, upper case 'S') and the dotless i
/// (U+0131, upper case 'I'). Two strings of ASCII letters and digits are
/// equal under this folding exactly when their upper cases are equal.
pub open spec fn fold_case(c: char) -> u32 {
    let n = c as u32;
    if 65 <= n && n <= 90 {
        (n + 32) as u32
    } else if n == 0x17f {
        115
    } else if n == 0x131 {
        105
    } else {
        n
    }
}

/// `s` and `t` are equal up to case, as `fold_case` folds it.
pub open spec fn eq_ignore_case(s: Seq<char>, t: Seq<char>) -> bool {
    &&& s.len() == t.len()
    &&& forall|i: int| 0 <= i < s.len() ==> #[trigger] fold_case(s[i]) == fold_case(t[i])
}

/// Executable case folding of one character, as a code point.
pub fn fold_char(c: char) -> (r: u32)
    ensures
        r == fold_case(c),
{
    let n = c as u32;
    if 65 <= n && n <= 90 {
        n + 32
    } else if n == 0x17f {
        115
    } else if n == 0x131 {
        105
    } else {
        n
    }
}

/// Compares two strings up to case, as `fold_case` folds it.
pub fn str_eq_ignore_case(s: &str, t: &str) -> (r: bool)
    ensures
        r == eq_ignore_case(s@, t@),
{
    let a = chars_of(s);
    let b = chars_of(t);
    let n = a.len();
    if n != b.len() {
        return false;
    }
    let mut i: usize = 0;
    while i < n
        invariant
            a@ == s@,
            b@ == t@,
            n == s@.len(),
            n == t@.len(),
            i <= n,
            forall|j: int| 0 <= j < i ==> #[trigger] fold_case(s@[j]) == fold_case(t@[j]),
        decreases n - i,
    {
        if fold_char(a[i]) != fold_char(b[i]) {
            return false;
        }
        i = i + 1;
    }
    true
}

} // verus!

verus! {

/// The characters of `s`, in order.
pub fn chars_of(s: &str) -> (r: Vec<char>)
    ensures
        r@ == s@,
{
    broadcast use vstd::string::axiom_spec_iter;
    let mut out: Vec<char> = Vec::new();
    for c in it: s.chars()
        invariant
            it.seq() == s@,
            out@ == it.seq().subrange(0, it.index() as int),
    {
        out.push(c);
    }
    out
}

} // verus!

verus! {

/// `s` with every occurrence of `pat` replaced by `rep`, scanning from the
/// left without overlaps.
pub open spec fn replace_all(s: Seq<char>, pat: Seq<char>, rep: Seq<char>) -> Seq<char>
    decreases s.len(),
{
    if pat.len() == 0 || s.len() < pat.len() {
        s
    } else if s.subrange(0, pat.len() as int) == pat {
        rep + replace_all(s.subrange(pat.len() as int, s.len() as int), pat, rep)
    } else {
        seq![s[0]] + replace_all(s.drop_first(), pat, rep)
    }
}

/// Whether `pat` occurs in `cs` at position `i`.
fn occurs_at(cs: &Vec<char>, i: usize, pat: &Vec<char>) -> (r: bool)
    requires
        i + pat@.len() <= cs@.len(),
    ensures
        r == (cs@.subrange(i as int, i + pat@.len()) == pat@),
{
    let p = pat.len();
    let m = cs.len();
    let mut k: usize = 0;
    while k < p
        invariant
            p == pat@.len(),
            m == cs@.len(),
            i + p <= cs@.len(),
            k <= p,
            cs@.subrange(i as int, i + k) == pat@.subrange(0, k as int),
        decreases p - k,
    {
        if cs[i + k] != pat[k] {
            assert(cs@.subrange(i as int, i + p)[k as int] != pat@[k as int]);
            return false;
        }
        assert(cs@.subrange(i as int, i + k + 1) =~= cs@.subrange(i as int, i + k).push(cs@[i + k]));
        assert(pat@.subrange(0, k + 1) =~= pat@.subrange(0, k as int).push(pat@[k as int]));
        k = k + 1;
    }
    assert(pat@.subrange(0, p as int) =~= pat@);
    true
}

/// One step of `replace_all` at position `i` of `s`.
proof fn lemma_replace_step(s: Seq<char>, pat: Seq<char>, rep: Seq<char>, i: int)
    requires
        pat.len() > 0,
        0 <= i < s.len(),
    ensures
        i + pat.len() <= s.len() && s.subrange(i, i + pat.len()) == pat ==> replace_all(
            s.subrange(i, s.len() as int),
            pat,
            rep,
        ) == rep + replace_all(s.subrange(i + pat.len(), s.len() as int), pat, rep),
        !(i + pat.len() <= s.len() && s.subrange(i, i + pat.len()) == pat) ==> replace_all(
            s.subrange(i, s.len() as int),
            pat,
            rep,
        ) == seq![s[i]] + replace_all(s.subrange(i + 1, s.len() as int), pat, rep),
{
    let t = s.subrange(i, s.len() as int);
    assert(t.drop_first() =~= s.subrange(i + 1, s.len() as int));
    if i + pat.len() <= s.len() {
        assert(t.subrange(0, pat.len() as int) =~= s.subrange(i, i + pat.len()));
        assert(t.subrange(pat.len() as int, t.len() as int) =~= s.subrange(
            i + pat.len(),
            s.len() as int,
        ));
    } else {
        let u = s.subrange(i + 1, s.len() as int);
        assert(replace_all(u, pat, rep) == u);
        assert(t =~= seq![s[i]] + u);
    }
}

/// Replaces every occurrence of `pat` in `s` by `rep`.
pub(crate) fn replace_all_str(s: &str, pat: &str, rep: &str) -> (r: String)
    requires
        pat@.len() > 0,
    ensures
        r@ == replace_all(s@, pat@, rep@),
{
    let cs = chars_of(s);
    let ps = chars_of(pat);
    let n = cs.len();
    let p = ps.len();
    let mut out = String::new();
    let mut start: usize = 0;
    let mut i: usize = 0;
    assert(s@.subrange(0, n as int) =~= s@);
    while i < n
        invariant
            cs@ == s@,
            ps@ == pat@,
            n == s@.len(),
            p == pat@.len(),
            p > 0,
            start <= i <= n,
            out@ + s@.subrange(start as int, i as int) + replace_all(
                s@.subrange(i as int, n as int),
                pat@,
                rep@,
            ) == replace_all(s@, pat@, rep@),
        decreases n - i,
    {
        proof {
            lemma_replace_step(s@, pat@, rep@, i as int);
        }
        if p <= n - i && occurs_at(&cs, i, &ps) {
            out.append(s.substring_char(start, i));
            out.append(rep);
            proof {
                assert(s@.subrange(i as int + p, i as int + p) =~= Seq::<char>::empty());
            }
            i = i + p;
            start = i;
            assert(out@ + s@.subrange(start as int, i as int) =~= out@);
        } else {
            assert(s@.subrange(start as int, i + 1) =~= s@.subrange(start as int, i as int) + seq![
                s@[i as int],
            ]);
            i = i + 1;
        }
    }
    out.append(s.substring_char(start, n));
    assert(s@.subrange(n as int, n as int) =~= Seq::<char>::empty());
    out
}

} // verus!

verus! {

/// `pat` occurs in `s` at position `i`.
pub open spec fn occurs_at_spec(s: Seq<char>, pat: Seq<char>, i: int) -> bool {
    0 <= i && i + pat.len() <= s.len() && s.subrange(i, i + pat.len()) == pat
}

/// The first position at or after `from` where `pat` occurs in `s`.
pub open spec fn find_first(s: Seq<char>, pat: Seq<char>, from: int) -> Option<int>
    decreases s.len() - from,
{
    if from < 0 || from >= s.len() || from + pat.len() > s.len() {
        None
    } else if occurs_at_spec(s, pat, from) {
        Some(from)
    } else {
        find_first(s, pat, from + 1)
    }
}

/// Finds the first occurrence of `pat` in `cs` at or after `from`.
pub fn find_from(cs: &Vec<char>, pat: &Vec<char>, from: usize) -> (r: Option<usize>)
    ensures
        r matches Some(i) ==> find_first(cs@, pat@, from as int) == Some(i as int),
        r is None ==> find_first(cs@, pat@, from as int) is None,
{
    let n = cs.len();
    let p = pat.len();
    let mut i = from;
    while i < n && p <= n - i
        invariant
            n == cs@.len(),
            p == pat@.len(),
            from <= i,
            find_first(cs@, pat@, from as int) == find_first(cs@, pat@, i as int),
        decreases n + 1 - i,
    {
        if occurs_at(cs, i, pat) {
            return Some(i);
        }
        i = i + 1;
    }
    None
}

/// A position that `find_first` gives is an occurrence at or after `from`.
pub proof fn lemma_find_first_occurs(s: Seq<char>, pat: Seq<char>, from: int)
    ensures
        find_first(s, pat, from) matches Some(i) ==> from <= i && occurs_at_spec(s, pat, i),
    decreases s.len() - from,
{
    if !(from < 0 || from >= s.len() || from + pat.len() > s.len()) && !occurs_at_spec(
        s,
        pat,
        from,
    ) {
        lemma_find_first_occurs(s, pat, from + 1);
    }
}

/// The text between the first `open` and the first `close` after it.
pub open spec fn between(s: Seq<char>, open: Seq<char>, close: Seq<char>) -> Option<Seq<char>> {
    match find_first(s, open, 0) {
        Some(i) => match find_first(s, close, i + open.len()) {
            Some(j) => Some(s.subrange(i + open.len(), j)),
            None => None,
        },
        None => None,
    }
}

/// Finds the text between the first `open` and the first `close` after it.
pub fn text_between(s: &str, open: &str, close: &str) -> (r: Option<String>)
    ensures
        r matches Some(t) ==> between(s@, open@, close@) == Some(t@),
        r is None ==> between(s@, open@, close@) is None,
{
    let cs = chars_of(s);
    let os = chars_of(open);
    let ks = chars_of(close);
    let n = cs.len();
    match find_from(&cs, &os, 0) {
        Some(i) => {
            proof {
                lemma_find_first_occurs(s@, open@, 0);
                assert(i + os@.len() <= n);
            }
            let start = i + os.len();
            match find_from(&cs, &ks, start) {
                Some(j) => {
                    proof {
                        lemma_find_first_occurs(s@, close@, start as int);
                    }
                    Some(String::from_str(s.substring_char(start, j)))
                },
                None => None,
            }
        },
        None => None,
    }
}

} // verus!

verus! {

/// `c` has the Unicode White_Space property.
pub open spec fn is_white_space(c: char) -> bool {
    let n = c as u32;
    ||| 0x9 <= n && n <= 0xd
    ||| n == 0x20
    ||| n == 0x85
    ||| n == 0xa0
    ||| n == 0x1680
    ||| 0x2000 <= n && n <= 0x200a
    ||| n == 0x2028
    ||| n == 0x2029
    ||| n == 0x202f
    ||| n == 0x205f
    ||| n == 0x3000
}

/// Whether `c` has the Unicode White_Space property.
pub fn white_space(c: char) -> (r: bool)
    ensures
        r == is_white_space(c),
{
    let n = c as u32;
    (0x9 <= n && n <= 0xd) || n == 0x20 || n == 0x85 || n == 0xa0 || n == 0x1680 || (0x2000 <= n
        && n <= 0x200a) || n == 0x2028 || n == 0x2029 || n == 0x202f || n == 0x205f || n == 0x3000
}

/// `s` without its leading and trailing white space.
pub open spec fn trimmed(s: Seq<char>) -> Seq<char> {
    let lo = trim_start_len(s);
    s.subrange(lo, s.len() - trim_end_len(s.subrange(lo, s.len() as int)))
}

/// How many white-space characters `s` starts with.
pub open spec fn trim_start_len(s: Seq<char>) -> int
    decreases s.len(),
{
    if s.len() > 0 && is_white_space(s[0]) {
        1 + trim_start_len(s.drop_first())
    } else {
        0
    }
}

/// How many white-space characters `s` ends with.
pub open spec fn trim_end_len(s: Seq<char>) -> int
    decreases s.len(),
{
    if s.len() > 0 && is_white_space(s.last()) {
        1 + trim_end_len(s.drop_last())
    } else {
        0
    }
}

proof fn lemma_trim_start_step(s: Seq<char>, i: int)
    requires
        0 <= i < s.len(),
        forall|j: int| 0 <= j < i ==> is_white_space(#[trigger] s[j]),
    ensures
        is_white_space(s[i]) ==> trim_start_len(s.subrange(i, s.len() as int)) == 1
            + trim_start_len(s.subrange(i + 1, s.len() as int)),
        !is_white_space(s[i]) ==> trim_start_len(s.subrange(i, s.len() as int)) == 0,
{
    let t = s.subrange(i, s.len() as int);
    assert(t.drop_first() =~= s.subrange(i + 1, s.len() as int));
    assert(t[0] == s[i]);
}

proof fn lemma_trim_end_step(s: Seq<char>, j: int)
    requires
        0 < j <= s.len(),
    ensures
        is_white_space(s[j - 1]) ==> trim_end_len(s.subrange(0, j)) == 1 + trim_end_len(
            s.subrange(0, j - 1),
        ),
        !is_white_space(s[j - 1]) ==> trim_end_len(s.subrange(0, j)) == 0,
{
    let t = s.subrange(0, j);
    assert(t.drop_last() =~= s.subrange(0, j - 1));
    assert(t.last() == s[j - 1]);
}

/// `s` without its leading and trailing white space.
pub fn trim(s: &str) -> (r: String)
    ensures
        r@ == trimmed(s@),
{
    let cs = chars_of(s);
    let n = cs.len();
    let mut lo: usize = 0;
    assert(s@.subrange(0, n as int) =~= s@);
    while lo < n && white_space(cs[lo])
        invariant
            cs@ == s@,
            n == s@.len(),
            lo <= n,
            forall|j: int| 0 <= j < lo ==> is_white_space(#[trigger] s@[j]),
            trim_start_len(s@) == lo + trim_start_len(s@.subrange(lo as int, n as int)),
        decreases n - lo,
    {
        proof {
            lemma_trim_start_step(s@, lo as int);
        }
        lo = lo + 1;
    }
    proof {
        if lo < n {
            lemma_trim_start_step(s@, lo as int);
        } else {
            assert(s@.subrange(lo as int, n as int).len() == 0);
        }
    }
    let ghost rest = s@.subrange(lo as int, n as int);
    let mut hi: usize = n;
    assert(rest.subrange(0, rest.len() as int) =~= rest);
    while hi > lo && white_space(cs[hi - 1])
        invariant
            cs@ == s@,
            n == s@.len(),
            trim_start_len(s@) == lo,
            rest == s@.subrange(lo as int, n as int),
            lo <= hi <= n,
            trim_end_len(rest) == (n - hi) + trim_end_len(rest.subrange(0, hi - lo)),
        decreases hi - lo,
    {
        proof {
            lemma_trim_end_step(rest, hi - lo);
            assert(rest[hi - lo - 1] == s@[hi - 1]);
        }
        hi = hi - 1;
    }
    proof {
        if hi > lo {
            lemma_trim_end_step(rest, hi - lo);
            assert(rest[hi - lo - 1] == s@[hi - 1]);
        } else {
            assert(rest.subrange(0, 0).len() == 0);
        }
    }
    String::from_str(s.substring_char(lo, hi))
}

} // verus!

verus! {

/// The decimal digit `d`, for `d < 10`.
pub open spec fn digit(d: nat) -> char {
    if d == 0 {
        '0'
    } else if d == 1 {
        '1'
    } else if d == 2 {
        '2'
    } else if d == 3 {
        '3'
    } else if d == 4 {
        '4'
    } else if d == 5 {
        '5'
    } else if d == 6 {
        '6'
    } else if d == 7 {
        '7'
    } else if d == 8 {
        '8'
    } else {
        '9'
    }
}

/// `n` written in decimal, without leading zeros.
pub open spec fn decimal(n: nat) -> Seq<char>
    decreases n,
{
    if n < 10 {
        seq![digit(n)]
    } else {
        decimal(n / 10).push(digit(n % 10))
    }
}

fn digit_str(d: u64) -> (r: &'static str)
    requires
        d < 10,
    ensures
        r@ == seq![digit(d as nat)],
{
    proof {
        reveal_strlit("0");
        reveal_strlit("1");
        reveal_strlit("2");
        reveal_strlit("3");
        reveal_strlit("4");
        reveal_strlit("5");
        reveal_strlit("6");
        reveal_strlit("7");
        reveal_strlit("8");
        reveal_strlit("9");
    }
    if d == 0 {
        "0"
    } else if d == 1 {
        "1"
    } else if d == 2 {
        "2"
    } else if d == 3 {
        "3"
    } else if d == 4 {
        "4"
    } else if d == 5 {
        "5"
    } else if d == 6 {
        "6"
    } else if d == 7 {
        "7"
    } else if d == 8 {
        "8"
    } else {
        "9"
    }
}

/// `n` written in decimal.
pub fn decimal_string(n: u64) -> (r: String)
    ensures
        r@ == decimal(n as nat),
    decreases n,
{
    if n < 10 {
        String::from_str(digit_str(n))
    } else {
        let mut s = decimal_string(n / 10);
        s.append(digit_str(n % 10));
        s
    }
}

/// A decimal numeral is never empty.
pub proof fn lemma_decimal_len(n: nat)
    ensures
        decimal(n).len() >= 1,
        n >= 10 ==> decimal(n).len() >= 2,
    decreases n,
{
    if n >= 10 {
        lemma_decimal_len(n / 10);
    }
}

/// Different numbers have different numerals.
pub proof fn lemma_decimal_injective(a: nat, b: nat)
    requires
        decimal(a) == decimal(b),
    ensures
        a == b,
    decreases a,
{
    lemma_decimal_len(a);
    lemma_decimal_len(b);
    if a >= 10 && b >= 10 {
        let da = decimal(a);
        let db = decimal(b);
        assert(da == decimal(a / 10).push(digit(a % 10)));
        assert(db == decimal(b / 10).push(digit(b % 10)));
        assert(da.drop_last() =~= decimal(a / 10));
        assert(db.drop_last() =~= decimal(b / 10));
        assert(da.last() == digit(a % 10));
        assert(db.last() == digit(b % 10));
        lemma_digit_injective(a % 10, b % 10);
        lemma_decimal_injective(a / 10, b / 10);
        assert(a == 10 * (a / 10) + a % 10) by (nonlinear_arith);
        assert(b == 10 * (b / 10) + b % 10) by (nonlinear_arith);
    } else if a < 10 && b < 10 {
        assert(decimal(a) == seq![digit(a)]);
        assert(decimal(b) == seq![digit(b)]);
        assert(seq![digit(a)][0] == digit(a));
        assert(seq![digit(b)][0] == digit(b));
        lemma_digit_injective(a, b);
    }
}

proof fn lemma_digit_injective(x: nat, y: nat)
    requires
        x < 10,
        y < 10,
        digit(x) == digit(y),
    ensures
        x == y,
{
}

} // verus!
