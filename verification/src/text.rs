use vstd::prelude::*;
use vstd::std_specs::iter::IteratorSpec;
use vstd::string::*;

verus! {

broadcast use vstd::string::group_string_axioms;

/// The characters of `s`, in order.
pub fn chars_of(s: &str) -> (v: Vec<char>)
    ensures
        v@ == s@,
{
    let mut v: Vec<char> = Vec::new();
    for c in it: s.chars()
        invariant
            v@ == it.seq().take(it.index()),
    {
        v.push(c);
    }
    v
}

} // verus!

verus! {

/// Unicode `White_Space`, the property by which `char::is_whitespace` and
/// `str::trim` decide what whitespace is.
pub open spec fn is_whitespace_char(c: char) -> bool {
    ||| '\u{9}' <= c <= '\u{d}'
    ||| c == ' '
    ||| c == '\u{85}'
    ||| c == '\u{a0}'
    ||| c == '\u{1680}'
    ||| '\u{2000}' <= c <= '\u{200a}'
    ||| c == '\u{2028}'
    ||| c == '\u{2029}'
    ||| c == '\u{202f}'
    ||| c == '\u{205f}'
    ||| c == '\u{3000}'
}

/// `s` without its leading whitespace.
pub open spec fn trim_start_ws(s: Seq<char>) -> Seq<char>
    decreases s.len(),
{
    if s.len() > 0 && is_whitespace_char(s[0]) {
        trim_start_ws(s.drop_first())
    } else {
        s
    }
}

/// `s` without its trailing whitespace.
pub open spec fn trim_end_ws(s: Seq<char>) -> Seq<char>
    decreases s.len(),
{
    if s.len() > 0 && is_whitespace_char(s.last()) {
        trim_end_ws(s.drop_last())
    } else {
        s
    }
}

/// `s` without leading and trailing whitespace.
pub open spec fn trim_ws(s: Seq<char>) -> Seq<char> {
    trim_end_ws(trim_start_ws(s))
}

/// `s` without the copies of `c` that end it.
pub open spec fn trim_end_char(s: Seq<char>, c: char) -> Seq<char>
    decreases s.len(),
{
    if s.len() > 0 && s.last() == c {
        trim_end_char(s.drop_last(), c)
    } else {
        s
    }
}

/// Exact test of `is_whitespace_char`.
pub fn is_whitespace(c: char) -> (b: bool)
    ensures
        b == is_whitespace_char(c),
{
    ('\u{9}' <= c && c <= '\u{d}') || c == ' ' || c == '\u{85}' || c == '\u{a0}' || c == '\u{1680}'
        || ('\u{2000}' <= c && c <= '\u{200a}') || c == '\u{2028}' || c == '\u{2029}' || c
        == '\u{202f}' || c == '\u{205f}' || c == '\u{3000}'
}

/// The index of the first character of `s` at or after `from` that is not
/// whitespace, or `s.len()` where there is none.
pub fn skip_whitespace(s: &Vec<char>, from: usize) -> (i: usize)
    requires
        from <= s.len(),
    ensures
        from <= i <= s.len(),
        forall|k: int| from <= k < i ==> is_whitespace_char(#[trigger] s@[k]),
        i < s.len() ==> !is_whitespace_char(s@[i as int]),
        trim_start_ws(s@.subrange(from as int, s.len() as int)) == s@.subrange(
            i as int,
            s.len() as int,
        ),
{
    let n = s.len();
    let mut i = from;
    while i < n && is_whitespace(s[i])
        invariant
            n == s.len(),
            from <= i <= n,
            forall|k: int| from <= k < i ==> is_whitespace_char(#[trigger] s@[k]),
            trim_start_ws(s@.subrange(from as int, n as int)) == trim_start_ws(
                s@.subrange(i as int, n as int),
            ),
        decreases n - i,
    {
        assert(s@.subrange(i as int, n as int).drop_first() =~= s@.subrange(i + 1, n as int));
        i = i + 1;
    }
    i
}

/// The end of `s.subrange(from, to)` once its trailing whitespace is left out.
fn end_before_whitespace(s: &Vec<char>, from: usize, to: usize) -> (j: usize)
    requires
        from <= to <= s.len(),
    ensures
        from <= j <= to,
        j > from ==> !is_whitespace_char(s@[j - 1]),
        trim_end_ws(s@.subrange(from as int, to as int)) == s@.subrange(from as int, j as int),
{
    let mut j = to;
    while j > from && is_whitespace(s[j - 1])
        invariant
            from <= j <= to <= s.len(),
            trim_end_ws(s@.subrange(from as int, to as int)) == trim_end_ws(
                s@.subrange(from as int, j as int),
            ),
        decreases j,
    {
        assert(s@.subrange(from as int, j as int).drop_last() =~= s@.subrange(
            from as int,
            j - 1,
        ));
        j = j - 1;
    }
    j
}

/// `s` with leading and trailing whitespace removed, as `str::trim` does.
pub fn trim(s: &str) -> (t: String)
    ensures
        t@ == trim_ws(s@),
{
    let v = chars_of(s);
    let i = skip_whitespace(&v, 0);
    assert(v@.subrange(0, v.len() as int) =~= v@);
    let j = end_before_whitespace(&v, i, v.len());
    String::from_str(s.substring_char(i, j))
}

/// `s` without the copies of `c` that end it, as `str::trim_end_matches` with a
/// single character does.
pub fn trim_end_matches_char(s: &str, c: char) -> (t: String)
    ensures
        t@ == trim_end_char(s@, c),
{
    let v = chars_of(s);
    let mut j = v.len();
    assert(s@.subrange(0, j as int) =~= s@);
    while j > 0 && v[j - 1] == c
        invariant
            j <= v.len(),
            v@ == s@,
            trim_end_char(s@, c) == trim_end_char(s@.subrange(0, j as int), c),
        decreases j,
    {
        assert(s@.subrange(0, j as int).drop_last() =~= s@.subrange(0, j - 1));
        j = j - 1;
    }
    String::from_str(s.substring_char(0, j))
}

} // verus!

verus! {

/// The decimal digit for `d`, `0 <= d < 10`.
pub open spec fn digit_char(d: int) -> char {
    if d == 0 {
        '0'
    } else if d == 1 {
        '1'
    } else if d == 2 {
        '2'
    } else if d == 3 {
        '3'
    } else if d == 4 {
        '4'
    } else if d == 5 {
        '5'
    } else if d == 6 {
        '6'
    } else if d == 7 {
        '7'
    } else if d == 8 {
        '8'
    } else {
        '9'
    }
}

/// The decimal numeral of `n`, without leading zeros.
pub open spec fn nat_decimal(n: nat) -> Seq<char>
    decreases n,
{
    if n < 10 {
        seq![digit_char(n as int)]
    } else {
        nat_decimal(n / 10).push(digit_char((n % 10) as int))
    }
}

/// The decimal numeral of `x`, with a leading `-` where it is negative, as
/// `Display` writes an integer.
pub open spec fn int_decimal(x: int) -> Seq<char> {
    if x < 0 {
        seq!['-'] + nat_decimal((-x) as nat)
    } else {
        nat_decimal(x as nat)
    }
}

fn digit_str(d: u64) -> (s: &'static str)
    requires
        d < 10,
    ensures
        s@ == seq![digit_char(d as int)],
{
    proof {
        reveal_strlit("0");
        reveal_strlit("1");
        reveal_strlit("2");
        reveal_strlit("3");
        reveal_strlit("4");
        reveal_strlit("5");
        reveal_strlit("6");
        reveal_strlit("7");
        reveal_strlit("8");
        reveal_strlit("9");
    }
    let s = if d == 0 {
        "0"
    } else if d == 1 {
        "1"
    } else if d == 2 {
        "2"
    } else if d == 3 {
        "3"
    } else if d == 4 {
        "4"
    } else if d == 5 {
        "5"
    } else if d == 6 {
        "6"
    } else if d == 7 {
        "7"
    } else if d == 8 {
        "8"
    } else {
        "9"
    };
    assert(s@ =~= seq![digit_char(d as int)]);
    s
}

fn append_nat_decimal(out: &mut String, n: u64)
    ensures
        final(out)@ == old(out)@ + nat_decimal(n as nat),
    decreases n,
{
    if n >= 10 {
        append_nat_decimal(out, n / 10);
    }
    out.append(digit_str(n % 10));
    proof {
        if n >= 10 {
            assert(final(out)@ =~= old(out)@ + nat_decimal(n as nat));
        }
    }
}

/// Appends the decimal numeral of `x` to `out`.
pub fn append_i32_decimal(out: &mut String, x: i32)
    ensures
        final(out)@ == old(out)@ + int_decimal(x as int),
{
    if x < 0 {
        proof {
            reveal_strlit("-");
        }
        out.append("-");
        let m: u64 = (0i64 - x as i64) as u64;
        append_nat_decimal(out, m);
        assert(final(out)@ =~= old(out)@ + int_decimal(x as int));
    } else {
        append_nat_decimal(out, x as u64);
    }
}

} // verus!

verus! {

/// Whether `a` and `b` hold the same text.
pub fn same_text(a: &str, b: &str) -> (same: bool)
    ensures
        same == (a@ == b@),
{
    String::from_str(a) == String::from_str(b)
}

} // verus!

verus! {

/// The first index at or after `i` whose character is not whitespace, or
/// `s.len()` where there is none.
pub open spec fn skip_ws_from(s: Seq<char>, i: int) -> int
    decreases s.len() - i,
{
    if 0 <= i < s.len() && is_whitespace_char(s[i]) {
        skip_ws_from(s, i + 1)
    } else {
        i
    }
}

/// The first index at or after `i` whose character is whitespace, or
/// `s.len()` where there is none.
pub open spec fn word_end_from(s: Seq<char>, i: int) -> int
    decreases s.len() - i,
{
    if 0 <= i < s.len() && !is_whitespace_char(s[i]) {
        word_end_from(s, i + 1)
    } else {
        i
    }
}

pub proof fn lemma_skip_ws_from(s: Seq<char>, i: int)
    requires
        0 <= i,
    ensures
        i <= skip_ws_from(s, i),
        i <= s.len() ==> skip_ws_from(s, i) <= s.len(),
        skip_ws_from(s, i) < s.len() ==> !is_whitespace_char(s[skip_ws_from(s, i)]),
    decreases s.len() - i,
{
    if 0 <= i < s.len() && is_whitespace_char(s[i]) {
        lemma_skip_ws_from(s, i + 1);
    }
}

pub proof fn lemma_word_end_from(s: Seq<char>, i: int)
    requires
        0 <= i,
    ensures
        i <= word_end_from(s, i),
        i <= s.len() ==> word_end_from(s, i) <= s.len(),
        i < s.len() && !is_whitespace_char(s[i]) ==> i < word_end_from(s, i),
    decreases s.len() - i,
{
    if 0 <= i < s.len() && !is_whitespace_char(s[i]) {
        lemma_word_end_from(s, i + 1);
    }
}

/// The whitespace-separated words of `s` from index `i` on.
pub open spec fn words_from(s: Seq<char>, i: int) -> Seq<Seq<char>>
    decreases s.len() - i,
{
    if 0 <= i <= s.len() {
        let a = skip_ws_from(s, i);
        if a >= s.len() {
            Seq::empty()
        } else {
            let b = word_end_from(s, a);
            proof {
                lemma_skip_ws_from(s, i);
                lemma_word_end_from(s, a);
            }
            seq![s.subrange(a, b)] + words_from(s, b)
        }
    } else {
        Seq::empty()
    }
}

/// The whitespace-separated words of `s`, as `str::split_whitespace` yields
/// them.
pub open spec fn words(s: Seq<char>) -> Seq<Seq<char>> {
    words_from(s, 0)
}

/// Whether `a` and `b` hold the same characters.
pub fn chars_equal(a: &Vec<char>, b: &Vec<char>) -> (same: bool)
    ensures
        same == (a@ == b@),
{
    if a.len() != b.len() {
        return false;
    }
    let n = a.len();
    let mut k: usize = 0;
    while k < n
        invariant
            n == a.len() == b.len(),
            k <= n,
            forall|j: int| 0 <= j < k ==> a@[j] == b@[j],
        decreases n - k,
    {
        if a[k] != b[k] {
            return false;
        }
        k = k + 1;
    }
    assert(a@ =~= b@);
    true
}

/// The whitespace-separated words of `v`.
pub fn split_words(v: &Vec<char>) -> (ws: Vec<Vec<char>>)
    ensures
        ws.deep_view() == words(v@),
{
    let n = v.len();
    let mut out: Vec<Vec<char>> = Vec::new();
    let mut i: usize = 0;
    loop
        invariant
            n == v.len(),
            i <= n,
            words(v@) == out.deep_view() + words_from(v@, i as int),
        decreases n - i,
    {
        let ghost s = v@;
        let mut a = i;
        while a < n && is_whitespace(v[a])
            invariant
                n == v.len(),
                s == v@,
                i <= a <= n,
                skip_ws_from(s, i as int) == skip_ws_from(s, a as int),
            decreases n - a,
        {
            a = a + 1;
        }
        if a >= n {
            assert(words_from(s, i as int) =~= Seq::<Seq<char>>::empty());
            assert(words(s) =~= out.deep_view());
            return out;
        }
        let mut b = a;
        let mut word: Vec<char> = Vec::new();
        while b < n && !is_whitespace(v[b])
            invariant
                n == v.len(),
                s == v@,
                a <= b <= n,
                word_end_from(s, a as int) == word_end_from(s, b as int),
                word@ == s.subrange(a as int, b as int),
            decreases n - b,
        {
            word.push(v[b]);
            b = b + 1;
            assert(word@ =~= s.subrange(a as int, b as int));
        }
        proof {
            lemma_word_end_from(s, a as int);
        }
        let ghost before = out.deep_view();
        let ghost old_out = out@;
        assert(word.deep_view() =~= word@);
        out.push(word);
        assert(out@ == old_out.push(word));
        assert(out.deep_view().len() == before.len() + 1);
        assert forall|k: int| 0 <= k < before.len() implies out.deep_view()[k] == before[k] by {
            assert(out@[k] == old_out[k]);
        }
        assert(out.deep_view()[before.len() as int] == s.subrange(a as int, b as int));
        assert(out.deep_view() =~= before.push(s.subrange(a as int, b as int)));
        assert(words_from(s, i as int) == seq![s.subrange(a as int, b as int)] + words_from(
            s,
            b as int,
        ));
        assert(words(s) =~= out.deep_view() + words_from(s, b as int));
        i = b;
    }
}

} // verus!

verus! {

proof fn lemma_trim_start_ws(s: Seq<char>)
    ensures
        trim_start_ws(s).len() > 0 ==> !is_whitespace_char(trim_start_ws(s)[0]),
    decreases s.len(),
{
    if s.len() > 0 && is_whitespace_char(s[0]) {
        lemma_trim_start_ws(s.drop_first());
    }
}

proof fn lemma_trim_end_ws(s: Seq<char>)
    ensures
        trim_end_ws(s).len() <= s.len(),
        forall|i: int| 0 <= i < trim_end_ws(s).len() ==> #[trigger] trim_end_ws(s)[i] == s[i],
        trim_end_ws(s).len() > 0 ==> !is_whitespace_char(trim_end_ws(s).last()),
    decreases s.len(),
{
    if s.len() > 0 && is_whitespace_char(s.last()) {
        lemma_trim_end_ws(s.drop_last());
    }
}

/// Trimmed text that is not empty neither starts nor ends with whitespace.
pub proof fn lemma_trimmed_ends_are_not_whitespace(s: Seq<char>)
    ensures
        trim_ws(s).len() > 0 ==> !is_whitespace_char(trim_ws(s)[0]) && !is_whitespace_char(
            trim_ws(s).last(),
        ),
{
    lemma_trim_start_ws(s);
    lemma_trim_end_ws(trim_start_ws(s));
}

} // verus!

verus! {

/// Cutting the copies of `c` off the end of `s` leaves a prefix of `s` that
/// does not end in `c`, and everything cut off is `c`.
pub proof fn lemma_trim_end_char_shape(s: Seq<char>, c: char)
    ensures
        trim_end_char(s, c).len() <= s.len(),
        trim_end_char(s, c) == s.subrange(0, trim_end_char(s, c).len() as int),
        forall|i: int| trim_end_char(s, c).len() <= i < s.len() ==> s[i] == c,
        trim_end_char(s, c).len() > 0 ==> trim_end_char(s, c).last() != c,
    decreases s.len(),
{
    if s.len() > 0 && s.last() == c {
        lemma_trim_end_char_shape(s.drop_last(), c);
        let t = trim_end_char(s.drop_last(), c);
        assert(s.drop_last().subrange(0, t.len() as int) =~= s.subrange(0, t.len() as int));
        assert forall|i: int| t.len() <= i < s.len() implies s[i] == c by {
            if i < s.len() - 1 {
                assert(s.drop_last()[i] == s[i]);
            }
        }
    } else {
        assert(s.subrange(0, s.len() as int) =~= s);
    }
}

proof fn lemma_trim_start_ws_shape(s: Seq<char>)
    ensures
        trim_start_ws(s).len() <= s.len(),
        trim_start_ws(s) == s.subrange(s.len() - trim_start_ws(s).len(), s.len() as int),
        forall|k: int| 0 <= k < s.len() - trim_start_ws(s).len() ==> is_whitespace_char(s[k]),
        trim_start_ws(s).len() > 0 ==> !is_whitespace_char(trim_start_ws(s)[0]),
    decreases s.len(),
{
    if s.len() > 0 && is_whitespace_char(s[0]) {
        lemma_trim_start_ws_shape(s.drop_first());
        let t = trim_start_ws(s.drop_first());
        assert(s.drop_first().subrange(s.len() - 1 - t.len(), s.len() - 1) =~= s.subrange(
            s.len() - t.len(),
            s.len() as int,
        ));
        assert forall|k: int| 0 <= k < s.len() - t.len() implies is_whitespace_char(s[k]) by {
            if k > 0 {
                assert(s.drop_first()[k - 1] == s[k]);
            }
        }
    } else {
        assert(s.subrange(0, s.len() as int) =~= s);
    }
}

proof fn lemma_trim_end_ws_shape(s: Seq<char>)
    ensures
        trim_end_ws(s).len() <= s.len(),
        trim_end_ws(s) == s.subrange(0, trim_end_ws(s).len() as int),
        forall|k: int| trim_end_ws(s).len() <= k < s.len() ==> is_whitespace_char(s[k]),
        trim_end_ws(s).len() > 0 ==> !is_whitespace_char(trim_end_ws(s).last()),
    decreases s.len(),
{
    if s.len() > 0 && is_whitespace_char(s.last()) {
        lemma_trim_end_ws_shape(s.drop_last());
        let t = trim_end_ws(s.drop_last());
        assert(s.drop_last().subrange(0, t.len() as int) =~= s.subrange(0, t.len() as int));
        assert forall|k: int| t.len() <= k < s.len() implies is_whitespace_char(s[k]) by {
            if k < s.len() - 1 {
                assert(s.drop_last()[k] == s[k]);
            }
        }
    } else {
        assert(s.subrange(0, s.len() as int) =~= s);
    }
}

/// Trimming keeps exactly the stretch of `s` from its first to its last
/// character that is not whitespace: nothing is left out of that stretch and
/// nothing outside it is kept. It is empty exactly when `s` is all
/// whitespace.
pub proof fn lemma_trim_ws_shape(s: Seq<char>)
    ensures
        (trim_ws(s).len() > 0) == (exists|i: int| 0 <= i < s.len() && !is_whitespace_char(#[trigger] s[i])),
        exists|a: int, b: int|
            #![trigger s.subrange(a, b)]
            0 <= a <= b <= s.len() && trim_ws(s) == s.subrange(a, b) && (forall|k: int|
                0 <= k < a ==> is_whitespace_char(#[trigger] s[k])) && (forall|k: int|
                b <= k < s.len() ==> is_whitespace_char(#[trigger] s[k])) && (a < b
                ==> !is_whitespace_char(s[a]) && !is_whitespace_char(s[b - 1])),
{
    lemma_trim_start_ws_shape(s);
    let u = trim_start_ws(s);
    let a = s.len() - u.len();
    lemma_trim_end_ws_shape(u);
    let t = trim_end_ws(u);
    let b = a + t.len();
    assert(t =~= s.subrange(a, b));
    assert forall|k: int| b <= k < s.len() implies is_whitespace_char(s[k]) by {
        assert(u[k - a] == s[k]);
    }
    if a < b {
        assert(t[0] == u[0]);
        assert(u[0] == s[a]);
        assert(t.last() == s[b - 1]);
    }
    if exists|i: int| 0 <= i < s.len() && !is_whitespace_char(#[trigger] s[i]) {
        let i = choose|i: int| 0 <= i < s.len() && !is_whitespace_char(#[trigger] s[i]);
        assert(a <= i < b);
    }
    if t.len() > 0 {
        assert(!is_whitespace_char(s[a]));
    }
    assert(trim_ws(s) == s.subrange(a, b));
}

} // verus!
