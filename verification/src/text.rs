//! Character-level text primitives used by the parsers of this crate.
//!
//! Every string is modelled by its view, a `Seq<char>`; positions are
//! character positions.
use vstd::prelude::*;

verus! {

broadcast use vstd::string::group_string_axioms;

/// `pat` stands in `s` starting at position `i`.
pub open spec fn occurs_at(s: Seq<char>, pat: Seq<char>, i: int) -> bool {
    &&& 0 <= i
    &&& i + pat.len() <= s.len()
    &&& s.subrange(i, i + pat.len()) == pat
}

/// The first position at or after `k` where `pat` occurs in `s`.
pub open spec fn find_from(s: Seq<char>, pat: Seq<char>, k: int) -> Option<int>
    decreases s.len() + 1 - k,
{
    if k < 0 || k + pat.len() > s.len() {
        None
    } else if occurs_at(s, pat, k) {
        Some(k)
    } else {
        find_from(s, pat, k + 1)
    }
}

/// The first position where `pat` occurs in `s` (`str::find`).
pub open spec fn find_first(s: Seq<char>, pat: Seq<char>) -> Option<int> {
    find_from(s, pat, 0)
}

/// The last position before `k` that holds `c`.
pub open spec fn last_index_before(s: Seq<char>, c: char, k: int) -> Option<int>
    decreases k,
{
    if k <= 0 {
        None
    } else if s[k - 1] == c {
        Some(k - 1)
    } else {
        last_index_before(s, c, k - 1)
    }
}

/// The last position of `c` in `s` (`str::rfind` with a `char`).
pub open spec fn find_last_char(s: Seq<char>, c: char) -> Option<int> {
    last_index_before(s, c, s.len() as int)
}

pub proof fn lemma_find_last_char_bounds(s: Seq<char>, c: char)
    ensures
        find_last_char(s, c) matches Some(j) ==> 0 <= j < s.len() && s[j] == c,
{
    lemma_last_index_before_bounds(s, c, s.len() as int);
}

pub proof fn lemma_last_index_before_bounds(s: Seq<char>, c: char, k: int)
    requires
        k <= s.len(),
    ensures
        last_index_before(s, c, k) matches Some(j) ==> 0 <= j < k && s[j] == c,
    decreases k,
{
    if k > 0 && s[k - 1] != c {
        lemma_last_index_before_bounds(s, c, k - 1);
    }
}

pub proof fn lemma_find_from_bounds(s: Seq<char>, pat: Seq<char>, k: int)
    ensures
        find_from(s, pat, k) matches Some(j) ==> k <= j && j + pat.len() <= s.len() && occurs_at(
            s,
            pat,
            j,
        ),
    decreases s.len() + 1 - k,
{
    if !(k < 0 || k + pat.len() > s.len()) && !occurs_at(s, pat, k) {
        lemma_find_from_bounds(s, pat, k + 1);
    }
}

/// No position from `m` up to `k` holds `c`: the search from `k` backwards
/// lands where the search from `m` does.
pub proof fn lemma_last_index_skip(s: Seq<char>, c: char, k: int, m: int)
    requires
        0 <= m <= k <= s.len(),
        forall|p: int| m <= p < k ==> s[p] != c,
    ensures
        last_index_before(s, c, k) == last_index_before(s, c, m),
    decreases k - m,
{
    if k > m {
        lemma_last_index_skip(s, c, k - 1, m);
    }
}

/// No position after the last `c` holds `c`.
pub proof fn lemma_last_index_is_last(s: Seq<char>, c: char, k: int)
    requires
        0 <= k <= s.len(),
    ensures
        last_index_before(s, c, k) matches Some(j) ==> forall|p: int| j < p < k ==> s[p] != c,
        last_index_before(s, c, k) is None ==> forall|p: int| 0 <= p < k ==> s[p] != c,
    decreases k,
{
    if k > 0 && s[k - 1] != c {
        lemma_last_index_is_last(s, c, k - 1);
    }
}

/// The last `c` of `a`, then `c`, then `b` without `c`, is the one between.
pub proof fn lemma_last_char_of_join(a: Seq<char>, c: char, b: Seq<char>)
    requires
        forall|p: int| 0 <= p < b.len() ==> b[p] != c,
    ensures
        find_last_char(a + seq![c] + b, c) == Some(a.len() as int),
{
    let t = a + seq![c] + b;
    assert forall|p: int| a.len() + 1 <= p < t.len() implies t[p] != c by {
        assert(t[p] == b[p - a.len() - 1]);
    }
    lemma_last_index_skip(t, c, t.len() as int, a.len() + 1int);
    assert(t[a.len() as int] == c);
}

/// The first place at or after `k` where `pat` occurs is `j`, when it
/// occurs there and no position before it opens with the first character
/// of `pat`.
pub proof fn lemma_find_from_first(s: Seq<char>, pat: Seq<char>, k: int, j: int)
    requires
        0 <= k <= j,
        pat.len() > 0,
        occurs_at(s, pat, j),
        forall|p: int| k <= p < j ==> s[p] != pat[0],
    ensures
        find_from(s, pat, k) == Some(j),
    decreases j - k,
{
    if k < j {
        assert(!occurs_at(s, pat, k)) by {
            if occurs_at(s, pat, k) {
                assert(s.subrange(k, k + pat.len())[0] == s[k]);
            }
        }
        lemma_find_from_first(s, pat, k + 1, j);
    }
}

/// `s` as `{:?}` writes it: quoted, with its special characters escaped.
pub uninterp spec fn debug_quoted(s: Seq<char>) -> Seq<char>;

/// Writes `s` with `format!("{:?}", s)`. Its result is taken to be
/// `debug_quoted(s)`: how the escaping goes is left unsaid.
#[verifier::external_body]
pub(crate) fn debug_string(s: &str) -> (r: String)
    ensures
        r@ == debug_quoted(s@),
{
    format!("{:?}", s)
}

pub open spec fn starts_with(s: Seq<char>, prefix: Seq<char>) -> bool {
    prefix.len() <= s.len() && s.take(prefix.len() as int) == prefix
}

pub open spec fn ends_with(s: Seq<char>, suffix: Seq<char>) -> bool {
    suffix.len() <= s.len() && s.skip(s.len() - suffix.len()) == suffix
}

pub open spec fn contains_seq(s: Seq<char>, pat: Seq<char>) -> bool {
    find_first(s, pat) is Some
}

/// The characters of a string, one by one.
pub fn chars_of(s: &str) -> (v: Vec<char>)
    ensures
        v@ == s@,
{
    let n = s.unicode_len();
    let mut v: Vec<char> = Vec::new();
    let mut i: usize = 0;
    while i < n
        invariant
            n == s@.len(),
            i <= n,
            v@ == s@.take(i as int),
        decreases n - i,
    {
        let c = s.get_char(i);
        v.push(c);
        i = i + 1;
        assert(v@ =~= s@.take(i as int));
    }
    assert(v@ =~= s@);
    v
}

/// Whether `pat` stands in `s` at position `i`.
pub fn occurs_at_exec(s: &Vec<char>, pat: &Vec<char>, i: usize) -> (b: bool)
    ensures
        b == occurs_at(s@, pat@, i as int),
{
    if i > s.len() || pat.len() > s.len() - i {
        return false;
    }
    let mut t: usize = 0;
    while t < pat.len()
        invariant
            i + pat.len() <= s.len(),
            t <= pat.len(),
            s@.subrange(i as int, i + t) == pat@.take(t as int),
        decreases pat.len() - t,
    {
        if s[i + t] != pat[t] {
            assert(s@.subrange(i as int, i + pat@.len())[t as int] != pat@[t as int]);
            return false;
        }
        t = t + 1;
        assert(s@.subrange(i as int, i + t) =~= pat@.take(t as int));
    }
    assert(pat@.take(t as int) =~= pat@);
    true
}

/// The first position at or after `k` where `pat` occurs in `s`.
pub fn find_from_exec(s: &Vec<char>, pat: &Vec<char>, k: usize) -> (r: Option<usize>)
    ensures
        match r {
            Some(i) => find_from(s@, pat@, k as int) == Some(i as int),
            None => find_from(s@, pat@, k as int) is None,
        },
{
    let mut i = k;
    while i <= s.len() && pat.len() <= s.len() - i
        invariant
            k <= i,
            find_from(s@, pat@, k as int) == find_from(s@, pat@, i as int),
        decreases s.len() + 1 - i,
    {
        if occurs_at_exec(s, pat, i) {
            return Some(i);
        }
        if i == s.len() {
            assert(find_from(s@, pat@, i + 1) is None);
            return None;
        }
        i = i + 1;
    }
    None
}

/// The last position of `c` in `s`.
pub fn find_last_char_exec(s: &Vec<char>, c: char) -> (r: Option<usize>)
    ensures
        match r {
            Some(i) => find_last_char(s@, c) == Some(i as int),
            None => find_last_char(s@, c) is None,
        },
{
    let mut k = s.len();
    while k > 0
        invariant
            k <= s.len(),
            find_last_char(s@, c) == last_index_before(s@, c, k as int),
        decreases k,
    {
        if s[k - 1] == c {
            return Some(k - 1);
        }
        k = k - 1;
    }
    None
}

/// The views of a list of strings.
pub open spec fn string_views(v: Seq<String>) -> Seq<Seq<char>> {
    v.map_values(|x: String| x@)
}

/// `char::is_whitespace`: the characters with the Unicode `White_Space` property.
pub open spec fn is_space(c: char) -> bool {
    let u = c as u32;
    ||| 0x09 <= u <= 0x0d
    ||| u == 0x20
    ||| u == 0x85
    ||| u == 0xa0
    ||| u == 0x1680
    ||| 0x2000 <= u <= 0x200a
    ||| u == 0x2028
    ||| u == 0x2029
    ||| u == 0x202f
    ||| u == 0x205f
    ||| u == 0x3000
}

/// The number of whitespace characters that open `s`.
pub open spec fn leading_space(s: Seq<char>) -> nat
    decreases s.len(),
{
    if s.len() > 0 && is_space(s[0]) {
        1 + leading_space(s.drop_first())
    } else {
        0
    }
}

/// The number of whitespace characters that close `s`.
pub open spec fn trailing_space(s: Seq<char>) -> nat
    decreases s.len(),
{
    if s.len() > 0 && is_space(s.last()) {
        1 + trailing_space(s.drop_last())
    } else {
        0
    }
}

/// `str::trim_start`.
pub open spec fn trim_start(s: Seq<char>) -> Seq<char> {
    s.skip(leading_space(s) as int)
}

/// `str::trim_end`.
pub open spec fn trim_end(s: Seq<char>) -> Seq<char> {
    s.take(s.len() - trailing_space(s))
}

/// `str::trim`.
pub open spec fn trim(s: Seq<char>) -> Seq<char> {
    trim_end(trim_start(s))
}

/// The first position at or after `k` that holds `c`.
pub open spec fn next_index_of(s: Seq<char>, c: char, k: int) -> Option<int>
    decreases s.len() - k,
{
    if k < 0 || k >= s.len() {
        None
    } else if s[k] == c {
        Some(k)
    } else {
        next_index_of(s, c, k + 1)
    }
}

pub proof fn lemma_next_index_of_bounds(s: Seq<char>, c: char, k: int)
    requires
        0 <= k,
    ensures
        next_index_of(s, c, k) matches Some(j) ==> k <= j < s.len() && s[j] == c,
        next_index_of(s, c, k) is None ==> forall|j: int| k <= j < s.len() ==> s[j] != c,
    decreases s.len() - k,
{
    if 0 <= k < s.len() && s[k] != c {
        lemma_next_index_of_bounds(s, c, k + 1);
    }
}

/// The pieces of `s` from position `start` on that `str::split_inclusive('\n')`
/// yields: each ends with its newline, but the last one may lack it.
pub open spec fn pieces_from(s: Seq<char>, start: int) -> Seq<Seq<char>>
    decreases s.len() - start,
{
    if start < 0 || start >= s.len() {
        Seq::empty()
    } else {
        match next_index_of(s, '\n', start) {
            None => seq![s.subrange(start, s.len() as int)],
            Some(j) => {
                proof {
                    lemma_next_index_of_bounds(s, '\n', start);
                }
                seq![s.subrange(start, j + 1)] + pieces_from(s, j + 1)
            },
        }
    }
}

/// A line without its line ending: a closing `"\n"` goes, and then a `'\r'` before it.
pub open spec fn strip_line_ending(piece: Seq<char>) -> Seq<char> {
    if piece.len() > 0 && piece.last() == '\n' {
        let body = piece.drop_last();
        if body.len() > 0 && body.last() == '\r' {
            body.drop_last()
        } else {
            body
        }
    } else {
        piece
    }
}

/// `str::lines`.
pub open spec fn lines(s: Seq<char>) -> Seq<Seq<char>> {
    pieces_from(s, 0).map_values(|p: Seq<char>| strip_line_ending(p))
}

/// The end of the run of non-whitespace characters that starts at `k`.
pub open spec fn word_end(s: Seq<char>, k: int) -> int
    decreases s.len() - k,
{
    if k < 0 || k >= s.len() || is_space(s[k]) {
        k
    } else {
        word_end(s, k + 1)
    }
}

/// The first item of `str::split_whitespace`.
pub open spec fn first_word(s: Seq<char>) -> Option<Seq<char>> {
    let a = leading_space(s) as int;
    if a >= s.len() {
        None
    } else {
        Some(s.subrange(a, word_end(s, a)))
    }
}

pub fn is_space_exec(c: char) -> (b: bool)
    ensures
        b == is_space(c),
{
    let u = c as u32;
    (0x09 <= u && u <= 0x0d) || u == 0x20 || u == 0x85 || u == 0xa0 || u == 0x1680 || (0x2000
        <= u && u <= 0x200a) || u == 0x2028 || u == 0x2029 || u == 0x202f || u == 0x205f || u
        == 0x3000
}

pub proof fn lemma_leading_space(s: Seq<char>, k: int)
    requires
        0 <= k <= s.len(),
        forall|j: int| 0 <= j < k ==> is_space(#[trigger] s[j]),
    ensures
        leading_space(s) == k + leading_space(s.skip(k)),
    decreases k,
{
    if k > 0 {
        assert(s.drop_first().skip(k - 1) =~= s.skip(k));
        lemma_leading_space(s.drop_first(), k - 1);
    } else {
        assert(s.skip(0) =~= s);
    }
}

pub proof fn lemma_trailing_space(s: Seq<char>, k: int)
    requires
        0 <= k <= s.len(),
        forall|j: int| k <= j < s.len() ==> is_space(#[trigger] s[j]),
    ensures
        trailing_space(s) == (s.len() - k) + trailing_space(s.take(k)),
    decreases s.len() - k,
{
    if k < s.len() {
        assert(s.drop_last().take(k) =~= s.take(k));
        lemma_trailing_space(s.drop_last(), k);
    } else {
        assert(s.take(k) =~= s);
    }
}

/// The number of whitespace characters that open `s`.
pub fn leading_space_exec(s: &Vec<char>) -> (n: usize)
    ensures
        n == leading_space(s@),
        n <= s.len(),
{
    let mut i: usize = 0;
    while i < s.len() && is_space_exec(s[i])
        invariant
            i <= s.len(),
            forall|j: int| 0 <= j < i ==> is_space(#[trigger] s@[j]),
        decreases s.len() - i,
    {
        i = i + 1;
    }
    proof {
        lemma_leading_space(s@, i as int);
        assert(s@.skip(i as int).len() == 0 || !is_space(s@.skip(i as int)[0]));
    }
    i
}

/// The number of whitespace characters that close `s`.
pub fn trailing_space_exec(s: &Vec<char>) -> (n: usize)
    ensures
        n == trailing_space(s@),
        n <= s.len(),
{
    let mut k: usize = s.len();
    while k > 0 && is_space_exec(s[k - 1])
        invariant
            k <= s.len(),
            forall|j: int| k <= j < s.len() ==> is_space(#[trigger] s@[j]),
        decreases k,
    {
        k = k - 1;
    }
    proof {
        lemma_trailing_space(s@, k as int);
        assert(s@.take(k as int).len() == 0 || !is_space(s@.take(k as int).last()));
    }
    s.len() - k
}

/// The first position at or after `k` that holds `c`.
pub fn next_index_of_exec(s: &Vec<char>, c: char, k: usize) -> (r: Option<usize>)
    ensures
        match r {
            Some(j) => next_index_of(s@, c, k as int) == Some(j as int),
            None => next_index_of(s@, c, k as int) is None,
        },
{
    let mut i = k;
    while i < s.len()
        invariant
            k <= i,
            next_index_of(s@, c, k as int) == next_index_of(s@, c, i as int),
        decreases s.len() - i,
    {
        if s[i] == c {
            return Some(i);
        }
        i = i + 1;
    }
    None
}

/// The lines of `s`, as `str::lines` yields them.
pub fn lines_of(s: &str) -> (r: Vec<String>)
    ensures
        r@.map_values(|x: String| x@) == lines(s@),
{
    let v = chars_of(s);
    let mut out: Vec<String> = Vec::new();
    let mut start: usize = 0;
    proof {
        assert(out@.map_values(|x: String| x@) + pieces_from(s@, 0).map_values(
            |p: Seq<char>| strip_line_ending(p),
        ) =~= lines(s@));
    }
    while start < v.len()
        invariant
            v@ == s@,
            start <= v.len(),
            out@.map_values(|x: String| x@) + pieces_from(s@, start as int).map_values(
                |p: Seq<char>| strip_line_ending(p),
            ) == lines(s@),
        decreases v.len() - start,
    {
        let ghost before = out@.map_values(|x: String| x@);
        proof {
            lemma_next_index_of_bounds(s@, '\n', start as int);
        }
        match next_index_of_exec(&v, '\n', start) {
            None => {
                let piece = substring(s, start, v.len());
                proof {
                    let p = s@.subrange(start as int, s@.len() as int);
                    assert(p.len() > 0);
                    assert(p.last() == s@[s@.len() - 1]);
                    assert(strip_line_ending(p) == p);
                }
                out.push(piece);
                proof {
                    assert(out@.map_values(|x: String| x@) =~= before.push(piece@));
                    assert(pieces_from(s@, v.len() as int) =~= Seq::<Seq<char>>::empty());
                    assert(pieces_from(s@, start as int) =~= seq![s@.subrange(start as int, s@.len() as int)]);
                    assert(out@.map_values(|x: String| x@) + pieces_from(s@, v.len() as int).map_values(
                        |p: Seq<char>| strip_line_ending(p),
                    ) =~= before + pieces_from(s@, start as int).map_values(
                        |p: Seq<char>| strip_line_ending(p),
                    ));
                }
                start = v.len();
            },
            Some(j) => {
                let mut end = j;
                if end > start && v[end - 1] == '\r' {
                    end = end - 1;
                }
                let piece = substring(s, start, end);
                proof {
                    let p = s@.subrange(start as int, j + 1);
                    assert(p.drop_last() =~= s@.subrange(start as int, j as int));
                    assert(p.last() == '\n');
                    if end < j {
                        assert(p.drop_last().drop_last() =~= s@.subrange(start as int, end as int));
                    }
                    assert(strip_line_ending(p) == piece@);
                    let rest = pieces_from(s@, j + 1);
                    assert(pieces_from(s@, start as int) == seq![p] + rest);
                    assert(pieces_from(s@, start as int).map_values(|q: Seq<char>| strip_line_ending(q))
                        =~= seq![piece@] + rest.map_values(|q: Seq<char>| strip_line_ending(q)));
                }
                out.push(piece);
                proof {
                    assert(out@.map_values(|x: String| x@) =~= before.push(piece@));
                    assert(out@.map_values(|x: String| x@) + pieces_from(s@, j + 1).map_values(
                        |q: Seq<char>| strip_line_ending(q),
                    ) =~= before + pieces_from(s@, start as int).map_values(
                        |q: Seq<char>| strip_line_ending(q),
                    ));
                }
                start = j + 1;
            },
        }
    }
    proof {
        assert(pieces_from(s@, start as int) =~= Seq::<Seq<char>>::empty());
        assert(out@.map_values(|x: String| x@) + pieces_from(s@, start as int).map_values(
            |q: Seq<char>| strip_line_ending(q),
        ) =~= out@.map_values(|x: String| x@));
    }
    out
}

/// The decimal digit for `d`.
pub open spec fn digit_char(d: int) -> char {
    if d == 0 {
        '0'
    } else if d == 1 {
        '1'
    } else if d == 2 {
        '2'
    } else if d == 3 {
        '3'
    } else if d == 4 {
        '4'
    } else if d == 5 {
        '5'
    } else if d == 6 {
        '6'
    } else if d == 7 {
        '7'
    } else if d == 8 {
        '8'
    } else {
        '9'
    }
}

/// `n` written in decimal, as `Display` writes an unsigned integer.
pub open spec fn decimal(n: nat) -> Seq<char>
    decreases n,
{
    if n < 10 {
        seq![digit_char(n as int)]
    } else {
        decimal(n / 10).push(digit_char((n % 10) as int))
    }
}

fn digit_str(d: u64) -> (r: &'static str)
    requires
        d < 10,
    ensures
        r@ == seq![digit_char(d as int)],
{
    proof {
        reveal_strlit("0");
        reveal_strlit("1");
        reveal_strlit("2");
        reveal_strlit("3");
        reveal_strlit("4");
        reveal_strlit("5");
        reveal_strlit("6");
        reveal_strlit("7");
        reveal_strlit("8");
        reveal_strlit("9");
    }
    if d == 0 {
        "0"
    } else if d == 1 {
        "1"
    } else if d == 2 {
        "2"
    } else if d == 3 {
        "3"
    } else if d == 4 {
        "4"
    } else if d == 5 {
        "5"
    } else if d == 6 {
        "6"
    } else if d == 7 {
        "7"
    } else if d == 8 {
        "8"
    } else {
        "9"
    }
}

/// `n` written in decimal.
pub fn decimal_string(n: u64) -> (r: String)
    ensures
        r@ == decimal(n as nat),
{
    let mut m: u64 = n;
    let mut r = owned(digit_str(m % 10));
    m = m / 10;
    while m > 0
        invariant
            m > 0 ==> decimal(n as nat) == decimal(m as nat) + r@,
            m == 0 ==> decimal(n as nat) == r@,
        decreases m,
    {
        let ghost old_r = r@;
        r = join2(digit_str(m % 10), r.as_str());
        proof {
            if m >= 10 {
                assert(decimal(m as nat) == decimal((m / 10) as nat).push(digit_char((m % 10) as int)));
                assert(decimal(m as nat) + old_r =~= decimal((m / 10) as nat) + r@);
            } else {
                assert(decimal(m as nat) =~= seq![digit_char(m as int)]);
                assert(decimal(m as nat) + old_r =~= r@);
            }
        }
        m = m / 10;
    }
    r
}

pub proof fn lemma_leading_space_bound(s: Seq<char>)
    ensures
        leading_space(s) <= s.len(),
        leading_space(s) < s.len() ==> !is_space(s[leading_space(s) as int]),
        forall|j: int| 0 <= j < leading_space(s) ==> is_space(#[trigger] s[j]),
    decreases s.len(),
{
    if s.len() > 0 && is_space(s[0]) {
        lemma_leading_space_bound(s.drop_first());
        assert forall|j: int| 0 <= j < leading_space(s) implies is_space(#[trigger] s[j]) by {
            if j > 0 {
                assert(s[j] == s.drop_first()[j - 1]);
            }
        }
    }
}

/// The end of the run of non-whitespace characters that starts at `k`.
pub fn word_end_exec(s: &Vec<char>, k: usize) -> (e: usize)
    requires
        k <= s.len(),
    ensures
        e == word_end(s@, k as int),
        k <= e <= s.len(),
{
    let mut i = k;
    while i < s.len() && !is_space_exec(s[i])
        invariant
            k <= i <= s.len(),
            word_end(s@, k as int) == word_end(s@, i as int),
        decreases s.len() - i,
    {
        i = i + 1;
    }
    i
}

/// The first whitespace-separated word of `s`.
pub fn first_word_exec(s: &str) -> (r: Option<String>)
    ensures
        match r {
            Some(w) => first_word(s@) == Some(w@),
            None => first_word(s@) is None,
        },
{
    let v = chars_of(s);
    let a = leading_space_exec(&v);
    if a >= v.len() {
        return None;
    }
    let e = word_end_exec(&v, a);
    Some(substring(s, a, e))
}

/// `s` without the whitespace at its start and end.
pub fn trim_string(s: &str) -> (r: String)
    ensures
        r@ == trim(s@),
{
    let v = chars_of(s);
    let a = leading_space_exec(&v);
    let t = substring(s, a, v.len());
    assert(t@ =~= trim_start(s@));
    let w = chars_of(t.as_str());
    let z = trailing_space_exec(&w);
    substring(t.as_str(), 0, w.len() - z)
}

/// Whether `s` starts with `prefix`.
pub fn starts_with_exec(s: &str, prefix: &str) -> (b: bool)
    ensures
        b == starts_with(s@, prefix@),
{
    let v = chars_of(s);
    let p = chars_of(prefix);
    let b = occurs_at_exec(&v, &p, 0);
    proof {
        if b {
            assert(s@.take(prefix@.len() as int) =~= s@.subrange(0, prefix@.len() as int));
        } else if prefix@.len() <= s@.len() {
            assert(s@.take(prefix@.len() as int) =~= s@.subrange(0, prefix@.len() as int));
        }
    }
    b
}

/// Whether `pat` stands anywhere in `s`.
pub fn contains_exec(s: &str, pat: &str) -> (b: bool)
    ensures
        b == contains_seq(s@, pat@),
{
    let v = chars_of(s);
    let p = chars_of(pat);
    find_from_exec(&v, &p, 0).is_some()
}

/// Whether two strings hold the same characters.
pub fn str_eq(a: &str, b: &str) -> (r: bool)
    ensures
        r == (a@ == b@),
{
    let x = chars_of(a);
    let y = chars_of(b);
    if x.len() != y.len() {
        return false;
    }
    let mut i: usize = 0;
    while i < x.len()
        invariant
            x@ == a@,
            y@ == b@,
            x.len() == y.len(),
            i <= x.len(),
            forall|j: int| 0 <= j < i ==> x@[j] == y@[j],
        decreases x.len() - i,
    {
        if x[i] != y[i] {
            assert(x@[i as int] != y@[i as int]);
            return false;
        }
        i = i + 1;
    }
    assert(x@ =~= y@);
    true
}

/// The characters of `s` from `from` to `to`, as a new string.
pub fn substring(s: &str, from: usize, to: usize) -> (r: String)
    requires
        from <= to <= s@.len(),
    ensures
        r@ == s@.subrange(from as int, to as int),
{
    s.substring_char(from, to).to_string()
}

/// A string that holds the same characters as `s`.
pub fn owned(s: &str) -> (r: String)
    ensures
        r@ == s@,
{
    s.to_string()
}

/// `a` followed by `b`.
pub fn join2(a: &str, b: &str) -> (r: String)
    ensures
        r@ == a@ + b@,
{
    let mut r = a.to_string();
    r.append(b);
    r
}

/// `a`, `b` and `c` one after another.
pub fn join3(a: &str, b: &str, c: &str) -> (r: String)
    ensures
        r@ == a@ + b@ + c@,
{
    let mut r = a.to_string();
    r.append(b);
    r.append(c);
    r
}

} // verus!
