//! Small verified helpers on strings, stated over their views as sequences of characters.

use vstd::prelude::*;
use vstd::string::*;

verus! {

/// Whether a character has the Unicode property `White_Space`, as
/// `char::is_whitespace` tells.
pub uninterp spec fn is_white_space(c: char) -> bool;

/// Whether a character is alphabetic or numeric in Unicode's terms, as
/// `char::is_alphanumeric` tells.
pub uninterp spec fn is_alphanumeric(c: char) -> bool;

/// Calls `char::is_whitespace`, which tells whether the character has the
/// property `White_Space`. The result depends on the character alone.
#[verifier::external_body]
pub(crate) fn char_is_whitespace(c: char) -> (r: bool)
    ensures
        r == is_white_space(c),
{
    c.is_whitespace()
}

/// Calls `char::is_alphanumeric`, which tells whether the character is
/// alphabetic or numeric. The result depends on the character alone.
#[verifier::external_body]
pub(crate) fn char_is_alphanumeric(c: char) -> (r: bool)
    ensures
        r == is_alphanumeric(c),
{
    c.is_alphanumeric()
}

/// The character of a decimal digit.
pub open spec fn digit_char(digit: int) -> char {
    if digit == 0 {
        '0'
    } else if digit == 1 {
        '1'
    } else if digit == 2 {
        '2'
    } else if digit == 3 {
        '3'
    } else if digit == 4 {
        '4'
    } else if digit == 5 {
        '5'
    } else if digit == 6 {
        '6'
    } else if digit == 7 {
        '7'
    } else if digit == 8 {
        '8'
    } else {
        '9'
    }
}

/// The decimal digits of a number that is not negative, without leading
/// zeros.
pub open spec fn decimal_digits(n: int) -> Seq<char>
    decreases n,
{
    if n < 10 {
        seq![digit_char(n)]
    } else {
        decimal_digits(n / 10).push(digit_char(n % 10))
    }
}

/// A number in decimal notation: its digits, after a minus sign where it is
/// negative.
pub open spec fn decimal_text(n: int) -> Seq<char> {
    if n < 0 {
        seq!['-'] + decimal_digits(-n)
    } else {
        decimal_digits(n)
    }
}

/// The text of a decimal digit.
pub fn digit_text(digit: u8) -> (text: &'static str)
    requires
        digit < 10,
    ensures
        text@ == seq![digit_char(digit as int)],
{
    proof {
        reveal_strlit("0");
        reveal_strlit("1");
        reveal_strlit("2");
        reveal_strlit("3");
        reveal_strlit("4");
        reveal_strlit("5");
        reveal_strlit("6");
        reveal_strlit("7");
        reveal_strlit("8");
        reveal_strlit("9");
    }
    if digit == 0 {
        "0"
    } else if digit == 1 {
        "1"
    } else if digit == 2 {
        "2"
    } else if digit == 3 {
        "3"
    } else if digit == 4 {
        "4"
    } else if digit == 5 {
        "5"
    } else if digit == 6 {
        "6"
    } else if digit == 7 {
        "7"
    } else if digit == 8 {
        "8"
    } else {
        "9"
    }
}

/// The decimal digits of a number, without leading zeros.
pub fn digits(n: u64) -> (text: String)
    ensures
        text@ == decimal_digits(n as int),
    decreases n,
{
    if n < 10 {
        String::from_str(digit_text(n as u8))
    } else {
        let head = digits(n / 10);
        let last = digit_text((n % 10) as u8);
        head.concat(last)
    }
}

/// A number in decimal notation.
pub fn decimal(n: i64) -> (text: String)
    ensures
        text@ == decimal_text(n as int),
{
    if n < 0 {
        let magnitude: u64 = (0 - (n as i128)) as u64;
        let digits = digits(magnitude);
        proof {
            reveal_strlit("-");
        }
        String::from_str("-").concat(digits.as_str())
    } else {
        digits(n as u64)
    }
}

/// The sequence `s` without the white space that it begins with.
pub open spec fn strip_leading_space(s: Seq<char>) -> Seq<char>
    decreases s.len(),
{
    if s.len() > 0 && is_white_space(s[0]) {
        strip_leading_space(s.drop_first())
    } else {
        s
    }
}

/// The sequence `s` without the white space that it ends with.
pub open spec fn strip_trailing_space(s: Seq<char>) -> Seq<char>
    decreases s.len(),
{
    if s.len() > 0 && is_white_space(s.last()) {
        strip_trailing_space(s.drop_last())
    } else {
        s
    }
}

/// The sequence `s` without the white space around it.
pub open spec fn trimmed(s: Seq<char>) -> Seq<char> {
    strip_trailing_space(strip_leading_space(s))
}

/// The sequence `s` without its leading run of `c`.
pub open spec fn strip_leading(s: Seq<char>, c: char) -> Seq<char>
    decreases s.len(),
{
    if s.len() > 0 && s[0] == c {
        strip_leading(s.drop_first(), c)
    } else {
        s
    }
}

/// The length of the longest prefix of `s` that holds no `sep`.
pub open spec fn run_len(s: Seq<char>, sep: char) -> nat
    decreases s.len(),
{
    if s.len() > 0 && s[0] != sep {
        1 + run_len(s.drop_first(), sep)
    } else {
        0
    }
}

/// The maximal runs of characters other than `sep` in `s`, in order. These are
/// the pieces between separators, the empty pieces left out.
pub open spec fn segments(s: Seq<char>, sep: char) -> Seq<Seq<char>>
    decreases s.len(),
{
    if s.len() == 0 {
        Seq::empty()
    } else if s[0] == sep {
        segments(s.drop_first(), sep)
    } else {
        let n = run_len(s, sep) as int;
        if 0 < n <= s.len() {
            seq![s.take(n)] + segments(s.skip(n), sep)
        } else {
            Seq::empty()
        }
    }
}

/// How often `c` occurs in `s`.
pub open spec fn count_of(s: Seq<char>, c: char) -> nat
    decreases s.len(),
{
    if s.len() == 0 {
        0
    } else {
        count_of(s.drop_last(), c) + if s.last() == c { 1nat } else { 0nat }
    }
}

/// `needle` occurs in `hay` as a contiguous block.
pub open spec fn occurs_in(hay: Seq<char>, needle: Seq<char>) -> bool {
    exists|i: int|
        0 <= i && i + needle.len() <= hay.len() && #[trigger] hay.subrange(i, i + needle.len())
            == needle
}

/// The views of a vector of strings.
pub open spec fn views(v: Seq<String>) -> Seq<Seq<char>> {
    v.map_values(|s: String| s@)
}

/// A prefix of `k` characters other than `sep`, followed by the end or by
/// `sep`, is the leading run.
pub proof fn lemma_run_len_is(s: Seq<char>, sep: char, k: int)
    requires
        0 <= k <= s.len(),
        forall|i: int| 0 <= i < k ==> s[i] != sep,
        k < s.len() ==> s[k] == sep,
    ensures
        run_len(s, sep) == k,
    decreases k,
{
    if k > 0 {
        let t = s.drop_first();
        lemma_run_len_is(t, sep, k - 1);
    }
}

/// The characters of `s`, one by one.
pub fn copy_chars(s: &str) -> (v: Vec<char>)
    ensures
        v@ == s@,
{
    broadcast use vstd::string::group_string_axioms;

    let mut v: Vec<char> = Vec::new();
    for c in it: s.chars()
        invariant
            it.seq() == s@,
            v@ == s@.take(it.index()),
    {
        v.push(c);
    }
    v
}

/// Whether two string slices hold the same characters.
pub fn str_eq(a: &str, b: &str) -> (r: bool)
    ensures
        r == (a@ == b@),
{
    let x = String::from_str(a);
    let y = String::from_str(b);
    x == y
}

/// `a` followed by `b`.
pub fn join2(a: &str, b: &str) -> (r: String)
    ensures
        r@ == a@ + b@,
{
    let r = String::from_str(a);
    r.concat(b)
}

/// `a`, `b` and `c` in a row.
pub fn join3(a: &str, b: &str, c: &str) -> (r: String)
    ensures
        r@ == a@ + b@ + c@,
{
    let r = String::from_str(a);
    let r = r.concat(b);
    r.concat(c)
}

/// `s` without the run of `c` that it starts with.
pub fn trim_leading<'a>(s: &'a str, c: char) -> (r: &'a str)
    ensures
        r@ == strip_leading(s@, c),
{
    let v = copy_chars(s);
    let n = v.len();
    let mut i: usize = 0;
    assert(s@.skip(0) =~= s@);
    while i < n && v[i] == c
        invariant
            n == v.len(),
            v@ == s@,
            i <= n,
            strip_leading(s@, c) == strip_leading(s@.skip(i as int), c),
        decreases n - i,
    {
        proof {
            let t = s@.skip(i as int);
            assert(t.drop_first() =~= s@.skip(i + 1));
        }
        i = i + 1;
    }
    s.substring_char(i, n)
}

/// `s` without the white space around it.
pub fn trim<'a>(s: &'a str) -> (r: &'a str)
    ensures
        r@ == trimmed(s@),
{
    let v = copy_chars(s);
    let n = v.len();
    let mut i: usize = 0;
    assert(s@.skip(0) =~= s@);
    while i < n && char_is_whitespace(v[i])
        invariant
            n == v.len(),
            v@ == s@,
            i <= n,
            strip_leading_space(s@) == strip_leading_space(s@.skip(i as int)),
        decreases n - i,
    {
        proof {
            let t = s@.skip(i as int);
            assert(t.drop_first() =~= s@.skip(i + 1));
        }
        i = i + 1;
    }
    let mut j: usize = n;
    while j > i && char_is_whitespace(v[j - 1])
        invariant
            n == v.len(),
            v@ == s@,
            i <= j <= n,
            trimmed(s@) == strip_trailing_space(s@.subrange(i as int, j as int)),
        decreases j,
    {
        proof {
            let t = s@.subrange(i as int, j as int);
            assert(t.drop_last() =~= s@.subrange(i as int, j - 1));
        }
        j = j - 1;
    }
    s.substring_char(i, j)
}

/// Whether every character of `s` is alphabetic or numeric, or one of
/// `others`.
pub open spec fn all_alphanumeric_or(s: Seq<char>, others: Seq<char>) -> bool {
    forall|i: int| 0 <= i < s.len() ==> is_alphanumeric(#[trigger] s[i]) || others.contains(s[i])
}

/// Whether every character of `s` is alphabetic or numeric, or one of
/// `others`.
pub fn only_alphanumeric_or(s: &str, others: &str) -> (r: bool)
    ensures
        r == all_alphanumeric_or(s@, others@),
{
    let v = copy_chars(s);
    let extra = copy_chars(others);
    let mut i: usize = 0;
    while i < v.len()
        invariant
            v@ == s@,
            extra@ == others@,
            i <= v.len(),
            forall|k: int|
                0 <= k < i ==> is_alphanumeric(#[trigger] s@[k]) || others@.contains(s@[k]),
        decreases v.len() - i,
    {
        let c = v[i];
        if !char_is_alphanumeric(c) {
            let mut found = false;
            let mut j: usize = 0;
            while j < extra.len()
                invariant
                    extra@ == others@,
                    j <= extra.len(),
                    found <==> exists|k: int| 0 <= k < j && others@[k] == c,
                decreases extra.len() - j,
            {
                if extra[j] == c {
                    found = true;
                }
                j = j + 1;
            }
            if !found {
                return false;
            }
        }
        i = i + 1;
    }
    true
}

/// The pieces of `s` between occurrences of `sep`, the empty ones left out.
pub fn split_nonempty(s: &str, sep: char) -> (parts: Vec<String>)
    ensures
        views(parts@) == segments(s@, sep),
{
    let v = copy_chars(s);
    let n = v.len();
    let mut parts: Vec<String> = Vec::new();
    let mut i: usize = 0;
    assert(s@.skip(0) =~= s@);
    while i < n
        invariant
            n == v.len(),
            v@ == s@,
            i <= n,
            segments(s@, sep) == views(parts@) + segments(s@.skip(i as int), sep),
        decreases n - i,
    {
        let ghost rest = s@.skip(i as int);
        if v[i] == sep {
            proof {
                assert(rest.drop_first() =~= s@.skip(i + 1));
            }
            i = i + 1;
        } else {
            let start = i;
            let mut j: usize = i;
            while j < n && v[j] != sep
                invariant
                    n == v.len(),
                    v@ == s@,
                    start <= j <= n,
                    forall|k: int| start <= k < j ==> s@[k] != sep,
                decreases n - j,
            {
                j = j + 1;
            }
            let piece = s.substring_char(start, j);
            let owned = String::from_str(piece);
            proof {
                let k = j - start;
                lemma_run_len_is(rest, sep, k);
                assert(rest.take(k) =~= s@.subrange(start as int, j as int));
                assert(rest.skip(k) =~= s@.skip(j as int));
            }
            parts.push(owned);
            i = j;
        }
    }
    parts
}

/// How often `c` occurs in `s`.
pub fn count_char(s: &str, c: char) -> (n: usize)
    ensures
        n == count_of(s@, c),
{
    let v = copy_chars(s);
    let len = v.len();
    let mut n: usize = 0;
    let mut i: usize = 0;
    while i < len
        invariant
            len == v.len(),
            v@ == s@,
            i <= len,
            n == count_of(s@.take(i as int), c),
            n <= i,
        decreases len - i,
    {
        proof {
            let t = s@.take(i + 1);
            assert(t.drop_last() =~= s@.take(i as int));
        }
        if v[i] == c {
            n = n + 1;
        }
        i = i + 1;
    }
    assert(s@.take(len as int) =~= s@);
    n
}

/// Whether `needle` occurs in `hay`.
pub fn contains_str(hay: &str, needle: &str) -> (r: bool)
    ensures
        r == occurs_in(hay@, needle@),
{
    let h = copy_chars(hay);
    let p = copy_chars(needle);
    let hn = h.len();
    let pn = p.len();
    if pn > hn {
        return false;
    }
    let last = hn - pn;
    let mut i: usize = 0;
    while i <= last
        invariant
            hn == h.len(),
            pn == p.len(),
            h@ == hay@,
            p@ == needle@,
            pn <= hn,
            last == hn - pn,
            i <= last + 1,
            forall|k: int| 0 <= k < i ==> #[trigger] hay@.subrange(k, k + pn) != needle@,
        decreases last + 1 - i,
    {
        let mut j: usize = 0;
        while j < pn && h[i + j] == p[j]
            invariant
                hn == h.len(),
                pn == p.len(),
                h@ == hay@,
                p@ == needle@,
                i + pn <= hn,
                j <= pn,
                forall|k: int| 0 <= k < j ==> hay@[i + k] == needle@[k],
            decreases pn - j,
        {
            j = j + 1;
        }
        if j == pn {
            assert(hay@.subrange(i as int, i + pn) =~= needle@);
            return true;
        }
        i = i + 1;
    }
    false
}

/// A copy of `v`.
pub fn clone_strings(v: &Vec<String>) -> (r: Vec<String>)
    ensures
        r@ == v@,
{
    let mut r: Vec<String> = Vec::new();
    let mut i: usize = 0;
    while i < v.len()
        invariant
            i <= v.len(),
            r@ == v@.take(i as int),
        decreases v.len() - i,
    {
        r.push(v[i].clone());
        i = i + 1;
    }
    r
}

/// Whether some string in `v` holds the characters of `s`.
pub fn holds_string(v: &Vec<String>, s: &str) -> (r: bool)
    ensures
        r == views(v@).contains(s@),
{
    let mut i: usize = 0;
    while i < v.len()
        invariant
            i <= v.len(),
            forall|k: int| 0 <= k < i ==> views(v@)[k] != s@,
        decreases v.len() - i,
    {
        if str_eq(v[i].as_str(), s) {
            assert(views(v@)[i as int] == s@);
            return true;
        }
        i = i + 1;
    }
    false
}

/// Whether every string of `a` is among those of `b`.
pub fn subset_of(a: &Vec<String>, b: &Vec<String>) -> (r: bool)
    ensures
        r == views(a@).to_set().subset_of(views(b@).to_set()),
{
    let mut i: usize = 0;
    while i < a.len()
        invariant
            i <= a.len(),
            forall|k: int| 0 <= k < i ==> views(b@).contains(#[trigger] views(a@)[k]),
        decreases a.len() - i,
    {
        if !holds_string(b, a[i].as_str()) {
            proof {
                let x = views(a@)[i as int];
                assert(views(a@).to_set().contains(x));
            }
            return false;
        }
        i = i + 1;
    }
    true
}

/// Whether `a` comes before `b` in the order of a dictionary: at the first
/// place where they differ `a` has the lesser character, or `a` ends there and
/// `b` goes on.
pub open spec fn comes_before(a: Seq<char>, b: Seq<char>) -> bool
    decreases a.len(),
{
    if b.len() == 0 {
        false
    } else if a.len() == 0 {
        true
    } else if a[0] != b[0] {
        (a[0] as int) < (b[0] as int)
    } else {
        comes_before(a.drop_first(), b.drop_first())
    }
}

/// Each text of the sequence comes before every later one.
pub open spec fn ascending(texts: Seq<Seq<char>>) -> bool {
    forall|i: int, j: int| 0 <= i < j < texts.len() ==> comes_before(texts[i], texts[j])
}

/// No text comes before itself.
pub proof fn lemma_before_is_strict(a: Seq<char>)
    ensures
        !comes_before(a, a),
    decreases a.len(),
{
    if a.len() > 0 {
        lemma_before_is_strict(a.drop_first());
    }
}

/// Of two texts that differ, one comes before the other, and not both ways.
pub proof fn lemma_before_is_total(a: Seq<char>, b: Seq<char>)
    ensures
        a == b || comes_before(a, b) || comes_before(b, a),
        !(comes_before(a, b) && comes_before(b, a)),
    decreases a.len(),
{
    if a.len() > 0 && b.len() > 0 && a[0] == b[0] {
        lemma_before_is_total(a.drop_first(), b.drop_first());
        if a.drop_first() == b.drop_first() {
            assert(a =~= seq![a[0]] + a.drop_first());
        }
    }
}

/// What comes before a text comes before all that the text comes before.
pub proof fn lemma_before_is_transitive(a: Seq<char>, b: Seq<char>, c: Seq<char>)
    requires
        comes_before(a, b),
        comes_before(b, c),
    ensures
        comes_before(a, c),
    decreases a.len(),
{
    if a.len() > 0 && b.len() > 0 && c.len() > 0 {
        if a[0] == b[0] && b[0] == c[0] {
            lemma_before_is_transitive(a.drop_first(), b.drop_first(), c.drop_first());
        }
    }
}

/// Ascending texts hold no text twice.
pub proof fn lemma_ascending_is_distinct(texts: Seq<Seq<char>>)
    requires
        ascending(texts),
    ensures
        texts.no_duplicates(),
{
    assert forall|i: int, j: int|
        0 <= i < texts.len() && 0 <= j < texts.len() && i != j implies texts[i] != texts[j] by {
        lemma_before_is_strict(texts[i]);
    }
}

/// Two ascending sequences of the same texts are the same sequence.
pub proof fn lemma_ascending_is_canonical(a: Seq<Seq<char>>, b: Seq<Seq<char>>)
    requires
        ascending(a),
        ascending(b),
        a.to_set() == b.to_set(),
    ensures
        a == b,
    decreases a.len(),
{
    lemma_ascending_is_distinct(a);
    lemma_ascending_is_distinct(b);
    a.unique_seq_to_set();
    b.unique_seq_to_set();
    if a.len() > 0 {
        // the first of each is the least of the set
        assert(a.to_set().contains(a[0]));
        assert(b.to_set().contains(b[0]));
        lemma_before_is_total(a[0], b[0]);
        let x = a.drop_first();
        let y = b.drop_first();
        assert(ascending(x));
        assert(ascending(y));
        assert(x.to_set() =~= y.to_set()) by {
            assert forall|t: Seq<char>| x.to_set().contains(t) <==> y.to_set().contains(t) by {
                if x.contains(t) {
                    assert(a.to_set().contains(t));
                    let m = choose|m: int| 0 <= m < b.len() && b[m] == t;
                    assert(y[m - 1] == t);
                }
                if y.contains(t) {
                    assert(b.to_set().contains(t));
                    let m = choose|m: int| 0 <= m < a.len() && a[m] == t;
                    assert(x[m - 1] == t);
                }
            }
        }
        lemma_ascending_is_canonical(x, y);
        assert(a =~= seq![a[0]] + x);
    }
}

/// Whether `a` comes before `b` in the order of a dictionary.
pub fn str_before(a: &str, b: &str) -> (r: bool)
    ensures
        r == comes_before(a@, b@),
{
    let x = copy_chars(a);
    let y = copy_chars(b);
    let mut i: usize = 0;
    assert(a@.skip(0) =~= a@);
    assert(b@.skip(0) =~= b@);
    while i < x.len() && i < y.len() && x[i] == y[i]
        invariant
            x@ == a@,
            y@ == b@,
            i <= x.len(),
            i <= y.len(),
            comes_before(a@, b@) == comes_before(a@.skip(i as int), b@.skip(i as int)),
        decreases x.len() - i,
    {
        proof {
            let s = a@.skip(i as int);
            let t = b@.skip(i as int);
            assert(s.drop_first() =~= a@.skip(i + 1));
            assert(t.drop_first() =~= b@.skip(i + 1));
        }
        i = i + 1;
    }
    if i >= y.len() {
        false
    } else if i >= x.len() {
        true
    } else {
        x[i] < y[i]
    }
}

/// The strings of `v`, each once, in the order of a dictionary.
pub fn ascending_strings(v: Vec<String>) -> (r: Vec<String>)
    ensures
        ascending(views(r@)),
        views(r@).to_set() == views(v@).to_set(),
{
    let mut r: Vec<String> = Vec::new();
    let mut i: usize = 0;
    while i < v.len()
        invariant
            i <= v.len(),
            ascending(views(r@)),
            views(r@).to_set() == views(v@).take(i as int).to_set(),
        decreases v.len() - i,
    {
        let ghost before = views(r@);
        let ghost seen = views(v@).take(i as int);
        let ghost cur = v[i as int]@;
        proof {
            assert(views(v@).take(i + 1) =~= seen.push(cur));
            seen.lemma_push_to_set_commute(cur);
        }
        // the place of the first string that does not come before this one
        let mut at: usize = 0;
        while at < r.len() && str_before(r[at].as_str(), v[i].as_str())
            invariant
                at <= r.len(),
                i < v.len(),
                cur == v[i as int]@,
                before == views(r@),
                forall|k: int| 0 <= k < at ==> comes_before(#[trigger] before[k], cur),
            decreases r.len() - at,
        {
            at = at + 1;
        }
        let present = at < r.len() && str_eq(r[at].as_str(), v[i].as_str());
        if present {
            proof {
                assert(before[at as int] == cur);
            }
        } else {
            r.insert(at, v[i].clone());
            proof {
                let after = views(r@);
                assert(after =~= before.insert(at as int, cur));
                if at < before.len() {
                    lemma_before_is_total(before[at as int], cur);
                }
                assert forall|a: int, b: int| 0 <= a < b < after.len() implies comes_before(
                    after[a],
                    after[b],
                ) by {
                    if a == at && b - 1 > at {
                        lemma_before_is_transitive(cur, before[at as int], before[b - 1]);
                    }
                }
                assert(after.to_set() =~= before.to_set().insert(cur)) by {
                    assert forall|t: Seq<char>| after.to_set().contains(t) <==> before.to_set().insert(
                        cur,
                    ).contains(t) by {
                        if before.contains(t) {
                            let k = choose|k: int| 0 <= k < before.len() && before[k] == t;
                            if k < at {
                                assert(after[k] == t);
                            } else {
                                assert(after[k + 1] == t);
                            }
                        }
                        if t == cur {
                            assert(after[at as int] == t);
                        }
                    }
                }
            }
        }
        i = i + 1;
    }
    assert(views(v@).take(v.len() as int) =~= views(v@));
    r
}

} // verus!
