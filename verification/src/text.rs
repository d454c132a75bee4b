//! Character-level text operations with exact specifications.
use vstd::prelude::*;

verus! {

broadcast use vstd::string::group_string_axioms;

/// The characters of `s`, one per element.
pub fn char_vec(s: &str) -> (v: Vec<char>)
    ensures
        v@ == s@,
{
    let mut v: Vec<char> = Vec::new();
    for c in iter: s.chars()
        invariant
            iter.seq() == s@,
            v@ == s@.take(iter.index() as int),
    {
        v.push(c);
    }
    v
}


/// Unicode `White_Space`: the characters that `char::is_whitespace` accepts.
pub open spec fn is_white_space(c: char) -> bool {
    let u = c as u32;
    ||| 0x9 <= u <= 0xd
    ||| u == 0x20
    ||| u == 0x85
    ||| u == 0xa0
    ||| u == 0x1680
    ||| 0x2000 <= u <= 0x200a
    ||| u == 0x2028
    ||| u == 0x2029
    ||| u == 0x202f
    ||| u == 0x205f
    ||| u == 0x3000
}

/// Whether `c` is a Unicode white-space character.
pub fn is_white_space_char(c: char) -> (r: bool)
    ensures
        r == is_white_space(c),
{
    let u = c as u32;
    (0x9 <= u && u <= 0xd) || u == 0x20 || u == 0x85 || u == 0xa0 || u == 0x1680 || (0x2000 <= u
        && u <= 0x200a) || u == 0x2028 || u == 0x2029 || u == 0x202f || u == 0x205f || u == 0x3000
}

/// The pending token `cur`, as a sequence of zero or one tokens.
pub open spec fn flush(cur: Seq<char>) -> Seq<Seq<char>> {
    if cur.len() == 0 {
        seq![]
    } else {
        seq![cur]
    }
}

/// The tokens of `s`, when the characters `cur` were read just before it and
/// belong to the token that `s` may continue.
pub open spec fn tokens_from(s: Seq<char>, cur: Seq<char>) -> Seq<Seq<char>>
    decreases s.len(),
{
    if s.len() == 0 {
        flush(cur)
    } else if is_white_space(s[0]) {
        flush(cur) + tokens_from(s.drop_first(), seq![])
    } else {
        tokens_from(s.drop_first(), cur.push(s[0]))
    }
}

/// The maximal runs of non-white-space characters of `s`, in order.
pub open spec fn tokens(s: Seq<char>) -> Seq<Seq<char>> {
    tokens_from(s, seq![])
}

/// No character of `t` is white space.
pub open spec fn has_no_white_space(t: Seq<char>) -> bool {
    forall|i: int| 0 <= i < t.len() ==> !is_white_space(#[trigger] t[i])
}

/// The views of a sequence of strings.
pub open spec fn string_views(v: Seq<String>) -> Seq<Seq<char>> {
    v.map_values(|t: String| t@)
}

proof fn lemma_tokens_from_shape(s: Seq<char>, cur: Seq<char>)
    requires
        has_no_white_space(cur),
    ensures
        forall|k: int|
            0 <= k < tokens_from(s, cur).len() ==> #[trigger] tokens_from(s, cur)[k].len() > 0
                && has_no_white_space(tokens_from(s, cur)[k]),
    decreases s.len(),
{
    if s.len() == 0 {
        assert(tokens_from(s, cur) == flush(cur));
    } else if is_white_space(s[0]) {
        lemma_tokens_from_shape(s.drop_first(), seq![]);
        let a = flush(cur);
        let b = tokens_from(s.drop_first(), seq![]);
        assert(tokens_from(s, cur) == a + b);
        assert forall|k: int| 0 <= k < (a + b).len() implies #[trigger] (a + b)[k].len() > 0
            && has_no_white_space((a + b)[k]) by {
            if k < a.len() {
                assert((a + b)[k] == cur);
            } else {
                assert((a + b)[k] == b[k - a.len()]);
            }
        }
    } else {
        let next = cur.push(s[0]);
        assert forall|i: int| 0 <= i < next.len() implies !is_white_space(#[trigger] next[i]) by {
            if i < cur.len() {
                assert(next[i] == cur[i]);
            }
        }
        lemma_tokens_from_shape(s.drop_first(), next);
        assert(tokens_from(s, cur) == tokens_from(s.drop_first(), next));
    }
}

/// Every token is non-empty and holds no white space.
pub proof fn lemma_tokens_shape(s: Seq<char>)
    ensures
        forall|k: int|
            0 <= k < tokens(s).len() ==> #[trigger] tokens(s)[k].len() > 0 && has_no_white_space(
                tokens(s)[k],
            ),
{
    lemma_tokens_from_shape(s, seq![]);
}

proof fn lemma_tokens_from_word(w: Seq<char>, cur: Seq<char>)
    requires
        has_no_white_space(w),
    ensures
        tokens_from(w, cur) == flush(cur + w),
    decreases w.len(),
{
    if w.len() == 0 {
        assert(cur + w == cur);
    } else {
        let rest = w.drop_first();
        assert forall|i: int| 0 <= i < rest.len() implies !is_white_space(#[trigger] rest[i]) by {
            assert(rest[i] == w[i + 1]);
        }
        assert(!is_white_space(w[0]));
        lemma_tokens_from_word(rest, cur.push(w[0]));
        assert(cur.push(w[0]) + rest == cur + w);
    }
}

/// A non-empty run of characters none of which is white space is one token.
pub proof fn lemma_word_is_one_token(w: Seq<char>)
    requires
        w.len() > 0,
        has_no_white_space(w),
    ensures
        tokens(w) == seq![w],
{
    lemma_tokens_from_word(w, seq![]);
    assert(Seq::<char>::empty() + w == w);
}

proof fn lemma_tokens_from_split(s: Seq<char>, c: char, t: Seq<char>, cur: Seq<char>)
    requires
        is_white_space(c),
    ensures
        tokens_from(s + seq![c] + t, cur) == tokens_from(s, cur) + tokens(t),
    decreases s.len(),
{
    let whole = s + seq![c] + t;
    if s.len() == 0 {
        assert(whole[0] == c);
        assert(whole.drop_first() == t);
        assert(tokens_from(s, cur) == flush(cur));
    } else {
        let rest = s.drop_first();
        assert(whole[0] == s[0]);
        assert(whole.drop_first() == rest + seq![c] + t);
        if is_white_space(s[0]) {
            lemma_tokens_from_split(rest, c, t, seq![]);
            assert(flush(cur) + (tokens_from(rest, seq![]) + tokens(t)) == (flush(cur)
                + tokens_from(rest, seq![])) + tokens(t));
        } else {
            lemma_tokens_from_split(rest, c, t, cur.push(s[0]));
        }
    }
}

/// White space separates tokens: the tokens of `s`, a white-space character and
/// `t` are the tokens of `s` followed by the tokens of `t`. With
/// [`lemma_word_is_one_token`] and [`lemma_no_tokens_in_empty_text`] this fixes
/// the tokens of every text.
pub proof fn lemma_white_space_separates_tokens(s: Seq<char>, c: char, t: Seq<char>)
    requires
        is_white_space(c),
    ensures
        tokens(s + seq![c] + t) == tokens(s) + tokens(t),
{
    lemma_tokens_from_split(s, c, t, seq![]);
}

/// The empty text has no tokens.
pub proof fn lemma_no_tokens_in_empty_text()
    ensures
        tokens(Seq::<char>::empty()) == Seq::<Seq<char>>::empty(),
{
}

/// Splits `text` into its white-space separated tokens, as `str::split_whitespace` does.
pub fn split_whitespace(text: &str) -> (r: Vec<String>)
    ensures
        string_views(r@) == tokens(text@),
        forall|k: int|
            0 <= k < r@.len() ==> #[trigger] r@[k]@.len() > 0 && has_no_white_space(r@[k]@),
{
    let chars = char_vec(text);
    let n = chars.len();
    let mut out: Vec<String> = Vec::new();
    let mut start: usize = 0;
    let mut i: usize = 0;
    proof {
        assert(chars@.skip(0) == chars@);
        assert(chars@.subrange(0, 0) == Seq::<char>::empty());
        assert(string_views(out@) == Seq::<Seq<char>>::empty());
    }
    while i < n
        invariant
            n == chars@.len(),
            chars@ == text@,
            start <= i <= n,
            string_views(out@) + tokens_from(chars@.skip(i as int), chars@.subrange(
                start as int,
                i as int,
            )) == tokens(text@),
        decreases n - i,
    {
        let ghost rest = chars@.skip(i as int);
        let ghost cur = chars@.subrange(start as int, i as int);
        assert(rest[0] == chars@[i as int]);
        assert(rest.drop_first() == chars@.skip(i + 1));
        if is_white_space_char(chars[i]) {
            if start < i {
                let piece = text.substring_char(start, i);
                let token = String::from_str(piece);
                proof {
                    assert(string_views(out@.push(token)) == string_views(out@).push(token@));
                }
                out.push(token);
            }
            proof {
                assert(chars@.subrange(i + 1, i + 1) == Seq::<char>::empty());
            }
            start = i + 1;
        } else {
            assert(cur.push(chars@[i as int]) == chars@.subrange(start as int, i + 1));
        }
        i = i + 1;
    }
    proof {
        assert(chars@.skip(n as int) == Seq::<char>::empty());
    }
    if start < n {
        let piece = text.substring_char(start, n);
        let token = String::from_str(piece);
        proof {
            assert(string_views(out@.push(token)) == string_views(out@).push(token@));
        }
        out.push(token);
    }
    proof {
        lemma_tokens_shape(text@);
        assert forall|k: int| 0 <= k < out@.len() implies #[trigger] out@[k]@.len() > 0
            && has_no_white_space(out@[k]@) by {
            assert(string_views(out@)[k] == out@[k]@);
            assert(tokens(text@)[k] == out@[k]@);
        }
    }
    out
}


/// `p` occurs in `s` starting at index `i`.
pub open spec fn occurs_at(s: Seq<char>, p: Seq<char>, i: int) -> bool {
    0 <= i && i + p.len() <= s.len() && s.subrange(i, i + p.len()) == p
}

/// `s` begins with `p`.
pub open spec fn starts_with(s: Seq<char>, p: Seq<char>) -> bool {
    occurs_at(s, p, 0)
}

/// `p` occurs somewhere in `s`.
pub open spec fn contains(s: Seq<char>, p: Seq<char>) -> bool {
    exists|i: int| occurs_at(s, p, i)
}

fn occurs_at_index(s: &Vec<char>, p: &Vec<char>, i: usize) -> (r: bool)
    requires
        i + p@.len() <= s@.len(),
    ensures
        r == occurs_at(s@, p@, i as int),
{
    let m = p.len();
    let mut k: usize = 0;
    while k < m
        invariant
            m == p@.len(),
            i + m <= s@.len(),
            s@.len() == s.len(),
            k <= m,
            forall|j: int| 0 <= j < k ==> s@[i + j] == p@[j],
        decreases m - k,
    {
        if s[i + k] != p[k] {
            assert(s@.subrange(i as int, i + m)[k as int] != p@[k as int]);
            return false;
        }
        k = k + 1;
    }
    assert(s@.subrange(i as int, i + m) =~= p@);
    true
}

/// Whether `text` begins with `prefix`, as `str::starts_with` answers.
pub fn text_starts_with(text: &str, prefix: &str) -> (r: bool)
    ensures
        r == starts_with(text@, prefix@),
{
    let s = char_vec(text);
    let p = char_vec(prefix);
    if p.len() > s.len() {
        false
    } else {
        occurs_at_index(&s, &p, 0)
    }
}

/// `s` ends with `p`.
pub open spec fn ends_with(s: Seq<char>, p: Seq<char>) -> bool {
    p.len() <= s.len() && occurs_at(s, p, s.len() - p.len())
}

/// Whether `text` ends with `suffix`, as `str::ends_with` answers.
pub fn text_ends_with(text: &str, suffix: &str) -> (r: bool)
    ensures
        r == ends_with(text@, suffix@),
{
    let s = char_vec(text);
    let p = char_vec(suffix);
    if p.len() > s.len() {
        false
    } else {
        occurs_at_index(&s, &p, s.len() - p.len())
    }
}

/// Whether `pattern` occurs in `text`, as `str::contains` answers.
pub fn text_contains(text: &str, pattern: &str) -> (r: bool)
    ensures
        r == contains(text@, pattern@),
{
    let s = char_vec(text);
    let p = char_vec(pattern);
    if p.len() > s.len() {
        return false;
    }
    let last = s.len() - p.len();
    let mut i: usize = 0;
    loop
        invariant
            s@ == text@,
            p@ == pattern@,
            last + p@.len() == s@.len(),
            i <= last,
            forall|j: int| 0 <= j < i ==> !occurs_at(s@, p@, j),
        decreases last - i,
    {
        if occurs_at_index(&s, &p, i) {
            return true;
        }
        if i == last {
            assert forall|j: int| !occurs_at(s@, p@, j) by {
                if 0 <= j < i {
                }
            }
            return false;
        }
        i = i + 1;
    }
}

/// Whether the two texts are equal.
pub fn text_equals(a: &str, b: &str) -> (r: bool)
    ensures
        r == (a@ == b@),
{
    let x = char_vec(a);
    let y = char_vec(b);
    if x.len() != y.len() {
        return false;
    }
    let r = occurs_at_index(&x, &y, 0);
    proof {
        assert(x@.subrange(0, x@.len() as int) =~= x@);
    }
    r
}

/// The character of the decimal digit `d`.
pub open spec fn digit_char(d: nat) -> char {
    if d == 0 {
        '0'
    } else if d == 1 {
        '1'
    } else if d == 2 {
        '2'
    } else if d == 3 {
        '3'
    } else if d == 4 {
        '4'
    } else if d == 5 {
        '5'
    } else if d == 6 {
        '6'
    } else if d == 7 {
        '7'
    } else if d == 8 {
        '8'
    } else {
        '9'
    }
}

/// The decimal numeral of `n`, without leading zeros.
pub open spec fn decimal(n: nat) -> Seq<char>
    decreases n,
{
    if n < 10 {
        seq![digit_char(n)]
    } else {
        decimal(n / 10) + seq![digit_char(n % 10)]
    }
}

fn digit_text(d: usize) -> (r: &'static str)
    requires
        d < 10,
    ensures
        r@ == seq![digit_char(d as nat)],
{
    if d == 0 {
        proof { reveal_strlit("0"); }
        "0"
    } else if d == 1 {
        proof { reveal_strlit("1"); }
        "1"
    } else if d == 2 {
        proof { reveal_strlit("2"); }
        "2"
    } else if d == 3 {
        proof { reveal_strlit("3"); }
        "3"
    } else if d == 4 {
        proof { reveal_strlit("4"); }
        "4"
    } else if d == 5 {
        proof { reveal_strlit("5"); }
        "5"
    } else if d == 6 {
        proof { reveal_strlit("6"); }
        "6"
    } else if d == 7 {
        proof { reveal_strlit("7"); }
        "7"
    } else if d == 8 {
        proof { reveal_strlit("8"); }
        "8"
    } else {
        proof { reveal_strlit("9"); }
        "9"
    }
}

/// The decimal numeral of `n`, as `usize::to_string` writes it.
pub fn decimal_text(n: usize) -> (r: String)
    ensures
        r@ == decimal(n as nat),
    decreases n,
{
    if n < 10 {
        String::from_str(digit_text(n))
    } else {
        let mut r = decimal_text(n / 10);
        r.append(digit_text(n % 10));
        r
    }
}


/// The value of a decimal digit character.
pub open spec fn digit_value(c: char) -> nat {
    ((c as u32) - ('0' as u32)) as nat
}

/// The number that the decimal numeral `s` denotes.
pub open spec fn numeral_value(s: Seq<char>) -> nat
    decreases s.len(),
{
    if s.len() == 0 {
        0
    } else {
        numeral_value(s.drop_last()) * 10 + digit_value(s.last())
    }
}

/// Writing a number in decimal loses nothing: the numeral is non-empty, made
/// of digits, begins with `0` only for zero itself, and denotes the number.
pub proof fn lemma_decimal_round_trip(n: nat)
    ensures
        decimal(n).len() > 0,
        forall|i: int| 0 <= i < decimal(n).len() ==> '0' <= #[trigger] decimal(n)[i] <= '9',
        decimal(n)[0] == '0' ==> n == 0,
        numeral_value(decimal(n)) == n,
    decreases n,
{
    if n >= 10 {
        lemma_decimal_round_trip(n / 10);
        let front = decimal(n / 10);
        let d = digit_char(n % 10);
        assert(decimal(n) == front + seq![d]);
        assert((front + seq![d]).drop_last() == front);
        assert((front + seq![d])[0] == front[0]);
        assert forall|i: int| 0 <= i < decimal(n).len() implies '0' <= #[trigger] decimal(n)[i]
            <= '9' by {
            if i < front.len() {
                assert(decimal(n)[i] == front[i]);
            }
        }
        assert(digit_value(d) == n % 10);
        assert((front + seq![d]).last() == d);
        assert(numeral_value(decimal(n)) == numeral_value(front) * 10 + digit_value(d));
        assert(n == (n / 10) * 10 + n % 10) by (nonlinear_arith);
    } else {
        assert(decimal(n).drop_last() == Seq::<char>::empty());
        assert(digit_value(digit_char(n)) == n);
        assert(decimal(n).last() == digit_char(n));
        assert(numeral_value(Seq::<char>::empty()) == 0);
        assert(numeral_value(decimal(n)) == numeral_value(Seq::<char>::empty()) * 10 + digit_value(
            digit_char(n),
        ));
    }
}

} // verus!
