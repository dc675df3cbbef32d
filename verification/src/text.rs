//! Text search, replacement, trimming and decimal numbers over `Seq<char>`.
use vstd::prelude::*;

verus! {

/// `pat` stands in `hay` at index `at`.
pub open spec fn occurs_at(hay: Seq<char>, pat: Seq<char>, at: int) -> bool {
    &&& 0 <= at
    &&& at + pat.len() <= hay.len()
    &&& hay.subrange(at, at + pat.len()) == pat
}

/// `pat` stands somewhere in `hay`.
pub open spec fn contains(hay: Seq<char>, pat: Seq<char>) -> bool {
    exists|at: int| occurs_at(hay, pat, at)
}

/// The first index at or after `from` at which `pat` stands in `hay`.
pub open spec fn first_match(hay: Seq<char>, pat: Seq<char>, from: int) -> Option<int>
    decreases hay.len() - from + 1,
{
    if from < 0 || from + pat.len() > hay.len() {
        None
    } else if occurs_at(hay, pat, from) {
        Some(from)
    } else {
        first_match(hay, pat, from + 1)
    }
}

/// `first_match` finds the least index at which `pat` stands, and finds one
/// whenever there is one.
pub proof fn lemma_first_match(hay: Seq<char>, pat: Seq<char>, from: int)
    requires
        0 <= from,
    ensures
        match first_match(hay, pat, from) {
            Some(at) => from <= at && occurs_at(hay, pat, at) && forall|k: int|
                from <= k < at ==> !occurs_at(hay, pat, k),
            None => forall|k: int| from <= k ==> !occurs_at(hay, pat, k),
        },
    decreases hay.len() - from + 1,
{
    if from + pat.len() > hay.len() {
    } else if occurs_at(hay, pat, from) {
    } else {
        lemma_first_match(hay, pat, from + 1);
    }
}

/// The characters of a string slice, one by one.
pub fn chars_of(s: &str) -> (v: Vec<char>)
    ensures
        v@ == s@,
{
    let mut v: Vec<char> = Vec::new();
    for c in it: s.chars()
        invariant
            it.seq() == s@,
            v@ == s@.take(it.index() as int),
    {
        v.push(c);
    }
    v
}

/// Whether two string slices hold the same characters.
pub fn same_text(a: &str, b: &str) -> (r: bool)
    ensures
        r == (a@ == b@),
{
    let x = a.to_owned();
    let y = b.to_owned();
    x == y
}

/// Whether `pat` stands in `hay` at index `at`.
pub fn matches_at(hay: &Vec<char>, pat: &Vec<char>, at: usize) -> (r: bool)
    ensures
        r == occurs_at(hay@, pat@, at as int),
{
    if pat.len() > hay.len() || at > hay.len() - pat.len() {
        return false;
    }
    let mut k: usize = 0;
    while k < pat.len()
        invariant
            k <= pat.len(),
            at + pat.len() <= hay.len(),
            forall|j: int| 0 <= j < k ==> hay@[at + j] == pat@[j],
        decreases pat.len() - k,
    {
        if hay[at + k] != pat[k] {
            assert(hay@.subrange(at as int, at + pat.len())[k as int] != pat@[k as int]);
            return false;
        }
        k += 1;
    }
    assert(hay@.subrange(at as int, at + pat.len()) =~= pat@);
    true
}

/// The first index at or after `from` at which `pat` stands in `hay`.
pub fn find(hay: &Vec<char>, pat: &Vec<char>, from: usize) -> (r: Option<usize>)
    ensures
        match r {
            Some(at) => first_match(hay@, pat@, from as int) == Some(at as int),
            None => first_match(hay@, pat@, from as int) is None,
        },
{
    if pat.len() > hay.len() || from > hay.len() - pat.len() {
        return None;
    }
    let last: usize = hay.len() - pat.len();
    let mut at: usize = from;
    loop
        invariant
            from <= at <= last,
            last == hay.len() - pat.len(),
            first_match(hay@, pat@, from as int) == first_match(hay@, pat@, at as int),
        decreases last - at,
    {
        if matches_at(hay, pat, at) {
            return Some(at);
        }
        if at == last {
            assert(first_match(hay@, pat@, at + 1) is None);
            return None;
        }
        at += 1;
    }
}

/// Whether `pat` stands somewhere in `hay`.
pub fn has(hay: &str, pat: &str) -> (r: bool)
    ensures
        r == contains(hay@, pat@),
{
    let h = chars_of(hay);
    let p = chars_of(pat);
    let found = find(&h, &p, 0);
    proof {
        lemma_first_match(hay@, pat@, 0);
    }
    found.is_some()
}

/// `hay` from index `at` on, with every match of `from` replaced by `to`:
/// matches are taken from the left and do not overlap. An empty pattern
/// matches nothing.
pub open spec fn replaced_from(hay: Seq<char>, from: Seq<char>, to: Seq<char>, at: int) -> Seq<
    char,
>
    recommends
        0 <= at,
    decreases hay.len() - at + 1,
{
    if at < 0 || from.len() == 0 || at + from.len() > hay.len() {
        hay.skip(at)
    } else if occurs_at(hay, from, at) {
        to + replaced_from(hay, from, to, at + from.len())
    } else {
        seq![hay[at]] + replaced_from(hay, from, to, at + 1)
    }
}

/// `hay` with every match of `from` replaced by `to`.
pub open spec fn replace_all(hay: Seq<char>, from: Seq<char>, to: Seq<char>) -> Seq<char> {
    replaced_from(hay, from, to, 0)
}

/// Where `from` stands nowhere at or after `at`, nothing is replaced.
pub proof fn lemma_replace_without_match(
    hay: Seq<char>,
    from: Seq<char>,
    to: Seq<char>,
    at: int,
)
    requires
        0 <= at,
        forall|k: int| at <= k ==> !occurs_at(hay, from, k),
    ensures
        replaced_from(hay, from, to, at) == hay.skip(at),
    decreases hay.len() - at + 1,
{
    if from.len() == 0 || at + from.len() > hay.len() {
    } else {
        lemma_replace_without_match(hay, from, to, at + 1);
        assert(seq![hay[at]] + hay.skip(at + 1) =~= hay.skip(at));
    }
}

/// A replacement that is no longer than the pattern never lengthens the text.
pub proof fn lemma_replace_no_longer(hay: Seq<char>, from: Seq<char>, to: Seq<char>, at: int)
    requires
        0 <= at <= hay.len(),
        to.len() <= from.len(),
    ensures
        replaced_from(hay, from, to, at).len() <= hay.len() - at,
    decreases hay.len() - at + 1,
{
    if from.len() == 0 || at + from.len() > hay.len() {
    } else if occurs_at(hay, from, at) {
        lemma_replace_no_longer(hay, from, to, at + from.len());
    } else {
        lemma_replace_no_longer(hay, from, to, at + 1);
    }
}

/// A replacement that is shorter than the pattern shortens every text in
/// which the pattern stands.
pub proof fn lemma_replace_shortens(
    hay: Seq<char>,
    from: Seq<char>,
    to: Seq<char>,
    at: int,
    k: int,
)
    requires
        0 <= at <= k,
        occurs_at(hay, from, k),
        0 < from.len(),
        to.len() < from.len(),
    ensures
        replaced_from(hay, from, to, at).len() < hay.len() - at,
    decreases hay.len() - at + 1,
{
    if occurs_at(hay, from, at) {
        lemma_replace_no_longer(hay, from, to, at + from.len());
    } else {
        lemma_replace_shortens(hay, from, to, at + 1, k);
    }
}

/// `hay` with every match of `from` replaced by `to`, as `str::replace`
/// gives it for a pattern that is not empty. An empty pattern replaces
/// nothing.
pub fn replace(hay: &str, from: &str, to: &str) -> (r: String)
    ensures
        r@ == replace_all(hay@, from@, to@),
{
    let h = chars_of(hay);
    let f = chars_of(from);
    if f.len() == 0 || f.len() > h.len() {
        assert(hay@.skip(0) =~= hay@);
        return hay.to_owned();
    }
    let last: usize = h.len() - f.len();
    let mut out = String::new();
    let mut start: usize = 0;
    let mut at: usize = 0;
    while at <= last
        invariant
            h@ == hay@,
            f@ == from@,
            f.len() > 0,
            last == h.len() - f.len(),
            start <= at <= h.len(),
            out@ + hay@.subrange(start as int, at as int) + replaced_from(
                hay@,
                from@,
                to@,
                at as int,
            ) == replace_all(hay@, from@, to@),
        decreases h.len() - at,
    {
        let ghost before = out@;
        let ghost rest = replaced_from(hay@, from@, to@, at as int);
        if matches_at(&h, &f, at) {
            let ghost run = hay@.subrange(start as int, at as int);
            out.append(hay.substring_char(start, at));
            out.append(to);
            at += f.len();
            start = at;
            let ghost tail = replaced_from(hay@, from@, to@, at as int);
            assert(rest == to@ + tail);
            assert(out@ + hay@.subrange(start as int, at as int) + tail =~= before + run + (to@
                + tail));
        } else {
            let ghost tail = replaced_from(hay@, from@, to@, at + 1);
            assert(rest == seq![hay@[at as int]] + tail);
            assert(before + hay@.subrange(start as int, at + 1) + tail =~= before
                + hay@.subrange(start as int, at as int) + (seq![hay@[at as int]] + tail));
            at += 1;
        }
    }
    let ghost before = out@;
    out.append(hay.substring_char(start, h.len()));
    assert(out@ =~= before + hay@.subrange(start as int, at as int) + hay@.skip(at as int));
    out
}

/// Whether `c` is white space, as Unicode's property `White_Space` has it.
pub open spec fn is_white_space(c: char) -> bool {
    let n = c as u32;
    ||| 0x09 <= n <= 0x0d
    ||| n == 0x20
    ||| n == 0x85
    ||| n == 0xa0
    ||| n == 0x1680
    ||| 0x2000 <= n <= 0x200a
    ||| n == 0x2028
    ||| n == 0x2029
    ||| n == 0x202f
    ||| n == 0x205f
    ||| n == 0x3000
}

/// The number of white-space characters at the head of `s`.
pub open spec fn leading_white_space(s: Seq<char>) -> nat
    decreases s.len(),
{
    if s.len() > 0 && is_white_space(s[0]) {
        1 + leading_white_space(s.drop_first())
    } else {
        0
    }
}

/// The number of white-space characters at the end of `s`.
pub open spec fn trailing_white_space(s: Seq<char>) -> nat
    decreases s.len(),
{
    if s.len() > 0 && is_white_space(s.last()) {
        1 + trailing_white_space(s.drop_last())
    } else {
        0
    }
}

/// `s` without the white space at its head and at its end.
pub open spec fn trimmed(s: Seq<char>) -> Seq<char> {
    let rest = s.skip(leading_white_space(s) as int);
    rest.take(rest.len() - trailing_white_space(rest))
}

/// Whether `c` is white space.
pub fn white_space(c: char) -> (r: bool)
    ensures
        r == is_white_space(c),
{
    let n: u32 = c as u32;
    (0x09 <= n && n <= 0x0d) || n == 0x20 || n == 0x85 || n == 0xa0 || n == 0x1680 || (0x2000 <= n
        && n <= 0x200a) || n == 0x2028 || n == 0x2029 || n == 0x202f || n == 0x205f || n
        == 0x3000
}

proof fn lemma_leading_white_space(s: Seq<char>, k: int)
    requires
        0 <= k <= s.len(),
        forall|j: int| 0 <= j < k ==> is_white_space(s[j]),
        k == s.len() || !is_white_space(s[k]),
    ensures
        leading_white_space(s) == k,
    decreases k,
{
    if k > 0 {
        lemma_leading_white_space(s.drop_first(), k - 1);
    }
}

proof fn lemma_trailing_white_space(s: Seq<char>, k: int)
    requires
        0 <= k <= s.len(),
        forall|j: int| s.len() - k <= j < s.len() ==> is_white_space(s[j]),
        k == s.len() || !is_white_space(s[s.len() - k - 1]),
    ensures
        trailing_white_space(s) == k,
    decreases k,
{
    if k > 0 {
        lemma_trailing_white_space(s.drop_last(), k - 1);
    }
}

/// `s` without the white space at its head and at its end, as `str::trim`
/// gives it.
pub fn trim<'a>(s: &'a str) -> (r: &'a str)
    ensures
        r@ == trimmed(s@),
{
    let v = chars_of(s);
    let mut start: usize = 0;
    while start < v.len() && white_space(v[start])
        invariant
            start <= v.len(),
            forall|j: int| 0 <= j < start ==> is_white_space(v@[j]),
        decreases v.len() - start,
    {
        start += 1;
    }
    let mut end: usize = v.len();
    while end > start && white_space(v[end - 1])
        invariant
            start <= end <= v.len(),
            forall|j: int| end <= j < v.len() ==> is_white_space(v@[j]),
        decreases end,
    {
        end -= 1;
    }
    proof {
        lemma_leading_white_space(s@, start as int);
        let rest = s@.skip(start as int);
        assert forall|j: int| rest.len() - (v.len() - end) <= j < rest.len() implies is_white_space(
            rest[j],
        ) by {
            assert(rest[j] == v@[j + start]);
        }
        lemma_trailing_white_space(rest, v.len() - end);
        assert(rest.take(rest.len() - (v.len() - end)) =~= s@.subrange(start as int, end as int));
    }
    s.substring_char(start, end)
}

/// What stands in `hay` between the first `token` and the next one, or the
/// end of `hay`; nothing where `hay` holds no `token`, or the token is
/// empty.
pub open spec fn after_token(hay: Seq<char>, token: Seq<char>) -> Seq<char> {
    match first_match(hay, token, 0) {
        None => Seq::empty(),
        Some(at) => match first_match(hay, token, at + token.len()) {
            None => hay.skip(at + token.len()),
            Some(next) => hay.subrange(at + token.len(), next),
        },
    }
}

/// The second of the pieces into which `token` splits `hay`, as
/// `str::split` gives them for a token that is not empty; the empty text
/// where there is none.
pub fn second_piece<'a>(hay: &'a str, token: &str) -> (r: &'a str)
    ensures
        r@ == after_token(hay@, token@),
{
    let h = chars_of(hay);
    let t = chars_of(token);
    match find(&h, &t, 0) {
        None => hay.substring_char(0, 0),
        Some(at) => {
            proof {
                lemma_first_match(hay@, token@, 0);
            }
            let end: usize = h.len();
            let begin: usize = at + t.len();
            match find(&h, &t, begin) {
                None => hay.substring_char(begin, end),
                Some(next) => {
                    proof {
                        lemma_first_match(hay@, token@, begin as int);
                    }
                    hay.substring_char(begin, next)
                },
            }
        },
    }
}

/// The character that stands for the digit `d`.
pub open spec fn digit_char(d: nat) -> char
    recommends
        d < 10,
{
    if d == 0 {
        '0'
    } else if d == 1 {
        '1'
    } else if d == 2 {
        '2'
    } else if d == 3 {
        '3'
    } else if d == 4 {
        '4'
    } else if d == 5 {
        '5'
    } else if d == 6 {
        '6'
    } else if d == 7 {
        '7'
    } else if d == 8 {
        '8'
    } else {
        '9'
    }
}

/// `n` in decimal digits, without sign or leading zeros.
pub open spec fn decimal(n: nat) -> Seq<char>
    decreases n,
{
    if n < 10 {
        seq![digit_char(n)]
    } else {
        decimal(n / 10).push(digit_char(n % 10))
    }
}

fn digit_text(d: u64) -> (r: &'static str)
    requires
        d < 10,
    ensures
        r@ == seq![digit_char(d as nat)],
{
    proof {
        reveal_strlit("0");
        reveal_strlit("1");
        reveal_strlit("2");
        reveal_strlit("3");
        reveal_strlit("4");
        reveal_strlit("5");
        reveal_strlit("6");
        reveal_strlit("7");
        reveal_strlit("8");
        reveal_strlit("9");
    }
    let r = if d == 0 {
        "0"
    } else if d == 1 {
        "1"
    } else if d == 2 {
        "2"
    } else if d == 3 {
        "3"
    } else if d == 4 {
        "4"
    } else if d == 5 {
        "5"
    } else if d == 6 {
        "6"
    } else if d == 7 {
        "7"
    } else if d == 8 {
        "8"
    } else {
        "9"
    };
    assert(r@ =~= seq![digit_char(d as nat)]);
    r
}

/// `n` in decimal digits.
pub fn decimal_text(n: u64) -> (r: String)
    ensures
        r@ == decimal(n as nat),
    decreases n,
{
    if n < 10 {
        String::from_str(digit_text(n))
    } else {
        let mut r = decimal_text(n / 10);
        r.append(digit_text(n % 10));
        assert(r@ =~= decimal((n / 10) as nat).push(digit_char((n % 10) as nat)));
        r
    }
}

/// The digit that `c` stands for.
pub open spec fn digit_of(c: char) -> Option<nat> {
    let n = c as u32;
    if 0x30 <= n <= 0x39 {
        Some((n - 0x30) as nat)
    } else {
        None
    }
}

/// Whether `s` holds decimal digits only.
pub open spec fn is_digits(s: Seq<char>) -> bool {
    forall|i: int| 0 <= i < s.len() ==> (#[trigger] digit_of(s[i])) is Some
}

/// The number that the decimal digits `s` stand for.
pub open spec fn digits_value(s: Seq<char>) -> nat
    decreases s.len(),
{
    if s.len() == 0 {
        0
    } else {
        digits_value(s.drop_last()) * 10 + match digit_of(s.last()) {
            Some(d) => d,
            None => 0,
        }
    }
}

/// The number that `s` stands for: decimal digits, at least one, after at
/// most one `+`.
pub open spec fn number_of(s: Seq<char>) -> Option<nat> {
    let digits = if s.len() > 0 && s[0] == '+' {
        s.drop_first()
    } else {
        s
    };
    if digits.len() > 0 && is_digits(digits) {
        Some(digits_value(digits))
    } else {
        None
    }
}

/// What `parse_u16` gives for `s`.
pub open spec fn u16_of(s: Seq<char>) -> Option<u16> {
    match number_of(s) {
        Some(n) => if n <= u16::MAX {
            Some(n as u16)
        } else {
            None
        },
        None => None,
    }
}

proof fn lemma_digits_value_grows(s: Seq<char>, k: int)
    requires
        0 <= k <= s.len(),
    ensures
        digits_value(s.take(k)) <= digits_value(s),
    decreases s.len() - k,
{
    if k < s.len() {
        lemma_digits_value_grows(s.drop_last(), k);
        assert(s.drop_last().take(k) =~= s.take(k));
        assert(digits_value(s.drop_last()) * 10 >= digits_value(s.drop_last())) by (nonlinear_arith);
    } else {
        assert(s.take(k) =~= s);
    }
}

/// The number that `s` stands for, as `str::parse::<u16>` reads it.
pub fn parse_u16(s: &str) -> (r: Option<u16>)
    ensures
        r == u16_of(s@),
{
    let v = chars_of(s);
    let n: usize = v.len();
    let start: usize = if n > 0 && v[0] == '+' {
        1
    } else {
        0
    };
    let ghost digits = if start == 1 {
        s@.drop_first()
    } else {
        s@
    };
    assert(digits =~= s@.skip(start as int));
    if start == n {
        return None;
    }
    let mut value: u32 = 0;
    let mut at: usize = start;
    while at < n
        invariant
            v@ == s@,
            n == v.len(),
            start <= at <= n,
            digits == s@.skip(start as int),
            digits == if s@.len() > 0 && s@[0] == '+' {
                s@.drop_first()
            } else {
                s@
            },
            start < n,
            is_digits(digits.take(at - start)),
            value == digits_value(digits.take(at - start)),
            value <= u16::MAX,
        decreases n - at,
    {
        let c: char = v[at];
        let code: u32 = c as u32;
        if code < 0x30 || code > 0x39 {
            assert(digit_of(digits[at - start]) is None);
            return None;
        }
        let ghost head = digits.take(at - start);
        let ghost next = digits.take(at - start + 1);
        assert(next.drop_last() =~= head);
        assert(next.last() == v@[at as int]);
        assert(digit_of(v@[at as int]) == Some((code - 0x30) as nat));
        value = value * 10 + (code - 0x30);
        assert(value == digits_value(next));
        assert(is_digits(next)) by {
            assert forall|i: int| 0 <= i < next.len() implies (#[trigger] digit_of(next[i]))
                is Some by {
                if i < head.len() {
                    assert(next[i] == head[i]);
                }
            }
        }
        if value > 65535 {
            proof {
                lemma_digits_value_grows(digits, at - start + 1);
            }
            return None;
        }
        at += 1;
    }
    assert(digits.take(at - start) =~= digits);
    Some(value as u16)
}

/// What `str::to_lowercase` gives for a text.
pub uninterp spec fn lowercase_of(s: Seq<char>) -> Seq<char>;

/// What `str::to_uppercase` gives for a text.
pub uninterp spec fn uppercase_of(s: Seq<char>) -> Seq<char>;

/// Calls `str::to_lowercase`, which maps each character as Unicode's rules
/// for lower case say. Nothing is claimed of the result but that it depends
/// on the text alone.
#[verifier::external_body]
pub(crate) fn to_lowercase(s: &str) -> (r: String)
    ensures
        r@ == lowercase_of(s@),
{
    s.to_lowercase()
}

/// Calls `str::to_uppercase`, which maps each character as Unicode's rules
/// for upper case say. Nothing is claimed of the result but that it depends
/// on the text alone.
#[verifier::external_body]
pub(crate) fn to_uppercase(s: &str) -> (r: String)
    ensures
        r@ == uppercase_of(s@),
{
    s.to_uppercase()
}

} // verus!
