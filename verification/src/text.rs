//! Character-level helpers on text: comparison, prefixes and suffixes,
//! decimal numbers and joining.

use vstd::prelude::*;

verus! {

/// The characters of each string of a list.
pub open spec fn texts(items: Seq<String>) -> Seq<Seq<char>> {
    items.map_values(|s: String| s@)
}

/// Copies the characters of `s` into a vector.
pub fn chars_of(s: &str) -> (v: Vec<char>)
    ensures
        v@ == s@,
{
    let mut v: Vec<char> = Vec::new();
    for c in it: s.chars()
        invariant
            it.seq() == s@,
            v@ == it.seq().take(it.index() as int),
    {
        v.push(c);
    }
    v
}

/// Whether two texts hold the same characters.
pub fn same_text(a: &str, b: &str) -> (same: bool)
    ensures
        same == (a@ == b@),
{
    let x = a.to_owned();
    let y = b.to_owned();
    x == y
}

/// Whether `pattern` stands in `s` at character offset `at`.
pub open spec fn occurs_at(s: Seq<char>, at: int, pattern: Seq<char>) -> bool {
    &&& 0 <= at
    &&& at + pattern.len() <= s.len()
    &&& s.subrange(at, at + pattern.len()) == pattern
}

fn matches_at(s: &Vec<char>, at: usize, pattern: &Vec<char>) -> (m: bool)
    ensures
        m == occurs_at(s@, at as int, pattern@),
{
    if at > s.len() || pattern.len() > s.len() - at {
        return false;
    }
    let mut i: usize = 0;
    while i < pattern.len()
        invariant
            i <= pattern.len(),
            at + pattern.len() <= s.len(),
            forall|j: int| 0 <= j < i ==> s@[at + j] == pattern@[j],
        decreases pattern.len() - i,
    {
        if s[at + i] != pattern[i] {
            assert(s@.subrange(at as int, at + pattern.len())[i as int] != pattern@[i as int]);
            return false;
        }
        i += 1;
    }
    assert(s@.subrange(at as int, at + pattern.len()) =~= pattern@);
    true
}

/// Whether `s` begins with `prefix`.
pub fn starts_with(s: &str, prefix: &str) -> (yes: bool)
    ensures
        yes == prefix@.is_prefix_of(s@),
{
    let sc = chars_of(s);
    let pc = chars_of(prefix);
    matches_at(&sc, 0, &pc)
}

/// `s` without every leading repetition of `prefix`.
pub open spec fn without_leading(s: Seq<char>, prefix: Seq<char>) -> Seq<char>
    decreases s.len(),
{
    if prefix.len() > 0 && prefix.is_prefix_of(s) {
        without_leading(s.skip(prefix.len() as int), prefix)
    } else {
        s
    }
}

/// `s` without every trailing repetition of `suffix`.
pub open spec fn without_trailing(s: Seq<char>, suffix: Seq<char>) -> Seq<char>
    decreases s.len(),
{
    if suffix.len() > 0 && suffix.is_suffix_of(s) {
        without_trailing(s.take(s.len() - suffix.len()), suffix)
    } else {
        s
    }
}

/// Removes every leading repetition of `prefix` from `s`.
pub fn trim_start_matches<'a>(s: &'a str, prefix: &str) -> (rest: &'a str)
    ensures
        rest@ == without_leading(s@, prefix@),
{
    let sc = chars_of(s);
    let pc = chars_of(prefix);
    if pc.len() == 0 {
        return s;
    }
    let mut k: usize = 0;
    assert(s@.skip(0) =~= s@);
    while matches_at(&sc, k, &pc)
        invariant
            sc@ == s@,
            pc@ == prefix@,
            pc.len() > 0,
            k <= sc.len(),
            without_leading(s@, prefix@) == without_leading(s@.skip(k as int), prefix@),
        decreases sc.len() - k,
    {
        proof {
            let tail = s@.skip(k as int);
            assert(tail.subrange(0, prefix@.len() as int) =~= s@.subrange(
                k as int,
                k + prefix@.len(),
            ));
            assert(tail.skip(prefix@.len() as int) =~= s@.skip(k + prefix@.len()));
        }
        k += pc.len();
    }
    proof {
        let tail = s@.skip(k as int);
        if prefix@.is_prefix_of(tail) {
            assert(tail.subrange(0, prefix@.len() as int) =~= s@.subrange(
                k as int,
                k + prefix@.len(),
            ));
        }
        assert(s@.subrange(k as int, sc.len() as int) =~= tail);
    }
    s.substring_char(k, sc.len())
}

/// Removes every trailing repetition of `suffix` from `s`.
pub fn trim_end_matches<'a>(s: &'a str, suffix: &str) -> (rest: &'a str)
    ensures
        rest@ == without_trailing(s@, suffix@),
{
    let sc = chars_of(s);
    let pc = chars_of(suffix);
    if pc.len() == 0 {
        return s;
    }
    let mut k: usize = sc.len();
    assert(s@.take(k as int) =~= s@);
    while k >= pc.len() && matches_at(&sc, k - pc.len(), &pc)
        invariant
            sc@ == s@,
            pc@ == suffix@,
            pc.len() > 0,
            k <= sc.len(),
            without_trailing(s@, suffix@) == without_trailing(s@.take(k as int), suffix@),
        decreases k,
    {
        proof {
            let head = s@.take(k as int);
            assert(head.subrange(head.len() - suffix@.len(), head.len() as int) =~= s@.subrange(
                k - suffix@.len(),
                k as int,
            ));
            assert(head.take(head.len() - suffix@.len()) =~= s@.take(k - suffix@.len()));
        }
        k -= pc.len();
    }
    proof {
        let head = s@.take(k as int);
        if suffix@.is_suffix_of(head) {
            assert(head.subrange(head.len() - suffix@.len(), head.len() as int) =~= s@.subrange(
                k - suffix@.len(),
                k as int,
            ));
        }
        assert(s@.subrange(0, k as int) =~= head);
    }
    s.substring_char(0, k)
}

/// The character of one decimal digit.
pub open spec fn digit_char(d: int) -> char {
    if d == 0 {
        '0'
    } else if d == 1 {
        '1'
    } else if d == 2 {
        '2'
    } else if d == 3 {
        '3'
    } else if d == 4 {
        '4'
    } else if d == 5 {
        '5'
    } else if d == 6 {
        '6'
    } else if d == 7 {
        '7'
    } else if d == 8 {
        '8'
    } else {
        '9'
    }
}

/// The decimal numeral of `n`, with no leading zero.
pub open spec fn decimal_digits(n: nat) -> Seq<char>
    decreases n,
{
    if n < 10 {
        seq![digit_char(n as int)]
    } else {
        decimal_digits(n / 10).push(digit_char((n % 10) as int))
    }
}

fn digit_text(d: u64) -> (t: &'static str)
    requires
        d < 10,
    ensures
        t@ == seq![digit_char(d as int)],
{
    proof {
        reveal_strlit("0");
        reveal_strlit("1");
        reveal_strlit("2");
        reveal_strlit("3");
        reveal_strlit("4");
        reveal_strlit("5");
        reveal_strlit("6");
        reveal_strlit("7");
        reveal_strlit("8");
        reveal_strlit("9");
    }
    let t = if d == 0 {
        "0"
    } else if d == 1 {
        "1"
    } else if d == 2 {
        "2"
    } else if d == 3 {
        "3"
    } else if d == 4 {
        "4"
    } else if d == 5 {
        "5"
    } else if d == 6 {
        "6"
    } else if d == 7 {
        "7"
    } else if d == 8 {
        "8"
    } else {
        "9"
    };
    assert(t@ =~= seq![digit_char(d as int)]);
    t
}

/// Writes `n` as a decimal numeral.
pub fn decimal(n: u64) -> (t: String)
    ensures
        t@ == decimal_digits(n as nat),
    decreases n,
{
    if n < 10 {
        String::from_str(digit_text(n))
    } else {
        let mut t = decimal(n / 10);
        t.append(digit_text(n % 10));
        assert(t@ =~= decimal_digits((n / 10) as nat).push(digit_char((n % 10) as int)));
        t
    }
}

/// The items of a list written one after another with `sep` between them.
pub open spec fn joined(items: Seq<Seq<char>>, sep: Seq<char>) -> Seq<char>
    decreases items.len(),
{
    if items.len() == 0 {
        Seq::empty()
    } else if items.len() == 1 {
        items[0]
    } else {
        joined(items.drop_last(), sep) + sep + items.last()
    }
}

/// Joins the items of a list with `sep` between them.
pub fn join(items: &Vec<String>, sep: &str) -> (t: String)
    ensures
        t@ == joined(texts(items@), sep@),
{
    let mut t = String::new();
    let mut i: usize = 0;
    assert(texts(items@).take(0) =~= Seq::<Seq<char>>::empty());
    while i < items.len()
        invariant
            i <= items.len(),
            t@ == joined(texts(items@).take(i as int), sep@),
        decreases items.len() - i,
    {
        if i > 0 {
            t.append(sep);
        }
        t.append(items[i].as_str());
        proof {
            let now = texts(items@).take(i + 1);
            assert(now.drop_last() =~= texts(items@).take(i as int));
            assert(now.last() == items@[i as int]@);
            if i == 0 {
                assert(t@ =~= now[0]);
            }
        }
        i += 1;
    }
    assert(texts(items@).take(items.len() as int) =~= texts(items@));
    t
}

/// Whether one of the items of a list is the text `s`.
pub fn contains_text(items: &Vec<String>, s: &str) -> (found: bool)
    ensures
        found == texts(items@).contains(s@),
{
    let mut i: usize = 0;
    while i < items.len()
        invariant
            i <= items.len(),
            forall|j: int| 0 <= j < i ==> texts(items@)[j] != s@,
        decreases items.len() - i,
    {
        if same_text(items[i].as_str(), s) {
            assert(texts(items@)[i as int] == s@);
            return true;
        }
        i += 1;
    }
    false
}

/// `s` without `prefix` at its start, where it stands there.
pub open spec fn without_prefix(s: Seq<char>, prefix: Seq<char>) -> Seq<char> {
    if prefix.is_prefix_of(s) {
        s.skip(prefix.len() as int)
    } else {
        s
    }
}

/// Removes `prefix` from the start of `s`, once, where it stands there.
pub fn strip_prefix<'a>(s: &'a str, prefix: &str) -> (rest: &'a str)
    ensures
        rest@ == without_prefix(s@, prefix@),
{
    let sc = chars_of(s);
    let pc = chars_of(prefix);
    if matches_at(&sc, 0, &pc) {
        assert(s@.subrange(pc.len() as int, sc.len() as int) =~= s@.skip(prefix@.len() as int));
        s.substring_char(pc.len(), sc.len())
    } else {
        s
    }
}

/// Whether a character is white space as Unicode defines it.
pub open spec fn is_white_space(c: char) -> bool {
    let u = c as u32;
    ||| 0x09 <= u <= 0x0D
    ||| u == 0x20
    ||| u == 0x85
    ||| u == 0xA0
    ||| u == 0x1680
    ||| 0x2000 <= u <= 0x200A
    ||| u == 0x2028
    ||| u == 0x2029
    ||| u == 0x202F
    ||| u == 0x205F
    ||| u == 0x3000
}

fn white_space(c: char) -> (yes: bool)
    ensures
        yes == is_white_space(c),
{
    let u = c as u32;
    (0x09 <= u && u <= 0x0D) || u == 0x20 || u == 0x85 || u == 0xA0 || u == 0x1680 || (0x2000 <= u
        && u <= 0x200A) || u == 0x2028 || u == 0x2029 || u == 0x202F || u == 0x205F || u == 0x3000
}

/// `s` without the white space at its start.
pub open spec fn trimmed_start(s: Seq<char>) -> Seq<char>
    decreases s.len(),
{
    if s.len() > 0 && is_white_space(s[0]) {
        trimmed_start(s.skip(1))
    } else {
        s
    }
}

/// `s` without the white space at its end.
pub open spec fn trimmed_end(s: Seq<char>) -> Seq<char>
    decreases s.len(),
{
    if s.len() > 0 && is_white_space(s.last()) {
        trimmed_end(s.drop_last())
    } else {
        s
    }
}

/// `s` without the white space at its start and at its end.
pub open spec fn trimmed(s: Seq<char>) -> Seq<char> {
    trimmed_end(trimmed_start(s))
}

fn trim_bounds(sc: &Vec<char>) -> (bounds: (usize, usize))
    ensures
        bounds.0 <= bounds.1 <= sc@.len(),
        sc@.subrange(bounds.0 as int, bounds.1 as int) == trimmed(sc@),
{
    let n = sc.len();
    let mut a: usize = 0;
    assert(sc@.skip(0) =~= sc@);
    while a < n && white_space(sc[a])
        invariant
            a <= n,
            n == sc@.len(),
            trimmed_start(sc@) == trimmed_start(sc@.skip(a as int)),
        decreases n - a,
    {
        assert(sc@.skip(a as int).skip(1) =~= sc@.skip(a + 1));
        a += 1;
    }
    let ghost rest = sc@.skip(a as int);
    assert(trimmed_start(sc@) == rest);
    let mut b: usize = n;
    assert(rest.take(n - a) =~= rest);
    while b > a && white_space(sc[b - 1])
        invariant
            a <= b <= n,
            n == sc@.len(),
            rest == sc@.skip(a as int),
            trimmed_end(rest) == trimmed_end(rest.take(b - a)),
        decreases b,
    {
        assert(rest.take(b - a).drop_last() =~= rest.take(b - a - 1));
        b -= 1;
    }
    assert(rest.take(b - a) =~= sc@.subrange(a as int, b as int));
    (a, b)
}

/// Removes the white space at the start and at the end of `s`.
pub fn trim(s: &str) -> (t: &str)
    ensures
        t@ == trimmed(s@),
{
    let sc = chars_of(s);
    let (a, b) = trim_bounds(&sc);
    s.substring_char(a, b)
}

/// The pieces of `s` between the occurrences of `sep`; there is one piece
/// more than there are occurrences.
pub open spec fn split_on(s: Seq<char>, sep: char) -> Seq<Seq<char>>
    decreases s.len(),
{
    if s.len() == 0 {
        seq![Seq::empty()]
    } else {
        let before = split_on(s.drop_last(), sep);
        if s.last() == sep {
            before.push(Seq::empty())
        } else {
            before.drop_last().push(before.last().push(s.last()))
        }
    }
}

/// Splits `s` at every occurrence of `sep`.
pub fn split(s: &str, sep: char) -> (pieces: Vec<String>)
    ensures
        texts(pieces@) == split_on(s@, sep),
{
    let sc = chars_of(s);
    let n = sc.len();
    let mut pieces: Vec<String> = Vec::new();
    let mut from: usize = 0;
    let mut i: usize = 0;
    proof {
        assert(s@.take(0) =~= Seq::<char>::empty());
        assert(texts(pieces@).push(s@.subrange(0, 0)) =~= split_on(s@.take(0), sep));
    }
    while i < n
        invariant
            from <= i <= n,
            n == s@.len(),
            sc@ == s@,
            split_on(s@.take(i as int), sep) == texts(pieces@).push(
                s@.subrange(from as int, i as int),
            ),
        decreases n - i,
    {
        let ghost before = split_on(s@.take(i as int), sep);
        let ghost done = texts(pieces@);
        proof {
            assert(s@.take(i + 1).drop_last() =~= s@.take(i as int));
            assert(s@.take(i + 1).last() == s@[i as int]);
            assert(before.last() == s@.subrange(from as int, i as int));
            assert(before.drop_last() =~= done);
        }
        if sc[i] == sep {
            pieces.push(String::from_str(s.substring_char(from, i)));
            from = i + 1;
            proof {
                assert(texts(pieces@) =~= done.push(before.last()));
                assert(s@.subrange(from as int, i + 1) =~= Seq::<char>::empty());
                assert(texts(pieces@) =~= before);
            }
        } else {
            proof {
                assert(s@.subrange(from as int, i + 1) =~= before.last().push(s@[i as int]));
            }
        }
        i += 1;
    }
    let ghost done = texts(pieces@);
    pieces.push(String::from_str(s.substring_char(from, n)));
    proof {
        assert(s@.take(n as int) =~= s@);
        assert(texts(pieces@) =~= done.push(s@.subrange(from as int, n as int)));
    }
    pieces
}

/// Whether every character of `s` is a decimal digit.
pub open spec fn all_digits(s: Seq<char>) -> bool {
    forall|i: int| 0 <= i < s.len() ==> '0' <= #[trigger] s[i] <= '9'
}

/// The number that the decimal digits `s` spell.
pub open spec fn numeral_value(s: Seq<char>) -> nat
    decreases s.len(),
{
    if s.len() == 0 {
        0
    } else {
        numeral_value(s.drop_last()) * 10 + (s.last() as u32 - '0' as u32) as nat
    }
}

/// The number that `s` spells as an unsigned decimal numeral: an optional
/// `+`, then at least one digit and nothing else, and a value that `u64`
/// holds.
pub open spec fn parsed_u64(s: Seq<char>) -> Option<u64> {
    let digits = if s.len() > 0 && s[0] == '+' {
        s.skip(1)
    } else {
        s
    };
    if digits.len() > 0 && all_digits(digits) && numeral_value(digits) <= u64::MAX {
        Some(numeral_value(digits) as u64)
    } else {
        None
    }
}

proof fn lemma_numeral_grows(s: Seq<char>, k: int)
    requires
        0 <= k <= s.len(),
        all_digits(s),
    ensures
        numeral_value(s.take(k)) <= numeral_value(s),
    decreases s.len() - k,
{
    if k < s.len() {
        lemma_numeral_grows(s, k + 1);
        assert(s.take(k + 1).drop_last() =~= s.take(k));
        assert(s.take(k + 1).last() == s[k]);
    } else {
        assert(s.take(k) =~= s);
    }
}

/// Reads an unsigned decimal numeral.
pub fn parse_u64(s: &str) -> (value: Option<u64>)
    ensures
        value == parsed_u64(s@),
{
    let sc = chars_of(s);
    let n = sc.len();
    let start: usize = if n > 0 && sc[0] == '+' {
        1
    } else {
        0
    };
    if start == n {
        return None;
    }
    let ghost digits = s@.skip(start as int);
    let mut acc: u64 = 0;
    let mut i: usize = start;
    proof {
        assert(digits.take(0) =~= Seq::<char>::empty());
        assert(s@.skip(0) =~= s@);
    }
    while i < n
        invariant
            start <= i <= n,
            start < n,
            n == s@.len(),
            sc@ == s@,
            digits == s@.skip(start as int),
            digits == if s@.len() > 0 && s@[0] == '+' {
                s@.skip(1)
            } else {
                s@
            },
            all_digits(digits.take(i - start)),
            acc == numeral_value(digits.take(i - start)),
        decreases n - i,
    {
        let c = sc[i];
        let ghost now = digits.take(i - start + 1);
        proof {
            assert(now.drop_last() =~= digits.take(i - start));
            assert(now.last() == c);
        }
        if !('0' <= c && c <= '9') {
            assert(digits[i - start] == c);
            return None;
        }
        let d = (c as u32 - '0' as u32) as u64;
        let next = match acc.checked_mul(10) {
            Some(m) => m.checked_add(d),
            None => None,
        };
        match next {
            Some(v) => {
                acc = v;
            },
            None => {
                proof {
                    assert(numeral_value(now) > u64::MAX);
                    if all_digits(digits) {
                        lemma_numeral_grows(digits, i - start + 1);
                    }
                }
                return None;
            },
        }
        proof {
            assert forall|j: int| 0 <= j < now.len() implies '0' <= #[trigger] now[j] <= '9' by {
                if j < now.len() - 1 {
                    assert(now[j] == digits.take(i - start)[j]);
                }
            }
        }
        i += 1;
    }
    assert(digits.take(n - start) =~= digits);
    Some(acc)
}

} // verus!
