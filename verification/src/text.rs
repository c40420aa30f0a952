use vstd::prelude::*;

verus! {

/// The characters that carry the Unicode `White_Space` property, which is the
/// set that `char::is_whitespace` (and with it `str::split_whitespace`) uses.
pub open spec fn is_white_space(c: char) -> bool {
    let u = c as u32;
    ||| 0x09 <= u <= 0x0d
    ||| u == 0x20
    ||| u == 0x85
    ||| u == 0xa0
    ||| u == 0x1680
    ||| 0x2000 <= u <= 0x200a
    ||| u == 0x2028
    ||| u == 0x2029
    ||| u == 0x202f
    ||| u == 0x205f
    ||| u == 0x3000
}

/// Whether `c` is a Unicode white-space character.
pub fn is_whitespace_char(c: char) -> (b: bool)
    ensures
        b == is_white_space(c),
{
    let u = c as u32;
    (0x09 <= u && u <= 0x0d) || u == 0x20 || u == 0x85 || u == 0xa0 || u == 0x1680
        || (0x2000 <= u && u <= 0x200a) || u == 0x2028 || u == 0x2029 || u == 0x202f
        || u == 0x205f || u == 0x3000
}


/// The characters of `s`, one by one.
pub fn chars_of(s: &str) -> (v: Vec<char>)
    ensures
        v@ == s@,
{
    let mut v: Vec<char> = Vec::new();
    for c in it: s.chars()
        invariant
            v@ == it.seq().take(it.index() as int),
            it.seq() == s@,
    {
        v.push(c);
    }
    v
}


/// Whether `a` and `b` are the same text.
pub fn same_text(a: &str, b: &str) -> (r: bool)
    ensures
        r == (a@ == b@),
{
    let x = chars_of(a);
    let y = chars_of(b);
    if x.len() != y.len() {
        return false;
    }
    let n = x.len();
    let mut i: usize = 0;
    while i < n
        invariant
            x@ == a@,
            y@ == b@,
            n == x@.len(),
            n == y@.len(),
            i <= n,
            forall|k: int| 0 <= k < i ==> x@[k] == y@[k],
        decreases n - i,
    {
        if x[i] != y[i] {
            return false;
        }
        i = i + 1;
    }
    assert(x@ =~= y@);
    true
}

/// Whether a word begins at position `i` of `s`: a character that is not
/// white space, at the start or right after white space.
pub open spec fn starts_word(s: Seq<char>, i: int) -> bool {
    &&& !is_white_space(s[i])
    &&& (i == 0 || is_white_space(s[i - 1]))
}

/// The number of maximal runs of non-white-space characters in `s`: the number
/// of items that `str::split_whitespace` yields.
pub open spec fn word_count(s: Seq<char>) -> nat
    decreases s.len(),
{
    if s.len() == 0 {
        0
    } else {
        word_count(s.drop_last()) + if starts_word(s, s.len() - 1) {
            1nat
        } else {
            0nat
        }
    }
}

/// How many whitespace-separated words `s` holds.
pub fn count_words(s: &str) -> (n: usize)
    ensures
        n == word_count(s@),
{
    let v = chars_of(s);
    let len = v.len();
    let mut n: usize = 0;
    let mut i: usize = 0;
    while i < len
        invariant
            v@ == s@,
            len == v@.len(),
            i <= len,
            n <= i,
            n == word_count(v@.take(i as int)),
        decreases len - i,
    {
        let begins = !is_whitespace_char(v[i]) && (i == 0 || is_whitespace_char(v[i - 1]));
        assert(v@.take(i + 1).drop_last() =~= v@.take(i as int));
        assert(begins == starts_word(v@.take(i + 1), i as int));
        if begins {
            n = n + 1;
        }
        i = i + 1;
    }
    assert(v@.take(len as int) =~= v@);
    n
}

/// Whether `c` is an ASCII decimal digit.
pub open spec fn is_digit(c: char) -> bool {
    '0' <= c <= '9'
}

/// The value of the decimal digit `c`.
pub open spec fn digit_value(c: char) -> int {
    c as int - '0' as int
}

/// Whether every character of `s` is a decimal digit.
pub open spec fn all_digits(s: Seq<char>) -> bool {
    forall|i: int| 0 <= i < s.len() ==> is_digit(#[trigger] s[i])
}

/// The number that the digits `s` write in base ten (0 for no digits).
pub open spec fn digits_value(s: Seq<char>) -> int
    decreases s.len(),
{
    if s.len() == 0 {
        0
    } else {
        digits_value(s.drop_last()) * 10 + digit_value(s.last())
    }
}

/// The integer that `s` writes: an optional `+` or `-`, then one or more
/// decimal digits and nothing else.
pub open spec fn decimal_integer(s: Seq<char>) -> Option<int> {
    let signed = s.len() > 0 && (s[0] == '+' || s[0] == '-');
    let digits = if signed {
        s.drop_first()
    } else {
        s
    };
    if digits.len() > 0 && all_digits(digits) {
        Some(
            if signed && s[0] == '-' {
                -digits_value(digits)
            } else {
                digits_value(digits)
            },
        )
    } else {
        None
    }
}

/// What `s.parse::<i64>()` yields: the integer that `s` writes, when it fits.
pub open spec fn parsed_i64(s: Seq<char>) -> Option<i64> {
    match decimal_integer(s) {
        Some(v) => if i64::MIN <= v <= i64::MAX {
            Some(v as i64)
        } else {
            None
        },
        None => None,
    }
}

/// A digit string is worth at least as much as any of its prefixes, and
/// never less than zero.
pub proof fn lemma_digits_value_prefix(s: Seq<char>, i: int)
    requires
        all_digits(s),
        0 <= i <= s.len(),
    ensures
        0 <= digits_value(s.take(i)) <= digits_value(s),
    decreases s.len(),
{
    if s.len() > 0 {
        let t = s.drop_last();
        assert(all_digits(t)) by {
            assert forall|k: int| 0 <= k < t.len() implies is_digit(#[trigger] t[k]) by {
                assert(t[k] == s[k]);
            }
        }
        assert(is_digit(s[s.len() - 1]));
        if i == s.len() {
            assert(s.take(i) =~= s);
            lemma_digits_value_prefix(t, t.len() as int);
            assert(t.take(t.len() as int) =~= t);
        } else {
            assert(s.take(i) =~= t.take(i));
            lemma_digits_value_prefix(t, i);
        }
    } else {
        assert(s.take(i) =~= s);
    }
}

/// The number that the base-ten digits `d` write, read from the left.
proof fn lemma_digits_push(d: Seq<char>, c: char)
    ensures
        digits_value(d.push(c)) == digits_value(d) * 10 + digit_value(c),
{
    assert(d.push(c).drop_last() =~= d);
}

/// The characters of `n` in base ten, `0`-`9` with the most significant first.
pub open spec fn base_ten(n: nat) -> Seq<char>
    decreases n,
{
    if n < 10 {
        seq![(n + 48) as char]
    } else {
        base_ten(n / 10) + seq![((n % 10) + 48) as char]
    }
}

/// `base_ten(n)` is made of digits and is worth `n`.
pub proof fn lemma_base_ten_value(n: nat)
    ensures
        all_digits(base_ten(n)),
        base_ten(n).len() > 0,
        digits_value(base_ten(n)) == n,
    decreases n,
{
    if n < 10 {
        lemma_digits_push(Seq::empty(), (n + 48) as char);
        assert(Seq::<char>::empty().push((n + 48) as char) =~= base_ten(n));
    } else {
        lemma_base_ten_value(n / 10);
        let c = ((n % 10) + 48) as char;
        lemma_digits_push(base_ten(n / 10), c);
        assert(base_ten(n / 10).push(c) =~= base_ten(n));
        let t = base_ten(n);
        assert forall|i: int| 0 <= i < t.len() implies is_digit(#[trigger] t[i]) by {
            if i < t.len() - 1 {
                assert(t[i] == base_ten(n / 10)[i]);
            }
        }
    }
}

/// Every integer of 64 bits is read back from its decimal writing: with a
/// leading `-` when negative, and with or without a leading `+` otherwise.
pub proof fn lemma_parse_reads_back(v: i64)
    ensures
        v >= 0 ==> parsed_i64(base_ten(v as nat)) == Some(v),
        v >= 0 ==> parsed_i64(seq!['+'] + base_ten(v as nat)) == Some(v),
        v < 0 ==> parsed_i64(seq!['-'] + base_ten((-v) as nat)) == Some(v),
{
    if v >= 0 {
        let d = base_ten(v as nat);
        lemma_base_ten_value(v as nat);
        assert(d[0] != '+' && d[0] != '-') by {
            assert(is_digit(d[0]));
        }
        let p = seq!['+'] + d;
        assert(p.drop_first() =~= d);
    } else {
        let d = base_ten((-v) as nat);
        lemma_base_ten_value((-v) as nat);
        let m = seq!['-'] + d;
        assert(m.drop_first() =~= d);
    }
}

/// Whatever reads as a number is a sign or nothing, then one or more digits
/// and nothing else.
pub proof fn lemma_parse_reads_only_digits(s: Seq<char>)
    ensures
        parsed_i64(s) is Some ==> s.len() > 0 && (forall|i: int|
            0 < i < s.len() ==> '0' <= #[trigger] s[i] <= '9') && ('0' <= s[0] <= '9' || (s.len()
            > 1 && (s[0] == '+' || s[0] == '-'))),
{
    if parsed_i64(s) is Some {
        let signed = s.len() > 0 && (s[0] == '+' || s[0] == '-');
        if signed {
            let d = s.drop_first();
            assert forall|i: int| 0 < i < s.len() implies '0' <= #[trigger] s[i] <= '9' by {
                assert(s[i] == d[i - 1]);
                assert(is_digit(d[i - 1]));
            }
        } else {
            assert forall|i: int| 0 < i < s.len() implies '0' <= #[trigger] s[i] <= '9' by {
                assert(is_digit(s[i]));
            }
            assert(is_digit(s[0]));
        }
    }
}

/// A run of characters none of which is white space is one word; white space
/// alone is none.
pub proof fn lemma_word_count_runs(s: Seq<char>)
    ensures
        s.len() > 0 && (forall|i: int| 0 <= i < s.len() ==> !is_white_space(#[trigger] s[i]))
            ==> word_count(s) == 1,
        (forall|i: int| 0 <= i < s.len() ==> is_white_space(#[trigger] s[i])) ==> word_count(s) == 0,
    decreases s.len(),
{
    if s.len() > 0 {
        let t = s.drop_last();
        assert(forall|i: int| 0 <= i < t.len() ==> t[i] == s[i]);
        lemma_word_count_runs(t);
    }
}

/// Parses `s` as a signed decimal integer of 64 bits, as `s.parse::<i64>()`
/// does: `None` for anything that is not a sign and digits, or that overflows.
pub fn parse_i64(s: &str) -> (r: Option<i64>)
    ensures
        r == parsed_i64(s@),
{
    let v = chars_of(s);
    let n = v.len();
    let signed = n > 0 && (v[0] == '+' || v[0] == '-');
    let negative = signed && v[0] == '-';
    let start: usize = if signed {
        1
    } else {
        0
    };
    let ghost digits = if signed {
        s@.drop_first()
    } else {
        s@
    };
    assert(digits =~= v@.subrange(start as int, n as int));
    if start == n {
        return None;
    }
    let limit: u128 = 0x8000_0000_0000_0000;
    let mut mag: u128 = 0;
    let mut i: usize = start;
    while i < n
        invariant
            v@ == s@,
            n == v@.len(),
            start <= i <= n,
            signed == (s@.len() > 0 && (s@[0] == '+' || s@[0] == '-')),
            negative == (signed && s@[0] == '-'),
            start == (if signed { 1usize } else { 0usize }),
            digits == (if signed { s@.drop_first() } else { s@ }),
            digits =~= v@.subrange(start as int, n as int),
            all_digits(digits.take(i - start)),
            mag == digits_value(digits.take(i - start)),
            limit == 0x8000_0000_0000_0000u128,
            mag <= limit,
        decreases n - i,
    {
        let c = v[i];
        if !('0' <= c && c <= '9') {
            assert(digits[i - start] == c);
            assert(!is_digit(digits[i - start]));
            assert(!all_digits(digits));
            return None;
        }
        let d = (c as u32 - '0' as u32) as u128;
        assert(d <= 9);
        assert(mag * 10 <= limit * 10) by (nonlinear_arith)
            requires
                mag <= limit,
        ;
        let next = mag * 10 + d;
        let ghost pre = digits.take(i - start);
        let ghost post = digits.take(i - start + 1);
        proof {
            assert(post.drop_last() =~= pre);
            assert(post.last() == c);
            assert(all_digits(post)) by {
                assert forall|k: int| 0 <= k < post.len() implies is_digit(#[trigger] post[k]) by {
                    if k < pre.len() {
                        assert(post[k] == pre[k]);
                    }
                }
            }
        }
        if next > limit {
            proof {
                if all_digits(digits) {
                    lemma_digits_value_prefix(digits, i - start + 1);
                }
            }
            return None;
        }
        mag = next;
        i = i + 1;
    }
    assert(digits.take(n - start) =~= digits);
    if negative {
        if mag == limit {
            Some(i64::MIN)
        } else {
            Some(-(mag as i64))
        }
    } else if mag > 0x7fff_ffff_ffff_ffff {
        None
    } else {
        Some(mag as i64)
    }
}


/// The characters that a sentence may not begin with: ASCII punctuation and
/// the space.
pub open spec fn is_punctuation(c: char) -> bool {
    match c {
        '!' | '"' | '#' | '$' | '%' | '&' | '\'' | '(' | ')' | '*' | '+' | ',' | ' ' | '-' | '.'
        | '/' | ':' | ';' | '<' | '=' | '>' | '?' | '@' | '[' | '\\' | ']' | '^' | '_' | '`'
        | '{' | '|' | '}' | '~' => true,
        _ => false,
    }
}

/// Whether `c` is one of the characters that a sentence may not begin with.
pub fn is_punctuation_char(c: char) -> (b: bool)
    ensures
        b == is_punctuation(c),
{
    match c {
        '!' | '"' | '#' | '$' | '%' | '&' | '\'' | '(' | ')' | '*' | '+' | ',' | ' ' | '-' | '.'
        | '/' | ':' | ';' | '<' | '=' | '>' | '?' | '@' | '[' | '\\' | ']' | '^' | '_' | '`'
        | '{' | '|' | '}' | '~' => true,
        _ => false,
    }
}

/// The characters that close a sentence.
pub open spec fn is_sentence_end(c: char) -> bool {
    c == '.' || c == '?' || c == '!'
}

/// Whether `s` begins with one of the characters that a sentence may not
/// begin with.
pub open spec fn starts_with_punctuation(s: Seq<char>) -> bool {
    s.len() > 0 && is_punctuation(s[0])
}

/// Whether `s` begins or ends with `.`, `?` or `!`.
pub open spec fn closes_sentence(s: Seq<char>) -> bool {
    s.len() > 0 && (is_sentence_end(s[0]) || is_sentence_end(s.last()))
}

/// Whether `s` begins with one of the characters that a sentence may not
/// begin with.
pub fn begins_with_punctuation(s: &str) -> (b: bool)
    ensures
        b == starts_with_punctuation(s@),
{
    let v = chars_of(s);
    v.len() > 0 && is_punctuation_char(v[0])
}

/// Whether `s` begins or ends with `.`, `?` or `!`.
pub fn ends_sentence(s: &str) -> (b: bool)
    ensures
        b == closes_sentence(s@),
{
    let v = chars_of(s);
    let n = v.len();
    if n == 0 {
        return false;
    }
    let first = v[0];
    let last = v[n - 1];
    first == '.' || first == '?' || first == '!' || last == '.' || last == '?' || last == '!'
}

/// The views of a sequence of strings.
pub open spec fn string_views(v: Seq<String>) -> Seq<Seq<char>> {
    v.map_values(|w: String| w@)
}

/// Pushing a string pushes its view.
pub proof fn lemma_string_views_push(v: Seq<String>, x: String)
    ensures
        string_views(v.push(x)) == string_views(v).push(x@),
{
    assert(string_views(v.push(x)) =~= string_views(v).push(x@));
}

/// `words` written one after another with `sep` between each two, as
/// `[T]::join` writes them.
pub open spec fn join_words(words: Seq<Seq<char>>, sep: Seq<char>) -> Seq<char>
    decreases words.len(),
{
    if words.len() == 0 {
        Seq::empty()
    } else if words.len() == 1 {
        words[0]
    } else {
        join_words(words.drop_last(), sep) + sep + words.last()
    }
}

/// The words joined by single spaces.
pub fn join_with_spaces(words: &Vec<String>) -> (r: String)
    ensures
        r@ == join_words(string_views(words@), seq![' ']),
{
    let ghost all = string_views(words@);
    let mut r = String::new();
    let n = words.len();
    let mut i: usize = 0;
    proof {
        reveal_strlit(" ");
    }
    while i < n
        invariant
            n == words@.len(),
            i <= n,
            all == string_views(words@),
            " "@ == seq![' '],
            r@ == join_words(all.take(i as int), seq![' ']),
        decreases n - i,
    {
        assert(all.take(i + 1).drop_last() =~= all.take(i as int));
        if i > 0 {
            r.append(" ");
        } else {
            assert(r@ =~= Seq::<char>::empty());
        }
        r.append(words[i].as_str());
        assert(all.take(i + 1).last() == words@[i as int]@);
        i = i + 1;
    }
    assert(all.take(n as int) =~= all);
    r
}

} // verus!
