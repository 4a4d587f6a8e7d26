//! Text helpers shared by the command parser and the message builders.

use vstd::prelude::*;
use vstd::string::*;

verus! {

/// Whether `c` counts as whitespace when a chat message is cut into tokens.
pub uninterp spec fn is_whitespace_char(c: char) -> bool;

/// `char::is_whitespace` of the standard library: true exactly for the
/// characters with the Unicode `White_Space` property. The table is not
/// restated here; the result is known only as `is_whitespace_char(c)`.
#[verifier::external_body]
pub(crate) fn char_is_whitespace(c: char) -> (b: bool)
    ensures
        b == is_whitespace_char(c),
{
    c.is_whitespace()
}

/// State of a left-to-right scan: the tokens already closed, and the
/// characters of the token that is still open.
pub open spec fn scan(s: Seq<char>) -> (Seq<Seq<char>>, Seq<char>)
    decreases s.len(),
{
    if s.len() == 0 {
        (Seq::empty(), Seq::empty())
    } else {
        let (done, cur) = scan(s.drop_last());
        if is_whitespace_char(s.last()) {
            if cur.len() > 0 {
                (done.push(cur), Seq::empty())
            } else {
                (done, cur)
            }
        } else {
            (done, cur.push(s.last()))
        }
    }
}

/// The maximal runs of non-whitespace characters of `s`, in order.
pub open spec fn tokens(s: Seq<char>) -> Seq<Seq<char>> {
    let (done, cur) = scan(s);
    if cur.len() > 0 {
        done.push(cur)
    } else {
        done
    }
}

/// The views of a vector of strings.
pub open spec fn views(v: Seq<String>) -> Seq<Seq<char>> {
    v.map_values(|s: String| s@)
}

/// The view of an optional string slice.
pub open spec fn opt_str(s: Option<&str>) -> Option<Seq<char>> {
    match s {
        Some(t) => Some(t@),
        None => None,
    }
}

/// Equality of two string slices, character by character.
pub fn str_eq(a: &str, b: &str) -> (r: bool)
    ensures
        r == (a@ == b@),
{
    a.to_owned() == b.to_owned()
}

/// Cuts `s` at whitespace, as `tokens` states.
pub fn split_whitespace(s: &str) -> (out: Vec<String>)
    ensures
        views(out@) == tokens(s@),
{
    let n = s.unicode_len();
    let mut out: Vec<String> = Vec::new();
    let mut start: usize = 0;
    let mut i: usize = 0;
    assert(s@.take(0) =~= Seq::<char>::empty());
    assert(views(out@) =~= Seq::<Seq<char>>::empty());
    assert(s@.subrange(0, 0) =~= Seq::<char>::empty());
    for c in it: s.chars()
        invariant
            it.seq() == s@,
            n == s@.len(),
            i == it.index(),
            start <= i <= n,
            scan(s@.take(i as int)) == (views(out@), s@.subrange(start as int, i as int)),
    {
        let ghost prev = s@.take(i as int);
        let ghost next = s@.take(i + 1);
        assert(next.drop_last() =~= prev);
        assert(next.last() == c);
        if char_is_whitespace(c) {
            if start < i {
                let word = s.substring_char(start, i);
                let ghost before = out@;
                out.push(word.to_owned());
                assert(views(out@) =~= views(before).push(s@.subrange(start as int, i as int)));
            }
            start = i + 1;
            assert(s@.subrange(start as int, start as int) =~= Seq::<char>::empty());
        } else {
            assert(s@.subrange(start as int, i + 1) =~= s@.subrange(start as int, i as int).push(
                c,
            ));
        }
        i = i + 1;
    }
    assert(s@.take(n as int) =~= s@);
    if start < n {
        let word = s.substring_char(start, n);
        let ghost before = out@;
        out.push(word.to_owned());
        assert(views(out@) =~= views(before).push(s@.subrange(start as int, n as int)));
    }
    out
}


/// `a` followed by `b`.
pub fn concat2(a: &str, b: &str) -> (r: String)
    ensures
        r@ == a@ + b@,
{
    let mut r = String::from_str(a);
    r.append(b);
    r
}

/// `a`, `b` and `c` in a row.
pub fn concat3(a: &str, b: &str, c: &str) -> (r: String)
    ensures
        r@ == a@ + b@ + c@,
{
    let mut r = String::from_str(a);
    r.append(b);
    r.append(c);
    r
}

/// `a`, `b`, `c` and `d` in a row.
pub fn concat4(a: &str, b: &str, c: &str, d: &str) -> (r: String)
    ensures
        r@ == a@ + b@ + c@ + d@,
{
    let mut r = String::from_str(a);
    r.append(b);
    r.append(c);
    r.append(d);
    r
}

/// `a`, `b`, `c`, `d` and `e` in a row.
pub fn concat5(a: &str, b: &str, c: &str, d: &str, e: &str) -> (r: String)
    ensures
        r@ == a@ + b@ + c@ + d@ + e@,
{
    let mut r = String::from_str(a);
    r.append(b);
    r.append(c);
    r.append(d);
    r.append(e);
    r
}


/// The numeral of one decimal digit.
pub open spec fn digit(d: nat) -> Seq<char> {
    if d == 0 {
        "0"@
    } else if d == 1 {
        "1"@
    } else if d == 2 {
        "2"@
    } else if d == 3 {
        "3"@
    } else if d == 4 {
        "4"@
    } else if d == 5 {
        "5"@
    } else if d == 6 {
        "6"@
    } else if d == 7 {
        "7"@
    } else if d == 8 {
        "8"@
    } else {
        "9"@
    }
}

/// The decimal numeral of `n`, without leading zeros.
pub open spec fn decimal(n: nat) -> Seq<char>
    decreases n,
{
    if n < 10 {
        digit(n)
    } else {
        decimal(n / 10) + digit(n % 10)
    }
}

/// The decimal numeral of `n`, with a minus sign where `n` is negative.
pub open spec fn signed_decimal(n: int) -> Seq<char> {
    if n < 0 {
        "-"@ + decimal((-n) as nat)
    } else {
        decimal(n as nat)
    }
}

fn digit_str(d: u64) -> (r: &'static str)
    requires
        d < 10,
    ensures
        r@ == digit(d as nat),
{
    if d == 0 {
        "0"
    } else if d == 1 {
        "1"
    } else if d == 2 {
        "2"
    } else if d == 3 {
        "3"
    } else if d == 4 {
        "4"
    } else if d == 5 {
        "5"
    } else if d == 6 {
        "6"
    } else if d == 7 {
        "7"
    } else if d == 8 {
        "8"
    } else {
        "9"
    }
}

/// Writes `n` in decimal.
pub fn to_decimal(n: u64) -> (r: String)
    ensures
        r@ == decimal(n as nat),
    decreases n,
{
    if n < 10 {
        String::from_str(digit_str(n))
    } else {
        let mut r = to_decimal(n / 10);
        r.append(digit_str(n % 10));
        r
    }
}

/// Writes `n` in decimal, with a minus sign where it is negative.
pub fn to_signed_decimal(n: i64) -> (r: String)
    ensures
        r@ == signed_decimal(n as int),
{
    if n < 0 {
        let magnitude: u64 = if n == i64::MIN {
            9_223_372_036_854_775_808
        } else {
            (-n) as u64
        };
        let mut r = String::from_str("-");
        r.append(to_decimal(magnitude).as_str());
        r
    } else {
        to_decimal(n as u64)
    }
}


/// State of a left-to-right scan for single spaces: the fields already
/// closed, and the characters of the field that is still open.
pub open spec fn scan_fields(s: Seq<char>) -> (Seq<Seq<char>>, Seq<char>)
    decreases s.len(),
{
    if s.len() == 0 {
        (Seq::empty(), Seq::empty())
    } else {
        let (done, cur) = scan_fields(s.drop_last());
        if s.last() == ' ' {
            (done.push(cur), Seq::empty())
        } else {
            (done, cur.push(s.last()))
        }
    }
}

/// What stands between the spaces of `s`: one field more than `s` has
/// spaces, empty fields included.
pub open spec fn fields(s: Seq<char>) -> Seq<Seq<char>> {
    let (done, cur) = scan_fields(s);
    done.push(cur)
}

/// Cuts `s` at every single space, as `fields` states.
pub fn split_on_space(s: &str) -> (out: Vec<String>)
    ensures
        views(out@) == fields(s@),
        out@.len() >= 1,
{
    let n = s.unicode_len();
    let mut out: Vec<String> = Vec::new();
    let mut start: usize = 0;
    let mut i: usize = 0;
    assert(s@.take(0) =~= Seq::<char>::empty());
    assert(views(out@) =~= Seq::<Seq<char>>::empty());
    assert(s@.subrange(0, 0) =~= Seq::<char>::empty());
    for c in it: s.chars()
        invariant
            it.seq() == s@,
            n == s@.len(),
            i == it.index(),
            start <= i <= n,
            scan_fields(s@.take(i as int)) == (views(out@), s@.subrange(start as int, i as int)),
    {
        let ghost next = s@.take(i + 1);
        assert(next.drop_last() =~= s@.take(i as int));
        assert(next.last() == c);
        if c == ' ' {
            let word = s.substring_char(start, i);
            let ghost before = out@;
            out.push(word.to_owned());
            assert(views(out@) =~= views(before).push(s@.subrange(start as int, i as int)));
            start = i + 1;
            assert(s@.subrange(start as int, start as int) =~= Seq::<char>::empty());
        } else {
            assert(s@.subrange(start as int, i + 1) =~= s@.subrange(start as int, i as int).push(
                c,
            ));
        }
        i = i + 1;
    }
    assert(s@.take(n as int) =~= s@);
    let word = s.substring_char(start, n);
    let ghost before = out@;
    out.push(word.to_owned());
    assert(views(out@) =~= views(before).push(s@.subrange(start as int, n as int)));
    out
}

/// The words of `words`, each two separated by one space.
pub open spec fn join_words(words: Seq<Seq<char>>) -> Seq<char>
    decreases words.len(),
{
    if words.len() == 0 {
        Seq::empty()
    } else if words.len() == 1 {
        words[0]
    } else {
        join_words(words.drop_last()) + " "@ + words.last()
    }
}

/// Joins the words of `words` from position `from` on by single spaces.
pub fn join_from(words: &Vec<String>, from: usize) -> (r: String)
    ensures
        r@ == join_words(
            if from <= words@.len() {
                views(words@).skip(from as int)
            } else {
                Seq::empty()
            },
        ),
{
    if from >= words.len() {
        if from == words.len() {
            assert(views(words@).skip(from as int) =~= Seq::<Seq<char>>::empty());
        }
        return String::new();
    }
    let ghost rest = views(words@).skip(from as int);
    let mut r = words[from].clone();
    let mut j: usize = from + 1;
    assert(rest.take(1) =~= seq![rest[0]]);
    while j < words.len()
        invariant
            from < j <= words.len(),
            rest == views(words@).skip(from as int),
            r@ == join_words(rest.take(j - from)),
        decreases words.len() - j,
    {
        r.append(" ");
        r.append(words[j].as_str());
        proof {
            let next = rest.take(j - from + 1);
            assert(next.drop_last() =~= rest.take(j - from));
            assert(next.last() == words[j as int]@);
        }
        j = j + 1;
    }
    assert(rest.take(words.len() - from) =~= rest);
    r
}


/// Whether `word` is not empty and holds no whitespace.
pub open spec fn is_word(word: Seq<char>) -> bool {
    word.len() > 0 && forall|j: int| 0 <= j < word.len() ==> !is_whitespace_char(#[trigger] word[j])
}

/// What a scan has closed are words, and what it holds open has no
/// whitespace in it.
pub proof fn lemma_scan_yields_words(s: Seq<char>)
    ensures
        forall|i: int| 0 <= i < scan(s).0.len() ==> is_word(#[trigger] scan(s).0[i]),
        forall|j: int| 0 <= j < scan(s).1.len() ==> !is_whitespace_char(#[trigger] scan(s).1[j]),
    decreases s.len(),
{
    if s.len() > 0 {
        lemma_scan_yields_words(s.drop_last());
        let (done, cur) = scan(s.drop_last());
        if is_whitespace_char(s.last()) && cur.len() > 0 {
            assert forall|i: int| 0 <= i < scan(s).0.len() implies is_word(
                #[trigger] scan(s).0[i],
            ) by {
                if i < done.len() {
                    assert(scan(s).0[i] == done[i]);
                } else {
                    assert(scan(s).0[i] == cur);
                }
            }
        }
    }
}

/// Every token is a word: it is not empty and holds no whitespace.
pub proof fn lemma_tokens_are_words(s: Seq<char>)
    ensures
        forall|i: int| 0 <= i < tokens(s).len() ==> is_word(#[trigger] tokens(s)[i]),
{
    lemma_scan_yields_words(s);
    let (done, cur) = scan(s);
    assert forall|i: int| 0 <= i < tokens(s).len() implies is_word(#[trigger] tokens(s)[i]) by {
        if i < done.len() {
            assert(tokens(s)[i] == done[i]);
        } else {
            assert(tokens(s)[i] == cur);
        }
    }
}

/// A line without whitespace is one open run; a line of nothing but
/// whitespace leaves nothing open and nothing closed.
pub proof fn lemma_scan_of_plain_lines(s: Seq<char>)
    ensures
        (forall|j: int| 0 <= j < s.len() ==> !is_whitespace_char(#[trigger] s[j])) ==> scan(s) == (
            Seq::<Seq<char>>::empty(),
            s,
        ),
        (forall|j: int| 0 <= j < s.len() ==> is_whitespace_char(#[trigger] s[j])) ==> scan(s) == (
            Seq::<Seq<char>>::empty(),
            Seq::<char>::empty(),
        ),
    decreases s.len(),
{
    if s.len() == 0 {
        assert(s =~= Seq::<char>::empty());
    } else {
        let front = s.drop_last();
        lemma_scan_of_plain_lines(front);
        assert forall|j: int| 0 <= j < front.len() implies front[j] == s[j] by {}
        if forall|j: int| 0 <= j < s.len() ==> !is_whitespace_char(#[trigger] s[j]) {
            assert(!is_whitespace_char(s.last()));
            assert(front.push(s.last()) =~= s);
        }
        if forall|j: int| 0 <= j < s.len() ==> is_whitespace_char(#[trigger] s[j]) {
            assert(is_whitespace_char(s.last()));
        }
    }
}

/// A line without whitespace is its own and only token; a line of
/// nothing but whitespace has none.
pub proof fn lemma_tokens_of_plain_lines(s: Seq<char>)
    ensures
        is_word(s) ==> tokens(s) == seq![s],
        (forall|j: int| 0 <= j < s.len() ==> is_whitespace_char(#[trigger] s[j])) ==> tokens(
            s,
        ).len() == 0,
{
    lemma_scan_of_plain_lines(s);
    if is_word(s) {
        assert(Seq::<Seq<char>>::empty().push(s) =~= seq![s]);
    }
}

/// Joining the fields of a line by single spaces gives the line back.
pub proof fn lemma_join_of_fields(s: Seq<char>)
    ensures
        join_words(fields(s)) == s,
    decreases s.len(),
{
    if s.len() == 0 {
        assert(fields(s) =~= seq![Seq::<char>::empty()]);
        assert(join_words(fields(s)) =~= s);
    } else {
        let front = s.drop_last();
        lemma_join_of_fields(front);
        reveal_strlit(" ");
        let (done, cur) = scan_fields(front);
        assert(fields(front) == done.push(cur));
        assert(done.push(cur).drop_last() =~= done);
        if s.last() == ' ' {
            let all = done.push(cur).push(Seq::<char>::empty());
            assert(fields(s) == all);
            assert(all.drop_last() =~= done.push(cur));
            assert(join_words(all) =~= front + " "@ + Seq::<char>::empty());
            assert(" "@ =~= seq![' ']);
            assert(front + seq![' '] =~= s);
        } else {
            let grown = cur.push(s.last());
            let all = done.push(grown);
            assert(fields(s) == all);
            assert(all.drop_last() =~= done);
            if done.len() == 0 {
                assert(join_words(done.push(cur)) == cur);
                assert(join_words(all) == grown);
                assert(grown =~= s);
            } else {
                assert(join_words(done.push(cur)) == join_words(done) + " "@ + cur);
                assert(join_words(all) == join_words(done) + " "@ + grown);
                assert(join_words(done) + " "@ + grown =~= (join_words(done) + " "@ + cur).push(
                    s.last(),
                ));
                assert(front.push(s.last()) =~= s);
            }
        }
    }
}

} // verus!
