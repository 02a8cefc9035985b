//! Small text-building blocks shared by the code generator: decimal
//! rendering of counters and sizes, joining fragments with a separator,
//! and a substring-containment predicate used to state properties of the
//! emitted intermediate representation.

use vstd::prelude::*;

verus! {

/// The decimal digit character for a value below ten.
pub open spec fn digit_char(d: nat) -> char {
    if d == 0 {
        '0'
    } else if d == 1 {
        '1'
    } else if d == 2 {
        '2'
    } else if d == 3 {
        '3'
    } else if d == 4 {
        '4'
    } else if d == 5 {
        '5'
    } else if d == 6 {
        '6'
    } else if d == 7 {
        '7'
    } else if d == 8 {
        '8'
    } else {
        '9'
    }
}

/// The usual decimal rendering of a natural number, most significant
/// digit first, with no leading zeros (zero itself is "0").
pub open spec fn digits_of(n: nat) -> Seq<char>
    decreases n,
{
    if n < 10 {
        seq![digit_char(n)]
    } else {
        digits_of(n / 10).push(digit_char(n % 10))
    }
}

/// A decimal rendering is never empty, and has at least two characters
/// from ten upward.
pub proof fn lemma_digits_len(n: nat)
    ensures
        digits_of(n).len() >= 1,
        n >= 10 ==> digits_of(n).len() >= 2,
    decreases n,
{
    if n >= 10 {
        lemma_digits_len(n / 10);
    }
}

/// Distinct numbers render to distinct digit strings.
pub proof fn lemma_digits_injective(a: nat, b: nat)
    requires
        digits_of(a) == digits_of(b),
    ensures
        a == b,
    decreases a + b,
{
    lemma_digits_len(a);
    lemma_digits_len(b);
    if a < 10 && b < 10 {
        assert(digits_of(a) == seq![digit_char(a)]);
        assert(digits_of(b) == seq![digit_char(b)]);
        assert(seq![digit_char(a)][0] == digit_char(a));
        assert(seq![digit_char(b)][0] == digit_char(b));
        assert(digits_of(a)[0] == digits_of(b)[0]);
        assert(digit_char(a) == digit_char(b));
        assert(a == b);
    } else if a < 10 {
        assert(digits_of(a).len() == 1);
        assert(false);
    } else if b < 10 {
        assert(digits_of(b).len() == 1);
        assert(false);
    } else {
        let da = digits_of(a);
        let db = digits_of(b);
        assert(da == digits_of(a / 10).push(digit_char(a % 10)));
        assert(db == digits_of(b / 10).push(digit_char(b % 10)));
        assert(da.last() == digit_char(a % 10));
        assert(db.last() == digit_char(b % 10));
        assert(digit_char(a % 10) == digit_char(b % 10));
        assert(a % 10 == b % 10);
        assert(da.drop_last() =~= digits_of(a / 10));
        assert(db.drop_last() =~= digits_of(b / 10));
        assert(digits_of(a / 10) == digits_of(b / 10));
        lemma_digits_injective(a / 10, b / 10);
        vstd::arithmetic::div_mod::lemma_fundamental_div_mod(a as int, 10);
        vstd::arithmetic::div_mod::lemma_fundamental_div_mod(b as int, 10);
        assert(a == 10 * (a / 10) + a % 10);
        assert(b == 10 * (b / 10) + b % 10);
    }
}

/// The single-character string for a digit.
fn digit_str(d: u64) -> (r: &'static str)
    requires
        d < 10,
    ensures
        r@ == seq![digit_char(d as nat)],
{
    let r: &'static str = if d == 0 {
        "0"
    } else if d == 1 {
        "1"
    } else if d == 2 {
        "2"
    } else if d == 3 {
        "3"
    } else if d == 4 {
        "4"
    } else if d == 5 {
        "5"
    } else if d == 6 {
        "6"
    } else if d == 7 {
        "7"
    } else if d == 8 {
        "8"
    } else {
        "9"
    };
    proof {
        reveal_strlit("0");
        reveal_strlit("1");
        reveal_strlit("2");
        reveal_strlit("3");
        reveal_strlit("4");
        reveal_strlit("5");
        reveal_strlit("6");
        reveal_strlit("7");
        reveal_strlit("8");
        reveal_strlit("9");
        assert(r@ =~= seq![digit_char(d as nat)]);
    }
    r
}

/// Renders a number in decimal.
pub fn u64_to_string(n: u64) -> (s: String)
    ensures
        s@ == digits_of(n as nat),
    decreases n,
{
    if n < 10 {
        digit_str(n).to_owned()
    } else {
        let mut s = u64_to_string(n / 10);
        s.append(digit_str(n % 10));
        proof {
            assert(s@ =~= digits_of(n as nat));
        }
        s
    }
}

/// Renders a size in decimal.
pub fn usize_to_string(n: usize) -> (s: String)
    ensures
        s@ == digits_of(n as nat),
{
    u64_to_string(n as u64)
}

/// The fragments joined with the separator between consecutive ones.
pub open spec fn join_texts(items: Seq<Seq<char>>, sep: Seq<char>) -> Seq<char>
    decreases items.len(),
{
    if items.len() == 0 {
        Seq::empty()
    } else if items.len() == 1 {
        items[0]
    } else {
        items[0] + sep + join_texts(items.drop_first(), sep)
    }
}

/// Appending one more fragment extends the join by a separator and the
/// fragment (or is the fragment itself when nothing was joined yet).
pub proof fn lemma_join_push(items: Seq<Seq<char>>, sep: Seq<char>, x: Seq<char>)
    ensures
        join_texts(items.push(x), sep) == if items.len() == 0 {
            x
        } else {
            join_texts(items, sep) + sep + x
        },
    decreases items.len(),
{
    if items.len() == 0 {
        assert(items.push(x).len() == 1);
        assert(join_texts(items.push(x), sep) == items.push(x)[0]);
    } else {
        assert(items.push(x).drop_first() =~= items.drop_first().push(x));
        lemma_join_push(items.drop_first(), sep, x);
        if items.len() == 1 {
            assert(join_texts(items.push(x), sep) == items[0] + sep + x);
        } else {
            assert(join_texts(items, sep) + sep + x =~= items[0] + sep + (join_texts(
                items.drop_first(),
                sep,
            ) + sep + x));
        }
    }
}

/// Joins the strings with the separator between consecutive ones.
pub fn join_strings(items: &Vec<String>, sep: &str) -> (r: String)
    ensures
        r@ == join_texts(items@.map_values(|s: String| s@), sep@),
{
    let ghost views = items@.map_values(|s: String| s@);
    let mut r = String::new();
    let mut i: usize = 0;
    while i < items.len()
        invariant
            0 <= i <= items@.len(),
            views == items@.map_values(|s: String| s@),
            r@ == join_texts(views.take(i as int), sep@),
        decreases items@.len() - i,
    {
        if i > 0 {
            r.append(sep);
        }
        r.append(items[i].as_str());
        proof {
            assert(views.take(i + 1 as int) =~= views.take(i as int).push(views[i as int]));
            lemma_join_push(views.take(i as int), sep@, views[i as int]);
        }
        i = i + 1;
    }
    proof {
        assert(views.take(items@.len() as int) =~= views);
    }
    r
}

/// The needle occurs in the haystack starting at position `i`.
pub open spec fn contains_at(hay: Seq<char>, i: int, needle: Seq<char>) -> bool {
    0 <= i && i + needle.len() <= hay.len() && hay.subrange(i, i + needle.len()) == needle
}

/// The needle occurs somewhere in the haystack.
pub open spec fn text_contains(hay: Seq<char>, needle: Seq<char>) -> bool {
    exists|i: int| contains_at(hay, i, needle)
}

/// The ten decimal digit characters.
pub open spec fn is_decimal_digit(c: char) -> bool {
    c == '0' || c == '1' || c == '2' || c == '3' || c == '4' || c == '5' || c == '6' || c == '7'
        || c == '8' || c == '9'
}

/// Every character of a decimal rendering is a digit.
pub proof fn lemma_digits_chars(n: nat)
    ensures
        forall|j: int|
            0 <= j < digits_of(n).len() ==> is_decimal_digit(#[trigger] digits_of(n)[j]),
    decreases n,
{
    if n < 10 {
        assert(digits_of(n)[0] == digit_char(n));
    } else {
        lemma_digits_chars(n / 10);
        assert forall|j: int|
            0 <= j < digits_of(n).len() implies is_decimal_digit(#[trigger] digits_of(n)[j]) by {
            if j < digits_of(n / 10).len() {
                assert(digits_of(n)[j] == digits_of(n / 10)[j]);
            } else {
                assert(digits_of(n)[j] == digit_char(n % 10));
            }
        }
    }
}

/// No character of `s` is `ch`.
pub open spec fn char_free(s: Seq<char>, ch: char) -> bool {
    forall|j: int| 0 <= j < s.len() ==> (#[trigger] s[j]) != ch
}

/// Nowhere in `s` does `a` stand immediately before `b`.
pub open spec fn pair_free(s: Seq<char>, a: char, b: char) -> bool {
    forall|j: int| 0 <= j && j + 1 < s.len() ==> !((#[trigger] s[j]) == a && s[j + 1] == b)
}

/// A decimal rendering holds digits only, so it is free of any other
/// character.
pub proof fn lemma_digits_char_free(n: nat, ch: char)
    requires
        !is_decimal_digit(ch),
    ensures
        char_free(digits_of(n), ch),
{
    lemma_digits_chars(n);
}

/// Freedom from a character survives concatenation.
pub proof fn lemma_char_free_concat(x: Seq<char>, y: Seq<char>, ch: char)
    requires
        char_free(x, ch),
        char_free(y, ch),
    ensures
        char_free(x + y, ch),
{
    assert forall|j: int| 0 <= j < (x + y).len() implies ((#[trigger] (x + y)[j]) != ch) by {
        if j < x.len() {
            assert((x + y)[j] == x[j]);
        } else {
            assert((x + y)[j] == y[j - x.len()]);
        }
    }
}

/// A text free of a pattern's first character is free of the pattern.
pub proof fn lemma_char_free_pair_free(s: Seq<char>, a: char, b: char)
    requires
        char_free(s, a),
    ensures
        pair_free(s, a, b),
{
    assert forall|j: int|
        0 <= j && j + 1 < s.len() implies !((#[trigger] s[j]) == a && s[j + 1] == b) by {
        assert(s[j] != a);
    }
}

/// Freedom from a two-character pattern survives concatenation when the
/// pattern does not arise across the boundary.
pub proof fn lemma_pair_free_concat(x: Seq<char>, y: Seq<char>, a: char, b: char)
    requires
        pair_free(x, a, b),
        pair_free(y, a, b),
        x.len() > 0 && y.len() > 0 ==> !(x.last() == a && y[0] == b),
    ensures
        pair_free(x + y, a, b),
{
    assert forall|j: int|
        0 <= j && j + 1 < (x + y).len() implies !((#[trigger] (x + y)[j]) == a && (x + y)[j + 1]
        == b) by {
        if j + 1 < x.len() {
            assert((x + y)[j] == x[j]);
            assert((x + y)[j + 1] == x[j + 1]);
        } else if j < x.len() {
            assert((x + y)[j] == x[j]);
            assert(x[j] == x.last());
            assert((x + y)[j + 1] == y[0]);
        } else {
            assert((x + y)[j] == y[j - x.len()]);
            assert((x + y)[j + 1] == y[j + 1 - x.len()]);
        }
    }
}

/// A needle with a character the haystack is free of occurs nowhere in it.
pub proof fn lemma_char_free_excludes(hay: Seq<char>, needle: Seq<char>, ch: char, k: int)
    requires
        char_free(hay, ch),
        0 <= k < needle.len(),
        needle[k] == ch,
    ensures
        !text_contains(hay, needle),
{
    if text_contains(hay, needle) {
        let i = choose|i: int| contains_at(hay, i, needle);
        assert(hay.subrange(i, i + needle.len() as int)[k] == needle[k]);
        assert(hay[i + k] == ch);
    }
}

/// A needle with a two-character pattern the haystack is free of occurs
/// nowhere in it.
pub proof fn lemma_pair_free_excludes(hay: Seq<char>, needle: Seq<char>, a: char, b: char, k: int)
    requires
        pair_free(hay, a, b),
        0 <= k,
        k + 1 < needle.len(),
        needle[k] == a,
        needle[k + 1] == b,
    ensures
        !text_contains(hay, needle),
{
    if text_contains(hay, needle) {
        let i = choose|i: int| contains_at(hay, i, needle);
        assert(hay.subrange(i, i + needle.len() as int)[k] == needle[k]);
        assert(hay.subrange(i, i + needle.len() as int)[k + 1] == needle[k + 1]);
        assert(hay[i + k] == a);
        assert(hay[i + k + 1] == b);
    }
}

/// Every text occurs in itself.
pub proof fn lemma_contains_self(s: Seq<char>)
    ensures
        text_contains(s, s),
{
    assert(contains_at(s, 0, s)) by {
        assert(s.subrange(0, s.len() as int) =~= s);
    }
}

/// A fragment occurs in any concatenation that carries it whole.
pub proof fn lemma_contains_mid(a: Seq<char>, m: Seq<char>, b: Seq<char>)
    ensures
        text_contains(a + m + b, m),
{
    assert(contains_at(a + m + b, a.len() as int, m)) by {
        assert((a + m + b).subrange(a.len() as int, a.len() + m.len() as int) =~= m);
    }
}

/// Containment survives extension on either side.
pub proof fn lemma_contains_extend(a: Seq<char>, b: Seq<char>, needle: Seq<char>)
    requires
        text_contains(a, needle) || text_contains(b, needle),
    ensures
        text_contains(a + b, needle),
{
    if text_contains(a, needle) {
        let i = choose|i: int| contains_at(a, i, needle);
        assert(contains_at(a + b, i, needle)) by {
            assert((a + b).subrange(i, i + needle.len()) =~= a.subrange(i, i + needle.len()));
        }
    } else {
        let i = choose|i: int| contains_at(b, i, needle);
        assert(contains_at(a + b, a.len() + i, needle)) by {
            assert((a + b).subrange(a.len() + i, a.len() + i + needle.len()) =~= b.subrange(
                i,
                i + needle.len(),
            ));
        }
    }
}

} // verus!
