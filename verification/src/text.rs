//! Text helpers shared by the other modules: Unicode lowercasing (through
//! `str::to_lowercase`), character-wise comparison and decimal rendering.

use vstd::prelude::*;
use vstd::relations::{sorted_by, total_ordering};

verus! {

/// The Unicode lowercase mapping of a string, as `str::to_lowercase` computes it.
pub uninterp spec fn unicode_lowercase(s: Seq<char>) -> Seq<char>;

/// A character with ASCII `A..=Z` mapped to `a..=z`; every other character
/// unchanged.
pub open spec fn ascii_lower_char(c: char) -> char {
    if 'A' <= c && c <= 'Z' {
        ((c as u32) + 32) as char
    } else {
        c
    }
}

/// A character with ASCII `a..=z` mapped to `A..=Z`; every other character
/// unchanged.
pub open spec fn ascii_upper_char(c: char) -> char {
    if 'a' <= c && c <= 'z' {
        ((c as u32) - 32) as char
    } else {
        c
    }
}

/// The text with its ASCII letters lowercased (as `str::to_ascii_lowercase`).
pub open spec fn ascii_lowercase(s: Seq<char>) -> Seq<char> {
    s.map_values(|c: char| ascii_lower_char(c))
}

/// The text with its ASCII letters uppercased (as `str::to_ascii_uppercase`).
pub open spec fn ascii_uppercase(s: Seq<char>) -> Seq<char> {
    s.map_values(|c: char| ascii_upper_char(c))
}

/// Whether every character of the text is ASCII.
pub open spec fn is_ascii_text(s: Seq<char>) -> bool {
    forall|i: int| 0 <= i < s.len() ==> #[trigger] s[i] <= '\x7f'
}

/// Calls `str::to_lowercase`; the result is named `unicode_lowercase` of the
/// input.  Unicode lowercasing maps each ASCII letter to its ASCII lowercase
/// form and leaves other ASCII characters alone, and `A..=Z` and `a..=z` are
/// alike cased letters for the context rule of final sigma; so the result is
/// the same whatever the case of the ASCII letters of the input, and for an
/// ASCII input it is the ASCII lowercase of it.
#[verifier::external_body]
pub fn to_lowercase(s: &str) -> (r: String)
    ensures
        r@ == unicode_lowercase(s@),
        r@ == unicode_lowercase(ascii_lowercase(s@)),
        is_ascii_text(s@) ==> r@ == ascii_lowercase(s@),
{
    s.to_lowercase()
}

/// Law: lowercasing the ASCII letters of an ASCII-uppercased or
/// ASCII-lowercased text gives the same text as lowercasing them in the
/// text itself.
pub proof fn lemma_ascii_case_folds(s: Seq<char>)
    ensures
        ascii_lowercase(ascii_uppercase(s)) == ascii_lowercase(s),
        ascii_lowercase(ascii_lowercase(s)) == ascii_lowercase(s),
{
    assert(ascii_lowercase(ascii_uppercase(s)) =~= ascii_lowercase(s));
    assert(ascii_lowercase(ascii_lowercase(s)) =~= ascii_lowercase(s));
}

/// Character-wise equality of two string slices.
pub fn same_text(a: &str, b: &str) -> (r: bool)
    ensures
        r == (a@ == b@),
{
    let n = a.unicode_len();
    if n != b.unicode_len() {
        return false;
    }
    let mut i: usize = 0;
    while i < n
        invariant
            n == a@.len(),
            n == b@.len(),
            i <= n,
            forall|j: int| 0 <= j < i ==> a@[j] == b@[j],
        decreases n - i,
    {
        if a.get_char(i) != b.get_char(i) {
            return false;
        }
        i = i + 1;
    }
    assert(a@ =~= b@);
    true
}

} // verus!

verus! {

/// The character `'0'..='9'` for a digit value below ten.
pub open spec fn digit_char(d: nat) -> char {
    if d == 0 { '0' }
    else if d == 1 { '1' }
    else if d == 2 { '2' }
    else if d == 3 { '3' }
    else if d == 4 { '4' }
    else if d == 5 { '5' }
    else if d == 6 { '6' }
    else if d == 7 { '7' }
    else if d == 8 { '8' }
    else { '9' }
}

/// Decimal rendering of a natural number, most significant digit first, without
/// leading zeros (`0` renders as `"0"`).
pub open spec fn decimal(n: nat) -> Seq<char>
    decreases n,
{
    if n < 10 {
        seq![digit_char(n)]
    } else {
        decimal(n / 10).push(digit_char(n % 10))
    }
}

fn digit_text(d: u64) -> (r: &'static str)
    requires
        d < 10,
    ensures
        r@ == seq![digit_char(d as nat)],
{
    if d == 0 {
        proof { reveal_strlit("0"); }
        assert("0"@ =~= seq!['0']);
        "0"
    } else if d == 1 {
        proof { reveal_strlit("1"); }
        assert("1"@ =~= seq!['1']);
        "1"
    } else if d == 2 {
        proof { reveal_strlit("2"); }
        assert("2"@ =~= seq!['2']);
        "2"
    } else if d == 3 {
        proof { reveal_strlit("3"); }
        assert("3"@ =~= seq!['3']);
        "3"
    } else if d == 4 {
        proof { reveal_strlit("4"); }
        assert("4"@ =~= seq!['4']);
        "4"
    } else if d == 5 {
        proof { reveal_strlit("5"); }
        assert("5"@ =~= seq!['5']);
        "5"
    } else if d == 6 {
        proof { reveal_strlit("6"); }
        assert("6"@ =~= seq!['6']);
        "6"
    } else if d == 7 {
        proof { reveal_strlit("7"); }
        assert("7"@ =~= seq!['7']);
        "7"
    } else if d == 8 {
        proof { reveal_strlit("8"); }
        assert("8"@ =~= seq!['8']);
        "8"
    } else {
        proof { reveal_strlit("9"); }
        assert("9"@ =~= seq!['9']);
        "9"
    }
}

/// Appends the decimal rendering of `n` to `out`.
pub fn push_decimal(out: &mut String, n: u64)
    ensures
        final(out)@ == old(out)@ + decimal(n as nat),
    decreases n,
{
    if n >= 10 {
        push_decimal(out, n / 10);
    }
    out.append(digit_text(n % 10));
    assert(out@ =~= old(out)@ + decimal(n as nat));
}

/// The decimal rendering of `n` as a new string.
pub fn decimal_text(n: u64) -> (r: String)
    ensures
        r@ == decimal(n as nat),
{
    let mut s = String::new();
    push_decimal(&mut s, n);
    assert(s@ =~= decimal(n as nat));
    s
}

} // verus!

verus! {

/// Lexicographic order on texts by character code points: `a` comes no later
/// than `b`.  For valid UTF-8 this is the same order as comparing the bytes.
pub open spec fn text_le(a: Seq<char>, b: Seq<char>) -> bool
    decreases a.len(),
{
    if a.len() == 0 {
        true
    } else if b.len() == 0 {
        false
    } else if a[0] != b[0] {
        a[0] < b[0]
    } else {
        text_le(a.drop_first(), b.drop_first())
    }
}

/// `text_le` as a relation value, for `Seq::sort_by` and `sorted_by`.
pub open spec fn text_order() -> spec_fn(Seq<char>, Seq<char>) -> bool {
    |a: Seq<char>, b: Seq<char>| text_le(a, b)
}

proof fn lemma_text_le_reflexive(a: Seq<char>)
    ensures
        text_le(a, a),
    decreases a.len(),
{
    if a.len() > 0 {
        lemma_text_le_reflexive(a.drop_first());
    }
}

proof fn lemma_text_le_antisymmetric(a: Seq<char>, b: Seq<char>)
    requires
        text_le(a, b),
        text_le(b, a),
    ensures
        a == b,
    decreases a.len(),
{
    if a.len() == 0 {
        assert(b.len() == 0);
        assert(a =~= b);
    } else {
        assert(b.len() > 0);
        assert(a[0] == b[0]);
        lemma_text_le_antisymmetric(a.drop_first(), b.drop_first());
        assert(a =~= seq![a[0]] + a.drop_first());
        assert(b =~= seq![b[0]] + b.drop_first());
    }
}

proof fn lemma_text_le_transitive(a: Seq<char>, b: Seq<char>, c: Seq<char>)
    requires
        text_le(a, b),
        text_le(b, c),
    ensures
        text_le(a, c),
    decreases a.len(),
{
    if a.len() > 0 {
        assert(b.len() > 0);
        assert(c.len() > 0);
        if a[0] == b[0] && b[0] == c[0] {
            lemma_text_le_transitive(a.drop_first(), b.drop_first(), c.drop_first());
        }
    }
}

proof fn lemma_text_le_total(a: Seq<char>, b: Seq<char>)
    ensures
        text_le(a, b) || text_le(b, a),
    decreases a.len(),
{
    if a.len() > 0 && b.len() > 0 && a[0] == b[0] {
        lemma_text_le_total(a.drop_first(), b.drop_first());
    }
}

/// Law: `text_le` is a total order (reflexive, antisymmetric, transitive and
/// total), so sorting by it is well defined.
pub proof fn lemma_text_order_total()
    ensures
        total_ordering(text_order()),
{
    assert forall|x: Seq<char>| #[trigger] text_order()(x, x) by {
        lemma_text_le_reflexive(x);
    }
    assert forall|x: Seq<char>, y: Seq<char>|
        #[trigger] text_order()(x, y) && #[trigger] text_order()(y, x) implies x == y by {
        lemma_text_le_antisymmetric(x, y);
    }
    assert forall|x: Seq<char>, y: Seq<char>, z: Seq<char>|
        #[trigger] text_order()(x, y) && #[trigger] text_order()(y, z) implies text_order()(x, z) by {
        lemma_text_le_transitive(x, y, z);
    }
    assert forall|x: Seq<char>, y: Seq<char>|
        #[trigger] text_order()(x, y) || #[trigger] text_order()(y, x) by {
        lemma_text_le_total(x, y);
    }
}

/// Whether `a` comes no later than `b` in `text_le` order.
pub fn text_le_exec(a: &str, b: &str) -> (r: bool)
    ensures
        r == text_le(a@, b@),
{
    let na = a.unicode_len();
    let nb = b.unicode_len();
    let mut i: usize = 0;
    assert(a@.skip(0) =~= a@);
    assert(b@.skip(0) =~= b@);
    while i < na && i < nb
        invariant
            na == a@.len(),
            nb == b@.len(),
            i <= na,
            i <= nb,
            text_le(a@, b@) == text_le(a@.skip(i as int), b@.skip(i as int)),
        decreases na - i,
    {
        let ca = a.get_char(i);
        let cb = b.get_char(i);
        if ca != cb {
            return ca < cb;
        }
        proof {
            assert(a@.skip(i as int).drop_first() =~= a@.skip(i + 1));
            assert(b@.skip(i as int).drop_first() =~= b@.skip(i + 1));
        }
        i = i + 1;
    }
    i == na
}

/// The views of a vector of strings.
pub open spec fn texts_view(v: Seq<String>) -> Seq<Seq<char>> {
    v.map_values(|s: String| s@)
}

/// Sorts strings into `text_le` order; the result is exactly the input
/// sequence sorted.
pub fn sort_texts(items: Vec<String>) -> (r: Vec<String>)
    ensures
        texts_view(r@) == texts_view(items@).sort_by(text_order()),
{
    let ghost input = texts_view(items@);
    let n = items.len();
    let mut sorted: Vec<String> = Vec::new();
    let ghost mut sv: Seq<Seq<char>> = Seq::empty();
    let mut i: usize = 0;
    proof {
        lemma_text_order_total();
        assert(input.take(0) =~= sv);
    }
    while i < n
        invariant
            n == items.len(),
            input == texts_view(items@),
            i <= n,
            sv.len() == sorted.len(),
            forall|k: int| 0 <= k < sv.len() ==> #[trigger] sv[k] == sorted@[k]@,
            sorted_by(sv, text_order()),
            sv.to_multiset() == input.take(i as int).to_multiset(),
            total_ordering(text_order()),
        decreases n - i,
    {
        let x = items[i].clone();
        let m = sorted.len();
        let mut p: usize = 0;
        while p < m && text_le_exec(sorted[p].as_str(), x.as_str())
            invariant
                m == sorted.len(),
                sv.len() == m,
                forall|k: int| 0 <= k < sv.len() ==> #[trigger] sv[k] == sorted@[k]@,
                p <= m,
                forall|k: int| 0 <= k < p ==> text_le(#[trigger] sv[k], x@),
            decreases m - p,
        {
            p = p + 1;
        }
        proof {
            assert(x@ == input[i as int]);
            let nv = sv.insert(p as int, x@);
            assert forall|a: int, b: int| 0 <= a < b < nv.len() implies #[trigger] text_order()(nv[a], nv[b]) by {
                if b < p {
                    assert(nv[a] == sv[a] && nv[b] == sv[b]);
                    assert(text_order()(sv[a], sv[b]));
                } else if b == p {
                    assert(nv[a] == sv[a]);
                } else if a == p {
                    // x comes before sv[p] (the scan stopped there) and sv[p] <= sv[b - 1]
                    assert(nv[b] == sv[b - 1]);
                    assert(!text_le(sv[p as int], x@));
                    lemma_text_le_total(sv[p as int], x@);
                    if b - 1 > p {
                        assert(text_order()(sv[p as int], sv[b - 1]));
                        lemma_text_le_transitive(x@, sv[p as int], sv[b - 1]);
                    }
                } else if a < p {
                    assert(nv[a] == sv[a] && nv[b] == sv[b - 1]);
                    assert(text_order()(sv[a], sv[b - 1]));
                } else {
                    assert(nv[a] == sv[a - 1] && nv[b] == sv[b - 1]);
                    assert(text_order()(sv[a - 1], sv[b - 1]));
                }
            }
            vstd::seq_lib::to_multiset_insert(sv, p as int, x@);
            assert(input.take(i + 1) =~= input.take(i as int).push(x@));
            vstd::seq_lib::to_multiset_build(input.take(i as int), x@);
            sv = nv;
        }
        sorted.insert(p, x);
        i = i + 1;
    }
    proof {
        assert(input.take(n as int) =~= input);
        input.lemma_sort_by_ensures(text_order());
        vstd::seq_lib::lemma_sorted_unique(sv, input.sort_by(text_order()), text_order());
        assert(texts_view(sorted@) =~= sv);
    }
    sorted
}

} // verus!

verus! {

/// Law: texts are ordered by their first differing character, by code
/// point: where `a` and `b` agree before position `i` and differ at `i`,
/// `a` comes no later than `b` exactly when `a[i] < b[i]`.
pub proof fn lemma_text_le_first_difference(a: Seq<char>, b: Seq<char>, i: int)
    requires
        0 <= i < a.len(),
        i < b.len(),
        a[i] != b[i],
        forall|k: int| 0 <= k < i ==> a[k] == b[k],
    ensures
        text_le(a, b) == (a[i] < b[i]),
    decreases i,
{
    if i > 0 {
        assert(a[0] == b[0]);
        lemma_text_le_first_difference(a.drop_first(), b.drop_first(), i - 1);
    }
}

/// Law: a text comes no later than any text it is a prefix of, and a longer
/// text never comes before its own prefix.
pub proof fn lemma_text_le_prefix(a: Seq<char>, b: Seq<char>)
    requires
        a.len() <= b.len(),
        forall|k: int| 0 <= k < a.len() ==> a[k] == b[k],
    ensures
        text_le(a, b),
        a.len() < b.len() ==> !text_le(b, a),
    decreases a.len(),
{
    if a.len() > 0 {
        lemma_text_le_prefix(a.drop_first(), b.drop_first());
    }
}

} // verus!

verus! {

/// Law: the digit of value `d` is the character `'0' + d`, and a decimal
/// rendering ends with the digit of the last place and has one more
/// character for every further factor of ten.
pub proof fn lemma_decimal_digits(n: nat)
    ensures
        n < 10 ==> decimal(n) == seq![((n + 48) as u32) as char],
        n >= 10 ==> decimal(n).last() == ((n % 10 + 48) as u32) as char && decimal(n).len() == decimal(
            n / 10,
        ).len() + 1,
{
}

} // verus!
