//! Text helpers: comparison, joining and decimal numbers.

use vstd::prelude::*;

verus! {

/// The views of a sequence of strings, in order.
pub open spec fn texts_of(strings: Seq<String>) -> Seq<Seq<char>> {
    Seq::new(strings.len(), |i: int| strings[i]@)
}

/// The parts one after another with `sep` between each two.
pub open spec fn joined(parts: Seq<Seq<char>>, sep: Seq<char>) -> Seq<char>
    decreases parts.len(),
{
    if parts.len() == 0 {
        Seq::empty()
    } else if parts.len() == 1 {
        parts[0]
    } else {
        joined(parts.drop_last(), sep) + sep + parts.last()
    }
}

/// `itertools::join` on strings: every element, in order, with `sep` between
/// each two, and the empty string where there is no element. The outside
/// function formats each element by its `Display`, which for a string is its
/// text.
#[verifier::external_body]
pub(crate) fn join_texts(parts: &Vec<String>, sep: &str) -> (text: String)
    ensures
        text@ == joined(texts_of(parts@), sep@),
{
    itertools::join(parts, sep)
}

/// Whether two texts are the same.
pub fn str_eq(a: &str, b: &str) -> (same: bool)
    ensures
        same == (a@ == b@),
{
    String::from_str(a) == String::from_str(b)
}

/// `first` followed by `second`.
pub fn concat_str(first: &str, second: &str) -> (text: String)
    ensures
        text@ == first@ + second@,
{
    let mut text = String::from_str(first);
    text.append(second);
    text
}

/// The decimal digit for `d`.
pub open spec fn digit_char(d: int) -> char {
    if d == 0 {
        '0'
    } else if d == 1 {
        '1'
    } else if d == 2 {
        '2'
    } else if d == 3 {
        '3'
    } else if d == 4 {
        '4'
    } else if d == 5 {
        '5'
    } else if d == 6 {
        '6'
    } else if d == 7 {
        '7'
    } else if d == 8 {
        '8'
    } else {
        '9'
    }
}

/// The decimal numeral of `n`, without leading zeros.
pub open spec fn decimal(n: nat) -> Seq<char>
    decreases n,
{
    if n < 10 {
        seq![digit_char(n as int)]
    } else {
        decimal(n / 10).push(digit_char((n % 10) as int))
    }
}

fn digit_str(d: u64) -> (text: &'static str)
    requires
        d < 10,
    ensures
        text@ == seq![digit_char(d as int)],
{
    if d == 0 {
        proof {
            reveal_strlit("0");
        }
        assert("0"@ =~= seq!['0']);
        "0"
    } else if d == 1 {
        proof {
            reveal_strlit("1");
        }
        assert("1"@ =~= seq!['1']);
        "1"
    } else if d == 2 {
        proof {
            reveal_strlit("2");
        }
        assert("2"@ =~= seq!['2']);
        "2"
    } else if d == 3 {
        proof {
            reveal_strlit("3");
        }
        assert("3"@ =~= seq!['3']);
        "3"
    } else if d == 4 {
        proof {
            reveal_strlit("4");
        }
        assert("4"@ =~= seq!['4']);
        "4"
    } else if d == 5 {
        proof {
            reveal_strlit("5");
        }
        assert("5"@ =~= seq!['5']);
        "5"
    } else if d == 6 {
        proof {
            reveal_strlit("6");
        }
        assert("6"@ =~= seq!['6']);
        "6"
    } else if d == 7 {
        proof {
            reveal_strlit("7");
        }
        assert("7"@ =~= seq!['7']);
        "7"
    } else if d == 8 {
        proof {
            reveal_strlit("8");
        }
        assert("8"@ =~= seq!['8']);
        "8"
    } else {
        proof {
            reveal_strlit("9");
        }
        assert("9"@ =~= seq!['9']);
        "9"
    }
}

/// The decimal numeral of `n`.
pub fn decimal_string(n: u64) -> (text: String)
    ensures
        text@ == decimal(n as nat),
    decreases n,
{
    if n < 10 {
        String::from_str(digit_str(n))
    } else {
        let mut text = decimal_string(n / 10);
        text.append(digit_str(n % 10));
        assert(text@ =~= decimal((n / 10) as nat).push(digit_char((n % 10) as int)));
        text
    }
}

/// Whether `a` comes strictly before `b` in the order of strings: at the
/// first place where they differ `a` has the smaller character, or `a` is a
/// proper prefix of `b`.
pub open spec fn text_lt(a: Seq<char>, b: Seq<char>) -> bool
    decreases a.len(),
{
    if b.len() == 0 {
        false
    } else if a.len() == 0 {
        true
    } else if a[0] != b[0] {
        a[0] < b[0]
    } else {
        text_lt(a.drop_first(), b.drop_first())
    }
}

/// Whether `a` comes strictly before `b` in the order of strings.
pub fn str_lt(a: &str, b: &str) -> (before: bool)
    ensures
        before == text_lt(a@, b@),
{
    let n = a.unicode_len();
    let m = b.unicode_len();
    let mut i: usize = 0;
    proof {
        assert(a@.skip(0) =~= a@);
        assert(b@.skip(0) =~= b@);
    }
    while i < n && i < m
        invariant
            n == a@.len(),
            m == b@.len(),
            i <= n,
            i <= m,
            text_lt(a@, b@) == text_lt(a@.skip(i as int), b@.skip(i as int)),
        decreases n - i,
    {
        let x = a.get_char(i);
        let y = b.get_char(i);
        proof {
            let ra = a@.skip(i as int);
            let rb = b@.skip(i as int);
            assert(ra[0] == x && rb[0] == y);
            assert(ra.drop_first() =~= a@.skip(i as int + 1));
            assert(rb.drop_first() =~= b@.skip(i as int + 1));
        }
        if x != y {
            return x < y;
        }
        i += 1;
    }
    proof {
        assert(a@.skip(i as int).len() == n - i);
        assert(b@.skip(i as int).len() == m - i);
    }
    i < m
}

/// Whether `c` is white space: one of the characters with the Unicode
/// property `White_Space`.
pub open spec fn is_space(c: char) -> bool {
    let u = c as u32;
    (0x09 <= u && u <= 0x0D) || u == 0x20 || u == 0x85 || u == 0xA0 || u == 0x1680 || (0x2000 <= u
        && u <= 0x200A) || u == 0x2028 || u == 0x2029 || u == 0x202F || u == 0x205F || u == 0x3000
}

/// Whether `c` is white space.
pub fn char_is_space(c: char) -> (b: bool)
    ensures
        b == is_space(c),
{
    let u = c as u32;
    (0x09 <= u && u <= 0x0D) || u == 0x20 || u == 0x85 || u == 0xA0 || u == 0x1680 || (0x2000 <= u
        && u <= 0x200A) || u == 0x2028 || u == 0x2029 || u == 0x202F || u == 0x205F || u == 0x3000
}

/// `current`, where it is a word: where it is not empty.
pub open spec fn word_of(current: Seq<char>) -> Seq<Seq<char>> {
    if current.len() > 0 {
        seq![current]
    } else {
        Seq::empty()
    }
}

/// The words of `text` from `i` on, where `current` is the part of a word
/// read so far.
pub open spec fn words_from(text: Seq<char>, i: int, current: Seq<char>) -> Seq<Seq<char>>
    decreases text.len() - i,
{
    if i < 0 || i >= text.len() {
        word_of(current)
    } else if is_space(text[i]) {
        word_of(current) + words_from(text, i + 1, Seq::empty())
    } else {
        words_from(text, i + 1, current.push(text[i]))
    }
}

/// The words of `text`: its longest parts without white space, in order.
pub open spec fn words_of(text: Seq<char>) -> Seq<Seq<char>> {
    words_from(text, 0, Seq::empty())
}

/// The words of `text`: its longest parts without white space, in order.
pub fn split_words(text: &str) -> (words: Vec<String>)
    ensures
        texts_of(words@) == words_of(text@),
{
    let n = text.unicode_len();
    let mut words: Vec<String> = Vec::new();
    let mut start: usize = 0;
    let mut i: usize = 0;
    proof {
        assert(text@.subrange(0, 0) =~= Seq::<char>::empty());
        assert(texts_of(words@) =~= Seq::<Seq<char>>::empty());
        assert(texts_of(words@) + words_from(text@, 0, Seq::empty()) =~= words_of(text@));
    }
    while i < n
        invariant
            n == text@.len(),
            start <= i <= n,
            texts_of(words@) + words_from(text@, i as int, text@.subrange(start as int, i as int))
                == words_of(text@),
        decreases n - i,
    {
        let c = text.get_char(i);
        let ghost before = texts_of(words@);
        let ghost current = text@.subrange(start as int, i as int);
        if char_is_space(c) {
            if start < i {
                let word = String::from_str(text.substring_char(start, i));
                words.push(word);
                assert(texts_of(words@) =~= before.push(current));
            }
            start = i + 1;
            proof {
                assert(text@.subrange(start as int, i as int + 1) =~= Seq::<char>::empty());
                assert(texts_of(words@) =~= before + word_of(current));
                assert(texts_of(words@) + words_from(text@, i as int + 1, Seq::empty()) =~= before
                    + (word_of(current) + words_from(text@, i as int + 1, Seq::empty())));
            }
        } else {
            proof {
                assert(text@.subrange(start as int, i as int + 1) =~= current.push(c));
            }
        }
        i += 1;
    }
    let ghost before = texts_of(words@);
    let ghost current = text@.subrange(start as int, n as int);
    if start < n {
        let word = String::from_str(text.substring_char(start, n));
        words.push(word);
        assert(texts_of(words@) =~= before.push(current));
    }
    assert(texts_of(words@) =~= before + word_of(current));
    words
}

/// The parts of `text` from `i` on that `::` separates, where `current` is
/// the part read so far.
pub open spec fn path_parts_from(text: Seq<char>, i: int, current: Seq<char>) -> Seq<Seq<char>>
    decreases text.len() - i,
{
    if i < 0 || i >= text.len() {
        seq![current]
    } else if i + 1 < text.len() && text[i] == ':' && text[i + 1] == ':' {
        seq![current] + path_parts_from(text, i + 2, Seq::empty())
    } else {
        path_parts_from(text, i + 1, current.push(text[i]))
    }
}

/// The parts of `text` that `::` separates, in order; a text without `::` is
/// its only part.
pub open spec fn path_parts_of(text: Seq<char>) -> Seq<Seq<char>> {
    path_parts_from(text, 0, Seq::empty())
}

/// The parts of `text` that `::` separates, in order.
pub fn split_path(text: &str) -> (parts: Vec<String>)
    ensures
        texts_of(parts@) == path_parts_of(text@),
{
    let n = text.unicode_len();
    let mut parts: Vec<String> = Vec::new();
    let mut start: usize = 0;
    let mut i: usize = 0;
    proof {
        assert(text@.subrange(0, 0) =~= Seq::<char>::empty());
        assert(texts_of(parts@) =~= Seq::<Seq<char>>::empty());
        assert(texts_of(parts@) + path_parts_from(text@, 0, Seq::empty()) =~= path_parts_of(
            text@,
        ));
    }
    while i < n
        invariant
            n == text@.len(),
            start <= i <= n,
            texts_of(parts@) + path_parts_from(
                text@,
                i as int,
                text@.subrange(start as int, i as int),
            ) == path_parts_of(text@),
        decreases n - i,
    {
        let ghost before = texts_of(parts@);
        let ghost current = text@.subrange(start as int, i as int);
        if i + 1 < n && text.get_char(i) == ':' && text.get_char(i + 1) == ':' {
            let part = String::from_str(text.substring_char(start, i));
            parts.push(part);
            start = i + 2;
            proof {
                assert(texts_of(parts@) =~= before.push(current));
                assert(text@.subrange(start as int, i as int + 2) =~= Seq::<char>::empty());
                assert(texts_of(parts@) + path_parts_from(text@, i as int + 2, Seq::empty())
                    =~= before + (seq![current] + path_parts_from(
                    text@,
                    i as int + 2,
                    Seq::empty(),
                )));
            }
            i += 2;
        } else {
            proof {
                assert(text@.subrange(start as int, i as int + 1) =~= current.push(
                    text@[i as int],
                ));
            }
            i += 1;
        }
    }
    let ghost before = texts_of(parts@);
    let ghost current = text@.subrange(start as int, n as int);
    let part = String::from_str(text.substring_char(start, n));
    parts.push(part);
    assert(texts_of(parts@) =~= before + seq![current]);
    parts
}

/// No text comes before itself.
pub proof fn lemma_text_lt_irreflexive(a: Seq<char>)
    ensures
        !text_lt(a, a),
    decreases a.len(),
{
    if a.len() > 0 {
        lemma_text_lt_irreflexive(a.drop_first());
    }
}

/// Of two different texts one comes before the other.
pub proof fn lemma_text_lt_total(a: Seq<char>, b: Seq<char>)
    ensures
        a == b || text_lt(a, b) || text_lt(b, a),
    decreases a.len(),
{
    if a.len() == 0 || b.len() == 0 {
        if a.len() == 0 && b.len() == 0 {
            assert(a =~= b);
        }
    } else if a[0] == b[0] {
        lemma_text_lt_total(a.drop_first(), b.drop_first());
        if a.drop_first() == b.drop_first() {
            assert(a =~= seq![a[0]] + a.drop_first());
            assert(b =~= seq![b[0]] + b.drop_first());
        } else if text_lt(a.drop_first(), b.drop_first()) {
            assert(text_lt(a, b));
        } else {
            assert(text_lt(b, a));
        }
    } else if a[0] < b[0] {
        assert(text_lt(a, b));
    } else {
        assert(text_lt(b, a));
    }
}

/// The order of texts is transitive.
pub proof fn lemma_text_lt_transitive(a: Seq<char>, b: Seq<char>, c: Seq<char>)
    requires
        text_lt(a, b),
        text_lt(b, c),
    ensures
        text_lt(a, c),
    decreases a.len(),
{
    if a.len() > 0 {
        if a[0] == b[0] && b[0] == c[0] {
            lemma_text_lt_transitive(a.drop_first(), b.drop_first(), c.drop_first());
        }
    }
}

/// Whether `texts` is in strictly ascending order: each text before every
/// later one, and so none twice.
pub open spec fn strictly_sorted(texts: Seq<Seq<char>>) -> bool {
    forall|i: int, j: int| 0 <= i < j < texts.len() ==> text_lt(#[trigger] texts[i], #[trigger] texts[j])
}

/// Two sequences in strictly ascending order that hold the same texts are
/// the same sequence.
pub proof fn lemma_sorted_texts_are_unique(a: Seq<Seq<char>>, b: Seq<Seq<char>>)
    requires
        strictly_sorted(a),
        strictly_sorted(b),
        forall|text: Seq<char>| a.contains(text) <==> b.contains(text),
    ensures
        a == b,
    decreases a.len(),
{
    if a.len() == 0 {
        if b.len() > 0 {
            assert(b.contains(b[0]));
        }
        assert(a =~= b);
    } else {
        assert(a.contains(a.last()));
        assert(b.len() > 0);
        // The last of each is its greatest, so the two are the same.
        let x = a.last();
        let y = b.last();
        assert(b.contains(y));
        assert(a.contains(y));
        let i = choose|i: int| 0 <= i < a.len() && a[i] == y;
        let j = choose|j: int| 0 <= j < b.len() && b[j] == x;
        lemma_text_lt_irreflexive(x);
        lemma_text_lt_irreflexive(y);
        if i < a.len() - 1 && j < b.len() - 1 {
            lemma_text_lt_transitive(x, y, x);
        }
        assert(x == y);
        let a0 = a.drop_last();
        let b0 = b.drop_last();
        assert forall|text: Seq<char>| a0.contains(text) <==> b0.contains(text) by {
            if a0.contains(text) {
                let k = choose|k: int| 0 <= k < a0.len() && a0[k] == text;
                assert(a[k] == text);
                assert(text_lt(text, x));
                assert(a.contains(text));
                let m = choose|m: int| 0 <= m < b.len() && b[m] == text;
                if m == b.len() - 1 {
                    lemma_text_lt_irreflexive(x);
                }
                assert(b0[m] == text);
            }
            if b0.contains(text) {
                let k = choose|k: int| 0 <= k < b0.len() && b0[k] == text;
                assert(b[k] == text);
                assert(text_lt(text, y));
                assert(b.contains(text));
                let m = choose|m: int| 0 <= m < a.len() && a[m] == text;
                if m == a.len() - 1 {
                    lemma_text_lt_irreflexive(y);
                }
                assert(a0[m] == text);
            }
        }
        assert(strictly_sorted(a0)) by {
            assert forall|i: int, j: int| 0 <= i < j < a0.len() implies text_lt(
                #[trigger] a0[i],
                #[trigger] a0[j],
            ) by {
                assert(a0[i] == a[i] && a0[j] == a[j]);
            }
        }
        assert(strictly_sorted(b0)) by {
            assert forall|i: int, j: int| 0 <= i < j < b0.len() implies text_lt(
                #[trigger] b0[i],
                #[trigger] b0[j],
            ) by {
                assert(b0[i] == b[i] && b0[j] == b[j]);
            }
        }
        lemma_sorted_texts_are_unique(a0, b0);
        assert(a =~= a0.push(x));
        assert(b =~= b0.push(y));
    }
}

} // verus!
