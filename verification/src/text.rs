//! Text as sequences of characters: comparison, splitting, trimming, joining.

use vstd::prelude::*;

verus! {

/// `String::push` of std: the character is appended at the end of the string.
pub assume_specification[ String::push ](s: &mut String, c: char)
    ensures
        final(s)@ == old(s)@.push(c),
;

/// `<str as PartialEq>::eq` of std: two string slices are equal when they hold the same characters.
pub assume_specification[ <str as PartialEq<str>>::eq ](a: &str, b: &str) -> (r: bool)
    ensures
        r == (a@ == b@),
;

/// The characters of `s` in order.
pub fn to_chars(s: &str) -> (r: Vec<char>)
    ensures
        r@ == s@,
{
    let mut out: Vec<char> = Vec::new();
    for c in it: s.chars()
        invariant
            it.seq() == s@,
            out@ == s@.take(it.index()),
    {
        out.push(c);
    }
    out
}

/// The string of the characters `chars[from..to]`.
pub fn from_chars(chars: &Vec<char>, from: usize, to: usize) -> (r: String)
    requires
        from <= to <= chars@.len(),
    ensures
        r@ == chars@.subrange(from as int, to as int),
{
    let mut out: String = String::new();
    let mut i: usize = from;
    while i < to
        invariant
            from <= i <= to <= chars@.len(),
            out@ == chars@.subrange(from as int, i as int),
        decreases to - i,
    {
        out.push(chars[i]);
        i += 1;
    }
    out
}

/// Whether the two texts are the same.
pub fn str_eq(a: &str, b: &str) -> (r: bool)
    ensures
        r == (a@ == b@),
{
    *a == *b
}

/// Whether two optional texts are the same.
pub open spec fn same_optional(a: Option<String>, b: Option<String>) -> bool {
    match (a, b) {
        (Some(x), Some(y)) => x@ == y@,
        (None, None) => true,
        _ => false,
    }
}

/// Whether two optional texts are the same.
pub fn optional_eq(a: &Option<String>, b: &Option<String>) -> (r: bool)
    ensures
        r == same_optional(*a, *b),
{
    match (a, b) {
        (Some(x), Some(y)) => str_eq(x.as_str(), y.as_str()),
        (None, None) => true,
        _ => false,
    }
}

/// The model of an optional text.
pub open spec fn optional_view(a: Option<String>) -> Option<Seq<char>> {
    match a {
        Some(x) => Some(x@),
        None => None,
    }
}

/// The model of a list of texts.
pub open spec fn list_view(a: Seq<String>) -> Seq<Seq<char>> {
    a.map_values(|s: String| s@)
}

/// A copy of a list of texts.
pub fn clone_list(a: &Vec<String>) -> (r: Vec<String>)
    ensures
        r@ == a@,
{
    let mut out: Vec<String> = Vec::new();
    let mut i: usize = 0;
    while i < a.len()
        invariant
            i <= a@.len(),
            out@ == a@.take(i as int),
        decreases a@.len() - i,
    {
        out.push(a[i].clone());
        i += 1;
    }
    assert(a@.take(a@.len() as int) =~= a@);
    out
}

/// Whether `s` is one of the texts of `list`.
pub fn list_contains(list: &Vec<String>, s: &str) -> (r: bool)
    ensures
        r == list_view(list@).contains(s@),
{
    let mut i: usize = 0;
    while i < list.len()
        invariant
            i <= list@.len(),
            forall|j: int| 0 <= j < i ==> #[trigger] list@[j]@ != s@,
        decreases list@.len() - i,
    {
        if str_eq(list[i].as_str(), s) {
            assert(list_view(list@)[i as int] == s@);
            return true;
        }
        i += 1;
    }
    assert(!list_view(list@).contains(s@)) by {
        if list_view(list@).contains(s@) {
            let j = choose|j: int| 0 <= j < list@.len() && list_view(list@)[j] == s@;
            assert(list@[j]@ == s@);
        }
    }
    false
}

/// The ASCII lowercase form of a character.
pub open spec fn ascii_lower(c: char) -> char {
    if 'A' <= c <= 'Z' {
        ((c as u32) + 32) as char
    } else {
        c
    }
}

/// The ASCII lowercase form of a character.
pub fn to_ascii_lower(c: char) -> (r: char)
    ensures
        r == ascii_lower(c),
{
    if 'A' <= c && c <= 'Z' {
        (c as u8 + 32) as char
    } else {
        c
    }
}

/// Whether two texts are equal when ASCII letters are compared without regard to case.
pub open spec fn same_ignoring_ascii_case(a: Seq<char>, b: Seq<char>) -> bool {
    &&& a.len() == b.len()
    &&& forall|i: int| 0 <= i < a.len() ==> ascii_lower(#[trigger] a[i]) == ascii_lower(b[i])
}

/// Whether two texts are equal when ASCII letters are compared without regard to case.
pub fn eq_ignore_ascii_case(a: &str, b: &str) -> (r: bool)
    ensures
        r == same_ignoring_ascii_case(a@, b@),
{
    let x: Vec<char> = to_chars(a);
    let y: Vec<char> = to_chars(b);
    if x.len() != y.len() {
        return false;
    }
    let mut i: usize = 0;
    while i < x.len()
        invariant
            x@ == a@,
            y@ == b@,
            x@.len() == y@.len(),
            i <= x@.len(),
            forall|j: int| 0 <= j < i ==> ascii_lower(#[trigger] a@[j]) == ascii_lower(b@[j]),
        decreases x@.len() - i,
    {
        if to_ascii_lower(x[i]) != to_ascii_lower(y[i]) {
            assert(ascii_lower(a@[i as int]) != ascii_lower(b@[i as int]));
            return false;
        }
        i += 1;
    }
    true
}

/// The lowercase form of a character as far as it can be an ASCII letter.
///
/// Outside ASCII only the Kelvin sign has an ASCII letter as its Unicode lowercase form.
pub open spec fn fold_char(c: char) -> char {
    if c == '\u{212A}' {
        'k'
    } else {
        ascii_lower(c)
    }
}

/// Whether the Unicode lowercase form of `s` is the ASCII text `word`.
pub open spec fn lowercases_to(s: Seq<char>, word: Seq<char>) -> bool {
    &&& s.len() == word.len()
    &&& forall|i: int| 0 <= i < s.len() ==> fold_char(#[trigger] s[i]) == word[i]
}

/// Whether the Unicode lowercase form of `s` is the text `word`, which is in lowercase ASCII.
pub fn is_word(s: &str, word: &str) -> (r: bool)
    ensures
        r == lowercases_to(s@, word@),
{
    let x: Vec<char> = to_chars(s);
    let y: Vec<char> = to_chars(word);
    if x.len() != y.len() {
        return false;
    }
    let mut i: usize = 0;
    while i < x.len()
        invariant
            x@ == s@,
            y@ == word@,
            x@.len() == y@.len(),
            i <= x@.len(),
            forall|j: int| 0 <= j < i ==> fold_char(#[trigger] s@[j]) == word@[j],
        decreases x@.len() - i,
    {
        let c: char = if x[i] == '\u{212A}' { 'k' } else { to_ascii_lower(x[i]) };
        if c != y[i] {
            assert(fold_char(s@[i as int]) != word@[i as int]);
            return false;
        }
        i += 1;
    }
    true
}

/// The first position of `c` in `s`, or the length of `s` where it does not occur.
pub open spec fn first_of(s: Seq<char>, c: char) -> int
    decreases s.len(),
{
    if s.len() == 0 || s[0] == c {
        0
    } else {
        1 + first_of(s.skip(1), c)
    }
}

/// The defining property of `first_of`.
pub proof fn lemma_first_of(s: Seq<char>, c: char)
    ensures
        0 <= first_of(s, c) <= s.len(),
        first_of(s, c) < s.len() ==> s[first_of(s, c)] == c,
        forall|i: int| 0 <= i < first_of(s, c) ==> s[i] != c,
    decreases s.len(),
{
    if s.len() != 0 && s[0] != c {
        lemma_first_of(s.skip(1), c);
        assert forall|i: int| 0 <= i < first_of(s, c) implies s[i] != c by {
            if i > 0 {
                assert(s[i] == s.skip(1)[i - 1]);
            }
        }
    }
}

/// `first_of` is the only position with its defining property.
pub proof fn lemma_first_of_unique(s: Seq<char>, c: char, k: int)
    requires
        0 <= k <= s.len(),
        k < s.len() ==> s[k] == c,
        forall|i: int| 0 <= i < k ==> s[i] != c,
    ensures
        first_of(s, c) == k,
{
    lemma_first_of(s, c);
}

/// The pieces of `s` between the occurrences of `sep`: one more than there are occurrences.
pub open spec fn split_on(s: Seq<char>, sep: char) -> Seq<Seq<char>>
    decreases s.len(),
    via split_on_decreases
{
    let k = first_of(s, sep);
    if k >= s.len() {
        seq![s]
    } else {
        seq![s.take(k)] + split_on(s.skip(k + 1), sep)
    }
}

#[via_fn]
proof fn split_on_decreases(s: Seq<char>, sep: char) {
    lemma_first_of(s, sep);
}

/// The pieces of `s` between the occurrences of `sep`.
pub fn split_str(s: &str, sep: char) -> (r: Vec<String>)
    ensures
        list_view(r@) == split_on(s@, sep),
        r@.len() >= 1,
{
    let x: Vec<char> = to_chars(s);
    let mut out: Vec<String> = Vec::new();
    let mut start: usize = 0;
    let mut i: usize = 0;
    proof {
        assert(s@.skip(0) =~= s@);
        assert(list_view(out@) + split_on(s@.skip(0), sep) =~= split_on(s@, sep));
    }
    while i < x.len()
        invariant
            x@ == s@,
            start <= i <= x@.len(),
            forall|j: int| start <= j < i ==> x@[j] != sep,
            list_view(out@) + split_on(s@.skip(start as int), sep) == split_on(s@, sep),
        decreases x@.len() - i,
    {
        if x[i] == sep {
            let piece: String = from_chars(&x, start, i);
            let ghost before = out@;
            out.push(piece);
            proof {
                let rest = s@.skip(start as int);
                lemma_first_of_unique(rest, sep, i - start);
                assert(rest.take(i - start) =~= s@.subrange(start as int, i as int));
                assert(rest.skip(i - start + 1) =~= s@.skip(i + 1));
                assert(list_view(out@) =~= list_view(before).push(piece@));
                assert(list_view(out@) + split_on(s@.skip(i + 1), sep) =~= list_view(before) + (seq![
                    piece@,
                ] + split_on(s@.skip(i + 1), sep)));
            }
            start = i + 1;
        }
        i += 1;
    }
    let last: String = from_chars(&x, start, x.len());
    let ghost before = out@;
    out.push(last);
    proof {
        let rest = s@.skip(start as int);
        lemma_first_of_unique(rest, sep, rest.len() as int);
        assert(rest =~= last@);
        assert(list_view(out@) =~= list_view(before) + seq![last@]);
    }
    out
}

/// Whether a character is white space in the sense of Unicode.
pub open spec fn is_space(c: char) -> bool {
    let n = c as u32;
    ||| 9 <= n <= 13
    ||| n == 0x20
    ||| n == 0x85
    ||| n == 0xA0
    ||| n == 0x1680
    ||| 0x2000 <= n <= 0x200A
    ||| n == 0x2028
    ||| n == 0x2029
    ||| n == 0x202F
    ||| n == 0x205F
    ||| n == 0x3000
}

/// Whether a character is white space in the sense of Unicode.
pub fn is_white_space(c: char) -> (r: bool)
    ensures
        r == is_space(c),
{
    let n: u32 = c as u32;
    (9 <= n && n <= 13) || n == 0x20 || n == 0x85 || n == 0xA0 || n == 0x1680 || (0x2000 <= n && n
        <= 0x200A) || n == 0x2028 || n == 0x2029 || n == 0x202F || n == 0x205F || n == 0x3000
}

/// The text without the white space at its start.
pub open spec fn trim_left(s: Seq<char>) -> Seq<char>
    decreases s.len(),
{
    if s.len() > 0 && is_space(s[0]) {
        trim_left(s.skip(1))
    } else {
        s
    }
}

/// The text without the white space at its end.
pub open spec fn trim_right(s: Seq<char>) -> Seq<char>
    decreases s.len(),
{
    if s.len() > 0 && is_space(s.last()) {
        trim_right(s.drop_last())
    } else {
        s
    }
}

/// The text without the white space around it.
pub open spec fn trimmed(s: Seq<char>) -> Seq<char> {
    trim_right(trim_left(s))
}

/// The text without the white space around it.
pub fn trim_str(s: &str) -> (r: String)
    ensures
        r@ == trimmed(s@),
{
    let x: Vec<char> = to_chars(s);
    let mut from: usize = 0;
    proof {
        assert(x@.skip(0) =~= x@);
    }
    while from < x.len() && is_white_space(x[from])
        invariant
            from <= x@.len(),
            trim_left(x@.skip(from as int)) == trim_left(x@),
        decreases x@.len() - from,
    {
        proof {
            assert(x@.skip(from as int).skip(1) =~= x@.skip(from + 1));
        }
        from += 1;
    }
    let mut to: usize = x.len();
    proof {
        assert(trim_left(x@) == x@.skip(from as int));
        assert(x@.skip(from as int) =~= x@.subrange(from as int, to as int));
    }
    while to > from && is_white_space(x[to - 1])
        invariant
            from <= to <= x@.len(),
            trim_right(x@.subrange(from as int, to as int)) == trimmed(x@),
        decreases to,
    {
        proof {
            let cur = x@.subrange(from as int, to as int);
            assert(cur.last() == x@[to - 1]);
            assert(cur.drop_last() =~= x@.subrange(from as int, to - 1));
        }
        to -= 1;
    }
    proof {
        let cur = x@.subrange(from as int, to as int);
        if to > from {
            assert(cur.last() == x@[to - 1]);
        }
    }
    from_chars(&x, from, to)
}

/// Whether `s` begins with `prefix`.
pub open spec fn has_prefix(s: Seq<char>, prefix: Seq<char>) -> bool {
    prefix.len() <= s.len() && s.take(prefix.len() as int) == prefix
}

/// A text has the characters of its prefix.
pub proof fn lemma_prefix_char(s: Seq<char>, prefix: Seq<char>, i: int)
    requires
        has_prefix(s, prefix),
        0 <= i < prefix.len(),
    ensures
        s[i] == prefix[i],
{
    assert(s.take(prefix.len() as int)[i] == s[i]);
}

/// What follows `prefix` in `s`, where `s` begins with it.
pub fn strip_prefix(s: &str, prefix: &str) -> (r: Option<String>)
    ensures
        match r {
            Some(rest) => has_prefix(s@, prefix@) && rest@ == s@.skip(prefix@.len() as int),
            None => !has_prefix(s@, prefix@),
        },
{
    let x: Vec<char> = to_chars(s);
    let p: Vec<char> = to_chars(prefix);
    if p.len() > x.len() {
        return None;
    }
    let mut i: usize = 0;
    while i < p.len()
        invariant
            i <= p@.len() <= x@.len(),
            x@ == s@,
            p@ == prefix@,
            forall|j: int| 0 <= j < i ==> x@[j] == p@[j],
        decreases p@.len() - i,
    {
        if x[i] != p[i] {
            proof {
                assert(s@.take(prefix@.len() as int)[i as int] != prefix@[i as int]);
            }
            return None;
        }
        i += 1;
    }
    let rest: String = from_chars(&x, p.len(), x.len());
    proof {
        assert(s@.take(prefix@.len() as int) =~= prefix@);
        assert(s@.skip(prefix@.len() as int) =~= rest@);
    }
    Some(rest)
}

/// The texts of `parts` one after the other with `sep` between them.
pub open spec fn joined(parts: Seq<Seq<char>>, sep: Seq<char>) -> Seq<char>
    decreases parts.len(),
{
    if parts.len() == 0 {
        seq![]
    } else if parts.len() == 1 {
        parts[0]
    } else {
        joined(parts.drop_last(), sep) + sep + parts.last()
    }
}

/// The texts of `parts` one after the other with `sep` between them.
pub fn join(parts: &Vec<String>, sep: &str) -> (r: String)
    ensures
        r@ == joined(list_view(parts@), sep@),
{
    let mut out: String = String::new();
    let mut i: usize = 0;
    while i < parts.len()
        invariant
            i <= parts@.len(),
            out@ == joined(list_view(parts@).take(i as int), sep@),
        decreases parts@.len() - i,
    {
        let ghost done = list_view(parts@).take(i as int);
        let ghost next = list_view(parts@).take(i + 1);
        proof {
            assert(next.drop_last() =~= done);
            assert(next.last() == parts@[i as int]@);
        }
        if i > 0 {
            out.append(sep);
        }
        out.append(parts[i].as_str());
        proof {
            if i == 0 {
                assert(out@ =~= next[0]);
            }
        }
        i += 1;
    }
    proof {
        assert(list_view(parts@).take(parts@.len() as int) =~= list_view(parts@));
    }
    out
}

/// The text without the occurrences of `c` at its start.
pub open spec fn strip_left(s: Seq<char>, c: char) -> Seq<char>
    decreases s.len(),
{
    if s.len() > 0 && s[0] == c {
        strip_left(s.skip(1), c)
    } else {
        s
    }
}

/// The text without the occurrences of `c` at its end.
pub open spec fn strip_right(s: Seq<char>, c: char) -> Seq<char>
    decreases s.len(),
{
    if s.len() > 0 && s.last() == c {
        strip_right(s.drop_last(), c)
    } else {
        s
    }
}

/// The text without the occurrences of `c` around it.
pub open spec fn stripped(s: Seq<char>, c: char) -> Seq<char> {
    strip_right(strip_left(s, c), c)
}

/// The text without the occurrences of `c` around it.
pub fn strip_char(s: &str, c: char) -> (r: String)
    ensures
        r@ == stripped(s@, c),
{
    let x: Vec<char> = to_chars(s);
    let mut from: usize = 0;
    proof {
        assert(x@.skip(0) =~= x@);
    }
    while from < x.len() && x[from] == c
        invariant
            from <= x@.len(),
            strip_left(x@.skip(from as int), c) == strip_left(x@, c),
        decreases x@.len() - from,
    {
        proof {
            assert(x@.skip(from as int).skip(1) =~= x@.skip(from + 1));
        }
        from += 1;
    }
    let mut to: usize = x.len();
    proof {
        assert(strip_left(x@, c) == x@.skip(from as int));
        assert(x@.skip(from as int) =~= x@.subrange(from as int, to as int));
    }
    while to > from && x[to - 1] == c
        invariant
            from <= to <= x@.len(),
            strip_right(x@.subrange(from as int, to as int), c) == stripped(x@, c),
        decreases to,
    {
        proof {
            let cur = x@.subrange(from as int, to as int);
            assert(cur.last() == x@[to - 1]);
            assert(cur.drop_last() =~= x@.subrange(from as int, to - 1));
        }
        to -= 1;
    }
    proof {
        let cur = x@.subrange(from as int, to as int);
        if to > from {
            assert(cur.last() == x@[to - 1]);
        }
    }
    from_chars(&x, from, to)
}

/// The text of a string as a literal, with quotes and escapes, that `{:?}` of std writes.
pub uninterp spec fn debug_form(s: Seq<char>) -> Seq<char>;

/// `{:?}` of std for a string slice: how it quotes and escapes is left to std.
#[verifier::external_body]
pub(crate) fn debug_text(s: &str) -> (r: String)
    ensures
        r@ == debug_form(s@),
{
    format!("{s:?}")
}

/// The digit of a number below ten.
pub open spec fn digit(n: nat) -> char {
    (48 + n) as char
}

/// A number in decimal notation.
pub open spec fn decimal(n: nat) -> Seq<char>
    decreases n,
{
    if n < 10 {
        seq![digit(n)]
    } else {
        decimal(n / 10).push(digit(n % 10))
    }
}

/// A number in decimal notation.
pub fn decimal_text(n: u128) -> (r: String)
    ensures
        r@ == decimal(n as nat),
    decreases n,
{
    let d: u8 = 48 + (n % 10) as u8;
    if n < 10 {
        let mut out: String = String::new();
        out.push(d as char);
        assert(out@ =~= decimal(n as nat));
        out
    } else {
        let mut out: String = decimal_text(n / 10);
        out.push(d as char);
        out
    }
}

/// Texts are the same without regard to case where they have the same length and each character
/// is the same, or one is a capital of ASCII and the other its small letter.
pub proof fn case_is_all_that_is_ignored(a: Seq<char>, b: Seq<char>)
    ensures
        same_ignoring_ascii_case(a, b) <==> {
            &&& a.len() == b.len()
            &&& forall|i: int|
                0 <= i < a.len() ==> {
                    ||| #[trigger] a[i] == b[i]
                    ||| 65 <= a[i] as u32 <= 90 && b[i] as u32 == a[i] as u32 + 32
                    ||| 65 <= b[i] as u32 <= 90 && a[i] as u32 == b[i] as u32 + 32
                }
        },
{
    assert forall|c: char, d: char| #![trigger ascii_lower(c), ascii_lower(d)]
        (ascii_lower(c) == ascii_lower(d)) == (c == d || (65 <= c as u32 <= 90 && d as u32
            == c as u32 + 32) || (65 <= d as u32 <= 90 && c as u32 == d as u32 + 32)) by {
        lemma_ascii_lower(c);
        lemma_ascii_lower(d);
    }
    if same_ignoring_ascii_case(a, b) {
        assert forall|i: int| 0 <= i < a.len() implies {
            ||| #[trigger] a[i] == b[i]
            ||| 65 <= a[i] as u32 <= 90 && b[i] as u32 == a[i] as u32 + 32
            ||| 65 <= b[i] as u32 <= 90 && a[i] as u32 == b[i] as u32 + 32
        } by {
            assert(ascii_lower(a[i]) == ascii_lower(b[i]));
        }
    }
}

/// The code of the small letter of a character.
proof fn lemma_ascii_lower(c: char)
    ensures
        ascii_lower(c) as u32 == if 65 <= c as u32 <= 90 {
            c as u32 + 32
        } else {
            c as u32 as int
        },
{
}

/// Comparing texts without regard to case is reflexive and symmetric.
pub proof fn comparing_without_case_is_symmetric(a: Seq<char>, b: Seq<char>)
    ensures
        same_ignoring_ascii_case(a, a),
        same_ignoring_ascii_case(a, b) == same_ignoring_ascii_case(b, a),
{
}

/// A text is a word in small letters, whatever the case of its own letters: character by character
/// it has the letter of the word, its capital, or the Kelvin sign for `k`.
pub proof fn words_are_known_in_any_case(s: Seq<char>, word: Seq<char>)
    requires
        forall|i: int|
            0 <= i < word.len() ==> ((#[trigger] word[i]) as u32) < 128 && !('A' <= word[i] <= 'Z'),
    ensures
        lowercases_to(s, word) <==> {
            &&& s.len() == word.len()
            &&& forall|i: int|
                0 <= i < s.len() ==> {
                    ||| #[trigger] s[i] == word[i]
                    ||| 65 <= s[i] as u32 <= 90 && word[i] as u32 == s[i] as u32 + 32
                    ||| s[i] as u32 == 0x212A && word[i] as u32 == 107
                }
        },
{
    assert forall|c: char, d: char|
        !(65 <= d as u32 <= 90) && d as u32 != 0x212A implies (#[trigger] fold_char(c)
        == #[trigger] id_char(d)) == (c == d || (65 <= c as u32 <= 90 && d as u32 == c as u32 + 32)
        || (c as u32 == 0x212A && d as u32 == 107)) by {
        lemma_ascii_lower(c);
    }
    if s.len() == word.len() {
        assert forall|i: int| 0 <= i < s.len() implies (fold_char(#[trigger] s[i]) == word[i]) == (
        s[i] == word[i] || (65 <= s[i] as u32 <= 90 && word[i] as u32 == s[i] as u32 + 32) || (
        s[i] as u32 == 0x212A && word[i] as u32 == 107)) by {
            assert((word[i] as u32) < 128 && !('A' <= word[i] <= 'Z'));
            assert(id_char(word[i]) == word[i]);
        }
    }
}

/// The character itself.
spec fn id_char(c: char) -> char {
    c
}

/// The pieces of a text, with the separator between them, are the text again, and no piece holds
/// the separator.
pub proof fn split_texts_are_joined_again(s: Seq<char>, sep: char)
    ensures
        joined(split_on(s, sep), seq![sep]) == s,
        split_on(s, sep).len() >= 1,
        forall|i: int|
            0 <= i < split_on(s, sep).len() ==> !(#[trigger] split_on(s, sep)[i]).contains(sep),
    decreases s.len(),
{
    let k = first_of(s, sep);
    lemma_first_of(s, sep);
    let all = split_on(s, sep);
    if k >= s.len() {
        assert(!s.contains(sep));
        assert(all =~= seq![s]);
    } else {
        let rest = s.skip(k + 1);
        split_texts_are_joined_again(rest, sep);
        let tail = split_on(rest, sep);
        assert(all =~= seq![s.take(k)] + tail);
        lemma_joined_front(s.take(k), tail, seq![sep]);
        assert(s =~= s.take(k) + seq![sep] + rest);
        assert forall|i: int| 0 <= i < all.len() implies !(#[trigger] all[i]).contains(sep) by {
            if i == 0 {
                assert(!s.take(k).contains(sep)) by {
                    if s.take(k).contains(sep) {
                        let j = choose|j: int| 0 <= j < k && s.take(k)[j] == sep;
                        assert(s[j] == sep);
                    }
                }
            } else {
                assert(all[i] == tail[i - 1]);
            }
        }
    }
}

/// Joining can begin with the first text.
proof fn lemma_joined_front(first: Seq<char>, parts: Seq<Seq<char>>, sep: Seq<char>)
    requires
        parts.len() > 0,
    ensures
        joined(seq![first] + parts, sep) == first + sep + joined(parts, sep),
    decreases parts.len(),
{
    let all = seq![first] + parts;
    assert(all.last() == parts.last());
    if parts.len() == 1 {
        assert(all.drop_last() =~= seq![first]);
        assert(joined(all.drop_last(), sep) == first);
    } else {
        lemma_joined_front(first, parts.drop_last(), sep);
        assert(all.drop_last() =~= seq![first] + parts.drop_last());
        assert(joined(all, sep) =~= first + sep + joined(parts, sep));
    }
}

/// Trimming takes white space off both ends and nothing else.
pub proof fn trimming_takes_off_white_space(s: Seq<char>)
    ensures
        exists|a: int, b: int|
            0 <= a <= b <= s.len() && trimmed(s) == #[trigger] s.subrange(a, b) && (forall|i: int|
                0 <= i < a ==> is_space(#[trigger] s[i])) && (forall|i: int|
                b <= i < s.len() ==> is_space(#[trigger] s[i])),
        trimmed(s).len() > 0 ==> !is_space(trimmed(s)[0]) && !is_space(trimmed(s).last()),
        trimmed(trimmed(s)) == trimmed(s),
{
    let a = lemma_trim_left(s);
    let left = trim_left(s);
    let n = lemma_trim_right(left);
    let b = a + n;
    assert(trimmed(s) =~= s.subrange(a, b));
    assert forall|i: int| b <= i < s.len() implies is_space(#[trigger] s[i]) by {
        assert(left[i - a] == s[i]);
    }
    let t = trimmed(s);
    if t.len() > 0 {
        assert(t[0] == left[0]);
    }
    assert(trim_left(t) == t);
    assert(trim_right(t) == t);
}

/// Where the white space at the start ends.
proof fn lemma_trim_left(s: Seq<char>) -> (a: int)
    ensures
        0 <= a <= s.len(),
        trim_left(s) == s.skip(a),
        forall|i: int| 0 <= i < a ==> is_space(#[trigger] s[i]),
        a < s.len() ==> !is_space(s[a]),
    decreases s.len(),
{
    if s.len() > 0 && is_space(s[0]) {
        let rest = s.skip(1);
        let a = lemma_trim_left(rest);
        assert(rest.skip(a) =~= s.skip(a + 1));
        assert forall|i: int| 0 <= i < a + 1 implies is_space(#[trigger] s[i]) by {
            if i > 0 {
                assert(rest[i - 1] == s[i]);
            }
        }
        if a < rest.len() {
            assert(rest[a] == s[a + 1]);
        }
        a + 1
    } else {
        assert(s.skip(0) =~= s);
        0
    }
}

/// Where the white space at the end begins.
proof fn lemma_trim_right(s: Seq<char>) -> (b: int)
    ensures
        0 <= b <= s.len(),
        trim_right(s) == s.take(b),
        forall|i: int| b <= i < s.len() ==> is_space(#[trigger] s[i]),
        b > 0 ==> !is_space(s[b - 1]),
    decreases s.len(),
{
    if s.len() > 0 && is_space(s.last()) {
        let init = s.drop_last();
        let b = lemma_trim_right(init);
        assert(init.take(b) =~= s.take(b));
        assert forall|i: int| b <= i < s.len() implies is_space(#[trigger] s[i]) by {
            if i < s.len() - 1 {
                assert(init[i] == s[i]);
            }
        }
        if b > 0 {
            assert(init[b - 1] == s[b - 1]);
        }
        b
    } else {
        assert(s.take(s.len() as int) =~= s);
        s.len() as int
    }
}

/// Stripping takes a character off both ends and nothing else.
pub proof fn stripping_takes_off_a_character(s: Seq<char>, c: char)
    ensures
        exists|a: int, b: int|
            0 <= a <= b <= s.len() && stripped(s, c) == #[trigger] s.subrange(a, b) && (forall|
                i: int,
            |
                0 <= i < a ==> #[trigger] s[i] == c) && (forall|i: int|
                b <= i < s.len() ==> #[trigger] s[i] == c),
        stripped(s, c).len() > 0 ==> stripped(s, c)[0] != c && stripped(s, c).last() != c,
{
    let a = lemma_strip_left(s, c);
    let left = strip_left(s, c);
    let n = lemma_strip_right(left, c);
    let b = a + n;
    assert(stripped(s, c) =~= s.subrange(a, b));
    assert forall|i: int| b <= i < s.len() implies #[trigger] s[i] == c by {
        assert(left[i - a] == s[i]);
    }
    if stripped(s, c).len() > 0 {
        assert(stripped(s, c)[0] == left[0]);
    }
}

/// Where a character at the start ends.
proof fn lemma_strip_left(s: Seq<char>, c: char) -> (a: int)
    ensures
        0 <= a <= s.len(),
        strip_left(s, c) == s.skip(a),
        forall|i: int| 0 <= i < a ==> #[trigger] s[i] == c,
        a < s.len() ==> s[a] != c,
    decreases s.len(),
{
    if s.len() > 0 && s[0] == c {
        let rest = s.skip(1);
        let a = lemma_strip_left(rest, c);
        assert(rest.skip(a) =~= s.skip(a + 1));
        assert forall|i: int| 0 <= i < a + 1 implies #[trigger] s[i] == c by {
            if i > 0 {
                assert(rest[i - 1] == s[i]);
            }
        }
        if a < rest.len() {
            assert(rest[a] == s[a + 1]);
        }
        a + 1
    } else {
        assert(s.skip(0) =~= s);
        0
    }
}

/// Where a character at the end begins.
proof fn lemma_strip_right(s: Seq<char>, c: char) -> (b: int)
    ensures
        0 <= b <= s.len(),
        strip_right(s, c) == s.take(b),
        forall|i: int| b <= i < s.len() ==> #[trigger] s[i] == c,
        b > 0 ==> s[b - 1] != c,
    decreases s.len(),
{
    if s.len() > 0 && s.last() == c {
        let init = s.drop_last();
        let b = lemma_strip_right(init, c);
        assert(init.take(b) =~= s.take(b));
        assert forall|i: int| b <= i < s.len() implies #[trigger] s[i] == c by {
            if i < s.len() - 1 {
                assert(init[i] == s[i]);
            }
        }
        if b > 0 {
            assert(init[b - 1] == s[b - 1]);
        }
        b
    } else {
        assert(s.take(s.len() as int) =~= s);
        s.len() as int
    }
}

/// A text begins with a prefix where something follows the prefix in it, be it nothing.
pub proof fn a_prefix_is_followed_by_the_rest(s: Seq<char>, prefix: Seq<char>)
    ensures
        has_prefix(s, prefix) ==> prefix + s.skip(prefix.len() as int) == s,
        has_prefix(prefix + s, prefix),
        (prefix + s).skip(prefix.len() as int) == s,
{
    if has_prefix(s, prefix) {
        assert(s.take(prefix.len() as int) + s.skip(prefix.len() as int) =~= s);
    }
    assert((prefix + s).take(prefix.len() as int) =~= prefix);
    assert((prefix + s).skip(prefix.len() as int) =~= s);
}

/// The number that decimal digits stand for.
pub open spec fn number_of(digits: Seq<char>) -> int
    decreases digits.len(),
{
    if digits.len() == 0 {
        0
    } else {
        10 * number_of(digits.drop_last()) + (digits.last() as u32 - 48)
    }
}

/// The decimal notation of a number has only digits, stands for the number, and does not begin
/// with a zero, unless that is all of it.
pub proof fn decimal_notation_stands_for_the_number(n: nat)
    ensures
        number_of(decimal(n)) == n,
        decimal(n).len() > 0,
        n > 0 ==> decimal(n)[0] != '0',
        forall|i: int|
            0 <= i < decimal(n).len() ==> 48 <= #[trigger] decimal(n)[i] as u32 <= 57,
    decreases n,
{
    let s = decimal(n);
    if n < 10 {
        assert(s =~= seq![digit(n)]);
        assert(s.drop_last() =~= seq![]);
        assert(number_of(s.drop_last()) == 0);
    } else {
        decimal_notation_stands_for_the_number(n / 10);
        assert(s.drop_last() =~= decimal(n / 10));
        assert(s[0] == decimal(n / 10)[0]);
    }
}

/// Blanks, tabs and the ends of lines are white space; the signs, digits and letters of ASCII are
/// not.
pub proof fn signs_are_no_white_space(c: char)
    ensures
        33 <= c as u32 <= 126 ==> !is_space(c),
        c == ' ' || c == '\t' || c == '\n' || c == '\r' ==> is_space(c),
{
}

} // verus!
