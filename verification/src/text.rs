//! Character-level helpers over `str`, stated on `Seq<char>`.

use vstd::prelude::*;
use vstd::std_specs::iter::IteratorSpec;

verus! {

broadcast use vstd::string::group_string_axioms;

/// `needle` occurs in `hay` starting at position `at`.
pub open spec fn occurs_at(hay: Seq<char>, needle: Seq<char>, at: int) -> bool {
    &&& 0 <= at
    &&& at + needle.len() <= hay.len()
    &&& hay.subrange(at, at + needle.len()) == needle
}

/// `needle` occurs somewhere in `hay`. The empty sequence occurs in every sequence.
pub open spec fn contains_seq(hay: Seq<char>, needle: Seq<char>) -> bool {
    exists|at: int| occurs_at(hay, needle, at)
}

/// The least position at or after `from` where `needle` occurs in `hay`, if any.
pub open spec fn find_from(hay: Seq<char>, needle: Seq<char>, from: int) -> Option<int>
    decreases hay.len() - from + 1,
{
    if from < 0 || from + needle.len() > hay.len() {
        None
    } else if occurs_at(hay, needle, from) {
        Some(from)
    } else {
        find_from(hay, needle, from + 1)
    }
}

/// What `find_from` returns is the first occurrence at or after `from`.
pub proof fn lemma_find_from(hay: Seq<char>, needle: Seq<char>, from: int)
    requires
        0 <= from,
    ensures
        match find_from(hay, needle, from) {
            Some(i) => from <= i && occurs_at(hay, needle, i) && forall|j: int|
                from <= j < i ==> !occurs_at(hay, needle, j),
            None => forall|j: int| from <= j ==> !occurs_at(hay, needle, j),
        },
    decreases hay.len() - from + 1,
{
    if from + needle.len() > hay.len() {
    } else if occurs_at(hay, needle, from) {
    } else {
        lemma_find_from(hay, needle, from + 1);
    }
}

/// `needle` occurs in `hay` exactly when a first occurrence exists.
pub proof fn lemma_contains_iff_found(hay: Seq<char>, needle: Seq<char>)
    ensures
        contains_seq(hay, needle) <==> find_from(hay, needle, 0) is Some,
{
    lemma_find_from(hay, needle, 0);
}

/// The character sequences that a list of character vectors holds.
pub open spec fn pieces_of(parts: Seq<Vec<char>>) -> Seq<Seq<char>> {
    parts.map_values(|part: Vec<char>| part@)
}

/// The texts that a list of strings holds.
pub open spec fn texts_of(strings: Seq<String>) -> Seq<Seq<char>> {
    strings.map_values(|text: String| text@)
}

/// The pieces of `hay` between occurrences of `sep`, from position `from` on. Occurrences
/// are taken left to right and do not overlap. With an empty `sep` the rest of `hay` is
/// the only piece.
pub open spec fn split_from(hay: Seq<char>, sep: Seq<char>, from: int) -> Seq<Seq<char>>
    decreases hay.len() - from + 1,
{
    match find_from(hay, sep, from) {
        Some(at) => if sep.len() > 0 && from <= at && at + sep.len() <= hay.len() {
            seq![hay.subrange(from, at)] + split_from(hay, sep, at + sep.len())
        } else {
            seq![hay.subrange(from, hay.len() as int)]
        },
        None => seq![hay.subrange(from, hay.len() as int)],
    }
}

/// The pieces of `hay` between occurrences of `sep`.
pub open spec fn split_seq(hay: Seq<char>, sep: Seq<char>) -> Seq<Seq<char>> {
    split_from(hay, sep, 0)
}

/// A line without the carriage return that may end it.
pub open spec fn without_return(line: Seq<char>) -> Seq<char> {
    if line.len() > 0 && line.last() == '\r' {
        line.drop_last()
    } else {
        line
    }
}

/// Position of the first line feed at or after `from`, or the length of `text`.
pub open spec fn line_end(text: Seq<char>, from: int) -> int
    decreases text.len() - from + 1,
{
    if from < 0 || from >= text.len() {
        text.len() as int
    } else if text[from] == '\n' {
        from
    } else {
        line_end(text, from + 1)
    }
}

/// The lines of `text` from position `from` on. A line ends at a line feed, which is not
/// part of it, nor is a carriage return right before that line feed. The last line need
/// not end in a line feed; text that ends in one has no empty line after it.
pub open spec fn lines_from(text: Seq<char>, from: int) -> Seq<Seq<char>>
    decreases text.len() - from + 1,
{
    if from < 0 || from >= text.len() {
        Seq::empty()
    } else {
        let end = line_end(text, from);
        if from <= end < text.len() {
            seq![without_return(text.subrange(from, end))] + lines_from(text, end + 1)
        } else {
            seq![text.subrange(from, text.len() as int)]
        }
    }
}

/// The lines of `text`.
pub open spec fn lines_seq(text: Seq<char>) -> Seq<Seq<char>> {
    lines_from(text, 0)
}

/// Whether `c` is white space: a space, a control character from tab to carriage return,
/// or one of the other characters that Unicode gives the white-space property.
pub open spec fn is_space(c: char) -> bool {
    let u = c as u32;
    ||| 0x09 <= u <= 0x0d
    ||| u == 0x20
    ||| u == 0x85
    ||| u == 0xa0
    ||| u == 0x1680
    ||| 0x2000 <= u <= 0x200a
    ||| u == 0x2028
    ||| u == 0x2029
    ||| u == 0x202f
    ||| u == 0x205f
    ||| u == 0x3000
}

/// How many leading characters of `text` are white space.
pub open spec fn leading_spaces(text: Seq<char>) -> nat
    decreases text.len(),
{
    if text.len() > 0 && is_space(text[0]) {
        1 + leading_spaces(text.drop_first())
    } else {
        0
    }
}

/// How many trailing characters of `text` are white space.
pub open spec fn trailing_spaces(text: Seq<char>) -> nat
    decreases text.len(),
{
    if text.len() > 0 && is_space(text.last()) {
        1 + trailing_spaces(text.drop_last())
    } else {
        0
    }
}

/// `text` without the white space at its start and at its end.
pub open spec fn trimmed(text: Seq<char>) -> Seq<char> {
    let rest = text.skip(leading_spaces(text) as int);
    rest.take(rest.len() - trailing_spaces(rest))
}

/// Whether `c` is one of the digits `0` to `9`.
pub open spec fn is_digit(c: char) -> bool {
    '0' <= c <= '9'
}

/// The number that a sequence of decimal digits writes.
pub open spec fn decimal_value(digits: Seq<char>) -> nat
    decreases digits.len(),
{
    if digits.len() == 0 {
        0
    } else {
        decimal_value(digits.drop_last()) * 10 + (digits.last() as u32 - '0' as u32) as nat
    }
}

/// Whether every character of `text` is a decimal digit.
pub open spec fn all_digits(text: Seq<char>) -> bool {
    forall|i: int| 0 <= i < text.len() ==> is_digit(#[trigger] text[i])
}

/// `text` without the `+` that may begin it.
pub open spec fn unsigned_part(text: Seq<char>) -> Seq<char> {
    if text.len() > 0 && text[0] == '+' {
        text.drop_first()
    } else {
        text
    }
}

/// The number that `text` writes: one or more decimal digits, after an optional `+`,
/// whose value fits in 64 bits. Any other text writes no number.
pub open spec fn parsed_u64(text: Seq<char>) -> Option<u64> {
    let digits = unsigned_part(text);
    if digits.len() > 0 && all_digits(digits) && decimal_value(digits) <= u64::MAX {
        Some(decimal_value(digits) as u64)
    } else {
        None
    }
}

/// Whether `text` begins with `prefix`.
pub open spec fn starts_with_seq(text: Seq<char>, prefix: Seq<char>) -> bool {
    prefix.len() <= text.len() && text.take(prefix.len() as int) == prefix
}

/// A number never gets smaller when digits are written after it.
pub proof fn lemma_decimal_value_grows(digits: Seq<char>, shorter: int)
    requires
        0 <= shorter <= digits.len(),
    ensures
        decimal_value(digits.take(shorter)) <= decimal_value(digits),
    decreases digits.len(),
{
    if shorter == digits.len() {
        assert(digits.take(shorter) =~= digits);
    } else {
        assert(digits.drop_last().take(shorter) =~= digits.take(shorter));
        lemma_decimal_value_grows(digits.drop_last(), shorter);
    }
}

/// Collects the characters of `s` in order.
pub fn chars_of(s: &str) -> (out: Vec<char>)
    ensures
        out@ == s@,
{
    let mut out: Vec<char> = Vec::new();
    let mut it = s.chars();
    assert(out@ + it.remaining() =~= s@);
    loop
        invariant
            it.obeys_prophetic_iter_laws(),
            out@ + it.remaining() == s@,
            it.decrease() is Some,
        ensures
            out@ == s@,
        decreases it.decrease()->0,
    {
        let ghost before = it.remaining();
        match it.next() {
            Some(c) => {
                out.push(c);
                assert(out@ + it.remaining() =~= s@) by {
                    assert(before =~= seq![c] + before.drop_first());
                }
            },
            None => {
                assert(out@ =~= s@);
                break;
            },
        }
    }
    out
}

/// Appends `c` to `s`.
///
/// Trusted: `String::push` appends the given character at the end of the string.
#[verifier::external_body]
fn push_char(s: &mut String, c: char)
    ensures
        final(s)@ == old(s)@.push(c),
{
    s.push(c);
}

/// The string made of `chars`, in order.
pub fn string_of(chars: &Vec<char>) -> (out: String)
    ensures
        out@ == chars@,
{
    let mut out = String::new();
    let mut i: usize = 0;
    while i < chars.len()
        invariant
            i <= chars.len(),
            out@ == chars@.take(i as int),
        decreases chars.len() - i,
    {
        push_char(&mut out, chars[i]);
        assert(chars@.take(i as int).push(chars@[i as int]) =~= chars@.take(i as int + 1));
        i += 1;
    }
    assert(chars@.take(chars.len() as int) =~= chars@);
    out
}

/// Whether `needle` occurs in `hay` at position `at`.
pub fn matches_at(hay: &Vec<char>, needle: &Vec<char>, at: usize) -> (found: bool)
    ensures
        found == occurs_at(hay@, needle@, at as int),
{
    if needle.len() > hay.len() || at > hay.len() - needle.len() {
        return false;
    }
    let mut k: usize = 0;
    while k < needle.len()
        invariant
            k <= needle.len(),
            at + needle.len() <= hay.len(),
            forall|j: int| 0 <= j < k ==> hay@[at + j] == needle@[j],
        decreases needle.len() - k,
    {
        if hay[at + k] != needle[k] {
            assert(hay@.subrange(at as int, at + needle.len())[k as int] == hay@[at + k]);
            return false;
        }
        k += 1;
    }
    assert(hay@.subrange(at as int, at + needle.len()) =~= needle@);
    true
}

/// The first position at or after `from` where `needle` occurs in `hay`.
pub fn find(hay: &Vec<char>, needle: &Vec<char>, from: usize) -> (pos: Option<usize>)
    ensures
        match pos {
            Some(i) => find_from(hay@, needle@, from as int) == Some(i as int),
            None => find_from(hay@, needle@, from as int) is None,
        },
{
    if needle.len() > hay.len() {
        return None;
    }
    let last: usize = hay.len() - needle.len();
    let mut i: usize = from;
    while i <= last
        invariant
            from <= i,
            last == hay.len() - needle.len(),
            find_from(hay@, needle@, from as int) == find_from(hay@, needle@, i as int),
        decreases last + 1 - i,
    {
        if matches_at(hay, needle, i) {
            return Some(i);
        }
        if i == last {
            assert(find_from(hay@, needle@, i + 1) is None);
            return None;
        }
        i += 1;
    }
    None
}

/// Whether `needle` occurs in `hay`.
pub fn contains(hay: &str, needle: &str) -> (found: bool)
    ensures
        found == contains_seq(hay@, needle@),
{
    let h = chars_of(hay);
    let n = chars_of(needle);
    proof {
        lemma_contains_iff_found(hay@, needle@);
    }
    find(&h, &n, 0).is_some()
}

/// The characters of `chars` from `from` up to `to`.
pub(crate) fn slice_of(chars: &Vec<char>, from: usize, to: usize) -> (out: Vec<char>)
    requires
        from <= to <= chars.len(),
    ensures
        out@ == chars@.subrange(from as int, to as int),
{
    let mut out: Vec<char> = Vec::new();
    let mut k: usize = from;
    while k < to
        invariant
            from <= k <= to <= chars.len(),
            out@ == chars@.subrange(from as int, k as int),
        decreases to - k,
    {
        out.push(chars[k]);
        assert(chars@.subrange(from as int, k as int).push(chars@[k as int]) =~= chars@.subrange(
            from as int,
            k as int + 1,
        ));
        k += 1;
    }
    out
}

/// Splits `hay` at every occurrence of `sep`.
pub fn split(hay: &Vec<char>, sep: &Vec<char>) -> (parts: Vec<Vec<char>>)
    ensures
        pieces_of(parts@) == split_seq(hay@, sep@),
{
    let mut parts: Vec<Vec<char>> = Vec::new();
    let mut from: usize = 0;
    assert(pieces_of(parts@) =~= Seq::<Seq<char>>::empty());
    loop
        invariant_except_break
            from <= hay.len(),
            pieces_of(parts@) + split_from(hay@, sep@, from as int) == split_seq(hay@, sep@),
        ensures
            pieces_of(parts@) == split_seq(hay@, sep@),
        decreases hay.len() - from,
    {
        let ghost done = pieces_of(parts@);
        let found = find(hay, sep, from);
        proof {
            lemma_find_from(hay@, sep@, from as int);
        }
        match found {
            Some(at) => {
                if sep.len() > 0 {
                    let piece = slice_of(hay, from, at);
                    parts.push(piece);
                    assert(pieces_of(parts@) =~= done + seq![hay@.subrange(from as int, at as int)]);
                    from = at + sep.len();
                } else {
                    let piece = slice_of(hay, from, hay.len());
                    parts.push(piece);
                    assert(pieces_of(parts@) =~= done + seq![
                        hay@.subrange(from as int, hay.len() as int),
                    ]);
                    break;
                }
            },
            None => {
                let piece = slice_of(hay, from, hay.len());
                parts.push(piece);
                assert(pieces_of(parts@) =~= done + seq![
                    hay@.subrange(from as int, hay.len() as int),
                ]);
                break;
            },
        }
    }
    parts
}

/// Splits `text` into its lines.
pub fn lines(text: &Vec<char>) -> (out: Vec<Vec<char>>)
    ensures
        pieces_of(out@) == lines_seq(text@),
{
    let mut out: Vec<Vec<char>> = Vec::new();
    let mut from: usize = 0;
    assert(pieces_of(out@) =~= Seq::<Seq<char>>::empty());
    while from < text.len()
        invariant
            from <= text.len(),
            pieces_of(out@) + lines_from(text@, from as int) == lines_seq(text@),
        decreases text.len() - from,
    {
        let ghost done = pieces_of(out@);
        let mut end: usize = from;
        while end < text.len() && text[end] != '\n'
            invariant
                from <= end <= text.len(),
                line_end(text@, from as int) == line_end(text@, end as int),
            decreases text.len() - end,
        {
            end += 1;
        }
        if end < text.len() {
            let stop: usize = if end > from && text[end - 1] == '\r' {
                end - 1
            } else {
                end
            };
            let piece = slice_of(text, from, stop);
            assert(piece@ =~= without_return(text@.subrange(from as int, end as int)));
            out.push(piece);
            assert(pieces_of(out@) =~= done + seq![
                without_return(text@.subrange(from as int, end as int)),
            ]);
            from = end + 1;
        } else {
            let piece = slice_of(text, from, text.len());
            out.push(piece);
            assert(pieces_of(out@) =~= done + seq![text@.subrange(from as int, text.len() as int)]);
            from = text.len();
        }
    }
    assert(lines_from(text@, from as int) =~= Seq::<Seq<char>>::empty());
    out
}

/// Whether `c` is white space.
pub fn is_whitespace(c: char) -> (space: bool)
    ensures
        space == is_space(c),
{
    let u: u32 = c as u32;
    (0x09 <= u && u <= 0x0d) || u == 0x20 || u == 0x85 || u == 0xa0 || u == 0x1680 || (0x2000 <= u
        && u <= 0x200a) || u == 0x2028 || u == 0x2029 || u == 0x202f || u == 0x205f || u == 0x3000
}

/// `text` without the white space around it.
pub fn trim(text: &Vec<char>) -> (out: Vec<char>)
    ensures
        out@ == trimmed(text@),
{
    let mut start: usize = 0;
    assert(text@.skip(0) =~= text@);
    while start < text.len() && is_whitespace(text[start])
        invariant
            start <= text.len(),
            leading_spaces(text@) == start + leading_spaces(text@.skip(start as int)),
        decreases text.len() - start,
    {
        assert(text@.skip(start as int).drop_first() =~= text@.skip(start as int + 1));
        start += 1;
    }
    assert(leading_spaces(text@) == start) by {
        if start < text.len() {
            assert(text@.skip(start as int)[0] == text@[start as int]);
        }
    }
    let ghost rest = text@.skip(start as int);
    let mut end: usize = text.len();
    assert(rest.take(end - start) =~= rest);
    while end > start && is_whitespace(text[end - 1])
        invariant
            start <= end <= text.len(),
            rest == text@.skip(start as int),
            trailing_spaces(rest) == (text.len() - end) + trailing_spaces(rest.take(end - start)),
        decreases end,
    {
        assert(rest.take(end - start).last() == text@[end - 1]);
        assert(rest.take(end - start).drop_last() =~= rest.take(end - start - 1));
        end -= 1;
    }
    assert(trailing_spaces(rest) == text.len() - end) by {
        if end > start {
            assert(rest.take(end - start).last() == text@[end - 1]);
        }
    }
    let out = slice_of(text, start, end);
    assert(out@ =~= trimmed(text@));
    out
}

/// The number that `text` writes, if it writes one.
pub fn parse_u64(text: &Vec<char>) -> (value: Option<u64>)
    ensures
        value == parsed_u64(text@),
{
    let first: usize = if text.len() > 0 && text[0] == '+' {
        1
    } else {
        0
    };
    let ghost digits = text@.skip(first as int);
    assert(first == 1 ==> digits =~= text@.drop_first());
    assert(first == 0 ==> digits =~= text@);
    if first == text.len() {
        return None;
    }
    let mut total: u64 = 0;
    let mut i: usize = first;
    assert(digits.take(0) =~= Seq::<char>::empty());
    while i < text.len()
        invariant
            first <= i <= text.len(),
            digits == text@.skip(first as int),
            digits.len() > 0,
            digits == unsigned_part(text@),
            all_digits(digits.take(i - first)),
            total == decimal_value(digits.take(i - first)),
        decreases text.len() - i,
    {
        let c = text[i];
        assert(digits[i - first] == c);
        if !('0' <= c && c <= '9') {
            assert(!is_digit(digits[i - first]));
            return None;
        }
        let d: u64 = (c as u32 - '0' as u32) as u64;
        let ghost longer = digits.take(i - first + 1);
        proof {
            assert(longer.drop_last() =~= digits.take(i - first));
            assert(longer.last() == c);
            assert(decimal_value(longer) == total * 10 + d);
            assert forall|j: int| 0 <= j < longer.len() implies is_digit(#[trigger] longer[j]) by {
                if j < i - first {
                    assert(digits.take(i - first)[j] == longer[j]);
                }
            }
            lemma_decimal_value_grows(digits, i - first + 1);
        }
        let scaled = match total.checked_mul(10) {
            Some(scaled) => scaled,
            None => {
                return None;
            },
        };
        total = match scaled.checked_add(d) {
            Some(sum) => sum,
            None => {
                return None;
            },
        };
        i += 1;
    }
    assert(digits.take(i - first) =~= digits);
    Some(total)
}

/// Whether `text` begins with `prefix`.
pub fn starts_with(text: &Vec<char>, prefix: &Vec<char>) -> (starts: bool)
    ensures
        starts == starts_with_seq(text@, prefix@),
{
    if prefix.len() > text.len() {
        return false;
    }
    let found = matches_at(text, prefix, 0);
    assert(text@.take(prefix.len() as int) =~= text@.subrange(0, 0 + prefix.len()));
    found
}

/// Whether two strings hold the same characters.
pub fn same_text(a: &str, b: &str) -> (same: bool)
    ensures
        same == (a@ == b@),
{
    let x = chars_of(a);
    let y = chars_of(b);
    if x.len() != y.len() {
        return false;
    }
    let mut i: usize = 0;
    while i < x.len()
        invariant
            i <= x.len(),
            x.len() == y.len(),
            x@ == a@,
            y@ == b@,
            forall|j: int| 0 <= j < i ==> x@[j] == y@[j],
        decreases x.len() - i,
    {
        if x[i] != y[i] {
            return false;
        }
        i += 1;
    }
    assert(x@ =~= y@);
    true
}

/// The lower-case form of a string, as Unicode defines it.
pub uninterp spec fn lowercase_of(s: Seq<char>) -> Seq<char>;

/// Lower-cases a string.
///
/// Trusted: `str::to_lowercase` maps a string to its lower-case form, which depends on the
/// characters of the string alone.
#[verifier::external_body]
pub(crate) fn to_lowercase(s: &str) -> (out: String)
    ensures
        out@ == lowercase_of(s@),
{
    s.to_lowercase()
}

} // verus!
