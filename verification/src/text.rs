//! Character-sequence helpers shared by the rest of the crate.
//!
//! Every string is modelled by its sequence of characters (`Seq<char>`). The
//! spec functions of this module say what searching, splitting, replacing and
//! number formatting mean on such sequences; the executable functions compute
//! them on `Vec<char>` or `String` and are proved against those definitions.

use vstd::prelude::*;
use vstd::string::*;

verus! {

/// Trusted: `String::push` appends exactly one character to the end of the
/// string and leaves everything before it untouched.
pub assume_specification[ String::push ](s: &mut String, c: char)
    ensures
        final(s)@ == old(s)@.push(c),
;

/// Trusted: `==` on two `str` values is true exactly when they hold the same
/// characters in the same order.
pub assume_specification[ <str as PartialEq>::eq ](a: &str, b: &str) -> (r: bool)
    ensures
        r == (a@ == b@),
;

/// The lowercase form of a character sequence as `str::to_lowercase` defines
/// it (the Unicode `Lowercase` mapping, which may change the length).
pub uninterp spec fn lowercased(s: Seq<char>) -> Seq<char>;

/// Trusted: `str::to_lowercase` returns a new string that depends on the
/// characters of its argument alone. The contract only gives that result a
/// name; nothing is claimed about which characters it holds.
pub assume_specification[ str::to_lowercase ](s: &str) -> (r: String)
    ensures
        r@ == lowercased(s@),
;

/// Whether `c` is a letter or a digit as `char::is_alphanumeric` tells it
/// (the Unicode properties `Alphabetic` and the number categories).
pub uninterp spec fn alphanumeric(c: char) -> bool;

/// Trusted: `char::is_alphanumeric` depends on the character alone. The
/// contract only gives its result a name.
pub assume_specification[ char::is_alphanumeric ](c: char) -> (r: bool)
    ensures
        r == alphanumeric(c),
;

/// The characters of `s`, in order.
pub fn to_chars(s: &str) -> (v: Vec<char>)
    ensures
        v@ == s@,
{
    let mut v: Vec<char> = Vec::new();
    for c in it: s.chars()
        invariant
            v@ == s@.take(it.index() as int),
            it.seq() == s@,
    {
        v.push(c);
    }
    v
}

/// The string made of the characters `v[from..to]`.
pub fn string_of(v: &Vec<char>, from: usize, to: usize) -> (s: String)
    requires
        from <= to <= v.len(),
    ensures
        s@ == v@.subrange(from as int, to as int),
{
    let mut s = String::new();
    let mut i: usize = from;
    while i < to
        invariant
            from <= i <= to <= v.len(),
            s@ == v@.subrange(from as int, i as int),
        decreases to - i,
    {
        s.push(v[i]);
        i += 1;
    }
    s
}

/// The string made of all characters of `v`.
pub fn from_chars(v: &Vec<char>) -> (s: String)
    ensures
        s@ == v@,
{
    let s = string_of(v, 0, v.len());
    assert(v@.subrange(0, v@.len() as int) =~= v@);
    s
}

/// `p` occurs in `s` starting at index `i`.
pub open spec fn occurs_at(s: Seq<char>, p: Seq<char>, i: int) -> bool {
    0 <= i && i + p.len() <= s.len() && s.subrange(i, i + p.len()) == p
}

/// `p` occurs somewhere in `s`.
pub open spec fn contains(s: Seq<char>, p: Seq<char>) -> bool {
    exists|i: int| occurs_at(s, p, i)
}

/// `s` begins with `p`.
pub open spec fn starts_with(s: Seq<char>, p: Seq<char>) -> bool {
    occurs_at(s, p, 0)
}

/// Does `p` occur in `s` at index `i`?
pub fn matches_at(s: &Vec<char>, p: &Vec<char>, i: usize) -> (r: bool)
    ensures
        r == occurs_at(s@, p@, i as int),
{
    if i > s.len() || p.len() > s.len() - i {
        return false;
    }
    let mut k: usize = 0;
    while k < p.len()
        invariant
            i + p.len() <= s.len(),
            k <= p.len(),
            s@.subrange(i as int, i + k) == p@.take(k as int),
        decreases p.len() - k,
    {
        if s[i + k] != p[k] {
            assert(s@.subrange(i as int, i + p.len())[k as int] != p@[k as int]);
            return false;
        }
        assert(s@.subrange(i as int, i + k + 1) =~= s@.subrange(i as int, i + k).push(
            s@[i + k],
        ));
        assert(p@.take(k + 1) =~= p@.take(k as int).push(p@[k as int]));
        k += 1;
    }
    assert(p@.take(p@.len() as int) =~= p@);
    true
}

/// The first index at or after `from` where `p` occurs in `s`, if any.
pub fn find_from(s: &Vec<char>, p: &Vec<char>, from: usize) -> (r: Option<usize>)
    ensures
        match r {
            Some(i) => from <= i && occurs_at(s@, p@, i as int) && forall|j: int|
                from <= j < i ==> !occurs_at(s@, p@, j),
            None => forall|j: int| from <= j ==> !occurs_at(s@, p@, j),
        },
{
    if from > s.len() {
        return None;
    }
    let mut i: usize = from;
    while i < s.len()
        invariant
            from <= i <= s.len(),
            forall|j: int| from <= j < i ==> !occurs_at(s@, p@, j),
        decreases s.len() - i,
    {
        if matches_at(s, p, i) {
            return Some(i);
        }
        i += 1;
    }
    if matches_at(s, p, i) {
        Some(i)
    } else {
        None
    }
}

/// Does `p` occur somewhere in `s`?
pub fn has_substring(s: &Vec<char>, p: &Vec<char>) -> (r: bool)
    ensures
        r == contains(s@, p@),
{
    find_from(s, p, 0).is_some()
}

/// Does `s` begin with `p`?
pub fn has_prefix(s: &Vec<char>, p: &Vec<char>) -> (r: bool)
    ensures
        r == starts_with(s@, p@),
{
    matches_at(s, p, 0)
}


/// Whether `c` is white space: a character with the Unicode property
/// `White_Space`.
pub open spec fn is_whitespace(c: char) -> bool {
    let n = c as u32;
    (0x09 <= n <= 0x0d) || n == 0x20 || n == 0x85 || n == 0xa0 || n == 0x1680 || (0x2000 <= n
        <= 0x200a) || n == 0x2028 || n == 0x2029 || n == 0x202f || n == 0x205f || n == 0x3000
}

/// Whether `c` is white space.
pub fn whitespace(c: char) -> (r: bool)
    ensures
        r == is_whitespace(c),
{
    let n = c as u32;
    (0x09 <= n && n <= 0x0d) || n == 0x20 || n == 0x85 || n == 0xa0 || n == 0x1680 || (0x2000 <= n
        && n <= 0x200a) || n == 0x2028 || n == 0x2029 || n == 0x202f || n == 0x205f || n == 0x3000
}

/// `s` with every white-space character replaced by `with`.
pub open spec fn without_whitespace(s: Seq<char>, with: char) -> Seq<char> {
    Seq::new(s.len(), |i: int| if is_whitespace(s[i]) { with } else { s[i] })
}

/// `s` with every white-space character replaced by `with`.
pub fn replace_whitespace(s: &str, with: char) -> (r: String)
    ensures
        r@ == without_whitespace(s@, with),
{
    let chars = to_chars(s);
    let mut out = String::new();
    let mut i: usize = 0;
    while i < chars.len()
        invariant
            i <= chars.len(),
            chars@ == s@,
            out@ == without_whitespace(s@, with).take(i as int),
        decreases chars.len() - i,
    {
        let c = chars[i];
        if whitespace(c) {
            out.push(with);
        } else {
            out.push(c);
        }
        assert(out@ =~= without_whitespace(s@, with).take(i + 1));
        i += 1;
    }
    assert(without_whitespace(s@, with).take(chars@.len() as int) =~= without_whitespace(
        s@,
        with,
    ));
    out
}

/// The character of a decimal digit.
pub open spec fn digit(d: int) -> char {
    if d == 0 {
        '0'
    } else if d == 1 {
        '1'
    } else if d == 2 {
        '2'
    } else if d == 3 {
        '3'
    } else if d == 4 {
        '4'
    } else if d == 5 {
        '5'
    } else if d == 6 {
        '6'
    } else if d == 7 {
        '7'
    } else if d == 8 {
        '8'
    } else {
        '9'
    }
}

/// The decimal digits of a natural number, most significant first, without
/// leading zeros.
pub open spec fn decimal(n: nat) -> Seq<char>
    decreases n,
{
    if n < 10 {
        seq![digit(n as int)]
    } else {
        decimal(n / 10).push(digit((n % 10) as int))
    }
}

fn digit_char(d: u64) -> (c: char)
    requires
        d < 10,
    ensures
        c == digit(d as int),
{
    if d == 0 {
        '0'
    } else if d == 1 {
        '1'
    } else if d == 2 {
        '2'
    } else if d == 3 {
        '3'
    } else if d == 4 {
        '4'
    } else if d == 5 {
        '5'
    } else if d == 6 {
        '6'
    } else if d == 7 {
        '7'
    } else if d == 8 {
        '8'
    } else {
        '9'
    }
}

/// Appends the decimal digits of `n` to `out`.
pub fn push_decimal(out: &mut String, n: u64)
    ensures
        final(out)@ == old(out)@ + decimal(n as nat),
    decreases n,
{
    if n < 10 {
        out.push(digit_char(n));
        assert(old(out)@.push(digit(n as int)) =~= old(out)@ + decimal(n as nat));
    } else {
        push_decimal(out, n / 10);
        out.push(digit_char(n % 10));
        assert((old(out)@ + decimal((n / 10) as nat)).push(digit((n % 10) as int)) =~= old(out)@
            + decimal(n as nat));
    }
}

/// The decimal digits of `n`.
pub fn decimal_string(n: u64) -> (r: String)
    ensures
        r@ == decimal(n as nat),
{
    let mut out = String::new();
    push_decimal(&mut out, n);
    assert(Seq::<char>::empty() + decimal(n as nat) =~= decimal(n as nat));
    out
}

/// The texts of a list of strings, in the same order.
pub open spec fn texts(v: Seq<String>) -> Seq<Seq<char>> {
    Seq::new(v.len(), |i: int| v[i]@)
}

/// `s` with every occurrence of `from` replaced by `to`, found from left to
/// right without overlap. An empty `from` occurs nowhere.
pub open spec fn replace_all(s: Seq<char>, from: Seq<char>, to: Seq<char>) -> Seq<char>
    decreases s.len(),
{
    if from.len() == 0 || s.len() < from.len() {
        s
    } else if occurs_at(s, from, 0) {
        to + replace_all(s.skip(from.len() as int), from, to)
    } else {
        seq![s[0]] + replace_all(s.skip(1), from, to)
    }
}

/// `s` with every occurrence of `from` replaced by `to`.
pub fn replace(s: &str, from: &str, to: &str) -> (r: String)
    ensures
        r@ == replace_all(s@, from@, to@),
{
    let text = to_chars(s);
    let pattern = to_chars(from);
    if pattern.len() == 0 {
        return from_chars(&text);
    }
    let mut out = String::new();
    let mut i: usize = 0;
    assert(text@.skip(0) =~= text@);
    assert(Seq::<char>::empty() + replace_all(text@, pattern@, to@) =~= replace_all(
        text@,
        pattern@,
        to@,
    ));
    while i < text.len() && pattern.len() <= text.len() - i
        invariant
            i <= text.len(),
            pattern.len() > 0,
            text@ == s@,
            pattern@ == from@,
            replace_all(s@, from@, to@) == out@ + replace_all(text@.skip(i as int), from@, to@),
        decreases text.len() - i,
    {
        let ghost rest = text@.skip(i as int);
        let ghost done = out@;
        assert(occurs_at(rest, from@, 0) == occurs_at(text@, from@, i as int)) by {
            assert(rest.subrange(0, from@.len() as int) =~= text@.subrange(
                i as int,
                i + from@.len(),
            ));
        }
        if matches_at(&text, &pattern, i) {
            out.append(to);
            assert(rest.skip(from@.len() as int) =~= text@.skip(i + from@.len()));
            assert(done + (to@ + replace_all(rest.skip(from@.len() as int), from@, to@)) =~= (done
                + to@) + replace_all(rest.skip(from@.len() as int), from@, to@));
            i += pattern.len();
        } else {
            out.push(text[i]);
            assert(rest.skip(1) =~= text@.skip(i + 1));
            assert(done + (seq![rest[0]] + replace_all(rest.skip(1), from@, to@)) =~= done.push(
                text@[i as int],
            ) + replace_all(rest.skip(1), from@, to@));
            i += 1;
        }
    }
    let rest = string_of(&text, i, text.len());
    assert(text@.subrange(i as int, text@.len() as int) =~= text@.skip(i as int));
    out.append(rest.as_str());
    out
}

/// The index of the first `c` in `s`, or the length of `s` where it holds
/// none.
pub open spec fn first_index(s: Seq<char>, c: char) -> nat
    decreases s.len(),
{
    if s.len() == 0 || s[0] == c {
        0
    } else {
        1 + first_index(s.skip(1), c)
    }
}

/// `first_index` is the least index that holds the character.
pub proof fn lemma_first_index(s: Seq<char>, c: char, k: int)
    requires
        0 <= k <= s.len(),
        forall|j: int| 0 <= j < k ==> s[j] != c,
        k == s.len() || s[k] == c,
    ensures
        first_index(s, c) == k,
    decreases k,
{
    if k > 0 {
        let rest = s.skip(1);
        assert forall|j: int| 0 <= j < k - 1 implies rest[j] != c by {
            assert(rest[j] == s[j + 1]);
        }
        lemma_first_index(rest, c, k - 1);
    }
}

/// The index of the first `c` at or after `from`, or the length of the text
/// where none follows.
pub fn index_of(text: &Vec<char>, c: char, from: usize) -> (r: usize)
    requires
        from <= text.len(),
    ensures
        from <= r <= text.len(),
        r == from + first_index(text@.skip(from as int), c),
{
    let mut end: usize = from;
    while end < text.len() && text[end] != c
        invariant
            from <= end <= text.len(),
            forall|j: int| from <= j < end ==> text@[j] != c,
        decreases text.len() - end,
    {
        end += 1;
    }
    proof {
        let rest = text@.skip(from as int);
        assert forall|j: int| 0 <= j < end - from implies rest[j] != c by {
            assert(rest[j] == text@[from + j]);
        }
        lemma_first_index(rest, c, end - from);
    }
    end
}

/// A line without the carriage return that may end it.
pub open spec fn without_carriage_return(line: Seq<char>) -> Seq<char> {
    if line.len() > 0 && line.last() == '\r' {
        line.drop_last()
    } else {
        line
    }
}

/// The lines of a text. A line ends at a line feed; the line feed, and a
/// carriage return directly before it, do not belong to the line. What
/// follows the last line feed is a line of its own unless it is empty, and
/// keeps a carriage return at its end.
pub open spec fn lines(s: Seq<char>) -> Seq<Seq<char>>
    decreases s.len(),
{
    if s.len() == 0 {
        Seq::empty()
    } else {
        let end = first_index(s, '\n') as int;
        if end >= s.len() {
            seq![s]
        } else {
            seq![without_carriage_return(s.take(end))] + lines(s.skip(end + 1))
        }
    }
}

/// The lines of a text; see [`lines`].
pub fn split_lines(s: &str) -> (r: Vec<String>)
    ensures
        texts(r@) == lines(s@),
{
    let text = to_chars(s);
    let mut out: Vec<String> = Vec::new();
    let mut start: usize = 0;
    assert(text@.skip(0) =~= text@);
    assert(texts(out@) + lines(text@) =~= lines(text@));
    while start < text.len()
        invariant
            start <= text.len(),
            text@ == s@,
            lines(s@) == texts(out@) + lines(text@.skip(start as int)),
        decreases text.len() - start,
    {
        let ghost rest = text@.skip(start as int);
        let ghost done = texts(out@);
        let end = index_of(&text, '\n', start);
        if end == text.len() {
            let line = string_of(&text, start, end);
            assert(text@.subrange(start as int, end as int) =~= rest);
            out.push(line);
            assert(texts(out@) =~= done + seq![rest]);
            assert(text@.skip(text@.len() as int) =~= Seq::<char>::empty());
            assert(texts(out@) + lines(text@.skip(end as int)) =~= texts(out@));
            start = end;
        } else {
            let stop = if end > start && text[end - 1] == '\r' {
                end - 1
            } else {
                end
            };
            let line = string_of(&text, start, stop);
            assert(rest.take(end - start) =~= text@.subrange(start as int, end as int));
            assert(text@.subrange(start as int, stop as int) =~= without_carriage_return(
                rest.take(end - start),
            ));
            out.push(line);
            assert(texts(out@) =~= done + seq![without_carriage_return(rest.take(end - start))]);
            assert(rest.skip(end - start + 1) =~= text@.skip(end + 1));
            assert(done + (seq![without_carriage_return(rest.take(end - start))] + lines(
                rest.skip(end - start + 1),
            )) =~= (done + seq![without_carriage_return(rest.take(end - start))]) + lines(
                rest.skip(end - start + 1),
            ));
            start = end + 1;
        }
    }
    assert(text@.skip(text@.len() as int) =~= Seq::<char>::empty());
    assert(texts(out@) + lines(Seq::<char>::empty()) =~= texts(out@));
    out
}

/// The parts in order, with `separator` between each two of them.
pub open spec fn joined(parts: Seq<Seq<char>>, separator: Seq<char>) -> Seq<char>
    decreases parts.len(),
{
    if parts.len() == 0 {
        Seq::empty()
    } else if parts.len() == 1 {
        parts[0]
    } else {
        joined(parts.drop_last(), separator) + separator + parts.last()
    }
}

/// The parts in order, with `separator` between each two of them.
pub fn join(parts: &Vec<String>, separator: &str) -> (r: String)
    ensures
        r@ == joined(texts(parts@), separator@),
{
    let ghost all = texts(parts@);
    let mut out = String::new();
    let mut i: usize = 0;
    while i < parts.len()
        invariant
            i <= parts.len(),
            all == texts(parts@),
            out@ == joined(all.take(i as int), separator@),
        decreases parts.len() - i,
    {
        proof {
            assert(all.take(i + 1).drop_last() =~= all.take(i as int));
            assert(all.take(i + 1).last() == parts@[i as int]@);
        }
        if i > 0 {
            out.append(separator);
        } else {
            assert(Seq::<char>::empty() + parts@[0]@ =~= parts@[0]@);
        }
        out.append(parts[i].as_str());
        i += 1;
    }
    assert(all.take(parts@.len() as int) =~= all);
    out
}

/// The pieces of `s` between the occurrences of `c`. A text without `c` is
/// one piece, the empty text too; two occurrences in a row have an empty
/// piece between them.
pub open spec fn split_on(s: Seq<char>, c: char) -> Seq<Seq<char>>
    decreases s.len(),
{
    let end = first_index(s, c) as int;
    if end >= s.len() {
        seq![s]
    } else {
        seq![s.take(end)] + split_on(s.skip(end + 1), c)
    }
}

/// The pieces of `s` between the occurrences of `c`; see [`split_on`].
pub fn split(s: &str, c: char) -> (r: Vec<String>)
    ensures
        texts(r@) == split_on(s@, c),
{
    let text = to_chars(s);
    let mut out: Vec<String> = Vec::new();
    let mut start: usize = 0;
    assert(text@.skip(0) =~= text@);
    assert(texts(out@) + split_on(text@, c) =~= split_on(text@, c));
    loop
        invariant_except_break
            start <= text.len(),
            text@ == s@,
            split_on(s@, c) == texts(out@) + split_on(text@.skip(start as int), c),
        ensures
            texts(out@) == split_on(s@, c),
        decreases text.len() - start,
    {
        let ghost rest = text@.skip(start as int);
        let ghost done = texts(out@);
        let end = index_of(&text, c, start);
        let piece = string_of(&text, start, end);
        assert(rest.take(end - start) =~= text@.subrange(start as int, end as int));
        out.push(piece);
        assert(texts(out@) =~= done + seq![rest.take(end - start)]);
        if end == text.len() {
            assert(rest.take(end - start) =~= rest);
            break ;
        }
        assert(rest.skip(end - start + 1) =~= text@.skip(end + 1));
        assert(done + (seq![rest.take(end - start)] + split_on(rest.skip(end - start + 1), c))
            =~= (done + seq![rest.take(end - start)]) + split_on(rest.skip(end - start + 1), c));
        start = end + 1;
    }
    out
}

/// A set of characters to strip from the ends of a text.
#[derive(Debug, Clone, Copy, PartialEq, Eq, Structural)]
pub enum CharSet {
    /// Every white-space character.
    Whitespace,
    /// One character.
    Only(char),
}

impl CharSet {
    /// Whether `c` belongs to the set.
    pub open spec fn has(self, c: char) -> bool {
        match self {
            CharSet::Whitespace => is_whitespace(c),
            CharSet::Only(only) => c == only,
        }
    }

    /// Whether `c` belongs to the set.
    pub fn holds(&self, c: char) -> (r: bool)
        ensures
            r == self.has(c),
    {
        match self {
            CharSet::Whitespace => whitespace(c),
            CharSet::Only(only) => c == *only,
        }
    }
}

/// `s` without the characters of `set` that it begins with.
pub open spec fn strip_start(s: Seq<char>, set: CharSet) -> Seq<char>
    decreases s.len(),
{
    if s.len() > 0 && set.has(s[0]) {
        strip_start(s.skip(1), set)
    } else {
        s
    }
}

/// `s` without the characters of `set` that it ends with.
pub open spec fn strip_end(s: Seq<char>, set: CharSet) -> Seq<char>
    decreases s.len(),
{
    if s.len() > 0 && set.has(s.last()) {
        strip_end(s.drop_last(), set)
    } else {
        s
    }
}

/// `s` without the characters of `set` at both of its ends.
pub open spec fn strip(s: Seq<char>, set: CharSet) -> Seq<char> {
    strip_end(strip_start(s, set), set)
}

/// `s` without the white space at both of its ends.
pub open spec fn trimmed(s: Seq<char>) -> Seq<char> {
    strip(s, CharSet::Whitespace)
}

/// The index at which `text[from..to]` begins once the characters of `set`
/// at its start are left out.
pub fn skip_start(text: &Vec<char>, set: CharSet, from: usize, to: usize) -> (r: usize)
    requires
        from <= to <= text.len(),
    ensures
        from <= r <= to,
        text@.subrange(r as int, to as int) == strip_start(
            text@.subrange(from as int, to as int),
            set,
        ),
{
    let mut i: usize = from;
    while i < to && set.holds(text[i])
        invariant
            from <= i <= to <= text.len(),
            strip_start(text@.subrange(from as int, to as int), set) == strip_start(
                text@.subrange(i as int, to as int),
                set,
            ),
        decreases to - i,
    {
        assert(text@.subrange(i as int, to as int).skip(1) =~= text@.subrange(i + 1, to as int));
        i += 1;
    }
    i
}

/// The index at which `text[from..to]` ends once the characters of `set` at
/// its end are left out.
pub fn skip_end(text: &Vec<char>, set: CharSet, from: usize, to: usize) -> (r: usize)
    requires
        from <= to <= text.len(),
    ensures
        from <= r <= to,
        text@.subrange(from as int, r as int) == strip_end(
            text@.subrange(from as int, to as int),
            set,
        ),
{
    let mut i: usize = to;
    while i > from && set.holds(text[i - 1])
        invariant
            from <= i <= to <= text.len(),
            strip_end(text@.subrange(from as int, to as int), set) == strip_end(
                text@.subrange(from as int, i as int),
                set,
            ),
        decreases i - from,
    {
        assert(text@.subrange(from as int, i as int).drop_last() =~= text@.subrange(
            from as int,
            i - 1,
        ));
        i -= 1;
    }
    i
}

/// `s` without the characters of `set` that it begins with.
pub fn strip_start_of(s: &str, set: CharSet) -> (r: String)
    ensures
        r@ == strip_start(s@, set),
{
    let text = to_chars(s);
    assert(text@.subrange(0, text@.len() as int) =~= text@);
    let from = skip_start(&text, set, 0, text.len());
    string_of(&text, from, text.len())
}

/// `s` without the characters of `set` that it ends with.
pub fn strip_end_of(s: &str, set: CharSet) -> (r: String)
    ensures
        r@ == strip_end(s@, set),
{
    let text = to_chars(s);
    assert(text@.subrange(0, text@.len() as int) =~= text@);
    let to = skip_end(&text, set, 0, text.len());
    string_of(&text, 0, to)
}

/// `s` without the characters of `set` at both of its ends.
pub fn strip_of(s: &str, set: CharSet) -> (r: String)
    ensures
        r@ == strip(s@, set),
{
    let text = to_chars(s);
    assert(text@.subrange(0, text@.len() as int) =~= text@);
    let from = skip_start(&text, set, 0, text.len());
    let to = skip_end(&text, set, from, text.len());
    string_of(&text, from, to)
}

/// `s` without the white space at both of its ends.
pub fn trim(s: &str) -> (r: String)
    ensures
        r@ == trimmed(s@),
{
    strip_of(s, CharSet::Whitespace)
}

/// Whether `c` is one of the digits `0` to `9`.
pub open spec fn is_digit(c: char) -> bool {
    '0' <= c <= '9'
}

/// The number that a run of decimal digits spells; 0 for the empty run.
pub open spec fn digits_value(s: Seq<char>) -> nat
    decreases s.len(),
{
    if s.len() == 0 {
        0
    } else {
        digits_value(s.drop_last()) * 10 + ((s.last() as u32 - '0' as u32) as nat)
    }
}

/// Whether every character of `s` is a decimal digit.
pub open spec fn all_digits(s: Seq<char>) -> bool {
    forall|i: int| 0 <= i < s.len() ==> is_digit(#[trigger] s[i])
}

/// The number that `s` spells, where it spells one that is at most `max`:
/// one or more decimal digits, after a `+` or after nothing. Leading zeros
/// do not matter. Anything else, white space included, spells no number.
pub open spec fn parsed_number(s: Seq<char>, max: nat) -> Option<nat> {
    let digits = if s.len() > 0 && s[0] == '+' {
        s.skip(1)
    } else {
        s
    };
    if digits.len() > 0 && all_digits(digits) && digits_value(digits) <= max {
        Some(digits_value(digits))
    } else {
        None
    }
}

/// A run of digits spells at least what any of its beginnings spells.
pub proof fn lemma_digits_value_grows(s: Seq<char>, n: int)
    requires
        0 <= n <= s.len(),
        all_digits(s),
    ensures
        digits_value(s.take(n)) <= digits_value(s),
    decreases s.len() - n,
{
    if n < s.len() {
        assert(s.take(n + 1).drop_last() =~= s.take(n));
        assert(is_digit(s[n]));
        assert(s.take(n + 1).last() == s[n]);
        lemma_digits_value_grows(s, n + 1);
    } else {
        assert(s.take(n) =~= s);
    }
}

/// The number that `text[from..to]` spells, where it spells one that is at
/// most `max`; see [`parsed_number`].
pub fn parse_number(text: &Vec<char>, from: usize, to: usize, max: u32) -> (r: Option<u32>)
    requires
        from <= to <= text.len(),
    ensures
        match parsed_number(text@.subrange(from as int, to as int), max as nat) {
            Some(n) => r == Some(n as u32),
            None => r is None,
        },
{
    let ghost s = text@.subrange(from as int, to as int);
    let start = if from < to && text[from] == '+' {
        from + 1
    } else {
        from
    };
    let ghost digits = text@.subrange(start as int, to as int);
    assert(digits =~= if s.len() > 0 && s[0] == '+' {
        s.skip(1)
    } else {
        s
    });
    if start == to {
        return None;
    }
    let mut value: u32 = 0;
    let mut i: usize = start;
    while i < to
        invariant
            start <= i <= to <= text.len(),
            start < to,
            from <= to,
            s == text@.subrange(from as int, to as int),
            digits == text@.subrange(start as int, to as int),
            parsed_number(s, max as nat) == if all_digits(digits) && digits_value(digits) <= max {
                Some(digits_value(digits))
            } else {
                None
            },
            all_digits(digits.take(i - start)),
            value == digits_value(digits.take(i - start)),
            value <= max,
        decreases to - i,
    {
        let c = text[i];
        assert(digits[i - start] == c);
        if !('0' <= c && c <= '9') {
            assert(!is_digit(digits[i - start]));
            return None;
        }
        let d: u32 = c as u32 - '0' as u32;
        proof {
            assert(digits.take(i - start + 1).drop_last() =~= digits.take(i - start));
            assert(digits.take(i - start + 1).last() == c);
            assert forall|j: int| 0 <= j < i - start + 1 implies is_digit(
                #[trigger] digits.take(i - start + 1)[j],
            ) by {
                if j < i - start {
                    assert(digits.take(i - start)[j] == digits.take(i - start + 1)[j]);
                }
            }
            assert(digits_value(digits.take(i - start + 1)) == value * 10 + d);
            if all_digits(digits) {
                lemma_digits_value_grows(digits, i - start + 1);
            }
        }
        if d > max {
            return None;
        }
        if value > (max - d) / 10 {
            assert(value as int * 10 + d > max) by (nonlinear_arith)
                requires
                    value > (max - d) / 10,
                    d <= max,
                    0 <= d,
            {
            }
            return None;
        }
        assert(value as int * 10 + d <= max) by (nonlinear_arith)
            requires
                value <= (max - d) / 10,
                d <= max,
                0 <= d,
        {
        }
        value = value * 10 + d;
        i += 1;
    }
    assert(digits.take(to - start) =~= digits);
    Some(value)
}

/// The number that `s` spells, where it spells one that is at most `max`.
pub fn parse_number_of(s: &str, max: u32) -> (r: Option<u32>)
    ensures
        match parsed_number(s@, max as nat) {
            Some(n) => r == Some(n as u32),
            None => r is None,
        },
{
    let text = to_chars(s);
    assert(text@.subrange(0, text@.len() as int) =~= text@);
    parse_number(&text, 0, text.len(), max)
}

/// The index of the first occurrence of `p` in `s`, if it occurs.
pub open spec fn first_occurrence(s: Seq<char>, p: Seq<char>) -> Option<int> {
    if contains(s, p) {
        Some(choose|i: int| occurs_at(s, p, i) && forall|j: int| 0 <= j < i ==> !occurs_at(s, p, j))
    } else {
        None
    }
}

/// The index of the first occurrence of `p` in `s`, if it occurs.
pub fn find(s: &Vec<char>, p: &Vec<char>) -> (r: Option<usize>)
    ensures
        match r {
            Some(i) => first_occurrence(s@, p@) == Some(i as int) && occurs_at(s@, p@, i as int),
            None => first_occurrence(s@, p@) is None,
        },
{
    let r = find_from(s, p, 0);
    proof {
        match r {
            Some(i) => {
                let least = choose|k: int|
                    occurs_at(s@, p@, k) && forall|j: int| 0 <= j < k ==> !occurs_at(s@, p@, j);
                assert(occurs_at(s@, p@, i as int));
                if least < i {
                    assert(!occurs_at(s@, p@, least));
                }
                if i < least {
                    assert(!occurs_at(s@, p@, i as int));
                }
            },
            None => {},
        }
    }
    r
}

/// What follows the last `c` in `s`; all of `s` where it holds none.
pub open spec fn after_last(s: Seq<char>, c: char) -> Seq<char>
    decreases s.len(),
{
    if s.len() == 0 || s.last() == c {
        Seq::empty()
    } else {
        after_last(s.drop_last(), c).push(s.last())
    }
}

/// The index at which what follows the last `c` of `text[from..to]` begins.
pub fn after_last_index(text: &Vec<char>, c: char, from: usize, to: usize) -> (r: usize)
    requires
        from <= to <= text.len(),
    ensures
        from <= r <= to,
        text@.subrange(r as int, to as int) == after_last(
            text@.subrange(from as int, to as int),
            c,
        ),
{
    let mut i: usize = to;
    assert(text@.subrange(to as int, to as int) =~= Seq::<char>::empty());
    assert(after_last(text@.subrange(from as int, to as int), c) + Seq::<char>::empty()
        =~= after_last(text@.subrange(from as int, to as int), c));
    while i > from && text[i - 1] != c
        invariant
            from <= i <= to <= text.len(),
            after_last(text@.subrange(from as int, to as int), c) == after_last(
                text@.subrange(from as int, i as int),
                c,
            ) + text@.subrange(i as int, to as int),
        decreases i - from,
    {
        let ghost head = text@.subrange(from as int, i as int);
        assert(head.drop_last() =~= text@.subrange(from as int, i - 1));
        assert(head.last() == text@[i - 1]);
        assert(after_last(head.drop_last(), c).push(head.last()) + text@.subrange(
            i as int,
            to as int,
        ) =~= after_last(head.drop_last(), c) + text@.subrange(i - 1, to as int));
        i -= 1;
    }
    assert(Seq::<char>::empty() + text@.subrange(i as int, to as int) =~= text@.subrange(
        i as int,
        to as int,
    ));
    i
}

/// Appends one text to a list of texts.
pub fn push_text(list: &mut Vec<String>, text: String)
    ensures
        texts(final(list)@) == texts(old(list)@).push(text@),
{
    list.push(text);
    assert(texts(list@) =~= texts(old(list)@).push(text@));
}

/// Appends a copy of one text to a list of texts.
pub fn push_str(list: &mut Vec<String>, text: &str)
    ensures
        texts(final(list)@) == texts(old(list)@).push(text@),
{
    push_text(list, text.to_string());
}

/// Appends copies of the texts of `more` to a list of texts.
pub fn extend_texts(list: &mut Vec<String>, more: &Vec<String>)
    ensures
        texts(final(list)@) == texts(old(list)@) + texts(more@),
{
    let mut i: usize = 0;
    assert(texts(list@) + texts(more@).take(0) =~= texts(list@));
    while i < more.len()
        invariant
            i <= more.len(),
            texts(list@) == texts(old(list)@) + texts(more@).take(i as int),
        decreases more.len() - i,
    {
        let ghost before = texts(list@);
        push_text(list, more[i].clone());
        assert(before.push(more@[i as int]@) =~= texts(old(list)@) + texts(more@).take(i + 1));
        i += 1;
    }
    assert(texts(more@).take(more@.len() as int) =~= texts(more@));
}

/// The index of the first white-space character of `s`, or the length of
/// `s` where it holds none.
pub open spec fn first_whitespace(s: Seq<char>) -> nat
    decreases s.len(),
{
    if s.len() == 0 || is_whitespace(s[0]) {
        0
    } else {
        1 + first_whitespace(s.skip(1))
    }
}

/// `first_whitespace` is the least index that holds white space.
pub proof fn lemma_first_whitespace(s: Seq<char>, k: int)
    requires
        0 <= k <= s.len(),
        forall|j: int| 0 <= j < k ==> !is_whitespace(s[j]),
        k == s.len() || is_whitespace(s[k]),
    ensures
        first_whitespace(s) == k,
    decreases k,
{
    if k > 0 {
        let rest = s.skip(1);
        assert forall|j: int| 0 <= j < k - 1 implies !is_whitespace(rest[j]) by {
            assert(rest[j] == s[j + 1]);
        }
        lemma_first_whitespace(rest, k - 1);
    }
}

/// The words of a text: the longest runs of characters that are not white
/// space, in order. A text of white space alone has no words.
pub open spec fn words(s: Seq<char>) -> Seq<Seq<char>>
    decreases s.len(),
{
    if s.len() == 0 {
        Seq::empty()
    } else if is_whitespace(s[0]) {
        words(s.skip(1))
    } else {
        let end = first_whitespace(s) as int;
        if end >= s.len() {
            seq![s]
        } else {
            seq![s.take(end)] + words(s.skip(end))
        }
    }
}

/// The words of a text; see [`words`].
pub fn split_words(s: &str) -> (r: Vec<String>)
    ensures
        texts(r@) == words(s@),
{
    let text = to_chars(s);
    let mut out: Vec<String> = Vec::new();
    let mut start: usize = 0;
    assert(text@.skip(0) =~= text@);
    assert(texts(out@) + words(text@) =~= words(text@));
    while start < text.len()
        invariant
            start <= text.len(),
            text@ == s@,
            words(s@) == texts(out@) + words(text@.skip(start as int)),
        decreases text.len() - start,
    {
        let ghost rest = text@.skip(start as int);
        let ghost done = texts(out@);
        assert(rest[0] == text@[start as int]);
        if whitespace(text[start]) {
            assert(rest.skip(1) =~= text@.skip(start + 1));
            start += 1;
        } else {
            let mut end: usize = start;
            while end < text.len() && !whitespace(text[end])
                invariant
                    start <= end <= text.len(),
                    forall|j: int| start <= j < end ==> !is_whitespace(text@[j]),
                decreases text.len() - end,
            {
                end += 1;
            }
            proof {
                assert forall|j: int| 0 <= j < end - start implies !is_whitespace(rest[j]) by {
                    assert(rest[j] == text@[start + j]);
                }
                lemma_first_whitespace(rest, end - start);
            }
            let word = string_of(&text, start, end);
            assert(rest.take(end - start) =~= text@.subrange(start as int, end as int));
            push_text(&mut out, word);
            if end == text.len() {
                assert(rest.take(end - start) =~= rest);
                assert(text@.skip(end as int) =~= Seq::<char>::empty());
                assert(done.push(rest) + words(text@.skip(end as int)) =~= done + seq![rest]);
            } else {
                assert(rest.skip(end - start) =~= text@.skip(end as int));
                assert(done + (seq![rest.take(end - start)] + words(rest.skip(end - start)))
                    =~= done.push(rest.take(end - start)) + words(rest.skip(end - start)));
            }
            start = end;
        }
    }
    assert(text@.skip(text@.len() as int) =~= Seq::<char>::empty());
    assert(texts(out@) + words(Seq::<char>::empty()) =~= texts(out@));
    out
}

/// The first line of a text: what stands before its first line feed,
/// without a carriage return at the end; none for the empty text.
pub open spec fn first_line(s: Seq<char>) -> Option<Seq<char>> {
    if lines(s).len() == 0 {
        None
    } else {
        Some(lines(s)[0])
    }
}

/// The first line of a text; see [`first_line`].
pub fn first_line_of(s: &str) -> (r: Option<String>)
    ensures
        crate::sites::text_of(r) == first_line(s@),
{
    let all = split_lines(s);
    if all.len() == 0 {
        None
    } else {
        assert(texts(all@)[0] == all@[0]@);
        Some(all[0].clone())
    }
}

/// `s` without the copies of `prefix` that it begins with; an empty prefix
/// is not taken off.
pub open spec fn without_prefixes(s: Seq<char>, prefix: Seq<char>) -> Seq<char>
    decreases s.len(),
{
    if prefix.len() > 0 && starts_with(s, prefix) {
        without_prefixes(s.skip(prefix.len() as int), prefix)
    } else {
        s
    }
}

/// `s` without the copies of `prefix` that it begins with.
pub fn strip_prefixes(s: &str, prefix: &str) -> (r: String)
    ensures
        r@ == without_prefixes(s@, prefix@),
{
    let text = to_chars(s);
    let pattern = to_chars(prefix);
    assert(text@.skip(0) =~= text@);
    if pattern.len() == 0 {
        return from_chars(&text);
    }
    let mut i: usize = 0;
    while i <= text.len() && matches_at(&text, &pattern, i)
        invariant
            i <= text.len(),
            pattern.len() > 0,
            pattern@ == prefix@,
            without_prefixes(s@, prefix@) == without_prefixes(text@.skip(i as int), prefix@),
        decreases text.len() - i,
    {
        let ghost rest = text@.skip(i as int);
        assert(rest.subrange(0, pattern@.len() as int) =~= text@.subrange(
            i as int,
            i + pattern@.len(),
        ));
        assert(rest.skip(pattern@.len() as int) =~= text@.skip(i + pattern@.len()));
        i += pattern.len();
    }
    proof {
        let rest = text@.skip(i as int);
        if starts_with(rest, prefix@) {
            assert(rest.subrange(0, pattern@.len() as int) =~= text@.subrange(
                i as int,
                i + pattern@.len(),
            ));
            assert(occurs_at(text@, pattern@, i as int));
        }
    }
    let out = string_of(&text, i, text.len());
    assert(text@.subrange(i as int, text@.len() as int) =~= text@.skip(i as int));
    out
}

/// The last `count` elements of `all`, in order; all of them where there
/// are no more.
pub open spec fn last_texts(all: Seq<Seq<char>>, count: nat) -> Seq<Seq<char>> {
    if count >= all.len() {
        all
    } else {
        all.skip(all.len() - count)
    }
}

/// The last `count` lines of a text, with a line feed between each two.
pub open spec fn tail_of(text: Seq<char>, count: nat) -> Seq<char> {
    joined(last_texts(lines(text), count), "\n"@)
}

/// The last `count` lines of a text, with a line feed between each two.
pub fn tail(text: &str, count: usize) -> (r: String)
    ensures
        r@ == tail_of(text@, count as nat),
{
    let all = split_lines(text);
    let from = if count >= all.len() {
        0
    } else {
        all.len() - count
    };
    let mut kept: Vec<String> = Vec::new();
    let mut i: usize = from;
    assert(texts(all@).skip(from as int).take(0) =~= Seq::<Seq<char>>::empty());
    while i < all.len()
        invariant
            from <= i <= all.len(),
            texts(kept@) == texts(all@).skip(from as int).take(i - from),
        decreases all.len() - i,
    {
        let ghost before = texts(kept@);
        push_text(&mut kept, all[i].clone());
        assert(before.push(all@[i as int]@) =~= texts(all@).skip(from as int).take(i + 1 - from));
        i += 1;
    }
    assert(texts(all@).skip(from as int).take(all@.len() - from) =~= texts(all@).skip(from as int));
    assert(texts(all@).skip(0) =~= texts(all@));
    join(&kept, "\n")
}

/// `s` ends with `suffix`.
pub open spec fn ends_with(s: Seq<char>, suffix: Seq<char>) -> bool {
    suffix.len() <= s.len() && s.skip(s.len() - suffix.len()) == suffix
}

/// `s` without the copies of `suffix` that it ends with; an empty suffix
/// is not taken off.
pub open spec fn without_suffixes(s: Seq<char>, suffix: Seq<char>) -> Seq<char>
    decreases s.len(),
{
    if suffix.len() > 0 && ends_with(s, suffix) {
        without_suffixes(s.take(s.len() - suffix.len()), suffix)
    } else {
        s
    }
}

/// `s` without the copies of `suffix` that it ends with.
pub fn strip_suffixes(s: &str, suffix: &str) -> (r: String)
    ensures
        r@ == without_suffixes(s@, suffix@),
{
    let text = to_chars(s);
    let pattern = to_chars(suffix);
    assert(text@.take(text@.len() as int) =~= text@);
    if pattern.len() == 0 {
        return from_chars(&text);
    }
    let mut end: usize = text.len();
    while end >= pattern.len() && matches_at(&text, &pattern, end - pattern.len())
        invariant
            end <= text.len(),
            pattern.len() > 0,
            pattern@ == suffix@,
            without_suffixes(s@, suffix@) == without_suffixes(text@.take(end as int), suffix@),
        decreases end,
    {
        let ghost head = text@.take(end as int);
        assert(head.skip(head.len() - pattern@.len()) =~= text@.subrange(
            end - pattern@.len(),
            end as int,
        ));
        assert(head.take(head.len() - pattern@.len()) =~= text@.take(end - pattern@.len()));
        end -= pattern.len();
    }
    proof {
        let head = text@.take(end as int);
        if ends_with(head, suffix@) {
            assert(head.skip(head.len() - pattern@.len()) =~= text@.subrange(
                end - pattern@.len(),
                end as int,
            ));
            assert(occurs_at(text@, pattern@, end - pattern@.len()));
        }
    }
    let out = string_of(&text, 0, end);
    assert(text@.subrange(0, end as int) =~= text@.take(end as int));
    out
}

/// What follows the last `c` in `s`; all of `s` where it holds none.
pub fn after_last_of(s: &str, c: char) -> (r: String)
    ensures
        r@ == after_last(s@, c),
{
    let text = to_chars(s);
    assert(text@.subrange(0, text@.len() as int) =~= text@);
    let from = after_last_index(&text, c, 0, text.len());
    string_of(&text, from, text.len())
}

/// What `first_index` gives is within the text, holds the character unless
/// it is the length of the text, and nothing before it holds the character.
pub proof fn lemma_first_index_is_first(s: Seq<char>, c: char)
    ensures
        first_index(s, c) <= s.len(),
        first_index(s, c) < s.len() ==> s[first_index(s, c) as int] == c,
        forall|j: int| 0 <= j < first_index(s, c) ==> s[j] != c,
    decreases s.len(),
{
    if s.len() > 0 && s[0] != c {
        let rest = s.skip(1);
        lemma_first_index_is_first(rest, c);
        assert forall|j: int| 0 <= j < first_index(s, c) implies s[j] != c by {
            if j > 0 {
                assert(rest[j - 1] == s[j]);
            }
        }
        if first_index(s, c) < s.len() {
            assert(rest[first_index(rest, c) as int] == s[first_index(s, c) as int]);
        }
    }
}

/// The pieces of two texts with the separator between them are the pieces
/// of the first followed by the pieces of the second.
pub proof fn lemma_split_on_concat(a: Seq<char>, b: Seq<char>, c: char)
    ensures
        split_on(a + seq![c] + b, c) == split_on(a, c) + split_on(b, c),
    decreases a.len(),
{
    let s = a + seq![c] + b;
    let k = first_index(a, c) as int;
    lemma_first_index_is_first(a, c);
    assert forall|j: int| 0 <= j < k implies s[j] != c by {
        assert(s[j] == a[j]);
    }
    if k == a.len() {
        assert(s[k] == c);
        lemma_first_index(s, c, k);
        assert(s.take(k) =~= a);
        assert(s.skip(k + 1) =~= b);
        assert(seq![a] + split_on(b, c) =~= split_on(a, c) + split_on(b, c));
    } else {
        assert(s[k] == a[k]);
        lemma_first_index(s, c, k);
        let rest = a.skip(k + 1);
        assert(s.take(k) =~= a.take(k));
        assert(s.skip(k + 1) =~= rest + seq![c] + b);
        lemma_split_on_concat(rest, b, c);
        assert(seq![a.take(k)] + (split_on(rest, c) + split_on(b, c)) =~= (seq![a.take(k)]
            + split_on(rest, c)) + split_on(b, c));
    }
}

/// No part holds the character `c`.
pub open spec fn free_of(parts: Seq<Seq<char>>, c: char) -> bool {
    forall|i: int, j: int| 0 <= i < parts.len() && 0 <= j < parts[i].len() ==> parts[i][j] != c
}

/// Parts that do not hold the separator are what the joined text splits
/// into.
pub proof fn lemma_split_on_joined(parts: Seq<Seq<char>>, c: char)
    requires
        parts.len() > 0,
        free_of(parts, c),
    ensures
        split_on(joined(parts, seq![c]), c) == parts,
    decreases parts.len(),
{
    let last = parts.last();
    assert forall|j: int| 0 <= j < last.len() implies last[j] != c by {
        assert(parts[parts.len() - 1][j] != c);
    }
    lemma_first_index(last, c, last.len() as int);
    assert(split_on(last, c) =~= seq![last]);
    if parts.len() == 1 {
        assert(parts =~= seq![last]);
    } else {
        let front = parts.drop_last();
        assert forall|i: int, j: int|
            0 <= i < front.len() && 0 <= j < front[i].len() implies front[i][j] != c by {
            assert(front[i] == parts[i]);
        }
        lemma_split_on_joined(front, c);
        lemma_split_on_concat(joined(front, seq![c]), last, c);
        assert(front + seq![last] =~= parts);
    }
}

/// The pieces of a text, joined with the separator, are the text.
pub proof fn lemma_joined_split_on(s: Seq<char>, c: char)
    ensures
        joined(split_on(s, c), seq![c]) == s,
        split_on(s, c).len() > 0,
        free_of(split_on(s, c), c),
    decreases s.len(),
{
    let k = first_index(s, c) as int;
    lemma_first_index_is_first(s, c);
    if k >= s.len() {
        assert(split_on(s, c) =~= seq![s]);
    } else {
        let head = s.take(k);
        let rest = s.skip(k + 1);
        lemma_joined_split_on(rest, c);
        let tail = split_on(rest, c);
        lemma_joined_cons(head, tail, seq![c]);
        assert(head + seq![c] + rest =~= s);
        let all = seq![head] + tail;
        assert forall|i: int, j: int| 0 <= i < all.len() && 0 <= j < all[i].len() implies all[i][j]
            != c by {
            if i == 0 {
                assert(all[0][j] == s[j]);
            } else {
                assert(all[i] == tail[i - 1]);
            }
        }
    }
}

/// Joining a part in front of others puts the part, the separator and the
/// others joined one after another.
pub proof fn lemma_joined_cons(head: Seq<char>, tail: Seq<Seq<char>>, separator: Seq<char>)
    requires
        tail.len() > 0,
    ensures
        joined(seq![head] + tail, separator) == head + separator + joined(tail, separator),
    decreases tail.len(),
{
    let all = seq![head] + tail;
    assert(all.drop_last() =~= seq![head] + tail.drop_last());
    assert(all.last() == tail.last());
    assert(joined(all, separator) == joined(all.drop_last(), separator) + separator + all.last());
    if tail.len() == 1 {
        assert(all.drop_last() =~= seq![head]);
        assert(joined(seq![head], separator) == head);
        assert(joined(tail, separator) == tail[0]);
    } else {
        lemma_joined_cons(head, tail.drop_last(), separator);
        assert(joined(tail, separator) == joined(tail.drop_last(), separator) + separator
            + tail.last());
        assert(head + separator + joined(tail.drop_last(), separator) + separator + tail.last()
            =~= head + separator + (joined(tail.drop_last(), separator) + separator
            + tail.last()));
    }
}

/// The digits of a number spell that number.
pub proof fn lemma_decimal_value(n: nat)
    ensures
        digits_value(decimal(n)) == n,
        decimal(n).len() > 0,
    decreases n,
{
    let d = (n % 10) as int;
    assert(digit(d) as u32 - '0' as u32 == d);
    if n < 10 {
        let one = seq![digit(n as int)];
        assert(one.drop_last() =~= Seq::<char>::empty());
        assert(digits_value(one.drop_last()) == 0);
        assert(one.last() == digit(d));
    } else {
        lemma_decimal_value(n / 10);
        let all = decimal(n / 10).push(digit(d));
        assert(all.drop_last() =~= decimal(n / 10));
        assert(all.last() == digit(d));
    }
}

/// Two numbers with the same digits are the same number.
pub proof fn lemma_decimal_is_injective(a: nat, b: nat)
    requires
        decimal(a) == decimal(b),
    ensures
        a == b,
{
    lemma_decimal_value(a);
    lemma_decimal_value(b);
}

} // verus!
