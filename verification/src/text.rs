//! Text helpers: trimming, case folding, searching, and decimal numbers, each
//! stated over the sequence of characters a string holds.
use vstd::prelude::*;
use vstd::string::*;

verus! {

/// `std::string::String::push`: appends the one character to the end.
pub assume_specification[ String::push ](s: &mut String, c: char)
    ensures
        final(s)@ == old(s)@.push(c),
;

/// The text as `std` prints it for debugging: between quotes, with escapes.
pub uninterp spec fn debug_text(chars: Seq<char>) -> Seq<char>;

/// `<str as std::fmt::Debug>::fmt`: the text between quotes, with escapes.
#[verifier::external_body]
pub(crate) fn quoted(s: &str) -> (r: String)
    ensures
        r@ == debug_text(s@),
{
    format!("{s:?}")
}

/// A control character: general category Cc.
pub open spec fn is_control(c: char) -> bool {
    let n = c as u32;
    n <= 0x1f || 0x7f <= n <= 0x9f
}

/// A character of the Unicode property White_Space.
pub open spec fn is_space(c: char) -> bool {
    let n = c as u32;
    ||| 0x09 <= n <= 0x0d
    ||| n == 0x20
    ||| n == 0x85
    ||| n == 0xa0
    ||| n == 0x1680
    ||| 0x2000 <= n <= 0x200a
    ||| n == 0x2028
    ||| n == 0x2029
    ||| n == 0x202f
    ||| n == 0x205f
    ||| n == 0x3000
}

pub open spec fn is_digit(c: char) -> bool {
    '0' <= c <= '9'
}

pub open spec fn is_hex(c: char) -> bool {
    is_digit(c) || 'a' <= c <= 'f' || 'A' <= c <= 'F'
}

/// The ASCII upper case letters moved to lower case, everything else as it is.
pub open spec fn lower_char(c: char) -> char {
    if 'A' <= c <= 'Z' {
        ((c as u8) + 32) as u8 as char
    } else {
        c
    }
}

pub open spec fn lower(s: Seq<char>) -> Seq<char> {
    s.map_values(|c: char| lower_char(c))
}

/// `s` without the white space at its start.
pub open spec fn trim_start(s: Seq<char>) -> Seq<char>
    decreases s.len(),
{
    if s.len() > 0 && is_space(s[0]) {
        trim_start(s.drop_first())
    } else {
        s
    }
}

/// `s` without the white space at its end.
pub open spec fn trim_end(s: Seq<char>) -> Seq<char>
    decreases s.len(),
{
    if s.len() > 0 && is_space(s.last()) {
        trim_end(s.drop_last())
    } else {
        s
    }
}

/// `s` without the white space at either end.
pub open spec fn trimmed(s: Seq<char>) -> Seq<char> {
    trim_end(trim_start(s))
}

/// `needle` occurs in `hay`, as consecutive characters.
pub open spec fn occurs_at(hay: Seq<char>, needle: Seq<char>, at: int) -> bool {
    0 <= at && at + needle.len() <= hay.len() && hay.subrange(at, at + needle.len()) == needle
}

pub open spec fn contains(hay: Seq<char>, needle: Seq<char>) -> bool {
    exists|at: int| occurs_at(hay, needle, at)
}

pub open spec fn starts_with(s: Seq<char>, prefix: Seq<char>) -> bool {
    prefix.len() <= s.len() && s.subrange(0, prefix.len() as int) == prefix
}

pub open spec fn digit_char(n: nat) -> char {
    ((n % 10) + 48) as u8 as char
}

/// `n` in decimal, without leading zeros.
pub open spec fn decimal(n: nat) -> Seq<char>
    decreases n,
{
    if n < 10 {
        seq![digit_char(n)]
    } else {
        decimal(n / 10).push(digit_char(n))
    }
}

/// What a run of decimal digits counts to.
pub open spec fn digits_value(s: Seq<char>) -> nat
    decreases s.len(),
{
    if s.len() == 0 {
        0
    } else {
        digits_value(s.drop_last()) * 10 + (s.last() as u32 - 48) as nat
    }
}

pub open spec fn all_digits(s: Seq<char>) -> bool {
    forall|i: int| 0 <= i < s.len() ==> is_digit(#[trigger] s[i])
}

/// The digits of a written number: an optional plus sign before them is dropped.
pub open spec fn unsigned_digits(s: Seq<char>) -> Seq<char> {
    if s.len() > 0 && s[0] == '+' {
        s.drop_first()
    } else {
        s
    }
}

/// The number `s` writes in decimal, where it writes one of at most `max`.
pub open spec fn parsed(s: Seq<char>, max: nat) -> Option<nat> {
    let digits = unsigned_digits(s);
    if digits.len() > 0 && all_digits(digits) && digits_value(digits) <= max {
        Some(digits_value(digits))
    } else {
        None
    }
}

pub fn char_is_control(c: char) -> (r: bool)
    ensures
        r == is_control(c),
{
    let n: u32 = c as u32;
    n <= 0x1f || (0x7f <= n && n <= 0x9f)
}

pub fn char_is_space(c: char) -> (r: bool)
    ensures
        r == is_space(c),
{
    let n: u32 = c as u32;
    (0x09 <= n && n <= 0x0d) || n == 0x20 || n == 0x85 || n == 0xa0 || n == 0x1680 || (0x2000 <= n
        && n <= 0x200a) || n == 0x2028 || n == 0x2029 || n == 0x202f || n == 0x205f || n == 0x3000
}

pub fn char_is_hex(c: char) -> (r: bool)
    ensures
        r == is_hex(c),
{
    ('0' <= c && c <= '9') || ('a' <= c && c <= 'f') || ('A' <= c && c <= 'F')
}

fn char_lower(c: char) -> (r: char)
    ensures
        r == lower_char(c),
{
    if 'A' <= c && c <= 'Z' {
        (c as u8 + 32) as char
    } else {
        c
    }
}

/// The characters of `s`.
pub fn chars_of(s: &str) -> (r: Vec<char>)
    ensures
        r@ == s@,
{
    let mut out: Vec<char> = Vec::new();
    for c in it: s.chars()
        invariant
            out@ == it.seq().subrange(0, it.index() as int),
            it.seq() == s@,
    {
        out.push(c);
        assert(out@ == it.seq().subrange(0, it.index() + 1));
    }
    assert(out@ =~= s@);
    out
}

/// The two strings hold the same characters.
pub fn same(a: &str, b: &str) -> (r: bool)
    ensures
        r == (a@ == b@),
{
    a.to_owned() == b.to_owned()
}

pub fn to_lower(s: &str) -> (r: String)
    ensures
        r@ == lower(s@),
{
    let chars = chars_of(s);
    let mut out = String::new();
    let mut i: usize = 0;
    while i < chars.len()
        invariant
            i <= chars.len(),
            chars@ == s@,
            out@ == lower(s@.subrange(0, i as int)),
        decreases chars.len() - i,
    {
        out.push(char_lower(chars[i]));
        i += 1;
        assert(out@ =~= lower(s@.subrange(0, i as int)));
    }
    assert(s@.subrange(0, i as int) =~= s@);
    out
}

proof fn lemma_trim_start_step(s: Seq<char>, i: int)
    requires
        0 <= i < s.len(),
        is_space(s[i]),
    ensures
        trim_start(s.subrange(i, s.len() as int)) == trim_start(s.subrange(i + 1, s.len() as int)),
{
    let tail = s.subrange(i, s.len() as int);
    assert(tail.drop_first() =~= s.subrange(i + 1, s.len() as int));
}

/// `s` without the white space at either end.
pub fn trim(s: &str) -> (r: &str)
    ensures
        r@ == trimmed(s@),
{
    let chars = chars_of(s);
    let mut start: usize = 0;
    let mut end: usize = chars.len();
    assert(s@.subrange(0, s@.len() as int) =~= s@);
    while start < chars.len() && char_is_space(chars[start])
        invariant
            start <= chars.len(),
            chars@ == s@,
            trim_start(s@) == trim_start(s@.subrange(start as int, s@.len() as int)),
        decreases chars.len() - start,
    {
        proof {
            lemma_trim_start_step(s@, start as int);
        }
        start += 1;
    }
    let ghost tail = s@.subrange(start as int, s@.len() as int);
    assert(trim_start(tail) == tail);
    while start < end && char_is_space(chars[end - 1])
        invariant
            start <= end <= chars.len(),
            chars@ == s@,
            tail == s@.subrange(start as int, s@.len() as int),
            trim_end(tail) == trim_end(s@.subrange(start as int, end as int)),
        decreases end,
    {
        proof {
            let here = s@.subrange(start as int, end as int);
            assert(here.last() == s@[end - 1]);
            assert(here.drop_last() =~= s@.subrange(start as int, end - 1));
        }
        end -= 1;
    }
    proof {
        let here = s@.subrange(start as int, end as int);
        if here.len() > 0 {
            assert(here.last() == s@[end - 1]);
        }
    }
    s.substring_char(start, end)
}

/// The characters of `needle` stand in `hay` from position `at` on.
fn matches_at(hay: &Vec<char>, needle: &Vec<char>, at: usize) -> (r: bool)
    requires
        at + needle.len() <= hay.len(),
    ensures
        r == occurs_at(hay@, needle@, at as int),
{
    let mut j: usize = 0;
    while j < needle.len()
        invariant
            j <= needle.len(),
            at + needle.len() <= hay.len(),
            forall|k: int| 0 <= k < j ==> hay@[at + k] == #[trigger] needle@[k],
        decreases needle.len() - j,
    {
        if hay[at + j] != needle[j] {
            assert(hay@.subrange(at as int, at + needle@.len())[j as int] != needle@[j as int]);
            return false;
        }
        j += 1;
    }
    assert(hay@.subrange(at as int, at + needle@.len()) =~= needle@);
    true
}

pub fn finds(hay: &str, needle: &str) -> (r: bool)
    ensures
        r == contains(hay@, needle@),
{
    let h = chars_of(hay);
    let n = chars_of(needle);
    if n.len() > h.len() {
        return false;
    }
    let mut at: usize = 0;
    while at <= h.len() - n.len()
        invariant
            at <= h.len() - n.len() + 1,
            n.len() <= h.len(),
            h@ == hay@,
            n@ == needle@,
            forall|k: int| 0 <= k < at ==> !#[trigger] occurs_at(h@, n@, k),
        decreases h.len() - at,
    {
        if matches_at(&h, &n, at) {
            return true;
        }
        if at == h.len() - n.len() {
            assert(!contains(h@, n@));
            return false;
        }
        at += 1;
    }
    false
}

pub fn begins_with(s: &str, prefix: &str) -> (r: bool)
    ensures
        r == starts_with(s@, prefix@),
{
    let h = chars_of(s);
    let n = chars_of(prefix);
    n.len() <= h.len() && matches_at(&h, &n, 0)
}

/// What follows `prefix`, where `s` starts with it.
pub fn after_prefix<'a>(s: &'a str, prefix: &str) -> (r: Option<&'a str>)
    ensures
        r is Some <==> starts_with(s@, prefix@),
        r matches Some(rest) ==> s@ == prefix@ + rest@,
{
    if begins_with(s, prefix) {
        let rest = s.substring_char(prefix.unicode_len(), s.unicode_len());
        assert(s@ =~= prefix@ + rest@);
        Some(rest)
    } else {
        None
    }
}

/// Some character of `s` is a control character.
pub open spec fn has_control(s: Seq<char>) -> bool {
    exists|i: int| 0 <= i < s.len() && is_control(#[trigger] s[i])
}

pub fn any_control(s: &str) -> (r: bool)
    ensures
        r == has_control(s@),
{
    let chars = chars_of(s);
    let mut i: usize = 0;
    while i < chars.len()
        invariant
            i <= chars.len(),
            chars@ == s@,
            forall|k: int| 0 <= k < i ==> !is_control(#[trigger] s@[k]),
        decreases chars.len() - i,
    {
        if char_is_control(chars[i]) {
            assert(is_control(s@[i as int]));
            return true;
        }
        i += 1;
    }
    false
}

/// The decimal spelling of `n`.
pub fn number(n: u64) -> (r: String)
    ensures
        r@ == decimal(n as nat),
    decreases n,
{
    if n < 10 {
        let mut out = String::new();
        out.push((n as u8 + 48) as char);
        assert(out@ =~= decimal(n as nat));
        out
    } else {
        let mut out = number(n / 10);
        out.push(((n % 10) as u8 + 48) as char);
        out
    }
}

proof fn lemma_digits_grow(s: Seq<char>, i: int)
    requires
        0 <= i <= s.len(),
        all_digits(s),
    ensures
        digits_value(s.subrange(0, i)) <= digits_value(s),
    decreases s.len() - i,
{
    if i < s.len() {
        lemma_digits_grow(s, i + 1);
        let next = s.subrange(0, i + 1);
        assert(next.drop_last() =~= s.subrange(0, i));
        assert(is_digit(s[i]));
    } else {
        assert(s.subrange(0, i) =~= s);
    }
}

/// The number `s` writes, where it writes one of at most `max`.
pub fn parse(s: &str, max: u64) -> (r: Option<u64>)
    ensures
        r is Some <==> parsed(s@, max as nat) is Some,
        r matches Some(n) ==> parsed(s@, max as nat) == Some(n as nat),
{
    let chars = chars_of(s);
    let mut i: usize = 0;
    if chars.len() > 0 && chars[0] == '+' {
        i = 1;
    }
    let ghost from = i as int;
    let ghost digits = unsigned_digits(s@);
    assert(digits =~= s@.subrange(from, s@.len() as int));
    if i == chars.len() {
        return None;
    }
    let mut value: u64 = 0;
    assert(digits.subrange(0, 0) =~= Seq::<char>::empty());
    while i < chars.len()
        invariant
            from <= i <= chars.len(),
            chars@ == s@,
            digits == s@.subrange(from, s@.len() as int),
            digits == unsigned_digits(s@),
            0 <= from < chars.len(),
            value <= max,
            value == digits_value(digits.subrange(0, i - from)),
            forall|k: int| 0 <= k < i - from ==> is_digit(#[trigger] digits[k]),
        decreases chars.len() - i,
    {
        let c = chars[i];
        assert(c == digits[i - from]);
        if c < '0' || '9' < c {
            assert(!is_digit(digits[i - from]));
            return None;
        }
        let d: u64 = (c as u32 - 48) as u64;
        let ghost next = digits.subrange(0, i - from + 1);
        assert(next.drop_last() =~= digits.subrange(0, i - from));
        assert(digits_value(next) == value * 10 + d);
        if d > max || value > (max - d) / 10 {
            proof {
                if all_digits(digits) {
                    lemma_digits_grow(digits, i - from + 1);
                    assert(digits_value(next) > max);
                }
            }
            return None;
        }
        value = value * 10 + d;
        i += 1;
    }
    assert(digits.subrange(0, i - from) =~= digits);
    Some(value)
}

/// A name under a directory, with one slash between them.
pub open spec fn joined_path(parent: Seq<char>, name: Seq<char>) -> Seq<char> {
    if name.len() > 0 && name[0] == '/' {
        name
    } else if parent.len() == 0 || parent.last() == '/' {
        parent + name
    } else {
        parent + "/"@ + name
    }
}

/// The name under the directory; a name that is a whole path stays one.
pub fn join_path(parent: &str, name: &str) -> (r: String)
    ensures
        r@ == joined_path(parent@, name@),
{
    if name.unicode_len() > 0 && name.get_char(0) == '/' {
        return name.to_owned();
    }
    let mut path = parent.to_owned();
    let n: usize = parent.unicode_len();
    if n > 0 && parent.get_char(n - 1) != '/' {
        path.append("/");
    }
    path.append(name);
    path
}

/// The texts one after the other, with the separator between them.
pub open spec fn joined_words(words: Seq<String>, separator: Seq<char>) -> Seq<char>
    decreases words.len(),
{
    if words.len() == 0 {
        Seq::empty()
    } else if words.len() == 1 {
        words[0]@
    } else {
        joined_words(words.drop_last(), separator) + separator + words.last()@
    }
}

/// The texts one after the other, with the separator between them.
pub fn join_words(words: &Vec<String>, separator: &str) -> (r: String)
    ensures
        r@ == joined_words(words@, separator@),
{
    let mut out = String::new();
    let mut i: usize = 0;
    assert(words@.subrange(0, 0) =~= Seq::<String>::empty());
    while i < words.len()
        invariant
            i <= words.len(),
            out@ == joined_words(words@.subrange(0, i as int), separator@),
        decreases words.len() - i,
    {
        let ghost here = words@.subrange(0, i + 1);
        assert(here.drop_last() =~= words@.subrange(0, i as int));
        if i > 0 {
            out.append(separator);
        }
        out.append(words[i].as_str());
        assert(out@ =~= joined_words(here, separator@));
        i += 1;
    }
    assert(words@.subrange(0, i as int) =~= words@);
    out
}

pub proof fn lemma_decimal_digits(n: nat)
    ensures
        decimal(n).len() > 0,
        all_digits(decimal(n)),
        digits_value(decimal(n)) == n,
    decreases n,
{
    reveal_with_fuel(digits_value, 3);
    if n < 10 {
        assert(decimal(n).drop_last() =~= Seq::<char>::empty());
    } else {
        lemma_decimal_digits(n / 10);
        let before = decimal(n / 10);
        assert(decimal(n).drop_last() =~= before);
        assert forall|i: int| 0 <= i < decimal(n).len() implies is_digit(
            #[trigger] decimal(n)[i],
        ) by {
            if i < before.len() {
                assert(is_digit(before[i]));
            }
        }
    }
}

/// A number that was written in decimal is read back as it was.
pub proof fn reading_undoes_writing(n: nat, max: nat)
    requires
        n <= max,
    ensures
        parsed(decimal(n), max) == Some(n),
{
    lemma_decimal_digits(n);
    assert(is_digit(decimal(n)[0]));
}

/// What a list has once something was put at its end: what it had, and that.
pub proof fn contains_pushed<T>(s: Seq<T>, last: T, x: T)
    ensures
        s.push(last).contains(x) <==> s.contains(x) || x == last,
{
    let t = s.push(last);
    if s.contains(x) {
        let k = choose|k: int| 0 <= k < s.len() && s[k] == x;
        assert(t[k] == x);
    }
    if x == last {
        assert(t[s.len() as int] == x);
    }
    if t.contains(x) && x != last {
        let k = choose|k: int| 0 <= k < t.len() && t[k] == x;
        assert(s[k] == x);
    }
}

proof fn lemma_trim_start_cuts(s: Seq<char>) -> (from: int)
    ensures
        0 <= from <= s.len(),
        trim_start(s) == s.subrange(from, s.len() as int),
        forall|k: int| 0 <= k < from ==> is_space(#[trigger] s[k]),
        from < s.len() ==> !is_space(s[from]),
    decreases s.len(),
{
    if s.len() > 0 && is_space(s[0]) {
        let rest = s.drop_first();
        let from = lemma_trim_start_cuts(rest);
        assert(rest.subrange(from, rest.len() as int) =~= s.subrange(from + 1, s.len() as int));
        assert forall|k: int| 0 <= k < from + 1 implies is_space(#[trigger] s[k]) by {
            if k > 0 {
                assert(is_space(rest[k - 1]));
            }
        }
        from + 1
    } else {
        assert(s.subrange(0, s.len() as int) =~= s);
        0
    }
}

proof fn lemma_trim_end_cuts(s: Seq<char>) -> (to: int)
    ensures
        0 <= to <= s.len(),
        trim_end(s) == s.subrange(0, to),
        forall|k: int| to <= k < s.len() ==> is_space(#[trigger] s[k]),
        to > 0 ==> !is_space(s[to - 1]),
    decreases s.len(),
{
    if s.len() > 0 && is_space(s.last()) {
        let init = s.drop_last();
        let to = lemma_trim_end_cuts(init);
        assert(init.subrange(0, to) =~= s.subrange(0, to));
        assert forall|k: int| to <= k < s.len() implies is_space(#[trigger] s[k]) by {
            if k < init.len() {
                assert(is_space(init[k]));
            }
        }
        to
    } else {
        assert(s.subrange(0, s.len() as int) =~= s);
        s.len() as int
    }
}

/// Trimming cuts white space from the two ends and nothing else: what is left is a
/// run of the text, only white space stood before and behind it, and it neither
/// begins nor ends with any.
pub proof fn trimming_cuts_white_space_alone(s: Seq<char>) -> (span: (int, int))
    ensures
        0 <= span.0 <= span.1 <= s.len(),
        trimmed(s) == s.subrange(span.0, span.1),
        forall|k: int| 0 <= k < span.0 ==> is_space(#[trigger] s[k]),
        forall|k: int| span.1 <= k < s.len() ==> is_space(#[trigger] s[k]),
        trimmed(s).len() > 0 ==> !is_space(trimmed(s)[0]) && !is_space(trimmed(s).last()),
{
    let from = lemma_trim_start_cuts(s);
    let rest = s.subrange(from, s.len() as int);
    let to = lemma_trim_end_cuts(rest);
    assert(rest.subrange(0, to) =~= s.subrange(from, from + to));
    assert forall|k: int| from + to <= k < s.len() implies is_space(#[trigger] s[k]) by {
        assert(is_space(rest[k - from]));
    }
    if to > 0 {
        assert(rest[0] == s[from]);
    }
    (from, from + to)
}

/// A text of white space alone is trimmed to nothing, and no other is.
pub proof fn only_white_space_is_trimmed_away(s: Seq<char>)
    ensures
        trimmed(s).len() == 0 <==> forall|k: int| 0 <= k < s.len() ==> is_space(#[trigger] s[k]),
{
    let span = trimming_cuts_white_space_alone(s);
    if trimmed(s).len() > 0 {
        assert(trimmed(s)[0] == s[span.0]);
    }
}

/// Blanks, tabs and line ends are white space; letters, digits and punctuation are
/// not.
pub proof fn visible_characters_are_no_white_space(c: char)
    ensures
        c == ' ' || c == '\t' || c == '\n' || c == '\r' ==> is_space(c),
        '!' <= c <= '~' ==> !is_space(c) && !is_control(c),
        c == ' ' ==> !is_control(c),
        c < ' ' ==> is_control(c),
{
}

/// A name that is no whole path lands under the directory: the path is the
/// directory's, one slash where it does not end in one, and the name.
pub proof fn a_name_is_put_under_its_directory(parent: Seq<char>, name: Seq<char>)
    ensures
        name.len() > 0 && name[0] == '/' ==> joined_path(parent, name) == name,
        !(name.len() > 0 && name[0] == '/') ==> {
            let path = joined_path(parent, name);
            &&& path.len() >= parent.len() + name.len()
            &&& path.subrange(0, parent.len() as int) == parent
            &&& path.subrange(path.len() - name.len(), path.len() as int) == name
            &&& parent.len() > 0 && parent.last() != '/' ==> path.len() == parent.len() + 1
                + name.len() && path[parent.len() as int] == '/'
            &&& parent.len() == 0 || parent.last() == '/' ==> path == parent + name
        },
{
    reveal_strlit("/");
    let path = joined_path(parent, name);
    if !(name.len() > 0 && name[0] == '/') {
        assert(path.subrange(0, parent.len() as int) =~= parent);
        assert(path.subrange(path.len() - name.len(), path.len() as int) =~= name);
    }
}

/// Lowering the case keeps the length, moves the letters from A to Z and leaves
/// every other character.
pub proof fn lowering_moves_capitals_alone(s: Seq<char>, k: int)
    requires
        0 <= k < s.len(),
    ensures
        lower(s).len() == s.len(),
        !('A' <= s[k] <= 'Z') ==> lower(s)[k] == s[k],
        'A' <= s[k] <= 'Z' ==> 'a' <= lower(s)[k] <= 'z' && lower(s)[k] as u32 == s[k] as u32 + 32,
{
}

}
