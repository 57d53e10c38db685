//! Text primitives over `Seq<char>`: trimming, whitespace removal, searching
//! and decimal rendering. Each executable function is tied to a spec function
//! that says what the text operation means.

use vstd::prelude::*;
use vstd::string::StrSliceExecFns;
use vstd::string::StringExecFns;

verus! {

/// The characters with the Unicode `White_Space` property; these are the
/// characters that `char::is_whitespace` accepts.
pub open spec fn is_space(c: char) -> bool {
    ||| c == '\t' || c == '\n' || c == '\u{0B}' || c == '\u{0C}' || c == '\r' || c == ' '
    ||| c == '\u{85}' || c == '\u{A0}' || c == '\u{1680}'
    ||| ('\u{2000}' <= c && c <= '\u{200A}')
    ||| c == '\u{2028}' || c == '\u{2029}' || c == '\u{202F}' || c == '\u{205F}'
    ||| c == '\u{3000}'
}

/// The classes of characters that the library strips from the ends of text.
#[derive(Clone, Copy, Debug, PartialEq, Eq, Structural)]
pub enum CharClass {
    /// Unicode white space.
    Space,
    /// A double or a single quote.
    Quote,
    /// A carriage return or a line feed.
    LineEnd,
}

pub open spec fn in_class(c: char, class: CharClass) -> bool {
    match class {
        CharClass::Space => is_space(c),
        CharClass::Quote => c == '"' || c == '\'',
        CharClass::LineEnd => c == '\r' || c == '\n',
    }
}

pub fn is_in_class(c: char, class: CharClass) -> (r: bool)
    ensures
        r == in_class(c, class),
{
    match class {
        CharClass::Space => {
            c == '\t' || c == '\n' || c == '\u{0B}' || c == '\u{0C}' || c == '\r' || c == ' '
                || c == '\u{85}' || c == '\u{A0}' || c == '\u{1680}' || ('\u{2000}' <= c && c
                <= '\u{200A}') || c == '\u{2028}' || c == '\u{2029}' || c == '\u{202F}' || c
                == '\u{205F}' || c == '\u{3000}'
        },
        CharClass::Quote => c == '"' || c == '\'',
        CharClass::LineEnd => c == '\r' || c == '\n',
    }
}

/// `s` with every leading character of `class` removed.
pub open spec fn strip_front(s: Seq<char>, class: CharClass) -> Seq<char>
    decreases s.len(),
{
    if s.len() > 0 && in_class(s[0], class) {
        strip_front(s.drop_first(), class)
    } else {
        s
    }
}

/// `s` with every trailing character of `class` removed.
pub open spec fn strip_back(s: Seq<char>, class: CharClass) -> Seq<char>
    decreases s.len(),
{
    if s.len() > 0 && in_class(s.last(), class) {
        strip_back(s.drop_last(), class)
    } else {
        s
    }
}

/// `s` with the characters of `class` removed from both ends.
pub open spec fn strip_both(s: Seq<char>, class: CharClass) -> Seq<char> {
    strip_back(strip_front(s, class), class)
}

/// What `str::trim` gives back.
pub open spec fn trimmed(s: Seq<char>) -> Seq<char> {
    strip_both(s, CharClass::Space)
}

/// `s` without any white-space character, which is what collecting
/// `split_whitespace` into one string gives.
pub open spec fn without_spaces(s: Seq<char>) -> Seq<char> {
    s.filter(|c: char| !is_space(c))
}

pub open spec fn occurs_at(hay: Seq<char>, needle: Seq<char>, i: int) -> bool {
    &&& 0 <= i
    &&& i + needle.len() <= hay.len()
    &&& hay.subrange(i, i + needle.len()) == needle
}

/// `needle` occurs somewhere in `hay`.
pub open spec fn has_infix(hay: Seq<char>, needle: Seq<char>) -> bool {
    exists|i: int| #[trigger] occurs_at(hay, needle, i)
}

/// `s` begins with `prefix`.
pub open spec fn has_prefix(s: Seq<char>, prefix: Seq<char>) -> bool {
    occurs_at(s, prefix, 0)
}

/// The characters of a string slice, in order.
pub fn chars_of(s: &str) -> (v: Vec<char>)
    ensures
        v@ == s@,
{
    let n = s.unicode_len();
    let mut v: Vec<char> = Vec::new();
    let mut i: usize = 0;
    while i < n
        invariant
            n == s@.len(),
            i <= n,
            v@ == s@.subrange(0, i as int),
        decreases n - i,
    {
        v.push(s.get_char(i));
        i = i + 1;
    }
    assert(v@ == s@);
    v
}

/// Appends one character; this is `String::push`, which adds `c` at the end
/// of the string and changes nothing else.
#[verifier::external_body]
fn push_char(s: &mut String, c: char)
    ensures
        final(s)@ == old(s)@.push(c),
{
    s.push(c);
}

/// A string made of the given characters.
pub fn string_of(chars: &[char]) -> (r: String)
    ensures
        r@ == chars@,
{
    let mut r = String::new();
    let mut i: usize = 0;
    while i < chars.len()
        invariant
            i <= chars@.len(),
            r@ == chars@.subrange(0, i as int),
        decreases chars@.len() - i,
    {
        push_char(&mut r, chars[i]);
        assert(chars@.subrange(0, i + 1) == chars@.subrange(0, i as int).push(chars@[i as int]));
        i = i + 1;
    }
    assert(chars@.subrange(0, chars@.len() as int) == chars@);
    r
}

/// The index of the first character of `s` that is not of `class`.
fn front_index(s: &[char], class: CharClass) -> (i: usize)
    ensures
        i <= s@.len(),
        strip_front(s@, class) == s@.subrange(i as int, s@.len() as int),
{
    let n = s.len();
    let mut i: usize = 0;
    assert(s@.subrange(0, n as int) == s@);
    while i < n && is_in_class(s[i], class)
        invariant
            n == s@.len(),
            i <= n,
            strip_front(s@, class) == strip_front(s@.subrange(i as int, n as int), class),
        decreases n - i,
    {
        let ghost rest = s@.subrange(i as int, n as int);
        assert(rest.drop_first() == s@.subrange(i + 1, n as int));
        i = i + 1;
    }
    i
}

/// The end of `s[lo..]` once the trailing characters of `class` are removed.
fn back_index(s: &[char], lo: usize, class: CharClass) -> (j: usize)
    requires
        lo <= s@.len(),
    ensures
        lo <= j <= s@.len(),
        strip_back(s@.subrange(lo as int, s@.len() as int), class) == s@.subrange(
            lo as int,
            j as int,
        ),
{
    let n = s.len();
    let mut j: usize = n;
    while j > lo && is_in_class(s[j - 1], class)
        invariant
            n == s@.len(),
            lo <= j <= n,
            strip_back(s@.subrange(lo as int, n as int), class) == strip_back(
                s@.subrange(lo as int, j as int),
                class,
            ),
        decreases j,
    {
        let ghost part = s@.subrange(lo as int, j as int);
        assert(part.drop_last() == s@.subrange(lo as int, j - 1));
        j = j - 1;
    }
    j
}

/// Removes the characters of `class` from both ends, like `str::trim_matches`.
pub fn strip_chars(s: &str, class: CharClass) -> (r: String)
    ensures
        r@ == strip_both(s@, class),
{
    let v = chars_of(s);
    let i = front_index(v.as_slice(), class);
    let j = back_index(v.as_slice(), i, class);
    let mut out: Vec<char> = Vec::new();
    let mut k: usize = i;
    while k < j
        invariant
            i <= k <= j <= v@.len(),
            out@ == v@.subrange(i as int, k as int),
        decreases j - k,
    {
        out.push(v[k]);
        k = k + 1;
    }
    string_of(out.as_slice())
}

/// Removes the characters of `class` from the end, like `str::trim_end_matches`.
pub fn strip_end(s: &str, class: CharClass) -> (r: String)
    ensures
        r@ == strip_back(s@, class),
{
    let v = chars_of(s);
    let j = back_index(v.as_slice(), 0, class);
    assert(v@.subrange(0, v@.len() as int) == v@);
    let mut out: Vec<char> = Vec::new();
    let mut k: usize = 0;
    while k < j
        invariant
            k <= j <= v@.len(),
            out@ == v@.subrange(0, k as int),
        decreases j - k,
    {
        out.push(v[k]);
        k = k + 1;
    }
    string_of(out.as_slice())
}

/// `str::trim`: white space removed from both ends.
pub fn trim(s: &str) -> (r: String)
    ensures
        r@ == trimmed(s@),
{
    strip_chars(s, CharClass::Space)
}

proof fn lemma_strip_front_all(s: Seq<char>, class: CharClass)
    ensures
        strip_front(s, class).len() == 0 <==> forall|k: int|
            0 <= k < s.len() ==> #[trigger] in_class(s[k], class),
    decreases s.len(),
{
    if s.len() > 0 && in_class(s[0], class) {
        lemma_strip_front_all(s.drop_first(), class);
        assert forall|k: int| 0 <= k < s.len() && (forall|m: int| 0 <= m < s.drop_first().len() ==> #[trigger] in_class(s.drop_first()[m], class)) implies in_class(s[k], class) by {
            if k > 0 {
                assert(s[k] == s.drop_first()[k - 1]);
            }
        }
    }
}

proof fn lemma_strip_front_idempotent(s: Seq<char>, class: CharClass)
    ensures
        strip_front(strip_front(s, class), class) == strip_front(s, class),
    decreases s.len(),
{
    if s.len() > 0 && in_class(s[0], class) {
        lemma_strip_front_idempotent(s.drop_first(), class);
    }
}

proof fn lemma_strip_back_empty(s: Seq<char>, class: CharClass)
    ensures
        strip_back(s, class).len() == 0 ==> s.len() == 0 || strip_front(s, class).len() == 0,
        s.len() == 0 ==> strip_back(s, class).len() == 0,
    decreases s.len(),
{
    if s.len() > 0 && in_class(s.last(), class) {
        lemma_strip_back_empty(s.drop_last(), class);
        lemma_strip_front_all(s.drop_last(), class);
        lemma_strip_front_all(s, class);
        if strip_back(s, class).len() == 0 && s.drop_last().len() > 0 {
            assert forall|k: int| 0 <= k < s.len() implies #[trigger] in_class(s[k], class) by {
                if k < s.len() - 1 {
                    assert(s[k] == s.drop_last()[k]);
                }
            }
        }
    }
}

/// The text is empty or white space only, like `s.trim().is_empty()`.
pub fn is_blank(s: &str) -> (r: bool)
    ensures
        r == (trimmed(s@).len() == 0),
        r == forall|k: int| 0 <= k < s@.len() ==> #[trigger] is_space(s@[k]),
{
    let v = chars_of(s);
    let i = front_index(v.as_slice(), CharClass::Space);
    proof {
        lemma_strip_front_all(s@, CharClass::Space);
        lemma_strip_back_empty(strip_front(s@, CharClass::Space), CharClass::Space);
        lemma_strip_front_idempotent(s@, CharClass::Space);
        assert forall|k: int| 0 <= k < s@.len() implies (#[trigger] is_space(s@[k])) == in_class(
            s@[k],
            CharClass::Space,
        ) by {}
    }
    i == v.len()
}

/// Every white-space character removed, like `s.split_whitespace().collect::<String>()`.
pub fn remove_spaces(s: &str) -> (r: String)
    ensures
        r@ == without_spaces(s@),
{
    let v = chars_of(s);
    let mut out: Vec<char> = Vec::new();
    let mut k: usize = 0;
    while k < v.len()
        invariant
            k <= v@.len(),
            v@ == s@,
            out@ == without_spaces(v@.subrange(0, k as int)),
        decreases v@.len() - k,
    {
        let c = v[k];
        let ghost pre = v@.subrange(0, k as int);
        proof {
            assert(v@.subrange(0, k + 1) == pre.push(c));
            lemma_filter_push(pre, |c: char| !is_space(c), c);
        }
        if !is_in_class(c, CharClass::Space) {
            out.push(c);
        }
        k = k + 1;
    }
    assert(v@.subrange(0, v@.len() as int) == v@);
    string_of(out.as_slice())
}

proof fn lemma_filter_push(s: Seq<char>, pred: spec_fn(char) -> bool, c: char)
    ensures
        pred(c) ==> s.push(c).filter(pred) == s.filter(pred).push(c),
        !pred(c) ==> s.push(c).filter(pred) == s.filter(pred),
{
    reveal(Seq::filter);
    assert(s.push(c).drop_last() == s);
}

fn occurs_at_exec(hay: &[char], needle: &[char], i: usize) -> (r: bool)
    requires
        i + needle@.len() <= hay@.len(),
    ensures
        r == occurs_at(hay@, needle@, i as int),
{
    let hl = hay.len();
    let mut k: usize = 0;
    while k < needle.len()
        invariant
            hl == hay@.len(),
            i + needle@.len() <= hl,
            k <= needle@.len(),
            forall|m: int| 0 <= m < k ==> hay@[i + m] == needle@[m],
        decreases needle@.len() - k,
    {
        if hay[i + k] != needle[k] {
            assert(hay@.subrange(i as int, i + needle@.len())[k as int] != needle@[k as int]);
            return false;
        }
        k = k + 1;
    }
    assert(hay@.subrange(i as int, i + needle@.len()) == needle@);
    true
}

/// `needle` occurs in `hay`, like `str::contains`.
pub fn contains(hay: &str, needle: &str) -> (r: bool)
    ensures
        r == has_infix(hay@, needle@),
{
    let h = chars_of(hay);
    let n = chars_of(needle);
    if n.len() > h.len() {
        assert forall|i: int| !occurs_at(hay@, needle@, i) by {}
        return false;
    }
    let last = h.len() - n.len();
    let mut i: usize = 0;
    loop
        invariant_except_break
            i <= last,
            forall|m: int| 0 <= m < i ==> !#[trigger] occurs_at(hay@, needle@, m),
        invariant
            h@ == hay@,
            n@ == needle@,
            last == h@.len() - n@.len(),
        ensures
            forall|m: int| 0 <= m <= last ==> !#[trigger] occurs_at(hay@, needle@, m),
        decreases last - i,
    {
        if occurs_at_exec(h.as_slice(), n.as_slice(), i) {
            assert(occurs_at(hay@, needle@, i as int));
            return true;
        }
        if i == last {
            break;
        }
        i = i + 1;
    }
    assert forall|m: int| !occurs_at(hay@, needle@, m) by {
        if 0 <= m <= last {
        }
    }
    false
}

/// `s` begins with `prefix`, like `str::starts_with`.
pub fn starts_with(s: &str, prefix: &str) -> (r: bool)
    ensures
        r == has_prefix(s@, prefix@),
{
    let h = chars_of(s);
    let p = chars_of(prefix);
    if p.len() > h.len() {
        return false;
    }
    occurs_at_exec(h.as_slice(), p.as_slice(), 0)
}

/// The two texts are equal.
pub fn same_text(a: &str, b: &str) -> (r: bool)
    ensures
        r == (a@ == b@),
{
    let x = chars_of(a);
    let y = chars_of(b);
    if x.len() != y.len() {
        return false;
    }
    let r = occurs_at_exec(x.as_slice(), y.as_slice(), 0);
    assert(x@.subrange(0, y@.len() as int) == x@);
    r
}

/// `a` sorts before `b` in the order of `String`'s `Ord`: character by
/// character, and a proper prefix first. (Comparing UTF-8 bytes, as `str`
/// does, orders text the same way as comparing characters.)
pub open spec fn text_lt(a: Seq<char>, b: Seq<char>) -> bool
    decreases a.len(),
{
    if b.len() == 0 {
        false
    } else if a.len() == 0 {
        true
    } else if a[0] != b[0] {
        a[0] < b[0]
    } else {
        text_lt(a.drop_first(), b.drop_first())
    }
}

pub proof fn lemma_text_lt_irreflexive(a: Seq<char>)
    ensures
        !text_lt(a, a),
    decreases a.len(),
{
    if a.len() > 0 {
        lemma_text_lt_irreflexive(a.drop_first());
    }
}

pub proof fn lemma_text_lt_transitive(a: Seq<char>, b: Seq<char>, c: Seq<char>)
    requires
        text_lt(a, b),
        text_lt(b, c),
    ensures
        text_lt(a, c),
    decreases a.len(),
{
    if a.len() > 0 && a[0] == b[0] && b[0] == c[0] {
        lemma_text_lt_transitive(a.drop_first(), b.drop_first(), c.drop_first());
    }
}

pub proof fn lemma_text_lt_total(a: Seq<char>, b: Seq<char>)
    ensures
        a == b || text_lt(a, b) || text_lt(b, a),
    decreases a.len(),
{
    if a.len() > 0 && b.len() > 0 && a[0] == b[0] {
        lemma_text_lt_total(a.drop_first(), b.drop_first());
        if a.drop_first() == b.drop_first() {
            assert(a =~= b) by {
                assert forall|i: int| 0 <= i < a.len() implies a[i] == b[i] by {
                    if i > 0 {
                        assert(a[i] == a.drop_first()[i - 1]);
                        assert(b[i] == b.drop_first()[i - 1]);
                    }
                }
            }
        }
    } else if a.len() == 0 && b.len() == 0 {
        assert(a =~= b);
    }
}

/// `a` sorts before `b` (see `text_lt`).
pub fn text_less(a: &str, b: &str) -> (r: bool)
    ensures
        r == text_lt(a@, b@),
{
    let x = chars_of(a);
    let y = chars_of(b);
    let mut i: usize = 0;
    assert(a@.subrange(0, a@.len() as int) == a@);
    assert(b@.subrange(0, b@.len() as int) == b@);
    while i < x.len() && i < y.len() && x[i] == y[i]
        invariant
            x@ == a@,
            y@ == b@,
            i <= x@.len(),
            i <= y@.len(),
            text_lt(a@, b@) == text_lt(a@.subrange(i as int, a@.len() as int), b@.subrange(i as int, b@.len() as int)),
        decreases x@.len() - i,
    {
        let ghost sa = a@.subrange(i as int, a@.len() as int);
        let ghost sb = b@.subrange(i as int, b@.len() as int);
        assert(sa.drop_first() =~= a@.subrange(i + 1, a@.len() as int));
        assert(sb.drop_first() =~= b@.subrange(i + 1, b@.len() as int));
        i = i + 1;
    }
    if i == y.len() {
        false
    } else if i == x.len() {
        true
    } else {
        x[i] < y[i]
    }
}

/// The text that `str::to_lowercase` makes of `s` (the Unicode lowercase
/// mapping, under which one character may become several).
pub uninterp spec fn lowercase(s: Seq<char>) -> Seq<char>;

/// Every character of `s` is an ASCII character.
pub open spec fn is_ascii_text(s: Seq<char>) -> bool {
    forall|i: int| 0 <= i < s.len() ==> (#[trigger] s[i] as int) < 128
}

/// `c` under the ASCII case mapping: `A` to `Z` become `a` to `z`, and every
/// other character stays as it is.
pub open spec fn ascii_lower_char(c: char) -> char {
    if 'A' <= c && c <= 'Z' {
        ((c as int) + 32) as char
    } else {
        c
    }
}

/// `s` with each character under the ASCII case mapping.
pub open spec fn ascii_lowercase(s: Seq<char>) -> Seq<char> {
    s.map_values(|c: char| ascii_lower_char(c))
}

/// `str::to_lowercase`. The contract names its result; of the Unicode case
/// mapping it states only what it does to ASCII text, where `A` to `Z`
/// become `a` to `z` and every other character stays. The mapping of the
/// other characters is not written out here.
#[verifier::external_body]
pub(crate) fn to_lowercase(s: &str) -> (r: String)
    ensures
        r@ == lowercase(s@),
        is_ascii_text(s@) ==> r@ == ascii_lowercase(s@),
{
    s.to_lowercase()
}

pub open spec fn digit_char(d: nat) -> char {
    if d == 0 {
        '0'
    } else if d == 1 {
        '1'
    } else if d == 2 {
        '2'
    } else if d == 3 {
        '3'
    } else if d == 4 {
        '4'
    } else if d == 5 {
        '5'
    } else if d == 6 {
        '6'
    } else if d == 7 {
        '7'
    } else if d == 8 {
        '8'
    } else {
        '9'
    }
}

/// The decimal digits of `n`, without leading zeros.
pub open spec fn decimal(n: nat) -> Seq<char>
    decreases n,
{
    if n < 10 {
        seq![digit_char(n)]
    } else {
        decimal(n / 10).push(digit_char(n % 10))
    }
}

/// The decimal form of `x`, with a leading minus sign when it is negative.
pub open spec fn signed_decimal(x: int) -> Seq<char> {
    if x < 0 {
        seq!['-'] + decimal((-x) as nat)
    } else {
        decimal(x as nat)
    }
}

fn digit(d: u64) -> (c: char)
    requires
        d < 10,
    ensures
        c == digit_char(d as nat),
{
    if d == 0 {
        '0'
    } else if d == 1 {
        '1'
    } else if d == 2 {
        '2'
    } else if d == 3 {
        '3'
    } else if d == 4 {
        '4'
    } else if d == 5 {
        '5'
    } else if d == 6 {
        '6'
    } else if d == 7 {
        '7'
    } else if d == 8 {
        '8'
    } else {
        '9'
    }
}

fn decimal_chars(n: u64) -> (v: Vec<char>)
    ensures
        v@ == decimal(n as nat),
{
    let mut m: u64 = n;
    let mut suffix: Vec<char> = Vec::new();
    while m >= 10
        invariant
            decimal(n as nat) == decimal(m as nat) + suffix@,
        decreases m,
    {
        let d = m % 10;
        let ghost old_suffix = suffix@;
        suffix.insert(0, digit(d));
        assert(decimal(m as nat) == decimal((m / 10) as nat).push(digit_char(d as nat)));
        assert(decimal(m as nat) + old_suffix == decimal((m / 10) as nat) + suffix@);
        m = m / 10;
    }
    let ghost old_suffix = suffix@;
    suffix.insert(0, digit(m));
    assert(decimal(m as nat) + old_suffix == suffix@);
    suffix
}

/// `n.to_string()` for an unsigned integer.
pub fn u64_to_text(n: u64) -> (r: String)
    ensures
        r@ == decimal(n as nat),
{
    let v = decimal_chars(n);
    string_of(v.as_slice())
}

/// `x.to_string()` for a signed integer.
pub fn i64_to_text(x: i64) -> (r: String)
    ensures
        r@ == signed_decimal(x as int),
{
    if x < 0 {
        let magnitude: u64 = (-(x as i128)) as u64;
        let v = decimal_chars(magnitude);
        let mut all: Vec<char> = Vec::new();
        all.push('-');
        let mut k: usize = 0;
        while k < v.len()
            invariant
                k <= v@.len(),
                all@ == seq!['-'] + v@.subrange(0, k as int),
            decreases v@.len() - k,
        {
            all.push(v[k]);
            assert(seq!['-'] + v@.subrange(0, k + 1) == (seq!['-'] + v@.subrange(0, k as int)).push(v@[k as int]));
            k = k + 1;
        }
        assert(v@.subrange(0, v@.len() as int) == v@);
        string_of(all.as_slice())
    } else {
        u64_to_text(x as u64)
    }
}

/// `parts` joined with `sep` between each two neighbours.
pub open spec fn joined(parts: Seq<Seq<char>>, sep: Seq<char>) -> Seq<char>
    decreases parts.len(),
{
    if parts.len() == 0 {
        Seq::empty()
    } else if parts.len() == 1 {
        parts[0]
    } else {
        joined(parts.drop_last(), sep) + sep + parts.last()
    }
}

/// `parts.join(sep)`.
pub fn join_text(parts: &Vec<String>, sep: &str) -> (r: String)
    ensures
        r@ == joined(parts@.map_values(|p: String| p@), sep@),
{
    let ghost views = parts@.map_values(|p: String| p@);
    let mut r = String::new();
    let mut i: usize = 0;
    while i < parts.len()
        invariant
            i <= parts@.len(),
            views == parts@.map_values(|p: String| p@),
            r@ == joined(views.take(i as int), sep@),
        decreases parts@.len() - i,
    {
        assert(views.take(i + 1).drop_last() == views.take(i as int));
        if i > 0 {
            r.append(sep);
        }
        r.append(parts[i].as_str());
        i = i + 1;
    }
    assert(views.take(parts@.len() as int) == views);
    r
}

} // verus!
