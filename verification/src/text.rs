//! Text helpers: numbers rendered as digits, the few string operations of
//! the standard library that the orchestrator relies on, and path joining.

use vstd::prelude::*;
use vstd::string::*;

verus! {

/// The character for one decimal or hexadecimal digit.
pub open spec fn digit(d: nat) -> char {
    if d == 0 {
        '0'
    } else if d == 1 {
        '1'
    } else if d == 2 {
        '2'
    } else if d == 3 {
        '3'
    } else if d == 4 {
        '4'
    } else if d == 5 {
        '5'
    } else if d == 6 {
        '6'
    } else if d == 7 {
        '7'
    } else if d == 8 {
        '8'
    } else if d == 9 {
        '9'
    } else if d == 10 {
        'a'
    } else if d == 11 {
        'b'
    } else if d == 12 {
        'c'
    } else if d == 13 {
        'd'
    } else if d == 14 {
        'e'
    } else {
        'f'
    }
}

/// `n` in decimal, as the standard formatter prints an unsigned integer:
/// most significant digit first, without leading zeros.
pub open spec fn decimal(n: nat) -> Seq<char>
    decreases n,
{
    if n < 10 {
        seq![digit(n)]
    } else {
        decimal(n / 10).push(digit(n % 10))
    }
}

/// `n` in lower-case hexadecimal, most significant digit first, without
/// leading zeros.
pub open spec fn hexadecimal(n: nat) -> Seq<char>
    decreases n,
{
    if n < 16 {
        seq![digit(n)]
    } else {
        hexadecimal(n / 16).push(digit(n % 16))
    }
}

/// `n` in decimal with a leading minus sign when negative.
pub open spec fn signed_decimal(n: int) -> Seq<char> {
    if n < 0 {
        seq!['-'] + decimal((-n) as nat)
    } else {
        decimal(n as nat)
    }
}

/// `count` zeros.
pub open spec fn zeros(count: nat) -> Seq<char> {
    Seq::new(count, |i: int| '0')
}

/// `body` padded on the left with zeros up to `width` characters; a longer
/// body is left as it is.
pub open spec fn zero_padded(body: Seq<char>, width: nat) -> Seq<char> {
    if body.len() >= width {
        body
    } else {
        zeros((width - body.len()) as nat) + body
    }
}

/// `String::push`: the character is appended at the end.
pub assume_specification[ String::push ](s: &mut String, ch: char)
    ensures
        final(s)@ == old(s)@.push(ch),
;

fn digit_char(d: u64) -> (c: char)
    requires
        d < 16,
    ensures
        c == digit(d as nat),
{
    if d == 0 {
        '0'
    } else if d == 1 {
        '1'
    } else if d == 2 {
        '2'
    } else if d == 3 {
        '3'
    } else if d == 4 {
        '4'
    } else if d == 5 {
        '5'
    } else if d == 6 {
        '6'
    } else if d == 7 {
        '7'
    } else if d == 8 {
        '8'
    } else if d == 9 {
        '9'
    } else if d == 10 {
        'a'
    } else if d == 11 {
        'b'
    } else if d == 12 {
        'c'
    } else if d == 13 {
        'd'
    } else if d == 14 {
        'e'
    } else {
        'f'
    }
}

fn digits_string(n: u64, hex: bool) -> (s: String)
    ensures
        s@ == if hex {
            hexadecimal(n as nat)
        } else {
            decimal(n as nat)
        },
    decreases n,
{
    if hex {
        if n < 16 {
            let mut s = String::new();
            s.push(digit_char(n));
            s
        } else {
            let mut s = digits_string(n / 16, true);
            s.push(digit_char(n % 16));
            s
        }
    } else {
        if n < 10 {
            let mut s = String::new();
            s.push(digit_char(n));
            s
        } else {
            let mut s = digits_string(n / 10, false);
            s.push(digit_char(n % 10));
            s
        }
    }
}

/// Renders `n` in decimal.
pub fn decimal_string(n: u64) -> (s: String)
    ensures
        s@ == decimal(n as nat),
{
    digits_string(n, false)
}

/// Renders `n` in decimal, with a minus sign when it is negative.
pub fn signed_decimal_string(n: i32) -> (s: String)
    ensures
        s@ == signed_decimal(n as int),
{
    if n < 0 {
        let magnitude: u64 = (-(n as i64)) as u64;
        let mut s = String::new();
        s.push('-');
        let body = digits_string(magnitude, false);
        s.append(body.as_str());
        s
    } else {
        digits_string(n as u64, false)
    }
}

fn pad_zeros(body: String, width: usize) -> (s: String)
    ensures
        s@ == zero_padded(body@, width as nat),
{
    let len = body.as_str().unicode_len();
    if len >= width {
        return body;
    }
    let mut s = String::new();
    let mut i: usize = 0;
    while i < width - len
        invariant
            len < width,
            i <= width - len,
            s@ == zeros(i as nat),
        decreases width - len - i,
    {
        s.push('0');
        i += 1;
        assert(s@ =~= zeros(i as nat));
    }
    s.append(body.as_str());
    s
}

/// Renders `n` in decimal, at least `width` characters wide, padded with
/// zeros on the left.
pub fn padded_decimal_string(n: u64, width: usize) -> (s: String)
    ensures
        s@ == zero_padded(decimal(n as nat), width as nat),
{
    pad_zeros(digits_string(n, false), width)
}

/// Renders `n` in lower-case hexadecimal, at least `width` characters wide,
/// padded with zeros on the left.
pub fn padded_hex_string(n: u64, width: usize) -> (s: String)
    ensures
        s@ == zero_padded(hexadecimal(n as nat), width as nat),
{
    pad_zeros(digits_string(n, true), width)
}

/// The characters of `s`, one by one.
pub fn chars_of(s: &str) -> (out: Vec<char>)
    ensures
        out@ == s@,
{
    let mut out: Vec<char> = Vec::new();
    for c in iter: s.chars()
        invariant
            iter.seq() == s@,
            out@ == iter.seq().take(iter.index() as int),
    {
        out.push(c);
    }
    out
}

/// Whether two texts are the same.
pub fn same(a: &str, b: &str) -> (r: bool)
    ensures
        r == (a@ == b@),
{
    let x = chars_of(a);
    let y = chars_of(b);
    if x.len() != y.len() {
        return false;
    }
    let mut i: usize = 0;
    while i < x.len()
        invariant
            x@ == a@,
            y@ == b@,
            x.len() == y.len(),
            i <= x.len(),
            forall|j: int| 0 <= j < i ==> x@[j] == y@[j],
        decreases x.len() - i,
    {
        if x[i] != y[i] {
            return false;
        }
        i += 1;
    }
    assert(x@ =~= y@);
    true
}

fn string_between(chars: &Vec<char>, from: usize, to: usize) -> (s: String)
    requires
        from <= to <= chars.len(),
    ensures
        s@ == chars@.subrange(from as int, to as int),
{
    let mut s = String::new();
    let mut i: usize = from;
    while i < to
        invariant
            from <= i <= to <= chars.len(),
            s@ == chars@.subrange(from as int, i as int),
        decreases to - i,
    {
        s.push(chars[i]);
        i += 1;
        assert(s@ =~= chars@.subrange(from as int, i as int));
    }
    s
}

/// Whether `text` begins with `prefix`.
pub fn starts_with(text: &str, prefix: &str) -> (r: bool)
    ensures
        r == prefix@.is_prefix_of(text@),
{
    let t = chars_of(text);
    let p = chars_of(prefix);
    if p.len() > t.len() {
        return false;
    }
    let mut i: usize = 0;
    while i < p.len()
        invariant
            p@ == prefix@,
            t@ == text@,
            p.len() <= t.len(),
            i <= p.len(),
            forall|j: int| 0 <= j < i ==> p@[j] == t@[j],
        decreases p.len() - i,
    {
        if p[i] != t[i] {
            assert(t@.subrange(0, p@.len() as int)[i as int] != p@[i as int]);
            return false;
        }
        i += 1;
    }
    assert(p@ =~= t@.subrange(0, p@.len() as int));
    true
}

/// The result of pushing the component `part` onto the path `base`: an
/// absolute `part` replaces `base`, otherwise the two are joined by one
/// separator unless `base` is empty or already ends in one.
pub open spec fn joined(base: Seq<char>, part: Seq<char>) -> Seq<char> {
    if part.len() > 0 && part[0] == '/' {
        part
    } else if base.len() == 0 || base.last() == '/' {
        base + part
    } else {
        base + seq!['/'] + part
    }
}

/// Pushes `part` onto the path `base`.
pub fn join_path(base: &str, part: &str) -> (r: String)
    ensures
        r@ == joined(base@, part@),
{
    let part_len = part.unicode_len();
    if part_len > 0 && part.get_char(0) == '/' {
        return String::from_str(part);
    }
    let base_len = base.unicode_len();
    let mut r = String::from_str(base);
    if base_len > 0 && base.get_char(base_len - 1) != '/' {
        r.push('/');
    }
    r.append(part);
    r
}

/// What is left of the path `path` below the directory `prefix`, as
/// `Path::strip_prefix` computes it: `None` when `path` does not begin with
/// the components of `prefix`.
pub uninterp spec fn path_below(path: Seq<char>, prefix: Seq<char>) -> Option<Seq<char>>;

/// `std::path::Path::strip_prefix`: the two paths are compared component by
/// component, and the result is what remains of `path` after the
/// components of `prefix`.
#[verifier::external_body]
pub(crate) fn strip_prefix(path: &str, prefix: &str) -> (r: Option<String>)
    ensures
        r.deep_view() == path_below(path@, prefix@),
{
    match std::path::Path::new(path).strip_prefix(prefix) {
        Ok(rest) => Some(rest.to_string_lossy().into_owned()),
        Err(_) => None,
    }
}

/// `items` joined by `sep`.
pub open spec fn joined_with(items: Seq<Seq<char>>, sep: Seq<char>) -> Seq<char>
    decreases items.len(),
{
    if items.len() == 0 {
        Seq::empty()
    } else if items.len() == 1 {
        items[0]
    } else {
        joined_with(items.drop_last(), sep) + sep + items.last()
    }
}

/// Joins `items` with `sep` between each two.
pub fn join_with(items: &Vec<String>, sep: &str) -> (r: String)
    ensures
        r@ == joined_with(items.deep_view(), sep@),
{
    let mut r = String::new();
    let mut i: usize = 0;
    while i < items.len()
        invariant
            i <= items.len(),
            r@ == joined_with(items.deep_view().take(i as int), sep@),
        decreases items.len() - i,
    {
        if i > 0 {
            r.append(sep);
        }
        r.append(items[i].as_str());
        i += 1;
        proof {
            let now = items.deep_view().take(i as int);
            assert(now.drop_last() =~= items.deep_view().take(i - 1));
            assert(now.last() == items[i - 1]@);
            if i > 1 {
                assert(r@ =~= joined_with(now.drop_last(), sep@) + sep@ + now.last());
            } else {
                assert(r@ =~= now[0]);
            }
        }
    }
    assert(items.deep_view().take(i as int) =~= items.deep_view());
    r
}

/// The lower-case form of a text, as `str::to_lowercase` computes it.
pub uninterp spec fn lowercase(s: Seq<char>) -> Seq<char>;

/// `str::to_lowercase`: the result is the lower-case form of `s` by the
/// Unicode rules that the standard library implements.
#[verifier::external_body]
pub(crate) fn to_lowercase(s: &str) -> (r: String)
    ensures
        r@ == lowercase(s@),
{
    s.to_lowercase()
}

/// Whether `c` is white space: one of the characters with the Unicode
/// property `White_Space`.
pub open spec fn is_white_space(c: char) -> bool {
    let n = c as u32;
    ||| 0x09 <= n <= 0x0d
    ||| n == 0x20
    ||| n == 0x85
    ||| n == 0xa0
    ||| n == 0x1680
    ||| 0x2000 <= n <= 0x200a
    ||| n == 0x2028
    ||| n == 0x2029
    ||| n == 0x202f
    ||| n == 0x205f
    ||| n == 0x3000
}

fn white_space(c: char) -> (r: bool)
    ensures
        r == is_white_space(c),
{
    let n = c as u32;
    (0x09 <= n && n <= 0x0d) || n == 0x20 || n == 0x85 || n == 0xa0 || n == 0x1680 || (0x2000
        <= n && n <= 0x200a) || n == 0x2028 || n == 0x2029 || n == 0x202f || n == 0x205f || n
        == 0x3000
}

/// `s` without the white space at its end.
pub open spec fn trimmed_end(s: Seq<char>) -> Seq<char>
    decreases s.len(),
{
    if s.len() > 0 && is_white_space(s.last()) {
        trimmed_end(s.drop_last())
    } else {
        s
    }
}

/// Removes the white space at the end of `s`.
pub fn trim_end(s: &str) -> (r: String)
    ensures
        r@ == trimmed_end(s@),
{
    let chars = chars_of(s);
    let mut end: usize = chars.len();
    assert(chars@.take(end as int) =~= chars@);
    while end > 0 && white_space(chars[end - 1])
        invariant
            end <= chars.len(),
            trimmed_end(chars@) == trimmed_end(chars@.take(end as int)),
        decreases end,
    {
        assert(chars@.take(end as int).drop_last() =~= chars@.take(end - 1));
        end -= 1;
    }
    string_between(&chars, 0, end)
}

/// `text` with every match of `from` replaced by `to`: the matches are
/// looked for from the left and do not overlap. An empty `from` matches
/// nowhere.
pub open spec fn replaced(text: Seq<char>, from: Seq<char>, to: Seq<char>) -> Seq<char>
    decreases text.len(),
{
    if from.len() == 0 || text.len() < from.len() {
        text
    } else if from.is_prefix_of(text) {
        to + replaced(text.skip(from.len() as int), from, to)
    } else {
        seq![text[0]] + replaced(text.skip(1), from, to)
    }
}

fn matches_at(text: &Vec<char>, at: usize, pattern: &Vec<char>) -> (r: bool)
    requires
        at <= text.len(),
    ensures
        r == pattern@.is_prefix_of(text@.skip(at as int)),
{
    if pattern.len() > text.len() - at {
        return false;
    }
    let ghost rest = text@.skip(at as int);
    let mut k: usize = 0;
    while k < pattern.len()
        invariant
            at + pattern.len() <= text.len(),
            k <= pattern.len(),
            rest == text@.skip(at as int),
            forall|j: int| 0 <= j < k ==> pattern@[j] == rest[j],
        decreases pattern.len() - k,
    {
        if pattern[k] != text[at + k] {
            assert(rest.subrange(0, pattern@.len() as int)[k as int] != pattern@[k as int]);
            return false;
        }
        k += 1;
    }
    assert(pattern@ =~= rest.subrange(0, pattern@.len() as int));
    true
}

/// Replaces every match of `from` in `text` by `to`.
pub fn replace(text: &str, from: &str, to: &str) -> (r: String)
    ensures
        r@ == replaced(text@, from@, to@),
{
    let t = chars_of(text);
    let f = chars_of(from);
    if f.len() == 0 {
        return String::from_str(text);
    }
    let mut out = String::new();
    let mut i: usize = 0;
    assert(t@.skip(0) =~= t@);
    assert(out@ + replaced(t@, f@, to@) =~= replaced(t@, f@, to@));
    while i < t.len()
        invariant
            i <= t.len(),
            f.len() > 0,
            t@ == text@,
            f@ == from@,
            out@ + replaced(t@.skip(i as int), f@, to@) == replaced(t@, f@, to@),
        decreases t.len() - i,
    {
        let ghost done = out@;
        let ghost rest = t@.skip(i as int);
        if matches_at(&t, i, &f) {
            out.append(to);
            assert(rest.skip(f@.len() as int) =~= t@.skip(i + f@.len()));
            i += f.len();
            assert(out@ + replaced(t@.skip(i as int), f@, to@) =~= done + (to@ + replaced(
                rest.skip(f@.len() as int),
                f@,
                to@,
            )));
        } else {
            out.push(t[i]);
            assert(rest.skip(1) =~= t@.skip(i + 1));
            assert(rest[0] == t@[i as int]);
            proof {
                if rest.len() < f@.len() {
                    assert(replaced(rest.skip(1), f@, to@) == rest.skip(1));
                    assert(rest =~= seq![rest[0]] + rest.skip(1));
                }
            }
            i += 1;
            assert(out@ + replaced(t@.skip(i as int), f@, to@) =~= done + (seq![rest[0]]
                + replaced(rest.skip(1), f@, to@)));
        }
    }
    assert(out@ + Seq::<char>::empty() =~= out@);
    out
}

/// Where the first line of `text` ends: the position of its first line
/// feed, or its length when it has none.
pub open spec fn line_end(text: Seq<char>) -> nat
    decreases text.len(),
{
    if text.len() == 0 || text[0] == '\n' {
        0
    } else {
        1 + line_end(text.skip(1))
    }
}

/// `line` without the carriage return at its end, if it has one.
pub open spec fn without_return(line: Seq<char>) -> Seq<char> {
    if line.len() > 0 && line.last() == '\r' {
        line.drop_last()
    } else {
        line
    }
}

/// The lines of `text`: it is cut after each line feed, and each line that
/// ends in a line feed comes without it and without a carriage return
/// before it. What follows the last line feed is a line only if it is not
/// empty.
pub open spec fn lines_of(text: Seq<char>) -> Seq<Seq<char>>
    decreases text.len(),
{
    if text.len() == 0 {
        Seq::empty()
    } else if line_end(text) >= text.len() {
        seq![text]
    } else {
        seq![without_return(text.take(line_end(text) as int))] + lines_of(
            text.skip(line_end(text) as int + 1),
        )
    }
}

proof fn lemma_line_end(text: Seq<char>, n: int)
    requires
        0 <= n <= text.len(),
        forall|k: int| 0 <= k < n ==> text[k] != '\n',
        n == text.len() || text[n] == '\n',
    ensures
        line_end(text) == n,
    decreases n,
{
    if n > 0 {
        assert forall|k: int| 0 <= k < n - 1 implies text.skip(1)[k] != '\n' by {
            assert(text.skip(1)[k] == text[k + 1]);
        }
        lemma_line_end(text.skip(1), n - 1);
    }
}

/// Cuts `text` into its lines.
pub fn lines(text: &str) -> (r: Vec<String>)
    ensures
        r.deep_view() == lines_of(text@),
{
    let t = chars_of(text);
    let mut out: Vec<String> = Vec::new();
    let mut start: usize = 0;
    let mut i: usize = 0;
    assert(t@.skip(0) =~= t@);
    assert(out.deep_view() + lines_of(t@) =~= lines_of(t@));
    while i < t.len()
        invariant
            start <= i <= t.len(),
            t@ == text@,
            forall|k: int| start <= k < i ==> t@[k] != '\n',
            out.deep_view() + lines_of(t@.skip(start as int)) == lines_of(t@),
        decreases t.len() - i,
    {
        if t[i] == '\n' {
            let ghost done = out.deep_view();
            let ghost rest = t@.skip(start as int);
            let mut end: usize = i;
            if end > start && t[end - 1] == '\r' {
                end -= 1;
            }
            out.push(string_between(&t, start, end));
            proof {
                assert forall|k: int| 0 <= k < i - start implies rest[k] != '\n' by {
                    assert(rest[k] == t@[start + k]);
                }
                assert(rest[i - start] == t@[i as int]);
                lemma_line_end(rest, i - start);
                assert(rest.take(i - start) =~= t@.subrange(start as int, i as int));
                assert(without_return(t@.subrange(start as int, i as int)) =~= t@.subrange(
                    start as int,
                    end as int,
                ));
                assert(rest.skip(i - start + 1) =~= t@.skip(i + 1));
                assert(out.deep_view() =~= done.push(t@.subrange(start as int, end as int)));
                assert(out.deep_view() + lines_of(t@.skip(i + 1)) =~= done + (seq![
                    without_return(rest.take(i - start)),
                ] + lines_of(rest.skip(i - start + 1))));
            }
            start = i + 1;
        }
        i += 1;
    }
    if start < t.len() {
        let ghost done = out.deep_view();
        let ghost rest = t@.skip(start as int);
        out.push(string_between(&t, start, t.len()));
        proof {
            assert forall|k: int| 0 <= k < rest.len() implies rest[k] != '\n' by {
                assert(rest[k] == t@[start + k]);
            }
            lemma_line_end(rest, rest.len() as int);
            assert(rest =~= t@.subrange(start as int, t@.len() as int));
            assert(out.deep_view() =~= done.push(rest));
            assert(out.deep_view() =~= done + seq![rest]);
        }
    } else {
        assert(out.deep_view() + Seq::<Seq<char>>::empty() =~= out.deep_view());
    }
    out
}

/// The text that `String::from_utf8_lossy` decodes from bytes.
pub uninterp spec fn utf8_lossy(bytes: Seq<u8>) -> Seq<char>;

/// `String::from_utf8_lossy`: the result is `bytes` decoded as UTF-8, each
/// invalid sequence replaced by the replacement character.
#[verifier::external_body]
pub(crate) fn from_utf8_lossy(bytes: &Vec<u8>) -> (r: String)
    ensures
        r@ == utf8_lossy(bytes@),
{
    String::from_utf8_lossy(bytes).into_owned()
}

} // verus!
