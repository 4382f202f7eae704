//! Text handling that the connectors and the downloader share: trimming,
//! removing a phrase, reading and writing decimal numbers, and taking the
//! file name and extension off an address.

use vstd::prelude::*;

verus! {

pub assume_specification[ String::push ](s: &mut String, c: char)
    ensures
        final(s)@ == old(s)@.push(c),
;

/// The characters of `s`, in order.
pub fn to_chars(s: &str) -> (r: Vec<char>)
    ensures
        r@ == s@,
{
    let mut r: Vec<char> = Vec::new();
    for c in it: s.chars()
        invariant
            r@ == it.seq().take(it.index()),
    {
        r.push(c);
    }
    r
}

/// The string made of `chars`, in order.
pub fn from_chars(chars: &Vec<char>) -> (r: String)
    ensures
        r@ == chars@,
{
    let mut r = String::new();
    let mut i: usize = 0;
    while i < chars.len()
        invariant
            i <= chars.len(),
            r@ == chars@.take(i as int),
        decreases chars.len() - i,
    {
        r.push(chars[i]);
        i += 1;
    }
    r
}

/// Tells whether `a` and `b` hold the same characters.
pub fn str_eq(a: &str, b: &str) -> (r: bool)
    ensures
        r == (a@ == b@),
{
    let x = to_chars(a);
    let y = to_chars(b);
    if x.len() != y.len() {
        return false;
    }
    let mut i: usize = 0;
    while i < x.len()
        invariant
            i <= x.len(),
            x.len() == y.len(),
            x@ == a@,
            y@ == b@,
            forall|j: int| 0 <= j < i ==> x@[j] == y@[j],
        decreases x.len() - i,
    {
        if x[i] != y[i] {
            return false;
        }
        i += 1;
    }
    assert(x@ =~= y@);
    true
}

/// The string made of `chars[from..to]`.
pub fn from_chars_range(chars: &Vec<char>, from: usize, to: usize) -> (r: String)
    requires
        from <= to <= chars.len(),
    ensures
        r@ == chars@.subrange(from as int, to as int),
{
    let mut r = String::new();
    let mut i: usize = from;
    while i < to
        invariant
            from <= i <= to <= chars.len(),
            r@ == chars@.subrange(from as int, i as int),
        decreases to - i,
    {
        r.push(chars[i]);
        i += 1;
    }
    r
}

/// Whether `c` is white space: the characters that Unicode gives the
/// property White_Space.
pub open spec fn is_whitespace(c: char) -> bool {
    let n = c as u32;
    ||| 0x09 <= n <= 0x0D
    ||| n == 0x20
    ||| n == 0x85
    ||| n == 0xA0
    ||| n == 0x1680
    ||| 0x2000 <= n <= 0x200A
    ||| n == 0x2028
    ||| n == 0x2029
    ||| n == 0x202F
    ||| n == 0x205F
    ||| n == 0x3000
}

/// Tells whether `c` is white space.
pub fn char_is_whitespace(c: char) -> (r: bool)
    ensures
        r == is_whitespace(c),
{
    let n: u32 = c as u32;
    (0x09 <= n && n <= 0x0D) || n == 0x20 || n == 0x85 || n == 0xA0 || n == 0x1680 || (0x2000 <= n
        && n <= 0x200A) || n == 0x2028 || n == 0x2029 || n == 0x202F || n == 0x205F || n == 0x3000
}

/// `s` without the white space at its start.
pub open spec fn trim_start_spec(s: Seq<char>) -> Seq<char>
    decreases s.len(),
{
    if s.len() > 0 && is_whitespace(s.first()) {
        trim_start_spec(s.drop_first())
    } else {
        s
    }
}

/// `s` without the white space at its end.
pub open spec fn trim_end_spec(s: Seq<char>) -> Seq<char>
    decreases s.len(),
{
    if s.len() > 0 && is_whitespace(s.last()) {
        trim_end_spec(s.drop_last())
    } else {
        s
    }
}

/// `s` without the white space at its start and at its end.
pub open spec fn trim_spec(s: Seq<char>) -> Seq<char> {
    trim_end_spec(trim_start_spec(s))
}

/// Removes the white space at both ends of `s`.
pub fn trim(s: &str) -> (r: String)
    ensures
        r@ == trim_spec(s@),
{
    let chars = to_chars(s);
    let mut start: usize = 0;
    assert(chars@.skip(0) =~= chars@);
    while start < chars.len() && char_is_whitespace(chars[start])
        invariant
            start <= chars.len(),
            trim_start_spec(chars@) == trim_start_spec(chars@.skip(start as int)),
        decreases chars.len() - start,
    {
        assert(chars@.skip(start as int).drop_first() =~= chars@.skip(start as int + 1));
        start += 1;
    }
    assert(trim_start_spec(chars@) == chars@.skip(start as int));
    let mut end: usize = chars.len();
    assert(chars@.skip(start as int) =~= chars@.subrange(start as int, end as int));
    while end > start && char_is_whitespace(chars[end - 1])
        invariant
            start <= end <= chars.len(),
            trim_spec(chars@) == trim_end_spec(chars@.subrange(start as int, end as int)),
        decreases end,
    {
        assert(chars@.subrange(start as int, end as int).drop_last() =~= chars@.subrange(
            start as int,
            end as int - 1,
        ));
        end -= 1;
    }
    from_chars_range(&chars, start, end)
}

/// `text` without the occurrences of `phrase`, found from left to right and
/// not overlapping. An empty `phrase` removes nothing.
pub open spec fn remove_all_spec(text: Seq<char>, phrase: Seq<char>) -> Seq<char>
    decreases text.len(),
{
    if phrase.len() == 0 || text.len() == 0 {
        text
    } else if phrase.is_prefix_of(text) {
        remove_all_spec(text.skip(phrase.len() as int), phrase)
    } else {
        seq![text.first()] + remove_all_spec(text.drop_first(), phrase)
    }
}

/// Tells whether `phrase` stands in `text` at position `at`.
fn occurs_at(text: &Vec<char>, at: usize, phrase: &Vec<char>) -> (r: bool)
    requires
        at <= text.len(),
    ensures
        r == phrase@.is_prefix_of(text@.skip(at as int)),
{
    if text.len() - at < phrase.len() {
        return false;
    }
    let mut k: usize = 0;
    while k < phrase.len()
        invariant
            k <= phrase.len(),
            at + phrase.len() <= text.len(),
            forall|j: int| 0 <= j < k ==> phrase@[j] == text@[at + j],
        decreases phrase.len() - k,
    {
        if phrase[k] != text[at + k] {
            assert(text@.skip(at as int).subrange(0, phrase@.len() as int)[k as int] != phrase@[k as int]);
            return false;
        }
        k += 1;
    }
    assert(phrase@ =~= text@.skip(at as int).subrange(0, phrase@.len() as int));
    true
}

/// Removes every occurrence of `phrase` from `text`.
pub fn remove_all(text: &str, phrase: &str) -> (r: String)
    ensures
        r@ == remove_all_spec(text@, phrase@),
{
    let t = to_chars(text);
    let p = to_chars(phrase);
    if p.len() == 0 {
        return from_chars(&t);
    }
    let mut out = String::new();
    let mut i: usize = 0;
    assert(t@.skip(0) =~= t@);
    while i < t.len()
        invariant
            i <= t.len(),
            p.len() > 0,
            out@ + remove_all_spec(t@.skip(i as int), p@) == remove_all_spec(t@, p@),
        decreases t.len() - i,
    {
        let ghost rest = t@.skip(i as int);
        if occurs_at(&t, i, &p) {
            assert(rest.skip(p@.len() as int) =~= t@.skip(i + p@.len()));
            i += p.len();
        } else {
            assert(rest.drop_first() =~= t@.skip(i + 1));
            assert(out@.push(t@[i as int]) + remove_all_spec(rest.drop_first(), p@) =~= out@ + (
            seq![rest.first()] + remove_all_spec(rest.drop_first(), p@)));
            out.push(t[i]);
            i += 1;
        }
    }
    assert(out@ + Seq::<char>::empty() =~= out@);
    out
}

/// Whether `c` is one of the digits `0` to `9`.
pub open spec fn is_digit(c: char) -> bool {
    0x30 <= c as u32 <= 0x39
}

/// The value of the digit `c`.
pub open spec fn digit_value(c: char) -> nat {
    (c as u32 - 0x30) as nat
}

/// The digits among the characters of `s`, in order.
pub open spec fn digits_of(s: Seq<char>) -> Seq<char>
    decreases s.len(),
{
    if s.len() == 0 {
        Seq::empty()
    } else if is_digit(s.last()) {
        digits_of(s.drop_last()).push(s.last())
    } else {
        digits_of(s.drop_last())
    }
}

/// The number that the digits `d` write in base ten.
pub open spec fn decimal_value(d: Seq<char>) -> nat
    decreases d.len(),
{
    if d.len() == 0 {
        0
    } else {
        decimal_value(d.drop_last()) * 10 + digit_value(d.last())
    }
}

/// The number written by the digits of `s`, all other characters passed
/// over: `None` where `s` holds no digit or the number is above `i32::MAX`.
pub open spec fn number_in(s: Seq<char>) -> Option<i32> {
    let d = digits_of(s);
    if d.len() > 0 && decimal_value(d) <= i32::MAX {
        Some(decimal_value(d) as i32)
    } else {
        None
    }
}

/// Reads the number that the digits of `s` write, passing over every other
/// character.
pub fn parse_digits(s: &str) -> (r: Option<i32>)
    ensures
        r == number_in(s@),
{
    let chars = to_chars(s);
    let mut value: u64 = 0;
    let mut seen = false;
    let mut too_large = false;
    let mut i: usize = 0;
    assert(chars@.take(0) =~= Seq::<char>::empty());
    while i < chars.len()
        invariant
            i <= chars.len(),
            seen == (digits_of(chars@.take(i as int)).len() > 0),
            too_large ==> decimal_value(digits_of(chars@.take(i as int))) > i32::MAX,
            !too_large ==> value == decimal_value(digits_of(chars@.take(i as int))) && value
                <= i32::MAX,
        decreases chars.len() - i,
    {
        let c = chars[i];
        let n: u32 = c as u32;
        let ghost before = digits_of(chars@.take(i as int));
        assert(chars@.take(i + 1).drop_last() =~= chars@.take(i as int));
        if 0x30 <= n && n <= 0x39 {
            assert(before.push(c).drop_last() =~= before);
            seen = true;
            if !too_large {
                value = value * 10 + (n - 0x30) as u64;
                if value > 0x7fff_ffff {
                    too_large = true;
                }
            }
        }
        i += 1;
    }
    assert(chars@.take(chars@.len() as int) =~= chars@);
    if seen && !too_large {
        Some(value as i32)
    } else {
        None
    }
}

/// The character that writes the digit `d`.
pub open spec fn digit_char(d: nat) -> char {
    if d == 0 {
        '0'
    } else if d == 1 {
        '1'
    } else if d == 2 {
        '2'
    } else if d == 3 {
        '3'
    } else if d == 4 {
        '4'
    } else if d == 5 {
        '5'
    } else if d == 6 {
        '6'
    } else if d == 7 {
        '7'
    } else if d == 8 {
        '8'
    } else {
        '9'
    }
}

/// The digits that write `n` in base ten, without leading zeros.
pub open spec fn decimal_digits(n: nat) -> Seq<char>
    decreases n,
{
    if n < 10 {
        seq![digit_char(n)]
    } else {
        decimal_digits(n / 10).push(digit_char(n % 10))
    }
}

/// `n` written in base ten, with a minus sign in front where it is negative.
pub open spec fn decimal_spec(n: int) -> Seq<char> {
    if n < 0 {
        seq!['-'] + decimal_digits((-n) as nat)
    } else {
        decimal_digits(n as nat)
    }
}

fn digit(d: u64) -> (c: char)
    requires
        d < 10,
    ensures
        c == digit_char(d as nat),
{
    if d == 0 {
        '0'
    } else if d == 1 {
        '1'
    } else if d == 2 {
        '2'
    } else if d == 3 {
        '3'
    } else if d == 4 {
        '4'
    } else if d == 5 {
        '5'
    } else if d == 6 {
        '6'
    } else if d == 7 {
        '7'
    } else if d == 8 {
        '8'
    } else {
        '9'
    }
}

fn push_decimal(out: &mut String, n: u64)
    ensures
        final(out)@ == old(out)@ + decimal_digits(n as nat),
    decreases n,
{
    if n >= 10 {
        push_decimal(out, n / 10);
    }
    out.push(digit(n % 10));
    assert(final(out)@ =~= old(out)@ + decimal_digits(n as nat));
}

/// Writes the natural number `n` in base ten.
pub fn decimal_of(n: u64) -> (r: String)
    ensures
        r@ == decimal_digits(n as nat),
{
    let mut r = String::new();
    push_decimal(&mut r, n);
    assert(r@ =~= decimal_digits(n as nat));
    r
}

/// Writes `n` in base ten.
pub fn decimal(n: i32) -> (r: String)
    ensures
        r@ == decimal_spec(n as int),
{
    let mut r = String::new();
    if n < 0 {
        r.push('-');
        push_decimal(&mut r, (-(n as i64)) as u64);
    } else {
        push_decimal(&mut r, n as u64);
    }
    assert(r@ =~= decimal_spec(n as int));
    r
}

/// The position of the last `c` in `s`, or -1 where `s` holds none.
pub open spec fn last_index_of(s: Seq<char>, c: char) -> int
    decreases s.len(),
{
    if s.len() == 0 {
        -1
    } else if s.last() == c {
        s.len() - 1
    } else {
        last_index_of(s.drop_last(), c)
    }
}

/// `path` without what does not count at its end: the `/` that it ends
/// with, and a `.` that stands alone behind a `/`.
pub open spec fn without_trailing(path: Seq<char>) -> Seq<char>
    decreases path.len(),
{
    if path.len() > 0 && path.last() == '/' {
        without_trailing(path.drop_last())
    } else if path.len() >= 2 && path.last() == '.' && path[path.len() - 2] == '/' {
        without_trailing(path.drop_last())
    } else {
        path
    }
}

/// Whether `name` is `.` or `..`, which name no file.
pub open spec fn is_dots(name: Seq<char>) -> bool {
    ||| name.len() == 1 && name[0] == '.'
    ||| name.len() == 2 && name[0] == '.' && name[1] == '.'
}

/// The file name that an address ends with: its last part between `/`,
/// passing over what does not count at its end. There is none where
/// nothing is left, or where that part is `.` or `..`.
pub open spec fn file_name_spec(address: Seq<char>) -> Option<Seq<char>> {
    let path = without_trailing(address);
    let name = path.skip(last_index_of(path, '/') + 1);
    if name.len() == 0 || is_dots(name) {
        None
    } else {
        Some(name)
    }
}

/// The extension of the file name that an address ends with: what follows
/// the last `.` of the file name. There is none where there is no file
/// name, where the file name holds no `.`, or where its only `.` is its
/// first character.
pub open spec fn extension_spec(address: Seq<char>) -> Option<Seq<char>> {
    match file_name_spec(address) {
        None => None,
        Some(name) => {
            let dot = last_index_of(name, '.');
            if dot <= 0 {
                None
            } else {
                Some(name.skip(dot + 1))
            }
        },
    }
}

/// Finds the last `c` in `chars[from..to]`: its position counted from
/// `from`, or `None`.
fn find_last(chars: &Vec<char>, from: usize, to: usize, c: char) -> (r: Option<usize>)
    requires
        from <= to <= chars.len(),
    ensures
        match r {
            Some(k) => from + k < to && k as int == last_index_of(
                chars@.subrange(from as int, to as int),
                c,
            ),
            None => last_index_of(chars@.subrange(from as int, to as int), c) == -1,
        },
{
    let ghost part = chars@.subrange(from as int, to as int);
    let mut end: usize = to;
    assert(part.take(part.len() as int) =~= part);
    while end > from
        invariant
            from <= end <= to <= chars.len(),
            part == chars@.subrange(from as int, to as int),
            last_index_of(part, c) == last_index_of(part.take(end - from), c),
        decreases end,
    {
        let ghost head = part.take(end - from);
        if chars[end - 1] == c {
            assert(head.last() == c);
            return Some(end - 1 - from);
        }
        assert(head.drop_last() =~= part.take(end - from - 1));
        end -= 1;
    }
    assert(part.take(0) =~= Seq::<char>::empty());
    None
}

/// Tells whether the last of the first `end` characters does not count.
fn trails(chars: &Vec<char>, end: usize) -> (r: bool)
    requires
        end <= chars.len(),
    ensures
        r == ({
            let path = chars@.take(end as int);
            ||| path.len() > 0 && path.last() == '/'
            ||| path.len() >= 2 && path.last() == '.' && path[path.len() - 2] == '/'
        }),
{
    if end == 0 {
        false
    } else if chars[end - 1] == '/' {
        true
    } else if end >= 2 {
        chars[end - 1] == '.' && chars[end - 2] == '/'
    } else {
        false
    }
}

/// Finds the file name among `chars`: where it starts and where it ends.
fn name_bounds(chars: &Vec<char>) -> (r: Option<(usize, usize)>)
    ensures
        match r {
            Some((start, end)) => start < end <= chars.len() && file_name_spec(chars@) == Some(
                chars@.subrange(start as int, end as int),
            ),
            None => file_name_spec(chars@) is None,
        },
{
    let mut end: usize = chars.len();
    assert(chars@.take(end as int) =~= chars@);
    while end > 0 && trails(chars, end)
        invariant
            end <= chars.len(),
            without_trailing(chars@) == without_trailing(chars@.take(end as int)),
        decreases end,
    {
        assert(chars@.take(end as int).drop_last() =~= chars@.take(end - 1));
        end -= 1;
    }
    let ghost path = chars@.take(end as int);
    assert(without_trailing(chars@) == path);
    assert(path =~= chars@.subrange(0, end as int));
    let start: usize = match find_last(chars, 0, end, '/') {
        Some(k) => k + 1,
        None => 0,
    };
    let ghost name = path.skip(last_index_of(path, '/') + 1);
    assert(name =~= chars@.subrange(start as int, end as int));
    if start == end {
        None
    } else if end - start == 1 && chars[start] == '.' {
        None
    } else if end - start == 2 && chars[start] == '.' && chars[start + 1] == '.' {
        None
    } else {
        Some((start, end))
    }
}

/// What an optional string holds, as plain mathematical values.
pub open spec fn option_view(o: Option<String>) -> Option<Seq<char>> {
    match o {
        Some(s) => Some(s@),
        None => None,
    }
}

/// The file name that `address` ends with, if it ends with one.
pub fn file_name(address: &str) -> (r: Option<String>)
    ensures
        option_view(r) == file_name_spec(address@),
{
    let chars = to_chars(address);
    match name_bounds(&chars) {
        Some((start, end)) => Some(from_chars_range(&chars, start, end)),
        None => None,
    }
}

/// The extension of the file name that `address` ends with, if it has one.
pub fn extension(address: &str) -> (r: Option<String>)
    ensures
        option_view(r) == extension_spec(address@),
{
    let chars = to_chars(address);
    match name_bounds(&chars) {
        None => None,
        Some((start, end)) => {
            let ghost name = chars@.subrange(start as int, end as int);
            match find_last(&chars, start, end, '.') {
                Some(dot) => {
                    if dot == 0 {
                        None
                    } else {
                        assert(name.skip(dot + 1) =~= chars@.subrange(
                            start + dot + 1,
                            end as int,
                        ));
                        Some(from_chars_range(&chars, start + dot + 1, end))
                    }
                },
                None => None,
            }
        },
    }
}

} // verus!
