//! Text, one scalar at a time: the few string operations the rest of the
//! library is stated in terms of.

use vstd::prelude::*;
use vstd::utf8::*;

verus! {

/// `String::push`: the scalar is appended, and nothing else changes.
pub assume_specification[ String::push ](s: &mut String, c: char)
    ensures
        final(s)@ == old(s)@.push(c),
;

/// Whether a scalar has the Unicode `White_Space` property.
pub open spec fn is_white(c: char) -> bool {
    let v = c as u32;
    ||| 0x9 <= v <= 0xd
    ||| v == 0x20
    ||| v == 0x85
    ||| v == 0xa0
    ||| v == 0x1680
    ||| 0x2000 <= v <= 0x200a
    ||| v == 0x2028
    ||| v == 0x2029
    ||| v == 0x202f
    ||| v == 0x205f
    ||| v == 0x3000
}

/// Whether a scalar has the Unicode `White_Space` property.
fn white(c: char) -> (r: bool)
    ensures
        r == is_white(c),
{
    let v: u32 = c as u32;
    (0x9 <= v && v <= 0xd) || v == 0x20 || v == 0x85 || v == 0xa0 || v == 0x1680 || (0x2000 <= v
        && v <= 0x200a) || v == 0x2028 || v == 0x2029 || v == 0x202f || v == 0x205f || v == 0x3000
}

/// What std's lowercase mapping makes of a text.
pub uninterp spec fn lowercase(s: Seq<char>) -> Seq<char>;

/// `str::to_lowercase`, the Unicode `Lowercase` mapping. Which scalars it
/// changes is left to std's tables.
#[verifier::external_body]
pub(crate) fn lowered(s: &str) -> (r: String)
    ensures
        r@ == lowercase(s@),
{
    s.to_lowercase()
}

/// How std's `{:?}` quotes a text.
pub uninterp spec fn quoted(s: Seq<char>) -> Seq<char>;

/// `format!` with `{:?}`: the text in double quotes, escaped as
/// `str::escape_debug` escapes it. Which scalars are escaped is left to std's
/// tables.
#[verifier::external_body]
pub(crate) fn quote(s: &str) -> (r: String)
    ensures
        r@ == quoted(s@),
{
    format!("{s:?}")
}

/// The scalars of a text, in order.
pub fn scalars(s: &str) -> (v: Vec<char>)
    ensures
        v@ == s@,
{
    let mut v: Vec<char> = Vec::new();
    for c in it: s.chars()
        invariant
            it.seq() == s@,
            v@ == s@.take(it.index() as int),
    {
        proof {
            assert(s@.take(it.index() + 1) =~= s@.take(it.index() as int).push(c));
        }
        v.push(c);
    }
    proof {
        assert(s@.take(s@.len() as int) =~= s@);
    }
    v
}

/// The text made of `v[from..to]`.
pub fn text_of(v: &Vec<char>, from: usize, to: usize) -> (s: String)
    requires
        from <= to <= v@.len(),
    ensures
        s@ == v@.subrange(from as int, to as int),
{
    let mut s = String::new();
    let mut i: usize = from;
    while i < to
        invariant
            from <= i <= to <= v@.len(),
            s@ == v@.subrange(from as int, i as int),
        decreases to - i,
    {
        proof {
            assert(v@.subrange(from as int, i + 1) =~= v@.subrange(from as int, i as int).push(
                v@[i as int],
            ));
        }
        s.push(v[i]);
        i += 1;
    }
    s
}

/// Whether two texts are the same.
pub fn same(a: &str, b: &str) -> (r: bool)
    ensures
        r == (a@ == b@),
{
    a.to_owned() == b.to_owned()
}

/// Whether `needle` stands in `hay` at `i`.
pub open spec fn occurs_at(hay: Seq<char>, needle: Seq<char>, i: int) -> bool {
    &&& 0 <= i
    &&& i + needle.len() <= hay.len()
    &&& hay.subrange(i, i + needle.len()) == needle
}

/// Whether `needle` stands anywhere in `hay`.
pub open spec fn occurs(hay: Seq<char>, needle: Seq<char>) -> bool {
    exists|i: int| occurs_at(hay, needle, i)
}

/// Whether `needle` stands in `hay` at `at`.
fn stands_at(hay: &Vec<char>, needle: &Vec<char>, at: usize) -> (r: bool)
    requires
        at + needle@.len() <= hay@.len(),
    ensures
        r == occurs_at(hay@, needle@, at as int),
{
    let total: usize = hay.len();
    let mut j: usize = 0;
    while j < needle.len()
        invariant
            j <= needle@.len(),
            at + needle@.len() <= hay@.len(),
            total == hay@.len(),
            forall|k: int| 0 <= k < j ==> hay@[at + k] == #[trigger] needle@[k],
        decreases needle.len() - j,
    {
        if hay[at + j] != needle[j] {
            proof {
                if hay@.subrange(at as int, at + needle@.len()) == needle@ {
                    assert(hay@.subrange(at as int, at + needle@.len())[j as int] == needle@[j as int]);
                }
            }
            return false;
        }
        j += 1;
    }
    proof {
        assert(hay@.subrange(at as int, at + needle@.len()) =~= needle@);
    }
    true
}

/// Whether `needle` stands anywhere in `hay`.
pub fn contains(hay: &str, needle: &str) -> (r: bool)
    ensures
        r == occurs(hay@, needle@),
{
    let h = scalars(hay);
    let n = scalars(needle);
    if n.len() > h.len() {
        return false;
    }
    let last: usize = h.len() - n.len();
    let mut i: usize = 0;
    while i <= last
        invariant
            h@ == hay@,
            n@ == needle@,
            last + n@.len() == h@.len(),
            i <= last + 1,
            forall|k: int| 0 <= k < i ==> !occurs_at(hay@, needle@, k),
        decreases last + 1 - i,
    {
        if stands_at(&h, &n, i) {
            return true;
        }
        if i == last {
            return false;
        }
        i += 1;
    }
    false
}

/// Whether `s` begins with `prefix`.
pub open spec fn begins(s: Seq<char>, prefix: Seq<char>) -> bool {
    occurs_at(s, prefix, 0)
}

/// Whether `s` begins with `prefix`.
pub fn starts_with(s: &str, prefix: &str) -> (r: bool)
    ensures
        r == begins(s@, prefix@),
{
    let h = scalars(s);
    let n = scalars(prefix);
    if n.len() > h.len() {
        return false;
    }
    stands_at(&h, &n, 0)
}

/// A text without the whitespace at its front.
pub open spec fn trimmed_front(s: Seq<char>) -> Seq<char>
    decreases s.len(),
{
    if s.len() > 0 && is_white(s[0]) {
        trimmed_front(s.skip(1))
    } else {
        s
    }
}

/// A text without the whitespace at its end.
pub open spec fn trimmed_back(s: Seq<char>) -> Seq<char>
    decreases s.len(),
{
    if s.len() > 0 && is_white(s.last()) {
        trimmed_back(s.drop_last())
    } else {
        s
    }
}

/// A text without the whitespace at either end.
pub open spec fn trimmed(s: Seq<char>) -> Seq<char> {
    trimmed_back(trimmed_front(s))
}

/// The text without the whitespace at either end.
pub fn trim(s: &str) -> (r: String)
    ensures
        r@ == trimmed(s@),
{
    let v = scalars(s);
    let mut from: usize = 0;
    proof {
        assert(v@.skip(0) =~= v@);
    }
    while from < v.len() && white(v[from])
        invariant
            from <= v@.len(),
            trimmed_front(v@) == trimmed_front(v@.skip(from as int)),
        decreases v@.len() - from,
    {
        proof {
            assert(v@.skip(from as int).skip(1) =~= v@.skip(from + 1));
        }
        from += 1;
    }
    let ghost front = v@.skip(from as int);
    let mut to: usize = v.len();
    proof {
        assert(v@.subrange(from as int, to as int) =~= front);
        assert(trimmed_front(v@) == front);
    }
    while to > from && white(v[to - 1])
        invariant
            from <= to <= v@.len(),
            trimmed_back(front) == trimmed_back(v@.subrange(from as int, to as int)),
        decreases to,
    {
        proof {
            assert(v@.subrange(from as int, to as int).drop_last() =~= v@.subrange(
                from as int,
                to - 1,
            ));
        }
        to -= 1;
    }
    text_of(&v, from, to)
}

/// How many bytes a text takes.
pub open spec fn byte_len(s: Seq<char>) -> nat {
    encode_utf8(s).len()
}

/// How many bytes a scalar takes.
pub open spec fn scalar_len(c: char) -> nat {
    if c as u32 <= 0x7f {
        1
    } else if c as u32 <= 0x7ff {
        2
    } else if c as u32 <= 0xffff {
        3
    } else {
        4
    }
}

/// How many bytes a scalar takes.
pub fn len_of(c: char) -> (n: usize)
    ensures
        n == scalar_len(c),
{
    let v: u32 = c as u32;
    if v <= 0x7f {
        1
    } else if v <= 0x7ff {
        2
    } else if v <= 0xffff {
        3
    } else {
        4
    }
}

/// Appending a scalar adds its own bytes to a text.
pub proof fn byte_len_push(s: Seq<char>, c: char)
    ensures
        byte_len(s.push(c)) == byte_len(s) + scalar_len(c),
    decreases s.len(),
{
    broadcast use char_is_scalar;

    if s.len() == 0 {
        assert(s.push(c).drop_first() =~= s);
        assert(encode_utf8(s.push(c)) =~= encode_scalar(c as u32) + encode_utf8(s));
    } else {
        assert(s.push(c).drop_first() =~= s.drop_first().push(c));
        byte_len_push(s.drop_first(), c);
    }
}

/// The scalar for a decimal digit.
pub open spec fn digit(d: nat) -> char {
    ('0' as u32 + d) as char
}

/// A number in decimal, without leading zeros.
pub open spec fn decimal(n: nat) -> Seq<char>
    decreases n,
{
    if n < 10 {
        seq![digit(n)]
    } else {
        decimal(n / 10).push(digit(n % 10))
    }
}

/// A number in decimal, without leading zeros.
pub fn number(n: u64) -> (s: String)
    ensures
        s@ == decimal(n as nat),
    decreases n,
{
    let mut s = if n < 10 {
        String::new()
    } else {
        number(n / 10)
    };
    let d: u8 = (n % 10) as u8;
    s.push((48u8 + d) as char);
    proof {
        if n < 10 {
            assert(s@ =~= seq![digit(n as nat)]);
        }
    }
    s
}

/// The scalar for a hexadecimal digit.
pub open spec fn hex_digit(d: nat) -> char {
    if d < 10 {
        ('0' as u32 + d) as char
    } else {
        ('a' as u32 + d - 10) as char
    }
}

/// The last `digits` hexadecimal digits of a number.
pub open spec fn hex(n: nat, digits: nat) -> Seq<char>
    decreases digits,
{
    if digits == 0 {
        Seq::empty()
    } else {
        hex(n / 16, (digits - 1) as nat).push(hex_digit(n % 16))
    }
}

/// The last `digits` hexadecimal digits of a number.
pub fn hex_text(n: u32, digits: usize) -> (s: String)
    ensures
        s@ == hex(n as nat, digits as nat),
    decreases digits,
{
    if digits == 0 {
        return String::new();
    }
    let mut s = hex_text(n / 16, digits - 1);
    let d: u8 = (n % 16) as u8;
    let c: char = if d < 10 {
        (48u8 + d) as char
    } else {
        (87u8 + d) as char
    };
    s.push(c);
    s
}

/// `n` spaces.
pub open spec fn blanks(n: nat) -> Seq<char> {
    Seq::new(n, |i: int| ' ')
}

/// A text padded on the left to `width` scalars.
pub open spec fn right_aligned(s: Seq<char>, width: nat) -> Seq<char> {
    if s.len() < width {
        blanks((width - s.len()) as nat) + s
    } else {
        s
    }
}

/// A text padded on the right to `width` scalars.
pub open spec fn left_aligned(s: Seq<char>, width: nat) -> Seq<char> {
    if s.len() < width {
        s + blanks((width - s.len()) as nat)
    } else {
        s
    }
}

/// `n` spaces.
fn spaces(n: usize) -> (s: String)
    ensures
        s@ == blanks(n as nat),
{
    let mut s = String::new();
    let mut i: usize = 0;
    while i < n
        invariant
            i <= n,
            s@ == blanks(i as nat),
        decreases n - i,
    {
        s.push(' ');
        i += 1;
        proof {
            assert(s@ =~= blanks(i as nat));
        }
    }
    s
}

/// The text padded on the left to `width` scalars.
pub fn align_right(s: &str, width: usize) -> (r: String)
    ensures
        r@ == right_aligned(s@, width as nat),
{
    let n: usize = s.unicode_len();
    if n < width {
        let mut r = spaces(width - n);
        r.append(s);
        r
    } else {
        s.to_owned()
    }
}

/// The text padded on the right to `width` scalars.
pub fn align_left(s: &str, width: usize) -> (r: String)
    ensures
        r@ == left_aligned(s@, width as nat),
{
    let n: usize = s.unicode_len();
    let mut r = s.to_owned();
    if n < width {
        let pad = spaces(width - n);
        r.append(pad.as_str());
    }
    r
}

/// Whether every scalar of a text is a decimal digit.
pub open spec fn all_digits(s: Seq<char>) -> bool {
    forall|i: int| 0 <= i < s.len() ==> '0' <= #[trigger] s[i] <= '9'
}

/// The value of a sequence of decimal digits.
pub open spec fn digits_value(s: Seq<char>) -> nat
    decreases s.len(),
{
    if s.len() == 0 {
        0
    } else {
        digits_value(s.drop_last()) * 10 + (s.last() as u32 - '0' as u32) as nat
    }
}

/// The digits of a number, which may have a plus sign before them.
pub open spec fn number_body(s: Seq<char>) -> Seq<char> {
    if s.len() > 1 && s[0] == '+' {
        s.skip(1)
    } else {
        s
    }
}

/// The index a text spells: one or more decimal digits, perhaps after a plus
/// sign, whose value fits a `usize`.
pub open spec fn parsed(s: Seq<char>) -> Option<usize> {
    let body = number_body(s);
    if body.len() > 0 && all_digits(body) && digits_value(body) <= usize::MAX {
        Some(digits_value(body) as usize)
    } else {
        None
    }
}

/// More digits never make a smaller value.
proof fn digits_value_grows(s: Seq<char>, n: int)
    requires
        0 <= n <= s.len(),
        all_digits(s),
    ensures
        digits_value(s.take(n)) <= digits_value(s),
    decreases s.len(),
{
    if n == s.len() {
        assert(s.take(n) =~= s);
    } else {
        let head = s.drop_last();
        assert(head.take(n) =~= s.take(n));
        digits_value_grows(head, n);
    }
}

/// The index a text spells, if it spells one.
pub fn parse_index(s: &str) -> (r: Option<usize>)
    ensures
        r == parsed(s@),
{
    let v = scalars(s);
    let start: usize = if v.len() > 1 && v[0] == '+' {
        1
    } else {
        0
    };
    let ghost body = number_body(s@);
    proof {
        assert(v@.skip(start as int) =~= body);
    }
    if v.len() == 0 {
        return None;
    }
    let mut n: usize = 0;
    let mut i: usize = start;
    proof {
        assert(body.take(0) =~= Seq::empty());
    }
    while i < v.len()
        invariant
            start <= i <= v@.len(),
            v@.skip(start as int) == body,
            body == number_body(s@),
            n == digits_value(body.take(i - start)),
            forall|k: int| 0 <= k < i - start ==> '0' <= #[trigger] body[k] <= '9',
        decreases v@.len() - i,
    {
        let c: char = v[i];
        let ghost k = i - start;
        proof {
            assert(c == body[k]);
            assert(body.take(k + 1).drop_last() =~= body.take(k));
            assert(body.take(k + 1).last() == c);
        }
        if c < '0' || c > '9' {
            return None;
        }
        let d: usize = (c as u32 - '0' as u32) as usize;
        match n.checked_mul(10) {
            Some(tens) => match tens.checked_add(d) {
                Some(next) => {
                    n = next;
                },
                None => {
                    proof {
                        if all_digits(body) {
                            digits_value_grows(body, k + 1);
                        }
                    }
                    return None;
                },
            },
            None => {
                proof {
                    if all_digits(body) {
                        digits_value_grows(body, k + 1);
                    }
                }
                return None;
            },
        }
        i += 1;
    }
    proof {
        assert(body.take(body.len() as int) =~= body);
    }
    Some(n)
}

/// A text begins with another exactly if the other is no longer and the two
/// agree as far as it goes.
pub proof fn beginning_is_agreeing(s: Seq<char>, prefix: Seq<char>)
    ensures
        begins(s, prefix) <==> prefix.len() <= s.len() && forall|i: int|
            0 <= i < prefix.len() ==> s[i] == #[trigger] prefix[i],
{
    if begins(s, prefix) {
        let front = s.subrange(0, prefix.len() as int);
        assert forall|i: int| 0 <= i < prefix.len() implies s[i] == #[trigger] prefix[i] by {
            assert(front[i] == s[i]);
        }
    }
    if prefix.len() <= s.len() && forall|i: int|
        0 <= i < prefix.len() ==> s[i] == #[trigger] prefix[i] {
        assert(s.subrange(0, prefix.len() as int) =~= prefix);
    }
}

/// A text holds another exactly if it is something, then the other, then
/// something.
pub proof fn holding_is_being_around(hay: Seq<char>, needle: Seq<char>)
    ensures
        occurs(hay, needle) <==> exists|a: Seq<char>, b: Seq<char>| hay == #[trigger] (a + needle + b),
{
    if occurs(hay, needle) {
        let i = choose|i: int| occurs_at(hay, needle, i);
        let a = hay.take(i);
        let b = hay.skip(i + needle.len());
        assert(hay =~= a + needle + b) by {
            assert forall|k: int| 0 <= k < hay.len() implies hay[k] == (a + needle + b)[k] by {
                if i <= k < i + needle.len() {
                    assert(hay.subrange(i, i + needle.len())[k - i] == needle[k - i]);
                }
            }
        }
    }
    if exists|a: Seq<char>, b: Seq<char>| hay == #[trigger] (a + needle + b) {
        let (a, b) = choose|a: Seq<char>, b: Seq<char>| hay == #[trigger] (a + needle + b);
        assert(hay.subrange(a.len() as int, (a.len() + needle.len()) as int) =~= needle);
        assert(occurs_at(hay, needle, a.len() as int));
    }
}

/// Trimming takes away whitespace from both ends, all of it and nothing else:
/// what is left neither begins nor ends with any, and a text that did neither
/// is left whole.
pub proof fn trimming_takes_the_whitespace_and_nothing_else(
    before: Seq<char>,
    s: Seq<char>,
    after: Seq<char>,
)
    requires
        forall|i: int| 0 <= i < before.len() ==> is_white(#[trigger] before[i]),
        forall|i: int| 0 <= i < after.len() ==> is_white(#[trigger] after[i]),
        s.len() > 0 ==> !is_white(s[0]) && !is_white(s.last()),
    ensures
        trimmed(before + s + after) == s,
    decreases before.len() + after.len(),
{
    let all = before + s + after;
    if before.len() > 0 {
        assert(all[0] == before[0]);
        assert(all.skip(1) =~= before.skip(1) + s + after);
        assert forall|i: int| 0 <= i < before.skip(1).len() implies is_white(
            #[trigger] before.skip(1)[i],
        ) by {
            assert(before.skip(1)[i] == before[i + 1]);
        }
        trimming_takes_the_whitespace_and_nothing_else(before.skip(1), s, after);
    } else if after.len() > 0 {
        let fewer = after.drop_last();
        assert forall|i: int| 0 <= i < fewer.len() implies is_white(#[trigger] fewer[i]) by {
            assert(fewer[i] == after[i]);
        }
        trimming_takes_the_whitespace_and_nothing_else(before, s, fewer);
        if s.len() > 0 {
            assert(all[0] == s[0]);
            assert(trimmed_front(all) == all);
            assert(all.drop_last() =~= before + s + fewer);
            assert((before + s + fewer)[0] == s[0]);
            assert(all.last() == after.last());
        } else {
            assert(all =~= after);
            all_white_trims_to_nothing(after);
            assert(s =~= Seq::<char>::empty());
        }
    } else {
        assert(all =~= s);
    }
}

/// A text of nothing but whitespace is trimmed to nothing.
proof fn all_white_trims_to_nothing(s: Seq<char>)
    requires
        forall|i: int| 0 <= i < s.len() ==> is_white(#[trigger] s[i]),
    ensures
        trimmed_front(s) == Seq::<char>::empty(),
        trimmed(s) == Seq::<char>::empty(),
    decreases s.len(),
{
    if s.len() > 0 {
        assert forall|i: int| 0 <= i < s.skip(1).len() implies is_white(#[trigger] s.skip(1)[i])
            by {
            assert(s.skip(1)[i] == s[i + 1]);
        }
        all_white_trims_to_nothing(s.skip(1));
    } else {
        assert(s =~= Seq::<char>::empty());
    }
}

/// Whitespace is space, the five controls from tab to carriage return, and the
/// other scalars Unicode gives that property.
pub proof fn whitespace_is_what_unicode_says(c: char)
    ensures
        is_white(c) <==> (9 <= c as u32 <= 13 || c as u32 == 32 || c as u32 == 133 || c as u32
            == 160 || c as u32 == 5760 || 8192 <= c as u32 <= 8202 || c as u32 == 8232 || c as u32
            == 8233 || c as u32 == 8239 || c as u32 == 8287 || c as u32 == 12288),
{
}

/// A scalar takes as many bytes as UTF-8 gives it.
pub proof fn a_scalar_is_as_long_as_its_encoding(c: char)
    ensures
        scalar_len(c) == encode_utf8(seq![c]).len(),
        1 <= scalar_len(c) <= 4,
        scalar_len(c) == 1 <==> (c as u32) < 128,
        scalar_len(c) <= 2 <==> (c as u32) < 2048,
        scalar_len(c) <= 3 <==> (c as u32) < 65536,
{
    byte_len_push(Seq::empty(), c);
    assert(Seq::<char>::empty().push(c) =~= seq![c]);
}

/// The digits of a number stand for it: the last one is what is left over by
/// ten, those before it are the number of tens, and there is no zero in front.
pub proof fn decimal_is_positional(n: nat)
    ensures
        decimal(n).len() >= 1,
        decimal(n).last() as u32 == 48 + n % 10,
        n < 10 ==> decimal(n).len() == 1,
        n >= 10 ==> decimal(n).len() >= 2 && decimal(n).drop_last() == decimal(n / 10),
        n > 0 ==> decimal(n)[0] != '0',
    decreases n,
{
    if n >= 10 {
        decimal_is_positional(n / 10);
        assert(decimal(n).drop_last() =~= decimal(n / 10));
    }
}

/// What was written as a number is read back as that number.
pub proof fn a_written_number_reads_back(n: usize)
    ensures
        parsed(decimal(n as nat)) == Some(n),
{
    decimal_has_its_value(n as nat);
    assert(number_body(decimal(n as nat)) == decimal(n as nat));
}

/// The digits of a number are digits, and their value is the number.
proof fn decimal_has_its_value(n: nat)
    ensures
        decimal(n).len() >= 1,
        all_digits(decimal(n)),
        digits_value(decimal(n)) == n,
    decreases n,
{
    if n < 10 {
        assert(decimal(n).drop_last() =~= Seq::<char>::empty());
        assert(digits_value(Seq::<char>::empty()) == 0);
        assert(decimal(n).last() as u32 == 48 + n);
    } else {
        decimal_has_its_value(n / 10);
        assert(decimal(n).drop_last() =~= decimal(n / 10));
        assert(decimal(n).last() as u32 == 48 + n % 10);
    }
}

/// A text spells a number only by digits, perhaps after one plus sign; each
/// further digit counts the ones before it tenfold.
pub proof fn reading_is_positional(s: Seq<char>, d: char)
    requires
        parsed(s) is Some,
        '0' <= d <= '9',
        parsed(s)->0 * 10 + (d as u32 - 48) <= usize::MAX,
    ensures
        parsed(s.push(d)) == Some((parsed(s)->0 * 10 + (d as u32 - 48)) as usize),
        s.len() >= 1,
        s[0] == '+' || '0' <= s[0] <= '9',
        forall|i: int| 1 <= i < s.len() ==> '0' <= #[trigger] s[i] <= '9',
{
    let body = number_body(s);
    let longer = number_body(s.push(d));
    if s.len() > 1 && s[0] == '+' {
        assert(longer =~= body.push(d));
        assert forall|i: int| 1 <= i < s.len() implies '0' <= #[trigger] s[i] <= '9' by {
            assert(body[i - 1] == s[i]);
        }
    } else {
        assert(body[0] == s[0]);
        assert(longer =~= body.push(d));
    }
    assert(longer.drop_last() =~= body);
}

/// A text that is no number is read as none.
pub proof fn only_digits_are_a_number(s: Seq<char>)
    ensures
        s.len() == 0 ==> parsed(s) is None,
        s.len() == 1 && !('0' <= s[0] <= '9') ==> parsed(s) is None,
        s.len() > 0 && s[0] != '+' && !('0' <= s[0] <= '9') ==> parsed(s) is None,
        (exists|i: int| 1 <= i < s.len() && !('0' <= #[trigger] s[i] <= '9')) ==> parsed(s) is None,
{
    let body = number_body(s);
    if exists|i: int| 1 <= i < s.len() && !('0' <= #[trigger] s[i] <= '9') {
        let i = choose|i: int| 1 <= i < s.len() && !('0' <= #[trigger] s[i] <= '9');
        if s.len() > 1 && s[0] == '+' {
            assert(body[i - 1] == s[i]);
        } else {
            assert(body[i] == s[i]);
        }
    }
}

/// The digits of a hexadecimal text are as many as were asked for, and each
/// stands for four bits, with letters in lower case.
pub proof fn hex_is_positional(n: nat, digits: nat)
    ensures
        hex(n, digits).len() == digits,
        digits > 0 ==> {
            &&& hex(n, digits).drop_last() == hex(n / 16, (digits - 1) as nat)
            &&& n % 16 < 10 ==> hex(n, digits).last() as u32 == 48 + n % 16
            &&& n % 16 >= 10 ==> hex(n, digits).last() as u32 == 97 + n % 16 - 10
        },
    decreases digits,
{
    if digits > 0 {
        hex_is_positional(n / 16, (digits - 1) as nat);
        assert(hex(n, digits).drop_last() =~= hex(n / 16, (digits - 1) as nat));
    }
}

/// Padding makes a text as wide as asked, never cuts one, and puts nothing but
/// spaces on its own side.
pub proof fn padding_only_adds_spaces(s: Seq<char>, width: nat)
    ensures
        right_aligned(s, width).len() == (if s.len() < width {
            width
        } else {
            s.len()
        }),
        left_aligned(s, width).len() == right_aligned(s, width).len(),
        forall|i: int|
            0 <= i < s.len() ==> #[trigger] s[i] == right_aligned(s, width)[i + right_aligned(
                s,
                width,
            ).len() - s.len()] && s[i] == left_aligned(s, width)[i],
        forall|i: int|
            0 <= i < right_aligned(s, width).len() - s.len() ==> #[trigger] right_aligned(
                s,
                width,
            )[i] == ' ',
        forall|i: int|
            s.len() <= i < left_aligned(s, width).len() ==> #[trigger] left_aligned(s, width)[i]
                == ' ',
{
}

} // verus!
