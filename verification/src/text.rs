//! Plain text: trimming, splitting, joining and decimal numbers.

use vstd::prelude::*;
use vstd::string::*;

verus! {

/// The text as a list of characters, for scanning.
pub fn chars_of(s: &str) -> (r: Vec<char>)
    ensures
        r@ == s@,
{
    broadcast use vstd::string::axiom_spec_iter;

    let mut r: Vec<char> = Vec::new();
    for c in iter: s.chars()
        invariant
            iter.seq() == s@,
            r@ == s@.take(iter.index() as int),
    {
        r.push(c);
        assert(s@.take(iter.index() + 1) =~= s@.take(iter.index() as int).push(c));
    }
    assert(s@.take(s@.len() as int) =~= s@);
    r
}

/// Whether a character is white space.
pub open spec fn is_space(c: char) -> bool {
    let n = c as u32;
    ||| 0x09 <= n <= 0x0D
    ||| n == 0x20 || n == 0x85 || n == 0xA0 || n == 0x1680
    ||| 0x2000 <= n <= 0x200A
    ||| n == 0x2028 || n == 0x2029 || n == 0x202F || n == 0x205F || n == 0x3000
}

/// Whether a character is white space.
pub fn space(c: char) -> (r: bool)
    ensures
        r == is_space(c),
{
    let n: u32 = c as u32;
    (0x09 <= n && n <= 0x0D) || n == 0x20 || n == 0x85 || n == 0xA0 || n == 0x1680 || (0x2000 <= n
        && n <= 0x200A) || n == 0x2028 || n == 0x2029 || n == 0x202F || n == 0x205F || n == 0x3000
}

/// The text without the white space it starts with.
pub open spec fn trim_left(s: Seq<char>) -> Seq<char>
    decreases s.len(),
{
    if s.len() > 0 && is_space(s[0]) {
        trim_left(s.skip(1))
    } else {
        s
    }
}

/// The text without the white space it ends with.
pub open spec fn trim_right(s: Seq<char>) -> Seq<char>
    decreases s.len(),
{
    if s.len() > 0 && is_space(s.last()) {
        trim_right(s.drop_last())
    } else {
        s
    }
}

/// The text without white space at either end.
pub open spec fn trimmed(s: Seq<char>) -> Seq<char> {
    trim_right(trim_left(s))
}

/// Trims white space off the start.
pub fn trim_start<'a>(s: &'a str) -> (r: &'a str)
    ensures
        r@ == trim_left(s@),
{
    let cs = chars_of(s);
    let n: usize = cs.len();
    let mut from: usize = 0;
    assert(s@.skip(0) =~= s@);
    while from < n && space(cs[from])
        invariant
            from <= n,
            n == cs@.len(),
            cs@ == s@,
            trim_left(s@) == trim_left(s@.skip(from as int)),
        decreases n - from,
    {
        assert(s@.skip(from as int).skip(1) =~= s@.skip(from + 1));
        from = from + 1;
    }
    assert(s@.subrange(from as int, n as int) =~= s@.skip(from as int));
    s.substring_char(from, n)
}

/// Trims white space off both ends.
pub fn trim<'a>(s: &'a str) -> (r: &'a str)
    ensures
        r@ == trimmed(s@),
{
    let left = trim_start(s);
    let cs = chars_of(left);
    let mut to: usize = cs.len();
    assert(left@.take(to as int) =~= left@);
    while to > 0 && space(cs[to - 1])
        invariant
            to <= cs@.len(),
            cs@ == left@,
            trim_right(left@) == trim_right(left@.take(to as int)),
        decreases to,
    {
        assert(left@.take(to as int).drop_last() =~= left@.take(to - 1));
        to = to - 1;
    }
    assert(left@.subrange(0, to as int) =~= left@.take(to as int));
    left.substring_char(0, to)
}

/// Whether two texts are the same.
pub fn same(a: &str, b: &str) -> (r: bool)
    ensures
        r == (a@ == b@),
{
    a.to_owned() == b.to_owned()
}

/// The rest of a text that starts with `prefix`.
pub fn strip_prefix<'a>(s: &'a str, prefix: &str) -> (r: Option<&'a str>)
    ensures
        r is Some <==> prefix@.is_prefix_of(s@),
        r is Some ==> r->0@ == s@.skip(prefix@.len() as int),
{
    let n: usize = s.unicode_len();
    let k: usize = prefix.unicode_len();
    if k <= n && same(s.substring_char(0, k), prefix) {
        Some(s.substring_char(k, n))
    } else {
        assert(prefix@.len() <= s@.len() ==> s@.subrange(0, k as int) != prefix@);
        None
    }
}

/// Where a character first occurs, or the length of the text.
pub open spec fn first_at(s: Seq<char>, c: char) -> int
    decreases s.len(),
{
    if s.len() == 0 || s[0] == c {
        0
    } else {
        1 + first_at(s.skip(1), c)
    }
}

/// What `first_at` says, element by element.
pub proof fn lemma_first_at(s: Seq<char>, c: char)
    ensures
        0 <= first_at(s, c) <= s.len(),
        first_at(s, c) < s.len() ==> s[first_at(s, c)] == c,
        forall|i: int| 0 <= i < first_at(s, c) ==> s[i] != c,
        s.contains(c) <==> first_at(s, c) < s.len(),
    decreases s.len(),
{
    if s.len() > 0 && s[0] != c {
        let t = s.skip(1);
        lemma_first_at(t, c);
        assert forall|i: int| 0 <= i < first_at(s, c) implies s[i] != c by {
            if i > 0 {
                assert(s[i] == t[i - 1]);
            }
        }
    }
}

/// Finds a character that no earlier position holds.
fn find(cs: &Vec<char>, from: usize, c: char) -> (r: usize)
    requires
        from <= cs.len(),
    ensures
        from <= r <= cs.len(),
        r == from + first_at(cs@.skip(from as int), c),
{
    let mut i: usize = from;
    while i < cs.len() && cs[i] != c
        invariant
            from <= i <= cs.len(),
            i - from + first_at(cs@.skip(i as int), c) == first_at(cs@.skip(from as int), c),
        decreases cs.len() - i,
    {
        assert(cs@.skip(i as int).skip(1) =~= cs@.skip(i + 1));
        i = i + 1;
    }
    i
}

/// Splits a text at the first place where a character occurs.
pub fn split_once<'a>(s: &'a str, c: char) -> (r: Option<(&'a str, &'a str)>)
    ensures
        r is Some <==> s@.contains(c),
        r is Some ==> (r->0).0@ == s@.take(first_at(s@, c)),
        r is Some ==> (r->0).1@ == s@.skip(first_at(s@, c) + 1),
{
    let cs = chars_of(s);
    proof {
        lemma_first_at(s@, c);
        assert(cs@.skip(0) =~= s@);
    }
    let at: usize = find(&cs, 0, c);
    if at < cs.len() {
        Some((s.substring_char(0, at), s.substring_char(at + 1, cs.len())))
    } else {
        None
    }
}

/// The parts of a text between the places where a character occurs.
pub open spec fn split_on(s: Seq<char>, c: char) -> Seq<Seq<char>>
    decreases s.len(),
{
    if 0 <= first_at(s, c) < s.len() {
        seq![s.take(first_at(s, c))] + split_on(s.skip(first_at(s, c) + 1), c)
    } else {
        seq![s]
    }
}

/// The texts that a list of strings stands for.
pub open spec fn texts(items: Seq<String>) -> Seq<Seq<char>> {
    items.map_values(|s: String| s@)
}

/// Splits a text at every place where a character occurs.
pub fn split(s: &str, c: char) -> (r: Vec<String>)
    ensures
        texts(r@) == split_on(s@, c),
{
    let mut r: Vec<String> = Vec::new();
    let mut rest: &str = s;
    let ghost all = split_on(s@, c);
    assert(texts(r@) + all =~= all);
    loop
        invariant
            texts(r@) + split_on(rest@, c) == all,
            all == split_on(s@, c),
        decreases rest@.len(),
    {
        proof {
            lemma_first_at(rest@, c);
        }
        let ghost before = r@;
        let ghost parts = split_on(rest@, c);
        match split_once(rest, c) {
            Some((head, tail)) => {
                assert(parts =~= seq![head@] + split_on(tail@, c));
                r.push(head.to_owned());
                assert(texts(r@) =~= texts(before).push(head@));
                assert(texts(before) + parts =~= texts(r@) + split_on(tail@, c));
                rest = tail;
            },
            None => {
                r.push(rest.to_owned());
                assert(texts(r@) =~= texts(before).push(rest@));
                assert(all =~= texts(r@));
                return r;
            },
        }
    }
}

/// The number of characters before the first white space.
pub open spec fn word_len(s: Seq<char>) -> nat
    decreases s.len(),
{
    if s.len() == 0 || is_space(s[0]) {
        0
    } else {
        1 + word_len(s.skip(1))
    }
}

/// What `word_len` says, element by element.
pub proof fn lemma_word_len(s: Seq<char>)
    ensures
        word_len(s) <= s.len(),
        forall|i: int| 0 <= i < word_len(s) ==> !is_space(s[i]),
        word_len(s) < s.len() ==> is_space(s[word_len(s) as int]),
    decreases s.len(),
{
    if s.len() > 0 && !is_space(s[0]) {
        let t = s.skip(1);
        lemma_word_len(t);
        assert forall|i: int| 0 <= i < word_len(s) implies !is_space(s[i]) by {
            if i > 0 {
                assert(s[i] == t[i - 1]);
            }
        }
    }
}

/// The words of a text, that is what stands between white space.
pub open spec fn tokens(s: Seq<char>) -> Seq<Seq<char>>
    decreases s.len(),
{
    if s.len() == 0 {
        Seq::empty()
    } else if is_space(s[0]) {
        tokens(s.skip(1))
    } else {
        proof {
            lemma_word_len(s);
        }
        let n = word_len(s);
        seq![s.take(n as int)] + tokens(s.skip(n as int))
    }
}

/// The texts with a separator between each two.
pub open spec fn joined(items: Seq<Seq<char>>, sep: Seq<char>) -> Seq<char>
    decreases items.len(),
{
    if items.len() == 0 {
        Seq::empty()
    } else if items.len() == 1 {
        items[0]
    } else {
        joined(items.drop_last(), sep) + sep + items.last()
    }
}

/// Joins strings with a separator between each two.
pub fn join(items: &Vec<String>, sep: &str) -> (r: String)
    ensures
        r@ == joined(texts(items@), sep@),
{
    let mut r = String::new();
    let mut i: usize = 0;
    while i < items.len()
        invariant
            i <= items.len(),
            r@ == joined(texts(items@).take(i as int), sep@),
        decreases items.len() - i,
    {
        let ghost before = texts(items@).take(i as int);
        let ghost now = texts(items@).take(i + 1);
        assert(now.drop_last() =~= before);
        assert(now.last() == items@[i as int]@);
        if i > 0 {
            r.append(sep);
        }
        r.append(items[i].as_str());
        assert(r@ =~= joined(now, sep@));
        i = i + 1;
    }
    assert(texts(items@).take(i as int) =~= texts(items@));
    r
}

/// A joined text starts with its first part.
pub proof fn lemma_joined_front(items: Seq<Seq<char>>, sep: Seq<char>)
    requires
        items.len() > 1,
    ensures
        joined(items, sep) == items[0] + sep + joined(items.skip(1), sep),
    decreases items.len(),
{
    let whole = joined(items, sep);
    let tail = items.skip(1);
    if items.len() == 2 {
        assert(items.drop_last().len() == 1);
        assert(joined(items.drop_last(), sep) == items[0]);
        assert(joined(tail, sep) == items[1]);
        assert(whole =~= items[0] + sep + items[1]);
    } else {
        lemma_joined_front(items.drop_last(), sep);
        assert(items.drop_last().skip(1) =~= tail.drop_last());
        assert(items.drop_last()[0] == items[0]);
        assert(tail.last() == items.last());
        assert(whole =~= items[0] + sep + joined(tail, sep));
    }
}

/// The first place of a character right behind a text without it.
pub proof fn lemma_first_at_end(head: Seq<char>, c: char, tail: Seq<char>)
    requires
        !head.contains(c),
    ensures
        first_at(head + seq![c] + tail, c) == head.len(),
    decreases head.len(),
{
    let s = head + seq![c] + tail;
    if head.len() > 0 {
        assert(head.contains(head[0]));
        assert forall|x: char| head.skip(1).contains(x) implies head.contains(x) by {
            let i = choose|i: int| 0 <= i < head.skip(1).len() && head.skip(1)[i] == x;
            assert(head[i + 1] == x);
        }
        lemma_first_at_end(head.skip(1), c, tail);
        assert(s.skip(1) =~= head.skip(1) + seq![c] + tail);
        assert(s[0] == head[0]);
    } else {
        assert(s[0] == c);
    }
}

/// Splitting undoes joining where no part holds the separator.
pub proof fn lemma_split_joined(items: Seq<Seq<char>>, c: char)
    requires
        items.len() > 0,
        forall|i: int| 0 <= i < items.len() ==> !(#[trigger] items[i]).contains(c),
    ensures
        split_on(joined(items, seq![c]), c) == items,
    decreases items.len(),
{
    let whole = joined(items, seq![c]);
    lemma_first_at(whole, c);
    assert(!items[0].contains(c));
    if items.len() == 1 {
        assert(split_on(whole, c) =~= items);
    } else {
        lemma_joined_front(items, seq![c]);
        let tail = items.skip(1);
        assert forall|i: int| 0 <= i < tail.len() implies !(#[trigger] tail[i]).contains(c) by {
            assert(tail[i] == items[i + 1]);
        }
        lemma_split_joined(tail, c);
        lemma_first_at_end(items[0], c, joined(tail, seq![c]));
        let at = items[0].len() as int;
        assert(whole.take(at) =~= items[0]);
        assert(whole.skip(at + 1) =~= joined(tail, seq![c]));
        assert(split_on(whole, c) =~= items);
    }
}

/// The character of a decimal digit.
pub open spec fn digit(d: nat) -> char {
    (0x30 + d) as char
}

/// A number in decimal, without leading zeros.
pub open spec fn decimal(n: nat) -> Seq<char>
    decreases n,
{
    if n < 10 {
        seq![digit(n)]
    } else {
        decimal(n / 10).push(digit(n % 10))
    }
}

fn digit_text(d: u64) -> (r: &'static str)
    requires
        d < 10,
    ensures
        r@ == seq![digit(d as nat)],
{
    proof {
        reveal_strlit("0");
        reveal_strlit("1");
        reveal_strlit("2");
        reveal_strlit("3");
        reveal_strlit("4");
        reveal_strlit("5");
        reveal_strlit("6");
        reveal_strlit("7");
        reveal_strlit("8");
        reveal_strlit("9");
    }
    match d {
        0 => "0",
        1 => "1",
        2 => "2",
        3 => "3",
        4 => "4",
        5 => "5",
        6 => "6",
        7 => "7",
        8 => "8",
        _ => "9",
    }
}

/// Writes a number in decimal.
pub fn decimal_text(n: u64) -> (r: String)
    ensures
        r@ == decimal(n as nat),
    decreases n,
{
    if n < 10 {
        digit_text(n).to_owned()
    } else {
        let mut r = decimal_text(n / 10);
        let ghost head = r@;
        r.append(digit_text(n % 10));
        assert(r@ =~= head.push(digit((n % 10) as nat)));
        r
    }
}

/// Whether a character is a decimal digit.
pub open spec fn is_digit(c: char) -> bool {
    0x30 <= c as u32 && c as u32 <= 0x39
}

/// Whether a text consists of decimal digits.
pub open spec fn all_digits(s: Seq<char>) -> bool {
    forall|i: int| 0 <= i < s.len() ==> is_digit(#[trigger] s[i])
}

/// The number that decimal digits stand for.
pub open spec fn number(s: Seq<char>) -> int
    decreases s.len(),
{
    if s.len() == 0 {
        0
    } else {
        10 * number(s.drop_last()) + (s.last() as u32 - 0x30)
    }
}

/// A text without the plus sign it may start with.
pub open spec fn unsigned(s: Seq<char>) -> Seq<char> {
    if s.len() > 0 && s[0] == '+' {
        s.skip(1)
    } else {
        s
    }
}

/// The number that a text stands for, if it is one that fits.
pub open spec fn parsed_u16(s: Seq<char>) -> Option<u16> {
    let digits = unsigned(s);
    if digits.len() > 0 && all_digits(digits) && number(digits) <= u16::MAX {
        Some(number(digits) as u16)
    } else {
        None
    }
}

fn digit_of(c: char) -> (r: Option<u32>)
    ensures
        r is Some <==> is_digit(c),
        r is Some ==> r->0 == c as u32 - 0x30 && r->0 < 10,
{
    let n: u32 = c as u32;
    if 0x30 <= n && n <= 0x39 {
        Some(n - 0x30)
    } else {
        None
    }
}

/// Reads a decimal number.
pub fn parse_u16(s: &str) -> (r: Option<u16>)
    ensures
        r == parsed_u16(s@),
{
    let cs = chars_of(s);
    let ghost digits = unsigned(s@);
    let start: usize = if cs.len() > 0 && cs[0] == '+' {
        1
    } else {
        0
    };
    assert(digits =~= s@.skip(start as int));
    if start == cs.len() {
        return None;
    }
    let mut acc: u32 = 0;
    let mut i: usize = start;
    while i < cs.len()
        invariant
            start <= i <= cs.len(),
            start <= 1,
            cs@ == s@,
            digits == s@.skip(start as int),
            digits == unsigned(s@),
            digits.len() > 0,
            all_digits(digits.take(i - start)),
            acc <= 0x1_0000,
            acc < 0x1_0000 ==> number(digits.take(i - start)) == acc,
            acc == 0x1_0000 ==> number(digits.take(i - start)) >= 0x1_0000,
        decreases cs.len() - i,
    {
        let ghost now = digits.take(i - start + 1);
        assert(now.drop_last() =~= digits.take(i - start));
        assert(now.last() == cs@[i as int]);
        match digit_of(cs[i]) {
            None => {
                assert(!is_digit(digits[i - start]));
                return None;
            },
            Some(d) => {
                assert(all_digits(now)) by {
                    assert forall|k: int| 0 <= k < now.len() implies is_digit(
                        #[trigger] now[k],
                    ) by {
                        if k < i - start {
                            assert(digits.take(i - start)[k] == now[k]);
                        }
                    }
                }
                let next: u32 = 10 * acc + d;
                acc = if next > 0xFFFF {
                    0x1_0000
                } else {
                    next
                };
            },
        }
        i = i + 1;
    }
    assert(digits.take(i - start) =~= digits);
    if acc <= 0xFFFF {
        Some(acc as u16)
    } else {
        None
    }
}

/// A number written in decimal reads back as that number.
pub proof fn law_decimal_roundtrip(n: u16)
    ensures
        parsed_u16(decimal(n as nat)) == Some(n),
{
    lemma_decimal_number(n as nat);
    let d = decimal(n as nat);
    assert(is_digit(d[0]));
}

proof fn lemma_decimal_number(n: nat)
    ensures
        decimal(n).len() > 0,
        all_digits(decimal(n)),
        number(decimal(n)) == n,
    decreases n,
{
    let d = decimal(n);
    if n < 10 {
        assert(d.drop_last() =~= Seq::empty());
        assert(number(d.drop_last()) == 0);
        assert(d.last() == digit(n));
    } else {
        lemma_decimal_number(n / 10);
        assert(d.drop_last() =~= decimal(n / 10));
        assert(d.last() == digit(n % 10));
    }
}

/// A truth value as text.
pub open spec fn bool_text_of(b: bool) -> Seq<char> {
    if b {
        "true"@
    } else {
        "false"@
    }
}

/// Writes a truth value.
pub fn bool_text(b: bool) -> (r: &'static str)
    ensures
        r@ == bool_text_of(b),
{
    if b {
        "true"
    } else {
        "false"
    }
}

/// Within plain ASCII white space is the blank, the tab and the other separators
/// next to it, and nothing that is printed.
pub proof fn law_white_space_in_ascii(c: char)
    requires
        (c as u32) < 0x80,
    ensures
        is_space(c) <==> c == ' ' || ('\t' as u32 <= c as u32 && c as u32 <= '\r' as u32),
{
}

/// Whether a text is white space throughout.
pub open spec fn blank(s: Seq<char>) -> bool {
    forall|i: int| 0 <= i < s.len() ==> is_space(#[trigger] s[i])
}

/// Trimming takes white space off both ends and stops at the first character that
/// is none; nothing in between changes.
pub proof fn law_trimming_takes_the_ends(left: Seq<char>, body: Seq<char>, right: Seq<char>)
    requires
        blank(left),
        blank(right),
        body.len() > 0,
        !is_space(body[0]),
        !is_space(body.last()),
    ensures
        trimmed(left + body + right) == body,
        trim_left(left + body + right) == body + right,
{
    lemma_trim_left_blank(left, body + right);
    assert(left + body + right =~= left + (body + right));
    lemma_trim_right_blank(body, right);
}

proof fn lemma_trim_left_blank(left: Seq<char>, rest: Seq<char>)
    requires
        blank(left),
        rest.len() > 0,
        !is_space(rest[0]),
    ensures
        trim_left(left + rest) == rest,
    decreases left.len(),
{
    let s = left + rest;
    if left.len() == 0 {
        assert(s =~= rest);
    } else {
        assert(is_space(left[0]));
        let tail = left.skip(1);
        assert forall|i: int| 0 <= i < tail.len() implies is_space(#[trigger] tail[i]) by {
            assert(is_space(left[i + 1]));
        }
        lemma_trim_left_blank(tail, rest);
        assert(s.skip(1) =~= tail + rest);
        assert(s[0] == left[0]);
    }
}

proof fn lemma_trim_right_blank(rest: Seq<char>, right: Seq<char>)
    requires
        blank(right),
        rest.len() > 0,
        !is_space(rest.last()),
    ensures
        trim_right(rest + right) == rest,
    decreases right.len(),
{
    let s = rest + right;
    if right.len() == 0 {
        assert(s =~= rest);
    } else {
        assert(is_space(right[right.len() - 1]));
        let head = right.drop_last();
        assert forall|i: int| 0 <= i < head.len() implies is_space(#[trigger] head[i]) by {
            assert(is_space(right[i]));
        }
        lemma_trim_right_blank(rest, head);
        assert(s.drop_last() =~= rest + head);
        assert(s.last() == right.last());
    }
}

/// A text that is white space throughout trims to nothing.
pub proof fn law_blank_trims_to_nothing(s: Seq<char>)
    requires
        blank(s),
    ensures
        trim_left(s).len() == 0,
        trimmed(s).len() == 0,
    decreases s.len(),
{
    if s.len() > 0 {
        assert(is_space(s[0]));
        let tail = s.skip(1);
        assert forall|i: int| 0 <= i < tail.len() implies is_space(#[trigger] tail[i]) by {
            assert(is_space(s[i + 1]));
        }
        law_blank_trims_to_nothing(tail);
    }
}

/// Splitting cuts at every occurrence and nowhere else: the parts joined again are
/// the text, and no part holds the character.
pub proof fn law_split_parts_join_again(s: Seq<char>, c: char)
    ensures
        split_on(s, c).len() > 0,
        joined(split_on(s, c), seq![c]) == s,
        forall|i: int| 0 <= i < split_on(s, c).len() ==> !(#[trigger] split_on(s, c)[i]).contains(c),
    decreases s.len(),
{
    lemma_first_at(s, c);
    let parts = split_on(s, c);
    let at = first_at(s, c);
    if at < s.len() {
        let head = s.take(at);
        let tail = s.skip(at + 1);
        law_split_parts_join_again(tail, c);
        let rest = split_on(tail, c);
        assert(parts =~= seq![head] + rest);
        assert(parts.skip(1) =~= rest);
        lemma_joined_front(parts, seq![c]);
        assert(s =~= head + seq![c] + tail);
        assert forall|i: int| 0 <= i < parts.len() implies !(#[trigger] parts[i]).contains(c) by {
            if i > 0 {
                assert(parts[i] == rest[i - 1]);
            } else {
                if head.contains(c) {
                    let k = choose|k: int| 0 <= k < head.len() && head[k] == c;
                    assert(s[k] == c);
                }
            }
        }
    } else {
        assert(parts =~= seq![s]);
    }
}

/// Words end at white space: a word, white space and a text have that word and
/// then the words of the text, and leading white space adds none.
pub proof fn law_words_end_at_white_space(word: Seq<char>, gap: char, rest: Seq<char>)
    requires
        word.len() > 0,
        forall|i: int| 0 <= i < word.len() ==> !is_space(#[trigger] word[i]),
        is_space(gap),
    ensures
        tokens(seq![gap] + rest) == tokens(rest),
        tokens(word + seq![gap] + rest) == seq![word] + tokens(rest),
        tokens(word) == seq![word],
        tokens(Seq::empty()).len() == 0,
{
    let g = seq![gap] + rest;
    assert(g.skip(1) =~= rest);
    let s = word + seq![gap] + rest;
    lemma_word_of(word, g);
    assert(s =~= word + g);
    assert(s.take(word.len() as int) =~= word);
    assert(s.skip(word.len() as int) =~= g);
    assert(!is_space(word[0]));
    assert(s[0] == word[0]);
    let n = word_len(s);
    assert(n == word.len());
    assert(tokens(s) == seq![s.take(n as int)] + tokens(s.skip(n as int)));
    assert(tokens(g) == tokens(rest));
    lemma_word_of(word, Seq::empty());
    assert(word + Seq::<char>::empty() =~= word);
    let m = word_len(word);
    assert(m == word.len());
    assert(word.take(m as int) =~= word);
    assert(word.skip(m as int) =~= Seq::empty());
    assert(tokens(word) == seq![word.take(m as int)] + tokens(word.skip(m as int)));
    assert(tokens(Seq::empty()) =~= Seq::empty());
    assert(tokens(word) =~= seq![word]);
}

proof fn lemma_word_of(word: Seq<char>, rest: Seq<char>)
    requires
        forall|i: int| 0 <= i < word.len() ==> !is_space(#[trigger] word[i]),
        rest.len() == 0 || is_space(rest[0]),
    ensures
        word_len(word + rest) == word.len(),
    decreases word.len(),
{
    let s = word + rest;
    if word.len() > 0 {
        assert(!is_space(word[0]));
        let tail = word.skip(1);
        assert forall|i: int| 0 <= i < tail.len() implies !is_space(#[trigger] tail[i]) by {
            assert(!is_space(word[i + 1]));
        }
        lemma_word_of(tail, rest);
        assert(s.skip(1) =~= tail + rest);
        assert(s[0] == word[0]);
    } else {
        assert(s =~= rest);
    }
}

/// Decimal is positional: a digit more makes ten times the number and the digit,
/// and the digits are the characters from `0` on.
pub proof fn law_decimal_is_positional(n: nat, d: nat)
    requires
        d < 10,
    ensures
        decimal(d).len() == 1 && decimal(d)[0] as u32 == '0' as u32 + d,
        n > 0 ==> decimal(10 * n + d) == decimal(n) + decimal(d),
{
    if n > 0 {
        assert((10 * n + d) / 10 == n && (10 * n + d) % 10 == d);
        assert(decimal(10 * n + d) =~= decimal(n) + decimal(d));
    }
}

/// What reads as a number is digits, behind at most one plus sign.
pub proof fn law_numbers_are_digits(s: Seq<char>)
    ensures
        parsed_u16(s) is Some ==> s.len() > 0 && ('0' as u32 <= s.last() as u32 && s.last() as u32
            <= '9' as u32),
        parsed_u16(Seq::empty()) is None,
        parsed_u16(s) is Some && s[0] != '+' ==> parsed_u16(seq!['+'] + s) == parsed_u16(s),
{
    let digits = unsigned(s);
    if parsed_u16(s) is Some {
        assert(is_digit(digits[digits.len() - 1]));
        assert((seq!['+'] + s).skip(1) =~= s);
    }
}

/// A truth value is written as its name.
pub proof fn law_truth_is_written_as_its_name(b: bool)
    ensures
        bool_text_of(b) == "true"@ <==> b,
        bool_text_of(b) == "false"@ <==> !b,
{
    reveal_strlit("true");
    reveal_strlit("false");
    assert("true"@.len() == 4);
    assert("false"@.len() == 5);
}

/// Joining puts the separator between neighbours and nowhere else.
pub proof fn law_joining_separates_neighbours(items: Seq<Seq<char>>, next: Seq<char>, sep: Seq<char>)
    ensures
        joined(Seq::empty(), sep).len() == 0,
        joined(seq![next], sep) == next,
        items.len() > 0 ==> joined(items.push(next), sep) == joined(items, sep) + sep + next,
{
    assert(items.push(next).drop_last() =~= items);
}

} // verus!
