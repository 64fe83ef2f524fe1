//! Characters, tokens and numbers of assembly source text.
//!
//! Source text is handled as a sequence of characters. Everything here is
//! stated over `Seq<char>`: the longest run of characters of a class, the
//! text of a line without its comment and the blanks around it, the next
//! token, and the value of a number literal.

use vstd::prelude::*;

verus! {

/// Whether `c` is white space, as Unicode defines it.
pub open spec fn is_space_spec(c: char) -> bool {
    let n = c as u32;
    ||| 0x09 <= n <= 0x0D
    ||| n == 0x20
    ||| n == 0x85
    ||| n == 0xA0
    ||| n == 0x1680
    ||| 0x2000 <= n <= 0x200A
    ||| n == 0x2028
    ||| n == 0x2029
    ||| n == 0x202F
    ||| n == 0x205F
    ||| n == 0x3000
}

/// Whether `c` is white space, as Unicode defines it.
#[verifier::when_used_as_spec(is_space_spec)]
pub fn is_space(c: char) -> (b: bool)
    ensures
        b == is_space_spec(c),
{
    let n = c as u32;
    (0x09 <= n && n <= 0x0D) || n == 0x20 || n == 0x85 || n == 0xA0 || n == 0x1680 || (0x2000 <= n
        && n <= 0x200A) || n == 0x2028 || n == 0x2029 || n == 0x202F || n == 0x205F || n == 0x3000
}

/// A class of characters that a scan runs over.
#[derive(Debug, Clone, Copy, PartialEq, Eq, Structural)]
pub enum Class {
    /// White space.
    Space,
    /// What stands between tokens: white space and commas.
    Separator,
    /// What a token is made of: anything but a separator.
    Word,
    /// What is not a comment: anything up to a semicolon.
    Code,
    /// What a line is made of: anything but a line feed.
    Line,
    /// What a mnemonic is made of before its width: anything but a dot.
    Name,
    /// The colon that ends a label's definition.
    Colon,
}

impl Class {
    /// Whether `c` belongs to the class.
    pub open spec fn has_spec(self, c: char) -> bool {
        match self {
            Class::Space => is_space(c),
            Class::Separator => is_space(c) || c == ',',
            Class::Word => !(is_space(c) || c == ','),
            Class::Code => c != ';',
            Class::Line => c != '\n',
            Class::Name => c != '.',
            Class::Colon => c == ':',
        }
    }

    /// Whether `c` belongs to the class.
    #[verifier::when_used_as_spec(has_spec)]
    pub fn has(self, c: char) -> (b: bool)
        ensures
            b == self.has_spec(c),
    {
        match self {
            Class::Space => is_space(c),
            Class::Separator => is_space(c) || c == ',',
            Class::Word => !(is_space(c) || c == ','),
            Class::Code => c != ';',
            Class::Line => c != '\n',
            Class::Name => c != '.',
            Class::Colon => c == ':',
        }
    }
}

/// Length of the longest prefix of `s` whose characters all belong to
/// `class`.
pub open spec fn run(s: Seq<char>, class: Class) -> nat
    decreases s.len(),
{
    if s.len() > 0 && class.has(s[0]) {
        1 + run(s.drop_first(), class)
    } else {
        0
    }
}

/// Length of the longest suffix of `s` whose characters all belong to
/// `class`.
pub open spec fn run_back(s: Seq<char>, class: Class) -> nat
    decreases s.len(),
{
    if s.len() > 0 && class.has(s.last()) {
        1 + run_back(s.drop_last(), class)
    } else {
        0
    }
}

/// A run lies within the text, is made of characters of the class, and
/// ends at the end of the text or before a character that is not of the
/// class.
pub proof fn lemma_run(s: Seq<char>, class: Class)
    ensures
        run(s, class) <= s.len(),
        forall|i: int| 0 <= i < run(s, class) ==> class.has(#[trigger] s[i]),
        run(s, class) < s.len() ==> !class.has(s[run(s, class) as int]),
    decreases s.len(),
{
    if s.len() > 0 && class.has(s[0]) {
        let t = s.drop_first();
        lemma_run(t, class);
        assert forall|i: int| 0 <= i < run(s, class) implies class.has(#[trigger] s[i]) by {
            if i > 0 {
                assert(s[i] == t[i - 1]);
            }
        }
        if run(s, class) < s.len() {
            assert(s[run(s, class) as int] == t[run(t, class) as int]);
        }
    }
}

/// A run from the end lies within the text, is made of characters of the
/// class, and begins at the beginning of the text or after a character
/// that is not of the class.
pub proof fn lemma_run_back(s: Seq<char>, class: Class)
    ensures
        run_back(s, class) <= s.len(),
        forall|i: int| s.len() - run_back(s, class) <= i < s.len() ==> class.has(#[trigger] s[i]),
        run_back(s, class) < s.len() ==> !class.has(s[s.len() - run_back(s, class) - 1]),
    decreases s.len(),
{
    if s.len() > 0 && class.has(s.last()) {
        let t = s.drop_last();
        lemma_run_back(t, class);
        assert forall|i: int| s.len() - run_back(s, class) <= i < s.len() implies class.has(
            #[trigger] s[i],
        ) by {
            if i < s.len() - 1 {
                assert(s[i] == t[i]);
            }
        }
        if run_back(s, class) < s.len() {
            assert(s[s.len() - run_back(s, class) - 1] == t[t.len() - run_back(t, class) - 1]);
        }
    }
}

/// Where the run of `class` that begins at `from` ends, within the part of
/// `s` before `end`.
pub fn scan(s: &[char], from: usize, end: usize, class: Class) -> (to: usize)
    requires
        from <= end <= s.len(),
    ensures
        from <= to <= end,
        to == from + run(s@.subrange(from as int, end as int), class),
{
    let mut i = from;
    while i < end && class.has(s[i])
        invariant
            from <= i <= end <= s.len(),
            run(s@.subrange(from as int, end as int), class) == (i - from) + run(
                s@.subrange(i as int, end as int),
                class,
            ),
        decreases end - i,
    {
        assert(s@.subrange(i as int, end as int).drop_first() =~= s@.subrange(
            i as int + 1,
            end as int,
        ));
        i += 1;
    }
    assert(i < end ==> s@.subrange(i as int, end as int)[0] == s@[i as int]);
    i
}

/// Where the run of `class` that ends at `to` begins, within the part of
/// `s` from `start` on.
pub fn scan_back(s: &[char], start: usize, to: usize, class: Class) -> (from: usize)
    requires
        start <= to <= s.len(),
    ensures
        start <= from <= to,
        from == to - run_back(s@.subrange(start as int, to as int), class),
{
    let mut i = to;
    while i > start && class.has(s[i - 1])
        invariant
            start <= i <= to <= s.len(),
            run_back(s@.subrange(start as int, to as int), class) == (to - i) + run_back(
                s@.subrange(start as int, i as int),
                class,
            ),
        decreases i - start,
    {
        assert(s@.subrange(start as int, i as int).drop_last() =~= s@.subrange(
            start as int,
            i as int - 1,
        ));
        i -= 1;
    }
    assert(i > start ==> s@.subrange(start as int, i as int).last() == s@[i as int - 1]);
    i
}

/// The part of a line that is not a comment: what stands before the first
/// semicolon.
pub open spec fn strip_comment(line: Seq<char>) -> Seq<char> {
    line.take(run(line, Class::Code) as int)
}

/// `s` without the white space at its beginning and at its end.
pub open spec fn trim(s: Seq<char>) -> Seq<char> {
    let t = s.skip(run(s, Class::Space) as int);
    t.take(t.len() - run_back(t, Class::Space))
}

/// What a line of source says: its text without the comment and without
/// the white space around it.
pub open spec fn clean(line: Seq<char>) -> Seq<char> {
    trim(strip_comment(line))
}

/// The characters of `s` from `from` up to `to`.
pub fn copy_range(s: &[char], from: usize, to: usize) -> (r: Vec<char>)
    requires
        from <= to <= s.len(),
    ensures
        r@ == s@.subrange(from as int, to as int),
{
    let mut r: Vec<char> = Vec::new();
    let mut i = from;
    while i < to
        invariant
            from <= i <= to <= s.len(),
            r@ == s@.subrange(from as int, i as int),
        decreases to - i,
    {
        r.push(s[i]);
        i += 1;
        assert(r@ =~= s@.subrange(from as int, i as int));
    }
    assert(r@ =~= s@.subrange(from as int, to as int));
    r
}

/// What the line in `s` from `from` up to `to` says.
pub fn clean_line(s: &[char], from: usize, to: usize) -> (r: Vec<char>)
    requires
        from <= to <= s.len(),
    ensures
        r@ == clean(s@.subrange(from as int, to as int)),
{
    let ghost line = s@.subrange(from as int, to as int);
    let code_end = scan(s, from, to, Class::Code);
    let ghost code = s@.subrange(from as int, code_end as int);
    assert(code =~= strip_comment(line));
    let begin = scan(s, from, code_end, Class::Space);
    let ghost rest = s@.subrange(begin as int, code_end as int);
    assert(rest =~= code.skip(run(code, Class::Space) as int));
    let end = scan_back(s, begin, code_end, Class::Space);
    assert(s@.subrange(begin as int, end as int) =~= rest.take(
        rest.len() - run_back(rest, Class::Space),
    ));
    copy_range(s, begin, end)
}

/// The first token of `s`, empty if `s` holds none, and what follows it.
/// A token is a longest run of characters that are neither white space nor
/// commas.
pub open spec fn first_token(s: Seq<char>) -> (Seq<char>, Seq<char>) {
    let t = s.skip(run(s, Class::Separator) as int);
    let n = run(t, Class::Word) as int;
    (t.take(n), t.skip(n))
}

/// Where the first token of `s` after `from` begins and ends.
pub fn next_token(s: &[char], from: usize) -> (r: (usize, usize))
    requires
        from <= s.len(),
    ensures
        from <= r.0 <= r.1 <= s.len(),
        s@.subrange(r.0 as int, r.1 as int) == first_token(s@.skip(from as int)).0,
        s@.skip(r.1 as int) == first_token(s@.skip(from as int)).1,
{
    let ghost tail = s@.skip(from as int);
    assert(tail =~= s@.subrange(from as int, s.len() as int));
    let begin = scan(s, from, s.len(), Class::Separator);
    let ghost t = s@.subrange(begin as int, s.len() as int);
    assert(t =~= tail.skip(run(tail, Class::Separator) as int));
    let end = scan(s, begin, s.len(), Class::Word);
    assert(s@.subrange(begin as int, end as int) =~= t.take(run(t, Class::Word) as int));
    assert(s@.skip(end as int) =~= t.skip(run(t, Class::Word) as int));
    (begin, end)
}

/// The upper-case form of an ASCII letter; any other character is left as
/// it is.
pub open spec fn upper_spec(c: char) -> char {
    if 'a' <= c && c <= 'z' {
        ((c as u8) - 32) as char
    } else {
        c
    }
}

/// The upper-case form of an ASCII letter; any other character is left as
/// it is.
#[verifier::when_used_as_spec(upper_spec)]
pub fn upper(c: char) -> (r: char)
    ensures
        r == upper_spec(c),
{
    if 'a' <= c && c <= 'z' {
        ((c as u8) - 32) as char
    } else {
        c
    }
}

/// `s` with its ASCII letters in upper case.
pub open spec fn upper_text(s: Seq<char>) -> Seq<char> {
    Seq::new(s.len(), |i: int| upper(s[i]))
}

/// The characters of `s` from `from` up to `to`, ASCII letters in upper
/// case.
pub fn upper_range(s: &[char], from: usize, to: usize) -> (r: Vec<char>)
    requires
        from <= to <= s.len(),
    ensures
        r@ == upper_text(s@.subrange(from as int, to as int)),
{
    let mut r: Vec<char> = Vec::new();
    let mut i = from;
    while i < to
        invariant
            from <= i <= to <= s.len(),
            r@ == upper_text(s@.subrange(from as int, i as int)),
        decreases to - i,
    {
        r.push(upper(s[i]));
        i += 1;
        assert(r@ =~= upper_text(s@.subrange(from as int, i as int)));
    }
    assert(r@ =~= upper_text(s@.subrange(from as int, to as int)));
    r
}

/// The characters of a string.
pub fn chars_of(s: &str) -> (r: Vec<char>)
    ensures
        r@ == s@,
{
    let mut r: Vec<char> = Vec::new();
    for c in it: s.chars()
        invariant
            it.seq() == s@,
            r@ == s@.take(it.index() as int),
    {
        r.push(c);
    }
    assert(r@ == s@);
    r
}

/// Whether two texts are the same.
pub fn same_text(a: &[char], b: &[char]) -> (r: bool)
    ensures
        r == (a@ == b@),
{
    if a.len() != b.len() {
        return false;
    }
    let mut i: usize = 0;
    while i < a.len()
        invariant
            i <= a.len(),
            a.len() == b.len(),
            a@.take(i as int) == b@.take(i as int),
        decreases a.len() - i,
    {
        if a[i] != b[i] {
            return false;
        }
        i += 1;
        assert(a@.take(i as int) =~= a@.take(i as int - 1).push(a@[i as int - 1]));
        assert(b@.take(i as int) =~= b@.take(i as int - 1).push(b@[i as int - 1]));
    }
    assert(a@ =~= a@.take(i as int));
    assert(b@ =~= b@.take(i as int));
    true
}

/// Whether the text `a` is the word `word`.
pub fn is_word(a: &[char], word: &str) -> (r: bool)
    ensures
        r == (a@ == word@),
{
    let w = chars_of(word);
    same_text(a, w.as_slice())
}

/// The value of a digit: `0` to `9`, then `a` to `f` in either case for ten
/// to fifteen.
pub open spec fn digit_spec(c: char) -> Option<u32> {
    if '0' <= c && c <= '9' {
        Some((c as u32 - '0' as u32) as u32)
    } else if 'a' <= c && c <= 'f' {
        Some((c as u32 - 'a' as u32 + 10) as u32)
    } else if 'A' <= c && c <= 'F' {
        Some((c as u32 - 'A' as u32 + 10) as u32)
    } else {
        None
    }
}

/// The value of a digit, if `c` is one.
#[verifier::when_used_as_spec(digit_spec)]
pub fn digit(c: char) -> (r: Option<u32>)
    ensures
        r == digit_spec(c),
        r matches Some(d) ==> d < 16,
{
    if '0' <= c && c <= '9' {
        Some(c as u32 - '0' as u32)
    } else if 'a' <= c && c <= 'f' {
        Some(c as u32 - 'a' as u32 + 10)
    } else if 'A' <= c && c <= 'F' {
        Some(c as u32 - 'A' as u32 + 10)
    } else {
        None
    }
}

/// The number that the digits `s` spell in base `radix`, most significant
/// digit first; none if a character is no digit of that base.
pub open spec fn digits_value(s: Seq<char>, radix: nat) -> Option<nat>
    decreases s.len(),
{
    if s.len() == 0 {
        Some(0)
    } else {
        match (digits_value(s.drop_last(), radix), digit(s.last())) {
            (Some(v), Some(d)) => if d < radix {
                Some(v * radix + d as nat)
            } else {
                None
            },
            _ => None,
        }
    }
}

/// The value of a number literal: `0x` and one or more hexadecimal digits,
/// or one or more decimal digits, which a `+` may precede.
pub open spec fn number(s: Seq<char>) -> Option<nat> {
    let digits = if s.len() >= 2 && s[0] == '0' && s[1] == 'x' {
        s.skip(2)
    } else if s.len() >= 1 && s[0] == '+' {
        s.skip(1)
    } else {
        s
    };
    let radix: nat = if s.len() >= 2 && s[0] == '0' && s[1] == 'x' {
        16
    } else {
        10
    };
    if digits.len() == 0 {
        None
    } else {
        digits_value(digits, radix)
    }
}

/// The value of a number literal that fits 32 bits.
pub open spec fn number_u32(s: Seq<char>) -> Option<u32> {
    match number(s) {
        Some(v) => if v <= u32::MAX {
            Some(v as u32)
        } else {
            None
        },
        None => None,
    }
}

/// Where digits spell a number, so does each of their prefixes, and a
/// number no larger.
pub proof fn lemma_digits_prefix(s: Seq<char>, radix: nat, k: int)
    requires
        0 <= k <= s.len(),
        digits_value(s, radix) is Some,
    ensures
        digits_value(s.take(k), radix) is Some,
        digits_value(s.take(k), radix)->0 <= digits_value(s, radix)->0,
    decreases s.len(),
{
    if k == s.len() {
        assert(s.take(k) =~= s);
    } else {
        let t = s.drop_last();
        assert(t.take(k) =~= s.take(k));
        lemma_digits_prefix(t, radix, k);
        let v = digits_value(t, radix)->0;
        let d = digit(s.last())->0;
        assert(v <= v * radix + d) by (nonlinear_arith)
            requires
                radix > d,
                d >= 0,
                v >= 0,
        ;
    }
}

/// The value of a number literal, if `s` is one and its value fits 32 bits.
pub fn parse_number(s: &[char]) -> (r: Option<u32>)
    ensures
        r == number_u32(s@),
{
    let n = s.len();
    let hex = n >= 2 && s[0] == '0' && s[1] == 'x';
    let start: usize = if hex {
        2
    } else if n >= 1 && s[0] == '+' {
        1
    } else {
        0
    };
    let radix: u32 = if hex {
        16
    } else {
        10
    };
    if start == n {
        return None;
    }
    let ghost digits = s@.subrange(start as int, n as int);
    assert(digits =~= s@.skip(start as int));
    assert(start == 0 ==> digits =~= s@);
    assert(number(s@) == digits_value(digits, radix as nat));
    let mut acc: u64 = 0;
    let mut i = start;
    assert(s@.subrange(start as int, i as int) =~= Seq::<char>::empty());
    while i < n
        invariant
            start <= i <= n,
            n == s.len(),
            radix == 10 || radix == 16,
            digits == s@.subrange(start as int, n as int),
            number(s@) == digits_value(digits, radix as nat),
            digits_value(s@.subrange(start as int, i as int), radix as nat) == Some(acc as nat),
            acc <= u32::MAX,
        decreases n - i,
    {
        let ghost prefix = s@.subrange(start as int, i as int + 1);
        assert(prefix.drop_last() =~= s@.subrange(start as int, i as int));
        assert(prefix =~= digits.take(i + 1 - start));
        let d = match digit(s[i]) {
            Some(d) => d,
            None => {
                proof {
                    if digits_value(digits, radix as nat) is Some {
                        lemma_digits_prefix(digits, radix as nat, i + 1 - start);
                    }
                }
                return None;
            },
        };
        if d >= radix {
            proof {
                if digits_value(digits, radix as nat) is Some {
                    lemma_digits_prefix(digits, radix as nat, i + 1 - start);
                }
            }
            return None;
        }
        assert(acc * radix + d <= 0xFFFF_FFFF * 16 + 15) by (nonlinear_arith)
            requires
                acc <= 0xFFFF_FFFF,
                radix <= 16,
                d <= 15,
        ;
        let next = acc * radix as u64 + d as u64;
        if next > u32::MAX as u64 {
            proof {
                if digits_value(digits, radix as nat) is Some {
                    lemma_digits_prefix(digits, radix as nat, i + 1 - start);
                }
            }
            return None;
        }
        acc = next;
        i += 1;
    }
    assert(s@.subrange(start as int, i as int) =~= digits);
    Some(acc as u32)
}

/// The characters of `chars` as a string.
///
/// Trusted: `String::from_iter` on the characters is taken to give the
/// string that is made of exactly these characters, in this order.
#[verifier::external_body]
pub(crate) fn string_of(chars: &[char]) -> (s: String)
    ensures
        s@ == chars@,
{
    String::from_iter(chars.iter())
}

/// The character for a hexadecimal digit, with the letters in upper or in
/// lower case.
pub open spec fn hex_char_spec(d: u8, upper_case: bool) -> char {
    if d < 10 {
        (('0' as u8) + d) as char
    } else if upper_case {
        (('A' as u8) + (d - 10)) as char
    } else {
        (('a' as u8) + (d - 10)) as char
    }
}

/// The character for a hexadecimal digit.
#[verifier::when_used_as_spec(hex_char_spec)]
pub fn hex_char(d: u8, upper_case: bool) -> (c: char)
    requires
        d < 16,
    ensures
        c == hex_char_spec(d, upper_case),
{
    if d < 10 {
        (('0' as u8) + d) as char
    } else if upper_case {
        (('A' as u8) + (d - 10)) as char
    } else {
        (('a' as u8) + (d - 10)) as char
    }
}

/// The six hexadecimal digits of a number below `2^24`, most significant
/// first.
pub open spec fn hex_text(v: nat, upper_case: bool) -> Seq<char> {
    Seq::new(
        6,
        |i: int|
            hex_char(
                if i == 0 {
                    (v / 0x10_0000 % 16) as u8
                } else if i == 1 {
                    (v / 0x1_0000 % 16) as u8
                } else if i == 2 {
                    (v / 0x1000 % 16) as u8
                } else if i == 3 {
                    (v / 0x100 % 16) as u8
                } else if i == 4 {
                    (v / 0x10 % 16) as u8
                } else {
                    (v % 16) as u8
                },
                upper_case,
            ),
    )
}

/// The six hexadecimal digits of a number below `2^24` as a string.
pub fn hex_string(v: u32, upper_case: bool) -> (s: String)
    requires
        v < 0x0100_0000,
    ensures
        s@ == hex_text(v as nat, upper_case),
{
    let mut chars: Vec<char> = Vec::new();
    chars.push(hex_char((v / 0x10_0000 % 16) as u8, upper_case));
    chars.push(hex_char((v / 0x1_0000 % 16) as u8, upper_case));
    chars.push(hex_char((v / 0x1000 % 16) as u8, upper_case));
    chars.push(hex_char((v / 0x100 % 16) as u8, upper_case));
    chars.push(hex_char((v / 0x10 % 16) as u8, upper_case));
    chars.push(hex_char((v % 16) as u8, upper_case));
    assert(chars@ =~= hex_text(v as nat, upper_case));
    string_of(chars.as_slice())
}

} // verus!
