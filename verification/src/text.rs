//! Text as sequences of characters: joining with a separator, numbers in
//! digits, and any text written with the characters of an identifier so that
//! it can be read back.
use vstd::prelude::*;

verus! {

/// The contents of each string of `strings`, in order.
pub open spec fn views(strings: Seq<String>) -> Seq<Seq<char>> {
    strings.map_values(|s: String| s@)
}

/// The contents of an optional string.
pub open spec fn opt_view(s: Option<&String>) -> Option<Seq<char>> {
    match s {
        Some(s) => Some(s@),
        None => None,
    }
}

/// The pieces of `parts` written one after another with `sep` between each two
/// neighbours. No piece gives the empty text; one piece gives that piece.
pub open spec fn join(parts: Seq<Seq<char>>, sep: Seq<char>) -> Seq<char>
    decreases parts.len(),
{
    if parts.len() == 0 {
        Seq::empty()
    } else if parts.len() == 1 {
        parts[0]
    } else {
        join(parts.drop_last(), sep) + sep + parts.last()
    }
}

/// Joins the strings of `parts` from index `start` on, with `sep` between each
/// two neighbours.
pub fn join_from(parts: &Vec<String>, start: usize, sep: &str) -> (joined: String)
    requires
        start <= parts@.len(),
    ensures
        joined@ == join(views(parts@).skip(start as int), sep@),
{
    let ghost all = views(parts@);
    let mut joined = String::new();
    let mut i: usize = start;
    while i < parts.len()
        invariant
            start <= i <= parts@.len(),
            all == views(parts@),
            joined@ == join(all.subrange(start as int, i as int), sep@),
        decreases parts@.len() - i,
    {
        let ghost before = all.subrange(start as int, i as int);
        let ghost after = all.subrange(start as int, i as int + 1);
        proof {
            assert(after.drop_last() =~= before);
        }
        if i > start {
            joined.append(sep);
        }
        joined.append(parts[i].as_str());
        i = i + 1;
    }
    joined
}

/// Joins all strings of `parts`, with `sep` between each two neighbours.
pub fn join_strings(parts: &Vec<String>, sep: &str) -> (joined: String)
    ensures
        joined@ == join(views(parts@), sep@),
{
    proof {
        assert(views(parts@).skip(0) =~= views(parts@));
    }
    join_from(parts, 0, sep)
}

/// The character that stands for the digit `d`, for `d` below sixteen: `0` to
/// `9`, then `a` to `f`.
pub open spec fn digit_char(d: int) -> char {
    if d == 0 {
        '0'
    } else if d == 1 {
        '1'
    } else if d == 2 {
        '2'
    } else if d == 3 {
        '3'
    } else if d == 4 {
        '4'
    } else if d == 5 {
        '5'
    } else if d == 6 {
        '6'
    } else if d == 7 {
        '7'
    } else if d == 8 {
        '8'
    } else if d == 9 {
        '9'
    } else if d == 10 {
        'a'
    } else if d == 11 {
        'b'
    } else if d == 12 {
        'c'
    } else if d == 13 {
        'd'
    } else if d == 14 {
        'e'
    } else {
        'f'
    }
}

/// The digit `d` as a text of one character.
pub fn digit_str(d: u8) -> (text: &'static str)
    requires
        d < 16,
    ensures
        text@ == seq![digit_char(d as int)],
        text.is_ascii(),
{
    proof {
        reveal_strlit("0");
        reveal_strlit("1");
        reveal_strlit("2");
        reveal_strlit("3");
        reveal_strlit("4");
        reveal_strlit("5");
        reveal_strlit("6");
        reveal_strlit("7");
        reveal_strlit("8");
        reveal_strlit("9");
        reveal_strlit("a");
        reveal_strlit("b");
        reveal_strlit("c");
        reveal_strlit("d");
        reveal_strlit("e");
        reveal_strlit("f");
    }
    let text = if d == 0 {
        "0"
    } else if d == 1 {
        "1"
    } else if d == 2 {
        "2"
    } else if d == 3 {
        "3"
    } else if d == 4 {
        "4"
    } else if d == 5 {
        "5"
    } else if d == 6 {
        "6"
    } else if d == 7 {
        "7"
    } else if d == 8 {
        "8"
    } else if d == 9 {
        "9"
    } else if d == 10 {
        "a"
    } else if d == 11 {
        "b"
    } else if d == 12 {
        "c"
    } else if d == 13 {
        "d"
    } else if d == 14 {
        "e"
    } else {
        "f"
    };
    text
}

/// The number `n` written in base ten, without leading zeros.
pub open spec fn decimal(n: nat) -> Seq<char>
    decreases n,
{
    if n < 10 {
        seq![digit_char(n as int)]
    } else {
        decimal(n / 10).push(digit_char((n % 10) as int))
    }
}

/// Writes `n` in base ten.
pub fn decimal_string(n: u64) -> (text: String)
    ensures
        text@ == decimal(n as nat),
    decreases n,
{
    if n < 10 {
        String::from_str(digit_str(n as u8))
    } else {
        let mut text = decimal_string(n / 10);
        text.append(digit_str((n % 10) as u8));
        text
    }
}

/// Whether `c` is a letter of the English alphabet or a digit.
pub open spec fn is_alphanumeric(c: char) -> bool {
    let n = c as u32;
    ||| 48 <= n <= 57
    ||| 65 <= n <= 90
    ||| 97 <= n <= 122
}

/// How `c` is written in an identifier.
///
/// A letter or digit is written as itself. Any other character below 128 is
/// written as an underscore and the two hexadecimal digits of its number. A
/// character from 128 on is written as an underscore, the letter `u` and the
/// six hexadecimal digits of its number.
pub open spec fn escape(c: char) -> Seq<char> {
    let n = (c as u32) as int;
    if is_alphanumeric(c) {
        seq![c]
    } else if n < 128 {
        seq!['_', digit_char(n / 16), digit_char(n % 16)]
    } else {
        seq![
            '_',
            'u',
            digit_char(n / 0x100000),
            digit_char((n / 0x10000) % 16),
            digit_char((n / 0x1000) % 16),
            digit_char((n / 0x100) % 16),
            digit_char((n / 0x10) % 16),
            digit_char(n % 16),
        ]
    }
}

/// The text `s` written with the characters of an identifier only: each
/// character as [`escape`] writes it, in order.
pub open spec fn sanitized(s: Seq<char>) -> Seq<char>
    decreases s.len(),
{
    if s.len() == 0 {
        Seq::empty()
    } else {
        escape(s[0]) + sanitized(s.skip(1))
    }
}

/// Whether `c` may stand in an identifier: a letter, a digit or an underscore.
pub open spec fn is_identifier_char(c: char) -> bool {
    is_alphanumeric(c) || c == '_'
}

/// Whether every character of `s` may stand in an identifier.
pub open spec fn is_identifier_text(s: Seq<char>) -> bool {
    forall|i: int| 0 <= i < s.len() ==> is_identifier_char(#[trigger] s[i])
}

/// Two characters that are written alike are the same character, and what
/// follows them is the same text.
pub proof fn lemma_escape_cancel(c: char, d: char, x: Seq<char>, y: Seq<char>)
    requires
        escape(c) + x == escape(d) + y,
    ensures
        c == d,
        x == y,
{
    let l = escape(c) + x;
    let r = escape(d) + y;
    let n = (c as u32) as int;
    let m = (d as u32) as int;
    assert(l[0] == r[0]);
    assert(escape(c)[0] == l[0]);
    assert(escape(d)[0] == r[0]);
    if is_alphanumeric(c) {
        assert(is_alphanumeric(d));
        assert(c == d);
    } else if n < 128 {
        assert(!is_alphanumeric(d));
        assert(l[1] == r[1] && l[2] == r[2]);
        assert(escape(c)[1] == l[1] && escape(c)[2] == l[2]);
        assert(escape(d)[1] == r[1]);
        assert(m < 128);
        assert(escape(d)[2] == r[2]);
        assert(n / 16 == m / 16);
        assert(n % 16 == m % 16);
        assert(c == d);
    } else {
        assert(!is_alphanumeric(d));
        assert(l[1] == r[1]);
        assert(escape(c)[1] == l[1]);
        assert(escape(d)[1] == r[1]);
        assert(m >= 128);
        assert forall|k: int| 2 <= k < 8 implies escape(c)[k] == escape(d)[k] by {
            assert(escape(c)[k] == l[k]);
            assert(escape(d)[k] == r[k]);
        }
        assert(n / 0x100000 == m / 0x100000);
        assert((n / 0x10000) % 16 == (m / 0x10000) % 16);
        assert((n / 0x1000) % 16 == (m / 0x1000) % 16);
        assert((n / 0x100) % 16 == (m / 0x100) % 16);
        assert((n / 0x10) % 16 == (m / 0x10) % 16);
        assert(n % 16 == m % 16);
        assert(n == m);
        assert(c == d);
    }
    assert(x =~= l.skip(escape(c).len() as int));
    assert(y =~= r.skip(escape(d).len() as int));
}

/// Sanitizing loses nothing: two texts that are written alike are the same
/// text.
pub proof fn lemma_sanitized_injective(a: Seq<char>, b: Seq<char>)
    requires
        sanitized(a) == sanitized(b),
    ensures
        a == b,
    decreases a.len(),
{
    if a.len() == 0 {
        if b.len() > 0 {
            assert(sanitized(b).len() >= escape(b[0]).len());
            assert(false);
        }
        assert(a =~= b);
    } else {
        if b.len() == 0 {
            assert(sanitized(a).len() >= escape(a[0]).len());
            assert(false);
        }
        lemma_escape_cancel(a[0], b[0], sanitized(a.skip(1)), sanitized(b.skip(1)));
        lemma_sanitized_injective(a.skip(1), b.skip(1));
        assert(a =~= seq![a[0]] + a.skip(1));
        assert(b =~= seq![b[0]] + b.skip(1));
    }
}

/// A sanitized text is made of the characters of an identifier.
pub proof fn lemma_sanitized_is_identifier_text(s: Seq<char>)
    ensures
        is_identifier_text(sanitized(s)),
    decreases s.len(),
{
    if s.len() > 0 {
        lemma_sanitized_is_identifier_text(s.skip(1));
        let head = escape(s[0]);
        let tail = sanitized(s.skip(1));
        assert forall|i: int| 0 <= i < head.len() implies is_identifier_char(
            #[trigger] head[i],
        ) by {
            let n = (s[0] as u32) as int;
            if is_alphanumeric(s[0]) {
            } else if n < 128 {
                lemma_digit_is_alphanumeric(n / 16);
                lemma_digit_is_alphanumeric(n % 16);
            } else {
                lemma_digit_is_alphanumeric(n / 0x100000);
                lemma_digit_is_alphanumeric((n / 0x10000) % 16);
                lemma_digit_is_alphanumeric((n / 0x1000) % 16);
                lemma_digit_is_alphanumeric((n / 0x100) % 16);
                lemma_digit_is_alphanumeric((n / 0x10) % 16);
                lemma_digit_is_alphanumeric(n % 16);
            }
        }
        assert forall|i: int| 0 <= i < sanitized(s).len() implies is_identifier_char(
            #[trigger] sanitized(s)[i],
        ) by {
            if i < head.len() {
                assert(sanitized(s)[i] == head[i]);
            } else {
                assert(sanitized(s)[i] == tail[i - head.len()]);
            }
        }
    }
}

/// The character of a digit is a letter or a digit.
pub proof fn lemma_digit_is_alphanumeric(d: int)
    ensures
        is_alphanumeric(digit_char(d)),
{
}

/// Writes `s` with the characters of an identifier only.
pub fn sanitize(s: &str) -> (token: String)
    ensures
        token@ == sanitized(s@),
{
    let mut token = String::new();
    let n = s.unicode_len();
    let mut i: usize = 0;
    proof {
        assert(s@.skip(0) =~= s@);
    }
    while i < n
        invariant
            n == s@.len(),
            i <= n,
            token@ + sanitized(s@.skip(i as int)) == sanitized(s@),
        decreases n - i,
    {
        let c = s.get_char(i);
        let code: u32 = c as u32;
        proof {
            reveal_strlit("_");
            reveal_strlit("_u");
            assert(s@.skip(i as int).skip(1) =~= s@.skip(i as int + 1));
        }
        if (48 <= code && code <= 57) || (65 <= code && code <= 90) || (97 <= code && code
            <= 122) {
            token.append(s.substring_char(i, i + 1));
        } else if code < 128 {
            token.append("_");
            token.append(digit_str((code / 16) as u8));
            token.append(digit_str((code % 16) as u8));
        } else {
            token.append("_u");
            token.append(digit_str((code / 0x100000) as u8));
            token.append(digit_str(((code / 0x10000) % 16) as u8));
            token.append(digit_str(((code / 0x1000) % 16) as u8));
            token.append(digit_str(((code / 0x100) % 16) as u8));
            token.append(digit_str(((code / 0x10) % 16) as u8));
            token.append(digit_str((code % 16) as u8));
        }
        i = i + 1;
    }
    token
}

/// What closes a word: two underscores, which no sanitized text holds.
pub open spec fn word_end() -> Seq<char> {
    seq!['_', '_']
}

/// What closes a list of words: an underscore and `E`, with which no word
/// begins.
pub open spec fn words_end() -> Seq<char> {
    seq!['_', 'E']
}

/// The text `s` as a word: sanitized and closed, so that where it ends can be
/// read off whatever follows.
pub open spec fn word(s: Seq<char>) -> Seq<char> {
    sanitized(s) + word_end()
}

/// The texts of `parts` as a list of words: each as a word, in order, and the
/// end of the list.
pub open spec fn words(parts: Seq<Seq<char>>) -> Seq<char>
    decreases parts.len(),
{
    if parts.len() == 0 {
        words_end()
    } else {
        word(parts[0]) + words(parts.skip(1))
    }
}

/// The number `n` in eight hexadecimal digits.
pub open spec fn hex8(n: u32) -> Seq<char> {
    let q0 = n as int;
    let q1 = q0 / 16;
    let q2 = q1 / 16;
    let q3 = q2 / 16;
    let q4 = q3 / 16;
    let q5 = q4 / 16;
    let q6 = q5 / 16;
    let q7 = q6 / 16;
    seq![
        digit_char(q7),
        digit_char(q6 % 16),
        digit_char(q5 % 16),
        digit_char(q4 % 16),
        digit_char(q3 % 16),
        digit_char(q2 % 16),
        digit_char(q1 % 16),
        digit_char(q0 % 16),
    ]
}

/// Two digits below sixteen with the same character are the same digit.
pub proof fn lemma_digit_char_injective(a: int, b: int)
    requires
        0 <= a < 16,
        0 <= b < 16,
        digit_char(a) == digit_char(b),
    ensures
        a == b,
{
}

/// The second character of what `c` is written as is no underscore, and
/// neither is the first unless there is a second.
proof fn lemma_escape_start(c: char)
    ensures
        escape(c).len() >= 1,
        escape(c)[0] == '_' ==> escape(c).len() >= 2 && escape(c)[1] != '_' && escape(c)[1] != 'E',
{
}

/// Two words that are written alike are the same text, and what follows them
/// is the same.
pub proof fn lemma_word_cancel(a: Seq<char>, b: Seq<char>, x: Seq<char>, y: Seq<char>)
    requires
        word(a) + x == word(b) + y,
    ensures
        a == b,
        x == y,
    decreases a.len(),
{
    let l = word(a) + x;
    let r = word(b) + y;
    if a.len() == 0 && b.len() == 0 {
        assert(x =~= l.skip(2));
        assert(y =~= r.skip(2));
        assert(a =~= b);
    } else if a.len() == 0 {
        lemma_escape_start(b[0]);
        assert(l[0] == '_' && l[1] == '_');
        assert(r[0] == escape(b[0])[0]);
        if escape(b[0])[0] == '_' {
            assert(r[1] == escape(b[0])[1]);
        }
        assert(false);
    } else if b.len() == 0 {
        lemma_escape_start(a[0]);
        assert(r[0] == '_' && r[1] == '_');
        assert(l[0] == escape(a[0])[0]);
        if escape(a[0])[0] == '_' {
            assert(l[1] == escape(a[0])[1]);
        }
        assert(false);
    } else {
        let rest_a = word(a.skip(1)) + x;
        let rest_b = word(b.skip(1)) + y;
        assert(l =~= escape(a[0]) + rest_a);
        assert(r =~= escape(b[0]) + rest_b);
        lemma_escape_cancel(a[0], b[0], rest_a, rest_b);
        lemma_word_cancel(a.skip(1), b.skip(1), x, y);
        assert(a =~= seq![a[0]] + a.skip(1));
        assert(b =~= seq![b[0]] + b.skip(1));
    }
}

/// A word does not begin like the end of a list of words.
proof fn lemma_word_is_no_end(a: Seq<char>, x: Seq<char>, y: Seq<char>)
    ensures
        word(a) + x != words_end() + y,
{
    let l = word(a) + x;
    let r = words_end() + y;
    assert(r[0] == '_' && r[1] == 'E');
    if a.len() == 0 {
        assert(l[1] == '_');
    } else {
        lemma_escape_start(a[0]);
        assert(l[0] == escape(a[0])[0]);
        if escape(a[0])[0] == '_' {
            assert(l[1] == escape(a[0])[1]);
        }
    }
}

/// Two lists of words that are written alike are the same list, and what
/// follows them is the same.
pub proof fn lemma_words_cancel(a: Seq<Seq<char>>, b: Seq<Seq<char>>, x: Seq<char>, y: Seq<char>)
    requires
        words(a) + x == words(b) + y,
    ensures
        a == b,
        x == y,
    decreases a.len(),
{
    let l = words(a) + x;
    let r = words(b) + y;
    if a.len() == 0 && b.len() == 0 {
        assert(x =~= l.skip(2));
        assert(y =~= r.skip(2));
        assert(a =~= b);
    } else if a.len() == 0 {
        assert(r =~= word(b[0]) + (words(b.skip(1)) + y));
        lemma_word_is_no_end(b[0], words(b.skip(1)) + y, x);
    } else if b.len() == 0 {
        assert(l =~= word(a[0]) + (words(a.skip(1)) + x));
        lemma_word_is_no_end(a[0], words(a.skip(1)) + x, y);
    } else {
        let rest_a = words(a.skip(1)) + x;
        let rest_b = words(b.skip(1)) + y;
        assert(l =~= word(a[0]) + rest_a);
        assert(r =~= word(b[0]) + rest_b);
        lemma_word_cancel(a[0], b[0], rest_a, rest_b);
        lemma_words_cancel(a.skip(1), b.skip(1), x, y);
        assert(a =~= seq![a[0]] + a.skip(1));
        assert(b =~= seq![b[0]] + b.skip(1));
    }
}

/// Two numbers that are written alike in eight digits are the same number,
/// and what follows them is the same.
pub proof fn lemma_hex8_cancel(n: u32, m: u32, x: Seq<char>, y: Seq<char>)
    requires
        hex8(n) + x == hex8(m) + y,
    ensures
        n == m,
        x == y,
{
    let l = hex8(n) + x;
    let r = hex8(m) + y;
    assert forall|k: int| 0 <= k < 8 implies hex8(n)[k] == hex8(m)[k] by {
        assert(hex8(n)[k] == l[k]);
        assert(hex8(m)[k] == r[k]);
    }
    let a0 = n as int;
    let a1 = a0 / 16;
    let a2 = a1 / 16;
    let a3 = a2 / 16;
    let a4 = a3 / 16;
    let a5 = a4 / 16;
    let a6 = a5 / 16;
    let a7 = a6 / 16;
    let b0 = m as int;
    let b1 = b0 / 16;
    let b2 = b1 / 16;
    let b3 = b2 / 16;
    let b4 = b3 / 16;
    let b5 = b4 / 16;
    let b6 = b5 / 16;
    let b7 = b6 / 16;
    assert(a7 == b7) by {
        assert(hex8(n)[0] == hex8(m)[0]);
        lemma_digit_char_injective(a7, b7);
    }
    assert(a6 == b6) by {
        assert(hex8(n)[1] == hex8(m)[1]);
        lemma_digit_char_injective(a6 % 16, b6 % 16);
    }
    assert(a5 == b5) by {
        assert(hex8(n)[2] == hex8(m)[2]);
        lemma_digit_char_injective(a5 % 16, b5 % 16);
    }
    assert(a4 == b4) by {
        assert(hex8(n)[3] == hex8(m)[3]);
        lemma_digit_char_injective(a4 % 16, b4 % 16);
    }
    assert(a3 == b3) by {
        assert(hex8(n)[4] == hex8(m)[4]);
        lemma_digit_char_injective(a3 % 16, b3 % 16);
    }
    assert(a2 == b2) by {
        assert(hex8(n)[5] == hex8(m)[5]);
        lemma_digit_char_injective(a2 % 16, b2 % 16);
    }
    assert(a1 == b1) by {
        assert(hex8(n)[6] == hex8(m)[6]);
        lemma_digit_char_injective(a1 % 16, b1 % 16);
    }
    assert(a0 == b0) by {
        assert(hex8(n)[7] == hex8(m)[7]);
        lemma_digit_char_injective(a0 % 16, b0 % 16);
    }
    assert(x =~= l.skip(8));
    assert(y =~= r.skip(8));
}

/// A list of words is made of the characters of an identifier.
pub proof fn lemma_words_are_identifier_text(parts: Seq<Seq<char>>)
    ensures
        is_identifier_text(words(parts)),
    decreases parts.len(),
{
    if parts.len() > 0 {
        lemma_sanitized_is_identifier_text(parts[0]);
        lemma_words_are_identifier_text(parts.skip(1));
        lemma_identifier_text_concat(sanitized(parts[0]), word_end());
        lemma_identifier_text_concat(word(parts[0]), words(parts.skip(1)));
    }
}

/// Two texts made of the characters of an identifier, one after the other,
/// are such a text.
pub proof fn lemma_identifier_text_concat(a: Seq<char>, b: Seq<char>)
    requires
        is_identifier_text(a),
        is_identifier_text(b),
    ensures
        is_identifier_text(a + b),
{
    assert forall|i: int| 0 <= i < (a + b).len() implies is_identifier_char(
        #[trigger] (a + b)[i],
    ) by {
        if i < a.len() {
            assert((a + b)[i] == a[i]);
        } else {
            assert((a + b)[i] == b[i - a.len()]);
        }
    }
}

/// A number in eight digits is made of the characters of an identifier.
pub proof fn lemma_hex8_is_identifier_text(n: u32)
    ensures
        is_identifier_text(hex8(n)),
{
    assert forall|i: int| 0 <= i < hex8(n).len() implies is_identifier_char(
        #[trigger] hex8(n)[i],
    ) by {
        let c = hex8(n)[i];
        assert(exists|d: int| c == digit_char(d));
        let d = choose|d: int| c == digit_char(d);
        lemma_digit_is_alphanumeric(d);
    }
}

/// Appends `s` as a word to `text`.
pub fn push_word(text: &mut String, s: &str)
    ensures
        final(text)@ == old(text)@ + word(s@),
{
    proof {
        reveal_strlit("__");
    }
    let sanitized = sanitize(s);
    text.append(sanitized.as_str());
    text.append("__");
}

/// Appends the strings of `parts` as a list of words to `text`.
pub fn push_words(text: &mut String, parts: &Vec<String>)
    ensures
        final(text)@ == old(text)@ + words(views(parts@)),
{
    let ghost all = views(parts@);
    let mut i: usize = 0;
    proof {
        assert(all.skip(0) =~= all);
    }
    while i < parts.len()
        invariant
            i <= parts@.len(),
            all == views(parts@),
            text@ + words(all.skip(i as int)) == old(text)@ + words(all),
        decreases parts@.len() - i,
    {
        proof {
            assert(all.skip(i as int).skip(1) =~= all.skip(i as int + 1));
        }
        push_word(text, parts[i].as_str());
        i = i + 1;
    }
    proof {
        reveal_strlit("_E");
    }
    text.append("_E");
}

/// Appends `n` in eight hexadecimal digits to `text`.
pub fn push_hex8(text: &mut String, n: u32)
    ensures
        final(text)@ == old(text)@ + hex8(n),
{
    let q1 = n / 16;
    let q2 = q1 / 16;
    let q3 = q2 / 16;
    let q4 = q3 / 16;
    let q5 = q4 / 16;
    let q6 = q5 / 16;
    let q7 = q6 / 16;
    text.append(digit_str(q7 as u8));
    text.append(digit_str((q6 % 16) as u8));
    text.append(digit_str((q5 % 16) as u8));
    text.append(digit_str((q4 % 16) as u8));
    text.append(digit_str((q3 % 16) as u8));
    text.append(digit_str((q2 % 16) as u8));
    text.append(digit_str((q1 % 16) as u8));
    text.append(digit_str((n % 16) as u8));
}

} // verus!
