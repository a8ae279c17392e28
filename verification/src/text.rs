//! Text building blocks: decimal rendering of integers, joining, the SQL
//! string-literal escape and character-wise truncation.
use vstd::prelude::*;
use vstd::string::*;

verus! {

/// Appends one character to a string (`String::push`).
/// Trusted: the character is added at the end and nothing else changes.
#[verifier::external_body]
pub(crate) fn push_char(s: &mut String, c: char)
    ensures
        final(s)@ == old(s)@.push(c),
{
    s.push(c);
}

// ---------------------------------------------------------------------------
// Decimal rendering
// ---------------------------------------------------------------------------

/// The ASCII digit for `d` (meant for `0 <= d < 10`).
pub open spec fn digit_char(d: int) -> char {
    if d == 0 {
        '0'
    } else if d == 1 {
        '1'
    } else if d == 2 {
        '2'
    } else if d == 3 {
        '3'
    } else if d == 4 {
        '4'
    } else if d == 5 {
        '5'
    } else if d == 6 {
        '6'
    } else if d == 7 {
        '7'
    } else if d == 8 {
        '8'
    } else {
        '9'
    }
}

/// The decimal notation of a natural number, without leading zeros.
pub open spec fn decimal(n: nat) -> Seq<char>
    decreases n,
{
    if n < 10 {
        seq![digit_char(n as int)]
    } else {
        decimal(n / 10).push(digit_char((n % 10) as int))
    }
}

/// The decimal notation of an integer, with a leading `-` when negative.
pub open spec fn signed_decimal(v: int) -> Seq<char> {
    if v < 0 {
        seq!['-'] + decimal((-v) as nat)
    } else {
        decimal(v as nat)
    }
}

fn digit(d: u64) -> (c: char)
    requires
        d < 10,
    ensures
        c == digit_char(d as int),
{
    match d {
        0 => '0',
        1 => '1',
        2 => '2',
        3 => '3',
        4 => '4',
        5 => '5',
        6 => '6',
        7 => '7',
        8 => '8',
        _ => '9',
    }
}

/// Appends the decimal notation of `n` to `out`.
pub fn push_decimal(out: &mut String, n: u64)
    ensures
        final(out)@ == old(out)@ + decimal(n as nat),
    decreases n,
{
    if n >= 10 {
        push_decimal(out, n / 10);
    }
    push_char(out, digit(n % 10));
    assert(out@ =~= old(out)@ + decimal(n as nat));
}

/// The decimal notation of an unsigned integer, as `to_string` writes it.
pub fn uint_to_string(n: u64) -> (s: String)
    ensures
        s@ == decimal(n as nat),
{
    let mut s = String::new();
    push_decimal(&mut s, n);
    assert(s@ =~= decimal(n as nat));
    s
}

/// The decimal notation of a signed integer, as `to_string` writes it.
pub fn int_to_string(v: i64) -> (s: String)
    ensures
        s@ == signed_decimal(v as int),
{
    let mut s = String::new();
    if v < 0 {
        push_char(&mut s, '-');
        let magnitude: u64 = ((-(v + 1)) as u64) + 1;
        push_decimal(&mut s, magnitude);
    } else {
        push_decimal(&mut s, v as u64);
    }
    assert(s@ =~= signed_decimal(v as int));
    s
}

// ---------------------------------------------------------------------------
// Joining
// ---------------------------------------------------------------------------

/// The parts placed one after the other with `sep` between neighbours.
pub open spec fn join(parts: Seq<Seq<char>>, sep: Seq<char>) -> Seq<char>
    decreases parts.len(),
{
    if parts.len() == 0 {
        seq![]
    } else if parts.len() == 1 {
        parts[0]
    } else {
        join(parts.drop_last(), sep) + sep + parts.last()
    }
}

/// The views of a vector of strings.
pub open spec fn strings_view(v: Seq<String>) -> Seq<Seq<char>> {
    Seq::new(v.len(), |i: int| v[i]@)
}

/// `parts.join(sep)`.
pub fn join_strings(parts: &Vec<String>, sep: &str) -> (s: String)
    ensures
        s@ == join(strings_view(parts@), sep@),
{
    let mut s = String::new();
    let ghost all = strings_view(parts@);
    let mut i: usize = 0;
    while i < parts.len()
        invariant
            i <= parts.len(),
            all == strings_view(parts@),
            s@ == join(all.take(i as int), sep@),
        decreases parts.len() - i,
    {
        if i > 0 {
            s.append(sep);
        }
        s.append(parts[i].as_str());
        proof {
            assert(all.take(i + 1).drop_last() =~= all.take(i as int));
            assert(all.take(i + 1).last() == parts@[i as int]@);
            if i == 0 {
                assert(s@ =~= join(all.take(i + 1), sep@));
            }
        }
        i = i + 1;
    }
    assert(all.take(i as int) =~= all);
    s
}

/// The debug notation of a byte list, as `{:?}` writes a `&[u8]`:
/// `[66, 68, 73, 87]`.
pub open spec fn byte_list_notation(bytes: Seq<u8>) -> Seq<char> {
    seq!['['] + join(Seq::new(bytes.len(), |i: int| decimal(bytes[i] as nat)), seq![',', ' '])
        + seq![']']
}

/// Renders a byte list the way `{:?}` does.
pub fn byte_list_to_string(bytes: &[u8]) -> (s: String)
    ensures
        s@ == byte_list_notation(bytes@),
{
    let mut parts: Vec<String> = Vec::new();
    let mut i: usize = 0;
    while i < bytes.len()
        invariant
            i <= bytes.len(),
            parts.len() == i,
            forall|k: int| 0 <= k < i ==> #[trigger] parts@[k]@ == decimal(bytes@[k] as nat),
        decreases bytes.len() - i,
    {
        parts.push(uint_to_string(bytes[i] as u64));
        i = i + 1;
    }
    let inner = join_strings(&parts, ", ");
    let mut s = String::new();
    push_char(&mut s, '[');
    s.append(inner.as_str());
    push_char(&mut s, ']');
    proof {
        reveal_strlit(", ");
        assert(strings_view(parts@) =~= Seq::new(
            bytes@.len(),
            |i: int| decimal(bytes@[i] as nat),
        ));
        assert(", "@ =~= seq![',', ' ']);
        assert(s@ =~= byte_list_notation(bytes@));
    }
    s
}

// ---------------------------------------------------------------------------
// SQL string literals
// ---------------------------------------------------------------------------

/// How one character is written inside a single-quoted MySQL literal:
/// quotes and backslashes are doubled, CR and LF become `\r` and `\n`.
pub open spec fn escape_char(c: char) -> Seq<char> {
    if c == '\'' {
        seq!['\'', '\'']
    } else if c == '\\' {
        seq!['\\', '\\']
    } else if c == '\r' {
        seq!['\\', 'r']
    } else if c == '\n' {
        seq!['\\', 'n']
    } else {
        seq![c]
    }
}

/// The escaped form of a whole string: each character escaped in turn.
pub open spec fn spec_sql_escape(s: Seq<char>) -> Seq<char>
    decreases s.len(),
{
    if s.len() == 0 {
        seq![]
    } else {
        escape_char(s[0]) + spec_sql_escape(s.drop_first())
    }
}

/// What a backslash escape `\c` stands for in a MySQL string literal, by
/// MySQL's table of special character escapes: `\0` NUL, `\b` backspace,
/// `\n` LF, `\r` CR, `\t` tab, `\Z` ASCII 26; `\%` and `\_` keep their
/// backslash; any other `\c` (such as `\'`, `\"` and `\\`) is `c`.
pub open spec fn unescape_code(c: char) -> Seq<char> {
    if c == '0' {
        seq!['\0']
    } else if c == 'b' {
        seq!['\u{8}']
    } else if c == 'n' {
        seq!['\n']
    } else if c == 'r' {
        seq!['\r']
    } else if c == 't' {
        seq!['\t']
    } else if c == 'Z' {
        seq!['\u{1a}']
    } else if c == '%' || c == '_' {
        seq!['\\', c]
    } else {
        seq![c]
    }
}

/// How a MySQL reader takes the body of a single-quoted literal apart:
/// `''` is a quote, `\c` is what [`unescape_code`] says, anything else is
/// itself.
pub open spec fn spec_sql_unescape(t: Seq<char>) -> Seq<char>
    decreases t.len(),
{
    if t.len() == 0 {
        seq![]
    } else if t.len() >= 2 && t[0] == '\'' && t[1] == '\'' {
        seq!['\''] + spec_sql_unescape(t.skip(2))
    } else if t.len() >= 2 && t[0] == '\\' {
        unescape_code(t[1]) + spec_sql_unescape(t.skip(2))
    } else {
        seq![t[0]] + spec_sql_unescape(t.skip(1))
    }
}

/// A string without quotes, backslashes, CR and LF is written as it is:
/// every other character stands for itself in the literal.
pub proof fn lemma_escape_keeps_plain_text(s: Seq<char>)
    requires
        forall|i: int|
            0 <= i < s.len() ==> #[trigger] s[i] != '\'' && s[i] != '\\' && s[i] != '\r' && s[i]
                != '\n',
    ensures
        spec_sql_escape(s) == s,
    decreases s.len(),
{
    if s.len() > 0 {
        assert forall|i: int| 0 <= i < s.drop_first().len() implies #[trigger] s.drop_first()[i]
            != '\'' && s.drop_first()[i] != '\\' && s.drop_first()[i] != '\r' && s.drop_first()[i]
            != '\n' by {
            assert(s.drop_first()[i] == s[i + 1]);
        }
        lemma_escape_keeps_plain_text(s.drop_first());
        assert(s[0] != '\'' && s[0] != '\\' && s[0] != '\r' && s[0] != '\n');
        assert(seq![s[0]] + s.drop_first() =~= s);
    }
}

/// Escaping a concatenation escapes each part: the escape works character
/// by character.
pub proof fn lemma_escape_concat(a: Seq<char>, b: Seq<char>)
    ensures
        spec_sql_escape(a + b) == spec_sql_escape(a) + spec_sql_escape(b),
    decreases a.len(),
{
    if a.len() == 0 {
        assert(a + b =~= b);
        assert(spec_sql_escape(a) + spec_sql_escape(b) =~= spec_sql_escape(b));
    } else {
        assert((a + b).drop_first() =~= a.drop_first() + b);
        assert((a + b)[0] == a[0]);
        lemma_escape_concat(a.drop_first(), b);
        assert(spec_sql_escape(a + b) =~= spec_sql_escape(a) + spec_sql_escape(b));
    }
}

proof fn lemma_escape_single(c: char)
    ensures
        spec_sql_escape(seq![c]) == escape_char(c),
{
    let e = Seq::<char>::empty();
    assert(seq![c].drop_first() =~= e);
    assert(spec_sql_escape(e) == e);
    assert(escape_char(c) + e =~= escape_char(c));
    assert(spec_sql_escape(seq![c]) == escape_char(c) + spec_sql_escape(e));
}

proof fn lemma_unescape_step(c: char, rest: Seq<char>)
    ensures
        spec_sql_unescape(escape_char(c) + rest) == seq![c] + spec_sql_unescape(rest),
{
    let t = escape_char(c) + rest;
    if c == '\'' || c == '\\' || c == '\r' || c == '\n' {
        assert(t.skip(2) =~= rest);
    } else {
        assert(t.skip(1) =~= rest);
    }
}

/// Reading back an escaped string gives the input again: the escape loses
/// nothing, and no character of the input can end the literal early.
/// The escaped text holds no raw line break either.
pub proof fn lemma_sql_escape_roundtrip(s: Seq<char>)
    ensures
        spec_sql_unescape(spec_sql_escape(s)) == s,
        !spec_sql_escape(s).contains('\n'),
        !spec_sql_escape(s).contains('\r'),
    decreases s.len(),
{
    if s.len() == 0 {
        assert(spec_sql_escape(s) =~= Seq::<char>::empty());
    } else {
        lemma_sql_escape_roundtrip(s.drop_first());
        lemma_unescape_step(s[0], spec_sql_escape(s.drop_first()));
        assert(seq![s[0]] + s.drop_first() =~= s);
        let t = spec_sql_escape(s);
        let e = escape_char(s[0]);
        let r = spec_sql_escape(s.drop_first());
        assert(t == e + r);
        assert forall|k: int| 0 <= k < t.len() implies t[k] != '\n' && t[k] != '\r' by {
            if k >= e.len() {
                assert(t[k] == r[k - e.len()]);
                assert(r.contains(r[k - e.len()]));
            }
        }
    }
}

/// Escapes a string for use inside a single-quoted MySQL literal.
pub fn sql_escape_str(s: &str) -> (out: String)
    ensures
        out@ == spec_sql_escape(s@),
{
    let mut out = String::new();
    for ch in it: s.chars()
        invariant
            it.seq() == s@,
            out@ == spec_sql_escape(s@.take(it.index() as int)),
    {
        let ghost i = it.index() as int;
        proof {
            assert(s@.take(i + 1) =~= s@.take(i) + seq![s@[i]]);
            lemma_escape_concat(s@.take(i), seq![s@[i]]);
            lemma_escape_single(s@[i]);
        }
        if ch == '\'' {
            push_char(&mut out, '\'');
            push_char(&mut out, '\'');
        } else if ch == '\\' {
            push_char(&mut out, '\\');
            push_char(&mut out, '\\');
        } else if ch == '\r' {
            push_char(&mut out, '\\');
            push_char(&mut out, 'r');
        } else if ch == '\n' {
            push_char(&mut out, '\\');
            push_char(&mut out, 'n');
        } else {
            push_char(&mut out, ch);
        }
        assert(out@ =~= spec_sql_escape(s@.take(i + 1)));
    }
    assert(s@.take(s@.len() as int) =~= s@);
    out
}

/// The first `max_chars` characters of `s` (all of them when it is shorter).
pub fn truncate_chars(s: &str, max_chars: usize) -> (out: String)
    ensures
        out@ == s@.take(if max_chars < s@.len() { max_chars as int } else { s@.len() as int }),
{
    let mut out = String::new();
    let mut n: usize = 0;
    for ch in it: s.chars()
        invariant
            it.seq() == s@,
            n == it.index(),
            n <= max_chars,
            out@ == s@.take(n as int),
    {
        if n == max_chars {
            return out;
        }
        push_char(&mut out, ch);
        assert(out@ =~= s@.take(n + 1));
        n = n + 1;
    }
    assert(s@.take(n as int) =~= s@);
    out
}

/// The greeting shown by the desktop front end.
pub fn greet(name: &str) -> (s: String)
    ensures
        s@ == "Hello, "@ + name@ + "! You've been greeted from Rust!"@,
{
    let mut s = "Hello, ".to_string();
    s.append(name);
    s.append("! You've been greeted from Rust!");
    s
}

} // verus!
