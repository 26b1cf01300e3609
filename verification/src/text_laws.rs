//! Laws of text: trimming, lines, decimals, joining and paths.
use vstd::prelude::*;
use vstd::string::*;

verus! {

/// Whitespace are the tabulators, the line and page breaks, and the blanks of
/// every width: the characters that Unicode calls white space, and no others.
pub proof fn law_white_space(c: char)
    ensures
        crate::text::white_space(c) <==> set![
            '\u{9}',
            '\u{a}',
            '\u{b}',
            '\u{c}',
            '\u{d}',
            '\u{20}',
            '\u{85}',
            '\u{a0}',
            '\u{1680}',
            '\u{2000}',
            '\u{2001}',
            '\u{2002}',
            '\u{2003}',
            '\u{2004}',
            '\u{2005}',
            '\u{2006}',
            '\u{2007}',
            '\u{2008}',
            '\u{2009}',
            '\u{200a}',
            '\u{2028}',
            '\u{2029}',
            '\u{202f}',
            '\u{205f}',
            '\u{3000}',
        ].contains(c),
{
}

/// Whether every character of `s` is whitespace.
pub open spec fn blank(s: Seq<char>) -> bool {
    forall|i: int| 0 <= i < s.len() ==> crate::text::white_space(#[trigger] s[i])
}

/// Trimming at the start takes off blank text, and leaves text that begins with
/// a character that is no whitespace.
pub proof fn law_trim_start(s: Seq<char>) -> (lead: Seq<char>)
    ensures
        s == lead + crate::text::trim_start(s),
        blank(lead),
        crate::text::trim_start(s).len() > 0 ==> !crate::text::white_space(
            crate::text::trim_start(s)[0],
        ),
    decreases s.len(),
{
    if s.len() > 0 && crate::text::white_space(s[0]) {
        let rest = law_trim_start(s.skip(1));
        let lead = seq![s[0]] + rest;
        assert(s =~= seq![s[0]] + s.skip(1));
        assert(s =~= lead + crate::text::trim_start(s));
        assert forall|i: int| 0 <= i < lead.len() implies crate::text::white_space(
            #[trigger] lead[i],
        ) by {
            if i > 0 {
                assert(lead[i] == rest[i - 1]);
            }
        }
        lead
    } else {
        assert(s =~= Seq::empty() + s);
        Seq::empty()
    }
}

/// Trimming at the end takes off blank text, and leaves text that ends with a
/// character that is no whitespace.
pub proof fn law_trim_end(s: Seq<char>) -> (tail: Seq<char>)
    ensures
        s == crate::text::trim_end(s) + tail,
        blank(tail),
        crate::text::trim_end(s).len() > 0 ==> !crate::text::white_space(
            crate::text::trim_end(s).last(),
        ),
    decreases s.len(),
{
    if s.len() > 0 && crate::text::white_space(s.last()) {
        let rest = law_trim_end(s.drop_last());
        let tail = rest.push(s.last());
        assert(s =~= s.drop_last().push(s.last()));
        assert(s =~= crate::text::trim_end(s) + tail);
        tail
    } else {
        assert(s =~= s + Seq::empty());
        Seq::empty()
    }
}

/// Trimming takes off blank text at both ends, and leaves text with whitespace
/// at neither.
pub proof fn law_trim(s: Seq<char>) -> (ends: (Seq<char>, Seq<char>))
    ensures
        s == ends.0 + crate::text::trim(s) + ends.1,
        blank(ends.0),
        blank(ends.1),
        crate::text::trim(s).len() > 0 ==> !crate::text::white_space(crate::text::trim(s)[0])
            && !crate::text::white_space(crate::text::trim(s).last()),
{
    let lead = law_trim_start(s);
    let middle = crate::text::trim_start(s);
    let tail = law_trim_end(middle);
    assert(s =~= lead + crate::text::trim(s) + tail);
    if crate::text::trim(s).len() > 0 {
        assert(crate::text::trim(s)[0] == middle[0]);
    }
    (lead, tail)
}

/// Taking off copies of a character at the end leaves text that does not end
/// with it, and takes off nothing else.
pub proof fn law_trim_end_char(s: Seq<char>, c: char)
    ensures
        crate::text::trim_end_char(s, c).len() <= s.len(),
        s.take(crate::text::trim_end_char(s, c).len() as int) == crate::text::trim_end_char(s, c),
        forall|i: int|
            crate::text::trim_end_char(s, c).len() <= i < s.len() ==> #[trigger] s[i] == c,
        crate::text::trim_end_char(s, c).len() > 0 ==> crate::text::trim_end_char(s, c).last() != c,
    decreases s.len(),
{
    if s.len() > 0 && s.last() == c {
        let front = s.drop_last();
        law_trim_end_char(front, c);
        let n = crate::text::trim_end_char(s, c).len() as int;
        assert(s.take(n) =~= front.take(n));
        assert forall|i: int| n <= i < s.len() implies #[trigger] s[i] == c by {
            if i < front.len() {
                assert(front[i] == s[i]);
            }
        }
    } else {
        assert(s.take(s.len() as int) =~= s);
    }
}

/// A text begins with a prefix where something stands behind the prefix in it.
pub proof fn law_starts_with(prefix: Seq<char>, rest: Seq<char>, s: Seq<char>)
    ensures
        crate::text::starts_with(prefix + rest, prefix),
        crate::text::starts_with(s, prefix) ==> s == prefix + s.skip(prefix.len() as int),
{
    assert((prefix + rest).take(prefix.len() as int) =~= prefix);
    if crate::text::starts_with(s, prefix) {
        assert(s =~= s.take(prefix.len() as int) + s.skip(prefix.len() as int));
    }
}

/// Where a text is cut behind a line feed, its lines are those of the parts.
pub proof fn law_lines_of_parts(a: Seq<char>, b: Seq<char>)
    requires
        a.len() == 0 || a.last() == '\n',
    ensures
        crate::text::lines(a + b) == crate::text::lines(a) + crate::text::lines(b),
    decreases a.len(),
{
    let whole = a + b;
    if a.len() == 0 {
        assert(whole =~= b);
        assert(crate::text::lines(a) + crate::text::lines(b) =~= crate::text::lines(b));
    } else {
        a.index_of_first_ensures('\n');
        whole.index_of_first_ensures('\n');
        assert(a[a.len() - 1] == '\n' && a.contains('\n'));
        let i = a.index_of_first('\n')->0;
        assert(0 <= i < a.len() && a[i] == '\n');
        assert(whole[i] == a[i]);
        assert(whole.contains('\n'));
        let k = whole.index_of_first('\n')->0;
        assert(k == i) by {
            if k < i {
                assert(a[k] == whole[k]);
            }
        }
        assert(whole.take(i) =~= a.take(i));
        assert(whole.skip(i + 1) =~= a.skip(i + 1) + b);
        law_lines_of_parts(a.skip(i + 1), b);
        let first = seq![crate::text::strip_cr(a.take(i))];
        assert(first + (crate::text::lines(a.skip(i + 1)) + crate::text::lines(b)) =~= (first
            + crate::text::lines(a.skip(i + 1))) + crate::text::lines(b));
    }
}

/// What a line feed, or a carriage return and a line feed, ends is one line,
/// without its ending.
pub proof fn law_ended_line(line: Seq<char>)
    requires
        !line.contains('\n'),
    ensures
        line.len() == 0 || line.last() != '\r' ==> crate::text::lines(line.push('\n')) == seq![
            line,
        ],
        crate::text::lines(line + seq!['\r', '\n']) == seq![line],
{
    lemma_ended_line(line);
    let returned = line.push('\r');
    assert forall|i: int| 0 <= i < returned.len() implies returned[i] != '\n' by {
        if i < line.len() && line[i] == '\n' {
            assert(line.contains('\n'));
        }
    }
    lemma_ended_line(returned);
    assert(returned.drop_last() =~= line);
    assert(returned.push('\n') =~= line + seq!['\r', '\n']);
}

/// What a line feed ends is one line, without the carriage return before it.
pub proof fn lemma_ended_line(line: Seq<char>)
    requires
        !line.contains('\n'),
    ensures
        crate::text::lines(line.push('\n')) == seq![crate::text::strip_cr(line)],
{
    let text = line.push('\n');
    text.index_of_first_ensures('\n');
    assert(text[line.len() as int] == '\n' && text.contains('\n'));
    let i = text.index_of_first('\n')->0;
    assert(i == line.len()) by {
        if i < line.len() {
            assert(line[i] == text[i]);
        }
    }
    assert(text.take(i) =~= line);
    assert(text.skip(i + 1) =~= Seq::empty());
    assert(crate::text::lines(text.skip(i + 1)).len() == 0) by {
        text.skip(i + 1).index_of_first_ensures('\n');
    }
    assert(crate::text::lines(text) =~= seq![crate::text::strip_cr(line)]);
}

/// What stands behind the last line feed is a line as it stands, unless there
/// is nothing.
pub proof fn law_last_line(line: Seq<char>)
    requires
        !line.contains('\n'),
    ensures
        line.len() > 0 ==> crate::text::lines(line) == seq![line],
        line.len() == 0 ==> crate::text::lines(line).len() == 0,
{
    line.index_of_first_ensures('\n');
}

/// The number that a text of digits stands for.
pub open spec fn number_of(digits: Seq<char>) -> nat
    decreases digits.len(),
{
    if digits.len() == 0 {
        0
    } else {
        (10 * number_of(digits.drop_last()) + (digits.last() as u32 - '0' as u32)) as nat
    }
}

/// The decimal of a number is made of digits, stands for the number, and has no
/// leading zero.
pub proof fn law_decimal(n: nat)
    ensures
        number_of(crate::text::decimal(n)) == n,
        crate::text::decimal(n).len() > 0,
        forall|i: int|
            0 <= i < crate::text::decimal(n).len() ==> '0' <= #[trigger] crate::text::decimal(n)[i]
                <= '9',
        n > 0 ==> crate::text::decimal(n)[0] != '0',
    decreases n,
{
    let s = crate::text::decimal(n);
    let d = n % 10;
    let c = crate::text::digit(d);
    assert(c as u32 == '0' as u32 + d);
    if n < 10 {
        assert(s.drop_last() =~= Seq::empty());
        assert(number_of(s.drop_last()) == 0);
    } else {
        law_decimal(n / 10);
        let front = crate::text::decimal(n / 10);
        assert(s.drop_last() =~= front);
        assert(s[0] == front[0]);
    }
}

/// The decimal of a negative number is that of its magnitude behind a minus
/// sign; that of another number has no sign.
pub proof fn law_signed_decimal(i: int)
    ensures
        i < 0 ==> crate::text::signed_decimal(i).len() > 1 && crate::text::signed_decimal(i)[0]
            == '-' && number_of(crate::text::signed_decimal(i).skip(1)) == -i,
        i >= 0 ==> crate::text::signed_decimal(i)[0] != '-' && number_of(
            crate::text::signed_decimal(i),
        ) == i,
{
    let s = crate::text::signed_decimal(i);
    if i < 0 {
        law_decimal((-i) as nat);
        assert(s.skip(1) =~= crate::text::decimal((-i) as nat));
    } else {
        law_decimal(i as nat);
        assert('0' <= crate::text::decimal(i as nat)[0] <= '9');
    }
}

/// Joining leaves single texts as they are, and puts the separator between what
/// comes before and what comes after.
pub proof fn law_join(a: Seq<Seq<char>>, b: Seq<Seq<char>>, one: Seq<char>, sep: Seq<char>)
    ensures
        crate::text::join(Seq::empty(), sep).len() == 0,
        crate::text::join(seq![one], sep) == one,
        a.len() > 0 && b.len() > 0 ==> crate::text::join(a + b, sep) == crate::text::join(a, sep)
            + sep + crate::text::join(b, sep),
    decreases b.len(),
{
    if a.len() > 0 && b.len() > 0 {
        let whole = a + b;
        assert(whole.drop_last() =~= a + b.drop_last());
        if b.len() == 1 {
            assert(a + b.drop_last() =~= a);
        } else {
            law_join(a, b.drop_last(), one, sep);
            assert(crate::text::join(whole, sep) =~= crate::text::join(a, sep) + sep
                + crate::text::join(b, sep));
        }
    }
}

/// Without a separator, joining is concatenation.
pub proof fn law_join_without_separator(parts: Seq<Seq<char>>, sep: Seq<char>)
    requires
        sep.len() == 0,
    ensures
        crate::text::join(parts, sep) == parts.flatten(),
    decreases parts.len(),
{
    parts.lemma_flatten_and_flatten_alt_are_equivalent();
    if parts.len() > 1 {
        law_join_without_separator(parts.drop_last(), sep);
        parts.drop_last().lemma_flatten_and_flatten_alt_are_equivalent();
        assert(crate::text::join(parts, sep) =~= parts.drop_last().flatten() + parts.last());
    } else if parts.len() == 1 {
        parts.lemma_flatten_one_element();
    }
}

/// One slash stands between a directory and the entry in it.
pub proof fn law_path_join(base: Seq<char>, name: Seq<char>)
    ensures
        base.len() > 0 && base.last() != '/' ==> crate::text::path_join(base, name) == base + seq![
            '/',
        ] + name,
        base.len() > 0 && base.last() == '/' ==> crate::text::path_join(base, name) == base + name,
        base.len() == 0 ==> crate::text::path_join(base, name) == name,
{
    if base.len() == 0 {
        assert(base + name =~= name);
    }
}

}
