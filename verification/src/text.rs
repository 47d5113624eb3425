//! Character-level text operations, stated over `Seq<char>`.
use vstd::prelude::*;

verus! {

/// The Unicode `White_Space` property, the notion of whitespace used by `str::trim`.
pub open spec fn is_white_space(c: char) -> bool {
    let u = c as u32;
    ||| 0x09 <= u <= 0x0d
    ||| u == 0x20
    ||| u == 0x85
    ||| u == 0xa0
    ||| u == 0x1680
    ||| 0x2000 <= u <= 0x200a
    ||| u == 0x2028
    ||| u == 0x2029
    ||| u == 0x202f
    ||| u == 0x205f
    ||| u == 0x3000
}

/// What a trim operation removes from both ends of a text.
#[derive(Clone, Copy, PartialEq, Eq, Structural)]
pub enum TrimSet {
    /// Unicode whitespace.
    WhiteSpace,
    /// The double quote character `"`.
    Quote,
}

pub open spec fn trimmed_by(set: TrimSet, c: char) -> bool {
    match set {
        TrimSet::WhiteSpace => is_white_space(c),
        TrimSet::Quote => c == '"',
    }
}

/// `s` without its leading characters of `set`.
pub open spec fn trim_start(s: Seq<char>, set: TrimSet) -> Seq<char>
    decreases s.len(),
{
    if s.len() > 0 && trimmed_by(set, s[0]) {
        trim_start(s.drop_first(), set)
    } else {
        s
    }
}

/// `s` without its trailing characters of `set`.
pub open spec fn trim_end(s: Seq<char>, set: TrimSet) -> Seq<char>
    decreases s.len(),
{
    if s.len() > 0 && trimmed_by(set, s.last()) {
        trim_end(s.drop_last(), set)
    } else {
        s
    }
}

/// `s` without its leading and trailing characters of `set`.
pub open spec fn trim(s: Seq<char>, set: TrimSet) -> Seq<char> {
    trim_end(trim_start(s, set), set)
}

fn is_in_set(set: TrimSet, c: char) -> (b: bool)
    ensures
        b == trimmed_by(set, c),
{
    match set {
        TrimSet::WhiteSpace => {
            let u = c as u32;
            (0x09 <= u && u <= 0x0d) || u == 0x20 || u == 0x85 || u == 0xa0 || u == 0x1680 || (
            0x2000 <= u && u <= 0x200a) || u == 0x2028 || u == 0x2029 || u == 0x202f || u == 0x205f
                || u == 0x3000
        },
        TrimSet::Quote => c == '"',
    }
}

/// A copy of `s` with the leading and trailing characters of `set` removed.
pub fn trim_chars(s: &str, set: TrimSet) -> (res: String)
    ensures
        res@ == trim(s@, set),
{
    let len = s.unicode_len();
    let mut i: usize = 0;
    assert(s@.subrange(0, len as int) =~= s@);
    while i < len && is_in_set(set, s.get_char(i))
        invariant
            len == s@.len(),
            i <= len,
            trim_start(s@, set) == trim_start(s@.subrange(i as int, len as int), set),
        decreases len - i,
    {
        assert(s@.subrange(i as int, len as int).drop_first() =~= s@.subrange(
            i + 1,
            len as int,
        ));
        i = i + 1;
    }
    assert(trim_start(s@, set) == s@.subrange(i as int, len as int));
    let mut j: usize = len;
    while j > i && is_in_set(set, s.get_char(j - 1))
        invariant
            len == s@.len(),
            i <= j <= len,
            trim(s@, set) == trim_end(s@.subrange(i as int, j as int), set),
        decreases j,
    {
        assert(s@.subrange(i as int, j as int).drop_last() =~= s@.subrange(
            i as int,
            j - 1,
        ));
        j = j - 1;
    }
    let sub = s.substring_char(i, j);
    String::from_str(sub)
}


/// The views of a sequence of strings.
pub open spec fn texts(v: Seq<String>) -> Seq<Seq<char>> {
    v.map_values(|t: String| t@)
}

/// Position of the first `'\n'` in `s`, or the length of `s` when there is none.
pub open spec fn newline_index(s: Seq<char>) -> nat
    decreases s.len(),
{
    if s.len() == 0 || s[0] == '\n' {
        0
    } else {
        1 + newline_index(s.drop_first())
    }
}

/// A line without the carriage return that ends it, if any.
pub open spec fn strip_cr(line: Seq<char>) -> Seq<char> {
    if line.len() > 0 && line.last() == '\r' {
        line.drop_last()
    } else {
        line
    }
}

/// The lines of a text as `str::lines` yields them: split at each `'\n'`, a
/// `'\r'` just before a `'\n'` dropped, and no empty line after a final `'\n'`.
pub open spec fn lines(s: Seq<char>) -> Seq<Seq<char>>
    decreases s.len(),
{
    if s.len() == 0 {
        Seq::empty()
    } else if newline_index(s) < s.len() {
        seq![strip_cr(s.take(newline_index(s) as int))] + lines(s.skip(newline_index(s) + 1 as int))
    } else {
        seq![s]
    }
}

pub proof fn lemma_newline_index(s: Seq<char>, m: int)
    requires
        0 <= m <= s.len(),
        forall|t: int| 0 <= t < m ==> s[t] != '\n',
        m == s.len() || s[m] == '\n',
    ensures
        newline_index(s) == m,
    decreases m,
{
    if m > 0 {
        lemma_newline_index(s.drop_first(), m - 1);
    }
}

/// The lines of `text`, as `str::lines` yields them.
pub fn split_lines(text: &str) -> (res: Vec<String>)
    ensures
        texts(res@) == lines(text@),
{
    let len = text.unicode_len();
    let ghost s = text@;
    let mut res: Vec<String> = Vec::new();
    let mut pos: usize = 0;
    assert(s.skip(0) =~= s);
    while pos < len
        invariant
            len == s.len(),
            s == text@,
            pos <= len,
            texts(res@) + lines(s.skip(pos as int)) == lines(s),
        decreases len - pos,
    {
        let mut j: usize = pos;
        while j < len && text.get_char(j) != '\n'
            invariant
                len == s.len(),
                s == text@,
                pos <= j <= len,
                forall|t: int| pos <= t < j ==> s[t] != '\n',
            decreases len - j,
        {
            j = j + 1;
        }
        let ghost rest = s.skip(pos as int);
        proof {
            lemma_newline_index(rest, j - pos);
        }
        let mut end: usize = j;
        if j < len && j > pos && text.get_char(j - 1) == '\r' {
            end = j - 1;
        }
        let line = String::from_str(text.substring_char(pos, end));
        let ghost old_res = res@;
        res.push(line);
        if j < len {
            assert(strip_cr(rest.take(j - pos)) =~= s.subrange(pos as int, end as int));
            assert(rest.skip(j - pos + 1) =~= s.skip(j + 1));
            assert(texts(res@) =~= texts(old_res).push(strip_cr(rest.take(j - pos))));
            assert(texts(res@) + lines(s.skip(j + 1)) =~= texts(old_res) + lines(rest));
            pos = j + 1;
        } else {
            assert(rest =~= s.subrange(pos as int, end as int));
            assert(texts(res@) =~= texts(old_res).push(rest));
            assert(s.skip(len as int) =~= Seq::<char>::empty());
            assert(texts(res@) + lines(s.skip(len as int)) =~= texts(old_res) + lines(rest));
            pos = len;
        }
    }
    assert(s.skip(len as int) =~= Seq::<char>::empty());
    assert(texts(res@) + lines(s.skip(len as int)) =~= texts(res@));
    res
}

/// `parts` joined with `sep` between consecutive parts, as `[String]::join` builds it.
pub open spec fn join(parts: Seq<Seq<char>>, sep: Seq<char>) -> Seq<char>
    decreases parts.len(),
{
    if parts.len() == 0 {
        Seq::empty()
    } else if parts.len() == 1 {
        parts[0]
    } else {
        join(parts.drop_last(), sep) + sep + parts.last()
    }
}

/// `parts` joined with `sep` between consecutive parts.
pub fn join_texts(parts: &Vec<String>, sep: &str) -> (res: String)
    ensures
        res@ == join(texts(parts@), sep@),
{
    let mut res = String::new();
    let n = parts.len();
    let mut i: usize = 0;
    while i < n
        invariant
            n == parts@.len(),
            i <= n,
            res@ == join(texts(parts@).take(i as int), sep@),
        decreases n - i,
    {
        if i > 0 {
            res.append(sep);
        }
        res.append(parts[i].as_str());
        assert(texts(parts@).take(i + 1).drop_last() =~= texts(parts@).take(i as int));
        i = i + 1;
    }
    assert(texts(parts@).take(n as int) =~= texts(parts@));
    res
}

/// No character of `s` ends a line: neither `'\n'` nor `'\r'`.
pub open spec fn line_safe(s: Seq<char>) -> bool {
    forall|i: int| 0 <= i < s.len() ==> s[i] != '\n' && s[i] != '\r'
}

/// A line with no `'\n'` in it, followed by `'\n'` and more text, is the
/// first of the lines of that text.
pub proof fn lemma_lines_first(line: Seq<char>, rest: Seq<char>)
    requires
        forall|i: int| 0 <= i < line.len() ==> line[i] != '\n',
    ensures
        lines(line + seq!['\n'] + rest) == seq![strip_cr(line)] + lines(rest),
{
    let s = line + seq!['\n'] + rest;
    lemma_newline_index(s, line.len() as int);
    assert(s.take(line.len() as int) =~= line);
    assert(s.skip(line.len() + 1int) =~= rest);
}

/// A non-empty text with no `'\n'` is a single line.
pub proof fn lemma_lines_single(line: Seq<char>)
    requires
        line.len() > 0,
        forall|i: int| 0 <= i < line.len() ==> line[i] != '\n',
    ensures
        lines(line) == seq![line],
{
    lemma_newline_index(line, line.len() as int);
}

/// The decimal digit for `d`, which is below ten.
pub open spec fn digit_char(d: nat) -> char {
    if d == 0 {
        '0'
    } else if d == 1 {
        '1'
    } else if d == 2 {
        '2'
    } else if d == 3 {
        '3'
    } else if d == 4 {
        '4'
    } else if d == 5 {
        '5'
    } else if d == 6 {
        '6'
    } else if d == 7 {
        '7'
    } else if d == 8 {
        '8'
    } else {
        '9'
    }
}

/// The decimal numeral of `n`, without leading zeros, as `u32::to_string` writes it.
pub open spec fn decimal(n: nat) -> Seq<char>
    decreases n,
{
    if n < 10 {
        seq![digit_char(n)]
    } else {
        decimal(n / 10).push(digit_char(n % 10))
    }
}

fn digit_text(d: u32) -> (res: &'static str)
    requires
        d < 10,
    ensures
        res@ == seq![digit_char(d as nat)],
{
    if d == 0 {
        proof {
            reveal_strlit("0");
        }
        "0"
    } else if d == 1 {
        proof {
            reveal_strlit("1");
        }
        "1"
    } else if d == 2 {
        proof {
            reveal_strlit("2");
        }
        "2"
    } else if d == 3 {
        proof {
            reveal_strlit("3");
        }
        "3"
    } else if d == 4 {
        proof {
            reveal_strlit("4");
        }
        "4"
    } else if d == 5 {
        proof {
            reveal_strlit("5");
        }
        "5"
    } else if d == 6 {
        proof {
            reveal_strlit("6");
        }
        "6"
    } else if d == 7 {
        proof {
            reveal_strlit("7");
        }
        "7"
    } else if d == 8 {
        proof {
            reveal_strlit("8");
        }
        "8"
    } else {
        proof {
            reveal_strlit("9");
        }
        "9"
    }
}

/// The decimal numeral of `n`.
pub fn decimal_text(n: u32) -> (res: String)
    ensures
        res@ == decimal(n as nat),
        all_digits(res@),
        numeral_value(res@) == n,
    decreases n,
{
    proof {
        lemma_decimal_reads_back(n as nat);
    }
    if n < 10 {
        String::from_str(digit_text(n))
    } else {
        let mut res = decimal_text(n / 10);
        res.append(digit_text(n % 10));
        res
    }
}

/// The number that a string of decimal digits denotes, most significant first.
pub open spec fn numeral_value(s: Seq<char>) -> int
    decreases s.len(),
{
    if s.len() == 0 {
        0
    } else {
        numeral_value(s.drop_last()) * 10 + (s.last() as int - 48)
    }
}

/// Every character of `s` is a decimal digit `'0'`..=`'9'`.
pub open spec fn all_digits(s: Seq<char>) -> bool {
    forall|i: int| 0 <= i < s.len() ==> '0' <= #[trigger] s[i] <= '9'
}

/// The digit for `d` is the character whose code is `48 + d` (`'0'` + d).
pub proof fn lemma_digit_char_code(d: nat)
    requires
        d < 10,
    ensures
        digit_char(d) as int == 48 + d,
        '0' <= digit_char(d) <= '9',
{
}

/// The numeral of `n` reads back as `n`: it is made of decimal digits only,
/// and their place values sum to `n`; it has no leading zero.
pub proof fn lemma_decimal_reads_back(n: nat)
    ensures
        all_digits(decimal(n)),
        numeral_value(decimal(n)) == n,
        decimal(n).len() > 0,
        n >= 10 ==> decimal(n).len() > 1,
        decimal(n).len() > 1 ==> decimal(n)[0] != '0',
    decreases n,
{
    if n < 10 {
        lemma_digit_char_code(n);
        assert(decimal(n) == seq![digit_char(n)]);
        assert(decimal(n).drop_last() =~= Seq::<char>::empty());
        assert(numeral_value(decimal(n)) == numeral_value(Seq::<char>::empty()) * 10 + (
        digit_char(n) as int - 48));
    } else {
        lemma_decimal_reads_back(n / 10);
        lemma_digit_char_code(n % 10);
        if n / 10 < 10 {
            lemma_digit_char_code(n / 10);
        }
        let s = decimal(n);
        let p = decimal(n / 10);
        assert(s == p.push(digit_char(n % 10)));
        assert(s.drop_last() =~= p);
        assert(s.last() == digit_char(n % 10));
        assert(numeral_value(s) == numeral_value(p) * 10 + (digit_char(n % 10) as int - 48));
        assert(s[0] == p[0]);
        if n / 10 < 10 {
            assert(p == seq![digit_char(n / 10)]);
            assert(p[0] == digit_char(n / 10));
        }
        assert forall|i: int| 0 <= i < s.len() implies '0' <= #[trigger] s[i] <= '9' by {
            if i < p.len() {
                assert(s[i] == p[i]);
            }
        }
    }
}

/// Nothing printable in ASCII (`'!'` to `'~'`, so no letter, digit or
/// punctuation mark) is whitespace, while space, tab, line feed and carriage
/// return are.
pub proof fn lemma_white_space_excludes_printable_ascii(c: char)
    ensures
        ('!' <= c <= '~') ==> !is_white_space(c),
        is_white_space(' ') && is_white_space('\t') && is_white_space('\n') && is_white_space('\r'),
        is_white_space(c) ==> (c as u32) <= 0x20 || (c as u32) >= 0x85,
{
}

/// Quote trimming removes the double quote and nothing else.
pub proof fn lemma_quote_set(c: char)
    ensures
        trimmed_by(TrimSet::Quote, c) <==> c == '"',
{
}

/// A text whose first and last characters are not in `set` is left whole by trimming.
pub proof fn lemma_trim_keeps_untrimmed_ends(s: Seq<char>, set: TrimSet)
    requires
        s.len() > 0 ==> !trimmed_by(set, s[0]) && !trimmed_by(set, s.last()),
    ensures
        trim(s, set) == s,
{
}

/// A text that starts and ends with printable ASCII is its own whitespace trim.
pub proof fn lemma_trim_keeps_printable_ends(s: Seq<char>)
    requires
        s.len() > 0 ==> ('!' <= s[0] <= '~') && ('!' <= s.last() <= '~'),
    ensures
        trim(s, TrimSet::WhiteSpace) == s,
{
    if s.len() > 0 {
        lemma_white_space_excludes_printable_ascii(s[0]);
        lemma_white_space_excludes_printable_ascii(s.last());
    }
    lemma_trim_keeps_untrimmed_ends(s, TrimSet::WhiteSpace);
}

/// `s` in double quotes.
pub open spec fn quoted(s: Seq<char>) -> Seq<char> {
    seq!['"'] + s + seq!['"']
}

/// Removing the quotes of a quoted text with no quote inside gives the text back.
pub proof fn lemma_unquote(s: Seq<char>)
    requires
        forall|i: int| 0 <= i < s.len() ==> s[i] != '"',
    ensures
        trim(quoted(s), TrimSet::Quote) == s,
{
    let q = quoted(s);
    let t = s + seq!['"'];
    assert(q.drop_first() =~= t);
    if s.len() == 0 {
        assert(t =~= seq!['"']);
        assert(t.drop_first() =~= Seq::<char>::empty());
        assert(trim_start(Seq::<char>::empty(), TrimSet::Quote) == Seq::<char>::empty());
        assert(trim_start(t, TrimSet::Quote) == Seq::<char>::empty());
        assert(trim_start(q, TrimSet::Quote) == Seq::<char>::empty());
        assert(s =~= Seq::<char>::empty());
    } else {
        assert(t[0] == s[0]);
        assert(trim_start(t, TrimSet::Quote) == t);
        assert(trim_start(q, TrimSet::Quote) == t);
        assert(t.drop_last() =~= s);
        assert(s.last() == s[s.len() - 1]);
        assert(trim_end(s, TrimSet::Quote) == s);
        assert(trim_end(t, TrimSet::Quote) == s);
    }
}

} // verus!
