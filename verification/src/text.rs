//! Small verified text helpers: rendering integers in decimal, joining
//! strings with a separator, trimming a character off one end, and splitting
//! a text into lines the way `str::lines` does.

use vstd::prelude::*;

verus! {

use vstd::string::StrSliceExecFns;
use vstd::string::StringExecFns;

/// The character for one decimal digit.
pub open spec fn digit_char(d: nat) -> char {
    if d == 0 {
        '0'
    } else if d == 1 {
        '1'
    } else if d == 2 {
        '2'
    } else if d == 3 {
        '3'
    } else if d == 4 {
        '4'
    } else if d == 5 {
        '5'
    } else if d == 6 {
        '6'
    } else if d == 7 {
        '7'
    } else if d == 8 {
        '8'
    } else {
        '9'
    }
}

/// The decimal digits of a non-negative number, most significant first.
pub open spec fn dec_digits(n: nat) -> Seq<char>
    decreases n,
{
    if n < 10 {
        seq![digit_char(n)]
    } else {
        dec_digits(n / 10) + seq![digit_char(n % 10)]
    }
}

/// A number in decimal, with a leading minus sign when negative.
pub open spec fn dec_str(n: int) -> Seq<char> {
    if n < 0 {
        seq!['-'] + dec_digits((-n) as nat)
    } else {
        dec_digits(n as nat)
    }
}

/// One decimal digit as a string.
fn digit_string(d: u64) -> (r: String)
    requires
        d < 10,
    ensures
        r@ == seq![digit_char(d as nat)],
{
    let r: String = if d == 0 {
        "0".to_owned()
    } else if d == 1 {
        "1".to_owned()
    } else if d == 2 {
        "2".to_owned()
    } else if d == 3 {
        "3".to_owned()
    } else if d == 4 {
        "4".to_owned()
    } else if d == 5 {
        "5".to_owned()
    } else if d == 6 {
        "6".to_owned()
    } else if d == 7 {
        "7".to_owned()
    } else if d == 8 {
        "8".to_owned()
    } else {
        "9".to_owned()
    };
    proof {
        reveal_strlit("0");
        reveal_strlit("1");
        reveal_strlit("2");
        reveal_strlit("3");
        reveal_strlit("4");
        reveal_strlit("5");
        reveal_strlit("6");
        reveal_strlit("7");
        reveal_strlit("8");
        reveal_strlit("9");
        assert(r@ =~= seq![digit_char(d as nat)]);
    }
    r
}

/// A non-negative number rendered in decimal.
pub fn u64_to_string(n: u64) -> (r: String)
    ensures
        r@ == dec_digits(n as nat),
    decreases n,
{
    if n < 10 {
        digit_string(n)
    } else {
        let mut s = u64_to_string(n / 10);
        let last = digit_string(n % 10);
        s.append(last.as_str());
        s
    }
}

/// A signed number rendered in decimal, as `i32` values are printed.
pub fn i32_to_string(n: i32) -> (r: String)
    ensures
        r@ == dec_str(n as int),
{
    if n >= 0 {
        u64_to_string(n as u64)
    } else {
        let mag: u64 = (-(n as i64)) as u64;
        let mut s: String = "-".to_owned();
        let digits = u64_to_string(mag);
        s.append(digits.as_str());
        proof {
            reveal_strlit("-");
            assert(s@ =~= dec_str(n as int));
        }
        s
    }
}

/// The parts joined with the separator between each two.
pub open spec fn join_with(parts: Seq<Seq<char>>, sep: Seq<char>) -> Seq<char>
    decreases parts.len(),
{
    if parts.len() == 0 {
        Seq::empty()
    } else if parts.len() == 1 {
        parts[0]
    } else {
        parts[0] + sep + join_with(parts.skip(1), sep)
    }
}

/// Joining one more part appends a separator and the part.
pub proof fn lemma_join_push(parts: Seq<Seq<char>>, sep: Seq<char>, x: Seq<char>)
    ensures
        join_with(parts.push(x), sep) == if parts.len() == 0 {
            x
        } else {
            join_with(parts, sep) + sep + x
        },
    decreases parts.len(),
{
    if parts.len() == 0 {
        assert(parts.push(x)[0] == x);
        assert(join_with(parts.push(x), sep) == x);
    } else {
        assert(parts.push(x).skip(1) =~= parts.skip(1).push(x));
        lemma_join_push(parts.skip(1), sep, x);
        if parts.len() == 1 {
            assert(parts.skip(1).len() == 0);
            assert(join_with(parts.push(x), sep) =~= join_with(parts, sep) + sep + x);
        } else {
            assert(join_with(parts.push(x), sep) =~= join_with(parts, sep) + sep + x);
        }
    }
}

/// The views of a list of strings.
pub open spec fn string_views(parts: Seq<String>) -> Seq<Seq<char>> {
    parts.map_values(|s: String| s@)
}

/// The views of a list of string slices.
pub open spec fn str_views(parts: Seq<&str>) -> Seq<Seq<char>> {
    parts.map_values(|s: &str| s@)
}

/// Join owned strings with a separator.
pub fn join_strings(parts: &Vec<String>, sep: &str) -> (r: String)
    ensures
        r@ == join_with(string_views(parts@), sep@),
{
    let mut r = String::new();
    let mut i: usize = 0;
    while i < parts.len()
        invariant
            i <= parts@.len(),
            r@ == join_with(string_views(parts@).take(i as int), sep@),
        decreases parts@.len() - i,
    {
        if i > 0 {
            r.append(sep);
        }
        r.append(parts[i].as_str());
        proof {
            let views = string_views(parts@);
            assert(views.take(i as int).push(views[i as int]) =~= views.take(i + 1));
            lemma_join_push(views.take(i as int), sep@, views[i as int]);
        }
        i = i + 1;
    }
    proof {
        assert(string_views(parts@).take(parts@.len() as int) =~= string_views(parts@));
    }
    r
}

/// Join string slices with a separator.
pub fn join_strs(parts: &[&str], sep: &str) -> (r: String)
    ensures
        r@ == join_with(str_views(parts@), sep@),
{
    let mut r = String::new();
    let mut i: usize = 0;
    while i < parts.len()
        invariant
            i <= parts@.len(),
            r@ == join_with(str_views(parts@).take(i as int), sep@),
        decreases parts@.len() - i,
    {
        if i > 0 {
            r.append(sep);
        }
        r.append(parts[i]);
        proof {
            let views = str_views(parts@);
            assert(views.take(i as int).push(views[i as int]) =~= views.take(i + 1));
            lemma_join_push(views.take(i as int), sep@, views[i as int]);
        }
        i = i + 1;
    }
    proof {
        assert(str_views(parts@).take(parts@.len() as int) =~= str_views(parts@));
    }
    r
}

/// `s` with every trailing `ch` removed.
pub open spec fn trim_trailing(s: Seq<char>, ch: char) -> Seq<char>
    decreases s.len(),
{
    if s.len() > 0 && s.last() == ch {
        trim_trailing(s.drop_last(), ch)
    } else {
        s
    }
}

/// `s` with every leading `ch` removed.
pub open spec fn trim_leading(s: Seq<char>, ch: char) -> Seq<char>
    decreases s.len(),
{
    if s.len() > 0 && s[0] == ch {
        trim_leading(s.skip(1), ch)
    } else {
        s
    }
}

/// Trimming keeps the prefix before the trailing run of `ch`.
proof fn lemma_trim_trailing_take(s: Seq<char>, ch: char, j: int)
    requires
        0 <= j <= s.len(),
        forall|k: int| j <= k < s.len() ==> s[k] == ch,
        j > 0 ==> s[j - 1] != ch,
    ensures
        trim_trailing(s, ch) == s.take(j),
    decreases s.len(),
{
    if s.len() > j {
        assert(s.last() == ch);
        lemma_trim_trailing_take(s.drop_last(), ch, j);
        assert(s.drop_last().take(j) =~= s.take(j));
    } else {
        if j > 0 {
            assert(s.last() != ch);
        }
        assert(s.take(j) =~= s);
    }
}

/// Trimming keeps the suffix after the leading run of `ch`.
proof fn lemma_trim_leading_skip(s: Seq<char>, ch: char, j: int)
    requires
        0 <= j <= s.len(),
        forall|k: int| 0 <= k < j ==> s[k] == ch,
        j < s.len() ==> s[j] != ch,
    ensures
        trim_leading(s, ch) == s.skip(j),
    decreases j,
{
    if j > 0 {
        assert(s[0] == ch);
        assert forall|k: int| 0 <= k < j - 1 implies s.skip(1)[k] == ch by {
            assert(s.skip(1)[k] == s[k + 1]);
        }
        assert(j - 1 < s.skip(1).len() ==> s.skip(1)[j - 1] != ch);
        lemma_trim_leading_skip(s.skip(1), ch, j - 1);
        assert(s.skip(1).skip(j - 1) =~= s.skip(j));
    } else {
        assert(s.skip(0) =~= s);
    }
}

/// Remove every trailing `ch` from a string.
pub fn trim_trailing_char(s: &str, ch: char) -> (r: &str)
    ensures
        r@ == trim_trailing(s@, ch),
{
    let len = s.unicode_len();
    let mut end: usize = len;
    while end > 0 && s.get_char(end - 1) == ch
        invariant
            end <= len,
            len == s@.len(),
            forall|k: int| end <= k < s@.len() ==> s@[k] == ch,
        decreases end,
    {
        end = end - 1;
    }
    proof {
        lemma_trim_trailing_take(s@, ch, end as int);
    }
    let r = s.substring_char(0, end);
    proof {
        assert(s@.subrange(0, end as int) =~= s@.take(end as int));
    }
    r
}

/// Remove every leading `ch` from a string.
pub fn trim_leading_char(s: &str, ch: char) -> (r: &str)
    ensures
        r@ == trim_leading(s@, ch),
{
    let len = s.unicode_len();
    let mut begin: usize = 0;
    while begin < len && s.get_char(begin) == ch
        invariant
            begin <= len,
            len == s@.len(),
            forall|k: int| 0 <= k < begin ==> s@[k] == ch,
        decreases len - begin,
    {
        begin = begin + 1;
    }
    proof {
        lemma_trim_leading_skip(s@, ch, begin as int);
    }
    let r = s.substring_char(begin, len);
    proof {
        assert(s@.subrange(begin as int, s@.len() as int) =~= s@.skip(begin as int));
    }
    r
}

/// How many characters the first line of `s` has, before its newline (or all
/// of `s` when no newline remains).
pub open spec fn first_line_len(s: Seq<char>) -> nat
    decreases s.len(),
{
    if s.len() == 0 {
        0
    } else if s[0] == '\n' {
        0
    } else {
        1 + first_line_len(s.skip(1))
    }
}

/// A line with one trailing carriage return removed, as line endings of the
/// carriage-return-newline kind leave one behind.
pub open spec fn strip_cr(l: Seq<char>) -> Seq<char> {
    if l.len() > 0 && l.last() == '\r' {
        l.drop_last()
    } else {
        l
    }
}

/// The first line of `s` runs to its first newline.
proof fn lemma_first_line_len_at(s: Seq<char>, j: int)
    requires
        0 <= j <= s.len(),
        forall|k: int| 0 <= k < j ==> s[k] != '\n',
        j < s.len() ==> s[j] == '\n',
    ensures
        first_line_len(s) == j,
    decreases j,
{
    if j == 0 {
    } else {
        assert(s[0] != '\n');
        assert forall|k: int| 0 <= k < j - 1 implies s.skip(1)[k] != '\n' by {
            assert(s.skip(1)[k] == s[k + 1]);
        }
        assert(j - 1 < s.skip(1).len() ==> s.skip(1)[j - 1] == '\n');
        lemma_first_line_len_at(s.skip(1), j - 1);
    }
}

/// The lines of `s`, split at newlines, each stripped of one carriage return
/// left by a carriage-return-newline ending; a final line ending opens no
/// further line.
pub open spec fn spec_lines(s: Seq<char>) -> Seq<Seq<char>>
    decreases s.len(),
{
    if s.len() == 0 {
        Seq::empty()
    } else {
        let k = first_line_len(s);
        if k >= s.len() {
            seq![s]
        } else {
            seq![strip_cr(s.take(k as int))] + spec_lines(s.skip(k as int + 1))
        }
    }
}

/// Split a text into lines, as `spec_lines` says.
pub fn split_lines(s: &str) -> (r: Vec<String>)
    ensures
        string_views(r@) == spec_lines(s@),
{
    let len = s.unicode_len();
    let mut r: Vec<String> = Vec::new();
    let mut line_start: usize = 0;
    let mut i: usize = 0;
    proof {
        assert(s@.skip(0) =~= s@);
        assert(string_views(r@) + spec_lines(s@) =~= spec_lines(s@));
    }
    while i < len
        invariant
            line_start <= i <= len,
            len == s@.len(),
            forall|k: int| line_start <= k < i ==> s@[k] != '\n',
            spec_lines(s@) == string_views(r@) + spec_lines(s@.skip(line_start as int)),
        decreases len - i,
    {
        if s.get_char(i) == '\n' {
            let ghost rest = s@.skip(line_start as int);
            proof {
                assert forall|k: int| 0 <= k < i - line_start implies rest[k] != '\n' by {
                    assert(rest[k] == s@[line_start + k]);
                }
                assert(rest[i - line_start] == s@[i as int]);
                lemma_first_line_len_at(rest, i - line_start);
                assert(rest.len() > i - line_start);
            }
            let line: &str = if i > line_start && s.get_char(i - 1) == '\r' {
                let l = s.substring_char(line_start, i - 1);
                proof {
                    assert(rest.take(i - line_start) =~= s@.subrange(
                        line_start as int,
                        i as int,
                    ));
                    assert(rest.take(i - line_start).last() == '\r');
                    assert(strip_cr(rest.take(i - line_start)) =~= s@.subrange(
                        line_start as int,
                        i as int - 1,
                    ));
                }
                l
            } else {
                let l = s.substring_char(line_start, i);
                proof {
                    assert(rest.take(i - line_start) =~= s@.subrange(
                        line_start as int,
                        i as int,
                    ));
                    if rest.take(i - line_start).len() > 0 {
                        assert(rest.take(i - line_start).last() == s@[i as int - 1]);
                    }
                    assert(strip_cr(rest.take(i - line_start)) =~= s@.subrange(
                        line_start as int,
                        i as int,
                    ));
                }
                l
            };
            let owned: String = line.to_owned();
            proof {
                assert(rest.skip(i - line_start + 1) =~= s@.skip(i as int + 1));
                assert(string_views(r@.push(owned)) =~= string_views(r@) + seq![owned@]);
                assert(string_views(r@) + (seq![owned@] + spec_lines(s@.skip(i as int + 1)))
                    =~= string_views(r@.push(owned)) + spec_lines(s@.skip(i as int + 1)));
            }
            r.push(owned);
            line_start = i + 1;
        }
        i = i + 1;
    }
    if line_start < len {
        let ghost rest = s@.skip(line_start as int);
        proof {
            assert forall|k: int| 0 <= k < rest.len() implies rest[k] != '\n' by {
                assert(rest[k] == s@[line_start + k]);
            }
            lemma_first_line_len_at(rest, rest.len() as int);
        }
        let line = s.substring_char(line_start, len);
        let owned: String = line.to_owned();
        proof {
            assert(owned@ =~= rest);
            assert(spec_lines(rest) =~= seq![rest]);
            assert(string_views(r@.push(owned)) =~= string_views(r@) + seq![owned@]);
            assert(string_views(r@) + seq![rest] =~= string_views(r@.push(owned)));
        }
        r.push(owned);
    } else {
        proof {
            assert(s@.skip(line_start as int).len() == 0);
            assert(string_views(r@) + spec_lines(s@.skip(line_start as int)) =~= string_views(
                r@,
            ));
        }
    }
    r
}

/// Join a base URL and a path with exactly one slash between them.
pub fn join_url(base: &str, suffix: &str) -> (r: String)
    ensures
        r@ == trim_trailing(base@, '/') + "/"@ + trim_leading(suffix@, '/'),
{
    let trimmed_base = trim_trailing_char(base, '/');
    let trimmed_suffix = trim_leading_char(suffix, '/');
    let mut r: String = trimmed_base.to_owned();
    r.append("/");
    r.append(trimmed_suffix);
    r
}


/// `s` with every occurrence of `from` replaced by `to`, scanning left to
/// right without overlap, as `str::replace` does.
pub open spec fn spec_replace(s: Seq<char>, from: Seq<char>, to: Seq<char>) -> Seq<char>
    decreases s.len(),
    when from.len() > 0
{
    if s.len() < from.len() {
        s
    } else if s.take(from.len() as int) == from {
        to + spec_replace(s.skip(from.len() as int), from, to)
    } else {
        seq![s[0]] + spec_replace(s.skip(1), from, to)
    }
}

/// Whether two string slices hold the same characters.
fn str_eq(a: &str, b: &str) -> (r: bool)
    ensures
        r == (a@ == b@),
{
    let a_owned: String = a.to_owned();
    let b_owned: String = b.to_owned();
    a_owned == b_owned
}

/// Replace every occurrence of `from` (never empty) by `to`, scanning left
/// to right without overlap.
pub fn replace_str(s: &str, from: &str, to: &str) -> (r: String)
    requires
        from@.len() > 0,
    ensures
        r@ == spec_replace(s@, from@, to@),
    decreases s@.len(),
{
    let slen = s.unicode_len();
    let flen = from.unicode_len();
    if slen < flen {
        return s.to_owned();
    }
    let prefix = s.substring_char(0, flen);
    proof {
        assert(prefix@ =~= s@.take(flen as int));
    }
    if str_eq(prefix, from) {
        let rest = replace_str(s.substring_char(flen, slen), from, to);
        let mut r: String = to.to_owned();
        r.append(rest.as_str());
        proof {
            assert(s@.subrange(flen as int, slen as int) =~= s@.skip(flen as int));
        }
        r
    } else {
        let head = s.substring_char(0, 1);
        let rest = replace_str(s.substring_char(1, slen), from, to);
        let mut r: String = head.to_owned();
        r.append(rest.as_str());
        proof {
            assert(s@.subrange(0, 1) =~= seq![s@[0]]);
            assert(s@.subrange(1, slen as int) =~= s@.skip(1));
        }
        r
    }
}

} // verus!
