//! High Score storage: a single integer kept as literal plain text (e.g.
//! `12\n`) at `<data dir>/simon-says/highscore`, where the data dir is
//! `$XDG_DATA_HOME` if set and non-empty, else `~/.local/share`. The file
//! itself is read and written by the shell; this module decides where it
//! lives, what it holds, and what a stored text is worth. A missing or
//! corrupt record is worth 0.
use vstd::prelude::*;
use vstd::string::{StrSliceExecFns, StringExecFns};

verus! {

/// The stored file, relative to the data dir.
pub const RELATIVE_PATH: &'static str = "simon-says/highscore";

/// The data dir below `$HOME` used when `$XDG_DATA_HOME` is unset or empty.
pub const HOME_DATA_SUFFIX: &'static str = ".local/share";

/// Joins a relative path onto a base path as a Unix path does: with one
/// `/` between them unless the base is empty or already ends in `/`.
pub open spec fn path_join(base: Seq<char>, rel: Seq<char>) -> Seq<char> {
    if base.len() > 0 && base.last() != '/' {
        base + seq!['/'] + rel
    } else {
        base + rel
    }
}

/// The data dir for the given environment: `$XDG_DATA_HOME` if set and
/// non-empty, else `$HOME/.local/share` if `$HOME` is set and non-empty,
/// else none.
pub open spec fn data_dir_of(xdg_data_home: Option<Seq<char>>, home: Option<Seq<char>>) -> Option<
    Seq<char>,
> {
    if xdg_data_home is Some && xdg_data_home->0.len() > 0 {
        xdg_data_home
    } else if home is Some && home->0.len() > 0 {
        Some(path_join(home->0, HOME_DATA_SUFFIX@))
    } else {
        None
    }
}

/// The text of a `&str` that may be absent.
pub open spec fn opt_str_view(s: Option<&str>) -> Option<Seq<char>> {
    match s {
        Some(t) => Some(t@),
        None => None,
    }
}

/// The text of a `String` that may be absent.
pub open spec fn opt_string_view(s: Option<String>) -> Option<Seq<char>> {
    match s {
        Some(t) => Some(t@),
        None => None,
    }
}

/// The pure XDG lookup behind the shell's data-dir discovery, apart from
/// the process environment so that the resolution order is testable.
pub fn resolve_data_dir(xdg_data_home: Option<&str>, home: Option<&str>) -> (r: Option<String>)
    ensures
        opt_string_view(r) == data_dir_of(opt_str_view(xdg_data_home), opt_str_view(home)),
{
    match xdg_data_home {
        Some(dir) if !dir.is_empty() => Some(dir.to_owned()),
        _ => match home {
            Some(dir) if !dir.is_empty() => Some(join_path(dir, HOME_DATA_SUFFIX)),
            _ => None,
        },
    }
}

/// `base` joined with the relative path `rel`.
fn join_path(base: &str, rel: &str) -> (r: String)
    ensures
        r@ == path_join(base@, rel@),
{
    let mut s = base.to_owned();
    let n = base.unicode_len();
    if n > 0 && base.get_char(n - 1) != '/' {
        let sep = "/";
        proof {
            reveal_strlit("/");
        }
        s.append(sep);
    }
    s.append(rel);
    s
}

/// The characters `char::is_whitespace` accepts: those with the Unicode
/// `White_Space` property.
pub open spec fn is_white_space(c: char) -> bool {
    let u = c as u32;
    ||| 0x9 <= u <= 0xd
    ||| u == 0x20
    ||| u == 0x85
    ||| u == 0xa0
    ||| u == 0x1680
    ||| 0x2000 <= u <= 0x200a
    ||| u == 0x2028
    ||| u == 0x2029
    ||| u == 0x202f
    ||| u == 0x205f
    ||| u == 0x3000
}

/// `s` without its leading white space.
pub open spec fn trim_front(s: Seq<char>) -> Seq<char>
    decreases s.len(),
{
    if s.len() > 0 && is_white_space(s[0]) {
        trim_front(s.drop_first())
    } else {
        s
    }
}

/// `s` without its trailing white space.
pub open spec fn trim_back(s: Seq<char>) -> Seq<char>
    decreases s.len(),
{
    if s.len() > 0 && is_white_space(s.last()) {
        trim_back(s.drop_last())
    } else {
        s
    }
}

/// `s` without leading and trailing white space, as `str::trim` gives it.
pub open spec fn trim(s: Seq<char>) -> Seq<char> {
    trim_back(trim_front(s))
}

pub open spec fn is_digit(c: char) -> bool {
    '0' <= c <= '9'
}

pub open spec fn all_digits(s: Seq<char>) -> bool {
    forall|i: int| 0 <= i < s.len() ==> is_digit(#[trigger] s[i])
}

/// The value of a string of decimal digits, most significant first.
pub open spec fn digits_value(s: Seq<char>) -> int
    decreases s.len(),
{
    if s.len() == 0 {
        0
    } else {
        digits_value(s.drop_last()) * 10 + (s.last() as int - '0' as int)
    }
}

/// What `str::parse::<u32>` makes of `s`: an optional `+` followed by one
/// or more decimal digits whose value fits a `u32`.
pub open spec fn parse_u32(s: Seq<char>) -> Option<u32> {
    if s.len() > 0 && s[0] == '+' {
        parse_digits(s.drop_first())
    } else {
        parse_digits(s)
    }
}

/// One or more decimal digits whose value fits a `u32`, read as that value.
pub open spec fn parse_digits(body: Seq<char>) -> Option<u32> {
    if body.len() > 0 && all_digits(body) && digits_value(body) <= u32::MAX {
        Some(digits_value(body) as u32)
    } else {
        None
    }
}

/// What a stored text is worth as a High Score: its trimmed text parsed as
/// a `u32`, or 0 when that fails.
pub open spec fn stored_score(text: Seq<char>) -> u32 {
    match parse_u32(trim(text)) {
        Some(n) => n,
        None => 0,
    }
}

/// The decimal digit for `d`, which is below ten.
pub open spec fn digit_char(d: nat) -> char {
    ('0' as u32 + d) as char
}

/// The decimal text of `n`, most significant digit first, no leading zeros.
pub open spec fn decimal(n: nat) -> Seq<char>
    decreases n,
{
    if n < 10 {
        seq![digit_char(n)]
    } else {
        decimal(n / 10).push(digit_char(n % 10))
    }
}

/// The stored form of a High Score: its decimal digits and a newline.
pub open spec fn high_score_text_of(score: u32) -> Seq<char> {
    decimal(score as nat).push('\n')
}

/// The decimal text of `n` is a nonempty run of digits worth `n`.
pub proof fn lemma_decimal(n: nat)
    ensures
        decimal(n).len() > 0,
        all_digits(decimal(n)),
        digits_value(decimal(n)) == n,
    decreases n,
{
    if n < 10 {
        assert(digit_char(n) as int - '0' as int == n);
        assert(decimal(n).drop_last() =~= Seq::<char>::empty());
        assert(digits_value(Seq::<char>::empty()) == 0);
    } else {
        lemma_decimal(n / 10);
        let d = decimal(n);
        let q = decimal(n / 10);
        assert(d.drop_last() =~= q);
        assert(digit_char(n % 10) as int - '0' as int == n % 10);
        assert((n / 10) * 10 + n % 10 == n);
        assert forall|i: int| 0 <= i < d.len() implies is_digit(#[trigger] d[i]) by {
            if i < q.len() {
                assert(d[i] == q[i]);
            }
        }
    }
}

/// Whether `c` is white space, as `char::is_whitespace` says.
fn is_white_space_char(c: char) -> (r: bool)
    ensures
        r == is_white_space(c),
{
    let u = c as u32;
    (0x9 <= u && u <= 0xd) || u == 0x20 || u == 0x85 || u == 0xa0 || u == 0x1680 || (0x2000 <= u
        && u <= 0x200a) || u == 0x2028 || u == 0x2029 || u == 0x202f || u == 0x205f || u == 0x3000
}

/// Past a run of white space at the front, `trim_front` goes on from the
/// first other character.
proof fn lemma_trim_front(s: Seq<char>, i: int)
    requires
        0 <= i <= s.len(),
        forall|k: int| 0 <= k < i ==> is_white_space(#[trigger] s[k]),
        i == s.len() || !is_white_space(s[i]),
    ensures
        trim_front(s) == s.subrange(i, s.len() as int),
    decreases i,
{
    if i == 0 {
        assert(s.subrange(0, s.len() as int) =~= s);
    } else {
        let t = s.drop_first();
        assert forall|k: int| 0 <= k < i - 1 implies is_white_space(#[trigger] t[k]) by {
            assert(t[k] == s[k + 1]);
        }
        lemma_trim_front(t, i - 1);
        assert(t.subrange(i - 1, t.len() as int) =~= s.subrange(i, s.len() as int));
    }
}

/// Before a run of white space at the back, `trim_back` stops at the last
/// other character.
proof fn lemma_trim_back(s: Seq<char>, j: int)
    requires
        0 <= j <= s.len(),
        forall|k: int| j <= k < s.len() ==> is_white_space(#[trigger] s[k]),
        j == 0 || !is_white_space(s[j - 1]),
    ensures
        trim_back(s) == s.subrange(0, j),
    decreases s.len() - j,
{
    if j == s.len() {
        assert(s.subrange(0, j) =~= s);
    } else {
        let t = s.drop_last();
        assert forall|k: int| j <= k < t.len() implies is_white_space(#[trigger] t[k]) by {
            assert(t[k] == s[k]);
        }
        lemma_trim_back(t, j);
        assert(t.subrange(0, j) =~= s.subrange(0, j));
    }
}

/// A digit string is worth at least any of its prefixes.
proof fn lemma_digits_value_prefix(s: Seq<char>, n: int)
    requires
        0 <= n <= s.len(),
        all_digits(s),
    ensures
        digits_value(s.subrange(0, n)) <= digits_value(s),
        digits_value(s) >= 0,
    decreases s.len(),
{
    if s.len() == 0 {
    } else {
        let t = s.drop_last();
        assert(all_digits(t)) by {
            assert forall|i: int| 0 <= i < t.len() implies is_digit(#[trigger] t[i]) by {
                assert(t[i] == s[i]);
            }
        }
        assert(is_digit(s[s.len() - 1]));
        if n == s.len() {
            lemma_digits_value_prefix(t, 0);
            assert(s.subrange(0, n) =~= s);
        } else {
            lemma_digits_value_prefix(t, n);
            assert(t.subrange(0, n) =~= s.subrange(0, n));
        }
    }
}

/// The High Score a stored text is worth: the text trimmed of white space
/// and parsed as an unsigned 32-bit decimal integer (an optional `+`, then
/// digits); a missing digit, a stray character or an overflow makes it 0.
pub fn parse_high_score(text: &str) -> (r: u32)
    ensures
        r == stored_score(text@),
{
    let n = text.unicode_len();
    let ghost s = text@;
    // Leading white space.
    let mut i: usize = 0;
    while i < n && is_white_space_char(text.get_char(i))
        invariant
            n == s.len(),
            s == text@,
            i <= n,
            forall|k: int| 0 <= k < i ==> is_white_space(#[trigger] s[k]),
        decreases n - i,
    {
        i = i + 1;
    }
    proof {
        lemma_trim_front(s, i as int);
    }
    let ghost front = s.subrange(i as int, n as int);
    // Trailing white space.
    let mut j: usize = n;
    while j > i && is_white_space_char(text.get_char(j - 1))
        invariant
            n == s.len(),
            s == text@,
            i <= j <= n,
            forall|k: int| j <= k < n ==> is_white_space(#[trigger] s[k]),
        decreases j,
    {
        j = j - 1;
    }
    proof {
        let f = front;
        assert forall|k: int| j - i <= k < f.len() implies is_white_space(#[trigger] f[k]) by {
            assert(f[k] == s[k + i]);
        }
        if j > i {
            assert(f[j - i - 1] == s[j - 1]);
        }
        lemma_trim_back(f, j - i);
        assert(f.subrange(0, j - i) =~= s.subrange(i as int, j as int));
    }
    let ghost t = s.subrange(i as int, j as int);
    assert(trim(s) == t);
    // The optional sign.
    let mut k: usize = i;
    if k < j && text.get_char(k) == '+' {
        k = k + 1;
    }
    let ghost body = if t.len() > 0 && t[0] == '+' {
        t.drop_first()
    } else {
        t
    };
    assert(body =~= s.subrange(k as int, j as int));
    assert(parse_u32(trim(s)) == parse_digits(body));
    if k == j {
        return 0;
    }
    // The digits.
    let mut value: u64 = 0;
    let mut p: usize = k;
    while p < j
        invariant
            n == s.len(),
            s == text@,
            k <= p <= j <= n,
            body == s.subrange(k as int, j as int),
            parse_u32(trim(s)) == parse_digits(body),
            all_digits(s.subrange(k as int, p as int)),
            value == digits_value(s.subrange(k as int, p as int)),
            value <= u32::MAX,
        decreases j - p,
    {
        let c = text.get_char(p);
        if !('0' <= c && c <= '9') {
            proof {
                assert(!is_digit(body[p - k]));
            }
            return 0;
        }
        let ghost prev = s.subrange(k as int, p as int);
        let ghost next = s.subrange(k as int, p + 1);
        assert(next.drop_last() =~= prev);
        assert(next.last() == c);
        assert(all_digits(next)) by {
            assert forall|q: int| 0 <= q < next.len() implies is_digit(#[trigger] next[q]) by {
                if q < prev.len() {
                    assert(next[q] == prev[q]);
                }
            }
        }
        value = value * 10 + (c as u64 - '0' as u64);
        p = p + 1;
        if value > 0xffff_ffff {
            proof {
                if all_digits(body) {
                    assert(body.subrange(0, p - k) =~= next);
                    lemma_digits_value_prefix(body, p - k);
                }
            }
            return 0;
        }
    }
    assert(s.subrange(k as int, p as int) =~= body);
    value as u32
}

/// The decimal digits of `n` appended to `s`.
pub(crate) fn push_decimal(s: &mut String, n: u32)
    ensures
        final(s)@ == old(s)@ + decimal(n as nat),
    decreases n,
{
    if n >= 10 {
        push_decimal(s, n / 10);
    }
    let d = n % 10;
    let digit = match d {
        0 => "0",
        1 => "1",
        2 => "2",
        3 => "3",
        4 => "4",
        5 => "5",
        6 => "6",
        7 => "7",
        8 => "8",
        _ => "9",
    };
    proof {
        reveal_strlit("0");
        reveal_strlit("1");
        reveal_strlit("2");
        reveal_strlit("3");
        reveal_strlit("4");
        reveal_strlit("5");
        reveal_strlit("6");
        reveal_strlit("7");
        reveal_strlit("8");
        reveal_strlit("9");
        assert(digit@ =~= seq![digit_char(d as nat)]);
    }
    s.append(digit);
    assert(s@ =~= old(s)@ + decimal(n as nat));
}

/// The stored form of a High Score: literal plain text, the ASCII digits of
/// `score` and a newline.
pub fn high_score_text(score: u32) -> (r: String)
    ensures
        r@ == high_score_text_of(score),
{
    let mut s = String::new();
    push_decimal(&mut s, score);
    let newline = "\n";
    proof {
        reveal_strlit("\n");
    }
    s.append(newline);
    assert(s@ =~= high_score_text_of(score));
    s
}

} // verus!
