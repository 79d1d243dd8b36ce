//! Text: numbers in decimal, trimmed lines, the last component of a path.

use vstd::prelude::*;

verus! {

/// The character of a decimal digit.
pub open spec fn digit_char(d: nat) -> char {
    (48 + d) as char
}

/// The decimal notation of `n`, without leading zeros.
pub open spec fn decimal(n: nat) -> Seq<char>
    decreases n,
{
    if n < 10 {
        seq![digit_char(n)]
    } else {
        decimal(n / 10).push(digit_char(n % 10))
    }
}

/// The text, `None` where there is none.
pub open spec fn opt_text(s: Option<String>) -> Option<Seq<char>> {
    match s {
        Some(t) => Some(t@),
        None => None,
    }
}

/// The text of each string of a list.
pub open spec fn texts(list: Seq<String>) -> Seq<Seq<char>> {
    list.map_values(|s: String| s@)
}

/// The digit `d` as a string.
fn digit(d: u64) -> (r: &'static str)
    requires
        d < 10,
    ensures
        r@ == seq![digit_char(d as nat)],
{
    proof {
        reveal_strlit("0");
        reveal_strlit("1");
        reveal_strlit("2");
        reveal_strlit("3");
        reveal_strlit("4");
        reveal_strlit("5");
        reveal_strlit("6");
        reveal_strlit("7");
        reveal_strlit("8");
        reveal_strlit("9");
    }
    let r = match d {
        0 => "0",
        1 => "1",
        2 => "2",
        3 => "3",
        4 => "4",
        5 => "5",
        6 => "6",
        7 => "7",
        8 => "8",
        _ => "9",
    };
    assert(r@ =~= seq![digit_char(d as nat)]);
    r
}

/// Appends the decimal notation of `n`.
pub fn append_decimal(out: &mut String, n: u64)
    ensures
        final(out)@ == old(out)@ + decimal(n as nat),
    decreases n,
{
    if n >= 10 {
        append_decimal(out, n / 10);
    }
    out.append(digit(n % 10));
    assert(out@ =~= old(out)@ + decimal(n as nat));
}

/// Tells whether two texts are the same.
pub fn same_text(a: &str, b: &str) -> (r: bool)
    ensures
        r == (a@ == b@),
{
    a.to_owned() == b.to_owned()
}

/// The characters with Unicode's `White_Space` property.
pub open spec fn is_white_space(c: char) -> bool {
    let n = c as u32;
    ||| 0x09 <= n <= 0x0d
    ||| n == 0x20
    ||| n == 0x85
    ||| n == 0xa0
    ||| n == 0x1680
    ||| 0x2000 <= n <= 0x200a
    ||| n == 0x2028
    ||| n == 0x2029
    ||| n == 0x202f
    ||| n == 0x205f
    ||| n == 0x3000
}

/// `s` without the white space it starts with.
pub open spec fn trim_start(s: Seq<char>) -> Seq<char>
    decreases s.len(),
{
    if s.len() > 0 && is_white_space(s.first()) {
        trim_start(s.drop_first())
    } else {
        s
    }
}

/// `s` without the white space it ends with.
pub open spec fn trim_end(s: Seq<char>) -> Seq<char>
    decreases s.len(),
{
    if s.len() > 0 && is_white_space(s.last()) {
        trim_end(s.drop_last())
    } else {
        s
    }
}

/// `s` without the white space at its two ends.
pub open spec fn trimmed(s: Seq<char>) -> Seq<char> {
    trim_end(trim_start(s))
}

/// Tells whether `c` is white space.
fn white_space(c: char) -> (r: bool)
    ensures
        r == is_white_space(c),
{
    let n: u32 = c as u32;
    (0x09 <= n && n <= 0x0d) || n == 0x20 || n == 0x85 || n == 0xa0 || n == 0x1680 || (0x2000 <= n
        && n <= 0x200a) || n == 0x2028 || n == 0x2029 || n == 0x202f || n == 0x205f || n == 0x3000
}

/// Strips the white space at the two ends of `s`.
pub fn trim(s: &str) -> (r: &str)
    ensures
        r@ == trimmed(s@),
{
    let len: usize = s.unicode_len();
    let mut start: usize = 0;
    assert(s@.subrange(0, len as int) =~= s@);
    while start < len && white_space(s.get_char(start))
        invariant
            start <= len == s@.len(),
            trim_start(s@.subrange(start as int, len as int)) == trim_start(s@),
        decreases len - start,
    {
        assert(s@.subrange(start as int, len as int).drop_first() =~= s@.subrange(
            start + 1,
            len as int,
        ));
        start = start + 1;
    }
    let mut end: usize = len;
    while end > start && white_space(s.get_char(end - 1))
        invariant
            start <= end <= len == s@.len(),
            trim_end(s@.subrange(start as int, end as int)) == trimmed(s@),
        decreases end - start,
    {
        assert(s@.subrange(start as int, end as int).drop_last() =~= s@.subrange(
            start as int,
            end - 1,
        ));
        end = end - 1;
    }
    s.substring_char(start, end)
}

/// The index behind the last `/` of `path`, or 0 where it has none.
pub open spec fn behind_last_slash(path: Seq<char>) -> int
    decreases path.len(),
{
    if path.len() == 0 || path.last() == '/' {
        path.len() as int
    } else {
        behind_last_slash(path.drop_last())
    }
}

/// The final component of `path`. Empty components and `.` are passed over; there is no
/// name where nothing is left, or where the path ends in `..`.
pub open spec fn file_name_of(path: Seq<char>) -> Option<Seq<char>>
    decreases path.len(),
{
    let start = behind_last_slash(path);
    let piece = path.subrange(start, path.len() as int);
    if piece.len() == 0 || piece == "."@ {
        if start == 0 {
            None
        } else {
            proof {
                lemma_behind_last_slash(path);
            }
            file_name_of(path.subrange(0, start - 1))
        }
    } else if piece == ".."@ {
        None
    } else {
        Some(piece)
    }
}

/// The last `/` lies within the path.
pub proof fn lemma_behind_last_slash(path: Seq<char>)
    ensures
        0 <= behind_last_slash(path) <= path.len(),
    decreases path.len(),
{
    if path.len() > 0 && path.last() != '/' {
        lemma_behind_last_slash(path.drop_last());
    }
}

/// The final component of `path`, if it has one.
pub fn file_name(path: &str) -> (r: Option<&str>)
    ensures
        match r {
            Some(name) => file_name_of(path@) == Some(name@),
            None => file_name_of(path@) is None,
        },
{
    let mut end: usize = path.unicode_len();
    assert(path@.subrange(0, end as int) =~= path@);
    loop
        invariant
            end <= path@.len(),
            file_name_of(path@.subrange(0, end as int)) == file_name_of(path@),
        decreases end,
    {
        let mut start: usize = end;
        let ghost whole = path@.subrange(0, end as int);
        proof {
            lemma_behind_last_slash(whole);
        }
        while start > 0 && path.get_char(start - 1) != '/'
            invariant
                start <= end <= path@.len(),
                behind_last_slash(path@.subrange(0, start as int)) == behind_last_slash(
                    path@.subrange(0, end as int),
                ),
            decreases start,
        {
            assert(path@.subrange(0, start as int).drop_last() =~= path@.subrange(0, start - 1));
            start = start - 1;
        }
        let piece = path.substring_char(start, end);
        assert(whole.subrange(start as int, end as int) =~= piece@);
        if start == end || same_text(piece, ".") {
            if start == 0 {
                return None;
            }
            assert(whole.subrange(0, start - 1) =~= path@.subrange(0, start - 1));
            end = start - 1;
        } else if same_text(piece, "..") {
            return None;
        } else {
            return Some(piece);
        }
    }
}

/// `text` without `prefix`, where it starts with it.
pub open spec fn without_prefix(text: Seq<char>, prefix: Seq<char>) -> Option<Seq<char>> {
    if prefix.is_prefix_of(text) {
        Some(text.subrange(prefix.len() as int, text.len() as int))
    } else {
        None
    }
}

/// Strips `prefix` from the start of `text`.
pub fn strip_prefix<'a>(text: &'a str, prefix: &str) -> (r: Option<&'a str>)
    ensures
        match r {
            Some(rest) => without_prefix(text@, prefix@) == Some(rest@),
            None => without_prefix(text@, prefix@) is None,
        },
{
    let len: usize = text.unicode_len();
    let n: usize = prefix.unicode_len();
    if n > len || !same_text(text.substring_char(0, n), prefix) {
        return None;
    }
    Some(text.substring_char(n, len))
}

/// The text in lower case, as Unicode defines it.
pub uninterp spec fn lowercase(s: Seq<char>) -> Seq<char>;

/// The lower-case form of an ASCII character.
pub open spec fn ascii_lowercase(c: char) -> char {
    if 'A' <= c <= 'Z' {
        (c as u32 + 32) as char
    } else {
        c
    }
}

/// `str::to_lowercase` of std: the lower-case equivalent of the text. Of a text in ASCII
/// it lowers the letters `A` to `Z` and keeps everything else.
#[verifier::external_body]
pub(crate) fn to_lowercase(s: &str) -> (r: String)
    ensures
        r@ == lowercase(s@),
        s.is_ascii() ==> r@ == s@.map_values(|c: char| ascii_lowercase(c)),
{
    s.to_lowercase()
}

/// The characters `0` to `9`.
pub open spec fn is_digit(c: char) -> bool {
    '0' <= c <= '9'
}

/// What follows an optional `+` sign.
pub open spec fn behind_plus(s: Seq<char>) -> Seq<char> {
    if s.len() > 0 && s[0] == '+' {
        s.drop_first()
    } else {
        s
    }
}

/// The number that a sequence of decimal digits denotes.
pub open spec fn digits_value(s: Seq<char>) -> nat
    decreases s.len(),
{
    if s.len() == 0 {
        0
    } else {
        digits_value(s.drop_last()) * 10 + (s.last() as nat - 48) as nat
    }
}

/// `s` is an optional `+` sign and decimal digits that denote a number of 64 bits.
pub open spec fn denotes_u64(s: Seq<char>) -> bool {
    &&& behind_plus(s).len() > 0
    &&& forall|i: int| 0 <= i < behind_plus(s).len() ==> is_digit(#[trigger] behind_plus(s)[i])
    &&& digits_value(behind_plus(s)) <= u64::MAX
}

/// What std says of a text that denotes no number of 64 bits.
pub uninterp spec fn u64_error_text(s: Seq<char>) -> Seq<char>;

/// `str::parse::<u64>` of std: the number, where the text is an optional `+` sign followed
/// by nothing but decimal digits, and the number fits; the error's message otherwise.
#[verifier::external_body]
pub(crate) fn parse_u64(s: &str) -> (r: Result<u64, String>)
    ensures
        r is Ok <==> denotes_u64(s@),
        r matches Ok(n) ==> n == digits_value(behind_plus(s@)),
        r matches Err(text) ==> text@ == u64_error_text(s@),
{
    match s.parse::<u64>() {
        Ok(n) => Ok(n),
        Err(e) => Err(e.to_string()),
    }
}

} // verus!
