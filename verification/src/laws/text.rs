//! What holds of texts: numerals, trimmed lines, paths.

use vstd::arithmetic::power::{lemma_pow0, lemma_pow_positive, pow};
use vstd::prelude::*;

use crate::device::{size_in_line, sysfs_path};
use crate::error::ErrorView;
use crate::mkswap::device_name;
use crate::text::{
    ascii_lowercase, behind_last_slash, behind_plus, decimal, denotes_u64, digits_value,
    file_name_of, is_digit, is_white_space, trim_end, trim_start, trimmed, u64_error_text,
    without_prefix,
};

verus! {

/// The sum of the digits of a numeral, each times the power of ten of its place.
pub open spec fn numeral(s: Seq<char>) -> int
    decreases s.len(),
{
    if s.len() == 0 {
        0
    } else {
        (s[0] as int - 48) * pow(10, (s.len() - 1) as nat) + numeral(s.drop_first())
    }
}

/// Nothing but digits, and at least one.
pub open spec fn all_digits(s: Seq<char>) -> bool {
    s.len() > 0 && forall|i: int| 0 <= i < s.len() ==> '0' <= #[trigger] s[i] <= '9'
}

/// `s` is how a person writes `n`: digits without a needless zero in front.
pub open spec fn spells(s: Seq<char>, n: int) -> bool {
    &&& all_digits(s)
    &&& s.len() > 1 ==> s[0] != '0'
    &&& numeral(s) == n
}

/// One more digit is worth its value and ten times what stands before it.
proof fn lemma_numeral_push(s: Seq<char>, c: char)
    ensures
        numeral(s.push(c)) == numeral(s) * 10 + (c as int - 48),
    decreases s.len(),
{
    if s.len() == 0 {
        lemma_pow0(10);
        assert(s.push(c).drop_first() =~= Seq::empty());
        reveal_with_fuel(numeral, 2);
        assert((c as int - 48) * 1 == c as int - 48);
    } else {
        assert(s.push(c).drop_first() =~= s.drop_first().push(c));
        lemma_numeral_push(s.drop_first(), c);
        let d = s[0] as int - 48;
        let p = pow(10, (s.len() - 1) as nat);
        reveal(pow);
        assert(pow(10, s.len()) == 10 * p);
        assert(d * (10 * p) == (d * p) * 10) by (nonlinear_arith);
    }
}

/// The value of digits is that of the numeral that they are.
pub proof fn law_digits_have_their_place(s: Seq<char>)
    requires
        forall|i: int| 0 <= i < s.len() ==> '0' <= #[trigger] s[i] <= '9',
    ensures
        digits_value(s) == numeral(s),
    decreases s.len(),
{
    if s.len() > 0 {
        let t = s.drop_last();
        assert(s =~= t.push(s.last()));
        assert forall|i: int| 0 <= i < t.len() implies '0' <= #[trigger] t[i] <= '9' by {
            assert(s[i] == t[i]);
        }
        law_digits_have_their_place(t);
        lemma_numeral_push(t, s.last());
    }
}

/// Every number is written as a person writes it.
pub proof fn law_decimal_spells(n: nat)
    ensures
        spells(decimal(n), n as int),
    decreases n,
{
    assert(numeral(Seq::empty()) == 0);
    if n < 10 {
        lemma_numeral_push(Seq::empty(), decimal(n).last());
        assert(decimal(n) =~= Seq::empty().push(decimal(n).last()));
    } else {
        let front = decimal(n / 10);
        law_decimal_spells(n / 10);
        lemma_numeral_push(front, decimal(n).last());
        assert forall|i: int| 0 <= i < decimal(n).len() implies '0' <= #[trigger] decimal(n)[i]
            <= '9' by {
            if i < front.len() {
                assert(decimal(n)[i] == front[i]);
            }
        }
        if front.len() == 1 {
            lemma_numeral_push(Seq::empty(), front[0]);
            assert(front =~= Seq::empty().push(front[0]));
        }
        assert(decimal(n)[0] == front[0]);
    }
}

/// There is one way to write a number.
pub proof fn law_one_numeral(s: Seq<char>, n: nat)
    requires
        spells(s, n as int),
    ensures
        s == decimal(n),
    decreases s.len(),
{
    let t = s.drop_last();
    assert(s =~= t.push(s.last()));
    lemma_numeral_push(t, s.last());
    assert forall|i: int| 0 <= i < t.len() implies '0' <= #[trigger] t[i] <= '9' by {
        assert(s[i] == t[i]);
    }
    if t.len() > 0 {
        lemma_leading_digit(t);
        law_one_numeral(t, (n / 10) as nat);
    } else {
        assert(s =~= decimal(n));
    }
}

/// A numeral that starts with a digit other than zero stands for a positive number, and no
/// numeral for a negative one.
proof fn lemma_leading_digit(s: Seq<char>)
    requires
        forall|i: int| 0 <= i < s.len() ==> '0' <= #[trigger] s[i] <= '9',
    ensures
        numeral(s) >= 0,
        s.len() > 0 && s[0] != '0' ==> numeral(s) > 0,
    decreases s.len(),
{
    if s.len() > 0 {
        let t = s.drop_first();
        assert forall|i: int| 0 <= i < t.len() implies '0' <= #[trigger] t[i] <= '9' by {
            assert(s[i + 1] == t[i]);
        }
        lemma_leading_digit(t);
        lemma_pow_positive(10, (s.len() - 1) as nat);
        let d = s[0] as int - 48;
        let p = pow(10, (s.len() - 1) as nat);
        assert(d * p >= 0 && (d > 0 ==> d * p > 0)) by (nonlinear_arith)
            requires
                d >= 0,
                p > 0,
        ;
    }
}

/// White space is the tab, the line feed and the three characters behind it, the space, and the
/// characters that Unicode counts among them beyond ASCII.
pub proof fn law_white_space(c: char)
    ensures
        is_white_space(c) <==> {
            ||| '\t' <= c <= '\r'
            ||| c == ' '
            ||| c == '\u{85}' || c == '\u{a0}' || c == '\u{1680}'
            ||| '\u{2000}' <= c <= '\u{200a}'
            ||| c == '\u{2028}' || c == '\u{2029}' || c == '\u{202f}'
            ||| c == '\u{205f}' || c == '\u{3000}'
        },
{
}

/// Nothing but white space.
pub open spec fn blank(s: Seq<char>) -> bool {
    forall|i: int| 0 <= i < s.len() ==> is_white_space(#[trigger] s[i])
}

/// Trimming takes away the white space around a text, and nothing of the text.
pub proof fn law_trimming_keeps_the_text(before: Seq<char>, text: Seq<char>, behind: Seq<char>)
    requires
        blank(before),
        blank(behind),
        text.len() > 0 ==> !is_white_space(text.first()) && !is_white_space(text.last()),
    ensures
        trimmed(before + text + behind) == text,
{
    lemma_trim_start(before, text + behind);
    assert(before + text + behind =~= before + (text + behind));
    if text.len() > 0 {
        assert(trim_start(text + behind) == text + behind);
        lemma_trim_end(text, behind);
    } else {
        lemma_trim_start(behind, Seq::empty());
        assert(behind + Seq::empty() =~= behind);
        assert(text + behind =~= behind);
        assert(trimmed(before + text + behind) =~= text);
    }
}

/// White space in front does not count when the front is trimmed.
proof fn lemma_trim_start(before: Seq<char>, rest: Seq<char>)
    requires
        blank(before),
    ensures
        trim_start(before + rest) == trim_start(rest),
    decreases before.len(),
{
    if before.len() == 0 {
        assert(before + rest =~= rest);
    } else {
        let t = before.drop_first();
        assert forall|i: int| 0 <= i < t.len() implies is_white_space(#[trigger] t[i]) by {
            assert(before[i + 1] == t[i]);
        }
        lemma_trim_start(t, rest);
        assert((before + rest).drop_first() =~= t + rest);
        assert(is_white_space(before[0]));
    }
}

/// White space behind does not count when the end is trimmed.
proof fn lemma_trim_end(rest: Seq<char>, behind: Seq<char>)
    requires
        blank(behind),
    ensures
        trim_end(rest + behind) == trim_end(rest),
    decreases behind.len(),
{
    if behind.len() == 0 {
        assert(rest + behind =~= rest);
    } else {
        let t = behind.drop_last();
        assert forall|i: int| 0 <= i < t.len() implies is_white_space(#[trigger] t[i]) by {
            assert(behind[i] == t[i]);
        }
        lemma_trim_end(rest, t);
        assert((rest + behind).drop_last() =~= rest + t);
        assert(is_white_space(behind[behind.len() - 1]));
    }
}

/// A prefix is stripped where it is there, and only there.
pub proof fn law_prefix_is_stripped(text: Seq<char>, prefix: Seq<char>, rest: Seq<char>)
    ensures
        without_prefix(prefix + rest, prefix) == Some(rest),
        without_prefix(text, prefix) matches Some(r) ==> text == prefix + r,
{
    assert(prefix.is_prefix_of(prefix + rest));
    assert((prefix + rest).subrange(prefix.len() as int, (prefix + rest).len() as int) =~= rest);
    if without_prefix(text, prefix) is Some {
        assert(text =~= prefix + without_prefix(text, prefix)->0);
    }
}

/// The letters of ASCII have their lower case 32 places on; no other character changes.
pub proof fn law_ascii_lowercase(c: char)
    ensures
        'A' <= c <= 'Z' ==> 'a' <= ascii_lowercase(c) <= 'z' && ascii_lowercase(c) as int
            == c as int + 32,
        !('A' <= c <= 'Z') ==> ascii_lowercase(c) == c,
{
}

/// A piece of a path between two slashes.
pub open spec fn no_slash(s: Seq<char>) -> bool {
    forall|i: int| 0 <= i < s.len() ==> #[trigger] s[i] != '/'
}

/// What may stand behind the last component of a path: slashes, and single dots behind slashes.
pub open spec fn idle(t: Seq<char>) -> bool {
    forall|i: int|
        0 <= i < t.len() ==> #[trigger] t[i] == '/' || (t[i] == '.' && i > 0 && t[i - 1] == '/')
}

/// What may stand before a component of a path: nothing, or something that ends in a slash.
pub open spec fn leads_up(prefix: Seq<char>) -> bool {
    prefix.len() == 0 || prefix.last() == '/'
}

/// The last slash stands before a piece without one.
proof fn lemma_slash(prefix: Seq<char>, piece: Seq<char>)
    requires
        leads_up(prefix),
        no_slash(piece),
    ensures
        behind_last_slash(prefix + piece) == prefix.len(),
    decreases piece.len(),
{
    if piece.len() == 0 {
        assert(prefix + piece =~= prefix);
    } else {
        let t = piece.drop_last();
        assert forall|i: int| 0 <= i < t.len() implies #[trigger] t[i] != '/' by {
            assert(piece[i] == t[i]);
        }
        lemma_slash(prefix, t);
        assert((prefix + piece).drop_last() =~= prefix + t);
        assert(piece[piece.len() - 1] != '/');
    }
}

/// What is idle behind a path does not change its name.
proof fn lemma_idle(base: Seq<char>, tail: Seq<char>)
    requires
        idle(tail),
    ensures
        file_name_of(base + tail) == file_name_of(base),
    decreases tail.len(),
{
    let path = base + tail;
    if tail.len() == 0 {
        assert(path =~= base);
    } else if tail.last() == '/' {
        let t = tail.drop_last();
        assert forall|i: int| 0 <= i < t.len() implies #[trigger] t[i] == '/' || (t[i] == '.' && i
            > 0 && t[i - 1] == '/') by {
            assert(tail[i] == t[i]);
        }
        lemma_idle(base, t);
        assert(path.subrange(0, path.len() - 1) =~= base + t);
    } else {
        assert(tail[tail.len() - 1] == '.');
        let t = tail.drop_last().drop_last();
        assert forall|i: int| 0 <= i < t.len() implies #[trigger] t[i] == '/' || (t[i] == '.' && i
            > 0 && t[i - 1] == '/') by {
            assert(tail[i] == t[i]);
        }
        lemma_idle(base, t);
        let front = base + tail.drop_last();
        reveal_strlit(".");
        assert(path =~= front + "."@);
        assert(tail.drop_last().last() == '/');
        lemma_slash(front, "."@);
        assert(path.subrange(front.len() as int, path.len() as int) =~= "."@);
        assert(path.subrange(0, front.len() - 1) =~= base + t);
    }
}

/// The last component of a path is its name, whatever leads up to it, and whatever slashes and
/// single dots stand behind it. A device is named by it.
pub proof fn law_last_component_is_the_name(
    prefix: Seq<char>,
    name: Seq<char>,
    tail: Seq<char>,
)
    requires
        leads_up(prefix),
        no_slash(name),
        name.len() > 0,
        name != seq!['.'],
        name != seq!['.', '.'],
        idle(tail),
    ensures
        file_name_of(prefix + name + tail) == Some(name),
        device_name(prefix + name + tail) == name,
{
    lemma_idle(prefix + name, tail);
    lemma_slash(prefix, name);
    let path = prefix + name;
    assert(path.subrange(prefix.len() as int, path.len() as int) =~= name);
    reveal_strlit(".");
    reveal_strlit("..");
    assert("."@ =~= seq!['.']);
    assert(".."@ =~= seq!['.', '.']);
}

/// A path that is empty, a single dot, or ends in two dots has no name, whatever slashes and
/// single dots stand behind. A device with such a path is named by the path without `/dev/`, or
/// else by the path.
pub proof fn law_some_paths_have_no_name(
    prefix: Seq<char>,
    base: Seq<char>,
    tail: Seq<char>,
    rest: Seq<char>,
)
    requires
        leads_up(prefix),
        base == Seq::<char>::empty() || base == seq!['.'] || base == prefix + seq!['.', '.'],
        idle(tail),
    ensures
        file_name_of(base + tail) is None,
        base + tail == "/dev/"@ + rest ==> device_name(base + tail) == rest,
        !("/dev/"@.is_prefix_of(base + tail)) ==> device_name(base + tail) == base + tail,
{
    lemma_idle(base, tail);
    reveal_strlit(".");
    reveal_strlit("..");
    assert("."@ =~= seq!['.']);
    assert(".."@ =~= seq!['.', '.']);
    if base == prefix + seq!['.', '.'] {
        lemma_slash(prefix, ".."@);
        assert(base.subrange(prefix.len() as int, base.len() as int) =~= ".."@);
    } else if base == seq!['.'] {
        lemma_slash(Seq::empty(), "."@);
        assert(base =~= Seq::empty() + "."@);
        assert(base.subrange(0, base.len() as int) =~= "."@);
    }
    law_prefix_is_stripped(base + tail, "/dev/"@, rest);
}

/// The size of a block device stands in a file of the system that is named by the device.
pub proof fn law_size_file(devname: Seq<char>)
    ensures
        sysfs_path(devname) == "/sys/class/block/"@ + devname + "/size"@,
{
}

/// A line with a number of sectors, which may have white space around it, a plus sign in front
/// and any number of zeros, is read as 512 times as many bytes; more than 64 bits can count are
/// refused.
pub proof fn law_sectors_are_read(
    devname: Seq<char>,
    before: Seq<char>,
    plus: bool,
    digits: Seq<char>,
    behind: Seq<char>,
)
    requires
        blank(before),
        blank(behind),
        all_digits(digits),
    ensures
        ({
            let number = if plus {
                seq!['+'] + digits
            } else {
                digits
            };
            let n = numeral(digits);
            size_in_line(devname, before + number + behind) == if n > u64::MAX {
                Err::<u64, ErrorView>(
                    ErrorView::IoError {
                        msg: "Invalid size value for block device "@ + devname + ": "@
                            + u64_error_text(number),
                    },
                )
            } else if n * 512 > u64::MAX {
                Err(ErrorView::IoError { msg: "Unable to determine size of block device"@ })
            } else {
                Ok((n * 512) as u64)
            }
        }),
{
    let number = if plus {
        seq!['+'] + digits
    } else {
        digits
    };
    assert(digits[digits.len() - 1] <= '9');
    assert(digits[0] <= '9');
    assert(number.last() == digits.last());
    law_trimming_keeps_the_text(before, number, behind);
    law_digits_have_their_place(digits);
    lemma_leading_digit(digits);
    assert(behind_plus(number) =~= digits);
}

/// A line that holds anything else than white space around digits, with or without a plus sign
/// in front of them, is refused, and so is an empty one.
pub proof fn law_other_lines_are_refused(devname: Seq<char>, line: Seq<char>)
    ensures
        line.len() == 0 ==> size_in_line(devname, line) == Err::<u64, ErrorView>(
            ErrorView::IoError { msg: "empty size file for block device "@ + devname },
        ),
        line.len() > 0 && !all_digits(behind_plus(trimmed(line))) ==> size_in_line(devname, line)
            == Err::<u64, ErrorView>(
            ErrorView::IoError {
                msg: "Invalid size value for block device "@ + devname + ": "@ + u64_error_text(
                    trimmed(line),
                ),
            },
        ),
{
}

/// A numeral of 64 bits is an optional plus sign and digits whose number is not too large.
pub proof fn law_numerals_of_64_bits(s: Seq<char>)
    ensures
        denotes_u64(s) <==> {
            let digits = if s.len() > 0 && s[0] == '+' {
                s.skip(1)
            } else {
                s
            };
            all_digits(digits) && numeral(digits) <= u64::MAX
        },
        forall|c: char| #[trigger] is_digit(c) <==> '0' <= c <= '9',
{
    let digits = if s.len() > 0 && s[0] == '+' {
        s.skip(1)
    } else {
        s
    };
    assert(behind_plus(s) =~= digits);
    if all_digits(digits) {
        law_digits_have_their_place(digits);
    }
    if denotes_u64(s) {
        assert forall|i: int| 0 <= i < digits.len() implies '0' <= #[trigger] digits[i] <= '9' by {
            assert(is_digit(behind_plus(s)[i]));
        }
        assert(all_digits(digits));
    }
}

} // verus!
