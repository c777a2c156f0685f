//! Text as the rest of the library builds and cuts it: decimal numbers, joined
//! parts, line ends and copies of bytes.
use vstd::prelude::*;
use vstd::string::{StrSliceExecFns, StringExecFns};

verus! {

/// The decimal digit for `d`.
pub open spec fn digit(d: int) -> char {
    ('0' as int + d) as char
}

/// `n` in decimal, without leading zeros.
pub open spec fn decimal(n: nat) -> Seq<char>
    decreases n,
{
    if n < 10 {
        seq![digit(n as int)]
    } else {
        decimal(n / 10).push(digit((n % 10) as int))
    }
}

/// `n` in decimal, with a minus sign where it is negative.
pub open spec fn signed_decimal(n: int) -> Seq<char> {
    if n < 0 {
        seq!['-'] + decimal((-n) as nat)
    } else {
        decimal(n as nat)
    }
}

fn digit_text(d: u64) -> (text: &'static str)
    requires
        d < 10,
    ensures
        text@ =~= seq![digit(d as int)],
{
    proof {
        reveal_strlit("0");
        reveal_strlit("1");
        reveal_strlit("2");
        reveal_strlit("3");
        reveal_strlit("4");
        reveal_strlit("5");
        reveal_strlit("6");
        reveal_strlit("7");
        reveal_strlit("8");
        reveal_strlit("9");
    }
    match d {
        0 => "0",
        1 => "1",
        2 => "2",
        3 => "3",
        4 => "4",
        5 => "5",
        6 => "6",
        7 => "7",
        8 => "8",
        _ => "9",
    }
}

/// Writes `n` in decimal.
pub fn decimal_text(n: u64) -> (text: String)
    ensures
        text@ == decimal(n as nat),
    decreases n,
{
    let last = digit_text(n % 10);
    if n < 10 {
        last.to_string()
    } else {
        let text = decimal_text(n / 10).concat(last);
        assert(text@ =~= decimal((n / 10) as nat).push(digit((n % 10) as int)));
        text
    }
}

/// Writes `n` in decimal, with a minus sign where it is negative.
pub fn signed_decimal_text(n: i32) -> (text: String)
    ensures
        text@ == signed_decimal(n as int),
{
    let wide: i64 = n as i64;
    if wide < 0 {
        proof {
            reveal_strlit("-");
        }
        let size: u64 = (-wide) as u64;
        let text = "-".to_string().concat(decimal_text(size).as_str());
        assert(text@ =~= seq!['-'] + decimal(size as nat));
        text
    } else {
        decimal_text(wide as u64)
    }
}

/// What each of several texts says.
pub open spec fn texts(list: Seq<String>) -> Seq<Seq<char>> {
    list.map_values(|text: String| text@)
}

/// The parts in order, with `between` between each two neighbours.
pub open spec fn joined(parts: Seq<Seq<char>>, between: Seq<char>) -> Seq<char>
    decreases parts.len(),
{
    if parts.len() == 0 {
        Seq::empty()
    } else if parts.len() == 1 {
        parts[0]
    } else {
        joined(parts.drop_last(), between) + between + parts.last()
    }
}

/// Joins `parts` with `between` between each two neighbours.
pub fn join(parts: &Vec<String>, between: &str) -> (text: String)
    ensures
        text@ == joined(texts(parts@), between@),
{
    let mut text = String::new();
    let ghost all = texts(parts@);
    let mut i: usize = 0;
    while i < parts.len()
        invariant
            i <= parts.len(),
            all == texts(parts@),
            text@ == joined(all.take(i as int), between@),
        decreases parts.len() - i,
    {
        proof {
            assert(all.take(i + 1).drop_last() =~= all.take(i as int));
            assert(all.take(i + 1).last() == parts[i as int]@);
        }
        if i > 0 {
            text.append(between);
        }
        text.append(parts[i].as_str());
        assert(i == 0 ==> text@ =~= parts[i as int]@);
        i = i + 1;
    }
    assert(all.take(i as int) =~= all);
    text
}

/// Whether `c` ends a line on the wire.
pub open spec fn ends_line(c: char) -> bool {
    c == '\r' || c == '\n'
}

/// `line` without the line ends that it closes with, however many.
pub open spec fn without_line_end(line: Seq<char>) -> Seq<char>
    decreases line.len(),
{
    if line.len() > 0 && ends_line(line.last()) {
        without_line_end(line.drop_last())
    } else {
        line
    }
}

/// Cuts off the line ends that `line` closes with.
pub fn trim_line_end(line: &str) -> (text: &str)
    ensures
        text@ == without_line_end(line@),
{
    let mut end: usize = line.unicode_len();
    assert(line@.take(end as int) =~= line@);
    while end > 0
        invariant_except_break
            end <= line@.len(),
            without_line_end(line@.take(end as int)) == without_line_end(line@),
        ensures
            end <= line@.len(),
            line@.take(end as int) == without_line_end(line@),
        decreases end,
    {
        let c = line.get_char(end - 1);
        assert(line@.take(end as int).last() == c);
        if c != '\r' && c != '\n' {
            break;
        }
        assert(line@.take(end as int).drop_last() =~= line@.take(end - 1));
        end = end - 1;
    }
    let text = line.substring_char(0, end);
    assert(text@ =~= line@.take(end as int));
    text
}

/// Copies `bytes`.
pub fn copy_bytes(bytes: &Vec<u8>) -> (copy: Vec<u8>)
    ensures
        copy@ == bytes@,
{
    vstd::slice::slice_to_vec(bytes.as_slice())
}

/// Copies the texts of `list` from the place `from` on.
pub fn copy_texts(list: &Vec<String>, from: usize) -> (copy: Vec<String>)
    requires
        from <= list.len(),
    ensures
        texts(copy@) == texts(list@).skip(from as int),
{
    let mut copy: Vec<String> = Vec::new();
    let mut i: usize = from;
    while i < list.len()
        invariant
            from <= i <= list.len(),
            copy.len() == i - from,
            forall|j: int| 0 <= j < copy.len() ==> #[trigger] copy@[j] == list@[from + j],
        decreases list.len() - i,
    {
        copy.push(list[i].clone());
        i = i + 1;
    }
    assert(texts(copy@) =~= texts(list@).skip(from as int));
    copy
}

/// Whether two runs of bytes are the same.
pub fn same_bytes(one: &Vec<u8>, other: &Vec<u8>) -> (same: bool)
    ensures
        same == (one@ == other@),
{
    if one.len() != other.len() {
        return false;
    }
    let mut i: usize = 0;
    while i < one.len()
        invariant
            i <= one.len(),
            one.len() == other.len(),
            forall|j: int| 0 <= j < i ==> one@[j] == other@[j],
        decreases one.len() - i,
    {
        if one[i] != other[i] {
            return false;
        }
        i = i + 1;
    }
    assert(one@ =~= other@);
    true
}

/// The number that a row of decimal digits stands for.
pub open spec fn number(digits: Seq<char>) -> int
    decreases digits.len(),
{
    if digits.len() == 0 {
        0
    } else {
        number(digits.drop_last()) * 10 + (digits.last() as int - '0' as int)
    }
}

/// A number is written in decimal digits that stand for exactly it, without leading zeros.
pub proof fn law_a_decimal_stands_for_its_number(n: nat)
    ensures
        number(decimal(n)) == n,
        decimal(n).len() > 0,
        forall|i: int| 0 <= i < decimal(n).len() ==> '0' <= #[trigger] decimal(n)[i] <= '9',
        decimal(n).len() > 1 ==> decimal(n)[0] != '0',
    decreases n,
{
    reveal_with_fuel(number, 2);
    if n < 10 {
        assert(decimal(n).drop_last() =~= Seq::empty());
    } else {
        law_a_decimal_stands_for_its_number(n / 10);
        assert(decimal(n).drop_last() =~= decimal(n / 10));
        if n / 10 < 10 {
            assert(decimal(n)[0] == digit((n / 10) as int));
        } else {
            assert(decimal(n / 10).len() > 1) by {
                law_a_decimal_stands_for_its_number((n / 10) / 10);
            }
            assert(decimal(n)[0] == decimal(n / 10)[0]);
        }
    }
}

/// A number below zero is written as a minus sign and what it is short of zero, and any other as
/// it is.
pub proof fn law_a_minus_sign_stands_before_what_is_below_zero(n: int)
    ensures
        n < 0 <==> signed_decimal(n)[0] == '-',
        n < 0 ==> number(signed_decimal(n).drop_first()) == -n && signed_decimal(n).drop_first()
            == decimal((-n) as nat),
        n >= 0 ==> number(signed_decimal(n)) == n && signed_decimal(n) == decimal(n as nat),
{
    if n < 0 {
        assert(signed_decimal(n).drop_first() =~= decimal((-n) as nat));
        law_a_decimal_stands_for_its_number((-n) as nat);
    } else {
        law_a_decimal_stands_for_its_number(n as nat);
        assert('0' <= decimal(n as nat)[0]);
    }
}

/// Joining one part gives that part, and joining two rows of parts gives what each row joins to,
/// with what goes between between them.
pub proof fn law_parts_are_joined_in_order(
    one: Seq<Seq<char>>,
    other: Seq<Seq<char>>,
    part: Seq<char>,
    between: Seq<char>,
)
    ensures
        joined(Seq::empty(), between) == Seq::<char>::empty(),
        joined(seq![part], between) == part,
        one.len() > 0 && other.len() > 0 ==> joined(one + other, between) == joined(one, between)
            + between + joined(other, between),
    decreases other.len(),
{
    if one.len() > 0 && other.len() > 0 {
        assert((one + other).drop_last() =~= one + other.drop_last());
        assert((one + other).last() == other.last());
        if other.len() == 1 {
            assert(one + other.drop_last() =~= one);
        } else {
            law_parts_are_joined_in_order(one, other.drop_last(), part, between);
            assert(joined(one + other, between) =~= joined(one, between) + between + joined(
                other,
                between,
            ));
        }
    }
}

/// Cutting off the line ends that a line closes with leaves all that stands before them: what is
/// left is the line's beginning, closes with no line end, and only line ends are gone.
pub proof fn law_only_closing_line_ends_are_cut_off(line: Seq<char>)
    ensures
        without_line_end(line).len() <= line.len(),
        without_line_end(line) == line.take(without_line_end(line).len() as int),
        without_line_end(line).len() > 0 ==> without_line_end(line).last() != '\r'
            && without_line_end(line).last() != '\n',
        forall|i: int|
            without_line_end(line).len() <= i < line.len() ==> (#[trigger] line[i]) == '\r'
                || line[i] == '\n',
    decreases line.len(),
{
    if line.len() > 0 && ends_line(line.last()) {
        let shorter = line.drop_last();
        law_only_closing_line_ends_are_cut_off(shorter);
        assert(without_line_end(line) =~= line.take(without_line_end(line).len() as int));
        assert forall|i: int| without_line_end(line).len() <= i < line.len() implies (
        #[trigger] line[i]) == '\r' || line[i] == '\n' by {
            if i < line.len() - 1 {
                assert(line[i] == shorter[i]);
            }
        }
    } else {
        assert(line =~= line.take(line.len() as int));
    }
}

} // verus!
