//! Text built and read by the collectors and sinks.

use vstd::prelude::*;
use vstd::string::*;
use vstd::utf8::*;

verus! {

/// The decimal digit `d`, for `d` below ten.
pub open spec fn digit(d: nat) -> char {
    (48 + d) as char
}

/// `n` written in decimal, without leading zeros.
pub open spec fn decimal(n: nat) -> Seq<char>
    decreases n,
{
    if n < 10 {
        seq![digit(n)]
    } else {
        decimal(n / 10).push(digit(n % 10))
    }
}

/// `n` written in decimal, a minus sign in front where it is negative.
pub open spec fn signed_decimal(n: int) -> Seq<char> {
    if n < 0 {
        seq!['-'] + decimal((-n) as nat)
    } else {
        decimal(n as nat)
    }
}

/// The text of one digit.
fn digit_text(d: u64) -> (text: &'static str)
    requires
        d < 10,
    ensures
        text@ == seq![digit(d as nat)],
{
    proof {
        reveal_strlit("0");
        reveal_strlit("1");
        reveal_strlit("2");
        reveal_strlit("3");
        reveal_strlit("4");
        reveal_strlit("5");
        reveal_strlit("6");
        reveal_strlit("7");
        reveal_strlit("8");
        reveal_strlit("9");
    }
    match d {
        0 => "0",
        1 => "1",
        2 => "2",
        3 => "3",
        4 => "4",
        5 => "5",
        6 => "6",
        7 => "7",
        8 => "8",
        _ => "9",
    }
}

/// Writes `n` in decimal.
pub fn decimal_text(n: u64) -> (text: String)
    ensures
        text@ == decimal(n as nat),
    decreases n,
{
    if n < 10 {
        digit_text(n).to_owned()
    } else {
        let mut text: String = decimal_text(n / 10);
        text.append(digit_text(n % 10));
        text
    }
}

/// Writes `n` in decimal, with its sign where it is negative.
pub fn signed_decimal_text(n: i64) -> (text: String)
    ensures
        text@ == signed_decimal(n as int),
{
    if n < 0 {
        proof {
            reveal_strlit("-");
        }
        let mut text: String = "-".to_owned();
        let magnitude: u64 = (-(n + 1)) as u64 + 1;
        text.append(decimal_text(magnitude).as_str());
        text
    } else {
        decimal_text(n as u64)
    }
}

/// `first` followed by `second`.
pub fn joined(first: &str, second: &str) -> (text: String)
    ensures
        text@ == first@ + second@,
{
    let mut text: String = first.to_owned();
    text.append(second);
    text
}

/// The texts, `separator` between each and the next.
pub open spec fn joined_with(parts: Seq<Seq<char>>, separator: Seq<char>) -> Seq<char>
    decreases parts.len(),
{
    if parts.len() == 0 {
        Seq::empty()
    } else if parts.len() == 1 {
        parts[0]
    } else {
        joined_with(parts.drop_last(), separator) + separator + parts.last()
    }
}

/// The views of texts.
pub open spec fn views(parts: Seq<String>) -> Seq<Seq<char>> {
    parts.map_values(|part: String| part@)
}

/// The view of an optional text.
pub open spec fn view_of(value: Option<String>) -> Option<Seq<char>> {
    match value {
        Some(text) => Some(text@),
        None => None,
    }
}

/// Joins texts with a separator between each and the next.
pub fn join_with(parts: &Vec<String>, separator: &str) -> (text: String)
    ensures
        text@ == joined_with(views(parts@), separator@),
{
    let mut text: String = String::new();
    let mut i: usize = 0;
    while i < parts.len()
        invariant
            i <= parts@.len(),
            text@ == joined_with(views(parts@).take(i as int), separator@),
        decreases parts@.len() - i,
    {
        if i > 0 {
            text.append(separator);
        }
        text.append(parts[i].as_str());
        assert(views(parts@).take(i + 1).drop_last() =~= views(parts@).take(i as int));
        assert(text@ =~= joined_with(views(parts@).take(i + 1), separator@));
        i = i + 1;
    }
    assert(views(parts@).take(i as int) =~= views(parts@));
    text
}

/// The text that bytes hold, if they are text.
pub open spec fn bytes_text(bytes: Seq<u8>) -> Option<Seq<char>> {
    if valid_utf8(bytes) {
        Some(decode_utf8(bytes))
    } else {
        None
    }
}

/// `std::str::from_utf8`: a byte string is text exactly when it is valid UTF-8, and the text is
/// then the one that the bytes encode.
#[verifier::external_body]
pub(crate) fn utf8_text(bytes: &Vec<u8>) -> (text: Option<String>)
    ensures
        view_of(text) == bytes_text(bytes@),
{
    std::str::from_utf8(bytes).ok().map(String::from)
}

/// The text that `String::from_utf8_lossy` makes of a byte string.
pub uninterp spec fn lossy_text(bytes: Seq<u8>) -> Seq<char>;

/// The text to show for bytes: what they encode, or else text with replacements.
pub open spec fn shown_text(bytes: Seq<u8>) -> Seq<char> {
    match bytes_text(bytes) {
        Some(text) => text,
        None => lossy_text(bytes),
    }
}

/// `String::from_utf8_lossy`: bytes that are valid UTF-8 give the text that they encode, and any
/// bytes at all give some text. What stands for bytes that are not valid is left to the name.
#[verifier::external_body]
pub(crate) fn utf8_lossy_text(bytes: &Vec<u8>) -> (text: String)
    ensures
        text@ == lossy_text(bytes@),
        valid_utf8(bytes@) ==> text@ == decode_utf8(bytes@),
        bytes@.len() > 0 ==> text@.len() > 0,
{
    String::from_utf8_lossy(bytes).into_owned()
}

/// The number that decimal digits stand for.
pub open spec fn read_decimal(digits: Seq<char>) -> int
    decreases digits.len(),
{
    if digits.len() == 0 {
        0
    } else {
        10 * read_decimal(digits.drop_last()) + (digits.last() as int - '0' as int)
    }
}

/// A number written in decimal is made of digits, reads back as the number, and has no leading
/// zero.
pub proof fn decimals_read_back(n: nat)
    ensures
        decimal(n).len() > 0,
        forall|i: int| 0 <= i < decimal(n).len() ==> '0' <= #[trigger] decimal(n)[i] <= '9',
        read_decimal(decimal(n)) == n,
        decimal(n)[0] == '0' ==> n == 0 && decimal(n).len() == 1,
    decreases n,
{
    if n < 10 {
        assert(decimal(n).drop_last() =~= Seq::<char>::empty());
        assert(decimal(n).last() == digit(n));
        reveal_with_fuel(read_decimal, 2);
    } else {
        decimals_read_back(n / 10);
        assert(decimal(n).drop_last() =~= decimal(n / 10));
        assert(decimal(n).last() == digit(n % 10));
    }
}

/// A negative number is a minus sign and the digits of its magnitude, and any other is its digits.
pub proof fn signed_decimals_read_back(n: int)
    ensures
        n >= 0 ==> read_decimal(signed_decimal(n)) == n && '0' <= signed_decimal(n)[0] <= '9',
        n < 0 ==> signed_decimal(n)[0] == '-' && read_decimal(signed_decimal(n).skip(1)) == -n,
        forall|i: int|
            1 <= i < signed_decimal(n).len() ==> '0' <= #[trigger] signed_decimal(n)[i] <= '9',
        signed_decimal(n).len() > 1 ==> signed_decimal(n)[0] != '0',
        n < 0 ==> signed_decimal(n).len() > 1 && signed_decimal(n)[1] != '0',
{
    let magnitude: nat = if n < 0 {
        (-n) as nat
    } else {
        n as nat
    };
    decimals_read_back(magnitude);
    if n < 0 {
        assert(signed_decimal(n).skip(1) =~= decimal(magnitude));
        assert forall|i: int| 1 <= i < signed_decimal(n).len() implies '0'
            <= #[trigger] signed_decimal(n)[i] <= '9' by {
            assert(signed_decimal(n)[i] == decimal(magnitude)[i - 1]);
        }
        assert(signed_decimal(n)[1] == decimal(magnitude)[0]);
    }
}

/// Where the part at place `i` starts, if the parts stand one after the other with a gap of this
/// size between each and the next.
pub open spec fn start_of<A>(parts: Seq<Seq<A>>, gap: nat, i: int) -> int
    decreases i,
{
    if i <= 0 {
        0
    } else {
        start_of(parts, gap, i - 1) + parts[i - 1].len() + gap
    }
}

/// Whether `whole` is the parts one after the other with `separator` between each and the next, and
/// nothing else.
pub open spec fn is_joined<A>(whole: Seq<A>, parts: Seq<Seq<A>>, separator: Seq<A>) -> bool {
    &&& parts.len() == 0 ==> whole.len() == 0
    &&& parts.len() > 0 ==> whole.len() == start_of(parts, separator.len(), parts.len() as int)
        - separator.len()
    &&& forall|i: int|
        0 <= i < parts.len() ==> #[trigger] stands_at(
            whole,
            parts[i],
            start_of(parts, separator.len(), i),
        )
    &&& forall|i: int|
        0 < i < parts.len() ==> stands_at(
            whole,
            separator,
            #[trigger] start_of(parts, separator.len(), i) - separator.len(),
        )
}

/// Whether `part` stands in `whole` from place `at` on.
pub open spec fn stands_at<A>(whole: Seq<A>, part: Seq<A>, at: int) -> bool {
    &&& 0 <= at
    &&& at + part.len() <= whole.len()
    &&& forall|k: int| 0 <= k < part.len() ==> #[trigger] whole[at + k] == part[k]
}

proof fn lemma_same_starts<A>(parts: Seq<Seq<A>>, gap: nat, i: int)
    requires
        0 <= i < parts.len(),
    ensures
        start_of(parts, gap, i) == start_of(parts.drop_last(), gap, i),
    decreases i,
{
    if i > 0 {
        lemma_same_starts(parts, gap, i - 1);
    }
}

/// What joins all parts but the last, the separator and the last part join all parts.
pub(crate) proof fn lemma_join_one_more<A>(before: Seq<A>, parts: Seq<Seq<A>>, separator: Seq<A>)
    requires
        parts.len() > 1,
        is_joined(before, parts.drop_last(), separator),
    ensures
        is_joined(before + separator + parts.last(), parts, separator),
{
    let gap = separator.len();
    let n = parts.len() as int;
    let rest = parts.drop_last();
    let whole = before + separator + parts.last();
    lemma_same_starts(parts, gap, n - 1);
    assert(start_of(parts, gap, n) == start_of(parts, gap, n - 1) + parts[n - 1].len() + gap);
    assert(start_of(parts, gap, n - 1) == before.len() + gap);
    assert forall|i: int| 0 <= i < n implies #[trigger] stands_at(
        whole,
        parts[i],
        start_of(parts, gap, i),
    ) by {
        if i < n - 1 {
            lemma_same_starts(parts, gap, i);
            assert(rest[i] == parts[i]);
            assert(stands_at(before, rest[i], start_of(rest, gap, i)));
            let at = start_of(parts, gap, i);
            assert forall|k: int| 0 <= k < parts[i].len() implies #[trigger] whole[at + k]
                == parts[i][k] by {
                assert(before[at + k] == rest[i][k]);
            }
        }
    }
    assert forall|i: int| 0 < i < n implies stands_at(
        whole,
        separator,
        #[trigger] start_of(parts, gap, i) - gap,
    ) by {
        if i < n - 1 {
            lemma_same_starts(parts, gap, i);
            assert(stands_at(before, separator, start_of(rest, gap, i) - gap));
            let at = start_of(parts, gap, i) - gap;
            assert forall|k: int| 0 <= k < gap implies #[trigger] whole[at + k] == separator[k] by {
                assert(before[at + k] == separator[k]);
            }
        }
    }
}

pub(crate) proof fn lemma_join_single<A>(part: Seq<A>, parts: Seq<Seq<A>>, separator: Seq<A>)
    requires
        parts.len() == 1,
        parts[0] == part,
    ensures
        is_joined(part, parts, separator),
{
    let gap = separator.len();
    assert(start_of(parts, gap, 0) == 0);
    assert(start_of(parts, gap, 1) == start_of(parts, gap, 0) + parts[0].len() + gap);
}

/// Joined texts are all the texts in their order, each at its place, with the separator between
/// each and the next.
pub proof fn joining_keeps_all_parts(parts: Seq<Seq<char>>, separator: Seq<char>)
    ensures
        is_joined(joined_with(parts, separator), parts, separator),
    decreases parts.len(),
{
    if parts.len() == 1 {
        lemma_join_single(parts[0], parts, separator);
    } else if parts.len() > 1 {
        joining_keeps_all_parts(parts.drop_last(), separator);
        lemma_join_one_more(
            joined_with(parts.drop_last(), separator),
            parts,
            separator,
        );
    }
}

/// The views of texts are those of all of them, in their order.
pub proof fn views_keep_all_texts(parts: Seq<String>)
    ensures
        views(parts).len() == parts.len(),
        forall|i: int| 0 <= i < parts.len() ==> #[trigger] views(parts)[i] == parts[i]@,
{
}

/// An optional text is none exactly where there is none, and else its characters.
pub proof fn optional_texts_are_kept(value: Option<String>)
    ensures
        value is None <==> view_of(value) is None,
        value matches Some(text) ==> view_of(value) == Some(text@),
{
}

/// Bytes are text exactly where they are valid UTF-8, and the text is then what they decode to,
/// however many they are. They are shown as that text, and others with replacements.
pub proof fn valid_bytes_are_decoded(bytes: Seq<u8>)
    ensures
        bytes_text(bytes) is Some <==> valid_utf8(bytes),
        valid_utf8(bytes) ==> bytes_text(bytes) == Some(decode_utf8(bytes)),
        valid_utf8(bytes) ==> shown_text(bytes) == decode_utf8(bytes),
        !valid_utf8(bytes) ==> shown_text(bytes) == lossy_text(bytes),
{
}

}
