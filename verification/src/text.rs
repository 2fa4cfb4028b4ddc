//! Text: decimal numbers, joined words and replaced characters.
use vstd::prelude::*;

verus! {

/// `String::push`: appends one character to the text.
pub assume_specification[ String::push ](s: &mut String, c: char)
    ensures
        final(s)@ == old(s)@.push(c),
;

/// The character of a decimal digit.
pub open spec fn digit(d: nat) -> char {
    (48 + d) as char
}

/// A number in decimal, without leading zeros.
pub open spec fn decimal(n: nat) -> Seq<char>
    decreases n,
{
    if n < 10 {
        seq![digit(n)]
    } else {
        decimal(n / 10).push(digit(n % 10))
    }
}

/// A signed number in decimal: the minus sign, where there is one, then the magnitude.
pub open spec fn signed_decimal(n: int) -> Seq<char> {
    if n < 0 {
        seq!['-'] + decimal((-n) as nat)
    } else {
        decimal(n as nat)
    }
}

/// The text with each `from` replaced by `to`.
pub open spec fn replaced(s: Seq<char>, from: char, to: char) -> Seq<char> {
    s.map_values(|c: char| if c == from { to } else { c })
}

/// The words with the separator between any two neighbours.
pub open spec fn joined(words: Seq<Seq<char>>, separator: Seq<char>) -> Seq<char>
    decreases words.len(),
{
    if words.len() == 0 {
        seq![]
    } else if words.len() == 1 {
        words[0]
    } else {
        joined(words.drop_last(), separator) + separator + words.last()
    }
}

/// What a list of strings holds.
pub open spec fn texts(strings: Seq<String>) -> Seq<Seq<char>> {
    strings.map_values(|s: String| s@)
}

/// Writes a number in decimal.
pub fn decimal_string(n: u128) -> (s: String)
    ensures
        s@ == decimal(n as nat),
    decreases n,
{
    let d: u8 = (n % 10) as u8;
    let c: char = (48 + d) as char;
    let mut s = if n < 10 { String::new() } else { decimal_string(n / 10) };
    s.push(c);
    s
}

/// Writes a signed number in decimal.
pub fn signed_decimal_string(n: isize) -> (s: String)
    ensures
        s@ == signed_decimal(n as int),
{
    if n < 0 {
        let m: i128 = -(n as i128);
        let mut s = String::new();
        s.push('-');
        let magnitude = decimal_string(m as u128);
        s.append(magnitude.as_str());
        s
    } else {
        decimal_string(n as u128)
    }
}

/// Replaces each `from` by `to`.
pub fn replace_char(s: &str, from: char, to: char) -> (r: String)
    ensures
        r@ == replaced(s@, from, to),
{
    let mut r = String::new();
    for c in iter: s.chars()
        invariant
            iter.seq() == s@,
            r@ == replaced(s@.take(iter.index()), from, to),
    {
        proof {
            assert(s@.take(iter.index() + 1) =~= s@.take(iter.index()).push(c));
        }
        r.push(if c == from { to } else { c });
    }
    proof {
        assert(s@.take(s@.len() as int) =~= s@);
    }
    r
}

/// Joins the words with the separator.
pub fn join(words: &Vec<String>, separator: &str) -> (r: String)
    ensures
        r@ == joined(texts(words@), separator@),
{
    let mut r = String::new();
    let mut i: usize = 0;
    while i < words.len()
        invariant
            i <= words.len(),
            r@ == joined(texts(words@).take(i as int), separator@),
        decreases words.len() - i,
    {
        proof {
            assert(texts(words@).take(i + 1).drop_last() =~= texts(words@).take(i as int));
        }
        if i > 0 {
            r.append(separator);
        }
        r.append(words[i].as_str());
        i = i + 1;
    }
    proof {
        assert(texts(words@).take(i as int) =~= texts(words@));
    }
    r
}

/// Whether the list has the word.
pub fn contains(words: &Vec<String>, word: &str) -> (found: bool)
    ensures
        found == texts(words@).contains(word@),
{
    let wanted = word.to_string();
    let mut i: usize = 0;
    while i < words.len()
        invariant
            i <= words.len(),
            wanted@ == word@,
            forall|j: int| 0 <= j < i ==> #[trigger] texts(words@)[j] != word@,
        decreases words.len() - i,
    {
        if words[i] == wanted {
            assert(texts(words@)[i as int] == word@);
            return true;
        }
        i = i + 1;
    }
    false
}

/// The number that decimal digits stand for.
pub open spec fn decimal_value(digits: Seq<char>) -> int
    decreases digits.len(),
{
    if digits.len() == 0 {
        0
    } else {
        10 * decimal_value(digits.drop_last()) + (digits.last() as int - '0' as int)
    }
}

/// Whether the text is this number in decimal: digits that stand for it, the first of
/// which is no zero, unless it is the only one.
pub open spec fn is_decimal(s: Seq<char>, n: int) -> bool {
    &&& s.len() > 0
    &&& forall|i: int| 0 <= i < s.len() ==> '0' <= #[trigger] s[i] <= '9'
    &&& s.len() > 1 ==> s[0] != '0'
    &&& decimal_value(s) == n
}

/// The digits of each number stand for that number, and have no leading zeros.
pub proof fn law_digits_stand_for_the_number(n: nat)
    ensures
        is_decimal(decimal(n), n as int),
    decreases n,
{
    let s = decimal(n);
    if n >= 10 {
        law_digits_stand_for_the_number(n / 10);
        assert(s.drop_last() =~= decimal(n / 10));
        assert(n / 10 > 0);
        if n / 10 < 10 {
            assert(s[0] == decimal(n / 10)[0]);
        }
        assert(decimal(n / 10)[0] == s[0]);
        if decimal(n / 10).len() == 1 {
            assert(decimal(n / 10).drop_last() =~= seq![]);
            assert(decimal_value(decimal(n / 10).drop_last()) == 0);
        }
    } else {
        assert(s.drop_last() =~= seq![]);
        assert(decimal_value(s.drop_last()) == 0);
    }
}

/// No two numbers have the same digits.
pub proof fn law_numbers_are_told_apart(a: nat, b: nat)
    ensures
        decimal(a) == decimal(b) <==> a == b,
{
    law_digits_stand_for_the_number(a);
    law_digits_stand_for_the_number(b);
}

/// A number that is written is read back: the text has its digits and nothing else.
pub proof fn law_written_number_is_read_back(n: u128, s: String)
    requires
        call_ensures(decimal_string, (n,), s),
    ensures
        is_decimal(s@, n as int),
{
    law_digits_stand_for_the_number(n as nat);
}

/// A signed number that is written is read back: a minus sign stands before the digits of
/// a negative one, and nothing before those of another.
pub proof fn law_written_signed_number_is_read_back(n: isize, s: String)
    requires
        call_ensures(signed_decimal_string, (n,), s),
    ensures
        n >= 0 ==> is_decimal(s@, n as int),
        n < 0 ==> s@.len() > 0 && s@[0] == '-' && is_decimal(s@.skip(1), -n),
{
    if n < 0 {
        law_digits_stand_for_the_number((-n) as nat);
        assert(s@.skip(1) =~= decimal((-n) as nat));
    } else {
        law_digits_stand_for_the_number(n as nat);
    }
}

/// A replacement keeps the length, and each character but those that it replaces.
pub proof fn law_replacement_keeps_the_others(s: &str, from: char, to: char, r: String)
    requires
        call_ensures(replace_char, (s, from, to), r),
    ensures
        r@.len() == s@.len(),
        forall|i: int| 0 <= i < s@.len() && s@[i] == from ==> #[trigger] r@[i] == to,
        forall|i: int| 0 <= i < s@.len() && s@[i] != from ==> #[trigger] r@[i] == s@[i],
{
}

/// Words are joined one after the other: no word makes no text, the first stands alone, and
/// each further one adds the separator and itself.
pub proof fn law_join_adds_one_word_after_the_other(
    words: Vec<String>,
    more: Vec<String>,
    word: String,
    separator: &str,
    r: String,
    longer: String,
)
    requires
        more@ == words@.push(word),
        call_ensures(join, (&words, separator), r),
        call_ensures(join, (&more, separator), longer),
    ensures
        words@.len() == 0 ==> r@.len() == 0 && longer@ == word@,
        words@.len() > 0 ==> longer@ == r@ + separator@ + word@,
{
    assert(texts(more@).drop_last() =~= texts(words@));
}

/// A word is found exactly if it is one of the list.
pub proof fn law_word_is_found_iff_it_is_there(words: Vec<String>, word: &str, found: bool)
    requires
        call_ensures(contains, (&words, word), found),
    ensures
        found <==> exists|i: int| 0 <= i < words@.len() && (#[trigger] words@[i])@ == word@,
{
    if found {
        let i = texts(words@).index_of(word@);
        assert(words@[i]@ == word@);
    }
    assert forall|i: int| 0 <= i < words@.len() && (#[trigger] words@[i])@ == word@ implies found by {
        assert(texts(words@)[i] == word@);
    }
}

} // verus!
