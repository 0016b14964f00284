//! Small text helpers shared by the protocol modules.

use vstd::prelude::*;

verus! {

/// The decimal digit of `n`, for `n < 10`.
pub open spec fn digit_char(n: nat) -> char {
    (48 + n) as char
}

/// The decimal representation of `n`, without leading zeros.
pub open spec fn decimal(n: nat) -> Seq<char>
    decreases n,
{
    if n < 10 {
        seq![digit_char(n)]
    } else {
        decimal(n / 10).push(digit_char(n % 10))
    }
}

/// Whether `s` begins with the character `c`.
pub open spec fn begins_with(s: Seq<char>, c: char) -> bool {
    s.len() > 0 && s[0] == c
}

/// The characters of an optional text.
pub open spec fn optional_text(s: Option<String>) -> Option<Seq<char>> {
    match s {
        Some(text) => Some(text@),
        None => None,
    }
}

fn digit_str(n: u64) -> (digit: &'static str)
    requires
        n < 10,
    ensures
        digit@ == seq![digit_char(n as nat)],
{
    proof {
        reveal_strlit("0");
        reveal_strlit("1");
        reveal_strlit("2");
        reveal_strlit("3");
        reveal_strlit("4");
        reveal_strlit("5");
        reveal_strlit("6");
        reveal_strlit("7");
        reveal_strlit("8");
        reveal_strlit("9");
    }
    if n == 0 {
        "0"
    } else if n == 1 {
        "1"
    } else if n == 2 {
        "2"
    } else if n == 3 {
        "3"
    } else if n == 4 {
        "4"
    } else if n == 5 {
        "5"
    } else if n == 6 {
        "6"
    } else if n == 7 {
        "7"
    } else if n == 8 {
        "8"
    } else {
        "9"
    }
}

/// Writes `n` in decimal.
pub fn to_decimal(n: u64) -> (res: String)
    ensures
        res@ == decimal(n as nat),
    decreases n,
{
    if n < 10 {
        digit_str(n).to_owned()
    } else {
        let mut res = to_decimal(n / 10);
        res.append(digit_str(n % 10));
        res
    }
}

/// Whether two pieces of text are equal.
pub fn same_text(a: &str, b: &str) -> (res: bool)
    ensures
        res == (a@ == b@),
{
    a.to_owned() == b.to_owned()
}

/// Whether `s` begins with a colon, as every unique bus name of a peer does.
pub fn begins_with_colon(s: &str) -> (res: bool)
    ensures
        res == begins_with(s@, ':'),
{
    !s.is_empty() && s.get_char(0) == ':'
}

/// Different numbers have different decimal representations.
pub proof fn decimal_is_injective(a: nat, b: nat)
    requires
        decimal(a) == decimal(b),
    ensures
        a == b,
    decreases a + b,
{
    let da = decimal(a);
    let db = decimal(b);
    if a < 10 && b < 10 {
        assert(da[0] == digit_char(a) && db[0] == digit_char(b));
    } else if a < 10 {
        assert(da.len() == 1 && db.len() == decimal(b / 10).len() + 1);
        assert(decimal(b / 10).len() >= 1);
    } else if b < 10 {
        assert(db.len() == 1 && da.len() == decimal(a / 10).len() + 1);
        assert(decimal(a / 10).len() >= 1);
    } else {
        assert(da.last() == digit_char(a % 10));
        assert(db.last() == digit_char(b % 10));
        assert(da.drop_last() == decimal(a / 10));
        assert(db.drop_last() == decimal(b / 10));
        decimal_is_injective(a / 10, b / 10);
    }
}

/// The number that decimal digits stand for.
pub open spec fn numeral(digits: Seq<char>) -> int
    decreases digits.len(),
{
    if digits.len() == 0 {
        0
    } else {
        10 * numeral(digits.drop_last()) + (digits.last() as int - '0' as int)
    }
}

/// A number that was written in decimal reads back as itself: it is written in
/// digits only, and without leading zeros.
pub proof fn decimals_read_back(n: nat)
    ensures
        numeral(decimal(n)) == n,
        decimal(n).len() > 0,
        forall|i: int| 0 <= i < decimal(n).len() ==> '0' <= #[trigger] decimal(n)[i] <= '9',
        n > 0 ==> decimal(n)[0] != '0',
    decreases n,
{
    reveal_with_fuel(numeral, 2);
    let digits = decimal(n);
    if n < 10 {
        assert(digits.drop_last() == Seq::<char>::empty());
    } else {
        decimals_read_back(n / 10);
        assert(digits.drop_last() == decimal(n / 10));
        assert(digits.last() == digit_char(n % 10));
    }
}

/// Text begins with a character exactly when that is its first one.
pub proof fn beginnings_are_first_characters(rest: Seq<char>, first: char, c: char)
    ensures
        begins_with(seq![first] + rest, c) <==> first == c,
        !begins_with(Seq::empty(), c),
{
}

} // verus!
