//! Player identities as they travel inside access tokens: an integer id,
//! written as decimal text in the token's subject.

use vstd::prelude::*;
use vstd::string::*;

verus! {

broadcast use group_string_axioms;

/// How long an access token stays valid, in seconds: one day.
pub const TOKEN_LIFETIME_SECS: i64 = 86400;

/// Whether `c` is one of the ten decimal digits.
pub open spec fn is_digit(c: char) -> bool {
    48 <= c as int <= 57
}

/// The character that writes the digit `d`.
pub open spec fn digit_char(d: int) -> char {
    (48 + d) as char
}

/// Whether `digits` holds decimal digits and nothing else.
pub open spec fn all_digits(digits: Seq<char>) -> bool {
    forall|i: int| 0 <= i < digits.len() ==> is_digit(#[trigger] digits[i])
}

/// The number that `digits` writes, most significant digit first.
pub open spec fn digits_value(digits: Seq<char>) -> int
    decreases digits.len(),
{
    if digits.len() == 0 {
        0
    } else {
        10 * digits_value(digits.drop_last()) + (digits.last() as int - 48)
    }
}

/// Whether `text` begins with a minus sign.
pub open spec fn is_negative(text: Seq<char>) -> bool {
    text.len() > 0 && text[0] == '-'
}

/// `text` without its leading sign, if it has one.
pub open spec fn unsigned_part(text: Seq<char>) -> Seq<char> {
    if text.len() > 0 && (text[0] == '-' || text[0] == '+') {
        text.drop_first()
    } else {
        text
    }
}

/// The 32-bit integer that `text` writes in decimal: an optional sign, then
/// one or more digits and nothing else, naming a value that fits. Any other
/// text writes no integer.
pub open spec fn decimal_i32(text: Seq<char>) -> Option<i32> {
    let digits = unsigned_part(text);
    let value = if is_negative(text) {
        -digits_value(digits)
    } else {
        digits_value(digits)
    };
    if digits.len() > 0 && all_digits(digits) && i32::MIN <= value <= i32::MAX {
        Some(value as i32)
    } else {
        None
    }
}

/// The digits of `n`, most significant first, without leading zeros.
pub open spec fn digits_of(n: nat) -> Seq<char>
    decreases n,
{
    if n < 10 {
        seq![digit_char(n as int)]
    } else {
        digits_of(n / 10).push(digit_char((n % 10) as int))
    }
}

/// The decimal text of `id`: its digits, after a minus sign if it is
/// negative.
pub open spec fn decimal_text(id: int) -> Seq<char> {
    if id < 0 {
        seq!['-'] + digits_of((-id) as nat)
    } else {
        digits_of(id as nat)
    }
}

proof fn lemma_digits_value_grows(digits: Seq<char>, c: char)
    requires
        all_digits(digits),
        is_digit(c),
    ensures
        digits_value(digits) >= 0,
        digits_value(digits.push(c)) == 10 * digits_value(digits) + (c as int - 48),
        digits_value(digits.push(c)) >= digits_value(digits),
    decreases digits.len(),
{
    assert(digits.push(c).drop_last() =~= digits);
    if digits.len() > 0 {
        assert(all_digits(digits.drop_last()));
        lemma_digits_value_grows(digits.drop_last(), digits.last());
    }
}

proof fn lemma_digits_of_reads_back(n: nat)
    ensures
        digits_of(n).len() > 0,
        all_digits(digits_of(n)),
        digits_value(digits_of(n)) == n,
    decreases n,
{
    if n < 10 {
        let one = seq![digit_char(n as int)];
        assert(one.drop_last() =~= Seq::<char>::empty());
        reveal_with_fuel(digits_value, 2);
    } else {
        lemma_digits_of_reads_back(n / 10);
        lemma_digits_value_grows(digits_of(n / 10), digit_char((n % 10) as int));
    }
}

/// Writing an id and reading the text back gives the id: every 32-bit
/// integer survives the trip through its decimal text.
pub proof fn lemma_decimal_round_trip(id: i32)
    ensures
        decimal_i32(decimal_text(id as int)) == Some(id),
{
    let text = decimal_text(id as int);
    if id < 0 {
        let digits = digits_of((-id) as nat);
        lemma_digits_of_reads_back((-id) as nat);
        assert(text.drop_first() =~= digits);
    } else {
        lemma_digits_of_reads_back(id as nat);
        assert(is_digit(text[0]));
    }
}

fn code_point(c: char) -> (code: u32)
    ensures
        code as int == c as int,
{
    c as u32
}

/// Reads a player id from decimal text.
///
/// The text is an optional `+` or `-`, then one or more decimal digits and
/// nothing else; a value outside the 32-bit range is no id.
pub fn parse_user_id(text: &str) -> (id: Option<i32>)
    ensures
        id == decimal_i32(text@),
{
    let mut first = true;
    let mut negative = false;
    let mut any_digit = false;
    let mut valid = true;
    // The value of the digits read so far, or 2147483649 once it is above that.
    let mut magnitude: i64 = 0;
    for c in it: text.chars()
        invariant
            it.seq() == text@,
            first == (it.index() == 0),
            negative == is_negative(text@.take(it.index())),
            any_digit == (unsigned_part(text@.take(it.index())).len() > 0),
            valid == all_digits(unsigned_part(text@.take(it.index()))),
            valid ==> magnitude == if digits_value(unsigned_part(text@.take(it.index())))
                <= 2147483648 {
                digits_value(unsigned_part(text@.take(it.index())))
            } else {
                2147483649
            },
            0 <= magnitude <= 2147483649,
    {
        let ghost before = text@.take(it.index());
        let ghost after = text@.take(it.index() + 1);
        let ghost digits = unsigned_part(before);
        proof {
            assert(after =~= before.push(c));
        }
        let code: u32 = code_point(c);
        if first && (code == 45 || code == 43) {
            negative = code == 45;
            proof {
                assert(unsigned_part(after) =~= Seq::<char>::empty());
            }
        } else {
            proof {
                assert(unsigned_part(after) =~= digits.push(c));
            }
            any_digit = true;
            if valid && 48 <= code && code <= 57 {
                proof {
                    lemma_digits_value_grows(digits, c);
                }
                if magnitude <= 2147483648 {
                    magnitude = magnitude * 10 + (code - 48) as i64;
                    if magnitude > 2147483648 {
                        magnitude = 2147483649;
                    }
                }
            } else {
                proof {
                    if valid {
                        assert(digits.push(c)[digits.len() as int] == c);
                    } else {
                        let i = choose|i: int| 0 <= i < digits.len() && !is_digit(digits[i]);
                        assert(digits.push(c)[i] == digits[i]);
                    }
                }
                valid = false;
            }
        }
        first = false;
    }
    proof {
        assert(text@.take(text@.len() as int) =~= text@);
    }
    if !valid || !any_digit {
        None
    } else if negative {
        if magnitude <= 2147483648 {
            Some((-magnitude) as i32)
        } else {
            None
        }
    } else if magnitude <= 2147483647 {
        Some(magnitude as i32)
    } else {
        None
    }
}

fn digit_str(d: u32) -> (text: &'static str)
    requires
        d < 10,
    ensures
        text@ == seq![digit_char(d as int)],
{
    proof {
        reveal_strlit("0");
        reveal_strlit("1");
        reveal_strlit("2");
        reveal_strlit("3");
        reveal_strlit("4");
        reveal_strlit("5");
        reveal_strlit("6");
        reveal_strlit("7");
        reveal_strlit("8");
        reveal_strlit("9");
    }
    let text = if d == 0 {
        "0"
    } else if d == 1 {
        "1"
    } else if d == 2 {
        "2"
    } else if d == 3 {
        "3"
    } else if d == 4 {
        "4"
    } else if d == 5 {
        "5"
    } else if d == 6 {
        "6"
    } else if d == 7 {
        "7"
    } else if d == 8 {
        "8"
    } else {
        "9"
    };
    assert(text@ =~= seq![digit_char(d as int)]);
    text
}

fn append_digits(text: &mut String, n: u32)
    ensures
        final(text)@ == old(text)@ + digits_of(n as nat),
    decreases n,
{
    if n >= 10 {
        append_digits(text, n / 10);
    }
    text.append(digit_str(n % 10));
    proof {
        if n >= 10 {
            assert(old(text)@ + digits_of((n / 10) as nat) + seq![digit_char((n % 10) as int)]
                =~= old(text)@ + digits_of(n as nat));
        }
    }
}

/// Writes a player id as decimal text.
pub fn render_user_id(id: i32) -> (text: String)
    ensures
        text@ == decimal_text(id as int),
        decimal_i32(text@) == Some(id),
{
    let mut text = String::new();
    if id < 0 {
        proof {
            reveal_strlit("-");
        }
        text.append("-");
        assert(text@ =~= seq!['-']);
        append_digits(&mut text, (-(id as i64)) as u32);
    } else {
        append_digits(&mut text, id as u32);
        assert(text@ =~= digits_of(id as nat));
    }
    proof {
        lemma_decimal_round_trip(id);
    }
    text
}

/// What an access token says: whom it was issued to, and until when it holds.
#[derive(Debug, Clone, PartialEq, Eq)]
pub struct Claims {
    /// The player's id, as decimal text.
    pub sub: String,
    /// The moment the token expires, in seconds since the Unix epoch.
    pub exp: usize,
}

impl Claims {
    /// The claims of a token issued to `user_id` at `now`, in seconds since
    /// the Unix epoch: the token names the player and holds for one day.
    ///
    /// There are no such claims where the moment of expiry cannot be written
    /// as a `usize`.
    pub fn issue(user_id: i32, now: i64) -> (claims: Option<Claims>)
        ensures
            claims is Some <==> 0 <= now + TOKEN_LIFETIME_SECS <= usize::MAX,
            claims matches Some(issued) ==> {
                &&& issued.sub@ == decimal_text(user_id as int)
                &&& issued.exp == now + TOKEN_LIFETIME_SECS
                &&& decimal_i32(issued.sub@) == Some(user_id)
            },
    {
        let expiry: i128 = now as i128 + TOKEN_LIFETIME_SECS as i128;
        if expiry < 0 || expiry > usize::MAX as i128 {
            return None;
        }
        Some(Claims { sub: render_user_id(user_id), exp: expiry as usize })
    }

    /// The player the token was issued to, if its subject writes an id.
    pub fn user_id(&self) -> (id: Option<i32>)
        ensures
            id == decimal_i32(self.sub@),
    {
        parse_user_id(self.sub.as_str())
    }
}

} // verus!
