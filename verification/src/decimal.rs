//! Decimal texts of numbers.

use crate::text::join;
use vstd::prelude::*;

verus! {

/// Decimal digit.
pub open spec fn decimal_digit(value: int) -> char {
    (48 + value) as char
}

/// Decimal text of a natural number, without leading zeros.
pub open spec fn natural_text(value: nat) -> Seq<char>
    decreases value,
{
    if value < 10 {
        seq![decimal_digit(value as int)]
    } else {
        natural_text(value / 10).push(decimal_digit(value as int % 10))
    }
}

/// Decimal text of an integer.
pub open spec fn integer_text(value: int) -> Seq<char> {
    if value < 0 {
        seq!['-'] + natural_text((-value) as nat)
    } else {
        natural_text(value as nat)
    }
}

/// Text filled up with leading zeros to `width` characters.
pub open spec fn zero_filled(digits: Seq<char>, width: nat) -> Seq<char> {
    if digits.len() >= width {
        digits
    } else {
        Seq::new((width - digits.len()) as nat, |_i: int| '0') + digits
    }
}

/// Decimal text with leading zeros up to `width` characters, sign included.
pub open spec fn padded_text(value: int, width: nat) -> Seq<char> {
    if value < 0 {
        seq!['-'] + zero_filled(natural_text((-value) as nat), (width - 1) as nat)
    } else {
        zero_filled(natural_text(value as nat), width)
    }
}

fn digit_text(value: u64) -> (text: String)
    requires
        value < 10,
    ensures
        text@ == seq![decimal_digit(value as int)],
{
    let text = if value == 0 {
        proof {
            reveal_strlit("0");
        }
        "0"
    } else if value == 1 {
        proof {
            reveal_strlit("1");
        }
        "1"
    } else if value == 2 {
        proof {
            reveal_strlit("2");
        }
        "2"
    } else if value == 3 {
        proof {
            reveal_strlit("3");
        }
        "3"
    } else if value == 4 {
        proof {
            reveal_strlit("4");
        }
        "4"
    } else if value == 5 {
        proof {
            reveal_strlit("5");
        }
        "5"
    } else if value == 6 {
        proof {
            reveal_strlit("6");
        }
        "6"
    } else if value == 7 {
        proof {
            reveal_strlit("7");
        }
        "7"
    } else if value == 8 {
        proof {
            reveal_strlit("8");
        }
        "8"
    } else {
        proof {
            reveal_strlit("9");
        }
        "9"
    };
    proof {
        assert(text@ =~= seq![decimal_digit(value as int)]);
    }
    text.to_owned()
}

/// Decimal text of a natural number.
pub fn natural_to_string(value: u64) -> (text: String)
    ensures
        text@ == natural_text(value as nat),
    decreases value,
{
    if value < 10 {
        digit_text(value)
    } else {
        let head = natural_to_string(value / 10);
        let last = digit_text(value % 10);
        let text = join(head.as_str(), last.as_str());
        proof {
            assert(text@ =~= natural_text(value as nat));
        }
        text
    }
}

/// Decimal text of an integer.
pub fn integer_to_string(value: i64) -> (text: String)
    ensures
        text@ == integer_text(value as int),
{
    if value < 0 {
        let digits = natural_to_string((-(value as i128)) as u64);
        proof {
            reveal_strlit("-");
            assert("-"@ =~= seq!['-']);
        }
        join("-", digits.as_str())
    } else {
        natural_to_string(value as u64)
    }
}

fn zero_fill(digits: String, width: usize) -> (text: String)
    ensures
        text@ == zero_filled(digits@, width as nat),
{
    let length: usize = digits.as_str().unicode_len();
    let mut text = digits;
    let mut missing: usize = if length < width {
        width - length
    } else {
        0
    };
    let ghost original = text@;
    let ghost total = missing;
    proof {
        reveal_strlit("0");
        assert("0"@ =~= seq!['0']);
        assert(text@ =~= Seq::new(0nat, |_i: int| '0') + original);
    }
    while missing > 0
        invariant
            missing <= total,
            "0"@ == seq!['0'],
            text@ == Seq::new((total - missing) as nat, |_i: int| '0') + original,
        decreases missing,
    {
        text = join("0", text.as_str());
        missing -= 1;
        proof {
            assert(text@ =~= Seq::new((total - missing) as nat, |_i: int| '0') + original);
        }
    }
    proof {
        assert(text@ =~= zero_filled(original, width as nat));
    }
    text
}

/// Decimal text with leading zeros.
pub fn padded_to_string(value: i32, width: usize) -> (text: String)
    requires
        width >= 1,
    ensures
        text@ == padded_text(value as int, width as nat),
{
    if value < 0 {
        let digits = natural_to_string((-(value as i64)) as u64);
        let digits = zero_fill(digits, width - 1);
        proof {
            reveal_strlit("-");
            assert("-"@ =~= seq!['-']);
        }
        join("-", digits.as_str())
    } else {
        let digits = natural_to_string(value as u64);
        zero_fill(digits, width)
    }
}

/// The number that a decimal text stands for.
pub open spec fn decimal_value(text: Seq<char>) -> int
    decreases text.len(),
{
    if text.len() == 0 {
        0
    } else {
        decimal_value(text.drop_last()) * 10 + (text.last() as int - 48)
    }
}

/// A number's decimal text stands for that number, in numerals alone, and
/// begins with a zero only where it is zero.
pub proof fn decimal_texts_stand_for_their_number(value: nat)
    ensures
        decimal_value(natural_text(value)) == value,
        natural_text(value).len() > 0,
        natural_text(value)[0] == '0' ==> value == 0,
        forall|i: int|
            0 <= i < natural_text(value).len() ==> '0' <= #[trigger] natural_text(value)[i] <= '9',
    decreases value,
{
    if value < 10 {
        let text = natural_text(value);
        assert(text.drop_last() =~= Seq::<char>::empty());
        assert(decimal_value(text.drop_last()) == 0);
    } else {
        let text = natural_text(value);
        decimal_texts_stand_for_their_number(value / 10);
        assert(text.drop_last() =~= natural_text(value / 10));
        assert(text[0] == natural_text(value / 10)[0]);
        assert forall|i: int| 0 <= i < text.len() implies '0' <= #[trigger] text[i] <= '9' by {
            if i < text.len() - 1 {
                assert(text[i] == natural_text(value / 10)[i]);
            }
        }
    }
}

/// A negative number is spelled with a sign, and zeros fill a text up to its
/// width and change nothing else.
pub proof fn signs_and_zeros_lead(value: int, width: nat)
    requires
        width >= 1,
    ensures
        value >= 0 ==> integer_text(value) == natural_text(value as nat),
        value < 0 ==> integer_text(value)[0] == '-' && integer_text(value).drop_first()
            == natural_text((-value) as nat),
        padded_text(value, width).len() >= width,
        value >= 0 ==> padded_text(value, width).len() == if natural_text(value as nat).len()
            < width {
            width
        } else {
            natural_text(value as nat).len()
        },
        value >= 0 ==> forall|i: int|
            0 <= i < padded_text(value, width).len() - natural_text(value as nat).len()
                ==> #[trigger] padded_text(value, width)[i] == '0',
        value >= 0 ==> padded_text(value, width).subrange(
            padded_text(value, width).len() - natural_text(value as nat).len(),
            padded_text(value, width).len() as int,
        ) == natural_text(value as nat),
{
    if value < 0 {
        assert(integer_text(value).drop_first() =~= natural_text((-value) as nat));
    }
}

} // verus!
