use vstd::prelude::*;
use crate::text::{chars_of, push_char};

verus! {

/// The digits of `value` in the positional base whose digits are `alphabet`
/// (most significant first; zero is the first digit alone).
pub open spec fn base_digits(value: nat, alphabet: Seq<char>) -> Seq<char>
    decreases value,
    when alphabet.len() >= 2
{
    if value < alphabet.len() {
        seq![alphabet[value as int]]
    } else {
        proof {
            let b = alphabet.len();
            assert(value / b < value) by (nonlinear_arith)
                requires
                    b >= 2,
                    value >= b,
            ;
        }
        base_digits(value / alphabet.len(), alphabet).push(alphabet[(value % alphabet.len()) as int])
    }
}

/// Writes `value` in a custom base with the base_custom crate:
/// `BaseCustom::<char>::new(alphabet).gen(value)`. In its source, `new`
/// keeps the characters in order (dropping repeats, of which there are none
/// here) and `gen` writes the place values, most significant first, zero as
/// one digit; so the result is `base_digits` of the value. `new` panics with
/// fewer than two or more than 255 characters, which `requires` rules out.
#[verifier::external_body]
fn base_custom_gen(alphabet: &Vec<char>, value: u64) -> (r: String)
    requires
        2 <= alphabet@.len() <= 255,
        alphabet@.no_duplicates(),
    ensures
        r@ == base_digits(value as nat, alphabet@),
{
    base_custom::BaseCustom::<char>::new(alphabet.clone()).gen(value)
}

/// The kana in which IP hashes are spelt, in digit order.
pub const YOTEICHI_DIGITS: &'static str = "ーあいうえおかがきぎくぐけげこごさざしじすずせぜそぞただちぢつづてでとどなにぬねのはばぱひびぴふぶぷへべぺほぼぽまみむめもやゆよらりるれろわゐゑをんゔ";

/// `s` with a space before every fourth character after the first: groups
/// of four characters separated by spaces.
pub open spec fn in_groups_of_four(s: Seq<char>) -> Seq<char>
    decreases s.len(),
{
    if s.len() == 0 {
        Seq::empty()
    } else {
        let i = s.len() - 1;
        if i > 0 && i % 4 == 0 {
            in_groups_of_four(s.drop_last()) + seq![' ', s[i]]
        } else {
            in_groups_of_four(s.drop_last()).push(s[i])
        }
    }
}

/// A readable label for a hash: the value written in base 75 with kana
/// digits, in groups of four separated by spaces.
pub fn base_yoteichi_mod(input_val: u64) -> (label: String)
    ensures
        label@ == in_groups_of_four(base_digits(input_val as nat, YOTEICHI_DIGITS@)),
{
    let alphabet = chars_of(YOTEICHI_DIGITS);
    proof {
        reveal_strlit("ーあいうえおかがきぎくぐけげこごさざしじすずせぜそぞただちぢつづてでとどなにぬねのはばぱひびぴふぶぷへべぺほぼぽまみむめもやゆよらりるれろわゐゑをんゔ");
        assert(alphabet@.len() == 75);
        assert(alphabet@.no_duplicates());
    }
    let digits = chars_of(base_custom_gen(&alphabet, input_val).as_str());
    let mut label = String::new();
    let mut i: usize = 0;
    while i < digits.len()
        invariant
            i <= digits.len(),
            label@ == in_groups_of_four(digits@.take(i as int)),
        decreases digits.len() - i,
    {
        assert(digits@.take(i + 1).drop_last() =~= digits@.take(i as int));
        if i > 0 && i % 4 == 0 {
            push_char(&mut label, ' ');
        }
        push_char(&mut label, digits[i]);
        assert(label@ =~= in_groups_of_four(digits@.take(i + 1)));
        i = i + 1;
    }
    assert(digits@.take(i as int) =~= digits@);
    label
}

} // verus!
