//! The list of the branches marked for deletion.

use crate::selection::SelectedSet;
use crate::text::texts;
use vstd::prelude::*;
use vstd::string::*;

verus! {

/// The character for the digit `d`.
pub open spec fn digit_char(d: nat) -> char {
    if d == 0 {
        '0'
    } else if d == 1 {
        '1'
    } else if d == 2 {
        '2'
    } else if d == 3 {
        '3'
    } else if d == 4 {
        '4'
    } else if d == 5 {
        '5'
    } else if d == 6 {
        '6'
    } else if d == 7 {
        '7'
    } else if d == 8 {
        '8'
    } else {
        '9'
    }
}

/// `n` written in decimal digits.
pub open spec fn decimal(n: nat) -> Seq<char>
    decreases n,
{
    if n < 10 {
        seq![digit_char(n)]
    } else {
        decimal(n / 10).push(digit_char(n % 10))
    }
}

/// The character for the digit `d`.
fn digit(d: usize) -> (c: char)
    requires
        d < 10,
    ensures
        c == digit_char(d as nat),
{
    if d == 0 {
        '0'
    } else if d == 1 {
        '1'
    } else if d == 2 {
        '2'
    } else if d == 3 {
        '3'
    } else if d == 4 {
        '4'
    } else if d == 5 {
        '5'
    } else if d == 6 {
        '6'
    } else if d == 7 {
        '7'
    } else if d == 8 {
        '8'
    } else {
        '9'
    }
}

/// `n` written in decimal digits.
pub fn to_decimal(n: usize) -> (text: String)
    ensures
        text@ == decimal(n as nat),
    decreases n,
{
    if n < 10 {
        let mut text = String::new();
        text.push(digit(n));
        assert(text@ =~= seq![digit_char(n as nat)]);
        text
    } else {
        let mut text = to_decimal(n / 10);
        text.push(digit(n % 10));
        text
    }
}

pub struct SelectedList;

impl SelectedList {
    /// The line for the branch `name` at position `index`: the position, a
    /// colon, a space, the name.
    pub open spec fn line(index: nat, name: Seq<char>) -> Seq<char> {
        decimal(index) + ": "@ + name
    }

    /// One line for each marked branch, oldest mark first.
    pub fn items(selected: &SelectedSet) -> (items: Vec<String>)
        ensures
            items@.len() == selected.order().len(),
            forall|i: int|
                0 <= i < items@.len() ==> (#[trigger] items@[i])@ == Self::line(
                    i as nat,
                    selected.order()[i],
                ),
    {
        let names = selected.names();
        let mut items: Vec<String> = Vec::new();
        let mut i: usize = 0;
        while i < names.len()
            invariant
                i <= names@.len(),
                texts(names@) == selected.order(),
                items@.len() == i,
                forall|k: int|
                    0 <= k < i ==> (#[trigger] items@[k])@ == Self::line(
                        k as nat,
                        selected.order()[k],
                    ),
            decreases names@.len() - i,
        {
            let mut line = to_decimal(i);
            line.append(": ");
            line.append(names[i].as_str());
            assert(texts(names@)[i as int] == names@[i as int]@);
            items.push(line);
            i += 1;
        }
        items
    }
}

} // verus!
