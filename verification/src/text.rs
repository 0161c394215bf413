//! The textual replies that cross the host boundary.
//!
//! Every outcome is flattened to text: a success acknowledgement, a payload, or
//! an error that starts with a fixed marker, so that a caller can tell failure
//! from payload without a structured error channel.

use vstd::prelude::*;
use vstd::string::*;

verus! {

/// The acknowledgement returned by operations that succeed without a payload.
pub open spec fn ok_text() -> Seq<char> {
    "OK"@
}

/// The marker with which every error reply begins.
pub open spec fn error_marker() -> Seq<char> {
    "Error: "@
}

/// The error reply that carries `detail`.
pub open spec fn error_text(detail: Seq<char>) -> Seq<char> {
    error_marker() + detail
}

/// Whether `text` begins with the error marker.
pub open spec fn has_error_marker(text: Seq<char>) -> bool {
    error_marker().is_prefix_of(text)
}

/// The decimal digit that stands for `value`, for `value` below ten.
pub open spec fn digit_char(value: nat) -> char {
    if value == 0 {
        '0'
    } else if value == 1 {
        '1'
    } else if value == 2 {
        '2'
    } else if value == 3 {
        '3'
    } else if value == 4 {
        '4'
    } else if value == 5 {
        '5'
    } else if value == 6 {
        '6'
    } else if value == 7 {
        '7'
    } else if value == 8 {
        '8'
    } else {
        '9'
    }
}

/// The decimal rendering of `value`, most significant digit first, without
/// leading zeros.
pub open spec fn decimal_text(value: nat) -> Seq<char>
    decreases value,
{
    if value < 10 {
        seq![digit_char(value)]
    } else {
        decimal_text(value / 10).push(digit_char(value % 10))
    }
}

/// The success acknowledgement.
pub fn ok_reply() -> (reply: String)
    ensures
        reply@ == ok_text(),
{
    "OK".to_owned()
}

/// The error reply that carries `detail` behind the marker.
pub fn error_reply(detail: &str) -> (reply: String)
    ensures
        reply@ == error_text(detail@),
{
    "Error: ".to_owned().concat(detail)
}

/// Tells an error reply from any other text by its marker.
pub fn is_error_reply(text: &str) -> (marked: bool)
    ensures
        marked == has_error_marker(text@),
{
    let marker = "Error: ";
    proof {
        reveal_strlit("Error: ");
    }
    let length: usize = text.unicode_len();
    if length < 7 {
        return false;
    }
    let mut index: usize = 0;
    while index < 7
        invariant
            index <= 7,
            marker@ == error_marker(),
            marker@.len() == 7,
            length == text@.len(),
            7 <= length,
            forall|at: int| 0 <= at < index ==> text@[at] == marker@[at],
        decreases 7 - index,
    {
        if text.get_char(index) != marker.get_char(index) {
            return false;
        }
        index += 1;
    }
    true
}

fn digit_str(value: u64) -> (digit: &'static str)
    requires
        value < 10,
    ensures
        digit@ == seq![digit_char(value as nat)],
{
    proof {
        reveal_strlit("0");
        reveal_strlit("1");
        reveal_strlit("2");
        reveal_strlit("3");
        reveal_strlit("4");
        reveal_strlit("5");
        reveal_strlit("6");
        reveal_strlit("7");
        reveal_strlit("8");
        reveal_strlit("9");
    }
    let digit = if value == 0 {
        "0"
    } else if value == 1 {
        "1"
    } else if value == 2 {
        "2"
    } else if value == 3 {
        "3"
    } else if value == 4 {
        "4"
    } else if value == 5 {
        "5"
    } else if value == 6 {
        "6"
    } else if value == 7 {
        "7"
    } else if value == 8 {
        "8"
    } else {
        "9"
    };
    assert(digit@ =~= seq![digit_char(value as nat)]);
    digit
}

fn append_decimal(value: u64, text: &mut String)
    ensures
        final(text)@ == old(text)@ + decimal_text(value as nat),
    decreases value,
{
    if value >= 10 {
        append_decimal(value / 10, text);
    }
    text.append(digit_str(value % 10));
    assert(text@ =~= old(text)@ + decimal_text(value as nat));
}

/// Renders a chain height as decimal text.
pub fn height_text(height: u64) -> (text: String)
    ensures
        text@ == decimal_text(height as nat),
{
    let mut text = String::new();
    append_decimal(height, &mut text);
    assert(text@ =~= decimal_text(height as nat));
    text
}

/// Every error reply carries the marker, whatever its detail.
pub proof fn lemma_error_text_is_marked(detail: Seq<char>)
    ensures
        has_error_marker(error_text(detail)),
{
}

/// The success acknowledgement is never mistaken for an error.
pub proof fn lemma_ok_text_is_not_marked()
    ensures
        !has_error_marker(ok_text()),
{
    reveal_strlit("OK");
    reveal_strlit("Error: ");
}

/// A rendered height starts with a digit and is therefore never mistaken for
/// an error.
pub proof fn lemma_decimal_text_is_not_marked(value: nat)
    ensures
        decimal_text(value).len() >= 1,
        decimal_text(value)[0] != 'E',
        !has_error_marker(decimal_text(value)),
    decreases value,
{
    if value >= 10 {
        lemma_decimal_text_is_not_marked(value / 10);
    }
    let text = decimal_text(value);
    assert(error_marker().len() == 7 && error_marker()[0] == 'E') by {
        reveal_strlit("Error: ");
    }
    if has_error_marker(text) {
        assert(text[0] == error_marker()[0]);
    }
}

} // verus!
