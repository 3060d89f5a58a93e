//! Identifiers as text, and the order number that customers see.

use vstd::prelude::*;
use vstd::string::StrSliceExecFns;
use vstd::string::StringExecFns;
use crate::model::Order;
use crate::types::{Id, ORDER_NUMBER_LENGTH};

verus! {

/// The lower-case hexadecimal digit for a value below sixteen.
pub open spec fn hex_digit(n: int) -> char {
    if n == 0 {
        '0'
    } else if n == 1 {
        '1'
    } else if n == 2 {
        '2'
    } else if n == 3 {
        '3'
    } else if n == 4 {
        '4'
    } else if n == 5 {
        '5'
    } else if n == 6 {
        '6'
    } else if n == 7 {
        '7'
    } else if n == 8 {
        '8'
    } else if n == 9 {
        '9'
    } else if n == 10 {
        'a'
    } else if n == 11 {
        'b'
    } else if n == 12 {
        'c'
    } else if n == 13 {
        'd'
    } else if n == 14 {
        'e'
    } else {
        'f'
    }
}

/// The last `n` hexadecimal digits of `v`, most significant first.
pub open spec fn hex_digits(v: nat, n: nat) -> Seq<char>
    decreases n,
{
    if n == 0 {
        Seq::empty()
    } else {
        hex_digits(v / 16, (n - 1) as nat).push(hex_digit((v % 16) as int))
    }
}

/// An identifier as text: its 32 hexadecimal digits in lower case, in groups
/// of 8, 4, 4, 4 and 12 with a hyphen between them.
pub open spec fn hyphenated(id: Id) -> Seq<char> {
    let digits = hex_digits(id as nat, 32);
    digits.subrange(0, 8) + seq!['-'] + digits.subrange(8, 12) + seq!['-'] + digits.subrange(12, 16)
        + seq!['-'] + digits.subrange(16, 20) + seq!['-'] + digits.subrange(20, 32)
}

/// The order number of the order `id`: the last eight characters of the
/// identifier as text.
pub open spec fn spec_order_number(id: Id) -> Seq<char> {
    hyphenated(id).subrange(36 - ORDER_NUMBER_LENGTH as int, 36)
}

/// `Uuid::to_string` of the uuid crate, on `Uuid::from_u128(id)`: the
/// hyphenated form in lower case, 36 characters of ASCII.
#[verifier::external_body]
fn uuid_to_string(id: Id) -> (text: String)
    ensures
        text@ == hyphenated(id),
        text.is_ascii(),
{
    uuid::Uuid::from_u128(id).to_string()
}

/// The error of the uuid crate for a text that is no identifier.
#[verifier::external_type_specification]
#[verifier::external_body]
pub struct ExUuidError(uuid::Error);

/// The identifier that a text stands for, where it stands for one.
pub uninterp spec fn uuid_from_text(text: Seq<char>) -> Option<Id>;

/// `Uuid::parse_str` of the uuid crate, with the identifier as a number:
/// what it gives is a function of the text alone, and the hyphenated form
/// of an identifier is read back as that identifier.
#[verifier::external_body]
fn uuid_parse_str(text: &str) -> (parsed: Result<Id, uuid::Error>)
    ensures
        match parsed {
            Ok(id) => uuid_from_text(text@) == Some(id),
            Err(_) => uuid_from_text(text@) is None,
        },
        forall|id: Id| text@ == hyphenated(id) ==> parsed is Ok && parsed->Ok_0 == id,
{
    match uuid::Uuid::parse_str(text) {
        Ok(uuid) => Ok(uuid.as_u128()),
        Err(e) => Err(e),
    }
}

proof fn lemma_hex_digits_len(v: nat, n: nat)
    ensures
        hex_digits(v, n).len() == n,
    decreases n,
{
    if n > 0 {
        lemma_hex_digits_len(v / 16, (n - 1) as nat);
    }
}

/// The text of an identifier has 36 characters.
pub proof fn lemma_hyphenated_len(id: Id)
    ensures
        hyphenated(id).len() == 36,
{
    lemma_hex_digits_len(id as nat, 32);
}

/// The order number is made of the last eight hexadecimal digits of the
/// identifier.
pub proof fn lemma_order_number_digits(id: Id)
    ensures
        spec_order_number(id) == hex_digits(id as nat, 32).subrange(24, 32),
{
    lemma_hex_digits_len(id as nat, 32);
    assert(spec_order_number(id) =~= hex_digits(id as nat, 32).subrange(24, 32));
}

/// An identifier as text.
pub fn id_to_string(id: Id) -> (text: String)
    ensures
        text@ == hyphenated(id),
{
    uuid_to_string(id)
}

/// The identifier that a text stands for; `None` for a text that stands
/// for none. The text of an identifier stands for that identifier.
pub fn id_from_str(text: &str) -> (id: Option<Id>)
    ensures
        id == uuid_from_text(text@),
        forall|written: Id| text@ == hyphenated(written) ==> id == Some(written),
{
    match uuid_parse_str(text) {
        Ok(id) => Some(id),
        Err(_) => None,
    }
}

impl Order {
    /// The order number of the order `id`: the last eight characters of the
    /// identifier as text.
    pub fn parse_order_number(id: Id) -> (number: String)
        ensures
            number@ == spec_order_number(id),
    {
        let text = uuid_to_string(id);
        proof {
            lemma_hyphenated_len(id);
        }
        let tail = text.as_str().substring_ascii(36 - ORDER_NUMBER_LENGTH, 36);
        String::from_str(tail)
    }

    /// The number under which customers know this order.
    pub fn order_number(&self) -> (number: String)
        ensures
            number@ == spec_order_number(self.id),
    {
        Order::parse_order_number(self.id)
    }
}

} // verus!
