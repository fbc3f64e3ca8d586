//! Building messages out of literals and numbers.
use vstd::prelude::*;
use vstd::string::StringExecFns;
use vstd::utf8::{encode_utf8, valid_utf8};

verus! {

/// The character of a decimal digit.
pub open spec fn digit(value: nat) -> char {
    if value == 0 {
        '0'
    } else if value == 1 {
        '1'
    } else if value == 2 {
        '2'
    } else if value == 3 {
        '3'
    } else if value == 4 {
        '4'
    } else if value == 5 {
        '5'
    } else if value == 6 {
        '6'
    } else if value == 7 {
        '7'
    } else if value == 8 {
        '8'
    } else {
        '9'
    }
}

/// A number in decimal notation, without leading zeros.
pub open spec fn decimal(value: nat) -> Seq<char>
    decreases value,
{
    if value < 10 {
        seq![digit(value)]
    } else {
        decimal(value / 10).push(digit(value % 10))
    }
}

/// A signed number in decimal notation.
pub open spec fn signed_decimal(value: int) -> Seq<char> {
    if value < 0 {
        "-"@ + decimal((-value) as nat)
    } else {
        decimal(value as nat)
    }
}

/// The text of a hexadecimal digit, in lower case.
pub open spec fn hex_digit(value: nat) -> Seq<char> {
    if value < 10 {
        seq![digit(value)]
    } else if value == 10 {
        seq!['a']
    } else if value == 11 {
        seq!['b']
    } else if value == 12 {
        seq!['c']
    } else if value == 13 {
        seq!['d']
    } else if value == 14 {
        seq!['e']
    } else {
        seq!['f']
    }
}

/// The last digits of a number in hexadecimal notation.
pub open spec fn hex_digits(value: nat, digits: nat) -> Seq<char>
    decreases digits,
{
    if digits == 0 {
        Seq::empty()
    } else {
        hex_digits(value / 16, (digits - 1) as nat) + hex_digit(value % 16)
    }
}

/// A 32-bit number in hexadecimal notation, with its prefix and all of its
/// digits.
pub open spec fn hexadecimal(value: u32) -> Seq<char> {
    "0x"@ + hex_digits(value as nat, 8)
}

/// `str::from_utf8`: the text that the bytes encode in UTF-8, if they are valid
/// UTF-8.
#[verifier::external_body]
pub(crate) fn utf8_text(bytes: &[u8]) -> (text: Option<String>)
    ensures
        match text {
            Some(text) => valid_utf8(bytes@) && encode_utf8(text@) == bytes@,
            None => !valid_utf8(bytes@),
        },
{
    match std::str::from_utf8(bytes) {
        Ok(text) => Some(text.to_owned()),
        Err(_) => None,
    }
}

/// The code point of a surrogate pair.
pub open spec fn surrogate_pair(high: u16, low: u16) -> int {
    0x1_0000 + (high - 0xd800) * 0x400 + (low - 0xdc00)
}

/// The characters that UTF-16 code units encode, if they are valid UTF-16:
/// every surrogate has its other half.
pub open spec fn decode_utf16(units: Seq<u16>) -> Option<Seq<char>>
    decreases units.len(),
{
    if units.len() == 0 {
        Some(Seq::empty())
    } else if units[0] < 0xd800 || units[0] > 0xdfff {
        match decode_utf16(units.skip(1)) {
            Some(rest) => Some(seq![units[0] as char] + rest),
            None => None,
        }
    } else if units[0] < 0xdc00 && units.len() >= 2 && 0xdc00 <= units[1] <= 0xdfff {
        match decode_utf16(units.skip(2)) {
            Some(rest) => Some(seq![surrogate_pair(units[0], units[1]) as char] + rest),
            None => None,
        }
    } else {
        None
    }
}

/// `String::from_utf16`: the text that the code units encode in UTF-16, if
/// they are valid UTF-16.
#[verifier::external_body]
pub(crate) fn utf16_text(units: &[u16]) -> (text: Option<String>)
    ensures
        match text {
            Some(text) => decode_utf16(units@) == Some(text@),
            None => decode_utf16(units@) is None,
        },
{
    match String::from_utf16(units) {
        Ok(text) => Some(text),
        Err(_) => None,
    }
}

/// A message under construction.
#[derive(Clone, Debug)]
pub struct Message {
    text: String,
}

impl View for Message {
    type V = Seq<char>;

    closed spec fn view(&self) -> Seq<char> {
        self.text@
    }
}

impl Message {
    /// Starts a message.
    pub fn new() -> (message: Self)
        ensures
            message@ == Seq::<char>::empty(),
    {
        Self { text: String::new() }
    }

    /// Appends text.
    pub fn text(&mut self, text: &str)
        ensures
            final(self)@ == old(self)@ + text@,
    {
        self.text.append(text);
    }

    /// Appends a number in decimal notation.
    pub fn number(&mut self, value: u64)
        ensures
            final(self)@ == old(self)@ + decimal(value as nat),
        decreases value,
    {
        if value >= 10 {
            self.number(value / 10);
        }
        self.text(digit_text((value % 10) as u32));
        proof {
            assert(self@ =~= old(self)@ + decimal(value as nat));
        }
    }

    /// Appends a signed number in decimal notation.
    pub fn signed(&mut self, value: i32)
        ensures
            final(self)@ == old(self)@ + signed_decimal(value as int),
    {
        if value < 0 {
            self.text("-");
            self.number((-(value as i64)) as u64);
        } else {
            self.number(value as u64);
        }
        proof {
            assert(self@ =~= old(self)@ + signed_decimal(value as int));
        }
    }

    /// Appends a 32-bit number in hexadecimal notation, with its prefix and all
    /// of its digits.
    pub fn hexadecimal(&mut self, value: u32)
        ensures
            final(self)@ == old(self)@ + hexadecimal(value),
    {
        self.text("0x");
        self.hex_digits(value, 8);
        proof {
            assert(self@ =~= old(self)@ + hexadecimal(value));
        }
    }

    fn hex_digits(&mut self, value: u32, digits: usize)
        ensures
            final(self)@ == old(self)@ + hex_digits(value as nat, digits as nat),
        decreases digits,
    {
        if digits > 0 {
            self.hex_digits(value / 16, digits - 1);
            self.text(digit_text(value % 16));
        }
        proof {
            assert(self@ =~= old(self)@ + hex_digits(value as nat, digits as nat));
        }
    }

    /// Ends the message.
    pub fn finish(self) -> (text: String)
        ensures
            text@ == self@,
    {
        self.text
    }
}

/// Returns the text of a decimal or hexadecimal digit.
fn digit_text(value: u32) -> (text: &'static str)
    requires
        value < 16,
    ensures
        text@ == hex_digit(value as nat),
{
    proof {
        reveal_strlit("0");
        reveal_strlit("1");
        reveal_strlit("2");
        reveal_strlit("3");
        reveal_strlit("4");
        reveal_strlit("5");
        reveal_strlit("6");
        reveal_strlit("7");
        reveal_strlit("8");
        reveal_strlit("9");
        reveal_strlit("a");
        reveal_strlit("b");
        reveal_strlit("c");
        reveal_strlit("d");
        reveal_strlit("e");
        reveal_strlit("f");
    }
    match value {
        0 => "0",
        1 => "1",
        2 => "2",
        3 => "3",
        4 => "4",
        5 => "5",
        6 => "6",
        7 => "7",
        8 => "8",
        9 => "9",
        10 => "a",
        11 => "b",
        12 => "c",
        13 => "d",
        14 => "e",
        _ => "f",
    }
}

/// Returns an owned copy of a literal.
pub fn owned(text: &str) -> (copy: String)
    ensures
        copy@ == text@,
{
    text.to_owned()
}

/// The number that decimal digits stand for.
pub open spec fn read_decimal(text: Seq<char>) -> int
    decreases text.len(),
{
    if text.len() == 0 {
        0
    } else {
        10 * read_decimal(text.drop_last()) + (text.last() as int - 48)
    }
}

/// A number written in decimal reads back as itself, in digits alone and
/// without a leading zero.
pub proof fn law_decimals_read_back(value: nat)
    ensures
        read_decimal(decimal(value)) == value,
        decimal(value).len() > 0,
        forall|i: int|
            0 <= i < decimal(value).len() ==> 48 <= #[trigger] decimal(value)[i] as int <= 57,
        value > 0 ==> decimal(value)[0] as int != 48,
    decreases value,
{
    let text = decimal(value);
    if value < 10 {
        assert(text.drop_last() =~= Seq::<char>::empty());
        assert(read_decimal(Seq::<char>::empty()) == 0);
        assert(digit(value) as int == 48 + value);
        assert(text.last() == digit(value));
    } else {
        law_decimals_read_back(value / 10);
        assert(text.drop_last() =~= decimal(value / 10));
        assert(digit(value % 10) as int == 48 + value % 10);
        assert(text.last() == digit(value % 10));
        assert(text[0] == decimal(value / 10)[0]);
    }
}

/// Two numbers that are written alike are the same.
pub proof fn law_decimals_tell_numbers_apart(left: nat, right: nat)
    ensures
        decimal(left) == decimal(right) <==> left == right,
{
    law_decimals_read_back(left);
    law_decimals_read_back(right);
}

/// A negative number is written as a minus sign before the number without its
/// sign, any other as itself.
pub proof fn law_only_negative_numbers_have_a_sign(value: int)
    ensures
        signed_decimal(value)[0] == '-' <==> value < 0,
        value < 0 ==> read_decimal(signed_decimal(value).skip(1)) == -value,
        value >= 0 ==> read_decimal(signed_decimal(value)) == value,
{
    reveal_strlit("-");
    if value < 0 {
        law_decimals_read_back((-value) as nat);
        assert(signed_decimal(value).skip(1) =~= decimal((-value) as nat));
    } else {
        law_decimals_read_back(value as nat);
    }
}

/// The number that one hexadecimal digit in lower case stands for.
pub open spec fn read_hex_digit(digit: char) -> int {
    if digit as int <= 57 {
        digit as int - 48
    } else {
        digit as int - 87
    }
}

/// The number that hexadecimal digits in lower case stand for.
pub open spec fn read_hex(text: Seq<char>) -> int
    decreases text.len(),
{
    if text.len() == 0 {
        0
    } else {
        16 * read_hex(text.drop_last()) + read_hex_digit(text.last())
    }
}

proof fn lemma_hex_digits_read_back(value: nat, digits: nat)
    ensures
        hex_digits(value, digits).len() == digits,
        value < vstd::arithmetic::power::pow(16, digits) ==> read_hex(hex_digits(value, digits))
            == value,
    decreases digits,
{
    vstd::arithmetic::power::lemma_pow0(16);
    if digits > 0 {
        let shorter = (digits - 1) as nat;
        lemma_hex_digits_read_back(value / 16, shorter);
        vstd::arithmetic::power::lemma_pow_adds(16, 1, shorter);
        vstd::arithmetic::power::lemma_pow1(16);
        let text = hex_digits(value, digits);
        assert(text.drop_last() =~= hex_digits(value / 16, shorter));
        assert(text.last() == hex_digit(value % 16)[0]);
        assert(read_hex_digit(hex_digit(value % 16)[0]) == value % 16);
    }
}

/// A 32-bit value is written as `0x` and eight hexadecimal digits, which read
/// back as the value.
pub proof fn law_hexadecimals_read_back(value: u32)
    ensures
        hexadecimal(value).len() == 10,
        hexadecimal(value)[0] == '0',
        hexadecimal(value)[1] == 'x',
        read_hex(hexadecimal(value).skip(2)) == value,
{
    reveal_strlit("0x");
    lemma_hex_digits_read_back(value as nat, 8);
    assert(vstd::arithmetic::power::pow(16, 8) == 0x1_0000_0000) by {
        vstd::arithmetic::power::lemma_pow1(16);
        vstd::arithmetic::power::lemma_pow_adds(16, 1, 1);
        assert(vstd::arithmetic::power::pow(16, 2) == 0x100);
        vstd::arithmetic::power::lemma_pow_adds(16, 2, 2);
        assert(vstd::arithmetic::power::pow(16, 4) == 0x1_0000);
        vstd::arithmetic::power::lemma_pow_adds(16, 4, 4);
    }
    assert(hexadecimal(value).skip(2) =~= hex_digits(value as nat, 8));
}

} // verus!
