//! JSON as the portal writes it: values, whole numbers of any size, and
//! shorthand for looking into a value.

use vstd::prelude::*;
use vstd::string::*;
use vstd::utf8::*;

verus! {

/// Whether `c` is one of the ten decimal digits.
pub open spec fn is_digit(c: char) -> bool {
    '0' <= c <= '9'
}

/// The number that a run of decimal digits writes.
pub open spec fn digits_value(digits: Seq<char>) -> nat
    decreases digits.len(),
{
    if digits.len() == 0 {
        0
    } else {
        (digits_value(digits.drop_last()) * 10 + (digits.last() as u32 - 0x30)) as nat
    }
}

/// Whether `text` starts with a minus sign.
pub open spec fn is_negative(text: Seq<char>) -> bool {
    text.len() > 0 && text[0] == '-'
}

/// The digits of `text`: all of it but the minus sign.
pub open spec fn digits_of(text: Seq<char>) -> Seq<char> {
    if is_negative(text) {
        text.drop_first()
    } else {
        text
    }
}

/// Whether `text` writes a whole number in the one way there is to write it:
/// an optional minus sign, then at least one decimal digit, no zero in front
/// of another digit, and no minus sign in front of a lone zero.
pub open spec fn is_numeral(text: Seq<char>) -> bool {
    let digits = digits_of(text);
    &&& digits.len() > 0
    &&& forall|i: int| 0 <= i < digits.len() ==> is_digit(#[trigger] digits[i])
    &&& digits[0] == '0' ==> digits.len() == 1 && !is_negative(text)
}

/// The whole number that `text` writes.
pub open spec fn numeral_value(text: Seq<char>) -> int {
    if is_negative(text) {
        -(digits_value(digits_of(text)) as int)
    } else {
        digits_value(digits_of(text)) as int
    }
}

/// A run of digits writes at least what any of its beginnings writes.
pub proof fn digits_value_grows(digits: Seq<char>, n: int)
    requires
        0 <= n <= digits.len(),
        forall|i: int| 0 <= i < digits.len() ==> is_digit(#[trigger] digits[i]),
    ensures
        digits_value(digits.take(n)) <= digits_value(digits),
    decreases digits.len() - n,
{
    if n == digits.len() {
        assert(digits.take(n) =~= digits);
    } else {
        digits_value_grows(digits, n + 1);
        let longer = digits.take(n + 1);
        assert(longer.drop_last() =~= digits.take(n));
        assert(is_digit(longer.last()));
    }
}

/// A numeral with a minus sign writes a number below zero.
pub proof fn negative_numeral_is_below_zero(text: Seq<char>)
    requires
        is_numeral(text),
        is_negative(text),
    ensures
        numeral_value(text) < 0,
{
    digits_without_a_leading_zero_are_above_zero(digits_of(text));
}

/// A run of digits that does not start with a zero writes a number above
/// zero.
pub proof fn digits_without_a_leading_zero_are_above_zero(digits: Seq<char>)
    requires
        digits.len() > 0,
        forall|i: int| 0 <= i < digits.len() ==> is_digit(#[trigger] digits[i]),
        digits[0] != '0',
    ensures
        digits_value(digits) > 0,
{
    digits_value_grows(digits, 1);
    let first = digits.take(1);
    assert(first.drop_last() =~= Seq::<char>::empty());
    assert(is_digit(digits[0]));
    assert(digits_value(first) == (digits[0] as u32 - 0x30) as nat) by {
        reveal_with_fuel(digits_value, 2);
    }
}

/// Whether `digits` are decimal digits, at least one, with no zero in front
/// of another digit.
pub open spec fn is_plain_numeral(digits: Seq<char>) -> bool {
    &&& digits.len() > 0
    &&& forall|i: int| 0 <= i < digits.len() ==> is_digit(#[trigger] digits[i])
    &&& digits[0] == '0' ==> digits.len() == 1
}

/// Two runs of digits without needless zeros that write the same number are
/// the same run.
pub proof fn plain_numerals_are_unique(first: Seq<char>, second: Seq<char>)
    requires
        is_plain_numeral(first),
        is_plain_numeral(second),
        digits_value(first) == digits_value(second),
    ensures
        first == second,
    decreases first.len(),
{
    let first_rest = first.drop_last();
    let second_rest = second.drop_last();
    assert(is_digit(first.last()));
    assert(is_digit(second.last()));
    assert(first.last() == second.last());
    assert(digits_value(first_rest) == digits_value(second_rest));
    assert forall|i: int| 0 <= i < first_rest.len() implies is_digit(
        #[trigger] first_rest[i],
    ) by {
        assert(first_rest[i] == first[i]);
    }
    assert forall|i: int| 0 <= i < second_rest.len() implies is_digit(
        #[trigger] second_rest[i],
    ) by {
        assert(second_rest[i] == second[i]);
    }
    if first_rest.len() > 0 {
        assert(first_rest[0] == first[0]);
        digits_without_a_leading_zero_are_above_zero(first_rest);
    }
    if second_rest.len() > 0 {
        assert(second_rest[0] == second[0]);
        digits_without_a_leading_zero_are_above_zero(second_rest);
    }
    if first_rest.len() > 0 {
        plain_numerals_are_unique(first_rest, second_rest);
    }
    assert(first =~= first_rest.push(first.last()));
    assert(second =~= second_rest.push(second.last()));
}

/// Two numerals that write the same number are the same numeral.
pub proof fn numerals_are_unique(first: Seq<char>, second: Seq<char>)
    requires
        is_numeral(first),
        is_numeral(second),
        numeral_value(first) == numeral_value(second),
    ensures
        first == second,
{
    if is_negative(first) {
        negative_numeral_is_below_zero(first);
    }
    if is_negative(second) {
        negative_numeral_is_below_zero(second);
    }
    plain_numerals_are_unique(digits_of(first), digits_of(second));
    if is_negative(first) {
        assert(first =~= seq!['-'] + digits_of(first));
        assert(second =~= seq!['-'] + digits_of(second));
    }
}

/// A numeral holds nothing but ASCII.
pub proof fn numeral_is_ascii(text: Seq<char>)
    requires
        is_numeral(text),
    ensures
        is_ascii_chars(text),
{
    assert forall|i: int| 0 <= i < text.len() implies '\0' <= #[trigger] text[i] <= '\u{7f}' by {
        if is_negative(text) {
            if i > 0 {
                assert(is_digit(digits_of(text)[i - 1]));
            }
        } else {
            assert(is_digit(digits_of(text)[i]));
        }
    }
}

/// A string that definitely contains a number: a whole number of any size,
/// in decimal.
#[derive(Debug)]
pub struct StrNum {
    representation: String,
}

impl View for StrNum {
    type V = Seq<char>;

    closed spec fn view(&self) -> Seq<char> {
        self.representation@
    }
}

impl Clone for StrNum {
    fn clone(&self) -> (res: Self)
        ensures
            res == *self,
    {
        proof {
            use_type_invariant(self);
        }
        StrNum { representation: self.representation.clone() }
    }
}

impl StrNum {
    #[verifier::type_invariant]
    spec fn well_formed(self) -> bool {
        is_numeral(self.representation@)
    }

    /// The whole number that is held.
    pub open spec fn value(&self) -> int {
        numeral_value(self@)
    }

    /// Takes `representation` where it is a numeral, and refuses it where it
    /// is anything else.
    pub fn new(representation: String) -> (res: Option<Self>)
        ensures
            res is Some <==> is_numeral(representation@),
            res matches Some(number) ==> number@ == representation@,
    {
        if !representation.as_str().is_ascii() {
            proof {
                if is_numeral(representation@) {
                    numeral_is_ascii(representation@);
                }
            }
            return None;
        }
        let bytes = representation.as_str().as_bytes();
        proof {
            is_ascii_chars_encode_utf8(representation@);
        }
        let len = bytes.len();
        let start: usize = if len > 0 && bytes[0] == 0x2d {
            1
        } else {
            0
        };
        let ghost text = representation@;
        let ghost digits = digits_of(text);
        assert(is_negative(text) <==> start == 1);
        assert(digits.len() == len - start);
        assert(forall|k: int| 0 <= k < digits.len() ==> digits[k] == text[k + start]);
        if len == start {
            return None;
        }
        if bytes[start] == 0x30 && (len - start > 1 || start == 1) {
            assert(digits[0] == '0');
            return None;
        }
        let mut i: usize = start;
        while i < len
            invariant
                start <= i <= len,
                text == representation@,
                digits == digits_of(text),
                len == text.len(),
                bytes@.len() == len,
                is_ascii_chars(text),
                forall|k: int| 0 <= k < len ==> text[k] as u8 == #[trigger] bytes@[k],
                digits.len() == len - start,
                forall|k: int| 0 <= k < digits.len() ==> digits[k] == text[k + start],
                forall|k: int| 0 <= k < i - start ==> is_digit(#[trigger] digits[k]),
            decreases len - i,
        {
            let byte = bytes[i];
            if byte < 0x30 || byte > 0x39 {
                assert(!is_digit(digits[i - start])) by {
                    assert('\0' <= text[i as int] <= '\u{7f}');
                }
                return None;
            }
            assert(is_digit(digits[i - start])) by {
                assert('\0' <= text[i as int] <= '\u{7f}');
            }
            i = i + 1;
        }
        assert(digits[0] == '0' ==> digits.len() == 1 && !is_negative(text)) by {
            assert('\0' <= text[start as int] <= '\u{7f}');
        }
        Some(StrNum { representation })
    }

    /// The numeral, as it is written.
    pub fn representation(&self) -> (res: &str)
        ensures
            res@ == self@,
            is_numeral(res@),
    {
        proof {
            use_type_invariant(self);
        }
        self.representation.as_str()
    }

    /// Whether both hold the same number, which is to say the same numeral.
    pub fn same_as(&self, other: &StrNum) -> (res: bool)
        ensures
            res == (self@ == other@),
            res == (self.value() == other.value()),
    {
        proof {
            use_type_invariant(self);
            use_type_invariant(other);
            if self.value() == other.value() {
                numerals_are_unique(self@, other@);
            }
        }
        self.representation == other.representation
    }

    /// The number as an index, where it is one: not below zero, and not above
    /// what `usize` holds.
    pub fn to_usize(&self) -> (res: Option<usize>)
        ensures
            res is Some <==> 0 <= self.value() <= usize::MAX,
            res matches Some(index) ==> index == self.value(),
    {
        proof {
            use_type_invariant(self);
        }
        let ghost text = self.representation@;
        let bytes = self.representation.as_str().as_bytes();
        proof {
            numeral_is_ascii(text);
            is_ascii_chars_encode_utf8(text);
        }
        let len = bytes.len();
        if bytes[0] == 0x2d {
            proof {
                negative_numeral_is_below_zero(text);
            }
            return None;
        }
        assert(!is_negative(text)) by {
            assert('\0' <= text[0] <= '\u{7f}');
        }
        let mut total: usize = 0;
        let mut i: usize = 0;
        while i < len
            invariant
                i <= len,
                len == text.len(),
                bytes@.len() == len,
                self.value() == digits_value(text),
                is_ascii_chars(text),
                forall|k: int| 0 <= k < len ==> text[k] as u8 == #[trigger] bytes@[k],
                forall|k: int| 0 <= k < len ==> is_digit(#[trigger] text[k]),
                total == digits_value(text.take(i as int)),
            decreases len - i,
        {
            let byte = bytes[i];
            assert(is_digit(text[i as int]));
            assert(0x30 <= byte <= 0x39);
            let digit: usize = (byte - 0x30) as usize;
            let ghost longer = text.take(i + 1);
            assert(longer.drop_last() =~= text.take(i as int));
            assert(digits_value(longer) == total * 10 + digit);
            proof {
                digits_value_grows(text, i + 1);
            }
            let scaled = match total.checked_mul(10) {
                Some(scaled) => scaled,
                None => {
                    return None;
                },
            };
            total = match scaled.checked_add(digit) {
                Some(sum) => sum,
                None => {
                    return None;
                },
            };
            i = i + 1;
        }
        assert(text.take(len as int) =~= text);
        Some(total)
    }
}

/// A JSON value.
#[derive(Debug)]
pub enum JsonValue {
    Null,
    Bool(bool),
    /// A number, as it is written.
    Number(String),
    String(String),
    Array(Vec<JsonValue>),
    /// The members of an object, each with its name.
    Object(Vec<(String, JsonValue)>),
}

/// The value of the first of `members` whose name is `key`.
pub open spec fn first_member(members: Seq<(String, JsonValue)>, key: Seq<char>) -> Option<
    JsonValue,
>
    decreases members.len(),
{
    if members.len() == 0 {
        None
    } else if members[0].0@ == key {
        Some(members[0].1)
    } else {
        first_member(members.drop_first(), key)
    }
}

/// The whole number that `value` is, as it is written: `value` is a number,
/// and its text is a numeral.
pub open spec fn number_of(value: Option<JsonValue>) -> Option<Seq<char>> {
    match value {
        Some(JsonValue::Number(text)) => if is_numeral(text@) {
            Some(text@)
        } else {
            None
        },
        _ => None,
    }
}

/// The text that `value` is, where it is a string.
pub open spec fn string_of(value: Option<JsonValue>) -> Option<Seq<char>> {
    match value {
        Some(JsonValue::String(text)) => Some(text@),
        _ => None,
    }
}

/// The member named `key` of `value`, where `value` is an object that has
/// one.
pub open spec fn member_of(value: Option<JsonValue>, key: Seq<char>) -> Option<JsonValue> {
    match value {
        Some(JsonValue::Object(members)) => first_member(members@, key),
        _ => None,
    }
}

/// The element at `index` of `value`, where `value` is an array that is long
/// enough.
pub open spec fn element_of(value: Option<JsonValue>, index: int) -> Option<JsonValue> {
    match value {
        Some(JsonValue::Array(elements)) => if 0 <= index < elements@.len() {
            Some(elements@[index])
        } else {
            None
        },
        _ => None,
    }
}

/// Shorthand for looking into a JSON value, or into what an earlier look
/// gave: a look into nothing gives nothing.
pub trait Json where Self: Sized {
    /// The value that is looked into, if there is one.
    spec fn value(&self) -> Option<JsonValue>;

    fn number(&self) -> (res: Option<StrNum>)
        ensures
            match res {
                Some(number) => number_of(self.value()) == Some(number@),
                None => number_of(self.value()) is None,
            },
    ;

    fn string(&self) -> (res: Option<&str>)
        ensures
            match res {
                Some(text) => string_of(self.value()) == Some(text@),
                None => string_of(self.value()) is None,
            },
    ;

    fn get(&self, key: &str) -> (res: Option<&JsonValue>)
        ensures
            match res {
                Some(member) => member_of(self.value(), key@) == Some(*member),
                None => member_of(self.value(), key@) is None,
            },
    ;

    fn index(&self, index: usize) -> (res: Option<&JsonValue>)
        ensures
            match res {
                Some(element) => element_of(self.value(), index as int) == Some(*element),
                None => element_of(self.value(), index as int) is None,
            },
    ;
}

impl Json for JsonValue {
    open spec fn value(&self) -> Option<JsonValue> {
        Some(*self)
    }

    fn number(&self) -> (res: Option<StrNum>) {
        match self {
            JsonValue::Number(text) => StrNum::new(text.clone()),
            _ => None,
        }
    }

    fn string(&self) -> (res: Option<&str>) {
        match self {
            JsonValue::String(text) => Some(text.as_str()),
            _ => None,
        }
    }

    fn get(&self, key: &str) -> (res: Option<&JsonValue>) {
        match self {
            JsonValue::Object(members) => {
                let wanted = String::from_str(key);
                let mut i: usize = 0;
                assert(members@.skip(0) =~= members@);
                while i < members.len()
                    invariant
                        i <= members@.len(),
                        wanted@ == key@,
                        *self == JsonValue::Object(*members),
                        first_member(members@, key@) == first_member(
                            members@.skip(i as int),
                            key@,
                        ),
                    decreases members@.len() - i,
                {
                    let ghost rest = members@.skip(i as int);
                    assert(rest[0] == members@[i as int]);
                    assert(rest.drop_first() =~= members@.skip(i + 1));
                    if members[i].0 == wanted {
                        return Some(&members[i].1);
                    }
                    i = i + 1;
                }
                None
            },
            _ => None,
        }
    }

    fn index(&self, index: usize) -> (res: Option<&JsonValue>) {
        match self {
            JsonValue::Array(elements) => {
                if index >= elements.len() {
                    None
                } else {
                    Some(&elements[index])
                }
            },
            _ => None,
        }
    }
}

impl<'a> Json for Option<&'a JsonValue> {
    open spec fn value(&self) -> Option<JsonValue> {
        match self {
            Some(object) => Some(**object),
            None => None,
        }
    }

    fn number(&self) -> (res: Option<StrNum>) {
        match self {
            Some(object) => object.number(),
            None => None,
        }
    }

    fn string(&self) -> (res: Option<&str>) {
        match self {
            Some(object) => object.string(),
            None => None,
        }
    }

    fn get(&self, key: &str) -> (res: Option<&JsonValue>) {
        match self {
            Some(object) => object.get(key),
            None => None,
        }
    }

    fn index(&self, index: usize) -> (res: Option<&JsonValue>) {
        match self {
            Some(object) => object.index(index),
            None => None,
        }
    }
}

} // verus!
