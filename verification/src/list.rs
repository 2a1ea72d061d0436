//! A record that Perl code passes either as one value or as the list of its three texts.

use crate::decimal::{decimal, decimal_text, law_decimal_is_read_back, number_of};
use vstd::prelude::*;
use vstd::string::StringExecFns;

verus! {

#[derive(Debug)]
pub struct TestStruct {
    pub first: String,
    pub second: String,
    pub third: String,
}

/// One Perl value, as what deserializing it gives: read as a text, and read as a record. Where it
/// was not or could not be read so, a message stands in place of the value.
pub struct Value {
    pub text: Result<String, String>,
    pub record: Result<TestStruct, String>,
}

/// How the values of a list are read.
#[derive(Debug)]
pub enum Reading {
    /// The one value is read as a record.
    Record,
    /// Each of the three values is read as a text.
    Texts,
}

/// Why a list of Perl values is no record.
#[derive(Debug)]
pub enum ListError {
    /// The list is empty.
    Empty,
    /// The list has neither one value nor three.
    Count(usize),
    /// A value could not be deserialized, with the message of that failure.
    Value(String),
}

impl ListError {
    pub open spec fn text(self) -> Seq<char> {
        match self {
            ListError::Empty => "empty list"@,
            ListError::Count(n) => "expected 1 or 3 parameters, got "@ + decimal(n as nat),
            ListError::Value(message) => message@,
        }
    }

    /// The message that is reported to Perl.
    pub fn message(&self) -> (r: String)
        ensures
            r@ == self.text(),
    {
        match self {
            ListError::Empty => "empty list".to_owned(),
            ListError::Count(n) => {
                let mut text = "expected 1 or 3 parameters, got ".to_owned();
                text.append(decimal_text(*n).as_str());
                text
            },
            ListError::Value(message) => message.clone(),
        }
    }
}

/// The three texts of a record, each in square brackets.
pub open spec fn bracketed(first: Seq<char>, second: Seq<char>, third: Seq<char>) -> Seq<char> {
    "["@ + first + "] ["@ + second + "] ["@ + third + "]"@
}

/// How a list of so many values is read.
pub open spec fn reading_of(count: nat) -> Result<Reading, ListError> {
    if count == 0 {
        Err(ListError::Empty)
    } else if count == 1 {
        Ok(Reading::Record)
    } else if count == 3 {
        Ok(Reading::Texts)
    } else {
        Err(ListError::Count(count as usize))
    }
}

/// Decides how a list of so many values is read.
pub fn reading(count: usize) -> (r: Result<Reading, ListError>)
    ensures
        r == reading_of(count as nat),
{
    match count {
        0 => Err(ListError::Empty),
        1 => Ok(Reading::Record),
        3 => Ok(Reading::Texts),
        n => Err(ListError::Count(n)),
    }
}

/// The record that a list of Perl values stands for: the one value read as a record, or three
/// values read as texts. Of several values that cannot be read, the first one decides the error.
pub open spec fn list_record(all: Seq<Value>) -> Result<TestStruct, ListError> {
    match reading_of(all.len()) {
        Ok(Reading::Record) => match all[0].record {
            Ok(record) => Ok(record),
            Err(message) => Err(ListError::Value(message)),
        },
        Ok(Reading::Texts) => match (all[0].text, all[1].text, all[2].text) {
            (Ok(first), Ok(second), Ok(third)) => Ok(TestStruct { first, second, third }),
            (Err(message), _, _) => Err(ListError::Value(message)),
            (_, Err(message), _) => Err(ListError::Value(message)),
            (_, _, Err(message)) => Err(ListError::Value(message)),
        },
        Err(error) => Err(error),
    }
}

fn read_text(value: &Value) -> (r: Result<String, ListError>)
    ensures
        r == (match value.text {
            Ok(text) => Ok(text),
            Err(message) => Err(ListError::Value(message)),
        }),
{
    match &value.text {
        Ok(text) => Ok(text.clone()),
        Err(message) => Err(ListError::Value(message.clone())),
    }
}

/// Shows the record that a list of Perl values stands for.
pub fn maybe_struct(all: &Vec<Value>) -> (r: Result<String, ListError>)
    ensures
        match list_record(all@) {
            Ok(record) => r matches Ok(shown) && shown@ == bracketed(
                record.first@,
                record.second@,
                record.third@,
            ),
            Err(error) => r == Err::<String, ListError>(error),
        },
{
    let test = match reading(all.len())? {
        Reading::Record => match &all[0].record {
            Ok(record) => TestStruct {
                first: record.first.clone(),
                second: record.second.clone(),
                third: record.third.clone(),
            },
            Err(message) => return Err(ListError::Value(message.clone())),
        },
        Reading::Texts => {
            let first = read_text(&all[0])?;
            let second = read_text(&all[1])?;
            let third = read_text(&all[2])?;
            TestStruct { first, second, third }
        },
    };

    let mut shown = "[".to_owned();
    shown.append(test.first.as_str());
    shown.append("] [");
    shown.append(test.second.as_str());
    shown.append("] [");
    shown.append(test.third.as_str());
    shown.append("]");
    Ok(shown)
}

/// What a list stands for depends on nothing but the readings that its count calls for.
pub proof fn law_only_called_for_readings_count(a: Seq<Value>, b: Seq<Value>)
    requires
        a.len() == b.len(),
        match reading_of(a.len()) {
            Ok(Reading::Record) => a[0].record == b[0].record,
            Ok(Reading::Texts) => forall|i: int|
                0 <= i < a.len() ==> (#[trigger] a[i]).text == (#[trigger] b[i]).text,
            Err(_) => true,
        },
    ensures
        list_record(a) == list_record(b),
{
    if a.len() == 3 {
        assert(a[0].text == b[0].text && a[1].text == b[1].text && a[2].text == b[2].text);
    }
}

/// A record and the list of its three texts stand for the same record.
pub proof fn law_record_or_its_texts(record: TestStruct, one: Seq<Value>, three: Seq<Value>)
    requires
        one.len() == 1,
        one[0].record == Ok::<TestStruct, String>(record),
        three.len() == 3,
        three[0].text == Ok::<String, String>(record.first),
        three[1].text == Ok::<String, String>(record.second),
        three[2].text == Ok::<String, String>(record.third),
    ensures
        list_record(one) == list_record(three),
        list_record(one) == Ok::<TestStruct, ListError>(record),
{
}

/// Of three values, the first one that cannot be read as a text decides the error, whatever the
/// others are; and a list of one value fails with what reading its record failed with.
pub proof fn law_first_unreadable_value_decides(all: Seq<Value>, i: int, message: String)
    requires
        all.len() == 3,
        0 <= i < 3,
        forall|j: int| 0 <= j < i ==> (#[trigger] all[j]).text is Ok,
        all[i].text == Err::<String, String>(message),
    ensures
        list_record(all) == Err::<TestStruct, ListError>(ListError::Value(message)),
{
    assert(forall|j: int| 0 <= j < i ==> (#[trigger] all[j]).text is Ok);
    if i > 0 {
        assert(all[0].text is Ok);
    }
    if i > 1 {
        assert(all[1].text is Ok);
    }
}

/// A record is shown with its three texts in their order, whatever they hold: each of them is found
/// again behind an opening bracket, with a closing one behind it and one space between two.
pub proof fn law_shown_texts_are_found_again(a: Seq<char>, b: Seq<char>, c: Seq<char>)
    ensures
        ({
            let shown = bracketed(a, b, c);
            let p = a.len() as int;
            let q = p + b.len();
            &&& shown.len() == a.len() + b.len() + c.len() + 8
            &&& shown.subrange(1, p + 1) == a
            &&& shown.subrange(p + 4, q + 4) == b
            &&& shown.subrange(q + 7, shown.len() - 1) == c
            &&& shown[0] == '[' && shown[p + 3] == '[' && shown[q + 6] == '['
            &&& shown[p + 1] == ']' && shown[q + 4] == ']' && shown.last() == ']'
            &&& shown[p + 2] == ' ' && shown[q + 5] == ' '
        }),
{
    reveal_strlit("[");
    reveal_strlit("] [");
    reveal_strlit("]");
    let shown = bracketed(a, b, c);
    let p = a.len() as int;
    let q = p + b.len();
    assert(shown.subrange(1, p + 1) =~= a);
    assert(shown.subrange(p + 4, q + 4) =~= b);
    assert(shown.subrange(q + 7, shown.len() - 1) =~= c);
}

/// Only one value and three values are read, and an error says how many others there are: no other
/// error comes with the same text.
pub proof fn law_counts_that_are_read(count: nat)
    requires
        count <= usize::MAX,
    ensures
        reading_of(count) is Ok <==> count == 1 || count == 3,
        reading_of(count) == Ok::<Reading, ListError>(Reading::Record) <==> count == 1,
        reading_of(count) == Err::<Reading, ListError>(ListError::Empty) <==> count == 0,
        reading_of(count) matches Err(ListError::Count(n)) ==> n == count && number_of(
            ListError::Count(n).text().skip("expected 1 or 3 parameters, got "@.len() as int),
        ) == count,
{
    law_decimal_is_read_back(count);
    assert(("expected 1 or 3 parameters, got "@ + decimal(count)).skip(
        "expected 1 or 3 parameters, got "@.len() as int,
    ) =~= decimal(count));
}

} // verus!
