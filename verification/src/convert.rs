//! Conversion rules from native types into the value model.  Every supported
//! native scalar, collection and calendar type converts totally; there is no
//! fallible path.

use vstd::prelude::*;
use vstd::std_specs::convert::FromSpecImpl;
use vstd::string::StringExecFns;

use crate::general::{json_view, Date, DateTime, JsonValue, JsonView, NaiveChrono, SqlValue};

verus! {

impl From<JsonValue> for SqlValue {
    fn from(value: JsonValue) -> Self {
        SqlValue::GenericValue(value)
    }
}

impl FromSpecImpl<JsonValue> for SqlValue {
    open spec fn obeys_from_spec() -> bool {
        true
    }

    open spec fn from_spec(v: JsonValue) -> Self {
        SqlValue::GenericValue(v)
    }
}

impl From<&JsonValue> for SqlValue {
    fn from(value: &JsonValue) -> Self {
        SqlValue::GenericValue(value.clone())
    }
}

impl FromSpecImpl<&JsonValue> for SqlValue {
    open spec fn obeys_from_spec() -> bool {
        false
    }

    open spec fn from_spec(v: &JsonValue) -> Self {
        SqlValue::GenericValue(*v)
    }
}

impl From<Vec<JsonValue>> for SqlValue {
    fn from(value: Vec<JsonValue>) -> Self {
        SqlValue::GenericValue(JsonValue::Array(value))
    }
}

impl FromSpecImpl<Vec<JsonValue>> for SqlValue {
    open spec fn obeys_from_spec() -> bool {
        true
    }

    open spec fn from_spec(v: Vec<JsonValue>) -> Self {
        SqlValue::GenericValue(JsonValue::Array(v))
    }
}

impl From<String> for SqlValue {
    fn from(value: String) -> Self {
        SqlValue::GenericValue(JsonValue::Text(value))
    }
}

impl FromSpecImpl<String> for SqlValue {
    open spec fn obeys_from_spec() -> bool {
        true
    }

    open spec fn from_spec(v: String) -> Self {
        SqlValue::GenericValue(JsonValue::Text(v))
    }
}

impl From<&str> for SqlValue {
    fn from(value: &str) -> Self {
        SqlValue::GenericValue(JsonValue::Text(String::from_str(value)))
    }
}

impl FromSpecImpl<&str> for SqlValue {
    open spec fn obeys_from_spec() -> bool {
        false
    }

    open spec fn from_spec(v: &str) -> Self {
        SqlValue::GenericValue(JsonValue::Null)
    }
}

impl From<&String> for SqlValue {
    fn from(value: &String) -> Self {
        SqlValue::GenericValue(JsonValue::Text(value.clone()))
    }
}

impl FromSpecImpl<&String> for SqlValue {
    open spec fn obeys_from_spec() -> bool {
        false
    }

    open spec fn from_spec(v: &String) -> Self {
        SqlValue::GenericValue(JsonValue::Text(*v))
    }
}

impl From<bool> for SqlValue {
    fn from(value: bool) -> Self {
        SqlValue::GenericValue(JsonValue::Bool(value))
    }
}

impl FromSpecImpl<bool> for SqlValue {
    open spec fn obeys_from_spec() -> bool {
        true
    }

    open spec fn from_spec(v: bool) -> Self {
        SqlValue::GenericValue(JsonValue::Bool(v))
    }
}

impl From<i8> for SqlValue {
    fn from(value: i8) -> Self {
        SqlValue::GenericValue(JsonValue::Number(value as i64))
    }
}

impl FromSpecImpl<i8> for SqlValue {
    open spec fn obeys_from_spec() -> bool {
        true
    }

    open spec fn from_spec(v: i8) -> Self {
        SqlValue::GenericValue(JsonValue::Number(v as i64))
    }
}

impl From<i16> for SqlValue {
    fn from(value: i16) -> Self {
        SqlValue::GenericValue(JsonValue::Number(value as i64))
    }
}

impl FromSpecImpl<i16> for SqlValue {
    open spec fn obeys_from_spec() -> bool {
        true
    }

    open spec fn from_spec(v: i16) -> Self {
        SqlValue::GenericValue(JsonValue::Number(v as i64))
    }
}

impl From<i32> for SqlValue {
    fn from(value: i32) -> Self {
        SqlValue::GenericValue(JsonValue::Number(value as i64))
    }
}

impl FromSpecImpl<i32> for SqlValue {
    open spec fn obeys_from_spec() -> bool {
        true
    }

    open spec fn from_spec(v: i32) -> Self {
        SqlValue::GenericValue(JsonValue::Number(v as i64))
    }
}

impl From<i64> for SqlValue {
    fn from(value: i64) -> Self {
        SqlValue::GenericValue(JsonValue::Number(value))
    }
}

impl FromSpecImpl<i64> for SqlValue {
    open spec fn obeys_from_spec() -> bool {
        true
    }

    open spec fn from_spec(v: i64) -> Self {
        SqlValue::GenericValue(JsonValue::Number(v))
    }
}

impl From<isize> for SqlValue {
    fn from(value: isize) -> Self {
        SqlValue::GenericValue(JsonValue::Number(value as i64))
    }
}

impl FromSpecImpl<isize> for SqlValue {
    open spec fn obeys_from_spec() -> bool {
        true
    }

    open spec fn from_spec(v: isize) -> Self {
        SqlValue::GenericValue(JsonValue::Number(v as i64))
    }
}

impl From<u64> for SqlValue {
    fn from(value: u64) -> Self {
        SqlValue::GenericValue(JsonValue::Number(#[verifier::truncate] (value as i64)))
    }
}

impl FromSpecImpl<u64> for SqlValue {
    open spec fn obeys_from_spec() -> bool {
        true
    }

    open spec fn from_spec(v: u64) -> Self {
        SqlValue::GenericValue(JsonValue::Number(v as i64))
    }
}

impl From<Date> for SqlValue {
    fn from(value: Date) -> Self {
        SqlValue::NaiveChrono(NaiveChrono::NaiveDate(value))
    }
}

impl FromSpecImpl<Date> for SqlValue {
    open spec fn obeys_from_spec() -> bool {
        true
    }

    open spec fn from_spec(v: Date) -> Self {
        SqlValue::NaiveChrono(NaiveChrono::NaiveDate(v))
    }
}

impl From<DateTime> for SqlValue {
    fn from(value: DateTime) -> Self {
        SqlValue::NaiveChrono(NaiveChrono::NaiveDateTime(value))
    }
}

impl FromSpecImpl<DateTime> for SqlValue {
    open spec fn obeys_from_spec() -> bool {
        true
    }

    open spec fn from_spec(v: DateTime) -> Self {
        SqlValue::NaiveChrono(NaiveChrono::NaiveDateTime(v))
    }
}

fn texts_from_strs(value: Vec<&str>) -> (r: Vec<JsonValue>)
    ensures
        r@.len() == value@.len(),
        forall|j: int| 0 <= j < value@.len() ==> json_view(r@[j]) == JsonView::Text(value@[j]@),
{
    let mut items: Vec<JsonValue> = Vec::new();
    let mut i: usize = 0;
    while i < value.len()
        invariant
            i <= value@.len(),
            items@.len() == i as int,
            forall|j: int| 0 <= j < i as int ==> json_view(items@[j]) == JsonView::Text(
                value@[j]@,
            ),
        decreases value@.len() - i,
    {
        items.push(JsonValue::Text(String::from_str(value[i])));
        i = i + 1;
    }
    items
}

impl From<Vec<&str>> for SqlValue {
    fn from(value: Vec<&str>) -> Self {
        SqlValue::GenericValue(JsonValue::Array(texts_from_strs(value)))
    }
}

impl FromSpecImpl<Vec<&str>> for SqlValue {
    open spec fn obeys_from_spec() -> bool {
        false
    }

    open spec fn from_spec(v: Vec<&str>) -> Self {
        SqlValue::GenericValue(JsonValue::Null)
    }
}

impl From<Vec<String>> for SqlValue {
    fn from(value: Vec<String>) -> Self {
        let mut items: Vec<JsonValue> = Vec::new();
        let mut value = value;
        let n = value.len();
        let mut i: usize = 0;
        while i < n
            invariant
                n == value@.len(),
                i <= n,
            decreases n - i,
        {
            items.push(JsonValue::Text(value[i].clone()));
            i = i + 1;
        }
        SqlValue::GenericValue(JsonValue::Array(items))
    }
}

impl FromSpecImpl<Vec<String>> for SqlValue {
    open spec fn obeys_from_spec() -> bool {
        false
    }

    open spec fn from_spec(v: Vec<String>) -> Self {
        SqlValue::GenericValue(JsonValue::Null)
    }
}

impl From<Vec<&String>> for SqlValue {
    fn from(value: Vec<&String>) -> Self {
        let mut items: Vec<JsonValue> = Vec::new();
        let n = value.len();
        let mut i: usize = 0;
        while i < n
            invariant
                n == value@.len(),
                i <= n,
            decreases n - i,
        {
            items.push(JsonValue::Text(value[i].clone()));
            i = i + 1;
        }
        SqlValue::GenericValue(JsonValue::Array(items))
    }
}

impl FromSpecImpl<Vec<&String>> for SqlValue {
    open spec fn obeys_from_spec() -> bool {
        false
    }

    open spec fn from_spec(v: Vec<&String>) -> Self {
        SqlValue::GenericValue(JsonValue::Null)
    }
}

fn numbers_from_i64s(value: &Vec<i64>) -> (r: Vec<JsonValue>)
    ensures
        r@.len() == value@.len(),
        forall|j: int| 0 <= j < value@.len() ==> r@[j] == (JsonValue::Number(value@[j])),
{
    let mut items: Vec<JsonValue> = Vec::new();
    let mut i: usize = 0;
    while i < value.len()
        invariant
            i <= value@.len(),
            items@.len() == i as int,
            forall|j: int| 0 <= j < i as int ==> items@[j] == JsonValue::Number(value@[j]),
        decreases value@.len() - i,
    {
        items.push(JsonValue::Number(value[i]));
        i = i + 1;
    }
    items
}

impl From<Vec<i64>> for SqlValue {
    fn from(value: Vec<i64>) -> Self {
        SqlValue::GenericValue(JsonValue::Array(numbers_from_i64s(&value)))
    }
}

impl FromSpecImpl<Vec<i64>> for SqlValue {
    open spec fn obeys_from_spec() -> bool {
        false
    }

    open spec fn from_spec(v: Vec<i64>) -> Self {
        SqlValue::GenericValue(JsonValue::Null)
    }
}

impl From<Vec<i32>> for SqlValue {
    fn from(value: Vec<i32>) -> Self {
        let mut items: Vec<JsonValue> = Vec::new();
        let n = value.len();
        let mut i: usize = 0;
        while i < n
            invariant
                n == value@.len(),
                i <= n,
            decreases n - i,
        {
            items.push(JsonValue::Number(value[i] as i64));
            i = i + 1;
        }
        SqlValue::GenericValue(JsonValue::Array(items))
    }
}

impl FromSpecImpl<Vec<i32>> for SqlValue {
    open spec fn obeys_from_spec() -> bool {
        false
    }

    open spec fn from_spec(v: Vec<i32>) -> Self {
        SqlValue::GenericValue(JsonValue::Null)
    }
}

impl From<Vec<i16>> for SqlValue {
    fn from(value: Vec<i16>) -> Self {
        let mut items: Vec<JsonValue> = Vec::new();
        let n = value.len();
        let mut i: usize = 0;
        while i < n
            invariant
                n == value@.len(),
                i <= n,
            decreases n - i,
        {
            items.push(JsonValue::Number(value[i] as i64));
            i = i + 1;
        }
        SqlValue::GenericValue(JsonValue::Array(items))
    }
}

impl FromSpecImpl<Vec<i16>> for SqlValue {
    open spec fn obeys_from_spec() -> bool {
        false
    }

    open spec fn from_spec(v: Vec<i16>) -> Self {
        SqlValue::GenericValue(JsonValue::Null)
    }
}

impl From<Vec<i8>> for SqlValue {
    fn from(value: Vec<i8>) -> Self {
        let mut items: Vec<JsonValue> = Vec::new();
        let n = value.len();
        let mut i: usize = 0;
        while i < n
            invariant
                n == value@.len(),
                i <= n,
            decreases n - i,
        {
            items.push(JsonValue::Number(value[i] as i64));
            i = i + 1;
        }
        SqlValue::GenericValue(JsonValue::Array(items))
    }
}

impl FromSpecImpl<Vec<i8>> for SqlValue {
    open spec fn obeys_from_spec() -> bool {
        false
    }

    open spec fn from_spec(v: Vec<i8>) -> Self {
        SqlValue::GenericValue(JsonValue::Null)
    }
}

impl From<Vec<isize>> for SqlValue {
    fn from(value: Vec<isize>) -> Self {
        let mut items: Vec<JsonValue> = Vec::new();
        let n = value.len();
        let mut i: usize = 0;
        while i < n
            invariant
                n == value@.len(),
                i <= n,
            decreases n - i,
        {
            items.push(JsonValue::Number(value[i] as i64));
            i = i + 1;
        }
        SqlValue::GenericValue(JsonValue::Array(items))
    }
}

impl FromSpecImpl<Vec<isize>> for SqlValue {
    open spec fn obeys_from_spec() -> bool {
        false
    }

    open spec fn from_spec(v: Vec<isize>) -> Self {
        SqlValue::GenericValue(JsonValue::Null)
    }
}

impl From<bool> for JsonValue {
    fn from(value: bool) -> Self {
        JsonValue::Bool(value)
    }
}

impl FromSpecImpl<bool> for JsonValue {
    open spec fn obeys_from_spec() -> bool {
        true
    }

    open spec fn from_spec(v: bool) -> Self {
        JsonValue::Bool(v)
    }
}

impl From<i32> for JsonValue {
    fn from(value: i32) -> Self {
        JsonValue::Number(value as i64)
    }
}

impl FromSpecImpl<i32> for JsonValue {
    open spec fn obeys_from_spec() -> bool {
        true
    }

    open spec fn from_spec(v: i32) -> Self {
        JsonValue::Number(v as i64)
    }
}

impl From<i64> for JsonValue {
    fn from(value: i64) -> Self {
        JsonValue::Number(value)
    }
}

impl FromSpecImpl<i64> for JsonValue {
    open spec fn obeys_from_spec() -> bool {
        true
    }

    open spec fn from_spec(v: i64) -> Self {
        JsonValue::Number(v)
    }
}

impl From<String> for JsonValue {
    fn from(value: String) -> Self {
        JsonValue::Text(value)
    }
}

impl FromSpecImpl<String> for JsonValue {
    open spec fn obeys_from_spec() -> bool {
        true
    }

    open spec fn from_spec(v: String) -> Self {
        JsonValue::Text(v)
    }
}

impl From<&str> for JsonValue {
    fn from(value: &str) -> Self {
        JsonValue::Text(String::from_str(value))
    }
}

impl FromSpecImpl<&str> for JsonValue {
    open spec fn obeys_from_spec() -> bool {
        false
    }

    open spec fn from_spec(v: &str) -> Self {
        JsonValue::Null
    }
}

impl From<Vec<JsonValue>> for JsonValue {
    fn from(value: Vec<JsonValue>) -> Self {
        JsonValue::Array(value)
    }
}

impl FromSpecImpl<Vec<JsonValue>> for JsonValue {
    open spec fn obeys_from_spec() -> bool {
        true
    }

    open spec fn from_spec(v: Vec<JsonValue>) -> Self {
        JsonValue::Array(v)
    }
}

impl From<Vec<i32>> for JsonValue {
    fn from(value: Vec<i32>) -> Self {
        let mut items: Vec<JsonValue> = Vec::new();
        let n = value.len();
        let mut i: usize = 0;
        while i < n
            invariant
                n == value@.len(),
                i <= n,
            decreases n - i,
        {
            items.push(JsonValue::Number(value[i] as i64));
            i = i + 1;
        }
        JsonValue::Array(items)
    }
}

impl FromSpecImpl<Vec<i32>> for JsonValue {
    open spec fn obeys_from_spec() -> bool {
        false
    }

    open spec fn from_spec(v: Vec<i32>) -> Self {
        JsonValue::Null
    }
}

impl From<Vec<&str>> for JsonValue {
    fn from(value: Vec<&str>) -> Self {
        JsonValue::Array(texts_from_strs(value))
    }
}

impl FromSpecImpl<Vec<&str>> for JsonValue {
    open spec fn obeys_from_spec() -> bool {
        false
    }

    open spec fn from_spec(v: Vec<&str>) -> Self {
        JsonValue::Null
    }
}

} // verus!
