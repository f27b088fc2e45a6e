use vstd::prelude::*;

use crate::error::RuntimeError;

verus! {

/// Information about the function whose logs are forwarded: who owns it and
/// which role grants access to the owner's log service.
#[derive(Clone, Debug, PartialEq)]
pub struct FunctionInfo {
    pub id: String,
    pub name: String,
    pub cloudwatch_logs_assume_role_arn: String,
}

/// The value of one attribute of a lookup-table item, as far as the logic
/// reads it: a string, or something else.
#[derive(Clone, Debug, PartialEq)]
pub enum AttributeValue {
    S(String),
    Other,
}

/// The string held under `key` in `item` (the first entry with that key),
/// or `None` where the key is absent or its value is not a string.
pub open spec fn string_attr(item: Seq<(String, AttributeValue)>, key: Seq<char>) -> Option<String>
    decreases item.len(),
{
    if item.len() == 0 {
        None
    } else if item[0].0@ == key {
        match item[0].1 {
            AttributeValue::S(s) => Some(s),
            AttributeValue::Other => None,
        }
    } else {
        string_attr(item.drop_first(), key)
    }
}

/// `e` reports the missing field `field`.
pub open spec fn names_missing_field(e: RuntimeError, field: Seq<char>) -> bool {
    e matches RuntimeError::MissingField(f) && f@ == field
}

/// What reading a `FunctionInfo` from a lookup-table item gives: the three
/// fields where all are strings, else an error naming the first one of `id`,
/// `name`, `cloudwatch_logs_assume_role_arn` that is not.
pub open spec fn item_read_as(item: Seq<(String, AttributeValue)>, r: Result<FunctionInfo, RuntimeError>) -> bool {
    match (
        string_attr(item, "id"@),
        string_attr(item, "name"@),
        string_attr(item, "cloudwatch_logs_assume_role_arn"@),
    ) {
        (Some(id), Some(name), Some(arn)) => r == Ok::<FunctionInfo, RuntimeError>(
            FunctionInfo { id, name, cloudwatch_logs_assume_role_arn: arn },
        ),
        (None, _, _) => r matches Err(e) && names_missing_field(e, "id"@),
        (Some(_), None, _) => r matches Err(e) && names_missing_field(e, "name"@),
        (Some(_), Some(_), None) => r matches Err(e) && names_missing_field(
            e,
            "cloudwatch_logs_assume_role_arn"@,
        ),
    }
}

/// The string attribute `key` of `item`.
pub fn get_s(item: &Vec<(String, AttributeValue)>, key: &String) -> (r: Option<String>)
    ensures
        r == string_attr(item@, key@),
{
    let mut i: usize = 0;
    assert(item@.subrange(0, item@.len() as int) == item@);
    while i < item.len()
        invariant
            i <= item@.len(),
            string_attr(item@, key@) == string_attr(item@.subrange(i as int, item@.len() as int), key@),
        decreases item@.len() - i,
    {
        let rest = Ghost(item@.subrange(i as int, item@.len() as int));
        assert(rest@.drop_first() == item@.subrange(i as int + 1, item@.len() as int));
        let entry = &item[i];
        if entry.0 == *key {
            return match &entry.1 {
                AttributeValue::S(s) => Some(s.clone()),
                AttributeValue::Other => None,
            };
        }
        i = i + 1;
    }
    None
}

impl FunctionInfo {
    /// Reads the function information from a lookup-table item. This fails
    /// where the item lacks one of the fields, naming the first one missing.
    pub fn from_item(item: &Vec<(String, AttributeValue)>) -> (r: Result<FunctionInfo, RuntimeError>)
        ensures
            item_read_as(item@, r),
    {
        let id = match get_s(item, &"id".to_owned()) {
            Some(id) => id,
            None => return Err(RuntimeError::MissingField("id".to_owned())),
        };
        let name = match get_s(item, &"name".to_owned()) {
            Some(name) => name,
            None => return Err(RuntimeError::MissingField("name".to_owned())),
        };
        let arn = match get_s(item, &"cloudwatch_logs_assume_role_arn".to_owned()) {
            Some(arn) => arn,
            None => return Err(
                RuntimeError::MissingField("cloudwatch_logs_assume_role_arn".to_owned()),
            ),
        };
        Ok(FunctionInfo { id, name, cloudwatch_logs_assume_role_arn: arn })
    }
}

} // verus!
