use vstd::prelude::*;

use crate::categorized::TcrApiError;
use crate::container::{caught, failure_text, rendered, separator, AnyError, AnyResult, Failure};
use crate::numbers::parse_number;

verus! {

/// The value stored under `key` in a list of entries: that of the first entry
/// with that key.
pub open spec fn value_of(entries: Seq<(String, String)>, key: Seq<char>) -> Option<Seq<char>>
    decreases entries.len(),
{
    if entries.len() == 0 {
        None
    } else if entries[0].0@ == key {
        Some(entries[0].1@)
    } else {
        value_of(entries.drop_first(), key)
    }
}

/// The record that the lookups below read: the single entry `"1" -> "a"`.
pub fn get_data() -> (r: Vec<(String, String)>)
    ensures
        r@.len() == 1,
        r@[0].0@ == "1"@,
        r@[0].1@ == "a"@,
{
    let mut data: Vec<(String, String)> = Vec::new();
    data.push((String::from_str("1"), String::from_str("a")));
    data
}

/// The value stored under `key`, if any entry has that key.
pub fn lookup(data: &Vec<(String, String)>, key: &String) -> (r: Option<String>)
    ensures
        r matches Some(v) ==> value_of(data@, key@) == Some(v@),
        r is None ==> value_of(data@, key@) is None,
{
    let mut i: usize = 0;
    assert(data@.subrange(0, data@.len() as int) =~= data@);
    while i < data.len()
        invariant
            i <= data.len(),
            value_of(data@, key@) == value_of(data@.subrange(i as int, data@.len() as int), key@),
        decreases data.len() - i,
    {
        let ghost rest = data@.subrange(i as int, data@.len() as int);
        assert(rest.drop_first() =~= data@.subrange(i + 1, data@.len() as int));
        if data[i].0.eq(key) {
            return Some(data[i].1.clone());
        }
        i = i + 1;
    }
    None
}

proof fn lemma_absent_from_data(data: Seq<(String, String)>)
    requires
        data.len() == 1,
        data[0].0@ == "1"@,
    ensures
        value_of(data, "doesnt-exist"@) is None,
{
    reveal_strlit("1");
    reveal_strlit("doesnt-exist");
    assert("1"@ != "doesnt-exist"@) by {
        assert("1"@.len() != "doesnt-exist"@.len());
    }
    assert(data[0].0@ != "doesnt-exist"@);
    assert(value_of(data.drop_first(), "doesnt-exist"@) is None) by {
        assert(data.drop_first().len() == 0);
    }
}

/// Fails with a one-off message where a key is absent, and where a number
/// does not parse; the first of the two that happens is what comes back.
pub fn one_off_errors() -> (r: AnyResult<String>)
    ensures
        r matches Err(e) && e@ == caught(
            Failure::AdHoc("some error that isnt common or doesnt need to be categorized"@),
        ),
{
    let data = get_data();
    proof {
        lemma_absent_from_data(data@);
    }
    let val = match lookup(&data, &String::from_str("doesnt-exist")) {
        Some(v) => v,
        None => {
            return Err(
                AnyError::message(
                    String::from_str(
                        "some error that isnt common or doesnt need to be categorized",
                    ),
                ),
            );
        },
    };
    match parse_number("cant-parse") {
        Ok(_) => {},
        Err(e) => {
            return Err(e);
        },
    }
    Ok(val)
}

/// Fails with the categorized `FieldMissing("field name")` where a key is
/// absent, and with a foreign failure where a number does not parse.
pub fn potentially_common_error() -> (r: AnyResult<String>)
    ensures
        r matches Err(e) && e@.root matches Failure::Categorized(TcrApiError::FieldMissing(f))
            && f@ == "field name"@ && e@.contexts.len() == 0,
{
    let data = get_data();
    proof {
        lemma_absent_from_data(data@);
    }
    let val = match lookup(&data, &String::from_str("doesnt-exist")) {
        Some(v) => v,
        None => {
            return Err(
                AnyError::from_categorized(
                    TcrApiError::FieldMissing(String::from_str("field name")),
                ),
            );
        },
    };
    match parse_number("cant-parse") {
        Ok(_) => {},
        Err(e) => {
            return Err(e);
        },
    }
    Ok(val)
}

/// Returns the taxonomy's error type itself: it can report the absent key,
/// but no failure outside the taxonomy could pass through it.
pub fn cant_have_result_with_different_error_types() -> (r: Result<String, TcrApiError>)
    ensures
        r matches Err(TcrApiError::FieldMissing(f)) && f@ == "field name"@,
{
    let data = get_data();
    proof {
        lemma_absent_from_data(data@);
    }
    match lookup(&data, &String::from_str("doesnt-exist")) {
        Some(v) => Ok(v),
        None => Err(TcrApiError::FieldMissing(String::from_str("field name"))),
    }
}

/// Fails with a one-off message under one layer of context.
pub fn errors_with_context() -> (r: AnyResult<String>)
    ensures
        r matches Err(e) && e@ == caught(Failure::AdHoc("the actual error"@)).with_context(
            "context of what is going on"@,
        ),
{
    let data = get_data();
    proof {
        lemma_absent_from_data(data@);
    }
    match lookup(&data, &String::from_str("doesnt-exist")) {
        Some(v) => Ok(v),
        None => Err(
            AnyError::message(String::from_str("the actual error")).with_context(
                String::from_str("context of what is going on"),
            ),
        ),
    }
}

/// Fails with the categorized `FieldMissing("field name")` under the context
/// `"parsing name of TCR API endpoint"`; the failure renders as
/// `parsing name of TCR API endpoint: Missing field: field name` and still
/// downcasts to the categorized value.
pub fn specific_error_with_context() -> (r: AnyResult<String>)
    ensures
        r matches Err(e) && e@.contexts == seq!["parsing name of TCR API endpoint"@]
            && e@.render() == "parsing name of TCR API endpoint: Missing field: field name"@
            && (e@.downcast() matches Some(TcrApiError::FieldMissing(f)) && f@ == "field name"@),
{
    let data = get_data();
    proof {
        lemma_absent_from_data(data@);
    }
    match lookup(&data, &String::from_str("doesnt-exist")) {
        Some(v) => Ok(v),
        None => {
            let e = AnyError::from_categorized(
                TcrApiError::FieldMissing(String::from_str("field name")),
            ).with_context(String::from_str("parsing name of TCR API endpoint"));
            proof {
                let v = e@;
                assert(v.contexts =~= seq!["parsing name of TCR API endpoint"@]);
                assert(v.contexts.drop_last() =~= Seq::<Seq<char>>::empty());
                reveal_strlit("parsing name of TCR API endpoint");
                reveal_strlit("Missing field: ");
                reveal_strlit("field name");
                reveal_strlit("parsing name of TCR API endpoint: Missing field: field name");
                assert(failure_text(v.root) == "Missing field: "@ + "field name"@);
                assert(rendered(v.contexts.drop_last(), failure_text(v.root)) == failure_text(v.root));
                assert(v.render() == "parsing name of TCR API endpoint"@ + separator() + failure_text(v.root));
                assert(v.render() =~= "parsing name of TCR API endpoint: Missing field: field name"@);
            }
            Err(e)
        },
    }
}

} // verus!
