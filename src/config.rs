use vstd::prelude::*;
use zed_extension_api::serde_json::Value;

verus! {

#[verifier::external_type_specification]
#[verifier::external_body]
pub struct ExValue(Value);

/// The value that a JSON pointer addresses in a document, as serde_json's
/// `Value::pointer` finds it.
pub uninterp spec fn json_pointer(doc: Value, pointer: Seq<char>) -> Option<Value>;

/// The text of a JSON string value, as serde_json's `Value::as_str` gives it.
pub uninterp spec fn json_str(v: Value) -> Option<Seq<char>>;

/// Relies on serde_json's `Value::pointer`: looks a JSON pointer up in a
/// document; the result depends on the document and the pointer alone.
pub assume_specification<'a>[ Value::pointer ](v: &'a Value, pointer: &str) -> (r: Option<
    &'a Value,
>)
    ensures
        match r {
            Some(x) => json_pointer(*v, pointer@) == Some(*x),
            None => json_pointer(*v, pointer@) is None,
        },
;

/// Relies on serde_json's `Value::as_str`: the text of a string value, `None`
/// for any other value.
pub assume_specification<'a>[ Value::as_str ](v: &'a Value) -> (r: Option<&'a str>)
    ensures
        match r {
            Some(t) => json_str(*v) == Some(t@),
            None => json_str(*v) is None,
        },
;

/// The text of the `otp_version` field of a settings document: `None` without
/// a document, without that field, or where it is not a string.
pub open spec fn otp_field_of(configuration: Option<Value>) -> Option<Seq<char>> {
    match configuration {
        None => None,
        Some(d) => match json_pointer(d, "/otp_version"@) {
            Some(f) => json_str(f),
            None => None,
        },
    }
}

/// The launch override of one server: an executable path and its arguments.
pub struct CommandSettings {
    pub path: Option<String>,
    pub arguments: Option<Vec<String>>,
}

/// The runtime version tag that a settings document asks for in its
/// `otp_version` field; `None` without a document, without that field, or
/// where it is not a string.
pub fn get_otp_version(configuration: &Option<Value>) -> (r: Option<String>)
    ensures
        r is Some <==> otp_field_of(*configuration) is Some,
        r is Some ==> r->0@ == otp_field_of(*configuration)->0,
{
    match configuration {
        Some(document) => match document.pointer("/otp_version") {
            Some(field) => match field.as_str() {
                Some(text) => Some(String::from_str(text)),
                None => None,
            },
            None => None,
        },
        None => None,
    }
}

/// The configured executable path, if any.
pub fn get_binary_path(binary_settings: &Option<CommandSettings>) -> (r: Option<String>)
    ensures
        r == (match binary_settings {
            Some(s) => s.path,
            None => None,
        }),
{
    match binary_settings {
        Some(s) => match &s.path {
            Some(p) => Some(p.clone()),
            None => None,
        },
        None => None,
    }
}

/// The configured launch arguments, if any.
pub fn get_binary_args(binary_settings: &Option<CommandSettings>) -> (r: Option<Vec<String>>)
    ensures
        r is Some <==> (binary_settings is Some && binary_settings->0.arguments is Some),
        r is Some ==> r->0@ == binary_settings->0.arguments->0@,
{
    match binary_settings {
        Some(s) => match &s.arguments {
            Some(a) => {
                let c = a.clone();
                assert(c@ =~= a@);
                Some(c)
            },
            None => None,
        },
        None => None,
    }
}

} // verus!
