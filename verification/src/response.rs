use vstd::prelude::*;

verus! {

/// Declares the runtime's response type so that handler signatures can
/// return it. Its contents are reached only through `response_attrs`.
#[verifier::external_type_specification]
#[verifier::external_body]
#[verifier::reject_recursive_types(T)]
pub struct ExResponse<T>(cosmwasm_std::Response<T>);

/// Declares the runtime's unit payload type, the default custom message
/// type of a response.
#[verifier::external_type_specification]
#[verifier::external_body]
pub struct ExEmpty(cosmwasm_std::Empty);

/// The key/value attribute list a response carries.
pub uninterp spec fn response_attrs(r: cosmwasm_std::Response<cosmwasm_std::Empty>) -> Seq<
    (Seq<char>, Seq<char>),
>;

/// Relies on cosmwasm_std::Response::new: a response that carries no
/// messages, attributes, events or data.
#[verifier::external_body]
pub(crate) fn response_new() -> (r: cosmwasm_std::Response<cosmwasm_std::Empty>)
    ensures
        response_attrs(r) == Seq::<(Seq<char>, Seq<char>)>::empty(),
{
    cosmwasm_std::Response::new()
}

/// Relies on cosmwasm_std::Response::add_attribute: appends one key/value
/// pair to the response's attribute list. The underlying constructor
/// panics on keys that start with an underscore, so those are excluded.
#[verifier::external_body]
pub(crate) fn response_add_attribute(
    r: cosmwasm_std::Response<cosmwasm_std::Empty>,
    key: &str,
    value: &str,
) -> (out: cosmwasm_std::Response<cosmwasm_std::Empty>)
    requires
        key@.len() > 0 ==> key@[0] != '_',
    ensures
        response_attrs(out) == response_attrs(r).push((key@, value@)),
{
    r.add_attribute(key, value)
}

} // verus!
