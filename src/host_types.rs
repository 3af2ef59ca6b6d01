//! Host types that the relay carries through without looking inside.

use vstd::prelude::*;

verus! {

#[verifier::external_type_specification]
#[verifier::external_body]
#[verifier::reject_recursive_types(T)]
pub struct ExSubMsg<T>(cosmwasm_std::SubMsg<T>);

#[verifier::external_type_specification]
#[verifier::external_body]
pub struct ExAttribute(cosmwasm_std::Attribute);

#[verifier::external_type_specification]
#[verifier::external_body]
pub struct ExEvent(cosmwasm_std::Event);

#[verifier::external_type_specification]
#[verifier::external_body]
pub struct ExEmpty(cosmwasm_std::Empty);

#[verifier::external_type_specification]
#[verifier::external_body]
pub struct ExStdError(cosmwasm_std::StdError);

#[verifier::external_type_specification]
#[verifier::external_body]
pub struct ExParseReplyError(cw_utils::ParseReplyError);

} // verus!
