use vstd::prelude::*;
use tokio::sync::mpsc::UnboundedSender;

verus! {

#[verifier::external_type_specification]
#[verifier::external_body]
#[verifier::reject_recursive_types(T)]
pub struct ExUnboundedSender<T>(UnboundedSender<T>);

} // verus!
