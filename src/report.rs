use vstd::prelude::*;

verus! {

/// eyre's `Report`, carried through without being looked into.
#[verifier::external_type_specification]
#[verifier::external_body]
pub struct ExReport(eyre::Report);

/// anyhow's `Error`, carried through without being looked into.
#[verifier::external_type_specification]
#[verifier::external_body]
pub struct ExAnyhowError(anyhow::Error);

/// An error of the light client, on its way to the host.
pub struct NapiEyreReport(pub eyre::Report);

/// An error raised while preparing a result, on its way to the host.
pub struct NapiAnyhowError(pub anyhow::Error);

} // verus!
