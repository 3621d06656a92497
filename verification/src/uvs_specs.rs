//! Contracts for the `orion_error` crate's universal reason enumeration, which
//! the generic systemic branch of [`crate::WparseReason`] wraps.  The type is
//! declared so its variants can be matched in specifications; its rendering is
//! assumed from the crate's source.

use vstd::prelude::*;

verus! {

#[verifier::external_type_specification]
pub struct ExUnifiedReason(orion_error::UnifiedReason);

#[verifier::external_type_specification]
pub struct ExConfErrReason(orion_error::reason::ConfErrReason);

/// The message `orion_error` renders for a configuration sub-reason.
pub open spec fn spec_conf_message(c: orion_error::reason::ConfErrReason) -> Seq<char> {
    match c {
        orion_error::reason::ConfErrReason::Core => "core config"@,
        orion_error::reason::ConfErrReason::Feature => "feature config error"@,
        orion_error::reason::ConfErrReason::Dynamic => "dynamic config error"@,
    }
}

/// The message `orion_error` renders for a universal reason.
pub open spec fn spec_uvs_message(u: orion_error::UnifiedReason) -> Seq<char> {
    match u {
        orion_error::UnifiedReason::ValidationError => "validation error"@,
        orion_error::UnifiedReason::BusinessError => "business logic error"@,
        orion_error::UnifiedReason::RunRuleError => "run rule error"@,
        orion_error::UnifiedReason::NotFoundError => "not found error"@,
        orion_error::UnifiedReason::PermissionError => "permission error"@,
        orion_error::UnifiedReason::DataError => "data error"@,
        orion_error::UnifiedReason::SystemError => "system error"@,
        orion_error::UnifiedReason::NetworkError => "network error"@,
        orion_error::UnifiedReason::ResourceError => "resource error"@,
        orion_error::UnifiedReason::TimeoutError => "timeout error"@,
        orion_error::UnifiedReason::ConfigError(c) => "configuration error << "@
            + spec_conf_message(c),
        orion_error::UnifiedReason::ExternalError => "external service error"@,
        orion_error::UnifiedReason::LogicError => "internal logic error"@,
    }
}

/// Relies on `UnifiedReason`'s `Display` impl: each variant renders to the
/// fixed message its source declares, with the configuration sub-reason's own
/// message appended for that branch.
#[verifier::external_body]
pub(crate) fn uvs_render(u: &orion_error::UnifiedReason) -> (r: String)
    ensures
        r@ == spec_uvs_message(*u),
{
    format!("{}", u)
}

/// Relies on `<UnifiedReason as Clone>::clone`: the derived clone returns the
/// same reason.  Needed so `Clone` can be derived for types carrying one.
pub assume_specification[ <orion_error::UnifiedReason as Clone>::clone ](
    u: &orion_error::UnifiedReason,
) -> (r: orion_error::UnifiedReason)
    ensures
        r == *u,
;

} // verus!
