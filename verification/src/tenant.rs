use vstd::prelude::*;
use crate::error::AppError;
use crate::text::text_eq;

verus! {

/// The three kinds of tenant of the platform.
#[derive(Clone, Copy, Debug, PartialEq, Eq, Structural)]
pub enum TenantType {
    Provider,
    Market,
    Customer,
}

/// The text that stands for a tenant type (in tokens and in storage).
pub open spec fn spec_tenant_text(t: TenantType) -> Seq<char> {
    match t {
        TenantType::Provider => "PROVIDER"@,
        TenantType::Market => "MARKET"@,
        TenantType::Customer => "CUSTOMER"@,
    }
}

/// The tenant type that a text stands for, if any.
pub open spec fn spec_parse_tenant(s: Seq<char>) -> Option<TenantType> {
    if s == "PROVIDER"@ {
        Some(TenantType::Provider)
    } else if s == "MARKET"@ {
        Some(TenantType::Market)
    } else if s == "CUSTOMER"@ {
        Some(TenantType::Customer)
    } else {
        None
    }
}

impl TenantType {
    pub fn as_str(&self) -> (s: &'static str)
        ensures
            s@ == spec_tenant_text(*self),
    {
        match self {
            TenantType::Provider => "PROVIDER",
            TenantType::Market => "MARKET",
            TenantType::Customer => "CUSTOMER",
        }
    }

    /// The tenant type written as `text`, if `text` is one of the three names.
    pub fn parse(text: &str) -> (r: Option<TenantType>)
        ensures
            r == spec_parse_tenant(text@),
    {
        if text_eq(text, "PROVIDER") {
            Some(TenantType::Provider)
        } else if text_eq(text, "MARKET") {
            Some(TenantType::Market)
        } else if text_eq(text, "CUSTOMER") {
            Some(TenantType::Customer)
        } else {
            None
        }
    }

    /// The tenant type of a token, refused with `Validation("无效的租户类型")`
    /// when the text names none.
    pub fn from_claim(text: &str) -> (r: Result<TenantType, AppError>)
        ensures
            match spec_parse_tenant(text@) {
                Some(t) => r == Ok::<TenantType, AppError>(t),
                None => r matches Err(AppError::Validation(m)) && m@ == "无效的租户类型"@,
            },
    {
        match TenantType::parse(text) {
            Some(t) => Ok(t),
            None => Err(AppError::validation("无效的租户类型")),
        }
    }
}

/// Parsing the text of a tenant type gives the tenant type back.
pub proof fn law_tenant_text_round_trip(t: TenantType)
    ensures
        spec_parse_tenant(spec_tenant_text(t)) == Some(t),
{
    reveal_strlit("PROVIDER");
    reveal_strlit("MARKET");
    reveal_strlit("CUSTOMER");
    match t {
        TenantType::Provider => {},
        TenantType::Market => {
            assert("MARKET"@[0] != "PROVIDER"@[0]);
        },
        TenantType::Customer => {
            assert("CUSTOMER"@[0] != "PROVIDER"@[0]);
            assert("CUSTOMER"@[0] != "MARKET"@[0]);
        },
    }
}

} // verus!
