use vstd::prelude::*;

verus! {

/// What is known of a tenant-with-admin request while it is being put
/// together: each field, once given.
pub ghost struct TenantAdminDraft {
    pub name: Option<Seq<char>>,
    pub tenant_type: Option<Seq<char>>,
    pub tenant_name: Option<Seq<char>>,
    pub tenant_hash_name: Option<Seq<char>>,
    pub username: Option<Seq<char>>,
    pub hashed_password: Option<Seq<char>>,
    pub role: Option<Seq<char>>,
}

/// Everything needed to create a tenant together with its first
/// administrator account.
#[derive(Debug)]
pub struct CreateTenantWithAdminParams {
    pub name: String,
    pub tenant_type: String,
    pub tenant_name: String,
    pub tenant_hash_name: String,
    pub username: String,
    pub hashed_password: String,
    pub role: String,
}

/// Collects the fields of a `CreateTenantWithAdminParams` one by one.
pub struct CreateTenantWithAdminParamsBuilder {
    tenant_type: Option<String>,
    tenant_name: Option<String>,
    tenant_hash_name: Option<String>,
    username: Option<String>,
    hashed_password: Option<String>,
    role: Option<String>,
    name: Option<String>,
}

pub open spec fn text_of(t: Option<String>) -> Option<Seq<char>> {
    match t {
        Some(s) => Some(s@),
        None => None,
    }
}

impl View for CreateTenantWithAdminParamsBuilder {
    type V = TenantAdminDraft;

    closed spec fn view(&self) -> TenantAdminDraft {
        TenantAdminDraft {
            name: text_of(self.name),
            tenant_type: text_of(self.tenant_type),
            tenant_name: text_of(self.tenant_name),
            tenant_hash_name: text_of(self.tenant_hash_name),
            username: text_of(self.username),
            hashed_password: text_of(self.hashed_password),
            role: text_of(self.role),
        }
    }
}

/// A draft with nothing given yet.
pub open spec fn empty_draft() -> TenantAdminDraft {
    TenantAdminDraft {
        name: None,
        tenant_type: None,
        tenant_name: None,
        tenant_hash_name: None,
        username: None,
        hashed_password: None,
        role: None,
    }
}

/// The message of the first missing field, in the order the fields are
/// checked, or `None` when every field was given.
pub open spec fn first_missing(d: TenantAdminDraft) -> Option<Seq<char>> {
    if d.name is None {
        Some("name is required"@)
    } else if d.tenant_type is None {
        Some("tenant_type is required"@)
    } else if d.tenant_name is None {
        Some("tenant_name is required"@)
    } else if d.tenant_hash_name is None {
        Some("tenant_hash_name is required"@)
    } else if d.username is None {
        Some("username is required"@)
    } else if d.hashed_password is None {
        Some("hashed_password is required"@)
    } else if d.role is None {
        Some("role is required"@)
    } else {
        None
    }
}

/// `p` carries exactly the fields of the complete draft `d`.
pub open spec fn params_match(p: CreateTenantWithAdminParams, d: TenantAdminDraft) -> bool {
    &&& d.name == Some(p.name@)
    &&& d.tenant_type == Some(p.tenant_type@)
    &&& d.tenant_name == Some(p.tenant_name@)
    &&& d.tenant_hash_name == Some(p.tenant_hash_name@)
    &&& d.username == Some(p.username@)
    &&& d.hashed_password == Some(p.hashed_password@)
    &&& d.role == Some(p.role@)
}

fn take_text(t: Option<String>, missing: &'static str) -> (r: Result<String, &'static str>)
    ensures
        match t {
            Some(s) => r == Ok::<String, &'static str>(s),
            None => r == Err::<String, &'static str>(missing),
        },
{
    match t {
        Some(s) => Ok(s),
        None => Err(missing),
    }
}

impl CreateTenantWithAdminParams {
    /// A builder with no field given.
    pub fn builder() -> (b: CreateTenantWithAdminParamsBuilder)
        ensures
            b@ == empty_draft(),
    {
        CreateTenantWithAdminParamsBuilder {
            tenant_type: None,
            tenant_name: None,
            tenant_hash_name: None,
            username: None,
            hashed_password: None,
            role: None,
            name: None,
        }
    }
}

impl CreateTenantWithAdminParamsBuilder {
    /// Gives the display name of the administrator.
    pub fn name(self, name: &str) -> (b: Self)
        ensures
            b@ == (TenantAdminDraft { name: Some(name@), ..self@ }),
    {
        CreateTenantWithAdminParamsBuilder { name: Some(name.to_owned()), ..self }
    }

    /// Gives the tenant type.
    pub fn tenant_type(self, tenant_type: &str) -> (b: Self)
        ensures
            b@ == (TenantAdminDraft { tenant_type: Some(tenant_type@), ..self@ }),
    {
        CreateTenantWithAdminParamsBuilder { tenant_type: Some(tenant_type.to_owned()), ..self }
    }

    /// Gives the tenant's name.
    pub fn tenant_name(self, tenant_name: &str) -> (b: Self)
        ensures
            b@ == (TenantAdminDraft { tenant_name: Some(tenant_name@), ..self@ }),
    {
        CreateTenantWithAdminParamsBuilder { tenant_name: Some(tenant_name.to_owned()), ..self }
    }

    /// Gives the short hash that identifies the tenant.
    pub fn tenant_hash_name(self, tenant_hash_name: &str) -> (b: Self)
        ensures
            b@ == (TenantAdminDraft { tenant_hash_name: Some(tenant_hash_name@), ..self@ }),
    {
        CreateTenantWithAdminParamsBuilder {
            tenant_hash_name: Some(tenant_hash_name.to_owned()),
            ..self
        }
    }

    /// Gives the administrator's login name.
    pub fn username(self, username: &str) -> (b: Self)
        ensures
            b@ == (TenantAdminDraft { username: Some(username@), ..self@ }),
    {
        CreateTenantWithAdminParamsBuilder { username: Some(username.to_owned()), ..self }
    }

    /// Gives the administrator's password hash.
    pub fn hashed_password(self, hashed_password: &str) -> (b: Self)
        ensures
            b@ == (TenantAdminDraft { hashed_password: Some(hashed_password@), ..self@ }),
    {
        CreateTenantWithAdminParamsBuilder {
            hashed_password: Some(hashed_password.to_owned()),
            ..self
        }
    }

    /// Gives the administrator's role.
    pub fn role(self, role: &str) -> (b: Self)
        ensures
            b@ == (TenantAdminDraft { role: Some(role@), ..self@ }),
    {
        CreateTenantWithAdminParamsBuilder { role: Some(role.to_owned()), ..self }
    }

    /// The finished parameters when every field was given; otherwise the
    /// message of the first missing field, checked in the order name,
    /// tenant type, tenant name, tenant hash, username, password hash, role.
    pub fn build(self) -> (r: Result<CreateTenantWithAdminParams, &'static str>)
        ensures
            match first_missing(self@) {
                Some(msg) => r matches Err(e) && e@ == msg,
                None => r matches Ok(p) && params_match(p, self@),
            },
    {
        let name = match take_text(self.name, "name is required") {
            Ok(s) => s,
            Err(e) => {
                proof {
                    reveal_strlit("name is required");
                }
                return Err(e);
            },
        };
        let tenant_type = match take_text(self.tenant_type, "tenant_type is required") {
            Ok(s) => s,
            Err(e) => {
                proof {
                    reveal_strlit("tenant_type is required");
                }
                return Err(e);
            },
        };
        let tenant_name = match take_text(self.tenant_name, "tenant_name is required") {
            Ok(s) => s,
            Err(e) => {
                proof {
                    reveal_strlit("tenant_name is required");
                }
                return Err(e);
            },
        };
        let tenant_hash_name = match take_text(
            self.tenant_hash_name,
            "tenant_hash_name is required",
        ) {
            Ok(s) => s,
            Err(e) => {
                proof {
                    reveal_strlit("tenant_hash_name is required");
                }
                return Err(e);
            },
        };
        let username = match take_text(self.username, "username is required") {
            Ok(s) => s,
            Err(e) => {
                proof {
                    reveal_strlit("username is required");
                }
                return Err(e);
            },
        };
        let hashed_password = match take_text(self.hashed_password, "hashed_password is required") {
            Ok(s) => s,
            Err(e) => {
                proof {
                    reveal_strlit("hashed_password is required");
                }
                return Err(e);
            },
        };
        let role = match take_text(self.role, "role is required") {
            Ok(s) => s,
            Err(e) => {
                proof {
                    reveal_strlit("role is required");
                }
                return Err(e);
            },
        };
        Ok(
            CreateTenantWithAdminParams {
                name,
                tenant_type,
                tenant_name,
                tenant_hash_name,
                username,
                hashed_password,
                role,
            },
        )
    }
}

} // verus!
