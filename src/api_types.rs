//! The values that the GraphQL API exchanges.
use vstd::prelude::*;

use crate::models::{Organization, Team, User};
use crate::text::{chars_of, string_of};

verus! {

/// The root of the API's queries.
pub struct QueryRoot;

/// The root of the API's mutations.
pub struct MutationRoot;

/// A user as the API shows it.
#[derive(Debug, Clone)]
pub struct UserGql {
    pub id: i64,
    pub name: String,
    pub email: String,
}

/// An organization as the API shows it.
#[derive(Debug, Clone)]
pub struct OrganizationGql {
    pub id: i64,
    pub name: String,
    pub slug: String,
    pub description: Option<String>,
}

/// A team as the API shows it.
#[derive(Debug, Clone)]
pub struct TeamGql {
    pub id: i64,
    pub organization_id: i64,
    pub name: String,
    pub slug: String,
    pub description: Option<String>,
}

/// A personal access token for the command-line client.
#[derive(Debug, Clone)]
pub struct AccessTokenGql {
    /// The token that the client stores and sends in the `Authorization` header.
    pub token: String,
    pub description: Option<String>,
}

impl From<User> for UserGql {
    fn from(u: User) -> (r: UserGql) {
        UserGql { id: u.id, name: u.name, email: u.email }
    }
}

impl vstd::std_specs::convert::FromSpecImpl<User> for UserGql {
    open spec fn obeys_from_spec() -> bool {
        true
    }

    open spec fn from_spec(u: User) -> UserGql {
        UserGql { id: u.id, name: u.name, email: u.email }
    }
}

impl From<Organization> for OrganizationGql {
    fn from(org: Organization) -> (r: OrganizationGql) {
        OrganizationGql { id: org.id, name: org.name, slug: org.slug, description: org.description }
    }
}

impl vstd::std_specs::convert::FromSpecImpl<Organization> for OrganizationGql {
    open spec fn obeys_from_spec() -> bool {
        true
    }

    open spec fn from_spec(org: Organization) -> OrganizationGql {
        OrganizationGql { id: org.id, name: org.name, slug: org.slug, description: org.description }
    }
}

impl From<Team> for TeamGql {
    fn from(team: Team) -> (r: TeamGql) {
        TeamGql {
            id: team.id,
            organization_id: team.organization_id,
            name: team.name,
            slug: team.slug,
            description: team.description,
        }
    }
}

impl vstd::std_specs::convert::FromSpecImpl<Team> for TeamGql {
    open spec fn obeys_from_spec() -> bool {
        true
    }

    open spec fn from_spec(team: Team) -> TeamGql {
        TeamGql {
            id: team.id,
            organization_id: team.organization_id,
            name: team.name,
            slug: team.slug,
            description: team.description,
        }
    }
}

#[derive(Debug)]
pub struct RegisterUserInput {
    pub name: String,
    pub email: String,
    pub password: String,
}

#[derive(Debug)]
pub struct RegisterUserPayload {
    pub user: UserGql,
    pub token: AccessTokenGql,
}

#[derive(Debug)]
pub struct CreateOrganizationInput {
    pub name: String,
    pub slug: String,
    pub description: Option<String>,
}

#[derive(Debug)]
pub struct CreateTeamInput {
    /// The organization that owns the team.
    pub organization_id: i64,
    pub name: String,
    pub slug: String,
    pub description: Option<String>,
}

/// Why a request carries no usable access token.
#[derive(Debug, PartialEq, Eq, Structural)]
pub enum AuthHeaderError {
    /// The `Authorization` header does not start with `Bearer `.
    InvalidFormat,
}

/// The token of an `Authorization: Bearer <token>` header value.
pub fn bearer_token(header: &str) -> (r: Result<String, AuthHeaderError>)
    ensures
        header@.len() >= 7 && header@.subrange(0, 7) == "Bearer "@ ==> (r matches Ok(t) && t@
            == header@.subrange(7, header@.len() as int)),
        !(header@.len() >= 7 && header@.subrange(0, 7) == "Bearer "@) ==> r
            == Err::<String, AuthHeaderError>(AuthHeaderError::InvalidFormat),
{
    let cs = chars_of(header);
    let prefix = chars_of("Bearer ");
    proof {
        reveal_strlit("Bearer ");
    }
    if cs.len() < 7 {
        return Err(AuthHeaderError::InvalidFormat);
    }
    let mut k: usize = 0;
    while k < 7
        invariant
            k <= 7 <= cs@.len(),
            prefix@ == "Bearer "@,
            cs@ == header@,
            prefix@.len() == 7,
            forall|m: int| 0 <= m < k ==> cs@[m] == #[trigger] prefix@[m],
        decreases 7 - k,
    {
        if cs[k] != prefix[k] {
            assert(cs@.subrange(0, 7)[k as int] != prefix@[k as int]);
            return Err(AuthHeaderError::InvalidFormat);
        }
        k = k + 1;
    }
    assert(cs@.subrange(0, 7) =~= prefix@);
    Ok(string_of(&cs, 7, cs.len()))
}

} // verus!
