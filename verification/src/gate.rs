use vstd::prelude::*;
use vstd::string::StrSliceExecFns;
use crate::models::User;
use crate::text::str_eq;

verus! {

/// The claims carried by a session token: user identity, role and expiry
/// in seconds since the epoch.
pub struct Claims {
    pub id: i64,
    pub first_name: String,
    pub last_name: String,
    pub email: String,
    pub role_id: i32,
    pub exp: usize,
}

impl Clone for Claims {
    fn clone(&self) -> (r: Self)
        ensures
            r == *self,
    {
        Claims {
            id: self.id,
            first_name: self.first_name.clone(),
            last_name: self.last_name.clone(),
            email: self.email.clone(),
            role_id: self.role_id,
            exp: self.exp,
        }
    }
}

/// What a route demands of the caller's role.
#[derive(Debug, Clone)]
pub struct AuthorizationConfig {
    pub required_roles: Vec<i32>,
    pub check_permissions: bool,
}

impl Default for AuthorizationConfig {
    /// No role restriction at all.
    fn default() -> (r: Self)
        ensures
            r.required_roles@.len() == 0,
            !r.check_permissions,
    {
        AuthorizationConfig { required_roles: Vec::new(), check_permissions: false }
    }
}

/// The request-interception step that guards a route: it validates the
/// bearer token, checks the revocation list, reloads the user and enforces
/// role membership, in that order, failing fast.
pub struct Authorization {
    pub config: AuthorizationConfig,
}

/// The state after one checking step: either the next fact to fetch, or
/// the final answer for the request.
pub enum GateStep {
    /// The bearer token parsed; ask the store whether it is revoked.
    AskRevocation { token: String },
    /// The token is not revoked; decode and check its signature and expiry.
    AskDecode { token: String },
    /// The claims decoded; load the active user they name.
    AskUser { token: String, claims: Claims },
    /// The request is rejected with this HTTP status.
    Reject { status: u16 },
    /// The request may proceed with this resolved context.
    Allow { token: String, claims: Claims, user: User },
}

/// The token of a well-formed `Bearer` authorization header.
pub open spec fn spec_bearer_token(h: Seq<char>) -> Option<Seq<char>> {
    if h.len() >= 7 && h.take(7) == "Bearer "@ {
        Some(h.skip(7))
    } else {
        None
    }
}

/// The outcome over the complete evidence of one request: `None` means
/// the handler runs; `Some(status)` is the rejection.
pub open spec fn spec_gate_status(
    roles: Seq<i32>,
    header: Option<Seq<char>>,
    revoked: bool,
    decoded: Option<Claims>,
    found: Option<User>,
) -> Option<u16> {
    match header {
        None => Some(401u16),
        Some(h) => match spec_bearer_token(h) {
            None => Some(401u16),
            Some(_token) => if revoked {
                Some(401u16)
            } else {
                match decoded {
                    None => Some(401u16),
                    Some(_claims) => match found {
                        None => Some(401u16),
                        Some(user) => if roles.len() > 0 && !roles.contains(user.role_id) {
                            Some(403u16)
                        } else {
                            None
                        },
                    },
                }
            },
        },
    }
}

/// A token the store marks revoked is rejected with 401, whatever the
/// header shape, the decode outcome, the user lookup and the route's role
/// demands are: there is no grace period and no path past the check.
pub proof fn lemma_revoked_token_rejected(
    roles: Seq<i32>,
    header: Option<Seq<char>>,
    decoded: Option<Claims>,
    found: Option<User>,
)
    ensures
        spec_gate_status(roles, header, true, decoded, found) == Some(401u16),
{
}

fn parse_bearer(h: &str) -> (r: Option<String>)
    ensures
        match r {
            Some(t) => spec_bearer_token(h@) == Some(t@),
            None => spec_bearer_token(h@) is None,
        },
{
    proof {
        reveal_strlit("Bearer ");
    }
    let n = h.unicode_len();
    if n < 7 {
        return None;
    }
    if h.get_char(0) != 'B' || h.get_char(1) != 'e' || h.get_char(2) != 'a' || h.get_char(3) != 'r'
        || h.get_char(4) != 'e' || h.get_char(5) != 'r' || h.get_char(6) != ' ' {
        proof {
            assert(h@.take(7) != "Bearer "@) by {
                if h@.take(7) == "Bearer "@ {
                    assert(h@.take(7)[0] == h@[0]);
                    assert(h@.take(7)[1] == h@[1]);
                    assert(h@.take(7)[2] == h@[2]);
                    assert(h@.take(7)[3] == h@[3]);
                    assert(h@.take(7)[4] == h@[4]);
                    assert(h@.take(7)[5] == h@[5]);
                    assert(h@.take(7)[6] == h@[6]);
                }
            }
        }
        return None;
    }
    let t = h.substring_char(7, n);
    proof {
        assert(h@.take(7) =~= "Bearer "@);
        assert(t@ =~= h@.skip(7));
    }
    Some(t.to_owned())
}

fn roles_contain(roles: &Vec<i32>, role: i32) -> (r: bool)
    ensures
        r == roles@.contains(role),
{
    let n = roles.len();
    let mut i: usize = 0;
    while i < n
        invariant
            0 <= i <= n,
            n == roles@.len(),
            forall|j: int| 0 <= j < i ==> roles@[j] != role,
        decreases n - i,
    {
        if roles[i] == role {
            return true;
        }
        i += 1;
    }
    false
}

impl Authorization {
    pub fn new(config: AuthorizationConfig) -> (r: Self)
        ensures
            r.config == config,
    {
        Authorization { config }
    }

    pub fn require_roles(roles: Vec<i32>) -> (r: Self)
        ensures
            r.config.required_roles == roles,
            !r.config.check_permissions,
    {
        Authorization {
            config: AuthorizationConfig { required_roles: roles, check_permissions: false },
        }
    }

    /// Only the administrator role may pass.
    pub fn require_admin() -> (r: Self)
        ensures
            r.config.required_roles@ == seq![1i32],
            !r.config.check_permissions,
    {
        let roles: Vec<i32> = vec![1];
        proof {
            assert(roles@ =~= seq![1i32]);
        }
        Self::require_roles(roles)
    }

    /// Only the regular-user role may pass.
    pub fn require_user() -> (r: Self)
        ensures
            r.config.required_roles@ == seq![2i32],
            !r.config.check_permissions,
    {
        let roles: Vec<i32> = vec![2];
        proof {
            assert(roles@ =~= seq![2i32]);
        }
        Self::require_roles(roles)
    }

    /// The first gate step: a missing header or one not of the shape
    /// `Bearer <token>` is rejected with 401; otherwise the token goes to
    /// the revocation check.
    pub fn on_header(&self, header: Option<&str>) -> (r: GateStep)
        ensures
            match header {
                None => (r matches GateStep::Reject { status } && status == 401),
                Some(h) => match spec_bearer_token(h@) {
                    Some(t) => (r matches GateStep::AskRevocation { token } && token@ == t),
                    None => (r matches GateStep::Reject { status } && status == 401),
                },
            },
    {
        match header {
            None => GateStep::Reject { status: 401 },
            Some(h) => match parse_bearer(h) {
                Some(token) => GateStep::AskRevocation { token },
                None => GateStep::Reject { status: 401 },
            },
        }
    }

    /// The second step: a token the store marks revoked is rejected with
    /// 401; an unrevoked one goes to signature and expiry checking.
    pub fn on_revocation(&self, token: String, revoked: bool) -> (r: GateStep)
        ensures
            revoked ==> (r matches GateStep::Reject { status } && status == 401),
            !revoked ==> (r matches GateStep::AskDecode { token: t } && t == token),
    {
        if revoked {
            GateStep::Reject { status: 401 }
        } else {
            GateStep::AskDecode { token }
        }
    }

    /// The third step: a token whose signature or expiry fails to decode is
    /// rejected with 401; valid claims go to the user lookup.
    pub fn on_decode(&self, token: String, decoded: Option<Claims>) -> (r: GateStep)
        ensures
            match decoded {
                None => (r matches GateStep::Reject { status } && status == 401),
                Some(c) => (r matches GateStep::AskUser { token: t, claims } && t == token
                    && claims == c),
            },
    {
        match decoded {
            None => GateStep::Reject { status: 401 },
            Some(claims) => GateStep::AskUser { token, claims },
        }
    }

    /// The last step: a user that no longer exists (or is soft-deleted) is
    /// rejected with 401; one whose role the route does not admit with 403;
    /// otherwise the resolved context is attached and the handler runs.
    pub fn on_user(&self, token: String, claims: Claims, found: Option<User>) -> (r: GateStep)
        ensures
            match found {
                None => (r matches GateStep::Reject { status } && status == 401),
                Some(u) => {
                    if self.config.required_roles@.len() > 0 && !self.config.required_roles@.contains(
                        u.role_id,
                    ) {
                        r matches GateStep::Reject { status } && status == 403
                    } else {
                        r matches GateStep::Allow { token: t, claims: c, user } && t == token && c
                            == claims && user == u
                    }
                },
            },
    {
        match found {
            None => GateStep::Reject { status: 401 },
            Some(user) => {
                if self.config.required_roles.len() > 0 && !roles_contain(
                    &self.config.required_roles,
                    user.role_id,
                ) {
                    GateStep::Reject { status: 403 }
                } else {
                    GateStep::Allow { token, claims, user }
                }
            },
        }
    }
}

impl Authorization {
    /// The whole fail-fast chain on fully gathered evidence: the step
    /// functions composed. Its answer is exactly `spec_gate_status`, so
    /// what the laws say of the specification holds of this code.
    pub fn decide(
        &self,
        header: Option<&str>,
        revoked: bool,
        decoded: Option<Claims>,
        found: Option<User>,
    ) -> (r: GateStep)
        ensures
            ({
                let header_view = match header {
                    Some(h) => Some(h@),
                    None => None,
                };
                match spec_gate_status(
                    self.config.required_roles@,
                    header_view,
                    revoked,
                    decoded,
                    found,
                ) {
                    Some(status) => (r matches GateStep::Reject { status: s } && s == status),
                    None => (r matches GateStep::Allow { .. }),
                }
            }),
    {
        let token = match self.on_header(header) {
            GateStep::AskRevocation { token } => token,
            step => {
                return step;
            },
        };
        let token = match self.on_revocation(token, revoked) {
            GateStep::AskDecode { token } => token,
            step => {
                return step;
            },
        };
        let (token, claims) = match self.on_decode(token, decoded) {
            GateStep::AskUser { token, claims } => (token, claims),
            step => {
                return step;
            },
        };
        self.on_user(token, claims, found)
    }
}

/// Requires the administrator role.
pub fn require_admin() -> (r: Authorization)
    ensures
        r.config.required_roles@ == seq![1i32],
        !r.config.check_permissions,
{
    Authorization::require_admin()
}

/// Requires the regular-user role.
pub fn require_user() -> (r: Authorization)
    ensures
        r.config.required_roles@ == seq![2i32],
        !r.config.check_permissions,
{
    Authorization::require_user()
}

/// Requires one of the given roles.
pub fn require_roles(roles: Vec<i32>) -> (r: Authorization)
    ensures
        r.config.required_roles == roles,
        !r.config.check_permissions,
{
    Authorization::require_roles(roles)
}

/// Requires one of the given roles.
pub fn require_any_role(roles: Vec<i32>) -> (r: Authorization)
    ensures
        r.config.required_roles == roles,
        !r.config.check_permissions,
{
    Authorization::new(AuthorizationConfig { required_roles: roles, check_permissions: false })
}

/// The older authentication middleware: the whole header value counts as
/// the token, and only presence and revocation are checked.
pub struct Authentication;

impl Authentication {
    /// `None` lets the request proceed; a missing header or a revoked
    /// token is rejected with 401.
    pub fn decide(header: Option<&str>, revoked: bool) -> (r: Option<u16>)
        ensures
            header is None ==> r == Some(401u16),
            header is Some && revoked ==> r == Some(401u16),
            header is Some && !revoked ==> r is None,
    {
        match header {
            None => Some(401),
            Some(_h) => {
                if revoked {
                    Some(401)
                } else {
                    None
                }
            },
        }
    }
}

/// The role middleware: the caller's role name must equal one required
/// name exactly.
pub struct HasRole {
    pub required_role: String,
}

impl HasRole {
    pub fn new(required_role: String) -> (r: Self)
        ensures
            r.required_role == required_role,
    {
        HasRole { required_role }
    }

    /// Whether a caller whose role bears this name may pass.
    pub fn allows(&self, user_role_name: &str) -> (r: bool)
        ensures
            r == (user_role_name@ == self.required_role@),
    {
        str_eq(user_role_name, self.required_role.as_str())
    }
}

} // verus!
