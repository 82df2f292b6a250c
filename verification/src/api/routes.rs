//! The server's routes.

use vstd::prelude::*;

verus! {

/// The path under which every route stands.
pub const PREFIX: &'static str = "/api/v1";

/// A request method.
#[derive(Clone, Copy, Debug, PartialEq, Eq, Structural)]
pub enum Method {
    Get,
    Post,
    Put,
    Patch,
    Delete,
}

/// Everything that can be asked of the server.
#[derive(Clone, Copy, Debug, PartialEq, Eq, Structural)]
pub enum Endpoint {
    Version,
    Status,
    Setup,
    Login,
    GetMe,
    PatchMe,
    ListUsers,
    CreateUser,
    DeleteUser,
    ResetPassword,
    ListAgents,
    GetAgent,
    PatchAgent,
    DeleteAgent,
    AcceptAgent,
    UndoDeleteAgent,
    ForceDeleteAgent,
    ListAgentUsers,
    FetchAgentLogs,
    UpdateAgent,
    PatchAgentUser,
    ListProfiles,
    CreateProfile,
    GetProfile,
    PatchProfile,
    DeleteProfile,
    GetSchedules,
    ReplaceSchedules,
    GetDailyLimits,
    ReplaceDailyLimits,
    ListAdjustments,
    CreateAdjustment,
    LockNow,
    NotifyProfile,
    GetBlockedDomains,
    SetBlockedDomains,
    AddBlockedDomain,
    PatchBlockedDomain,
    DeleteBlockedDomain,
    GetUsage,
    GetStatus,
    Dashboard,
}

/// A route: a method, a path below the prefix, and what they ask for.
#[derive(Clone, Copy, Debug)]
pub struct Route {
    pub method: Method,
    pub path: &'static str,
    pub endpoint: Endpoint,
}

/// A route, with its path as characters.
pub struct RouteView {
    pub method: Method,
    pub path: Seq<char>,
    pub endpoint: Endpoint,
}

/// The routes of a list.
pub open spec fn routes_view(v: Seq<Route>) -> Seq<RouteView> {
    v.map_values(
        |r: Route| RouteView { method: r.method, path: r.path@, endpoint: r.endpoint },
    )
}

/// What may be asked without a token: the version, whether the first account is
/// still to be made, to make it, and to sign in.
pub open spec fn is_public(e: Endpoint) -> bool {
    e == Endpoint::Version || e == Endpoint::Status || e == Endpoint::Setup || e == Endpoint::Login
}

/// Whether an endpoint is open to requests without a token.
pub fn needs_token(e: Endpoint) -> (r: bool)
    ensures
        r == !is_public(e),
{
    match e {
        Endpoint::Version | Endpoint::Status | Endpoint::Setup | Endpoint::Login => false,
        _ => true,
    }
}

/// A route that stands under a path for a method.
pub open spec fn route(method: Method, path: Seq<char>, endpoint: Endpoint) -> RouteView {
    RouteView { method, path, endpoint }
}

/// Every route of the server.
pub open spec fn all_routes() -> Seq<RouteView> {
    seq![
        route(Method::Get, "/version"@, Endpoint::Version),
        route(Method::Get, "/auth/status"@, Endpoint::Status),
        route(Method::Post, "/auth/setup"@, Endpoint::Setup),
        route(Method::Post, "/auth/login"@, Endpoint::Login),
        route(Method::Get, "/auth/me"@, Endpoint::GetMe),
        route(Method::Patch, "/auth/me"@, Endpoint::PatchMe),
        route(Method::Get, "/users"@, Endpoint::ListUsers),
        route(Method::Post, "/users"@, Endpoint::CreateUser),
        route(Method::Delete, "/users/{id}"@, Endpoint::DeleteUser),
        route(Method::Post, "/users/{id}/reset-password"@, Endpoint::ResetPassword),
        route(Method::Get, "/agents"@, Endpoint::ListAgents),
        route(Method::Get, "/agents/{id}"@, Endpoint::GetAgent),
        route(Method::Patch, "/agents/{id}"@, Endpoint::PatchAgent),
        route(Method::Delete, "/agents/{id}"@, Endpoint::DeleteAgent),
        route(Method::Post, "/agents/{id}/accept"@, Endpoint::AcceptAgent),
        route(Method::Post, "/agents/{id}/undo-delete"@, Endpoint::UndoDeleteAgent),
        route(Method::Post, "/agents/{id}/force-delete"@, Endpoint::ForceDeleteAgent),
        route(Method::Get, "/agents/{id}/users"@, Endpoint::ListAgentUsers),
        route(Method::Get, "/agents/{id}/logs"@, Endpoint::FetchAgentLogs),
        route(Method::Post, "/agents/{id}/update"@, Endpoint::UpdateAgent),
        route(Method::Patch, "/agent-users/{id}"@, Endpoint::PatchAgentUser),
        route(Method::Get, "/profiles"@, Endpoint::ListProfiles),
        route(Method::Post, "/profiles"@, Endpoint::CreateProfile),
        route(Method::Get, "/profiles/{id}"@, Endpoint::GetProfile),
        route(Method::Patch, "/profiles/{id}"@, Endpoint::PatchProfile),
        route(Method::Delete, "/profiles/{id}"@, Endpoint::DeleteProfile),
        route(Method::Get, "/profiles/{id}/schedules"@, Endpoint::GetSchedules),
        route(Method::Put, "/profiles/{id}/schedules"@, Endpoint::ReplaceSchedules),
        route(Method::Get, "/profiles/{id}/daily-limits"@, Endpoint::GetDailyLimits),
        route(Method::Put, "/profiles/{id}/daily-limits"@, Endpoint::ReplaceDailyLimits),
        route(Method::Get, "/profiles/{id}/adjustments"@, Endpoint::ListAdjustments),
        route(Method::Post, "/profiles/{id}/adjustments"@, Endpoint::CreateAdjustment),
        route(Method::Post, "/profiles/{id}/lock-now"@, Endpoint::LockNow),
        route(Method::Post, "/profiles/{id}/notify"@, Endpoint::NotifyProfile),
        route(Method::Get, "/profiles/{id}/blocked-domains"@, Endpoint::GetBlockedDomains),
        route(Method::Put, "/profiles/{id}/blocked-domains"@, Endpoint::SetBlockedDomains),
        route(Method::Post, "/profiles/{id}/blocked-domains"@, Endpoint::AddBlockedDomain),
        route(Method::Patch, "/profiles/{id}/blocked-domains/{domain_id}"@, Endpoint::PatchBlockedDomain),
        route(Method::Delete, "/profiles/{id}/blocked-domains/{domain_id}"@, Endpoint::DeleteBlockedDomain),
        route(Method::Get, "/profiles/{id}/usage"@, Endpoint::GetUsage),
        route(Method::Get, "/profiles/{id}/status"@, Endpoint::GetStatus),
        route(Method::Get, "/dashboard"@, Endpoint::Dashboard),
    ]
}

fn at(method: Method, path: &'static str, endpoint: Endpoint) -> (r: Route)
    ensures
        r.method == method,
        r.path@ == path@,
        r.endpoint == endpoint,
{
    Route { method, path, endpoint }
}

/// Every route of the server.
pub fn router() -> (r: Vec<Route>)
    ensures
        routes_view(r@) == all_routes(),
{
    let r = vec![
        at(Method::Get, "/version", Endpoint::Version),
        at(Method::Get, "/auth/status", Endpoint::Status),
        at(Method::Post, "/auth/setup", Endpoint::Setup),
        at(Method::Post, "/auth/login", Endpoint::Login),
        at(Method::Get, "/auth/me", Endpoint::GetMe),
        at(Method::Patch, "/auth/me", Endpoint::PatchMe),
        at(Method::Get, "/users", Endpoint::ListUsers),
        at(Method::Post, "/users", Endpoint::CreateUser),
        at(Method::Delete, "/users/{id}", Endpoint::DeleteUser),
        at(Method::Post, "/users/{id}/reset-password", Endpoint::ResetPassword),
        at(Method::Get, "/agents", Endpoint::ListAgents),
        at(Method::Get, "/agents/{id}", Endpoint::GetAgent),
        at(Method::Patch, "/agents/{id}", Endpoint::PatchAgent),
        at(Method::Delete, "/agents/{id}", Endpoint::DeleteAgent),
        at(Method::Post, "/agents/{id}/accept", Endpoint::AcceptAgent),
        at(Method::Post, "/agents/{id}/undo-delete", Endpoint::UndoDeleteAgent),
        at(Method::Post, "/agents/{id}/force-delete", Endpoint::ForceDeleteAgent),
        at(Method::Get, "/agents/{id}/users", Endpoint::ListAgentUsers),
        at(Method::Get, "/agents/{id}/logs", Endpoint::FetchAgentLogs),
        at(Method::Post, "/agents/{id}/update", Endpoint::UpdateAgent),
        at(Method::Patch, "/agent-users/{id}", Endpoint::PatchAgentUser),
        at(Method::Get, "/profiles", Endpoint::ListProfiles),
        at(Method::Post, "/profiles", Endpoint::CreateProfile),
        at(Method::Get, "/profiles/{id}", Endpoint::GetProfile),
        at(Method::Patch, "/profiles/{id}", Endpoint::PatchProfile),
        at(Method::Delete, "/profiles/{id}", Endpoint::DeleteProfile),
        at(Method::Get, "/profiles/{id}/schedules", Endpoint::GetSchedules),
        at(Method::Put, "/profiles/{id}/schedules", Endpoint::ReplaceSchedules),
        at(Method::Get, "/profiles/{id}/daily-limits", Endpoint::GetDailyLimits),
        at(Method::Put, "/profiles/{id}/daily-limits", Endpoint::ReplaceDailyLimits),
        at(Method::Get, "/profiles/{id}/adjustments", Endpoint::ListAdjustments),
        at(Method::Post, "/profiles/{id}/adjustments", Endpoint::CreateAdjustment),
        at(Method::Post, "/profiles/{id}/lock-now", Endpoint::LockNow),
        at(Method::Post, "/profiles/{id}/notify", Endpoint::NotifyProfile),
        at(Method::Get, "/profiles/{id}/blocked-domains", Endpoint::GetBlockedDomains),
        at(Method::Put, "/profiles/{id}/blocked-domains", Endpoint::SetBlockedDomains),
        at(Method::Post, "/profiles/{id}/blocked-domains", Endpoint::AddBlockedDomain),
        at(Method::Patch, "/profiles/{id}/blocked-domains/{domain_id}", Endpoint::PatchBlockedDomain),
        at(Method::Delete, "/profiles/{id}/blocked-domains/{domain_id}", Endpoint::DeleteBlockedDomain),
        at(Method::Get, "/profiles/{id}/usage", Endpoint::GetUsage),
        at(Method::Get, "/profiles/{id}/status", Endpoint::GetStatus),
        at(Method::Get, "/dashboard", Endpoint::Dashboard),
    ];
    assert(routes_view(r@) =~= all_routes());
    r
}

/// Where the route of an endpoint stands among all routes.
pub open spec fn position(e: Endpoint) -> int {
    match e {
        Endpoint::Version => 0,
        Endpoint::Status => 1,
        Endpoint::Setup => 2,
        Endpoint::Login => 3,
        Endpoint::GetMe => 4,
        Endpoint::PatchMe => 5,
        Endpoint::ListUsers => 6,
        Endpoint::CreateUser => 7,
        Endpoint::DeleteUser => 8,
        Endpoint::ResetPassword => 9,
        Endpoint::ListAgents => 10,
        Endpoint::GetAgent => 11,
        Endpoint::PatchAgent => 12,
        Endpoint::DeleteAgent => 13,
        Endpoint::AcceptAgent => 14,
        Endpoint::UndoDeleteAgent => 15,
        Endpoint::ForceDeleteAgent => 16,
        Endpoint::ListAgentUsers => 17,
        Endpoint::FetchAgentLogs => 18,
        Endpoint::UpdateAgent => 19,
        Endpoint::PatchAgentUser => 20,
        Endpoint::ListProfiles => 21,
        Endpoint::CreateProfile => 22,
        Endpoint::GetProfile => 23,
        Endpoint::PatchProfile => 24,
        Endpoint::DeleteProfile => 25,
        Endpoint::GetSchedules => 26,
        Endpoint::ReplaceSchedules => 27,
        Endpoint::GetDailyLimits => 28,
        Endpoint::ReplaceDailyLimits => 29,
        Endpoint::ListAdjustments => 30,
        Endpoint::CreateAdjustment => 31,
        Endpoint::LockNow => 32,
        Endpoint::NotifyProfile => 33,
        Endpoint::GetBlockedDomains => 34,
        Endpoint::SetBlockedDomains => 35,
        Endpoint::AddBlockedDomain => 36,
        Endpoint::PatchBlockedDomain => 37,
        Endpoint::DeleteBlockedDomain => 38,
        Endpoint::GetUsage => 39,
        Endpoint::GetStatus => 40,
        Endpoint::Dashboard => 41,
    }
}

/// Every endpoint has a route, and no two routes ask for the same.
pub proof fn every_endpoint_is_routed_once(e: Endpoint, i: int)
    requires
        0 <= i < all_routes().len(),
    ensures
        0 <= position(e) < all_routes().len(),
        all_routes()[i].endpoint == e <==> i == position(e),
{
    let r = all_routes();
    assert(r.len() == 42);
    assert(r[0].endpoint == Endpoint::Version);
    assert(r[1].endpoint == Endpoint::Status);
    assert(r[2].endpoint == Endpoint::Setup);
    assert(r[3].endpoint == Endpoint::Login);
    assert(r[4].endpoint == Endpoint::GetMe);
    assert(r[5].endpoint == Endpoint::PatchMe);
    assert(r[6].endpoint == Endpoint::ListUsers);
    assert(r[7].endpoint == Endpoint::CreateUser);
    assert(r[8].endpoint == Endpoint::DeleteUser);
    assert(r[9].endpoint == Endpoint::ResetPassword);
    assert(r[10].endpoint == Endpoint::ListAgents);
    assert(r[11].endpoint == Endpoint::GetAgent);
    assert(r[12].endpoint == Endpoint::PatchAgent);
    assert(r[13].endpoint == Endpoint::DeleteAgent);
    assert(r[14].endpoint == Endpoint::AcceptAgent);
    assert(r[15].endpoint == Endpoint::UndoDeleteAgent);
    assert(r[16].endpoint == Endpoint::ForceDeleteAgent);
    assert(r[17].endpoint == Endpoint::ListAgentUsers);
    assert(r[18].endpoint == Endpoint::FetchAgentLogs);
    assert(r[19].endpoint == Endpoint::UpdateAgent);
    assert(r[20].endpoint == Endpoint::PatchAgentUser);
    assert(r[21].endpoint == Endpoint::ListProfiles);
    assert(r[22].endpoint == Endpoint::CreateProfile);
    assert(r[23].endpoint == Endpoint::GetProfile);
    assert(r[24].endpoint == Endpoint::PatchProfile);
    assert(r[25].endpoint == Endpoint::DeleteProfile);
    assert(r[26].endpoint == Endpoint::GetSchedules);
    assert(r[27].endpoint == Endpoint::ReplaceSchedules);
    assert(r[28].endpoint == Endpoint::GetDailyLimits);
    assert(r[29].endpoint == Endpoint::ReplaceDailyLimits);
    assert(r[30].endpoint == Endpoint::ListAdjustments);
    assert(r[31].endpoint == Endpoint::CreateAdjustment);
    assert(r[32].endpoint == Endpoint::LockNow);
    assert(r[33].endpoint == Endpoint::NotifyProfile);
    assert(r[34].endpoint == Endpoint::GetBlockedDomains);
    assert(r[35].endpoint == Endpoint::SetBlockedDomains);
    assert(r[36].endpoint == Endpoint::AddBlockedDomain);
    assert(r[37].endpoint == Endpoint::PatchBlockedDomain);
    assert(r[38].endpoint == Endpoint::DeleteBlockedDomain);
    assert(r[39].endpoint == Endpoint::GetUsage);
    assert(r[40].endpoint == Endpoint::GetStatus);
    assert(r[41].endpoint == Endpoint::Dashboard);
}

} // verus!
