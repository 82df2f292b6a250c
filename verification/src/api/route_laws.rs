//! What each method and path of the API asks for.

use crate::api::routes;
use crate::api::routes::{Endpoint, Method, Route, RouteView};
use vstd::prelude::*;

verus! {

/// For each method and path of the API there is the route that asks for what they
/// name, and there are no other routes.
pub proof fn every_path_asks_for_what_it_names()
    ensures
        routes::PREFIX@ == "/api/v1"@,
        routes::all_routes().len() == 42,
        routes::all_routes().contains(
            RouteView {
                method: Method::Get,
                path: "/version"@,
                endpoint: Endpoint::Version,
            },
        ),
        routes::all_routes().contains(
            RouteView {
                method: Method::Get,
                path: "/auth/status"@,
                endpoint: Endpoint::Status,
            },
        ),
        routes::all_routes().contains(
            RouteView {
                method: Method::Post,
                path: "/auth/setup"@,
                endpoint: Endpoint::Setup,
            },
        ),
        routes::all_routes().contains(
            RouteView {
                method: Method::Post,
                path: "/auth/login"@,
                endpoint: Endpoint::Login,
            },
        ),
        routes::all_routes().contains(
            RouteView {
                method: Method::Get,
                path: "/auth/me"@,
                endpoint: Endpoint::GetMe,
            },
        ),
        routes::all_routes().contains(
            RouteView {
                method: Method::Patch,
                path: "/auth/me"@,
                endpoint: Endpoint::PatchMe,
            },
        ),
        routes::all_routes().contains(
            RouteView {
                method: Method::Get,
                path: "/users"@,
                endpoint: Endpoint::ListUsers,
            },
        ),
        routes::all_routes().contains(
            RouteView {
                method: Method::Post,
                path: "/users"@,
                endpoint: Endpoint::CreateUser,
            },
        ),
        routes::all_routes().contains(
            RouteView {
                method: Method::Delete,
                path: "/users/{id}"@,
                endpoint: Endpoint::DeleteUser,
            },
        ),
        routes::all_routes().contains(
            RouteView {
                method: Method::Post,
                path: "/users/{id}/reset-password"@,
                endpoint: Endpoint::ResetPassword,
            },
        ),
        routes::all_routes().contains(
            RouteView {
                method: Method::Get,
                path: "/agents"@,
                endpoint: Endpoint::ListAgents,
            },
        ),
        routes::all_routes().contains(
            RouteView {
                method: Method::Get,
                path: "/agents/{id}"@,
                endpoint: Endpoint::GetAgent,
            },
        ),
        routes::all_routes().contains(
            RouteView {
                method: Method::Patch,
                path: "/agents/{id}"@,
                endpoint: Endpoint::PatchAgent,
            },
        ),
        routes::all_routes().contains(
            RouteView {
                method: Method::Delete,
                path: "/agents/{id}"@,
                endpoint: Endpoint::DeleteAgent,
            },
        ),
        routes::all_routes().contains(
            RouteView {
                method: Method::Post,
                path: "/agents/{id}/accept"@,
                endpoint: Endpoint::AcceptAgent,
            },
        ),
        routes::all_routes().contains(
            RouteView {
                method: Method::Post,
                path: "/agents/{id}/undo-delete"@,
                endpoint: Endpoint::UndoDeleteAgent,
            },
        ),
        routes::all_routes().contains(
            RouteView {
                method: Method::Post,
                path: "/agents/{id}/force-delete"@,
                endpoint: Endpoint::ForceDeleteAgent,
            },
        ),
        routes::all_routes().contains(
            RouteView {
                method: Method::Get,
                path: "/agents/{id}/users"@,
                endpoint: Endpoint::ListAgentUsers,
            },
        ),
        routes::all_routes().contains(
            RouteView {
                method: Method::Get,
                path: "/agents/{id}/logs"@,
                endpoint: Endpoint::FetchAgentLogs,
            },
        ),
        routes::all_routes().contains(
            RouteView {
                method: Method::Post,
                path: "/agents/{id}/update"@,
                endpoint: Endpoint::UpdateAgent,
            },
        ),
        routes::all_routes().contains(
            RouteView {
                method: Method::Patch,
                path: "/agent-users/{id}"@,
                endpoint: Endpoint::PatchAgentUser,
            },
        ),
        routes::all_routes().contains(
            RouteView {
                method: Method::Get,
                path: "/profiles"@,
                endpoint: Endpoint::ListProfiles,
            },
        ),
        routes::all_routes().contains(
            RouteView {
                method: Method::Post,
                path: "/profiles"@,
                endpoint: Endpoint::CreateProfile,
            },
        ),
        routes::all_routes().contains(
            RouteView {
                method: Method::Get,
                path: "/profiles/{id}"@,
                endpoint: Endpoint::GetProfile,
            },
        ),
        routes::all_routes().contains(
            RouteView {
                method: Method::Patch,
                path: "/profiles/{id}"@,
                endpoint: Endpoint::PatchProfile,
            },
        ),
        routes::all_routes().contains(
            RouteView {
                method: Method::Delete,
                path: "/profiles/{id}"@,
                endpoint: Endpoint::DeleteProfile,
            },
        ),
        routes::all_routes().contains(
            RouteView {
                method: Method::Get,
                path: "/profiles/{id}/schedules"@,
                endpoint: Endpoint::GetSchedules,
            },
        ),
        routes::all_routes().contains(
            RouteView {
                method: Method::Put,
                path: "/profiles/{id}/schedules"@,
                endpoint: Endpoint::ReplaceSchedules,
            },
        ),
        routes::all_routes().contains(
            RouteView {
                method: Method::Get,
                path: "/profiles/{id}/daily-limits"@,
                endpoint: Endpoint::GetDailyLimits,
            },
        ),
        routes::all_routes().contains(
            RouteView {
                method: Method::Put,
                path: "/profiles/{id}/daily-limits"@,
                endpoint: Endpoint::ReplaceDailyLimits,
            },
        ),
        routes::all_routes().contains(
            RouteView {
                method: Method::Get,
                path: "/profiles/{id}/adjustments"@,
                endpoint: Endpoint::ListAdjustments,
            },
        ),
        routes::all_routes().contains(
            RouteView {
                method: Method::Post,
                path: "/profiles/{id}/adjustments"@,
                endpoint: Endpoint::CreateAdjustment,
            },
        ),
        routes::all_routes().contains(
            RouteView {
                method: Method::Post,
                path: "/profiles/{id}/lock-now"@,
                endpoint: Endpoint::LockNow,
            },
        ),
        routes::all_routes().contains(
            RouteView {
                method: Method::Post,
                path: "/profiles/{id}/notify"@,
                endpoint: Endpoint::NotifyProfile,
            },
        ),
        routes::all_routes().contains(
            RouteView {
                method: Method::Get,
                path: "/profiles/{id}/blocked-domains"@,
                endpoint: Endpoint::GetBlockedDomains,
            },
        ),
        routes::all_routes().contains(
            RouteView {
                method: Method::Put,
                path: "/profiles/{id}/blocked-domains"@,
                endpoint: Endpoint::SetBlockedDomains,
            },
        ),
        routes::all_routes().contains(
            RouteView {
                method: Method::Post,
                path: "/profiles/{id}/blocked-domains"@,
                endpoint: Endpoint::AddBlockedDomain,
            },
        ),
        routes::all_routes().contains(
            RouteView {
                method: Method::Patch,
                path: "/profiles/{id}/blocked-domains/{domain_id}"@,
                endpoint: Endpoint::PatchBlockedDomain,
            },
        ),
        routes::all_routes().contains(
            RouteView {
                method: Method::Delete,
                path: "/profiles/{id}/blocked-domains/{domain_id}"@,
                endpoint: Endpoint::DeleteBlockedDomain,
            },
        ),
        routes::all_routes().contains(
            RouteView {
                method: Method::Get,
                path: "/profiles/{id}/usage"@,
                endpoint: Endpoint::GetUsage,
            },
        ),
        routes::all_routes().contains(
            RouteView {
                method: Method::Get,
                path: "/profiles/{id}/status"@,
                endpoint: Endpoint::GetStatus,
            },
        ),
        routes::all_routes().contains(
            RouteView {
                method: Method::Get,
                path: "/dashboard"@,
                endpoint: Endpoint::Dashboard,
            },
        ),
{
    let r = routes::all_routes();
    assert(r[0] == (RouteView { method: Method::Get, path: "/version"@, endpoint: Endpoint::Version }));
    assert(r[1] == (RouteView { method: Method::Get, path: "/auth/status"@, endpoint: Endpoint::Status }));
    assert(r[2] == (RouteView { method: Method::Post, path: "/auth/setup"@, endpoint: Endpoint::Setup }));
    assert(r[3] == (RouteView { method: Method::Post, path: "/auth/login"@, endpoint: Endpoint::Login }));
    assert(r[4] == (RouteView { method: Method::Get, path: "/auth/me"@, endpoint: Endpoint::GetMe }));
    assert(r[5] == (RouteView { method: Method::Patch, path: "/auth/me"@, endpoint: Endpoint::PatchMe }));
    assert(r[6] == (RouteView { method: Method::Get, path: "/users"@, endpoint: Endpoint::ListUsers }));
    assert(r[7] == (RouteView { method: Method::Post, path: "/users"@, endpoint: Endpoint::CreateUser }));
    assert(r[8] == (RouteView { method: Method::Delete, path: "/users/{id}"@, endpoint: Endpoint::DeleteUser }));
    assert(r[9] == (RouteView { method: Method::Post, path: "/users/{id}/reset-password"@, endpoint: Endpoint::ResetPassword }));
    assert(r[10] == (RouteView { method: Method::Get, path: "/agents"@, endpoint: Endpoint::ListAgents }));
    assert(r[11] == (RouteView { method: Method::Get, path: "/agents/{id}"@, endpoint: Endpoint::GetAgent }));
    assert(r[12] == (RouteView { method: Method::Patch, path: "/agents/{id}"@, endpoint: Endpoint::PatchAgent }));
    assert(r[13] == (RouteView { method: Method::Delete, path: "/agents/{id}"@, endpoint: Endpoint::DeleteAgent }));
    assert(r[14] == (RouteView { method: Method::Post, path: "/agents/{id}/accept"@, endpoint: Endpoint::AcceptAgent }));
    assert(r[15] == (RouteView { method: Method::Post, path: "/agents/{id}/undo-delete"@, endpoint: Endpoint::UndoDeleteAgent }));
    assert(r[16] == (RouteView { method: Method::Post, path: "/agents/{id}/force-delete"@, endpoint: Endpoint::ForceDeleteAgent }));
    assert(r[17] == (RouteView { method: Method::Get, path: "/agents/{id}/users"@, endpoint: Endpoint::ListAgentUsers }));
    assert(r[18] == (RouteView { method: Method::Get, path: "/agents/{id}/logs"@, endpoint: Endpoint::FetchAgentLogs }));
    assert(r[19] == (RouteView { method: Method::Post, path: "/agents/{id}/update"@, endpoint: Endpoint::UpdateAgent }));
    assert(r[20] == (RouteView { method: Method::Patch, path: "/agent-users/{id}"@, endpoint: Endpoint::PatchAgentUser }));
    assert(r[21] == (RouteView { method: Method::Get, path: "/profiles"@, endpoint: Endpoint::ListProfiles }));
    assert(r[22] == (RouteView { method: Method::Post, path: "/profiles"@, endpoint: Endpoint::CreateProfile }));
    assert(r[23] == (RouteView { method: Method::Get, path: "/profiles/{id}"@, endpoint: Endpoint::GetProfile }));
    assert(r[24] == (RouteView { method: Method::Patch, path: "/profiles/{id}"@, endpoint: Endpoint::PatchProfile }));
    assert(r[25] == (RouteView { method: Method::Delete, path: "/profiles/{id}"@, endpoint: Endpoint::DeleteProfile }));
    assert(r[26] == (RouteView { method: Method::Get, path: "/profiles/{id}/schedules"@, endpoint: Endpoint::GetSchedules }));
    assert(r[27] == (RouteView { method: Method::Put, path: "/profiles/{id}/schedules"@, endpoint: Endpoint::ReplaceSchedules }));
    assert(r[28] == (RouteView { method: Method::Get, path: "/profiles/{id}/daily-limits"@, endpoint: Endpoint::GetDailyLimits }));
    assert(r[29] == (RouteView { method: Method::Put, path: "/profiles/{id}/daily-limits"@, endpoint: Endpoint::ReplaceDailyLimits }));
    assert(r[30] == (RouteView { method: Method::Get, path: "/profiles/{id}/adjustments"@, endpoint: Endpoint::ListAdjustments }));
    assert(r[31] == (RouteView { method: Method::Post, path: "/profiles/{id}/adjustments"@, endpoint: Endpoint::CreateAdjustment }));
    assert(r[32] == (RouteView { method: Method::Post, path: "/profiles/{id}/lock-now"@, endpoint: Endpoint::LockNow }));
    assert(r[33] == (RouteView { method: Method::Post, path: "/profiles/{id}/notify"@, endpoint: Endpoint::NotifyProfile }));
    assert(r[34] == (RouteView { method: Method::Get, path: "/profiles/{id}/blocked-domains"@, endpoint: Endpoint::GetBlockedDomains }));
    assert(r[35] == (RouteView { method: Method::Put, path: "/profiles/{id}/blocked-domains"@, endpoint: Endpoint::SetBlockedDomains }));
    assert(r[36] == (RouteView { method: Method::Post, path: "/profiles/{id}/blocked-domains"@, endpoint: Endpoint::AddBlockedDomain }));
    assert(r[37] == (RouteView { method: Method::Patch, path: "/profiles/{id}/blocked-domains/{domain_id}"@, endpoint: Endpoint::PatchBlockedDomain }));
    assert(r[38] == (RouteView { method: Method::Delete, path: "/profiles/{id}/blocked-domains/{domain_id}"@, endpoint: Endpoint::DeleteBlockedDomain }));
    assert(r[39] == (RouteView { method: Method::Get, path: "/profiles/{id}/usage"@, endpoint: Endpoint::GetUsage }));
    assert(r[40] == (RouteView { method: Method::Get, path: "/profiles/{id}/status"@, endpoint: Endpoint::GetStatus }));
    assert(r[41] == (RouteView { method: Method::Get, path: "/dashboard"@, endpoint: Endpoint::Dashboard }));
}

/// Where the route of a method and a path stands, told by the length of the path
/// and, where two of a method are as long, by a character of it.
spec fn place(method: Method, path: Seq<char>) -> int {
    match method {
        Method::Get => if path.len() == 6 {
            6
        } else if path.len() == 7 {
            10
        } else if path.len() == 8 && path[1] == 'v' {
            0
        } else if path.len() == 8 && path[1] == 'a' {
            4
        } else if path.len() == 9 {
            21
        } else if path.len() == 10 {
            41
        } else if path.len() == 12 && path[2] == 'u' {
            1
        } else if path.len() == 12 && path[2] == 'g' {
            11
        } else if path.len() == 14 {
            23
        } else if path.len() == 17 {
            18
        } else if path.len() == 18 {
            17
        } else if path.len() == 20 {
            39
        } else if path.len() == 21 {
            40
        } else if path.len() == 24 {
            26
        } else if path.len() == 26 {
            30
        } else if path.len() == 27 {
            28
        } else if path.len() == 30 {
            34
        } else {
            -1
        },
        Method::Post => if path.len() == 6 {
            7
        } else if path.len() == 9 {
            22
        } else if path.len() == 11 && path[6] == 's' {
            2
        } else if path.len() == 11 && path[6] == 'l' {
            3
        } else if path.len() == 19 && path[13] == 'a' {
            14
        } else if path.len() == 19 && path[13] == 'u' {
            19
        } else if path.len() == 21 {
            33
        } else if path.len() == 23 {
            32
        } else if path.len() == 24 {
            15
        } else if path.len() == 25 {
            16
        } else if path.len() == 26 && path[1] == 'u' {
            9
        } else if path.len() == 26 && path[1] == 'p' {
            31
        } else if path.len() == 30 {
            36
        } else {
            -1
        },
        Method::Put => if path.len() == 24 {
            27
        } else if path.len() == 27 {
            29
        } else if path.len() == 30 {
            35
        } else {
            -1
        },
        Method::Patch => if path.len() == 8 {
            5
        } else if path.len() == 12 {
            12
        } else if path.len() == 14 {
            24
        } else if path.len() == 17 {
            20
        } else if path.len() == 42 {
            37
        } else {
            -1
        },
        Method::Delete => if path.len() == 11 {
            8
        } else if path.len() == 12 {
            13
        } else if path.len() == 14 {
            25
        } else if path.len() == 42 {
            38
        } else {
            -1
        },
    }
}

/// No two routes share a method and a path, so that a request asks for one thing
/// at most.
pub proof fn no_two_routes_share_a_method_and_a_path(i: int, j: int)
    requires
        0 <= i < routes::all_routes().len(),
        0 <= j < routes::all_routes().len(),
        routes::all_routes()[i].method == routes::all_routes()[j].method,
        routes::all_routes()[i].path == routes::all_routes()[j].path,
    ensures
        i == j,
        routes::all_routes()[i].endpoint == routes::all_routes()[j].endpoint,
{
    lemma_places(i);
    lemma_places(j);
}

proof fn lemma_places(i: int)
    requires
        0 <= i < routes::all_routes().len(),
    ensures
        place(routes::all_routes()[i].method, routes::all_routes()[i].path) == i,
{
    let r = routes::all_routes();
    assert(r.len() == 42);
    reveal_strlit("/version");
    reveal_strlit("/auth/status");
    reveal_strlit("/auth/setup");
    reveal_strlit("/auth/login");
    reveal_strlit("/auth/me");
    reveal_strlit("/users");
    reveal_strlit("/users/{id}");
    reveal_strlit("/users/{id}/reset-password");
    reveal_strlit("/agents");
    reveal_strlit("/agents/{id}");
    reveal_strlit("/agents/{id}/accept");
    reveal_strlit("/agents/{id}/undo-delete");
    reveal_strlit("/agents/{id}/force-delete");
    reveal_strlit("/agents/{id}/users");
    reveal_strlit("/agents/{id}/logs");
    reveal_strlit("/agents/{id}/update");
    reveal_strlit("/agent-users/{id}");
    reveal_strlit("/profiles");
    reveal_strlit("/profiles/{id}");
    reveal_strlit("/profiles/{id}/schedules");
    reveal_strlit("/profiles/{id}/daily-limits");
    reveal_strlit("/profiles/{id}/adjustments");
    reveal_strlit("/profiles/{id}/lock-now");
    reveal_strlit("/profiles/{id}/notify");
    reveal_strlit("/profiles/{id}/blocked-domains");
    reveal_strlit("/profiles/{id}/blocked-domains/{domain_id}");
    reveal_strlit("/profiles/{id}/usage");
    reveal_strlit("/profiles/{id}/status");
    reveal_strlit("/dashboard");
    assert("/version"@.len() == 8);
    assert("/version"@[1] == 'v');
    assert("/auth/status"@.len() == 12);
    assert("/auth/status"@[2] == 'u');
    assert("/auth/setup"@.len() == 11);
    assert("/auth/setup"@[6] == 's');
    assert("/auth/login"@.len() == 11);
    assert("/auth/login"@[6] == 'l');
    assert("/auth/me"@.len() == 8);
    assert("/auth/me"@[1] == 'a');
    assert("/users"@.len() == 6);
    assert("/users/{id}"@.len() == 11);
    assert("/users/{id}/reset-password"@.len() == 26);
    assert("/users/{id}/reset-password"@[1] == 'u');
    assert("/agents"@.len() == 7);
    assert("/agents/{id}"@.len() == 12);
    assert("/agents/{id}"@[2] == 'g');
    assert("/agents/{id}/accept"@.len() == 19);
    assert("/agents/{id}/accept"@[13] == 'a');
    assert("/agents/{id}/undo-delete"@.len() == 24);
    assert("/agents/{id}/force-delete"@.len() == 25);
    assert("/agents/{id}/users"@.len() == 18);
    assert("/agents/{id}/logs"@.len() == 17);
    assert("/agents/{id}/update"@.len() == 19);
    assert("/agents/{id}/update"@[13] == 'u');
    assert("/agent-users/{id}"@.len() == 17);
    assert("/profiles"@.len() == 9);
    assert("/profiles/{id}"@.len() == 14);
    assert("/profiles/{id}/schedules"@.len() == 24);
    assert("/profiles/{id}/daily-limits"@.len() == 27);
    assert("/profiles/{id}/adjustments"@.len() == 26);
    assert("/profiles/{id}/adjustments"@[1] == 'p');
    assert("/profiles/{id}/lock-now"@.len() == 23);
    assert("/profiles/{id}/notify"@.len() == 21);
    assert("/profiles/{id}/blocked-domains"@.len() == 30);
    assert("/profiles/{id}/blocked-domains/{domain_id}"@.len() == 42);
    assert("/profiles/{id}/usage"@.len() == 20);
    assert("/profiles/{id}/status"@.len() == 21);
    assert("/dashboard"@.len() == 10);
    assert(place(r[0].method, r[0].path) == 0);
    assert(place(r[1].method, r[1].path) == 1);
    assert(place(r[2].method, r[2].path) == 2);
    assert(place(r[3].method, r[3].path) == 3);
    assert(place(r[4].method, r[4].path) == 4);
    assert(place(r[5].method, r[5].path) == 5);
    assert(place(r[6].method, r[6].path) == 6);
    assert(place(r[7].method, r[7].path) == 7);
    assert(place(r[8].method, r[8].path) == 8);
    assert(place(r[9].method, r[9].path) == 9);
    assert(place(r[10].method, r[10].path) == 10);
    assert(place(r[11].method, r[11].path) == 11);
    assert(place(r[12].method, r[12].path) == 12);
    assert(place(r[13].method, r[13].path) == 13);
    assert(place(r[14].method, r[14].path) == 14);
    assert(place(r[15].method, r[15].path) == 15);
    assert(place(r[16].method, r[16].path) == 16);
    assert(place(r[17].method, r[17].path) == 17);
    assert(place(r[18].method, r[18].path) == 18);
    assert(place(r[19].method, r[19].path) == 19);
    assert(place(r[20].method, r[20].path) == 20);
    assert(place(r[21].method, r[21].path) == 21);
    assert(place(r[22].method, r[22].path) == 22);
    assert(place(r[23].method, r[23].path) == 23);
    assert(place(r[24].method, r[24].path) == 24);
    assert(place(r[25].method, r[25].path) == 25);
    assert(place(r[26].method, r[26].path) == 26);
    assert(place(r[27].method, r[27].path) == 27);
    assert(place(r[28].method, r[28].path) == 28);
    assert(place(r[29].method, r[29].path) == 29);
    assert(place(r[30].method, r[30].path) == 30);
    assert(place(r[31].method, r[31].path) == 31);
    assert(place(r[32].method, r[32].path) == 32);
    assert(place(r[33].method, r[33].path) == 33);
    assert(place(r[34].method, r[34].path) == 34);
    assert(place(r[35].method, r[35].path) == 35);
    assert(place(r[36].method, r[36].path) == 36);
    assert(place(r[37].method, r[37].path) == 37);
    assert(place(r[38].method, r[38].path) == 38);
    assert(place(r[39].method, r[39].path) == 39);
    assert(place(r[40].method, r[40].path) == 40);
    assert(place(r[41].method, r[41].path) == 41);
}

/// A list of routes shows each of them, in order, as it is.
pub proof fn routes_show_in_order(v: Seq<Route>)
    ensures
        routes::routes_view(v).len() == v.len(),
        forall|i: int|
            0 <= i < v.len() ==> {
                let r = #[trigger] routes::routes_view(v)[i];
                r.method == v[i].method && r.path == v[i].path@ && r.endpoint == v[i].endpoint
            },
{
}

/// Without a token one may ask for the version and the status, make the first
/// account and sign in, and nothing else.
pub proof fn four_endpoints_are_open(e: Endpoint)
    ensures
        routes::is_public(e) <==> (e is Version || e is Status || e is Setup || e is Login),
{
}

} // verus!
