//! The routes that the site mounts at its root, with the request method,
//! the path pattern, the rank and the access guard of each.
use vstd::prelude::*;

verus! {

/// A request method.
#[derive(PartialEq, Eq, Structural, Clone, Copy, Debug)]
pub enum Method {
    Get,
    Post,
}

/// Who may reach a route.
#[derive(PartialEq, Eq, Structural, Clone, Copy, Debug)]
pub enum Guard {
    /// Anyone.
    Open,
    /// A logged-in admin or superadmin.
    Admin,
    /// A logged-in superadmin.
    SuperAdmin,
}

/// The handlers mounted at the site's root.
#[derive(PartialEq, Eq, Structural, Clone, Copy, Debug)]
pub enum Route {
    Index,
    Page,
    IndexPage,
    GetOnePost,
    Admin,
    Login,
    LoginUser,
    Logout,
    AdminNoUser,
    GetUsers,
    NewUser,
    GetUser,
    EditUser,
    RemoveUser,
    NewPost,
    AddPost,
    Posts,
    GetPost,
    RemovePost,
    EditPost,
    GetPages,
    NewPage,
    GetPageWithContent,
    GetPageNoContent,
    NewContent,
    RemovePage,
    RestorePage,
    EditPage,
    UploadImage,
}

/// The routes mounted at the site's root, in the order they are mounted.
pub open spec fn mounted_routes() -> Seq<Route> {
    seq![
        Route::Index,
        Route::Page,
        Route::IndexPage,
        Route::GetOnePost,
        Route::Admin,
        Route::Login,
        Route::LoginUser,
        Route::Logout,
        Route::AdminNoUser,
        Route::GetUsers,
        Route::NewUser,
        Route::GetUser,
        Route::EditUser,
        Route::RemoveUser,
        Route::NewPost,
        Route::AddPost,
        Route::Posts,
        Route::GetPost,
        Route::RemovePost,
        Route::EditPost,
        Route::GetPages,
        Route::NewPage,
        Route::GetPageWithContent,
        Route::GetPageNoContent,
        Route::NewContent,
        Route::RemovePage,
        Route::RestorePage,
        Route::EditPage,
        Route::UploadImage,
    ]
}

/// The routes to mount at the site's root.
pub fn routes() -> (r: Vec<Route>)
    ensures
        r@ == mounted_routes(),
{
    vec![
        Route::Index,
        Route::Page,
        Route::IndexPage,
        Route::GetOnePost,
        Route::Admin,
        Route::Login,
        Route::LoginUser,
        Route::Logout,
        Route::AdminNoUser,
        Route::GetUsers,
        Route::NewUser,
        Route::GetUser,
        Route::EditUser,
        Route::RemoveUser,
        Route::NewPost,
        Route::AddPost,
        Route::Posts,
        Route::GetPost,
        Route::RemovePost,
        Route::EditPost,
        Route::GetPages,
        Route::NewPage,
        Route::GetPageWithContent,
        Route::GetPageNoContent,
        Route::NewContent,
        Route::RemovePage,
        Route::RestorePage,
        Route::EditPage,
        Route::UploadImage,
    ]
}

/// The method a route answers.
pub open spec fn route_method(r: Route) -> Method {
    match r {
        Route::LoginUser | Route::Logout | Route::NewUser | Route::EditUser | Route::RemoveUser
        | Route::NewPost | Route::RemovePost | Route::EditPost | Route::NewPage
        | Route::NewContent | Route::RemovePage | Route::RestorePage | Route::EditPage
        | Route::UploadImage => Method::Post,
        _ => Method::Get,
    }
}

/// The path pattern of a route; `<name>` matches one segment.
pub open spec fn route_uri(r: Route) -> Seq<char> {
    match r {
        Route::Index => "/"@,
        Route::Page => "/<page_name>"@,
        Route::IndexPage => "/posts/<page_number>"@,
        Route::GetOnePost => "/post/<post_id>"@,
        Route::Admin => "/admin"@,
        Route::Login => "/login"@,
        Route::LoginUser => "/login"@,
        Route::Logout => "/logout"@,
        Route::AdminNoUser => "/admin"@,
        Route::GetUsers => "/admin/users"@,
        Route::NewUser => "/admin/user/add"@,
        Route::GetUser => "/admin/user/<user_id>"@,
        Route::EditUser => "/admin/user/<user_id>"@,
        Route::RemoveUser => "/admin/user/remove/<user_id>"@,
        Route::NewPost => "/admin/post/add"@,
        Route::AddPost => "/admin/post/add"@,
        Route::Posts => "/admin/posts"@,
        Route::GetPost => "/admin/post/<post_id>"@,
        Route::RemovePost => "/admin/post/remove/<post_id>"@,
        Route::EditPost => "/admin/post/<post_id>"@,
        Route::GetPages => "/admin/pages"@,
        Route::NewPage => "/admin/page"@,
        Route::GetPageWithContent => "/admin/page/<page>/<content_id>"@,
        Route::GetPageNoContent => "/admin/page/<page>"@,
        Route::NewContent => "/admin/page/content/<page>"@,
        Route::RemovePage => "/admin/page/remove/<page_id>"@,
        Route::RestorePage => "/admin/page/restore/<page_id>"@,
        Route::EditPage => "/admin/page/<page_id>"@,
        Route::UploadImage => "/admin/image"@,
    }
}

/// The rank of a route where it is not the default one: a route of a
/// higher rank is tried only when those of lower ranks do not match.
pub open spec fn route_rank(r: Route) -> Option<i32> {
    match r {
        Route::AdminNoUser => Some(2),
        Route::Page => Some(3),
        _ => None,
    }
}

/// The media type a route requires of the request body, where it requires
/// one.
pub open spec fn route_format(r: Route) -> Option<Seq<char>> {
    match r {
        Route::UploadImage => Some("image/*"@),
        _ => None,
    }
}

/// Who may reach a route.
pub open spec fn route_guard(r: Route) -> Guard {
    match r {
        Route::Admin | Route::NewPost | Route::AddPost | Route::Posts | Route::GetPost
        | Route::RemovePost | Route::EditPost | Route::GetPages | Route::NewPage
        | Route::GetPageWithContent | Route::GetPageNoContent | Route::NewContent
        | Route::RemovePage | Route::RestorePage | Route::EditPage => Guard::Admin,
        Route::GetUsers | Route::NewUser | Route::GetUser | Route::EditUser
        | Route::RemoveUser => Guard::SuperAdmin,
        _ => Guard::Open,
    }
}

impl Route {
    /// The method this route answers.
    pub fn method(&self) -> (m: Method)
        ensures
            m == route_method(*self),
    {
        match self {
            Route::LoginUser | Route::Logout | Route::NewUser | Route::EditUser
            | Route::RemoveUser | Route::NewPost | Route::RemovePost | Route::EditPost
            | Route::NewPage | Route::NewContent | Route::RemovePage | Route::RestorePage
            | Route::EditPage | Route::UploadImage => Method::Post,
            _ => Method::Get,
        }
    }

    /// The path pattern of this route.
    pub fn uri(&self) -> (u: &'static str)
        ensures
            u@ == route_uri(*self),
    {
        match self {
            Route::Index => "/",
            Route::Page => "/<page_name>",
            Route::IndexPage => "/posts/<page_number>",
            Route::GetOnePost => "/post/<post_id>",
            Route::Admin => "/admin",
            Route::Login => "/login",
            Route::LoginUser => "/login",
            Route::Logout => "/logout",
            Route::AdminNoUser => "/admin",
            Route::GetUsers => "/admin/users",
            Route::NewUser => "/admin/user/add",
            Route::GetUser => "/admin/user/<user_id>",
            Route::EditUser => "/admin/user/<user_id>",
            Route::RemoveUser => "/admin/user/remove/<user_id>",
            Route::NewPost => "/admin/post/add",
            Route::AddPost => "/admin/post/add",
            Route::Posts => "/admin/posts",
            Route::GetPost => "/admin/post/<post_id>",
            Route::RemovePost => "/admin/post/remove/<post_id>",
            Route::EditPost => "/admin/post/<post_id>",
            Route::GetPages => "/admin/pages",
            Route::NewPage => "/admin/page",
            Route::GetPageWithContent => "/admin/page/<page>/<content_id>",
            Route::GetPageNoContent => "/admin/page/<page>",
            Route::NewContent => "/admin/page/content/<page>",
            Route::RemovePage => "/admin/page/remove/<page_id>",
            Route::RestorePage => "/admin/page/restore/<page_id>",
            Route::EditPage => "/admin/page/<page_id>",
            Route::UploadImage => "/admin/image",
        }
    }

    /// The rank of this route, where it is not the default one.
    pub fn rank(&self) -> (k: Option<i32>)
        ensures
            k == route_rank(*self),
    {
        match self {
            Route::AdminNoUser => Some(2),
            Route::Page => Some(3),
            _ => None,
        }
    }

    /// The media type this route requires of the request body, where it
    /// requires one.
    pub fn format(&self) -> (f: Option<&'static str>)
        ensures
            match f {
                Some(s) => route_format(*self) == Some(s@),
                None => route_format(*self) is None,
            },
    {
        match self {
            Route::UploadImage => Some("image/*"),
            _ => None,
        }
    }

    /// Who may reach this route.
    pub fn guard(&self) -> (g: Guard)
        ensures
            g == route_guard(*self),
    {
        match self {
            Route::Admin | Route::NewPost | Route::AddPost | Route::Posts | Route::GetPost
            | Route::RemovePost | Route::EditPost | Route::GetPages | Route::NewPage
            | Route::GetPageWithContent | Route::GetPageNoContent | Route::NewContent
            | Route::RemovePage | Route::RestorePage | Route::EditPage => Guard::Admin,
            Route::GetUsers | Route::NewUser | Route::GetUser | Route::EditUser
            | Route::RemoveUser => Guard::SuperAdmin,
            _ => Guard::Open,
        }
    }
}

/// Whether `path` starts with `prefix`.
pub open spec fn has_prefix(path: Seq<char>, prefix: Seq<char>) -> bool {
    prefix.len() <= path.len() && path.subrange(0, prefix.len() as int) == prefix
}

/// The length of a path and its characters at positions 1, 7 and 8 (a
/// space where the path is shorter).
pub open spec fn path_profile(u: Seq<char>) -> (int, char, char, char) {
    (
        u.len() as int,
        if 1 < u.len() { u[1] } else { ' ' },
        if 7 < u.len() { u[7] } else { ' ' },
        if 8 < u.len() { u[8] } else { ' ' },
    )
}

/// The profile of each route's path pattern.
pub open spec fn route_profile(r: Route) -> (int, char, char, char) {
    match r {
        Route::Index => (1, ' ', ' ', ' '),
        Route::Page => (12, '<', 'n', 'a'),
        Route::IndexPage => (20, 'p', '<', 'p'),
        Route::GetOnePost => (15, 'p', 'p', 'o'),
        Route::Admin => (6, 'a', ' ', ' '),
        Route::Login => (6, 'l', ' ', ' '),
        Route::LoginUser => (6, 'l', ' ', ' '),
        Route::Logout => (7, 'l', ' ', ' '),
        Route::AdminNoUser => (6, 'a', ' ', ' '),
        Route::GetUsers => (12, 'a', 'u', 's'),
        Route::NewUser => (15, 'a', 'u', 's'),
        Route::GetUser => (21, 'a', 'u', 's'),
        Route::EditUser => (21, 'a', 'u', 's'),
        Route::RemoveUser => (28, 'a', 'u', 's'),
        Route::NewPost => (15, 'a', 'p', 'o'),
        Route::AddPost => (15, 'a', 'p', 'o'),
        Route::Posts => (12, 'a', 'p', 'o'),
        Route::GetPost => (21, 'a', 'p', 'o'),
        Route::RemovePost => (28, 'a', 'p', 'o'),
        Route::EditPost => (21, 'a', 'p', 'o'),
        Route::GetPages => (12, 'a', 'p', 'a'),
        Route::NewPage => (11, 'a', 'p', 'a'),
        Route::GetPageWithContent => (31, 'a', 'p', 'a'),
        Route::GetPageNoContent => (18, 'a', 'p', 'a'),
        Route::NewContent => (26, 'a', 'p', 'a'),
        Route::RemovePage => (28, 'a', 'p', 'a'),
        Route::RestorePage => (29, 'a', 'p', 'a'),
        Route::EditPage => (21, 'a', 'p', 'a'),
        Route::UploadImage => (12, 'a', 'i', 'm'),
    }
}

proof fn lemma_route_profile(r: Route)
    ensures
        path_profile(route_uri(r)) == route_profile(r),
{
    match r {
        Route::Index => {
            reveal_strlit("/");
        },
        Route::Page => {
            reveal_strlit("/<page_name>");
        },
        Route::IndexPage => {
            reveal_strlit("/posts/<page_number>");
        },
        Route::GetOnePost => {
            reveal_strlit("/post/<post_id>");
        },
        Route::Admin => {
            reveal_strlit("/admin");
        },
        Route::Login => {
            reveal_strlit("/login");
        },
        Route::LoginUser => {
            reveal_strlit("/login");
        },
        Route::Logout => {
            reveal_strlit("/logout");
        },
        Route::AdminNoUser => {
            reveal_strlit("/admin");
        },
        Route::GetUsers => {
            reveal_strlit("/admin/users");
        },
        Route::NewUser => {
            reveal_strlit("/admin/user/add");
        },
        Route::GetUser => {
            reveal_strlit("/admin/user/<user_id>");
        },
        Route::EditUser => {
            reveal_strlit("/admin/user/<user_id>");
        },
        Route::RemoveUser => {
            reveal_strlit("/admin/user/remove/<user_id>");
        },
        Route::NewPost => {
            reveal_strlit("/admin/post/add");
        },
        Route::AddPost => {
            reveal_strlit("/admin/post/add");
        },
        Route::Posts => {
            reveal_strlit("/admin/posts");
        },
        Route::GetPost => {
            reveal_strlit("/admin/post/<post_id>");
        },
        Route::RemovePost => {
            reveal_strlit("/admin/post/remove/<post_id>");
        },
        Route::EditPost => {
            reveal_strlit("/admin/post/<post_id>");
        },
        Route::GetPages => {
            reveal_strlit("/admin/pages");
        },
        Route::NewPage => {
            reveal_strlit("/admin/page");
        },
        Route::GetPageWithContent => {
            reveal_strlit("/admin/page/<page>/<content_id>");
        },
        Route::GetPageNoContent => {
            reveal_strlit("/admin/page/<page>");
        },
        Route::NewContent => {
            reveal_strlit("/admin/page/content/<page>");
        },
        Route::RemovePage => {
            reveal_strlit("/admin/page/remove/<page_id>");
        },
        Route::RestorePage => {
            reveal_strlit("/admin/page/restore/<page_id>");
        },
        Route::EditPage => {
            reveal_strlit("/admin/page/<page_id>");
        },
        Route::UploadImage => {
            reveal_strlit("/admin/image");
        },
    }
}

/// No two mounted routes share method, path pattern and rank.
pub proof fn lemma_routes_distinct()
    ensures
        forall|r1: Route, r2: Route|
            r1 != r2 && route_method(r1) == route_method(r2) && route_rank(r1) == route_rank(r2)
                ==> #[trigger] route_uri(r1) != #[trigger] route_uri(r2),
{
    assert forall|r1: Route, r2: Route|
        r1 != r2 && route_method(r1) == route_method(r2) && route_rank(r1) == route_rank(r2)
            implies #[trigger] route_uri(r1) != #[trigger] route_uri(r2) by {
        lemma_route_profile(r1);
        lemma_route_profile(r2);
    }
}

/// One line of the route table: what a mounted route answers and who may
/// reach it.
pub struct RouteEntry {
    pub method: Method,
    pub path: Seq<char>,
    pub rank: Option<i32>,
    pub guard: Guard,
    pub format: Option<Seq<char>>,
}

/// The line of the route table that describes `r`.
pub open spec fn entry_of(r: Route) -> RouteEntry {
    RouteEntry {
        method: route_method(r),
        path: route_uri(r),
        rank: route_rank(r),
        guard: route_guard(r),
        format: route_format(r),
    }
}

/// The routes mounted at the site's root, line by line in mount order: the
/// request method of each handler's route attribute, its path pattern, its
/// rank where it is not the default, the request guard its handler takes,
/// and the body format it requires.  Logging in and out, the upload and
/// every addition, edit, removal and restoration answer `POST`; the pages
/// and forms answer `GET`.
pub open spec fn mounted_route_table() -> Seq<RouteEntry> {
    seq![
        RouteEntry { method: Method::Get, path: "/"@, rank: None, guard: Guard::Open, format: None },
        RouteEntry { method: Method::Get, path: "/<page_name>"@, rank: Some(3i32), guard: Guard::Open, format: None },
        RouteEntry { method: Method::Get, path: "/posts/<page_number>"@, rank: None, guard: Guard::Open, format: None },
        RouteEntry { method: Method::Get, path: "/post/<post_id>"@, rank: None, guard: Guard::Open, format: None },
        RouteEntry { method: Method::Get, path: "/admin"@, rank: None, guard: Guard::Admin, format: None },
        RouteEntry { method: Method::Get, path: "/login"@, rank: None, guard: Guard::Open, format: None },
        RouteEntry { method: Method::Post, path: "/login"@, rank: None, guard: Guard::Open, format: None },
        RouteEntry { method: Method::Post, path: "/logout"@, rank: None, guard: Guard::Open, format: None },
        RouteEntry { method: Method::Get, path: "/admin"@, rank: Some(2i32), guard: Guard::Open, format: None },
        RouteEntry { method: Method::Get, path: "/admin/users"@, rank: None, guard: Guard::SuperAdmin, format: None },
        RouteEntry { method: Method::Post, path: "/admin/user/add"@, rank: None, guard: Guard::SuperAdmin, format: None },
        RouteEntry { method: Method::Get, path: "/admin/user/<user_id>"@, rank: None, guard: Guard::SuperAdmin, format: None },
        RouteEntry { method: Method::Post, path: "/admin/user/<user_id>"@, rank: None, guard: Guard::SuperAdmin, format: None },
        RouteEntry { method: Method::Post, path: "/admin/user/remove/<user_id>"@, rank: None, guard: Guard::SuperAdmin, format: None },
        RouteEntry { method: Method::Post, path: "/admin/post/add"@, rank: None, guard: Guard::Admin, format: None },
        RouteEntry { method: Method::Get, path: "/admin/post/add"@, rank: None, guard: Guard::Admin, format: None },
        RouteEntry { method: Method::Get, path: "/admin/posts"@, rank: None, guard: Guard::Admin, format: None },
        RouteEntry { method: Method::Get, path: "/admin/post/<post_id>"@, rank: None, guard: Guard::Admin, format: None },
        RouteEntry { method: Method::Post, path: "/admin/post/remove/<post_id>"@, rank: None, guard: Guard::Admin, format: None },
        RouteEntry { method: Method::Post, path: "/admin/post/<post_id>"@, rank: None, guard: Guard::Admin, format: None },
        RouteEntry { method: Method::Get, path: "/admin/pages"@, rank: None, guard: Guard::Admin, format: None },
        RouteEntry { method: Method::Post, path: "/admin/page"@, rank: None, guard: Guard::Admin, format: None },
        RouteEntry { method: Method::Get, path: "/admin/page/<page>/<content_id>"@, rank: None, guard: Guard::Admin, format: None },
        RouteEntry { method: Method::Get, path: "/admin/page/<page>"@, rank: None, guard: Guard::Admin, format: None },
        RouteEntry { method: Method::Post, path: "/admin/page/content/<page>"@, rank: None, guard: Guard::Admin, format: None },
        RouteEntry { method: Method::Post, path: "/admin/page/remove/<page_id>"@, rank: None, guard: Guard::Admin, format: None },
        RouteEntry { method: Method::Post, path: "/admin/page/restore/<page_id>"@, rank: None, guard: Guard::Admin, format: None },
        RouteEntry { method: Method::Post, path: "/admin/page/<page_id>"@, rank: None, guard: Guard::Admin, format: None },
        RouteEntry { method: Method::Post, path: "/admin/image"@, rank: None, guard: Guard::Open, format: Some("image/*"@) },
    ]
}

/// Every mounted route is described by the line of the route table at its
/// place.
pub proof fn lemma_route_table()
    ensures
        mounted_routes().len() == mounted_route_table().len(),
        forall|i: int|
            0 <= i < mounted_routes().len() ==> entry_of(#[trigger] mounted_routes()[i])
                == mounted_route_table()[i],
{
    assert(entry_of(mounted_routes()[0]) == mounted_route_table()[0]);
    assert(entry_of(mounted_routes()[1]) == mounted_route_table()[1]);
    assert(entry_of(mounted_routes()[2]) == mounted_route_table()[2]);
    assert(entry_of(mounted_routes()[3]) == mounted_route_table()[3]);
    assert(entry_of(mounted_routes()[4]) == mounted_route_table()[4]);
    assert(entry_of(mounted_routes()[5]) == mounted_route_table()[5]);
    assert(entry_of(mounted_routes()[6]) == mounted_route_table()[6]);
    assert(entry_of(mounted_routes()[7]) == mounted_route_table()[7]);
    assert(entry_of(mounted_routes()[8]) == mounted_route_table()[8]);
    assert(entry_of(mounted_routes()[9]) == mounted_route_table()[9]);
    assert(entry_of(mounted_routes()[10]) == mounted_route_table()[10]);
    assert(entry_of(mounted_routes()[11]) == mounted_route_table()[11]);
    assert(entry_of(mounted_routes()[12]) == mounted_route_table()[12]);
    assert(entry_of(mounted_routes()[13]) == mounted_route_table()[13]);
    assert(entry_of(mounted_routes()[14]) == mounted_route_table()[14]);
    assert(entry_of(mounted_routes()[15]) == mounted_route_table()[15]);
    assert(entry_of(mounted_routes()[16]) == mounted_route_table()[16]);
    assert(entry_of(mounted_routes()[17]) == mounted_route_table()[17]);
    assert(entry_of(mounted_routes()[18]) == mounted_route_table()[18]);
    assert(entry_of(mounted_routes()[19]) == mounted_route_table()[19]);
    assert(entry_of(mounted_routes()[20]) == mounted_route_table()[20]);
    assert(entry_of(mounted_routes()[21]) == mounted_route_table()[21]);
    assert(entry_of(mounted_routes()[22]) == mounted_route_table()[22]);
    assert(entry_of(mounted_routes()[23]) == mounted_route_table()[23]);
    assert(entry_of(mounted_routes()[24]) == mounted_route_table()[24]);
    assert(entry_of(mounted_routes()[25]) == mounted_route_table()[25]);
    assert(entry_of(mounted_routes()[26]) == mounted_route_table()[26]);
    assert(entry_of(mounted_routes()[27]) == mounted_route_table()[27]);
    assert(entry_of(mounted_routes()[28]) == mounted_route_table()[28]);
    assert forall|i: int| 0 <= i < mounted_routes().len() implies entry_of(
        #[trigger] mounted_routes()[i],
    ) == mounted_route_table()[i] by {
        assert(0 <= i < 29);
    }
}

/// Which routes are below `/admin` (the dashboard included).
proof fn lemma_admin_root_prefix(r: Route)
    ensures
        has_prefix(route_uri(r), "/admin"@) ==> route_guard(r) != Guard::Open || r
            == Route::UploadImage || r == Route::AdminNoUser,
{
    reveal_strlit("/admin");
    let a = "/admin"@;
    let u = route_uri(r);
    match r {
        Route::Index => {
            reveal_strlit("/");
        },
        Route::Page => {
            reveal_strlit("/<page_name>");
            lemma_differs_at(u, a, 1);
        },
        Route::IndexPage => {
            reveal_strlit("/posts/<page_number>");
            lemma_differs_at(u, a, 1);
        },
        Route::GetOnePost => {
            reveal_strlit("/post/<post_id>");
            lemma_differs_at(u, a, 1);
        },
        Route::Login | Route::LoginUser => {
            reveal_strlit("/login");
            lemma_differs_at(u, a, 1);
        },
        Route::Logout => {
            reveal_strlit("/logout");
            lemma_differs_at(u, a, 1);
        },
        _ => {},
    }
}

/// The admin dashboard at `/admin` and everything below it let only admins
/// in, except two routes: the fallback at `/admin` of a higher rank, which
/// answers when the admin guard turns the request away, and the image
/// upload.
pub proof fn lemma_admin_dashboard_guarded()
    ensures
        forall|r: Route|
            has_prefix(#[trigger] route_uri(r), "/admin"@) && r != Route::AdminNoUser && r
                != Route::UploadImage ==> route_guard(r) != Guard::Open,
        route_uri(Route::AdminNoUser) == route_uri(Route::Admin),
        route_method(Route::AdminNoUser) == route_method(Route::Admin),
        route_rank(Route::Admin) is None,
        route_rank(Route::AdminNoUser) == Some(2i32),
{
    assert forall|r: Route|
        has_prefix(#[trigger] route_uri(r), "/admin"@) && r != Route::AdminNoUser && r
            != Route::UploadImage implies route_guard(r) != Guard::Open by {
        lemma_admin_root_prefix(r);
    }
}

/// A path that differs from `prefix` at position `k` does not start with it.
proof fn lemma_differs_at(path: Seq<char>, prefix: Seq<char>, k: int)
    requires
        0 <= k < prefix.len(),
        k < path.len(),
        path[k] != prefix[k],
    ensures
        !has_prefix(path, prefix),
{
    if has_prefix(path, prefix) {
        assert(path.subrange(0, prefix.len() as int)[k] == path[k]);
    }
}

/// Which routes are below `/admin/` and which are below `/admin/user`.
proof fn lemma_admin_prefixes(r: Route)
    ensures
        has_prefix(route_uri(r), "/admin/"@) ==> route_guard(r) != Guard::Open || r
            == Route::UploadImage,
        has_prefix(route_uri(r), "/admin/user"@) <==> route_guard(r) == Guard::SuperAdmin,
        r == Route::UploadImage ==> has_prefix(route_uri(r), "/admin/"@),
{
    reveal_strlit("/admin/");
    reveal_strlit("/admin/user");
    let u = route_uri(r);
    let a = "/admin/"@;
    let au = "/admin/user"@;
    match r {
        Route::Index => {
            reveal_strlit("/");
        },
        Route::Page => {
            reveal_strlit("/<page_name>");
            lemma_differs_at(u, a, 1);
            lemma_differs_at(u, au, 1);
        },
        Route::IndexPage => {
            reveal_strlit("/posts/<page_number>");
            lemma_differs_at(u, a, 1);
            lemma_differs_at(u, au, 1);
        },
        Route::GetOnePost => {
            reveal_strlit("/post/<post_id>");
            lemma_differs_at(u, a, 1);
            lemma_differs_at(u, au, 1);
        },
        Route::Admin | Route::AdminNoUser => {
            reveal_strlit("/admin");
        },
        Route::Login | Route::LoginUser => {
            reveal_strlit("/login");
        },
        Route::Logout => {
            reveal_strlit("/logout");
            lemma_differs_at(u, a, 1);
            lemma_differs_at(u, au, 1);
        },
        Route::GetUsers => {
            reveal_strlit("/admin/users");
            assert(u.subrange(0, 7) =~= a);
            assert(u.subrange(0, 11) =~= au);
        },
        Route::NewUser => {
            reveal_strlit("/admin/user/add");
            assert(u.subrange(0, 7) =~= a);
            assert(u.subrange(0, 11) =~= au);
        },
        Route::GetUser | Route::EditUser => {
            reveal_strlit("/admin/user/<user_id>");
            assert(u.subrange(0, 7) =~= a);
            assert(u.subrange(0, 11) =~= au);
        },
        Route::RemoveUser => {
            reveal_strlit("/admin/user/remove/<user_id>");
            assert(u.subrange(0, 7) =~= a);
            assert(u.subrange(0, 11) =~= au);
        },
        Route::NewPost | Route::AddPost => {
            reveal_strlit("/admin/post/add");
            assert(u.subrange(0, 7) =~= a);
            lemma_differs_at(u, au, 7);
        },
        Route::Posts => {
            reveal_strlit("/admin/posts");
            assert(u.subrange(0, 7) =~= a);
            lemma_differs_at(u, au, 7);
        },
        Route::GetPost | Route::EditPost => {
            reveal_strlit("/admin/post/<post_id>");
            assert(u.subrange(0, 7) =~= a);
            lemma_differs_at(u, au, 7);
        },
        Route::RemovePost => {
            reveal_strlit("/admin/post/remove/<post_id>");
            assert(u.subrange(0, 7) =~= a);
            lemma_differs_at(u, au, 7);
        },
        Route::GetPages => {
            reveal_strlit("/admin/pages");
            assert(u.subrange(0, 7) =~= a);
            lemma_differs_at(u, au, 7);
        },
        Route::NewPage => {
            reveal_strlit("/admin/page");
            assert(u.subrange(0, 7) =~= a);
            lemma_differs_at(u, au, 7);
        },
        Route::GetPageWithContent => {
            reveal_strlit("/admin/page/<page>/<content_id>");
            assert(u.subrange(0, 7) =~= a);
            lemma_differs_at(u, au, 7);
        },
        Route::GetPageNoContent => {
            reveal_strlit("/admin/page/<page>");
            assert(u.subrange(0, 7) =~= a);
            lemma_differs_at(u, au, 7);
        },
        Route::NewContent => {
            reveal_strlit("/admin/page/content/<page>");
            assert(u.subrange(0, 7) =~= a);
            lemma_differs_at(u, au, 7);
        },
        Route::RemovePage => {
            reveal_strlit("/admin/page/remove/<page_id>");
            assert(u.subrange(0, 7) =~= a);
            lemma_differs_at(u, au, 7);
        },
        Route::RestorePage => {
            reveal_strlit("/admin/page/restore/<page_id>");
            assert(u.subrange(0, 7) =~= a);
            lemma_differs_at(u, au, 7);
        },
        Route::EditPage => {
            reveal_strlit("/admin/page/<page_id>");
            assert(u.subrange(0, 7) =~= a);
            lemma_differs_at(u, au, 7);
        },
        Route::UploadImage => {
            reveal_strlit("/admin/image");
            assert(u.subrange(0, 7) =~= a);
            lemma_differs_at(u, au, 7);
        },
    }
}

/// Every mounted route below `/admin/` lets only admins in, except the
/// image upload, which is open to anyone; and every mounted route below
/// `/admin/user` lets only superadmins in.
pub proof fn lemma_admin_area_guarded()
    ensures
        forall|i: int|
            0 <= i < mounted_routes().len() && has_prefix(
                route_uri(#[trigger] mounted_routes()[i]),
                "/admin/"@,
            ) && mounted_routes()[i] != Route::UploadImage ==> route_guard(mounted_routes()[i])
                != Guard::Open,
        forall|i: int|
            0 <= i < mounted_routes().len() && has_prefix(
                route_uri(#[trigger] mounted_routes()[i]),
                "/admin/user"@,
            ) ==> route_guard(mounted_routes()[i]) == Guard::SuperAdmin,
        route_guard(Route::UploadImage) == Guard::Open,
        has_prefix(route_uri(Route::UploadImage), "/admin/"@),
{
    lemma_admin_prefixes(Route::UploadImage);
    assert forall|i: int| 0 <= i < mounted_routes().len() implies {
        &&& has_prefix(route_uri(#[trigger] mounted_routes()[i]), "/admin/"@)
            && mounted_routes()[i] != Route::UploadImage ==> route_guard(mounted_routes()[i])
            != Guard::Open
        &&& has_prefix(route_uri(mounted_routes()[i]), "/admin/user"@) ==> route_guard(
            mounted_routes()[i],
        ) == Guard::SuperAdmin
    } by {
        lemma_admin_prefixes(mounted_routes()[i]);
    }
}

} // verus!
