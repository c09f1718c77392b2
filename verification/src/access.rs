//! Who may see which page: the client's routes, the guard in front of the
//! protected ones, and the small presentation choices that follow from the
//! session and the login form.

use vstd::prelude::*;
use vstd::string::*;
use crate::text::str_eq;

verus! {

/// The role a page is meant for.
#[derive(Clone, Copy, Debug, PartialEq, Eq, Structural)]
pub enum Role {
    Student,
    Admin,
}

/// The pages of the client.
#[derive(Clone, Copy, Debug, PartialEq, Eq, Structural)]
pub enum Route {
    Student,
    Login,
    AdminProjects,
    AdminStudents,
    AdminConfig,
    NotFound,
}

/// The path of each page.
pub open spec fn route_path(r: Route) -> Seq<char> {
    match r {
        Route::Student => "/"@,
        Route::Login => "/login"@,
        Route::AdminProjects => "/admin"@,
        Route::AdminStudents => "/admin/students"@,
        Route::AdminConfig => "/admin/settings"@,
        Route::NotFound => "/404"@,
    }
}

/// The role a page asks for; the login and not-found pages are open.
pub open spec fn route_role(r: Route) -> Option<Role> {
    match r {
        Route::Student => Some(Role::Student),
        Route::AdminProjects | Route::AdminStudents | Route::AdminConfig => Some(Role::Admin),
        Route::Login | Route::NotFound => None,
    }
}

impl Route {
    /// The page's path.
    pub fn path(&self) -> (p: &'static str)
        ensures
            p@ == route_path(*self),
    {
        match self {
            Route::Student => "/",
            Route::Login => "/login",
            Route::AdminProjects => "/admin",
            Route::AdminStudents => "/admin/students",
            Route::AdminConfig => "/admin/settings",
            Route::NotFound => "/404",
        }
    }

    /// The role the page asks for, if any.
    pub fn required_role(&self) -> (r: Option<Role>)
        ensures
            r == route_role(*self),
    {
        match self {
            Route::Student => Some(Role::Student),
            Route::AdminProjects | Route::AdminStudents | Route::AdminConfig => Some(Role::Admin),
            Route::Login | Route::NotFound => None,
        }
    }

    /// Whether the page is shown inside the administration layout.
    pub fn in_admin_layout(&self) -> (b: bool)
        ensures
            b == (route_role(*self) == Some(Role::Admin)),
    {
        match self {
            Route::AdminProjects | Route::AdminStudents | Route::AdminConfig => true,
            _ => false,
        }
    }
}

/// What the guard of a protected page does.
#[derive(Clone, Copy, Debug, PartialEq, Eq, Structural)]
pub enum Guard {
    /// Show the page.
    Render,
    /// Replace the location with another page.
    Redirect(Route),
}

/// The guard's decision for the stored session name (`None` when nothing is
/// stored): without a session to the login; an administrator away from
/// student pages and anyone else away from administration pages.
pub open spec fn guard_decision(session: Option<Seq<char>>, required: Role) -> Guard {
    match session {
        None => Guard::Redirect(Route::Login),
        Some(name) => {
            let is_admin = name == "admin"@;
            match required {
                Role::Admin => if !is_admin { Guard::Redirect(Route::Student) } else { Guard::Render },
                Role::Student => if is_admin { Guard::Redirect(Route::AdminProjects) } else { Guard::Render },
            }
        },
    }
}

/// The guard in front of a protected page.
pub fn protected_route(session: Option<&str>, required: Role) -> (g: Guard)
    ensures
        g == guard_decision(
            match session {
                Some(s) => Some(s@),
                None => None,
            },
            required,
        ),
{
    match session {
        None => Guard::Redirect(Route::Login),
        Some(name) => {
            let is_admin = str_eq(name, "admin");
            match required {
                Role::Admin => if !is_admin { Guard::Redirect(Route::Student) } else { Guard::Render },
                Role::Student => if is_admin { Guard::Redirect(Route::AdminProjects) } else { Guard::Render },
            }
        },
    }
}

/// The guard never sends a logged-in user round in circles: when it sends
/// one away to a page other than the login, that page's own guard shows it.
pub proof fn lemma_guard_redirect_settles(session: Option<Seq<char>>, required: Role, target: Route)
    requires
        guard_decision(session, required) == Guard::Redirect(target),
        target != Route::Login,
    ensures
        route_role(target) is Some,
        guard_decision(session, route_role(target)->0) == Guard::Render,
{
}

/// Without a session every protected page sends to the login, and the
/// login page is not protected.
pub proof fn lemma_no_session_goes_to_login(required: Role)
    ensures
        guard_decision(None, required) == Guard::Redirect(Route::Login),
        route_role(Route::Login) is None,
{
}

/// Which of the two login forms is being filled in.
#[derive(Clone, Copy, Debug, PartialEq, Eq, Structural)]
pub enum LoginMode {
    Neither,
    Student,
    Teacher,
}

/// A student's access code takes precedence; any teacher field selects the
/// teacher form.
pub open spec fn login_mode(code: Seq<char>, user: Seq<char>, pass: Seq<char>) -> LoginMode {
    if code.len() > 0 {
        LoginMode::Student
    } else if user.len() > 0 || pass.len() > 0 {
        LoginMode::Teacher
    } else {
        LoginMode::Neither
    }
}

/// The form being filled in.
pub fn calculate_mode(student_code: &str, teacher_user: &str, teacher_password: &str) -> (m: LoginMode)
    ensures
        m == login_mode(student_code@, teacher_user@, teacher_password@),
{
    if student_code.unicode_len() > 0 {
        LoginMode::Student
    } else if teacher_user.unicode_len() > 0 || teacher_password.unicode_len() > 0 {
        LoginMode::Teacher
    } else {
        LoginMode::Neither
    }
}

/// A typed student code selects the student form whatever the teacher fields
/// hold; with no code, typing in either teacher field (the user alone, or the
/// password alone) selects the teacher form; neither form is selected only
/// while all three fields are empty.
pub proof fn lemma_login_mode_follows_typed_fields(code: Seq<char>, user: Seq<char>, pass: Seq<char>)
    ensures
        code.len() > 0 ==> login_mode(code, user, pass) == LoginMode::Student,
        code.len() == 0 && user.len() > 0 ==> login_mode(code, user, pass) == LoginMode::Teacher,
        code.len() == 0 && pass.len() > 0 ==> login_mode(code, user, pass) == LoginMode::Teacher,
        (login_mode(code, user, pass) == LoginMode::Neither) <==> (code.len() == 0 && user.len() == 0
            && pass.len() == 0),
{
}

/// Classes of a login form that stays visible.
pub open spec fn shown_form_class() -> Seq<char> {
    "flex-1 overflow-hidden transition-all duration-300 ease-in-out opacity-100 scale-100 max-w-md"@
}

/// Classes of a login form that folds away.
pub open spec fn hidden_form_class() -> Seq<char> {
    "flex-1 overflow-hidden transition-all duration-300 ease-in-out opacity-0 scale-95 max-w-0 p-0"@
}

/// Classes of the student form and of the teacher form: the other form than
/// the one being filled in folds away.
pub fn get_animation_classes(mode: LoginMode) -> (r: (&'static str, &'static str))
    ensures
        r.0@ == (if mode == LoginMode::Teacher { hidden_form_class() } else { shown_form_class() }),
        r.1@ == (if mode == LoginMode::Student { hidden_form_class() } else {
            shown_form_class() + " flex-1"@
        }),
{
    let student_cls = match mode {
        LoginMode::Teacher => "flex-1 overflow-hidden transition-all duration-300 ease-in-out opacity-0 scale-95 max-w-0 p-0",
        _ => "flex-1 overflow-hidden transition-all duration-300 ease-in-out opacity-100 scale-100 max-w-md",
    };
    let teacher_cls = match mode {
        LoginMode::Student => "flex-1 overflow-hidden transition-all duration-300 ease-in-out opacity-0 scale-95 max-w-0 p-0",
        _ => "flex-1 overflow-hidden transition-all duration-300 ease-in-out opacity-100 scale-100 max-w-md flex-1",
    };
    proof {
        reveal_strlit("flex-1 overflow-hidden transition-all duration-300 ease-in-out opacity-100 scale-100 max-w-md flex-1");
        reveal_strlit("flex-1 overflow-hidden transition-all duration-300 ease-in-out opacity-100 scale-100 max-w-md");
        reveal_strlit(" flex-1");
        assert("flex-1 overflow-hidden transition-all duration-300 ease-in-out opacity-100 scale-100 max-w-md flex-1"@
            =~= shown_form_class() + " flex-1"@);
    }
    (student_cls, teacher_cls)
}

/// The divider between the two forms shows while neither is being filled in.
pub fn show_divider(mode: LoginMode) -> (b: bool)
    ensures
        b == (mode == LoginMode::Neither),
{
    mode == LoginMode::Neither
}

/// Classes of a link of the administration sidebar.
pub fn nav_class(active: bool) -> (c: &'static str)
    ensures
        active ==> c@ == "flex items-center gap-2 px-3 py-2 [&>span]:pt-0.5 rounded-md bg-cyan-200 text-black/80"@,
        !active ==> c@ == "flex items-center gap-2 px-3 py-2 [&>span]:pt-0.5 rounded-md hover:bg-white/10 text-white"@,
{
    if active {
        "flex items-center gap-2 px-3 py-2 [&>span]:pt-0.5 rounded-md bg-cyan-200 text-black/80"
    } else {
        "flex items-center gap-2 px-3 py-2 [&>span]:pt-0.5 rounded-md hover:bg-white/10 text-white"
    }
}

/// Whether `path` is the page of `route`, as the sidebar marks the current link.
pub fn is_current(path: &str, route: Route) -> (b: bool)
    ensures
        b == (path@ == route_path(route)),
{
    str_eq(path, route.path())
}

/// The user's name and the logout button show outside the login page while a
/// name is stored.
pub fn shows_user_button(path: &str, stored_name: &str) -> (b: bool)
    ensures
        b == (path@ != "/login"@ && stored_name@.len() > 0),
{
    !str_eq(path, "/login") && stored_name.unicode_len() > 0
}

/// The narrowest window, in pixels, that the client is meant for.
pub const MIN_SCREEN_WIDTH: i32 = 768;

/// Whether the notice about too narrow a window shows.
pub fn shows_narrow_screen_notice(width: i32) -> (b: bool)
    ensures
        b == (width < MIN_SCREEN_WIDTH),
{
    width < MIN_SCREEN_WIDTH
}

} // verus!
