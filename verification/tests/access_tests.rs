use simulador::access::{
    calculate_mode, get_animation_classes, is_current, nav_class, protected_route, show_divider,
    shows_narrow_screen_notice, shows_user_button, Guard, LoginMode, Role, Route,
};

#[test]
fn guard_without_session_goes_to_login() {
    assert_eq!(protected_route(None, Role::Student), Guard::Redirect(Route::Login));
    assert_eq!(protected_route(None, Role::Admin), Guard::Redirect(Route::Login));
}

#[test]
fn guard_matrix() {
    assert_eq!(protected_route(Some("admin"), Role::Admin), Guard::Render);
    assert_eq!(protected_route(Some("admin"), Role::Student), Guard::Redirect(Route::AdminProjects));
    assert_eq!(protected_route(Some("grupo1"), Role::Student), Guard::Render);
    assert_eq!(protected_route(Some("grupo1"), Role::Admin), Guard::Redirect(Route::Student));
    assert_eq!(protected_route(Some(""), Role::Student), Guard::Render);
    assert_eq!(protected_route(Some("Admin"), Role::Admin), Guard::Redirect(Route::Student));
}

#[test]
fn guard_redirects_settle() {
    for s in ["admin", "grupo", ""] {
        for role in [Role::Admin, Role::Student] {
            if let Guard::Redirect(t) = protected_route(Some(s), role) {
                assert_ne!(t, Route::Login);
                let next = t.required_role().unwrap();
                assert_eq!(protected_route(Some(s), next), Guard::Render);
            }
        }
    }
}

#[test]
fn routes() {
    assert_eq!(Route::Student.path(), "/");
    assert_eq!(Route::AdminStudents.path(), "/admin/students");
    assert_eq!(Route::AdminConfig.path(), "/admin/settings");
    assert_eq!(Route::NotFound.path(), "/404");
    assert_eq!(Route::Login.required_role(), None);
    assert_eq!(Route::AdminProjects.required_role(), Some(Role::Admin));
    assert!(Route::AdminConfig.in_admin_layout());
    assert!(!Route::Student.in_admin_layout());
    assert!(is_current("/admin", Route::AdminProjects));
    assert!(!is_current("/admin/", Route::AdminProjects));
}

#[test]
fn login_modes_and_classes() {
    assert_eq!(calculate_mode("ABC", "u", "p"), LoginMode::Student);
    assert_eq!(calculate_mode("", "", "p"), LoginMode::Teacher);
    assert_eq!(calculate_mode("", "", ""), LoginMode::Neither);
    let (s, t) = get_animation_classes(LoginMode::Teacher);
    assert!(s.contains("max-w-0"));
    assert!(t.ends_with("max-w-md flex-1"));
    let (s, t) = get_animation_classes(LoginMode::Student);
    assert!(s.ends_with("opacity-100 scale-100 max-w-md"));
    assert!(t.contains("opacity-0"));
    assert!(show_divider(LoginMode::Neither));
    assert!(!show_divider(LoginMode::Student));
}

#[test]
fn header_and_screen() {
    assert!(nav_class(true).contains("bg-cyan-200"));
    assert!(nav_class(false).contains("hover:bg-white/10"));
    assert!(shows_user_button("/", "grupo"));
    assert!(!shows_user_button("/login", "grupo"));
    assert!(!shows_user_button("/admin", ""));
    assert!(shows_narrow_screen_notice(767));
    assert!(!shows_narrow_screen_notice(768));
}
