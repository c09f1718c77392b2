use std::collections::HashMap;
use simulador::api::{
    classify_response, clear_session, create_student_request, delete_project_request,
    delete_student_request, delivery_request, history_error_message, history_request,
    image_error_message, login_error_message, login_request, login_success, plan_login,
    process_local_login, process_local_logout, project_path, server_error_message,
    simulation_error_message, trigger_logout, update_student_request, upload_error_message,
    FailureReport, Method, ResponseStep, StorageChange,
};
use simulador::json::{delivery_body, student_body, student_credentials, teacher_credentials, user_request_body};

fn object(pairs: &[(&str, serde_json::Value)]) -> String {
    let mut m = serde_json::Map::new();
    for (k, v) in pairs {
        m.insert(k.to_string(), v.clone());
    }
    serde_json::Value::Object(m).to_string()
}

fn text(s: &str) -> serde_json::Value {
    serde_json::Value::String(s.to_string())
}

fn put(k: &str, v: &str) -> StorageChange {
    StorageChange::Put { key: k.to_string(), value: v.to_string() }
}

#[test]
fn json_bodies_escape_like_serde_json() {
    let tricky = "a\"b\\c\nd\te\u{1}f\u{8}\u{c}\rñ/";
    assert_eq!(
        student_credentials(tricky),
        format!("{{\"code\":{}}}", serde_json::to_string(tricky).unwrap())
    );
    assert_eq!(
        student_credentials(tricky),
        object(&[("code", text(tricky))])
    );
    assert_eq!(
        teacher_credentials("profe", "cl\"ave"),
        object(&[("user", text("profe")), ("pass", text("cl\"ave"))])
    );
    assert_eq!(user_request_body("u", "p"), "{\"user\":\"u\",\"pass\":\"p\"}");
    assert_eq!(student_credentials("\u{1f}"), "{\"code\":\"\\u001f\"}");
}

#[test]
fn delivery_and_student_bodies() {
    assert_eq!(delivery_body(Some(17)), object(&[("simulation_id", serde_json::Value::from(17i64))]));
    assert_eq!(delivery_body(None), "{\"simulation_id\":null}");
    assert_eq!(delivery_body(Some(-3)), "{\"simulation_id\":-3}");
    assert_eq!(
        student_body("Grupo \"A\"", 4),
        object(&[("name", text("Grupo \"A\"")), ("project_id", serde_json::Value::from(4i64))])
    );
}

#[test]
fn request_paths() {
    let r = history_request(Some(12));
    assert_eq!((r.method, r.url.as_str()), (Method::Get, "/api/v1/exams/my_simulations?student_id=12"));
    let r = history_request(None);
    assert_eq!(r.url, "/api/v1/exams/my_simulations");
    let r = delivery_request(None);
    assert_eq!((r.method, r.url.as_str(), r.body.as_deref()), (Method::Post, "/api/v1/exams/select_delivery", Some("{\"simulation_id\":null}")));
    let r = create_student_request("g1", 2);
    assert_eq!((r.method, r.url.as_str()), (Method::Post, "/api/v1/students"));
    assert_eq!(r.body.as_deref(), Some("{\"name\":\"g1\",\"project_id\":2}"));
    let r = update_student_request(9, "g2", 3);
    assert_eq!((r.method, r.url.as_str()), (Method::Put, "/api/v1/students/9"));
    assert_eq!(r.body.as_deref(), Some("{\"name\":\"g2\",\"project_id\":3}"));
    let r = delete_student_request(9);
    assert_eq!((r.method, r.url.as_str(), r.body.is_none()), (Method::Delete, "/api/v1/students/9", true));
    assert_eq!(project_path(5), "/api/v1/projects/5");
    let r = delete_project_request(-1);
    assert_eq!((r.method, r.url.as_str()), (Method::Delete, "/api/v1/projects/-1"));
}

#[test]
fn logout_request() {
    let r = trigger_logout();
    assert_eq!((r.method, r.url.as_str(), r.body.is_none()), (Method::Post, "/api/v1/auth/close_session", true));
}

#[test]
fn response_dispatch() {
    assert_eq!(classify_response(200, true, true), ResponseStep::ReadBody);
    assert_eq!(
        classify_response(401, true, true),
        ResponseStep::Fail { clear_session: true, report: FailureReport::Handler(401) }
    );
    assert_eq!(
        classify_response(403, false, true),
        ResponseStep::Fail { clear_session: true, report: FailureReport::Message("Error del servidor: 403".to_string()) }
    );
    assert_eq!(
        classify_response(500, false, false),
        ResponseStep::Fail { clear_session: false, report: FailureReport::Silent }
    );
    assert_eq!(
        classify_response(404, true, false),
        ResponseStep::Fail { clear_session: false, report: FailureReport::Handler(404) }
    );
}

#[test]
fn status_messages() {
    assert_eq!(server_error_message(502), "Error del servidor: 502");
    assert_eq!(upload_error_message(413), "Error guardando mapa: 413");
    assert_eq!(image_error_message(500), "Error de simulación: 500");
    assert_eq!(history_error_message(404), "Error al obtener el historial. Código del servidor: 404");
    assert_eq!(simulation_error_message(403), "Has alcanzado el límite máximo de intentos permitidos para este proyecto.");
    assert_eq!(simulation_error_message(500), "Error en el servidor: Código 500");
    assert_eq!(login_error_message(401), "Error de conexión o credenciales inválidas");
    assert_eq!(login_error_message(0), "Error de autenticación: 0");
}

#[test]
fn storage_plans() {
    assert_eq!(process_local_login("Grupo 1", "student"), vec![put("group_or_user_name", "Grupo 1"), put("user_role", "student")]);
    let out = process_local_logout("/login");
    assert_eq!(out.changes, vec![put("group_or_user_name", ""), put("user_role", "")]);
    assert_eq!(out.redirect, "/login");
    assert_eq!(
        clear_session(),
        vec![
            StorageChange::Remove { key: "group_or_user_name".to_string() },
            StorageChange::Remove { key: "user_role".to_string() }
        ]
    );
}

#[test]
fn login_then_logout_leaves_empty_session() {
    let mut storage: HashMap<String, String> = HashMap::new();
    storage.insert("other".into(), "x".into());
    let mut apply = |cs: &Vec<StorageChange>| {
        for c in cs {
            match c {
                StorageChange::Put { key, value } => {
                    storage.insert(key.clone(), value.clone());
                }
                StorageChange::Remove { key } => {
                    storage.remove(key);
                }
            }
        }
    };
    apply(&process_local_login("ana", "admin"));
    apply(&process_local_logout("/login").changes);
    assert_eq!(storage.get("group_or_user_name").map(|s| s.as_str()), Some(""));
    assert_eq!(storage.get("user_role").map(|s| s.as_str()), Some(""));
    assert_eq!(storage.get("other").map(|s| s.as_str()), Some("x"));
}

#[test]
fn login_plans() {
    let p = plan_login("ABC1J5", "profe", "clave").unwrap();
    assert_eq!(p.body, "{\"code\":\"ABC1J5\"}");
    assert_eq!(p.display_name, "ABC1J5");
    assert_eq!(p.redirection, "/");
    let p = plan_login("", "profe", "clave").unwrap();
    assert_eq!(p.body, "{\"pass\":\"clave\",\"user\":\"profe\"}");
    assert_eq!(p.redirection, "/admin");
    assert!(plan_login("", "profe", "").is_none());
    assert!(plan_login("", "", "clave").is_none());
    assert!(plan_login("", "", "").is_none());
    let r = login_request(&p);
    assert_eq!((r.method, r.url.as_str()), (Method::Post, "/api/v1/auth/login"));
}

#[test]
fn login_success_stores_role_and_name() {
    let teacher = plan_login("", "profe", "clave").unwrap();
    let out = login_success(&teacher, "  Prof. Pérez \n");
    assert_eq!(out.changes, vec![put("user_role", "admin"), put("group_or_user_name", "Prof. Pérez")]);
    assert_eq!(out.redirect, "/admin");
    let student = plan_login("X1", "", "").unwrap();
    let out = login_success(&student, "   ");
    assert_eq!(out.changes, vec![put("user_role", "student"), put("group_or_user_name", "X1")]);
    assert_eq!(out.redirect, "/");
}
