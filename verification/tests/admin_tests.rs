use simulador::views::{due_date_to_show, project_kind_label, tab_button_class};
use simulador::forms::{
    check_new_project, check_new_student, check_student_rename, edit_attempts_message,
    parse_attempts_limit, project_description, student_visible, AttemptsLimitError, ProjectFormFields,
};
use simulador::records::{position_by_id, remove_by_id, replace_by_id, ProjectRef, Student};
use simulador::views::{
    attempts_title, background_path, delete_project_warning, delete_student_question,
    login_alert_class, next_counter, parse_counter, row_alert_class, select_layer, ImageView,
};

fn student(id: i64, name: &str, project_id: i64) -> Student {
    Student { id, name: name.to_string(), code: format!("C{}", id), project_id }
}

#[test]
fn project_form_fields() {
    let f = ProjectFormFields::new_empty();
    assert_eq!(f.weather, "Favorable");
    assert_eq!(f.seabed_hardness, "Duro");
    assert_eq!(f.attempts_limit, "");
    assert_eq!(f.budget, "");
    let g = ProjectFormFields::from_project(-1, "Adverso", "Blando", "1500.5", "2", "30");
    assert_eq!(g.attempts_limit, "-1");
    assert_eq!(g.weather, "Adverso");
    assert_eq!(g.budget, "1500.5");
    assert_eq!(g.max_depth, "30");
}

#[test]
fn attempts_limit_parsing() {
    assert_eq!(parse_attempts_limit("3"), Ok(3));
    assert_eq!(parse_attempts_limit("0"), Err(AttemptsLimitError::NotPositive));
    assert_eq!(parse_attempts_limit("-2"), Err(AttemptsLimitError::NotPositive));
    assert_eq!(parse_attempts_limit("2.5"), Err(AttemptsLimitError::NotInteger));
    assert_eq!(parse_attempts_limit(""), Err(AttemptsLimitError::NotInteger));
    assert_eq!(edit_attempts_message(AttemptsLimitError::NotInteger), "Intentos inválidos");
    assert_eq!(edit_attempts_message(AttemptsLimitError::NotPositive), "El límite de intentos debe ser mayor a cero");
}

#[test]
fn new_project_checks_in_order() {
    let e = |r: Result<simulador::forms::NewProjectChecks, String>| r.err().unwrap();
    assert_eq!(e(check_new_project(false, "", true, "", "x")), "Tenés que seleccionar un archivo GeoTIFF obligatorio");
    assert_eq!(e(check_new_project(true, "", true, "", "x")), "El nombre del proyecto es obligatorio");
    assert_eq!(e(check_new_project(true, "P", true, "", "x")), "La fecha límite de entrega es obligatoria para el modo examen");
    assert_eq!(e(check_new_project(true, "P", false, "", "x")), "El límite de intentos debe ser un número entero");
    assert_eq!(e(check_new_project(true, "P", false, "", "0")), "El límite de intentos debe ser mayor a cero");
    let ok = check_new_project(true, "P", true, "2025-01-01", "+4").ok().unwrap();
    assert_eq!(ok.due_date.as_deref(), Some("2025-01-01"));
    assert_eq!(ok.attempts_limit, 4);
    let ok = check_new_project(true, "P", false, "2025-01-01", "4").ok().unwrap();
    assert_eq!(ok.due_date, None);
}

#[test]
fn student_checks() {
    assert_eq!(check_new_student("g", 0), Err("Debes seleccionar un proyecto disponible para el grupo.".to_string()));
    assert_eq!(check_new_student("", 3), Err("Asigna a un alumno/grupo válido.".to_string()));
    assert_eq!(check_new_student("g", 3), Ok(()));
    assert_eq!(check_student_rename("  Grupo 2 "), Ok("Grupo 2".to_string()));
    assert_eq!(check_student_rename(" \t"), Err("El nombre del grupo no puede estar vacío".to_string()));
}

#[test]
fn student_filter_lowercases() {
    assert!(student_visible(Some("Zona Norte"), ""));
    assert!(student_visible(None, "   "));
    assert!(student_visible(Some("Zona Norte"), "  NORTE "));
    assert!(student_visible(Some("ZONA"), "zona"));
    assert!(!student_visible(Some("Zona Sur"), "norte"));
    assert!(!student_visible(None, "norte"));
    assert!(student_visible(Some("ÁREA"), "área"));
}

#[test]
fn descriptions() {
    assert_eq!(project_description(Some("Bahía")), "Bahía");
    assert_eq!(project_description(None), "Sin descripción");
}

#[test]
fn records_lists() {
    let mut v = vec![student(1, "a", 1), student(2, "b", 1), student(3, "c", 2)];
    assert_eq!(position_by_id(&v, 2), Some(1));
    assert_eq!(position_by_id(&v, 7), None);
    assert!(replace_by_id(&mut v, student(2, "B", 5)));
    assert_eq!(v[1], student(2, "B", 5));
    assert!(!replace_by_id(&mut v, student(9, "z", 0)));
    assert_eq!(v.len(), 3);
    remove_by_id(&mut v, 1);
    assert_eq!(v, vec![student(2, "B", 5), student(3, "c", 2)]);
    let mut p = vec![
        ProjectRef { id: 4, name: "x".into() },
        ProjectRef { id: 4, name: "y".into() },
        ProjectRef { id: 5, name: "z".into() },
    ];
    assert!(replace_by_id(&mut p, ProjectRef { id: 4, name: "w".into() }));
    assert_eq!(p[0].name, "w");
    assert_eq!(p[1].name, "y");
    remove_by_id(&mut p, 4);
    assert_eq!(p, vec![ProjectRef { id: 5, name: "z".into() }]);
}

#[test]
fn login_background_counter() {
    assert_eq!(parse_counter(None), 0);
    assert_eq!(parse_counter(Some("2")), 2);
    assert_eq!(parse_counter(Some("x")), 0);
    assert_eq!(parse_counter(Some("256")), 0);
    assert_eq!(next_counter(0), 1);
    assert_eq!(next_counter(2), 0);
    assert_eq!(next_counter(next_counter(next_counter(1))), 1);
    assert_eq!(next_counter(200), 0);
    assert_eq!(background_path(2), "static/login_wall_2.jpg");
}

#[test]
fn alert_classes() {
    assert_eq!(login_alert_class(""), "");
    assert_eq!(login_alert_class("Autenticando..."), "bg-cyan-500/10 border border-cyan-500/20 text-cyan-400");
    assert_eq!(login_alert_class("Error de autenticación: 500"), "bg-red-500/10 border border-red-500/20 text-red-400");
    assert_eq!(row_alert_class("Guardando..."), "text-cyan-400 mt-1 block text-xs");
    assert_eq!(row_alert_class("Estudiante actualizado con éxito"), "text-red-400 mt-1 block text-xs font-medium");
    assert_eq!(row_alert_class("Grupo creado con EXITO"), "text-cyan-400 mt-1 block text-xs");
}

#[test]
fn image_layers() {
    assert_eq!(select_layer(0, Some("a.png"), None, None), ImageView::Clear);
    assert_eq!(
        select_layer(1, Some("a.png"), None, None),
        ImageView::Show { url: "/images/a.png".into(), legend: true }
    );
    assert_eq!(select_layer(2, Some("a.png"), None, None), ImageView::Missing("No hay mapa de cobertura disponible.".into()));
    assert_eq!(select_layer(1, Some(""), None, None), ImageView::Missing("No hay mapa de simulación disponible.".into()));
    assert_eq!(
        select_layer(3, None, None, Some("d.png")),
        ImageView::Show { url: "/images/d.png".into(), legend: false }
    );
    assert_eq!(select_layer(3, None, None, None), ImageView::Missing("No hay mapa de diferencias disponible.".into()));
    assert_eq!(select_layer(4, Some("a"), Some("b"), Some("c")), ImageView::Keep);
}

#[test]
fn dialog_texts() {
    assert_eq!(attempts_title("ABC1", "Bahía"), "Intentos de ABC1, para el proyecto: Bahía");
    assert_eq!(delete_student_question("G"), "¿Estás seguro de que querés borrar a 'G'? Esta acción no se puede deshacer.");
    assert_eq!(delete_project_warning("P"), "Esta acción eliminará permanentemente el proyecto 'P' \n junto a todas sus asignaciones.");
}

#[test]
fn tabs_deadline_and_kind() {
    assert!(tab_button_class(true).ends_with("h-9 w-11 flex-none bg-zinc-700 text-white"));
    assert!(tab_button_class(false).ends_with("h-9 flex-1 text-white/40 hover:text-white/70 px-3"));
    assert_eq!(due_date_to_show(Some(" 2025-03-01 ")), Some("2025-03-01".to_string()));
    assert_eq!(due_date_to_show(Some("  ")), None);
    assert_eq!(due_date_to_show(None), None);
    assert_eq!(project_kind_label(true), "Entrega");
    assert_eq!(project_kind_label(false), "Libre");
}
