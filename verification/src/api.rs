//! The web client's requests to the server: where each goes and what it
//! carries, how a response is dispatched, the messages shown for failures, and
//! the session entries kept in the browser's local storage.

use vstd::prelude::*;
use vstd::string::*;
use crate::numeral::{dec_int, dec_nat, push_dec_i64, push_dec_u64};
use crate::json::{delivery_body, json_opt_int, json_string, student_body, student_credentials, teacher_credentials};
use crate::text::{trim, trim_str, str_eq};

verus! {

/// HTTP method of a request.
#[derive(Clone, Copy, Debug, PartialEq, Eq, Structural)]
pub enum Method {
    Get,
    Post,
    Put,
    Delete,
}

/// A request the client sends with credentials: method, path and JSON body.
#[derive(Clone, Debug)]
pub struct ApiRequest {
    pub method: Method,
    pub url: String,
    pub body: Option<String>,
}

impl View for ApiRequest {
    type V = (Method, Seq<char>, Option<Seq<char>>);

    open spec fn view(&self) -> (Method, Seq<char>, Option<Seq<char>>) {
        (self.method, self.url@, match self.body {
            Some(b) => Some(b@),
            None => None,
        })
    }
}

/// Path of the attempt history; a teacher names the student it belongs to.
pub open spec fn history_path(student_id: Option<i64>) -> Seq<char> {
    match student_id {
        Some(id) => "/api/v1/exams/my_simulations?student_id="@ + dec_int(id as int),
        None => "/api/v1/exams/my_simulations"@,
    }
}

/// The request for the history of simulation attempts.
pub fn history_request(student_id: Option<i64>) -> (r: ApiRequest)
    ensures
        r@ == (Method::Get, history_path(student_id), None::<Seq<char>>),
{
    let url = match student_id {
        Some(id) => {
            let mut u = String::from_str("/api/v1/exams/my_simulations?student_id=");
            push_dec_i64(&mut u, id);
            u
        },
        None => String::from_str("/api/v1/exams/my_simulations"),
    };
    ApiRequest { method: Method::Get, url, body: None }
}

/// The request that delivers an attempt, or with `None` withdraws the delivery.
pub fn delivery_request(simulation_id: Option<i64>) -> (r: ApiRequest)
    ensures
        r@ == (
            Method::Post,
            "/api/v1/exams/select_delivery"@,
            Some("{\"simulation_id\":"@ + json_opt_int(simulation_id) + "}"@),
        ),
{
    ApiRequest {
        method: Method::Post,
        url: String::from_str("/api/v1/exams/select_delivery"),
        body: Some(delivery_body(simulation_id)),
    }
}

/// `{prefix}{id}`.
fn path_with_id(prefix: &str, id: i64) -> (r: String)
    ensures
        r@ == prefix@ + dec_int(id as int),
{
    let mut u = String::from_str(prefix);
    push_dec_i64(&mut u, id);
    u
}

/// The JSON body that names a student and the project it is assigned to.
pub open spec fn student_body_text(name: Seq<char>, project_id: i64) -> Seq<char> {
    "{\"name\":"@ + json_string(name) + ",\"project_id\":"@ + dec_int(project_id as int) + "}"@
}

/// The request that creates a student assigned to a project.
pub fn create_student_request(name: &str, project_id: i64) -> (r: ApiRequest)
    ensures
        r@ == (Method::Post, "/api/v1/students"@, Some(student_body_text(name@, project_id))),
{
    ApiRequest {
        method: Method::Post,
        url: String::from_str("/api/v1/students"),
        body: Some(student_body(name, project_id)),
    }
}

/// The request that renames a student or assigns it another project.
pub fn update_student_request(student_id: i64, name: &str, project_id: i64) -> (r: ApiRequest)
    ensures
        r@ == (
            Method::Put,
            "/api/v1/students/"@ + dec_int(student_id as int),
            Some(student_body_text(name@, project_id)),
        ),
{
    ApiRequest {
        method: Method::Put,
        url: path_with_id("/api/v1/students/", student_id),
        body: Some(student_body(name, project_id)),
    }
}

/// The request that deletes a student.
pub fn delete_student_request(student_id: i64) -> (r: ApiRequest)
    ensures
        r@ == (Method::Delete, "/api/v1/students/"@ + dec_int(student_id as int), None::<Seq<char>>),
{
    ApiRequest { method: Method::Delete, url: path_with_id("/api/v1/students/", student_id), body: None }
}

/// The path of one project.
pub fn project_path(project_id: i64) -> (r: String)
    ensures
        r@ == "/api/v1/projects/"@ + dec_int(project_id as int),
{
    path_with_id("/api/v1/projects/", project_id)
}

/// The request that deletes a project.
pub fn delete_project_request(project_id: i64) -> (r: ApiRequest)
    ensures
        r@ == (Method::Delete, "/api/v1/projects/"@ + dec_int(project_id as int), None::<Seq<char>>),
{
    ApiRequest { method: Method::Delete, url: project_path(project_id), body: None }
}

/// The request that closes the session on the server. Once it succeeds the
/// client clears its session entries and goes to `/login`
/// (`process_local_logout`).
pub fn trigger_logout() -> (r: ApiRequest)
    ensures
        r@ == (Method::Post, "/api/v1/auth/close_session"@, None::<Seq<char>>),
{
    ApiRequest { method: Method::Post, url: String::from_str("/api/v1/auth/close_session"), body: None }
}

/// How a failed response is reported.
#[derive(Clone, Debug, PartialEq, Eq)]
pub enum FailureReport {
    /// The caller's error handler receives the status.
    Handler(u16),
    /// The message is shown to the user.
    Message(String),
    /// Nothing is shown.
    Silent,
}

/// What the client does with a response.
#[derive(Clone, Debug, PartialEq, Eq)]
pub enum ResponseStep {
    /// Status 200: read the body and hand it to the success handler.
    ReadBody,
    /// Any other status; on 401 and 403 the session entries are removed too.
    Fail { clear_session: bool, report: FailureReport },
}

/// `"Error del servidor: {status}"`.
pub open spec fn server_error_text(status: u16) -> Seq<char> {
    "Error del servidor: "@ + dec_nat(status as nat)
}

/// `{prefix}{status}`.
fn message_with_status(prefix: &str, status: u16) -> (r: String)
    ensures
        r@ == prefix@ + dec_nat(status as nat),
{
    let mut m = String::from_str(prefix);
    push_dec_u64(&mut m, status as u64);
    m
}

/// The message for a failed request that has no handler of its own.
pub fn server_error_message(status: u16) -> (r: String)
    ensures
        r@ == server_error_text(status),
{
    message_with_status("Error del servidor: ", status)
}

/// Dispatch of a response to a JSON or text request: the body is read on
/// 200; otherwise the session is dropped on 401 and 403, and the status goes
/// to the error handler when there is one, else to the message when the
/// caller shows one.
pub fn classify_response(status: u16, has_error_handler: bool, has_message: bool) -> (r: ResponseStep)
    ensures
        status == 200 ==> r == ResponseStep::ReadBody,
        status != 200 ==> (r matches ResponseStep::Fail { clear_session, report } && clear_session == (
        status == 401 || status == 403) && (if has_error_handler {
            report == FailureReport::Handler(status)
        } else if has_message {
            report matches FailureReport::Message(m) && m@ == server_error_text(status)
        } else {
            report == FailureReport::Silent
        })),
{
    if status == 200 {
        ResponseStep::ReadBody
    } else {
        let clear_session = status == 401 || status == 403;
        let report = if has_error_handler {
            FailureReport::Handler(status)
        } else if has_message {
            FailureReport::Message(server_error_message(status))
        } else {
            FailureReport::Silent
        };
        ResponseStep::Fail { clear_session, report }
    }
}

/// The message when uploading a project's map fails.
pub fn upload_error_message(status: u16) -> (r: String)
    ensures
        r@ == "Error guardando mapa: "@ + dec_nat(status as nat),
{
    message_with_status("Error guardando mapa: ", status)
}

/// The message when a rendered image cannot be fetched.
pub fn image_error_message(status: u16) -> (r: String)
    ensures
        r@ == "Error de simulación: "@ + dec_nat(status as nat),
{
    message_with_status("Error de simulación: ", status)
}

/// The message when the history cannot be fetched.
pub fn history_error_message(status: u16) -> (r: String)
    ensures
        r@ == "Error al obtener el historial. Código del servidor: "@ + dec_nat(status as nat),
{
    message_with_status("Error al obtener el historial. Código del servidor: ", status)
}

/// The message when a simulation is refused: 403 means that no attempts are left.
pub fn simulation_error_message(status: u16) -> (r: String)
    ensures
        status == 403 ==> r@
            == "Has alcanzado el límite máximo de intentos permitidos para este proyecto."@,
        status != 403 ==> r@ == "Error en el servidor: Código "@ + dec_nat(status as nat),
{
    if status == 403 {
        String::from_str("Has alcanzado el límite máximo de intentos permitidos para este proyecto.")
    } else {
        message_with_status("Error en el servidor: Código ", status)
    }
}

/// The message when a login is refused: 401 means wrong credentials.
pub fn login_error_message(status: u16) -> (r: String)
    ensures
        status == 401 ==> r@ == "Error de conexión o credenciales inválidas"@,
        status != 401 ==> r@ == "Error de autenticación: "@ + dec_nat(status as nat),
{
    if status == 401 {
        String::from_str("Error de conexión o credenciales inválidas")
    } else {
        message_with_status("Error de autenticación: ", status)
    }
}

/// A change to the browser's local storage.
#[derive(Clone, Debug, PartialEq, Eq)]
pub enum StorageChange {
    Put { key: String, value: String },
    Remove { key: String },
}

/// A storage change over character sequences.
pub enum StorageChangeView {
    Put { key: Seq<char>, value: Seq<char> },
    Remove { key: Seq<char> },
}

impl View for StorageChange {
    type V = StorageChangeView;

    open spec fn view(&self) -> StorageChangeView {
        match self {
            StorageChange::Put { key, value } => StorageChangeView::Put { key: key@, value: value@ },
            StorageChange::Remove { key } => StorageChangeView::Remove { key: key@ },
        }
    }
}

/// The storage after the changes `cs`, made in order.
pub open spec fn apply_changes(
    m: Map<Seq<char>, Seq<char>>,
    cs: Seq<StorageChangeView>,
) -> Map<Seq<char>, Seq<char>>
    decreases cs.len(),
{
    if cs.len() == 0 {
        m
    } else {
        let m1 = apply_changes(m, cs.drop_last());
        match cs.last() {
            StorageChangeView::Put { key, value } => m1.insert(key, value),
            StorageChangeView::Remove { key } => m1.remove(key),
        }
    }
}

/// The changes of `v`, as views.
pub open spec fn changes_view(v: Seq<StorageChange>) -> Seq<StorageChangeView> {
    v.map_values(|c: StorageChange| c@)
}

/// Key of the logged-in user's or group's name.
pub open spec fn session_key() -> Seq<char> {
    "group_or_user_name"@
}

/// Key of the logged-in role.
pub open spec fn role_key() -> Seq<char> {
    "user_role"@
}

fn set_change(key: &str, value: &str) -> (c: StorageChange)
    ensures
        c@ == (StorageChangeView::Put { key: key@, value: value@ }),
{
    StorageChange::Put { key: String::from_str(key), value: String::from_str(value) }
}

/// The entries that a successful login keeps: the name shown, then the role.
pub fn process_local_login(display_name: &str, role: &str) -> (r: Vec<StorageChange>)
    ensures
        changes_view(r@) == seq![
            StorageChangeView::Put { key: session_key(), value: display_name@ },
            StorageChangeView::Put { key: role_key(), value: role@ },
        ],
{
    let mut v: Vec<StorageChange> = Vec::new();
    v.push(set_change("group_or_user_name", display_name));
    v.push(set_change("user_role", role));
    assert(changes_view(v@) =~= seq![
        StorageChangeView::Put { key: session_key(), value: display_name@ },
        StorageChangeView::Put { key: role_key(), value: role@ },
    ]);
    v
}

/// What logging out does in the browser.
pub struct LogoutPlan {
    pub changes: Vec<StorageChange>,
    pub redirect: String,
}

/// Logging out: both session entries are emptied and the page goes to
/// `redirection`.
pub fn process_local_logout(redirection: &str) -> (r: LogoutPlan)
    ensures
        changes_view(r.changes@) == seq![
            StorageChangeView::Put { key: session_key(), value: Seq::empty() },
            StorageChangeView::Put { key: role_key(), value: Seq::empty() },
        ],
        r.redirect@ == redirection@,
{
    let mut v: Vec<StorageChange> = Vec::new();
    v.push(set_change("group_or_user_name", ""));
    v.push(set_change("user_role", ""));
    proof {
        reveal_strlit("");
        assert(""@ =~= Seq::<char>::empty());
    }
    assert(changes_view(v@) =~= seq![
        StorageChangeView::Put { key: session_key(), value: Seq::empty() },
        StorageChangeView::Put { key: role_key(), value: Seq::empty() },
    ]);
    LogoutPlan { changes: v, redirect: String::from_str(redirection) }
}

/// What the client does when the server answers 401 or 403: it forgets the
/// session.
pub fn clear_session() -> (r: Vec<StorageChange>)
    ensures
        changes_view(r@) == seq![
            StorageChangeView::Remove { key: session_key() },
            StorageChangeView::Remove { key: role_key() },
        ],
{
    let mut v: Vec<StorageChange> = Vec::new();
    v.push(StorageChange::Remove { key: String::from_str("group_or_user_name") });
    v.push(StorageChange::Remove { key: String::from_str("user_role") });
    assert(changes_view(v@) =~= seq![
        StorageChangeView::Remove { key: session_key() },
        StorageChangeView::Remove { key: role_key() },
    ]);
    v
}

/// A login to attempt: the request body, the name to show until the server
/// answers with one, and where to go afterwards.
pub struct LoginPlan {
    pub body: String,
    pub display_name: String,
    pub redirection: String,
}

/// The login that the form's fields call for: a student logs in with an
/// access code, which takes precedence; a teacher needs both user and
/// password; with neither nothing is sent.
pub fn plan_login(student_code: &str, teacher_user: &str, teacher_password: &str) -> (r: Option<LoginPlan>)
    ensures
        student_code@.len() > 0 ==> (r matches Some(p) && p.body@ == "{\"code\":"@ + json_string(
            student_code@,
        ) + "}"@ && p.display_name@ == student_code@ && p.redirection@ == "/"@),
        student_code@.len() == 0 && teacher_user@.len() > 0 && teacher_password@.len() > 0 ==> (
        r matches Some(p) && p.body@ == "{\"pass\":"@ + json_string(teacher_password@)
            + ",\"user\":"@ + json_string(teacher_user@) + "}"@ && p.display_name@ == teacher_user@
            && p.redirection@ == "/admin"@),
        student_code@.len() == 0 && (teacher_user@.len() == 0 || teacher_password@.len() == 0) ==> r
            is None,
{
    if student_code.unicode_len() > 0 {
        Some(
            LoginPlan {
                body: student_credentials(student_code),
                display_name: String::from_str(student_code),
                redirection: String::from_str("/"),
            },
        )
    } else if teacher_user.unicode_len() > 0 && teacher_password.unicode_len() > 0 {
        Some(
            LoginPlan {
                body: teacher_credentials(teacher_user, teacher_password),
                display_name: String::from_str(teacher_user),
                redirection: String::from_str("/admin"),
            },
        )
    } else {
        None
    }
}

/// The login request of a plan.
pub fn login_request(plan: &LoginPlan) -> (r: ApiRequest)
    ensures
        r@ == (Method::Post, "/api/v1/auth/login"@, Some(plan.body@)),
{
    ApiRequest {
        method: Method::Post,
        url: String::from_str("/api/v1/auth/login"),
        body: Some(plan.body.clone()),
    }
}

/// The name to show once logged in: the server's answer, trimmed, unless it
/// is blank.
pub open spec fn shown_name(display_name: Seq<char>, response: Seq<char>) -> Seq<char> {
    if trim(response).len() > 0 { trim(response) } else { display_name }
}

/// The role that the page after the login stands for.
pub open spec fn role_for(redirection: Seq<char>) -> Seq<char> {
    if redirection == "/admin"@ { "admin"@ } else { "student"@ }
}

/// What a successful login leaves in the browser.
pub struct LoginOutcome {
    pub changes: Vec<StorageChange>,
    pub redirect: String,
}

/// After a successful login: the role and the name are stored and the page
/// goes where the plan says.
pub fn login_success(plan: &LoginPlan, response: &str) -> (r: LoginOutcome)
    ensures
        changes_view(r.changes@) == seq![
            StorageChangeView::Put { key: role_key(), value: role_for(plan.redirection@) },
            StorageChangeView::Put { key: session_key(), value: shown_name(plan.display_name@, response@) },
        ],
        r.redirect@ == plan.redirection@,
{
    let trimmed = trim_str(response);
    let name = if trimmed.unicode_len() > 0 { trimmed } else { plan.display_name.clone() };
    let is_admin = str_eq(plan.redirection.as_str(), "/admin");
    let role = if is_admin { String::from_str("admin") } else { String::from_str("student") };
    let mut v: Vec<StorageChange> = Vec::new();
    v.push(set_change("user_role", role.as_str()));
    v.push(set_change("group_or_user_name", name.as_str()));
    assert(changes_view(v@) =~= seq![
        StorageChangeView::Put { key: role_key(), value: role_for(plan.redirection@) },
        StorageChangeView::Put { key: session_key(), value: shown_name(plan.display_name@, response@) },
    ]);
    LoginOutcome { changes: v, redirect: plan.redirection.clone() }
}

/// After logging in and then out, both session entries are empty, whatever
/// the storage held before.
pub proof fn lemma_logout_clears_login(
    m: Map<Seq<char>, Seq<char>>,
    name: Seq<char>,
    role: Seq<char>,
)
    ensures
        ({
            let login = seq![
                StorageChangeView::Put { key: session_key(), value: name },
                StorageChangeView::Put { key: role_key(), value: role },
            ];
            let logout = seq![
                StorageChangeView::Put { key: session_key(), value: Seq::<char>::empty() },
                StorageChangeView::Put { key: role_key(), value: Seq::<char>::empty() },
            ];
            let after = apply_changes(m, login + logout);
            &&& after.contains_key(session_key())
            &&& after[session_key()] == Seq::<char>::empty()
            &&& after.contains_key(role_key())
            &&& after[role_key()] == Seq::<char>::empty()
        }),
{
    let login = seq![
        StorageChangeView::Put { key: session_key(), value: name },
        StorageChangeView::Put { key: role_key(), value: role },
    ];
    let logout = seq![
        StorageChangeView::Put { key: session_key(), value: Seq::<char>::empty() },
        StorageChangeView::Put { key: role_key(), value: Seq::<char>::empty() },
    ];
    let all = login + logout;
    let s1 = seq![login[0]];
    let s2 = seq![login[0], login[1]];
    let s3 = seq![login[0], login[1], logout[0]];
    assert(s1.drop_last() =~= Seq::<StorageChangeView>::empty());
    assert(s2.drop_last() =~= s1);
    assert(s3.drop_last() =~= s2);
    assert(all.drop_last() =~= s3);
    assert(apply_changes(m, Seq::<StorageChangeView>::empty()) == m);
    let m1 = apply_changes(m, s1);
    assert(m1 == m.insert(session_key(), name));
    let m2 = apply_changes(m, s2);
    assert(m2 == m1.insert(role_key(), role));
    let m3 = apply_changes(m, s3);
    assert(m3 == m2.insert(session_key(), Seq::<char>::empty()));
    assert(apply_changes(m, all) == m3.insert(role_key(), Seq::<char>::empty()));
    reveal_strlit("group_or_user_name");
    reveal_strlit("user_role");
    assert(session_key().len() == 18 && role_key().len() == 9);
    assert(session_key() != role_key());
}

/// After a login, the stored name and role are the ones given.
pub proof fn lemma_login_sets_session(m: Map<Seq<char>, Seq<char>>, name: Seq<char>, role: Seq<char>)
    ensures
        ({
            let after = apply_changes(
                m,
                seq![
                    StorageChangeView::Put { key: session_key(), value: name },
                    StorageChangeView::Put { key: role_key(), value: role },
                ],
            );
            &&& after[session_key()] == name
            &&& after[role_key()] == role
        }),
{
    let cs = seq![
        StorageChangeView::Put { key: session_key(), value: name },
        StorageChangeView::Put { key: role_key(), value: role },
    ];
    let s1 = seq![cs[0]];
    assert(cs.drop_last() =~= s1);
    assert(s1.drop_last() =~= Seq::<StorageChangeView>::empty());
    assert(apply_changes(m, Seq::<StorageChangeView>::empty()) == m);
    let m1 = apply_changes(m, s1);
    assert(m1 == m.insert(session_key(), name));
    assert(apply_changes(m, cs) == m1.insert(role_key(), role));
    reveal_strlit("group_or_user_name");
    reveal_strlit("user_role");
    assert(session_key().len() == 18 && role_key().len() == 9);
    assert(session_key() != role_key());
}

} // verus!
