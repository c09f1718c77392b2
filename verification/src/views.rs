//! Small presentation decisions of the client: the login background, the
//! colour of status messages, the image layer chosen for an attempt, and the
//! titles of dialogs.

use vstd::prelude::*;
use vstd::string::*;
use crate::numeral::{dec_nat, parse_u8, parse_u8_spec, push_dec_u64};
use crate::text::{contains, has_infix, lowercase, to_lowercase, trim, trim_str};

verus! {

/// The background index stored in the browser, or 0 when none is stored or
/// it does not read as a `u8`.
pub open spec fn stored_counter(stored: Option<Seq<char>>) -> u8 {
    match stored {
        Some(s) => match parse_u8_spec(s) {
            Some(n) => n,
            None => 0,
        },
        None => 0,
    }
}

/// Reads the stored background index.
pub fn parse_counter(stored: Option<&str>) -> (n: u8)
    ensures
        n == stored_counter(
            match stored {
                Some(s) => Some(s@),
                None => None,
            },
        ),
{
    match stored {
        Some(s) => match parse_u8(s) {
            Some(n) => n,
            None => 0,
        },
        None => 0,
    }
}

/// The next of the three login backgrounds.
pub fn next_counter(current: u8) -> (n: u8)
    requires
        current < u8::MAX,
    ensures
        n == (current + 1) % 3,
{
    (current + 1) % 3
}

/// The backgrounds come round again after three logins.
pub proof fn lemma_counter_cycles(c: u8)
    requires
        c < 3,
    ensures
        ((((c + 1) % 3) + 1) % 3 + 1) % 3 == c,
        (c + 1) % 3 < 3,
{
}

/// The image of background `n`.
pub fn background_path(n: u8) -> (r: String)
    ensures
        r@ == "static/login_wall_"@ + dec_nat(n as nat) + ".jpg"@,
{
    let mut r = String::from_str("static/login_wall_");
    push_dec_u64(&mut r, n as u64);
    r.append(".jpg");
    r
}

/// `msg`, lower-cased, contains one of the three words.
pub open spec fn mentions_any(msg: Seq<char>, a: Seq<char>, b: Seq<char>, c: Seq<char>) -> bool {
    has_infix(lowercase(msg), a) || has_infix(lowercase(msg), b) || has_infix(lowercase(msg), c)
}

/// Classes of the login message: cyan while it reports progress or
/// success, red otherwise, none without a message.
pub fn login_alert_class(msg: &str) -> (r: &'static str)
    ensures
        msg@.len() == 0 ==> r@ == ""@,
        msg@.len() > 0 && mentions_any(msg@, "exitoso"@, "autenticando"@, "redirigiendo"@) ==> r@
            == "bg-cyan-500/10 border border-cyan-500/20 text-cyan-400"@,
        msg@.len() > 0 && !mentions_any(msg@, "exitoso"@, "autenticando"@, "redirigiendo"@) ==> r@
            == "bg-red-500/10 border border-red-500/20 text-red-400"@,
{
    if msg.unicode_len() == 0 {
        return "";
    }
    let m = to_lowercase(msg);
    if contains(m.as_str(), "exitoso") || contains(m.as_str(), "autenticando") || contains(
        m.as_str(),
        "redirigiendo",
    ) {
        "bg-cyan-500/10 border border-cyan-500/20 text-cyan-400"
    } else {
        "bg-red-500/10 border border-red-500/20 text-red-400"
    }
}

/// Classes of the message under a student row: cyan while saving or after
/// success, red otherwise, none without a message.
pub fn row_alert_class(msg: &str) -> (r: &'static str)
    ensures
        msg@.len() == 0 ==> r@ == ""@,
        msg@.len() > 0 && (has_infix(lowercase(msg@), "guardando"@) || has_infix(lowercase(msg@), "exito"@))
            ==> r@ == "text-cyan-400 mt-1 block text-xs"@,
        msg@.len() > 0 && !(has_infix(lowercase(msg@), "guardando"@) || has_infix(
            lowercase(msg@),
            "exito"@,
        )) ==> r@ == "text-red-400 mt-1 block text-xs font-medium"@,
{
    if msg.unicode_len() == 0 {
        return "";
    }
    let m = to_lowercase(msg);
    if contains(m.as_str(), "guardando") || contains(m.as_str(), "exito") {
        "text-cyan-400 mt-1 block text-xs"
    } else {
        "text-red-400 mt-1 block text-xs font-medium"
    }
}

/// What the viewer shows after a layer of an attempt is chosen.
#[derive(Clone, Debug, PartialEq, Eq)]
pub enum ImageView {
    /// No image and no message (the plain map).
    Clear,
    /// The image at `url`, with the depth legend or not.
    Show { url: String, legend: bool },
    /// No image; the message says that the layer is missing.
    Missing(String),
    /// Nothing changes.
    Keep,
}

/// The image of a layer file stored by the server.
pub open spec fn image_url(path: Seq<char>) -> Seq<char> {
    "/images/"@ + path
}

fn layer_view(path: Option<&str>, missing: &str, is_difference: bool) -> (v: ImageView)
    ensures
        match path {
            Some(p) if p@.len() > 0 => v matches ImageView::Show { url, legend } && url@ == image_url(
                p@,
            ) && legend == !is_difference,
            _ => v matches ImageView::Missing(m) && m@ == missing@,
        },
{
    match path {
        Some(p) => {
            if p.unicode_len() > 0 {
                let mut url = String::from_str("/images/");
                url.append(p);
                ImageView::Show { url, legend: !is_difference }
            } else {
                ImageView::Missing(String::from_str(missing))
            }
        },
        None => ImageView::Missing(String::from_str(missing)),
    }
}

/// The layer chosen for an attempt: 0 the plain map, 1 the simulated map,
/// 2 the coverage, 3 the difference (which shows without the legend).
pub fn select_layer(
    index: usize,
    simulation: Option<&str>,
    coverage: Option<&str>,
    difference: Option<&str>,
) -> (v: ImageView)
    ensures
        index == 0 ==> v == ImageView::Clear,
        index == 1 ==> match simulation {
            Some(p) if p@.len() > 0 => v matches ImageView::Show { url, legend } && url@ == image_url(
                p@,
            ) && legend,
            _ => v matches ImageView::Missing(m) && m@ == "No hay mapa de simulación disponible."@,
        },
        index == 2 ==> match coverage {
            Some(p) if p@.len() > 0 => v matches ImageView::Show { url, legend } && url@ == image_url(
                p@,
            ) && legend,
            _ => v matches ImageView::Missing(m) && m@ == "No hay mapa de cobertura disponible."@,
        },
        index == 3 ==> match difference {
            Some(p) if p@.len() > 0 => v matches ImageView::Show { url, legend } && url@ == image_url(
                p@,
            ) && !legend,
            _ => v matches ImageView::Missing(m) && m@ == "No hay mapa de diferencias disponible."@,
        },
        index > 3 ==> v == ImageView::Keep,
{
    if index == 0 {
        ImageView::Clear
    } else if index == 1 {
        layer_view(simulation, "No hay mapa de simulación disponible.", false)
    } else if index == 2 {
        layer_view(coverage, "No hay mapa de cobertura disponible.", false)
    } else if index == 3 {
        layer_view(difference, "No hay mapa de diferencias disponible.", true)
    } else {
        ImageView::Keep
    }
}

/// The title of the dialog with a student's attempts.
pub fn attempts_title(student_code: &str, project_name: &str) -> (r: String)
    ensures
        r@ == "Intentos de "@ + student_code@ + ", para el proyecto: "@ + project_name@,
{
    let mut r = String::from_str("Intentos de ");
    r.append(student_code);
    r.append(", para el proyecto: ");
    r.append(project_name);
    r
}

/// The question before a student is deleted.
pub fn delete_student_question(name: &str) -> (r: String)
    ensures
        r@ == "¿Estás seguro de que querés borrar a '"@ + name@
            + "'? Esta acción no se puede deshacer."@,
{
    let mut r = String::from_str("¿Estás seguro de que querés borrar a '");
    r.append(name);
    r.append("'? Esta acción no se puede deshacer.");
    r
}

/// The warning before a project is deleted.
pub fn delete_project_warning(name: &str) -> (r: String)
    ensures
        r@ == "Esta acción eliminará permanentemente el proyecto '"@ + name@
            + "' \n junto a todas sus asignaciones."@,
{
    let mut r = String::from_str("Esta acción eliminará permanentemente el proyecto '");
    r.append(name);
    r.append("' \n junto a todas sus asignaciones.");
    r
}

/// The deadline as the project's information shows it: trimmed, and only
/// when something is left.
pub fn due_date_to_show(due_date: Option<&str>) -> (r: Option<String>)
    ensures
        match due_date {
            Some(d) => if trim(d@).len() > 0 {
                r matches Some(t) && t@ == trim(d@)
            } else {
                r is None
            },
            None => r is None,
        },
{
    match due_date {
        Some(d) => {
            let t = trim_str(d);
            if t.unicode_len() > 0 {
                Some(t)
            } else {
                None
            }
        },
        None => None,
    }
}

/// Classes shared by the three tab buttons of the student page.
pub open spec fn tab_base_class() -> Seq<char> {
    "py-2 text-xs font-semibold rounded-sm transition-all cursor-pointer text-center flex justify-center items-center gap-2 h-9"@
}

/// Classes of a tab button: the active tab shrinks to its icon, the others
/// stretch and show their label.
pub fn tab_button_class(active: bool) -> (r: String)
    ensures
        active ==> r@ == tab_base_class() + " w-11 flex-none bg-zinc-700 text-white"@,
        !active ==> r@ == tab_base_class() + " flex-1 text-white/40 hover:text-white/70 px-3"@,
{
    let mut r = String::from_str(
        "py-2 text-xs font-semibold rounded-sm transition-all cursor-pointer text-center flex justify-center items-center gap-2 h-9",
    );
    if active {
        r.append(" w-11 flex-none bg-zinc-700 text-white");
    } else {
        r.append(" flex-1 text-white/40 hover:text-white/70 px-3");
    }
    r
}

/// How the project list names a project with deliveries and a free one.
pub fn project_kind_label(exam_mode: bool) -> (r: &'static str)
    ensures
        exam_mode ==> r@ == "Entrega"@,
        !exam_mode ==> r@ == "Libre"@,
{
    if exam_mode { "Entrega" } else { "Libre" }
}

} // verus!
