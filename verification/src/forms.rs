//! The administration forms: the project parameters as typed, the checks made
//! before a project or a student is sent, and the student list's filter.

use vstd::prelude::*;
use vstd::string::*;
use crate::numeral::{dec_int, fmt_i64, is_digit, lemma_parse_fmt_i64, parse_i64, parse_i64_spec};
use crate::text::{contains, has_infix, lowercase, to_lowercase, trim, trim_str};

verus! {

/// The project parameters that the creation and the edition forms share, as
/// the user types them.
#[derive(Clone, Debug, PartialEq, Eq, Default)]
pub struct ProjectFormFields {
    pub attempts_limit: String,
    pub weather: String,
    pub seabed_hardness: String,
    pub budget: String,
    pub min_depth: String,
    pub max_depth: String,
}

impl ProjectFormFields {
    /// The fields of a new project: favourable weather, a hard seabed, and
    /// nothing typed yet.
    pub fn new_empty() -> (f: Self)
        ensures
            f.attempts_limit@ == Seq::<char>::empty(),
            f.weather@ == "Favorable"@,
            f.seabed_hardness@ == "Duro"@,
            f.budget@ == Seq::<char>::empty(),
            f.min_depth@ == Seq::<char>::empty(),
            f.max_depth@ == Seq::<char>::empty(),
    {
        ProjectFormFields {
            attempts_limit: String::new(),
            weather: String::from_str("Favorable"),
            seabed_hardness: String::from_str("Duro"),
            budget: String::new(),
            min_depth: String::new(),
            max_depth: String::new(),
        }
    }

    /// The fields of an existing project, for editing it. The budget and the
    /// depths are decimal numbers that arrive already written out.
    pub fn from_project(
        attempts_limit: i64,
        weather: &str,
        seabed_hardness: &str,
        budget: &str,
        min_depth: &str,
        max_depth: &str,
    ) -> (f: Self)
        ensures
            f.attempts_limit@ == dec_int(attempts_limit as int),
            f.weather@ == weather@,
            f.seabed_hardness@ == seabed_hardness@,
            f.budget@ == budget@,
            f.min_depth@ == min_depth@,
            f.max_depth@ == max_depth@,
    {
        ProjectFormFields {
            attempts_limit: fmt_i64(attempts_limit),
            weather: String::from_str(weather),
            seabed_hardness: String::from_str(seabed_hardness),
            budget: String::from_str(budget),
            min_depth: String::from_str(min_depth),
            max_depth: String::from_str(max_depth),
        }
    }
}

/// Why an attempts limit is refused.
#[derive(Clone, Copy, Debug, PartialEq, Eq, Structural)]
pub enum AttemptsLimitError {
    /// The text is not an integer.
    NotInteger,
    /// The integer is zero or negative.
    NotPositive,
}

/// The limit of attempts that a project may set: an `i64` above zero.
pub open spec fn attempts_limit_spec(text: Seq<char>) -> Result<i64, AttemptsLimitError> {
    match parse_i64_spec(text) {
        Some(n) => if n > 0 { Ok(n) } else { Err(AttemptsLimitError::NotPositive) },
        None => Err(AttemptsLimitError::NotInteger),
    }
}

/// Reads the limit of attempts typed in a project form.
pub fn parse_attempts_limit(text: &str) -> (r: Result<i64, AttemptsLimitError>)
    ensures
        r == attempts_limit_spec(text@),
{
    match parse_i64(text) {
        Some(n) => if n > 0 { Ok(n) } else { Err(AttemptsLimitError::NotPositive) },
        None => Err(AttemptsLimitError::NotInteger),
    }
}

/// Any integer, written out, is accepted as a limit of attempts exactly when
/// it is above zero (one attempt included), and the limit is then that
/// integer; zero and negative limits are refused as not positive.
pub proof fn lemma_attempts_limit_positive(n: i64)
    ensures
        attempts_limit_spec(dec_int(n as int)) == (if n > 0 {
            Ok::<i64, AttemptsLimitError>(n)
        } else {
            Err::<i64, AttemptsLimitError>(AttemptsLimitError::NotPositive)
        }),
        n >= 1 ==> attempts_limit_spec(dec_int(n as int)) == Ok::<i64, AttemptsLimitError>(n),
{
    lemma_parse_fmt_i64(n);
}

/// A limit of attempts in which no character is a decimal digit (an empty
/// field among them) is refused as not an integer.
pub proof fn lemma_attempts_limit_needs_digits(text: Seq<char>)
    requires
        forall|i: int| 0 <= i < text.len() ==> !is_digit(#[trigger] text[i]),
    ensures
        attempts_limit_spec(text) == Err::<i64, AttemptsLimitError>(AttemptsLimitError::NotInteger),
{
    if text.len() > 0 {
        assert(!is_digit(text[0]));
        if text.len() > 1 {
            assert(text.drop_first()[0] == text[1]);
            assert(!is_digit(text[1]));
        }
    }
}

/// A creation form with a map file, a name, a deadline when the project takes
/// deliveries, and a limit of attempts above zero passes its checks with that
/// limit.
pub proof fn lemma_new_project_accepts_positive_limit(
    name: Seq<char>,
    exam_mode: bool,
    due_date: Seq<char>,
    n: i64,
)
    requires
        name.len() > 0,
        exam_mode ==> due_date.len() > 0,
        n > 0,
    ensures
        new_project_checks(true, name, exam_mode, due_date, dec_int(n as int)) == Ok::<
            (Option<Seq<char>>, i64),
            Seq<char>,
        >((if exam_mode { Some(due_date) } else { None }, n)),
{
    lemma_attempts_limit_positive(n);
}

/// The message of the creation form for a refused limit of attempts.
pub open spec fn new_project_attempts_text(e: AttemptsLimitError) -> Seq<char> {
    match e {
        AttemptsLimitError::NotPositive => "El límite de intentos debe ser mayor a cero"@,
        AttemptsLimitError::NotInteger => "El límite de intentos debe ser un número entero"@,
    }
}

/// The message of the edition form for a refused limit of attempts.
pub fn edit_attempts_message(e: AttemptsLimitError) -> (r: String)
    ensures
        e == AttemptsLimitError::NotPositive ==> r@ == "El límite de intentos debe ser mayor a cero"@,
        e == AttemptsLimitError::NotInteger ==> r@ == "Intentos inválidos"@,
{
    match e {
        AttemptsLimitError::NotPositive => String::from_str("El límite de intentos debe ser mayor a cero"),
        AttemptsLimitError::NotInteger => String::from_str("Intentos inválidos"),
    }
}

/// What the creation form has checked, before its decimal fields: the
/// deadline (for projects with deliveries) and the limit of attempts.
pub struct NewProjectChecks {
    pub due_date: Option<String>,
    pub attempts_limit: i64,
}

/// The checks of the creation form, in the order the form makes them: a map
/// file, a name, a deadline when the project takes deliveries, and a limit of
/// attempts above zero.
pub open spec fn new_project_checks(
    has_file: bool,
    name: Seq<char>,
    exam_mode: bool,
    due_date: Seq<char>,
    attempts: Seq<char>,
) -> Result<(Option<Seq<char>>, i64), Seq<char>> {
    if !has_file {
        Err("Tenés que seleccionar un archivo GeoTIFF obligatorio"@)
    } else if name.len() == 0 {
        Err("El nombre del proyecto es obligatorio"@)
    } else if exam_mode && due_date.len() == 0 {
        Err("La fecha límite de entrega es obligatoria para el modo examen"@)
    } else {
        match attempts_limit_spec(attempts) {
            Ok(n) => Ok((if exam_mode { Some(due_date) } else { None }, n)),
            Err(e) => Err(new_project_attempts_text(e)),
        }
    }
}

/// Makes the creation form's checks.
pub fn check_new_project(
    has_file: bool,
    name: &str,
    exam_mode: bool,
    due_date: &str,
    attempts: &str,
) -> (r: Result<NewProjectChecks, String>)
    ensures
        match r {
            Ok(c) => new_project_checks(has_file, name@, exam_mode, due_date@, attempts@) == Ok::<
                (Option<Seq<char>>, i64),
                Seq<char>,
            >((
                match c.due_date {
                    Some(d) => Some(d@),
                    None => None,
                },
                c.attempts_limit,
            )),
            Err(m) => new_project_checks(has_file, name@, exam_mode, due_date@, attempts@) == Err::<
                (Option<Seq<char>>, i64),
                Seq<char>,
            >(m@),
        },
{
    if !has_file {
        return Err(String::from_str("Tenés que seleccionar un archivo GeoTIFF obligatorio"));
    }
    if name.unicode_len() == 0 {
        return Err(String::from_str("El nombre del proyecto es obligatorio"));
    }
    if exam_mode && due_date.unicode_len() == 0 {
        return Err(String::from_str("La fecha límite de entrega es obligatoria para el modo examen"));
    }
    match parse_attempts_limit(attempts) {
        Ok(n) => Ok(
            NewProjectChecks {
                due_date: if exam_mode { Some(String::from_str(due_date)) } else { None },
                attempts_limit: n,
            },
        ),
        Err(AttemptsLimitError::NotPositive) => Err(String::from_str("El límite de intentos debe ser mayor a cero")),
        Err(AttemptsLimitError::NotInteger) => Err(
            String::from_str("El límite de intentos debe ser un número entero"),
        ),
    }
}

/// The checks before a student is created: a project must be chosen (id 0
/// stands for none) and a name given.
pub fn check_new_student(name: &str, project_id: i64) -> (r: Result<(), String>)
    ensures
        project_id == 0 ==> (r matches Err(m) && m@ == "Debes seleccionar un proyecto disponible para el grupo."@),
        project_id != 0 && name@.len() == 0 ==> (r matches Err(m) && m@ == "Asigna a un alumno/grupo válido."@),
        project_id != 0 && name@.len() > 0 ==> r is Ok,
{
    if project_id == 0 {
        Err(String::from_str("Debes seleccionar un proyecto disponible para el grupo."))
    } else if name.unicode_len() > 0 {
        Ok(())
    } else {
        Err(String::from_str("Asigna a un alumno/grupo válido."))
    }
}

/// The name a student is saved under when it is edited: trimmed, and not blank.
pub fn check_student_rename(name: &str) -> (r: Result<String, String>)
    ensures
        trim(name@).len() == 0 ==> (r matches Err(m) && m@ == "El nombre del grupo no puede estar vacío"@),
        trim(name@).len() > 0 ==> (r matches Ok(n) && n@ == trim(name@)),
{
    let t = trim_str(name);
    if t.unicode_len() == 0 {
        Err(String::from_str("El nombre del grupo no puede estar vacío"))
    } else {
        Ok(t)
    }
}

/// The student list's filter: with a query (lower-cased, then trimmed), a
/// student shows when the name of its project, lower-cased, contains it.
pub open spec fn student_shown(project_name: Option<Seq<char>>, filter: Seq<char>) -> bool {
    let q = trim(lowercase(filter));
    q.len() == 0 || match project_name {
        Some(n) => has_infix(lowercase(n), q),
        None => false,
    }
}

/// Whether a student whose project has `project_name` (`None` when the
/// project is not among those loaded) passes the filter.
pub fn student_visible(project_name: Option<&str>, filter: &str) -> (b: bool)
    ensures
        b == student_shown(
            match project_name {
                Some(n) => Some(n@),
                None => None,
            },
            filter@,
        ),
{
    let lowered = to_lowercase(filter);
    let q = trim_str(lowered.as_str());
    if q.unicode_len() == 0 {
        return true;
    }
    match project_name {
        Some(n) => {
            let ln = to_lowercase(n);
            contains(ln.as_str(), q.as_str())
        },
        None => false,
    }
}

/// A project's description as the student list shows it.
pub fn project_description(description: Option<&str>) -> (r: String)
    ensures
        description matches Some(d) ==> r@ == d@,
        description is None ==> r@ == "Sin descripción"@,
{
    match description {
        Some(d) => String::from_str(d),
        None => String::from_str("Sin descripción"),
    }
}

} // verus!
