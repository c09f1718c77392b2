//! The administration command line: the server address it talks to, the
//! commands it reads, the requests they become and the texts it prints.

use vstd::prelude::*;
use vstd::string::*;
use crate::text::{chars_of, char_is_whitespace, has_prefix, is_white_space, starts_with, str_eq, string_of_range};
use crate::json::{json_string, user_request_body};

verus! {

/// `url` as the command line uses it: unchanged when it already names the
/// `http://` or `https://` scheme, with `http://` put in front otherwise.
pub open spec fn host_url(url: Seq<char>) -> Seq<char> {
    if has_prefix(url, "http://"@) || has_prefix(url, "https://"@) {
        url
    } else {
        "http://"@ + url
    }
}

/// Completes the server address given on the command line with a scheme.
pub fn format_host(url: &str) -> (r: String)
    ensures
        r@ == host_url(url@),
{
    if starts_with(url, "http://") || starts_with(url, "https://") {
        String::from_str(url)
    } else {
        let mut r = String::from_str("http://");
        r.append(url);
        r
    }
}

/// A completed address is left as it is when it is completed again.
pub proof fn lemma_format_host_idempotent(url: Seq<char>)
    ensures
        host_url(host_url(url)) == host_url(url),
{
    if !(has_prefix(url, "http://"@) || has_prefix(url, "https://"@)) {
        let h = "http://"@ + url;
        reveal_strlit("http://");
        assert(h.subrange(0, 7) =~= "http://"@);
    }
}

/// The words of `s` after `cur`, the word being read: maximal runs of
/// characters other than white space, as std's `split_whitespace` gives them.
pub open spec fn words_from(s: Seq<char>, cur: Seq<char>) -> Seq<Seq<char>>
    decreases s.len(),
{
    if s.len() == 0 {
        if cur.len() > 0 { seq![cur] } else { Seq::empty() }
    } else if is_white_space(s[0]) {
        (if cur.len() > 0 { seq![cur] } else { Seq::empty() }) + words_from(s.drop_first(), Seq::empty())
    } else {
        words_from(s.drop_first(), cur.push(s[0]))
    }
}

/// The white-space separated words of `s`.
pub open spec fn words(s: Seq<char>) -> Seq<Seq<char>> {
    words_from(s, Seq::empty())
}

/// A word holds at least one character and no white space.
pub open spec fn clean_word(w: Seq<char>) -> bool {
    w.len() > 0 && forall|i: int| 0 <= i < w.len() ==> !is_white_space(#[trigger] w[i])
}

proof fn lemma_words_from_clean(s: Seq<char>, cur: Seq<char>)
    requires
        forall|i: int| 0 <= i < cur.len() ==> !is_white_space(#[trigger] cur[i]),
    ensures
        forall|k: int| 0 <= k < words_from(s, cur).len() ==> clean_word(#[trigger] words_from(s, cur)[k]),
    decreases s.len(),
{
    if s.len() == 0 {
        if cur.len() > 0 {
            assert(words_from(s, cur) == seq![cur]);
            assert(clean_word(cur));
        } else {
            assert(words_from(s, cur).len() == 0);
        }
    } else if is_white_space(s[0]) {
        lemma_words_from_clean(s.drop_first(), Seq::empty());
        let head: Seq<Seq<char>> = if cur.len() > 0 { seq![cur] } else { Seq::empty() };
        let tail = words_from(s.drop_first(), Seq::empty());
        assert(words_from(s, cur) == head + tail);
        assert(cur.len() > 0 ==> clean_word(cur));
        assert forall|k: int| 0 <= k < (head + tail).len() implies clean_word(#[trigger] (head + tail)[k]) by {
            if k >= head.len() {
                assert((head + tail)[k] == tail[k - head.len()]);
            } else {
                assert((head + tail)[k] == cur);
            }
        }
    } else {
        let next = cur.push(s[0]);
        assert forall|i: int| 0 <= i < next.len() implies !is_white_space(#[trigger] next[i]) by {
            if i < cur.len() {
                assert(next[i] == cur[i]);
            }
        }
        lemma_words_from_clean(s.drop_first(), next);
        assert(words_from(s, cur) == words_from(s.drop_first(), next));
    }
}

/// Every word that splitting gives is non-empty and free of white space.
pub proof fn lemma_words_clean(s: Seq<char>)
    ensures
        forall|k: int| 0 <= k < words(s).len() ==> clean_word(#[trigger] words(s)[k]),
{
    lemma_words_from_clean(s, Seq::empty());
}

proof fn lemma_word_run(w: Seq<char>, rest: Seq<char>, cur: Seq<char>)
    requires
        forall|i: int| 0 <= i < w.len() ==> !is_white_space(#[trigger] w[i]),
    ensures
        words_from(w + rest, cur) == words_from(rest, cur + w),
    decreases w.len(),
{
    if w.len() == 0 {
        assert(w + rest =~= rest);
        assert(cur + w =~= cur);
    } else {
        assert((w + rest)[0] == w[0]);
        assert((w + rest).drop_first() =~= w.drop_first() + rest);
        lemma_word_run(w.drop_first(), rest, cur.push(w[0]));
        assert(cur.push(w[0]) + w.drop_first() =~= cur + w);
    }
}

proof fn lemma_space_ends_word(rest: Seq<char>, cur: Seq<char>)
    requires
        cur.len() > 0,
    ensures
        words_from(seq![' '] + rest, cur) == seq![cur] + words_from(rest, Seq::empty()),
{
    assert(is_white_space(' '));
    assert((seq![' '] + rest)[0] == ' ');
    assert((seq![' '] + rest).drop_first() =~= rest);
}

/// Three clean words joined by single spaces split back into those words.
pub proof fn lemma_three_words(k: Seq<char>, u: Seq<char>, p: Seq<char>)
    requires
        clean_word(k),
        clean_word(u),
        clean_word(p),
    ensures
        words(k + seq![' '] + u + seq![' '] + p) == seq![k, u, p],
{
    let e = Seq::<char>::empty();
    let line = k + seq![' '] + u + seq![' '] + p;
    let r1 = seq![' '] + u + seq![' '] + p;
    let r2 = u + seq![' '] + p;
    let r3 = seq![' '] + p;
    assert(line =~= k + r1);
    lemma_word_run(k, r1, e);
    assert(e + k =~= k);
    assert(r1 =~= seq![' '] + r2);
    lemma_space_ends_word(r2, k);
    lemma_word_run(u, r3, e);
    assert(r2 =~= u + r3);
    assert(e + u =~= u);
    lemma_space_ends_word(p, u);
    lemma_word_run(p, e, e);
    assert(p + e =~= p);
    assert(e + p =~= p);
    assert(words_from(e, p) == seq![p]);
    assert(words(line) =~= seq![k, u, p]);
}

/// A `create` or `newpass` line typed with user and password that hold no
/// white space reads back as that command with that user and password.
pub proof fn lemma_account_commands_round_trip(user: Seq<char>, pass: Seq<char>)
    requires
        clean_word(user),
        clean_word(pass),
    ensures
        command_of_words(words("create"@ + seq![' '] + user + seq![' '] + pass))
            == (CommandView::Create { user, pass }),
        command_of_words(words("newpass"@ + seq![' '] + user + seq![' '] + pass))
            == (CommandView::NewPass { user, pass }),
{
    reveal_strlit("create");
    reveal_strlit("newpass");
    assert(clean_word("create"@));
    assert(clean_word("newpass"@));
    lemma_three_words("create"@, user, pass);
    lemma_three_words("newpass"@, user, pass);
    assert("newpass"@ != "create"@) by {
        assert("newpass"@.len() != "create"@.len());
    }
}

/// std's `str::split_whitespace`, collected.
pub fn split_words(s: &str) -> (r: Vec<String>)
    ensures
        r@.len() == words(s@).len(),
        forall|i: int| 0 <= i < r@.len() ==> #[trigger] r@[i]@ == words(s@)[i],
{
    let v = chars_of(s);
    let mut out: Vec<String> = Vec::new();
    let ghost mut outv: Seq<Seq<char>> = Seq::empty();
    let mut start: usize = 0;
    let mut i: usize = 0;
    assert(s@.skip(0) =~= s@);
    assert(s@.subrange(0, 0) =~= Seq::<char>::empty());
    assert(outv + words(s@) =~= words(s@));
    while i < v.len()
        invariant
            v@ == s@,
            start <= i <= v@.len(),
            out@.len() == outv.len(),
            forall|k: int| 0 <= k < out@.len() ==> #[trigger] out@[k]@ == outv[k],
            words(s@) == outv + words_from(s@.skip(i as int), s@.subrange(start as int, i as int)),
        decreases v@.len() - i,
    {
        let ghost cur = s@.subrange(start as int, i as int);
        let ghost rest = s@.skip(i as int);
        assert(rest[0] == v@[i as int]);
        assert(rest.drop_first() =~= s@.skip(i + 1));
        if char_is_whitespace(v[i]) {
            if start < i {
                let w = string_of_range(&v, start, i);
                out.push(w);
                proof {
                    outv = outv.push(cur);
                    assert(words(s@) =~= outv + words_from(s@.skip(i + 1), Seq::empty()));
                }
            } else {
                assert(cur.len() == 0);
                assert(words(s@) =~= outv + words_from(s@.skip(i + 1), Seq::empty()));
            }
            i = i + 1;
            start = i;
            assert(s@.subrange(start as int, i as int) =~= Seq::<char>::empty());
        } else {
            assert(cur.push(v@[i as int]) =~= s@.subrange(start as int, i + 1));
            i = i + 1;
        }
    }
    let ghost cur = s@.subrange(start as int, i as int);
    assert(s@.skip(i as int) =~= Seq::<char>::empty());
    if start < i {
        let w = string_of_range(&v, start, i);
        out.push(w);
        proof {
            outv = outv.push(cur);
            assert(words(s@) =~= outv);
        }
    } else {
        assert(words(s@) =~= outv);
    }
    out
}

/// A command read at the prompt.
#[derive(Clone, Debug, PartialEq, Eq)]
pub enum Command {
    /// `create <user> <pass>`: a new teacher account.
    Create { user: String, pass: String },
    /// `newpass <user> <pass>`: a new password for a teacher.
    NewPass { user: String, pass: String },
    /// `closeall`: close every open session.
    CloseAll,
    /// `help`, `h`, `HELP` or `H`.
    Help,
    /// Anything else.
    Unknown,
}

/// What a command means, over its words.
pub enum CommandView {
    Create { user: Seq<char>, pass: Seq<char> },
    NewPass { user: Seq<char>, pass: Seq<char> },
    CloseAll,
    Help,
    Unknown,
}

impl View for Command {
    type V = CommandView;

    open spec fn view(&self) -> CommandView {
        match self {
            Command::Create { user, pass } => CommandView::Create { user: user@, pass: pass@ },
            Command::NewPass { user, pass } => CommandView::NewPass { user: user@, pass: pass@ },
            Command::CloseAll => CommandView::CloseAll,
            Command::Help => CommandView::Help,
            Command::Unknown => CommandView::Unknown,
        }
    }
}

/// The command that a line of words stands for.
pub open spec fn command_of_words(w: Seq<Seq<char>>) -> CommandView {
    if w.len() == 3 && w[0] == "create"@ {
        CommandView::Create { user: w[1], pass: w[2] }
    } else if w.len() == 3 && w[0] == "newpass"@ {
        CommandView::NewPass { user: w[1], pass: w[2] }
    } else if w.len() == 1 && w[0] == "closeall"@ {
        CommandView::CloseAll
    } else if w.len() == 1 && (w[0] == "help"@ || w[0] == "h"@ || w[0] == "HELP"@ || w[0] == "H"@) {
        CommandView::Help
    } else {
        CommandView::Unknown
    }
}

/// Reads a command from a line typed at the prompt.
pub fn parse_command(line: &str) -> (c: Command)
    ensures
        c@ == command_of_words(words(line@)),
{
    let w = split_words(line);
    let ghost ws = words(line@);
    if w.len() == 3 && str_eq(w[0].as_str(), "create") {
        Command::Create { user: w[1].clone(), pass: w[2].clone() }
    } else if w.len() == 3 && str_eq(w[0].as_str(), "newpass") {
        Command::NewPass { user: w[1].clone(), pass: w[2].clone() }
    } else if w.len() == 1 && str_eq(w[0].as_str(), "closeall") {
        Command::CloseAll
    } else if w.len() == 1 && (str_eq(w[0].as_str(), "help") || str_eq(w[0].as_str(), "h")
        || str_eq(w[0].as_str(), "HELP") || str_eq(w[0].as_str(), "H")) {
        Command::Help
    } else {
        Command::Unknown
    }
}

/// An account command's request carries the command's own user under "user"
/// and its own password under "pass": `create` asks create_professor_user and
/// `newpass` asks change_professor_pass to act on that user with that password.
pub proof fn lemma_account_requests_carry_user_and_pass(
    host: Seq<char>,
    user: Seq<char>,
    pass: Seq<char>,
)
    ensures
        request_of_command(host, CommandView::Create { user, pass }) == Some((
            host + "/api/v1/auth/"@ + "create_professor_user"@,
            Some("{\"user\":"@ + json_string(user) + ",\"pass\":"@ + json_string(pass) + "}"@),
        )),
        request_of_command(host, CommandView::NewPass { user, pass }) == Some((
            host + "/api/v1/auth/"@ + "change_professor_pass"@,
            Some("{\"user\":"@ + json_string(user) + ",\"pass\":"@ + json_string(pass) + "}"@),
        )),
{
}

/// Typing `newpass <user> <pass>` (each without white space) asks the server
/// to set the password of `<user>` to `<pass>`, and `create <user> <pass>`
/// asks it to create `<user>` with `<pass>`.
pub proof fn lemma_typed_account_command_request(host: Seq<char>, user: Seq<char>, pass: Seq<char>)
    requires
        clean_word(user),
        clean_word(pass),
    ensures
        request_of_command(host, command_of_words(words("newpass"@ + seq![' '] + user + seq![' '] + pass)))
            == Some((
            host + "/api/v1/auth/"@ + "change_professor_pass"@,
            Some("{\"user\":"@ + json_string(user) + ",\"pass\":"@ + json_string(pass) + "}"@),
        )),
        request_of_command(host, command_of_words(words("create"@ + seq![' '] + user + seq![' '] + pass)))
            == Some((
            host + "/api/v1/auth/"@ + "create_professor_user"@,
            Some("{\"user\":"@ + json_string(user) + ",\"pass\":"@ + json_string(pass) + "}"@),
        )),
{
    lemma_account_commands_round_trip(user, pass);
    lemma_account_requests_carry_user_and_pass(host, user, pass);
}

/// `create` and `newpass` take exactly a user and a password: a line of any
/// other number of words is neither, and a line that is one of them is the
/// command word followed by the user and then the password.
pub proof fn lemma_account_commands_take_three_words(w: Seq<Seq<char>>)
    ensures
        w.len() != 3 ==> !(command_of_words(w) is NewPass) && !(command_of_words(w) is Create),
        (command_of_words(w) is NewPass) ==> w.len() == 3 && w[0] == "newpass"@
            && command_of_words(w) == (CommandView::NewPass { user: w[1], pass: w[2] }),
        (command_of_words(w) is Create) ==> w.len() == 3 && w[0] == "create"@
            && command_of_words(w) == (CommandView::Create { user: w[1], pass: w[2] }),
{
}

/// Text colours of the terminal.
pub open spec fn blue() -> Seq<char> { "\x1b[34m"@ }
pub open spec fn cyan() -> Seq<char> { "\x1b[36m"@ }
pub open spec fn magenta() -> Seq<char> { "\x1b[35m"@ }
pub open spec fn reset() -> Seq<char> { "\x1b[0m"@ }

/// The reply to a command that is not known.
pub fn unknown_command_text() -> (r: String)
    ensures
        r@ == blue() + "Comando desconocido."@ + reset() + " Escriba "@ + cyan() + "H"@ + reset()
            + " o "@ + cyan() + "HELP"@ + reset() + " para ayuda."@,
{
    let mut r = String::from_str("\x1b[34m");
    r.append("Comando desconocido.");
    r.append("\x1b[0m");
    r.append(" Escriba ");
    r.append("\x1b[36m");
    r.append("H");
    r.append("\x1b[0m");
    r.append(" o ");
    r.append("\x1b[36m");
    r.append("HELP");
    r.append("\x1b[0m");
    r.append(" para ayuda.");
    r
}

/// The help entry of one command: its description, then the command and its
/// parameters on a line of their own.
pub open spec fn command_entry(description: Seq<char>, command: Seq<char>, params: Seq<char>) -> Seq<char> {
    blue() + description + reset() + "\n└─ "@ + cyan() + command + reset() + " "@ + magenta() + params
        + reset() + "\n"@
}

/// Renders the help entry of one command.
pub fn command_help(description: &str, command: &str, params: &str) -> (r: String)
    ensures
        r@ == command_entry(description@, command@, params@),
{
    let mut r = String::from_str("\x1b[34m");
    r.append(description);
    r.append("\x1b[0m");
    r.append("\n└─ ");
    r.append("\x1b[36m");
    r.append(command);
    r.append("\x1b[0m");
    r.append(" ");
    r.append("\x1b[35m");
    r.append(params);
    r.append("\x1b[0m");
    r.append("\n");
    r
}

/// The help: an empty line, then each command's entry followed by an empty line.
pub fn help_text() -> (r: String)
    ensures
        r@ == "\n"@ + command_entry("Crear un nuevo usuario."@, "create"@, "<username> <pass>"@) + "\n"@
            + command_entry("Cambiar contraseña de usuario."@, "newpass"@, "<username> <newpass>"@)
            + "\n"@ + command_entry("Cerrar todas las sesiones."@, "closeall"@, ""@) + "\n"@,
{
    let mut r = String::from_str("\n");
    let a = command_help("Crear un nuevo usuario.", "create", "<username> <pass>");
    r.append(a.as_str());
    r.append("\n");
    let b = command_help("Cambiar contraseña de usuario.", "newpass", "<username> <newpass>");
    r.append(b.as_str());
    r.append("\n");
    let c = command_help("Cerrar todas las sesiones.", "closeall", "");
    r.append(c.as_str());
    r.append("\n");
    r
}

/// The authentication action that a request of the command line calls.
#[derive(Clone, Copy, Debug, PartialEq, Eq)]
pub enum AuthAction {
    Login,
    CreateProfessorUser,
    ChangeProfessorPass,
    CloseAll,
}

/// The last segment of the action's path.
pub open spec fn auth_action_name(a: AuthAction) -> Seq<char> {
    match a {
        AuthAction::Login => "login"@,
        AuthAction::CreateProfessorUser => "create_professor_user"@,
        AuthAction::ChangeProfessorPass => "change_professor_pass"@,
        AuthAction::CloseAll => "close_all"@,
    }
}

/// `{host}/api/v1/auth/{action}`.
pub fn auth_url(host: &str, action: AuthAction) -> (r: String)
    ensures
        r@ == host@ + "/api/v1/auth/"@ + auth_action_name(action),
{
    let mut r = String::from_str(host);
    r.append("/api/v1/auth/");
    match action {
        AuthAction::Login => r.append("login"),
        AuthAction::CreateProfessorUser => r.append("create_professor_user"),
        AuthAction::ChangeProfessorPass => r.append("change_professor_pass"),
        AuthAction::CloseAll => r.append("close_all"),
    }
    r
}

/// The JSON body of the command line's user requests.
pub open spec fn user_body_text(user: Seq<char>, pass: Seq<char>) -> Seq<char> {
    "{\"user\":"@ + json_string(user) + ",\"pass\":"@ + json_string(pass) + "}"@
}

/// A request of the command line: where it goes and the JSON body it carries.
pub struct CliRequest {
    pub url: String,
    pub body: Option<String>,
}

impl View for CliRequest {
    type V = (Seq<char>, Option<Seq<char>>);

    open spec fn view(&self) -> (Seq<char>, Option<Seq<char>>) {
        (self.url@, match self.body {
            Some(b) => Some(b@),
            None => None,
        })
    }
}

/// The request that logs the command line in as `admin` with `password`.
pub fn login_request(host: &str, password: &str) -> (r: CliRequest)
    ensures
        r@ == (host@ + "/api/v1/auth/"@ + "login"@, Some(user_body_text("admin"@, password@))),
{
    CliRequest {
        url: auth_url(host, AuthAction::Login),
        body: Some(user_request_body("admin", password)),
    }
}

/// The request that a command stands for: its URL under `host` and its body.
pub open spec fn request_of_command(host: Seq<char>, c: CommandView) -> Option<
    (Seq<char>, Option<Seq<char>>),
> {
    match c {
        CommandView::Create { user, pass } => Some(
            (host + "/api/v1/auth/"@ + "create_professor_user"@, Some(user_body_text(user, pass))),
        ),
        CommandView::NewPass { user, pass } => Some(
            (host + "/api/v1/auth/"@ + "change_professor_pass"@, Some(user_body_text(user, pass))),
        ),
        CommandView::CloseAll => Some((host + "/api/v1/auth/"@ + "close_all"@, None)),
        _ => None,
    }
}

/// The request that a command makes, if it makes one (`help` and unknown
/// commands make none).
pub fn command_request(host: &str, c: &Command) -> (r: Option<CliRequest>)
    ensures
        match r {
            Some(q) => request_of_command(host@, c@) == Some(q@),
            None => request_of_command(host@, c@) is None,
        },
{
    match c {
        Command::Create { user, pass } => Some(
            CliRequest {
                url: auth_url(host, AuthAction::CreateProfessorUser),
                body: Some(user_request_body(user.as_str(), pass.as_str())),
            },
        ),
        Command::NewPass { user, pass } => Some(
            CliRequest {
                url: auth_url(host, AuthAction::ChangeProfessorPass),
                body: Some(user_request_body(user.as_str(), pass.as_str())),
            },
        ),
        Command::CloseAll => Some(CliRequest { url: auth_url(host, AuthAction::CloseAll), body: None }),
        _ => None,
    }
}

} // verus!
