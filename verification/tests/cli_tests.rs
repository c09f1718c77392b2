use simulador::cli::{
    auth_url, command_help, command_request, format_host, help_text, login_request, parse_command,
    split_words, unknown_command_text, AuthAction, Command,
};

#[test]
fn format_host_adds_http_scheme() {
    assert_eq!(format_host("localhost:3000"), "http://localhost:3000");
    assert_eq!(format_host("10.0.0.2"), "http://10.0.0.2");
    assert_eq!(format_host(""), "http://");
}

#[test]
fn format_host_keeps_existing_scheme() {
    assert_eq!(format_host("http://server:8080"), "http://server:8080");
    assert_eq!(format_host("https://simulador.example"), "https://simulador.example");
}

#[test]
fn format_host_other_schemes_are_prefixed() {
    assert_eq!(format_host("ftp://x"), "http://ftp://x");
    assert_eq!(format_host("HTTP://x"), "http://HTTP://x");
    assert_eq!(format_host("http:/x"), "http://http:/x");
}

#[test]
fn format_host_is_idempotent() {
    for url in ["localhost", "http://a", "https://b", "", "ftp://c"] {
        let once = format_host(url);
        assert_eq!(format_host(&once), once);
    }
}

#[test]
fn split_words_matches_split_whitespace() {
    for line in [
        "create  ana   secreta",
        "   ",
        "",
        "\tclose\u{3000}all\n",
        "uno\u{a0}dos",
        " a b ",
    ] {
        let expected: Vec<String> = line.split_whitespace().map(|s| s.to_string()).collect();
        assert_eq!(split_words(line), expected);
    }
}

#[test]
fn parse_create_and_newpass() {
    assert_eq!(
        parse_command("create ana secreta"),
        Command::Create { user: "ana".to_string(), pass: "secreta".to_string() }
    );
    assert_eq!(
        parse_command("  newpass   ana  otra \n"),
        Command::NewPass { user: "ana".to_string(), pass: "otra".to_string() }
    );
}

#[test]
fn parse_wrong_arity_is_unknown() {
    assert_eq!(parse_command("create ana"), Command::Unknown);
    assert_eq!(parse_command("create ana b c"), Command::Unknown);
    assert_eq!(parse_command("closeall now"), Command::Unknown);
    assert_eq!(parse_command(""), Command::Unknown);
    assert_eq!(parse_command("Create ana b"), Command::Unknown);
}

#[test]
fn parse_closeall_and_help_aliases() {
    assert_eq!(parse_command("closeall"), Command::CloseAll);
    for h in ["help", "h", "HELP", "H", "  h  "] {
        assert_eq!(parse_command(h), Command::Help);
    }
    assert_eq!(parse_command("Help"), Command::Unknown);
}

#[test]
fn unknown_command_text_is_exact() {
    assert_eq!(
        unknown_command_text(),
        "\x1b[34mComando desconocido.\x1b[0m Escriba \x1b[36mH\x1b[0m o \x1b[36mHELP\x1b[0m para ayuda."
    );
}

#[test]
fn help_entries_are_exact() {
    assert_eq!(
        command_help("Cerrar todas las sesiones.", "closeall", ""),
        "\x1b[34mCerrar todas las sesiones.\x1b[0m\n└─ \x1b[36mcloseall\x1b[0m \x1b[35m\x1b[0m\n"
    );
    let h = help_text();
    assert!(h.starts_with("\n\x1b[34mCrear un nuevo usuario.\x1b[0m\n└─ \x1b[36mcreate\x1b[0m \x1b[35m<username> <pass>\x1b[0m\n\n"));
    assert!(h.contains("\x1b[36mnewpass\x1b[0m \x1b[35m<username> <newpass>\x1b[0m"));
    assert!(h.ends_with("\x1b[36mcloseall\x1b[0m \x1b[35m\x1b[0m\n\n"));
}

#[test]
fn auth_urls() {
    assert_eq!(auth_url("http://h", AuthAction::Login), "http://h/api/v1/auth/login");
    assert_eq!(auth_url("http://h", AuthAction::CloseAll), "http://h/api/v1/auth/close_all");
}

#[test]
fn login_request_is_admin_login() {
    let r = login_request("http://h:1", "p\"w");
    assert_eq!(r.url, "http://h:1/api/v1/auth/login");
    assert_eq!(r.body.as_deref(), Some("{\"user\":\"admin\",\"pass\":\"p\\\"w\"}"));
}

#[test]
fn command_requests() {
    let c = parse_command("create prof clave");
    let r = command_request("http://h", &c).unwrap();
    assert_eq!(r.url, "http://h/api/v1/auth/create_professor_user");
    assert_eq!(r.body.as_deref(), Some("{\"user\":\"prof\",\"pass\":\"clave\"}"));
    let r = command_request("http://h", &Command::NewPass { user: "p".into(), pass: "n".into() }).unwrap();
    assert_eq!(r.url, "http://h/api/v1/auth/change_professor_pass");
    let r = command_request("http://h", &Command::CloseAll).unwrap();
    assert_eq!(r.url, "http://h/api/v1/auth/close_all");
    assert!(r.body.is_none());
    assert!(command_request("http://h", &Command::Help).is_none());
    assert!(command_request("http://h", &Command::Unknown).is_none());
}
