use ssh_roads::config::{missing_variable, Config, EnvVars, ServerConfig};
use ssh_roads::server::{
    after_automation, after_gcloud, after_ssh, AfterAutomation, ConnectError, Launch, Method,
    ServerManager,
};
use ssh_roads::text::{decimal_string, display_address, pad_display, pad_to_width, parse_u16_decimal};

fn server(key: &str, conn_type: &str) -> ServerConfig {
    ServerConfig {
        key: key.to_string(),
        name: "Box".to_string(),
        ip: "1.2.3.4".to_string(),
        port: "22".to_string(),
        conn_type: conn_type.to_string(),
        user: "u".to_string(),
        comment: String::new(),
        pswd: None,
        gcp_project: None,
        gcp_zone: None,
        gcp_vm_name: None,
    }
}

fn env_with(name: &str, value: &str) -> EnvVars {
    let mut env = EnvVars::new();
    env.set(name.to_string(), value.to_string());
    env
}

fn strings(v: &[&str]) -> Vec<String> {
    v.iter().map(|s| s.to_string()).collect()
}

#[test]
fn port_22_resolves_to_22() {
    let s = server("a", "password");
    assert_eq!(s.resolved_port(&EnvVars::new()), 22);
}

#[test]
fn port_2222_resolves_to_2222() {
    let mut s = server("a", "password");
    s.port = "2222".to_string();
    assert_eq!(s.resolved_port(&EnvVars::new()), 2222);
}

#[test]
fn non_numeric_or_missing_port_defaults_to_22() {
    let mut s = server("a", "password");
    s.port = "ssh".to_string();
    assert_eq!(s.resolved_port(&EnvVars::new()), 22);
    s.port = String::new();
    assert_eq!(s.resolved_port(&EnvVars::new()), 22);
    s.port = "$NO_SUCH_PORT".to_string();
    assert_eq!(s.resolved_port(&EnvVars::new()), 22);
    s.port = "65536".to_string();
    assert_eq!(s.resolved_port(&EnvVars::new()), 22);
}

#[test]
fn placeholder_port_resolves_from_environment() {
    let mut s = server("a", "password");
    s.port = "$PORT".to_string();
    assert_eq!(s.resolved_port(&env_with("PORT", "2200")), 2200);
}

#[test]
fn parse_matches_std_parse() {
    for text in ["0", "22", "+80", "65535", "65536", "", "+", "-1", "1a", " 22", "007", "٣"] {
        assert_eq!(parse_u16_decimal(text), text.parse::<u16>().ok(), "{}", text);
    }
}

#[test]
fn decimal_rendering() {
    assert_eq!(decimal_string(0), "0");
    assert_eq!(decimal_string(7), "7");
    assert_eq!(decimal_string(2222), "2222");
    assert_eq!(decimal_string(65535), "65535");
}

#[test]
fn plain_value_resolves_unchanged() {
    let s = server("a", "password");
    let env = env_with("HOST", "10.0.0.1");
    assert_eq!(s.resolve("1.2.3.4", &env), "1.2.3.4");
    assert_eq!(s.resolve("", &env), "");
    let once = s.resolve("$HOST", &env);
    assert_eq!(once, "10.0.0.1");
    assert_eq!(s.resolve(&once, &env), once);
}

#[test]
fn placeholder_resolves_or_stays_literal() {
    let s = server("a", "password");
    let env = env_with("MYPASS", "secret");
    assert_eq!(s.resolve("$MYPASS", &env), "secret");
    assert_eq!(s.resolve("$OTHER", &env), "$OTHER");
    assert_eq!(missing_variable("$OTHER", &env), Some("OTHER".to_string()));
    assert_eq!(missing_variable("$MYPASS", &env), None);
    assert_eq!(missing_variable("plain", &env), None);
}

#[test]
fn later_variable_overrides_earlier() {
    let mut env = env_with("X", "1");
    env.set("X".to_string(), "2".to_string());
    assert_eq!(env.get("X"), Some("2".to_string()));
    assert_eq!(env.get("Y"), None);
}

#[test]
fn address_omits_default_port() {
    assert_eq!(display_address("1.2.3.4", 22), "1.2.3.4");
    assert_eq!(display_address("1.2.3.4", 2222), "1.2.3.4:2222");
    assert_eq!(display_address("h", 0), "h:0");
}

#[test]
fn padding_to_display_width() {
    assert_eq!(pad_display("ab", 6), "ab    ");
    assert_eq!(pad_display("中文", 6), "中文  ");
    assert_eq!(pad_display("abcdef", 6), "abcdef");
    assert_eq!(pad_display("abcdefgh", 6), "abcdefgh");
    assert_eq!(pad_display("", 3), "   ");
    assert_eq!(pad_to_width("x", 4, 2), "x");
    assert_eq!(pad_to_width("x", 1, 3), "x  ");
}

#[test]
fn lookup_returns_first_match() {
    let mut first = server("a", "password");
    first.name = "First".to_string();
    let mut second = server("a", "gcp");
    second.name = "Second".to_string();
    let manager = ServerManager::new(Config { servers: vec![server("z", "gcp"), first, second] });
    assert_eq!(manager.find_server("a").map(|s| s.name.as_str()), Some("First"));
    assert!(manager.find_server("A").is_none());
    assert!(manager.find_server("b").is_none());
}

#[test]
fn menu_rows_are_padded_and_commented() {
    let mut s = server("a", "password");
    s.comment = "main".to_string();
    s.port = "2222".to_string();
    let manager = ServerManager::new(Config { servers: vec![s, server("b", "gcp")] });
    let rows = manager.menu_rows(&EnvVars::new());
    assert_eq!(rows.len(), 2);
    assert_eq!(rows[0].key, "a     ");
    assert_eq!(rows[0].name, format!("Box{}", " ".repeat(43)));
    assert_eq!(rows[0].address, format!("1.2.3.4:2222{}", " ".repeat(9)));
    assert_eq!(rows[0].comment, "(main)");
    assert_eq!(rows[1].address, format!("1.2.3.4{}", " ".repeat(14)));
    assert_eq!(rows[1].comment, "");
}

#[test]
fn scenario_password_connection() {
    let mut s = server("a", "password");
    s.pswd = Some("$MYPASS".to_string());
    let manager = ServerManager::new(Config { servers: vec![s] });
    let plan = manager.plan_connection("a", &env_with("MYPASS", "secret")).unwrap();
    assert_eq!(plan.name, "Box");
    assert_eq!(plan.address, "1.2.3.4");
    let login = match plan.method {
        Method::Password(p) => p,
        Method::Gcp(_) => panic!("expected a password login"),
    };
    assert_eq!(login.host, "1.2.3.4");
    assert_eq!(login.user, "u");
    assert_eq!(login.port, 22);
    assert_eq!(login.password, "secret");
    let env = login.automation_env();
    assert_eq!(
        env,
        vec![
            ("SSH_HOST".to_string(), "1.2.3.4".to_string()),
            ("SSH_USER".to_string(), "u".to_string()),
            ("SSH_PSWD".to_string(), "secret".to_string()),
            ("SSH_PORT".to_string(), "22".to_string()),
        ]
    );
    let args = login.ssh_args();
    assert_eq!(args, strings(&["-p", "22", "-o", "StrictHostKeyChecking=no", "u@1.2.3.4"]));
    assert!(!args.iter().any(|a| a.contains("secret")));
}

#[test]
fn scenario_missing_route() {
    let manager = ServerManager::new(Config { servers: vec![server("a", "password")] });
    let err = manager.plan_connection("b", &EnvVars::new()).unwrap_err();
    assert!(matches!(&err, ConnectError::ServerNotFound(k) if k == "b"));
    assert_eq!(err.message(), "Server not found: b");
}

#[test]
fn scenario_unknown_connection_type() {
    let manager = ServerManager::new(Config { servers: vec![server("a", "ftp")] });
    let err = manager.plan_connection("a", &EnvVars::new()).unwrap_err();
    assert!(matches!(&err, ConnectError::UnknownConnectionType(t) if t == "ftp"));
    assert_eq!(err.message(), "Unknown connection type");
}

#[test]
fn scenario_gcp_connection() {
    let mut s = server("g", "gcp");
    s.gcp_project = Some("proj".to_string());
    s.gcp_zone = Some("$ZONE".to_string());
    s.gcp_vm_name = Some("vm".to_string());
    let manager = ServerManager::new(Config { servers: vec![s] });
    let plan = manager.plan_connection("g", &env_with("ZONE", "europe-west1-b")).unwrap();
    let login = match plan.method {
        Method::Gcp(g) => g,
        Method::Password(_) => panic!("expected a cloud login"),
    };
    assert_eq!(
        login.gcloud_args(),
        strings(&["compute", "ssh", "--project", "proj", "--zone", "europe-west1-b", "u@vm"])
    );
    assert!(after_gcloud(Launch::Exited(true)).is_ok());
    let err = after_gcloud(Launch::Exited(false)).unwrap_err();
    assert_eq!(err.message(), "GCP SSH connection failed");
    let err = after_gcloud(Launch::Failed("no permission".to_string())).unwrap_err();
    assert_eq!(err.message(), "no permission");
}

#[test]
fn gcp_fields_absent_read_as_empty() {
    let manager = ServerManager::new(Config { servers: vec![server("g", "gcp")] });
    let plan = manager.plan_connection("g", &EnvVars::new()).unwrap();
    match plan.method {
        Method::Gcp(g) => {
            assert_eq!(g.project, "");
            assert_eq!(g.zone, "");
            assert_eq!(g.target, "u@");
        }
        Method::Password(_) => panic!("expected a cloud login"),
    }
}

#[test]
fn automation_outcomes() {
    assert!(matches!(after_automation(Launch::Exited(true)), AfterAutomation::Finished(Ok(()))));
    match after_automation(Launch::Exited(false)) {
        AfterAutomation::Finished(Err(e)) => assert_eq!(e.message(), "SSH connection failed"),
        _ => panic!("expected a failure"),
    }
    assert!(matches!(
        after_automation(Launch::NotInstalled("not found".to_string())),
        AfterAutomation::FallBackToSsh
    ));
    match after_automation(Launch::Failed("denied".to_string())) {
        AfterAutomation::Finished(Err(e)) => assert_eq!(e.message(), "denied"),
        _ => panic!("expected a failure"),
    }
}

#[test]
fn plain_ssh_outcomes() {
    assert!(after_ssh(Launch::Exited(true)).is_ok());
    assert_eq!(after_ssh(Launch::Exited(false)).unwrap_err().message(), "SSH failed");
    assert_eq!(
        after_ssh(Launch::NotInstalled("ssh missing".to_string())).unwrap_err().message(),
        "ssh missing"
    );
}

#[test]
fn password_defaults_to_empty() {
    let manager = ServerManager::new(Config { servers: vec![server("a", "password")] });
    match manager.plan_connection("a", &EnvVars::new()).unwrap().method {
        Method::Password(p) => assert_eq!(p.password, ""),
        Method::Gcp(_) => panic!("expected a password login"),
    }
}

#[test]
fn pad_str_on_manager() {
    let manager = ServerManager::new(Config { servers: Vec::new() });
    assert_eq!(manager.pad_str("ｋｅｙ", 8), "ｋｅｙ  ");
}
