use jjs::contest::{Contest, ContestConfig, ContestProblemConfig, EntityConfig, Problem, ProblemConfig};
use jjs::engine::{
    bad_request_message, catch_bad_request, route_ping, ApiServer, Env, FrontendConfig, LoggingLevel,
    ServerEnvironment, TlsConfig,
};
use jjs::frontend;
use jjs::invoke_status::InvokeStatus;
use jjs::profile::default_configs;
use jjs::root_auth::{login_decision, token_reply, LoginDecision};

fn entity_config() -> EntityConfig {
    EntityConfig {
        contests: vec![ContestConfig {
            problems: vec![
                ContestProblemConfig { name: "a-plus-b".to_string(), code: "A".to_string() },
                ContestProblemConfig { name: "max-flow".to_string(), code: "3F".to_string() },
            ],
        }],
        problems: vec![
            ProblemConfig { name: "max-flow".to_string(), title: "Find max flow".to_string() },
            ProblemConfig { name: "a-plus-b".to_string(), title: "A+B".to_string() },
            ProblemConfig { name: "a-plus-b".to_string(), title: "shadowed".to_string() },
        ],
    }
}

#[test]
fn contest_fields_and_problems() {
    let contest = Contest { title: "Olympiad. Day 3.".to_string(), id: "olymp-2019".to_string() };
    assert_eq!(contest.title(), "Olympiad. Day 3.");
    assert_eq!(contest.id(), "olymp-2019");
    let problems = contest.problems(&entity_config());
    assert_eq!(
        problems,
        vec![
            Problem { title: "A+B".to_string(), id: "A".to_string() },
            Problem { title: "Find max flow".to_string(), id: "3F".to_string() },
        ]
    );
}

#[test]
fn find_problem_by_name() {
    let cfg = entity_config();
    assert_eq!(cfg.find_problem("max-flow").unwrap().title, "Find max flow");
    assert!(cfg.find_problem("nope").is_none());
}

#[test]
fn pings_and_bad_requests() {
    assert_eq!(route_ping(), "JJS frontend: pong");
    assert_eq!(frontend::route_ping(), "JJS frontend");
    assert!(catch_bad_request().contains("Your request is incorrect."));
    assert_eq!(bad_request_message(true, "no token"), "bad request: no token");
    assert_eq!(bad_request_message(false, "no token"), catch_bad_request());
}

#[test]
fn anonymous_token_and_errors() {
    assert!(frontend::route_auth_anonymous().buf.is_empty());
    assert_eq!(frontend::FrontendError::Internal.status_code(), 500);
}

#[test]
fn server_settings_follow_env() {
    let cfg = FrontendConfig {
        port: 1779,
        addr: None,
        host: "0.0.0.0".to_string(),
        unix_socket_path: "/tmp/s".to_string(),
        env: Env::Prod,
        tls: Some(TlsConfig { cert_path: "c.pem".to_string(), key_path: "k.pem".to_string() }),
    };
    let s = ApiServer::server_settings(&cfg, b"hello");
    assert_eq!(s.environment, ServerEnvironment::Production);
    assert_eq!(s.log_level, LoggingLevel::Critical);
    assert_eq!(s.address, "0.0.0.0");
    assert_eq!(s.port, 1779);
    assert_eq!(s.secret_key, "aGVsbG8=");
    assert_eq!(s.tls.unwrap().key_path, "k.pem");

    let emb = ApiServer::embedded_config();
    let s = ApiServer::server_settings(&emb, &[]);
    assert_eq!(s.environment, ServerEnvironment::Development);
    assert_eq!(s.log_level, LoggingLevel::Normal);
    assert_eq!(s.address, "127.0.0.1");
    assert_eq!(s.port, 0);
    assert_eq!(s.secret_key, "");
    assert!(s.tls.is_none());
    assert_eq!(emb.addr.as_deref(), Some("127.0.0.1"));
    assert_eq!(ApiServer::embedded_data_dir(), "/tmp/jjs");
}

#[test]
fn root_login_decisions() {
    assert_eq!(login_decision(None, 1000), LoginDecision::Ignore);
    assert_eq!(login_decision(Some(1000), 1000), LoginDecision::IssueToken);
    assert_eq!(
        login_decision(Some(0), 1000),
        LoginDecision::Reject("error: your uid doesn't match that of jjs\n".to_string())
    );
    assert_eq!(token_reply(Ok("tok".to_string())), "tok\n");
    assert_eq!(token_reply(Err("db down".to_string())), "Error: db down");
}

#[test]
fn small_constructors() {
    let s = InvokeStatus::new("OK".to_string(), "Accepted".to_string());
    assert_eq!(s.code, "OK");
    assert_eq!(s.kind, "Accepted");
    assert!(default_configs());
}
