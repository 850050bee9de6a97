use std::collections::HashMap;

use ffplayout::control::{
    control_message, control_service, media_message, rpc_url, service_reply, text_message,
    RpcObj, ServiceCall, ServiceCommand, ServiceError, SystemD,
};
use ffplayout::headers::{create_header, is_header_value};

fn words(v: &[&str]) -> Vec<String> {
    v.iter().map(|s| s.to_string()).collect()
}

#[test]
fn rpc_object_is_json_rpc_2() {
    let obj = RpcObj::new(7, "player".to_string(), 42u8);
    assert_eq!(obj.jsonrpc, "2.0");
    assert_eq!(obj.id, 7);
    assert_eq!(obj.method, "player");
    assert_eq!(obj.params, 42);
}

#[test]
fn text_message_fields() {
    let mut message = HashMap::new();
    message.insert("text".to_string(), "Hello".to_string());
    let obj = text_message(1, message.clone());
    assert_eq!(obj.jsonrpc, "2.0");
    assert_eq!(obj.id, 1);
    assert_eq!(obj.method, "player");
    assert_eq!(obj.params.control, "text");
    assert_eq!(obj.params.message, message);
}

#[test]
fn control_and_media_messages() {
    let c = control_message(2, "next".to_string());
    assert_eq!((c.jsonrpc.as_str(), c.id, c.method.as_str()), ("2.0", 2, "player"));
    assert_eq!(c.params.control, "next");
    let m = media_message(3, "current".to_string());
    assert_eq!((m.jsonrpc.as_str(), m.id, m.method.as_str()), ("2.0", 3, "player"));
    assert_eq!(m.params.media, "current");
}

#[test]
fn rpc_url_prefixes_scheme() {
    assert_eq!(rpc_url("127.0.0.1:7070"), "http://127.0.0.1:7070");
    assert_eq!(rpc_url(""), "http://");
}

#[test]
fn service_command_words() {
    assert_eq!(ServiceCommand::parse("enable").unwrap(), ServiceCommand::Enable);
    assert_eq!(ServiceCommand::parse("disable").unwrap(), ServiceCommand::Disable);
    assert_eq!(ServiceCommand::parse("start").unwrap(), ServiceCommand::Start);
    assert_eq!(ServiceCommand::parse("stop").unwrap(), ServiceCommand::Stop);
    assert_eq!(ServiceCommand::parse("restart").unwrap(), ServiceCommand::Restart);
    assert_eq!(ServiceCommand::parse("status").unwrap(), ServiceCommand::Status);
}

#[test]
fn unknown_service_command_is_bad_request() {
    let unit = SystemD::new("ffplayout.service".to_string());
    match control_service(unit, "reboot") {
        Err(ServiceError::BadRequest(m)) => assert_eq!(m, "Command not found!"),
        other => panic!("unexpected {:?}", other),
    }
    assert!(matches!(ServiceCommand::parse("Start"), Err(ServiceError::BadRequest(_))));
}

#[test]
fn systemd_command_lines() {
    let unit = || SystemD::new("ffplayout.service".to_string());
    assert_eq!(unit().cmd, words(&["/usr/bin/systemctl"]));
    assert_eq!(unit().enable(), words(&["/usr/bin/systemctl", "enable", "ffplayout.service"]));
    assert_eq!(unit().disable(), words(&["/usr/bin/systemctl", "disable", "ffplayout.service"]));
    assert_eq!(unit().start(), words(&["/usr/bin/systemctl", "start", "ffplayout.service"]));
    assert_eq!(unit().stop(), words(&["/usr/bin/systemctl", "stop", "ffplayout.service"]));
    assert_eq!(unit().restart(), words(&["/usr/bin/systemctl", "restart", "ffplayout.service"]));
    assert_eq!(unit().status(), words(&["/usr/bin/systemctl", "is-active", "ffplayout.service"]));
}

#[test]
fn control_service_runs_through_sudo() {
    let call = control_service(SystemD::new("ffp@1".to_string()), "restart").unwrap();
    assert_eq!(call.program, "sudo");
    assert_eq!(call.args, words(&["/usr/bin/systemctl", "restart", "ffp@1"]));
    assert!(!call.reads_output);
    let call = control_service(SystemD::new("ffp@1".to_string()), "status").unwrap();
    assert_eq!(call.args, words(&["/usr/bin/systemctl", "is-active", "ffp@1"]));
    assert!(call.reads_output);
}

#[test]
fn service_replies() {
    let started = ServiceCall {
        program: "sudo".to_string(),
        args: vec![],
        reads_output: false,
    };
    assert_eq!(service_reply(&started, b"ignored\n"), "Success");
    let status = ServiceCall {
        program: "sudo".to_string(),
        args: vec![],
        reads_output: true,
    };
    assert_eq!(service_reply(&status, b"active\n"), "active");
    assert_eq!(service_reply(&status, b" \t inactive \r\n"), "inactive");
    assert_eq!(service_reply(&status, b"\n\n"), "");
    assert_eq!(service_reply(&status, b"fa\xffiled\n"), "fa\u{FFFD}iled");
    assert_eq!(service_reply(&status, "\u{3000}aktiv\u{A0}".as_bytes()), "aktiv");
}

#[test]
fn request_headers() {
    let headers = create_header("Basic abc==");
    assert_eq!(headers.len(), 2);
    assert_eq!(
        headers.get("content-type").unwrap().as_bytes(),
        b"Content-Type: application/json"
    );
    assert_eq!(headers.get("authorization").unwrap().as_bytes(), b"Basic abc==");
}

#[test]
fn header_value_check() {
    assert!(is_header_value("Bearer token\twith tab and \u{e9}"));
    assert!(is_header_value(""));
    assert!(!is_header_value("line\nbreak"));
    assert!(!is_header_value("del\u{7f}"));
}
