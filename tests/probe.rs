use jellyfin_desktop::probe::{web_client_url, CancelFlag, ProbeError, ServerInfo, ServerProbe};

fn info() -> ServerInfo {
    ServerInfo { name: "Home".to_string(), version: "10.9.0".to_string(), id: "abc".to_string() }
}

#[test]
fn end_to_end_probe_succeeds() {
    let mut flag = CancelFlag::new();
    let probe = ServerProbe::start("https://host/", &mut flag);
    let url = probe.after_client_built(&flag, Ok(())).unwrap();
    assert_eq!(url, "https://host/System/Info/Public");
    assert_eq!(probe.info_url(), "https://host/System/Info/Public");
    probe.after_response(&flag, Ok(200)).unwrap();
    let got = probe.after_body(Ok(info())).unwrap();
    assert_eq!(got.name, "Home");
    assert_eq!(got.version, "10.9.0");
    assert_eq!(got.id, "abc");
}

#[test]
fn trailing_slashes_are_trimmed() {
    let mut flag = CancelFlag::new();
    assert_eq!(ServerProbe::start("http://10.0.0.2:8096///", &mut flag).info_url(), "http://10.0.0.2:8096/System/Info/Public");
    assert_eq!(ServerProbe::start("http://h", &mut flag).info_url(), "http://h/System/Info/Public");
    assert_eq!(web_client_url("https://host/"), "https://host/web/index.html");
}

#[test]
fn cancel_before_request_yields_cancelled() {
    let mut flag = CancelFlag::new();
    let probe = ServerProbe::start("https://host", &mut flag);
    flag.cancel();
    assert!(flag.is_cancelled());
    assert!(matches!(probe.after_client_built(&flag, Ok(())), Err(ProbeError::Cancelled)));
}

#[test]
fn cancel_before_response_yields_cancelled() {
    let mut flag = CancelFlag::new();
    let probe = ServerProbe::start("https://host", &mut flag);
    probe.after_client_built(&flag, Ok(())).unwrap();
    flag.cancel();
    assert!(matches!(probe.after_response(&flag, Ok(200)), Err(ProbeError::Cancelled)));
}

#[test]
fn superseded_probe_still_succeeds() {
    let mut flag = CancelFlag::new();
    let a = ServerProbe::start("https://a", &mut flag);
    a.after_client_built(&flag, Ok(())).unwrap();
    let _b = ServerProbe::start("https://b", &mut flag);
    assert!(!flag.is_cancelled());
    a.after_response(&flag, Ok(204)).unwrap();
    assert_eq!(a.after_body(Ok(info())).unwrap().name, "Home");
}

#[test]
fn earlier_cancel_does_not_reach_new_probe() {
    let mut flag = CancelFlag::new();
    flag.cancel();
    let p = ServerProbe::start("https://host", &mut flag);
    assert!(p.after_client_built(&flag, Ok(())).is_ok());
}

#[test]
fn each_failure_kind() {
    let mut flag = CancelFlag::new();
    let p = ServerProbe::start("https://host", &mut flag);
    assert!(matches!(p.after_client_built(&flag, Err("tls".to_string())), Err(ProbeError::BuildFailed(e)) if e == "tls"));
    assert!(matches!(p.after_response(&flag, Err("refused".to_string())), Err(ProbeError::ConnectFailed(e)) if e == "refused"));
    assert!(matches!(p.after_response(&flag, Ok(404)), Err(ProbeError::NonSuccessStatus(404))));
    assert!(matches!(p.after_response(&flag, Ok(199)), Err(ProbeError::NonSuccessStatus(199))));
    assert!(matches!(p.after_response(&flag, Ok(300)), Err(ProbeError::NonSuccessStatus(300))));
    assert!(p.after_response(&flag, Ok(299)).is_ok());
    assert!(matches!(p.after_body(Err("eof".to_string())), Err(ProbeError::InvalidResponseBody(e)) if e == "eof"));
}

#[test]
fn build_error_wins_over_cancel() {
    let mut flag = CancelFlag::new();
    let p = ServerProbe::start("https://host", &mut flag);
    flag.cancel();
    assert!(matches!(p.after_client_built(&flag, Err("x".to_string())), Err(ProbeError::BuildFailed(_))));
    assert!(matches!(p.after_response(&flag, Err("y".to_string())), Err(ProbeError::ConnectFailed(_))));
}
