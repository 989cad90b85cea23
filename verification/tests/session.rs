use brosdk::manager::{
    browser_close_reply, browser_open_reply, init_reply, sdk_env_create_reply, sdk_env_page_reply,
    parent_bundle_id, sdk_info_reply, shutdown_reply, token_update_reply, MACOS_PARENT_BUNDLE_ID,
    SDK_EVENT_NAME, SDK_PORT,
};
use brosdk::{SdkEvent, SdkReply, SdkSession};

fn loaded_session() -> SdkSession {
    let mut s = SdkSession::new();
    assert_eq!(s.load(false), Ok(()));
    assert_eq!(s.load_finish(Ok(())), Ok(()));
    s
}

fn reply(code: i32, is_error: bool, error_text: Option<&str>, output: &str) -> SdkReply {
    SdkReply {
        code,
        is_error,
        error_text: error_text.map(|t| t.as_bytes().to_vec()),
        output: output.as_bytes().to_vec(),
    }
}

#[test]
fn parent_bundle_only_on_macos() {
    assert_eq!(parent_bundle_id(true), Some("com.brosdk.demo"));
    assert_eq!(parent_bundle_id(false), None);
    assert_eq!(MACOS_PARENT_BUNDLE_ID, "com.brosdk.demo");
}

#[test]
fn event_name_and_port() {
    assert_eq!(SDK_EVENT_NAME, "brosdk-event");
    assert_eq!(SDK_PORT, 8080);
}

#[test]
fn callback_event_payload() {
    assert_eq!(SdkEvent::from_callback(3, None).data, "");
    assert_eq!(SdkEvent::from_callback(3, Some(&[])).data, "");
    let e = SdkEvent::from_callback(7, Some(b"{\"ok\":true}"));
    assert_eq!(e.code, 7);
    assert_eq!(e.data, "{\"ok\":true}");
    let copy = e.clone();
    assert_eq!((copy.code, copy.data), (7, "{\"ok\":true}".to_string()));
    assert_eq!(SdkEvent::from_callback(1, Some(&[0x61, 0xff, 0x62])).data, "a\u{fffd}b");
}

#[test]
fn unloaded_session_refuses_every_call() {
    let s = SdkSession::new();
    assert!(!s.is_loaded());
    let refused = Err("SDK not loaded".to_string());
    assert_eq!(s.init("sig", "dir", 8080), refused);
    assert_eq!(s.browser_open("env-001", None), refused);
    assert_eq!(s.browser_close("env-001"), refused);
    assert_eq!(s.token_update("{}"), refused);
    assert_eq!(s.sdk_env_create("{}"), refused);
    assert_eq!(s.sdk_env_page("{}"), refused);
    assert_eq!(s.sdk_info(), Err("SDK not loaded".to_string()));
    assert_eq!(s.shutdown(), Err("SDK not loaded".to_string()));
}

#[test]
fn library_loads_once() {
    let mut s = SdkSession::new();
    assert_eq!(s.load(false), Ok(()));
    assert_eq!(s.load_finish(Err("cannot open brosdk.dll".to_string())), Err("cannot open brosdk.dll".to_string()));
    assert!(!s.is_loaded());
    assert_eq!(s.load(false), Ok(()));
    assert_eq!(s.load_finish(Ok(())), Ok(()));
    assert!(s.is_loaded());
    assert_eq!(s.load(false), Ok(()));
    assert_eq!(s.load_finish(Ok(())), Err("SDK already loaded".to_string()));
    assert!(s.is_loaded());
}

#[test]
fn app_handle_claimed_once_even_after_failed_open() {
    let mut s = SdkSession::new();
    assert_eq!(s.load(true), Ok(()));
    assert_eq!(s.load_finish(Err("missing library".to_string())), Err("missing library".to_string()));
    assert_eq!(s.load(true), Err("APP_HANDLE already set".to_string()));
    assert!(!s.is_loaded());
}

#[test]
fn loaded_session_admits_calls() {
    let s = loaded_session();
    assert_eq!(s.sdk_info(), Ok(()));
    assert_eq!(s.shutdown(), Ok(()));
    assert_eq!(s.token_update("{\"token\":\"t\"}"), Ok("{\"token\":\"t\"}".to_string()));
    assert_eq!(s.sdk_env_create("{\"kernelVersion\":\"120\"}"), Ok("{\"kernelVersion\":\"120\"}".to_string()));
    assert_eq!(s.sdk_env_page("{\"page\":1,\"pageSize\":10}"), Ok("{\"page\":1,\"pageSize\":10}".to_string()));
}

#[test]
fn init_document() {
    let s = loaded_session();
    assert_eq!(
        s.init("your_user_sig", "./workDir", 8080),
        Ok("{\"port\":8080,\"userSig\":\"your_user_sig\",\"workDir\":\"./workDir\"}".to_string())
    );
    assert_eq!(
        s.init("a\"b", "C:\\tmp", 0),
        Ok("{\"port\":0,\"userSig\":\"a\\\"b\",\"workDir\":\"C:\\\\tmp\"}".to_string())
    );
}

#[test]
fn init_document_has_no_nul() {
    let s = loaded_session();
    let doc = s.init("si\u{0}g", "w\u{1}", 65535).unwrap();
    assert!(!doc.contains('\u{0}'));
    assert!(doc.chars().all(|c| c >= ' '));
    assert_eq!(doc, "{\"port\":65535,\"userSig\":\"si\\u0000g\",\"workDir\":\"w\\u0001\"}");
}

#[test]
fn browser_documents() {
    let s = loaded_session();
    assert_eq!(
        s.browser_open("env-001", None),
        Ok("{\"envs\":[{\"args\":[\"--no-first-run\",\"--no-default-browser-check\",\"--remote-debugging-port=9222\"],\"envId\":\"env-001\"}]}".to_string())
    );
    assert_eq!(
        s.browser_open("env-001", parent_bundle_id(true)),
        Ok("{\"envs\":[{\"args\":[\"--no-first-run\",\"--no-default-browser-check\",\"--remote-debugging-port=9222\",\"--parent-bundle-identifier=com.brosdk.demo\"],\"envId\":\"env-001\"}]}".to_string())
    );
    assert_eq!(
        s.browser_open("e", Some("a\"b")),
        Ok("{\"envs\":[{\"args\":[\"--no-first-run\",\"--no-default-browser-check\",\"--remote-debugging-port=9222\",\"--parent-bundle-identifier=a\\\"b\"],\"envId\":\"e\"}]}".to_string())
    );
    assert_eq!(s.browser_close("env-001"), Ok("{\"envs\":[\"env-001\"]}".to_string()));
    assert_eq!(s.browser_close("e\"1"), Ok("{\"envs\":[\"e\\\"1\"]}".to_string()));
}

#[test]
fn query_replies() {
    assert_eq!(init_reply(&reply(0, false, None, "")), Ok("{}".to_string()));
    assert_eq!(init_reply(&reply(0, false, None, "{\"a\":1}")), Ok("{\"a\":1}".to_string()));
    assert_eq!(init_reply(&reply(-5, true, None, "{\"a\":1}")), Err("SDK init error: -5".to_string()));
    assert_eq!(init_reply(&reply(-5, true, Some("bad signature"), "")), Err("bad signature".to_string()));
    assert_eq!(sdk_info_reply(&reply(0, false, None, "{\"version\":\"1.2.3\",\"state\":\"ready\"}")), Ok("{\"version\":\"1.2.3\",\"state\":\"ready\"}".to_string()));
    assert_eq!(sdk_info_reply(&reply(12, true, None, "")), Err("sdk_info error: 12".to_string()));
    assert_eq!(sdk_env_page_reply(&reply(0, false, None, "")), Ok("{}".to_string()));
    assert_eq!(sdk_env_page_reply(&reply(-1, true, None, "ignored")), Err("sdk_env_page error: -1".to_string()));
}

#[test]
fn env_create_reply_shows_output_on_failure() {
    assert_eq!(sdk_env_create_reply(&reply(0, false, None, "{\"envId\":\"e1\"}")), Ok("{\"envId\":\"e1\"}".to_string()));
    assert_eq!(sdk_env_create_reply(&reply(0, false, None, "")), Ok("{}".to_string()));
    assert_eq!(sdk_env_create_reply(&reply(-2, true, None, "")), Err("sdk_env_create error: -2".to_string()));
    assert_eq!(
        sdk_env_create_reply(&reply(-2, true, Some("quota"), "{\"msg\":\"full\"}")),
        Err("quota | result: {\"msg\":\"full\"}".to_string())
    );
}

#[test]
fn command_replies() {
    assert_eq!(browser_open_reply(&reply(1, false, None, "")), Ok(()));
    assert_eq!(browser_open_reply(&reply(-9, true, None, "")), Err("browser_open error: -9".to_string()));
    assert_eq!(browser_open_reply(&reply(-9, true, Some("busy"), "details")), Err("busy | result: details".to_string()));
    assert_eq!(browser_close_reply(&reply(-9, true, None, "")), Err("browser_close error: -9".to_string()));
    assert_eq!(browser_close_reply(&reply(0, false, Some("unused"), "")), Ok(()));
    assert_eq!(token_update_reply(&reply(-4, true, None, "out")), Err("token_update error: -4".to_string()));
    assert_eq!(token_update_reply(&reply(-4, true, Some("expired"), "out")), Err("expired".to_string()));
    assert_eq!(token_update_reply(&reply(0, false, None, "")), Ok(()));
    assert_eq!(shutdown_reply(-3, true), Err("shutdown error: -3".to_string()));
    assert_eq!(shutdown_reply(0, false), Ok(()));
}

#[test]
fn error_string_is_decoded_lossily() {
    let r = SdkReply { code: 1, is_error: true, error_text: Some(vec![0x65, 0xc3]), output: vec![] };
    assert_eq!(init_reply(&r), Err("e\u{fffd}".to_string()));
}

#[test]
fn storage_copy_len() {
    let mut s = SdkSession::new();
    assert_eq!(s.storage_copy_len(Some(b"abc")), None);
    assert_eq!(s.load(false), Ok(()));
    assert_eq!(s.load_finish(Ok(())), Ok(()));
    assert_eq!(s.storage_copy_len(Some(b"abc")), Some(3));
    assert_eq!(s.storage_copy_len(Some(&[])), None);
    assert_eq!(s.storage_copy_len(None), None);
}
