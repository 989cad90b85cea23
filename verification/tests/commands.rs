use brosdk::commands::{
    bearer_header, create_env, create_env_finish, create_env_request_body,
    created_env_from_response, init_sdk, init_sdk_finish, start_env, start_env_finish, stop_env,
    stop_env_finish, user_sig_from_response, user_sig_request_body, CreateEnvData,
    CreateEnvResponse, GetUserSigData, GetUserSigResponse, SdkStartup,
};
use brosdk::AppState;

fn ready_state() -> AppState {
    let mut state = AppState::default();
    init_sdk(&mut state, "key-1");
    assert_eq!(init_sdk_finish(&mut state, SdkStartup::Initialized(Ok("{}".to_string()))), Ok("SDK 初始化成功: {}".to_string()));
    state
}

#[test]
fn default_state_is_uninitialised() {
    let state = AppState::default();
    assert_eq!(state.api_key, "");
    assert!(!state.initialized);
}

#[test]
fn commands_refused_before_init() {
    let state = AppState::default();
    assert_eq!(create_env(&state), Err("SDK 未初始化".to_string()));
    assert_eq!(start_env(&state), Err("SDK 未初始化".to_string()));
    assert_eq!(stop_env(&state), Err("SDK 未初始化".to_string()));
}

#[test]
fn init_sdk_keeps_the_key() {
    let mut state = AppState::default();
    init_sdk(&mut state, "secret-key");
    assert_eq!(state.api_key, "secret-key");
    assert!(!state.initialized);
}

#[test]
fn init_sdk_success_admits_commands() {
    let state = ready_state();
    assert!(state.initialized);
    assert_eq!(create_env(&state), Ok("key-1".to_string()));
    assert_eq!(start_env(&state), Ok(()));
    assert_eq!(stop_env(&state), Ok(()));
}

#[test]
fn init_sdk_mock_mode_when_library_missing() {
    let mut state = AppState::default();
    init_sdk(&mut state, "k");
    assert_eq!(init_sdk_finish(&mut state, SdkStartup::LoadFailed), Ok("模拟模式：SDK 初始化成功（userSig 已获取）".to_string()));
    assert!(state.initialized);
    assert_eq!(start_env(&state), Ok(()));
}

#[test]
fn init_sdk_failure_keeps_commands_refused() {
    let mut state = AppState::default();
    init_sdk(&mut state, "k");
    assert_eq!(
        init_sdk_finish(&mut state, SdkStartup::Initialized(Err("SDK not loaded".to_string()))),
        Err("SDK 初始化失败: SDK not loaded".to_string())
    );
    assert!(!state.initialized);
    assert_eq!(state.api_key, "k");
    assert_eq!(stop_env(&state), Err("SDK 未初始化".to_string()));
}

#[test]
fn user_sig_request_and_header() {
    assert_eq!(user_sig_request_body(), "{\"customerId\":\"default\",\"duration\":2592000}");
    assert_eq!(bearer_header("abc"), "Bearer abc");
}

#[test]
fn user_sig_replies() {
    let ok = GetUserSigResponse { code: 200, msg: "ok".to_string(), data: Some(GetUserSigData { user_sig: "sig-1".to_string() }) };
    assert_eq!(user_sig_from_response(ok), Ok("sig-1".to_string()));
    let refused = GetUserSigResponse { code: 401, msg: "invalid key".to_string(), data: None };
    assert_eq!(user_sig_from_response(refused), Err("获取 userSig 失败: invalid key (code=401)".to_string()));
    let empty = GetUserSigResponse { code: 200, msg: "ok".to_string(), data: None };
    assert_eq!(user_sig_from_response(empty), Err("响应中缺少 data 字段".to_string()));
}

#[test]
fn create_env_request_document() {
    assert_eq!(
        create_env_request_body("120", 1725029869),
        "{\"customerId\":\"default\",\"deviceName\":\"brosdk-demo\",\"envName\":\"env-1725029869\",\"finger\":{\"kernel\":\"Chrome\",\"kernelVersion\":\"120\",\"system\":\"All Windows\",\"publicIp\":\"127.0.0.1\"}}"
    );
    assert_eq!(
        create_env_request_body("1\"2", -1),
        "{\"customerId\":\"default\",\"deviceName\":\"brosdk-demo\",\"envName\":\"env--1\",\"finger\":{\"kernel\":\"Chrome\",\"kernelVersion\":\"1\\\"2\",\"system\":\"All Windows\",\"publicIp\":\"127.0.0.1\"}}"
    );
}

#[test]
fn create_env_answers_with_the_new_env_id() {
    let created = CreateEnvData { env_id: "e-42".to_string(), env_name: "env-1".to_string() };
    assert_eq!(create_env_finish(Ok(created)), Ok("e-42".to_string()));
    assert_eq!(create_env_finish(Err("请求失败: timeout".to_string())), Err("请求失败: timeout".to_string()));
    let state = ready_state();
    let key = create_env(&state).unwrap();
    assert_eq!(key, "key-1");
    let refused = CreateEnvResponse { code: 403, msg: "denied".to_string(), data: None };
    assert_eq!(create_env_finish(created_env_from_response(refused)), Err("创建环境失败: denied (code=403)".to_string()));
}

#[test]
fn created_env_replies() {
    let ok = CreateEnvResponse {
        code: 200,
        msg: "ok".to_string(),
        data: Some(CreateEnvData { env_id: "e-9".to_string(), env_name: "env-1".to_string() }),
    };
    let data = created_env_from_response(ok).unwrap();
    assert_eq!(data.env_id, "e-9");
    assert_eq!(data.env_name, "env-1");
    let refused = CreateEnvResponse { code: 500, msg: "boom".to_string(), data: None };
    assert_eq!(created_env_from_response(refused).err(), Some("创建环境失败: boom (code=500)".to_string()));
    let empty = CreateEnvResponse { code: 200, msg: "ok".to_string(), data: None };
    assert_eq!(created_env_from_response(empty).err(), Some("响应中缺少 data 字段".to_string()));
}

#[test]
fn start_and_stop_answers() {
    assert_eq!(start_env_finish("env-001", Ok(())), Ok("环境 env-001 启动请求已发送".to_string()));
    assert_eq!(start_env_finish("env-001", Err("browser_open error: -1".to_string())), Err("browser_open error: -1".to_string()));
    assert_eq!(stop_env_finish("env-001", Ok(())), Ok("环境 env-001 已关闭".to_string()));
    assert_eq!(stop_env_finish("env-001", Err("x".to_string())), Err("x".to_string()));
}
