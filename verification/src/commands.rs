//! The decisions of the desktop commands: what they keep in the application
//! state, the REST requests they build, how they read the REST replies and the
//! SDK results, and the messages they answer with.
//!
//! The HTTP exchange, the JSON parsing of replies and the native calls are made
//! by the caller, which hands the results to these functions.

use vstd::prelude::*;
use crate::text::{int_text, json_string, json_string_literal, push_int, text_result, unit_result};

verus! {

/// What the commands remember between calls.
pub struct AppState {
    pub api_key: String,
    pub initialized: bool,
}

impl Default for AppState {
    /// No API key yet, SDK not initialised.
    fn default() -> (s: AppState)
        ensures
            s.api_key@ == Seq::<char>::empty(),
            !s.initialized,
    {
        AppState { api_key: String::new(), initialized: false }
    }
}

/// The answer of every command but `init_sdk` before the SDK is initialised.
pub open spec fn not_initialized() -> Seq<char> {
    "SDK 未初始化"@
}

/// The admission test in front of the commands that need an initialised SDK.
pub open spec fn admission(s: AppState) -> Result<(), Seq<char>> {
    if s.initialized {
        Ok(())
    } else {
        Err(not_initialized())
    }
}

fn check_initialized(state: &AppState) -> (r: Result<(), String>)
    ensures
        unit_result(r) == admission(*state),
{
    if state.initialized {
        Ok(())
    } else {
        Err(String::from_str("SDK 未初始化"))
    }
}

/// The `Authorization` header value for an API key.
pub open spec fn bearer(api_key: Seq<char>) -> Seq<char> {
    "Bearer "@ + api_key
}

/// The `Authorization` header value for `api_key`.
pub fn bearer_header(api_key: &str) -> (h: String)
    ensures
        h@ == bearer(api_key@),
{
    let mut h = String::from_str("Bearer ");
    h.append(api_key);
    h
}

/// `"<what>: <msg> (code=<code>)"`, the message of a REST call refused by the server.
pub open spec fn refusal(what: Seq<char>, msg: Seq<char>, code: i32) -> Seq<char> {
    what + ": "@ + msg + " (code="@ + int_text(code as int) + ")"@
}

fn refusal_message(what: &str, msg: &str, code: i32) -> (m: String)
    ensures
        m@ == refusal(what@, msg@, code),
{
    let mut m = String::from_str(what);
    m.append(": ");
    m.append(msg);
    m.append(" (code=");
    push_int(&mut m, code as i64);
    m.append(")");
    assert(m@ =~= refusal(what@, msg@, code));
    m
}

/// The message of a REST reply that succeeded without its `data` field.
pub open spec fn missing_data() -> Seq<char> {
    "响应中缺少 data 字段"@
}

// ---------------------------------------------------------------------------
// init_sdk
// ---------------------------------------------------------------------------

/// The `data` of a `getUserSig` reply.
pub struct GetUserSigData {
    pub user_sig: String,
}

/// A parsed `getUserSig` reply.
pub struct GetUserSigResponse {
    pub code: i32,
    pub msg: String,
    pub data: Option<GetUserSigData>,
}

/// The body of the `getUserSig` request: the default customer and a
/// signature valid for thirty days (2592000 seconds).
pub open spec fn user_sig_request() -> Seq<char> {
    "{\"customerId\":\"default\",\"duration\":2592000}"@
}

/// The body of the `getUserSig` request.
pub fn user_sig_request_body() -> (b: String)
    ensures
        b@ == user_sig_request(),
{
    String::from_str("{\"customerId\":\"default\",\"duration\":2592000}")
}

/// What a `getUserSig` reply yields: the signature when the server answered
/// with code 200 and a `data` field.
pub open spec fn user_sig_outcome(resp: GetUserSigResponse) -> Result<Seq<char>, Seq<char>> {
    if resp.code != 200 {
        Err(refusal("获取 userSig 失败"@, resp.msg@, resp.code))
    } else {
        match resp.data {
            Some(d) => Ok(d.user_sig@),
            None => Err(missing_data()),
        }
    }
}

/// The user signature carried by a `getUserSig` reply.
pub fn user_sig_from_response(resp: GetUserSigResponse) -> (r: Result<String, String>)
    ensures
        r is Ok <==> (resp.code == 200 && resp.data is Some),
        resp.code == 200 && resp.data is Some ==> r is Ok && r->Ok_0@ == resp.data->Some_0.user_sig@,
        resp.code != 200 ==> r is Err && r->Err_0@ == "获取 userSig 失败: "@ + resp.msg@ + " (code="@
            + int_text(resp.code as int) + ")"@,
        text_result(r) == user_sig_outcome(resp),
{
    proof {
        reveal_strlit("获取 userSig 失败");
        reveal_strlit(": ");
        reveal_strlit("获取 userSig 失败: ");
        assert("获取 userSig 失败"@ + ": "@ =~= "获取 userSig 失败: "@);
    }
    if resp.code != 200 {
        return Err(refusal_message("获取 userSig 失败", resp.msg.as_str(), resp.code));
    }
    match resp.data {
        Some(d) => Ok(d.user_sig),
        None => Err(String::from_str("响应中缺少 data 字段")),
    }
}

/// The first step of `init_sdk`: the API key is kept, whatever follows.
pub fn init_sdk(state: &mut AppState, api_key: &str)
    ensures
        final(state).api_key@ == api_key@,
        final(state).initialized == old(state).initialized,
{
    state.api_key = String::from_str(api_key);
}

/// How bringing up the SDK went once the user signature was obtained: the
/// native library could not be loaded, or it was loaded and `init` returned
/// this result.
pub enum SdkStartup {
    LoadFailed,
    Initialized(Result<String, String>),
}

/// The message of `init_sdk` when the library cannot be loaded: the command
/// carries on without it.
pub open spec fn mock_mode_message() -> Seq<char> {
    "模拟模式：SDK 初始化成功（userSig 已获取）"@
}

/// The answer of `init_sdk` and whether the SDK counts as initialised after it.
pub open spec fn startup_outcome(startup: SdkStartup) -> (bool, Result<Seq<char>, Seq<char>>) {
    match startup {
        SdkStartup::LoadFailed => (true, Ok(mock_mode_message())),
        SdkStartup::Initialized(Ok(result)) => (true, Ok("SDK 初始化成功: "@ + result@)),
        SdkStartup::Initialized(Err(e)) => (false, Err("SDK 初始化失败: "@ + e@)),
    }
}

/// The last step of `init_sdk`: marks the SDK initialised unless `init` failed.
pub fn init_sdk_finish(state: &mut AppState, startup: SdkStartup) -> (r: Result<String, String>)
    ensures
        r is Err <==> startup matches SdkStartup::Initialized(Err(_)),
        final(state).initialized == (old(state).initialized || !(startup matches SdkStartup::Initialized(Err(_)))),
        startup matches SdkStartup::Initialized(Ok(result)) ==> r is Ok && r->Ok_0@ == "SDK 初始化成功: "@ + result@,
        startup matches SdkStartup::Initialized(Err(e)) ==> r is Err && r->Err_0@ == "SDK 初始化失败: "@ + e@,
        text_result(r) == startup_outcome(startup).1,
        final(state).initialized == (old(state).initialized || startup_outcome(startup).0),
        final(state).api_key == old(state).api_key,
{
    match startup {
        SdkStartup::LoadFailed => {
            state.initialized = true;
            Ok(String::from_str("模拟模式：SDK 初始化成功（userSig 已获取）"))
        },
        SdkStartup::Initialized(Ok(result)) => {
            state.initialized = true;
            let mut m = String::from_str("SDK 初始化成功: ");
            m.append(result.as_str());
            Ok(m)
        },
        SdkStartup::Initialized(Err(e)) => {
            let mut m = String::from_str("SDK 初始化失败: ");
            m.append(e.as_str());
            Err(m)
        },
    }
}

// ---------------------------------------------------------------------------
// create_env
// ---------------------------------------------------------------------------

/// The `data` of a `create` reply.
pub struct CreateEnvData {
    pub env_id: String,
    pub env_name: String,
}

/// A parsed `create` reply.
pub struct CreateEnvResponse {
    pub code: i32,
    pub msg: String,
    pub data: Option<CreateEnvData>,
}

/// The first step of `create_env`: the API key to call the REST API with, once
/// the SDK is initialised.
pub fn create_env(state: &AppState) -> (r: Result<String, String>)
    ensures
        r is Ok <==> state.initialized,
        r is Ok ==> r->Ok_0@ == state.api_key@,
        text_result(r) == (match admission(*state) {
            Ok(_) => Ok(state.api_key@),
            Err(e) => Err(e),
        }),
{
    check_initialized(state)?;
    Ok(state.api_key.clone())
}

/// The name given to an environment created at `timestamp` (Unix seconds).
pub open spec fn env_name(timestamp: i64) -> Seq<char> {
    "env-"@ + int_text(timestamp as int)
}

/// The body of the `create` request: a Chrome environment for all Windows
/// systems with the given kernel version, named after the time of creation.
pub open spec fn create_env_request(kernel_version: Seq<char>, timestamp: i64) -> Seq<char> {
    "{\"customerId\":\"default\",\"deviceName\":\"brosdk-demo\",\"envName\":"@
        + json_string_literal(env_name(timestamp))
        + ",\"finger\":{\"kernel\":\"Chrome\",\"kernelVersion\":"@
        + json_string_literal(kernel_version)
        + ",\"system\":\"All Windows\",\"publicIp\":\"127.0.0.1\"}}"@
}

/// The body of the `create` request for an environment created at `timestamp`.
pub fn create_env_request_body(kernel_version: &str, timestamp: i64) -> (b: String)
    ensures
        b@ == create_env_request(kernel_version@, timestamp),
{
    let mut name = String::from_str("env-");
    push_int(&mut name, timestamp);
    let mut b = String::from_str(
        "{\"customerId\":\"default\",\"deviceName\":\"brosdk-demo\",\"envName\":",
    );
    let quoted_name = json_string(name.as_str());
    b.append(quoted_name.as_str());
    b.append(",\"finger\":{\"kernel\":\"Chrome\",\"kernelVersion\":");
    let quoted_version = json_string(kernel_version);
    b.append(quoted_version.as_str());
    b.append(",\"system\":\"All Windows\",\"publicIp\":\"127.0.0.1\"}}");
    assert(b@ =~= create_env_request(kernel_version@, timestamp));
    b
}

/// What a `create` reply yields: the new environment when the server
/// answered with code 200 and a `data` field.
pub open spec fn created_env_outcome(resp: CreateEnvResponse) -> Result<(Seq<char>, Seq<char>), Seq<char>> {
    if resp.code != 200 {
        Err(refusal("创建环境失败"@, resp.msg@, resp.code))
    } else {
        match resp.data {
            Some(d) => Ok((d.env_id@, d.env_name@)),
            None => Err(missing_data()),
        }
    }
}

/// The environment carried by a `create` reply.
pub fn created_env_from_response(resp: CreateEnvResponse) -> (r: Result<CreateEnvData, String>)
    ensures
        r is Ok <==> (resp.code == 200 && resp.data is Some),
        resp.code == 200 && resp.data is Some ==> r is Ok && r->Ok_0.env_id@ == resp.data->Some_0.env_id@
            && r->Ok_0.env_name@ == resp.data->Some_0.env_name@,
        resp.code != 200 ==> r is Err && r->Err_0@ == "创建环境失败: "@ + resp.msg@ + " (code="@
            + int_text(resp.code as int) + ")"@,
        (match r {
            Ok(d) => Ok((d.env_id@, d.env_name@)),
            Err(e) => Err(e@),
        }) == created_env_outcome(resp),
{
    proof {
        reveal_strlit("创建环境失败");
        reveal_strlit(": ");
        reveal_strlit("创建环境失败: ");
        assert("创建环境失败"@ + ": "@ =~= "创建环境失败: "@);
    }
    if resp.code != 200 {
        return Err(refusal_message("创建环境失败", resp.msg.as_str(), resp.code));
    }
    match resp.data {
        Some(d) => Ok(d),
        None => Err(String::from_str("响应中缺少 data 字段")),
    }
}

/// The answer of `create_env`: the id of the new environment, or the error of
/// the REST call unchanged.
pub fn create_env_finish(created: Result<CreateEnvData, String>) -> (r: Result<String, String>)
    ensures
        r is Ok <==> created is Ok,
        created is Ok ==> r->Ok_0@ == created->Ok_0.env_id@,
        created is Err ==> r->Err_0@ == created->Err_0@,
        text_result(r) == (match created {
            Ok(d) => Ok(d.env_id@),
            Err(e) => Err(e@),
        }),
{
    match created {
        Ok(d) => Ok(d.env_id),
        Err(e) => Err(e),
    }
}

// ---------------------------------------------------------------------------
// start_env and stop_env
// ---------------------------------------------------------------------------

/// The first step of `start_env`: whether the browser may be opened.
pub fn start_env(state: &AppState) -> (r: Result<(), String>)
    ensures
        r is Ok <==> state.initialized,
        unit_result(r) == admission(*state),
{
    check_initialized(state)
}

/// The answer of `start_env` once the SDK has taken the open request.
pub open spec fn start_outcome(env_id: Seq<char>, opened: Result<(), Seq<char>>) -> Result<Seq<char>, Seq<char>> {
    match opened {
        Ok(_) => Ok("环境 "@ + env_id + " 启动请求已发送"@),
        Err(e) => Err(e),
    }
}

/// The answer of `start_env`, given the result of `browser_open`.
pub fn start_env_finish(env_id: &str, opened: Result<(), String>) -> (r: Result<String, String>)
    ensures
        r is Ok <==> opened is Ok,
        opened is Err ==> r->Err_0@ == opened->Err_0@,
        text_result(r) == start_outcome(env_id@, unit_result(opened)),
{
    match opened {
        Ok(_) => {
            let mut m = String::from_str("环境 ");
            m.append(env_id);
            m.append(" 启动请求已发送");
            Ok(m)
        },
        Err(e) => Err(e),
    }
}

/// The first step of `stop_env`: whether the browser may be closed.
pub fn stop_env(state: &AppState) -> (r: Result<(), String>)
    ensures
        r is Ok <==> state.initialized,
        unit_result(r) == admission(*state),
{
    check_initialized(state)
}

/// The answer of `stop_env` once the SDK has closed the browser.
pub open spec fn stop_outcome(env_id: Seq<char>, closed: Result<(), Seq<char>>) -> Result<Seq<char>, Seq<char>> {
    match closed {
        Ok(_) => Ok("环境 "@ + env_id + " 已关闭"@),
        Err(e) => Err(e),
    }
}

/// The answer of `stop_env`, given the result of `browser_close`.
pub fn stop_env_finish(env_id: &str, closed: Result<(), String>) -> (r: Result<String, String>)
    ensures
        r is Ok <==> closed is Ok,
        closed is Err ==> r->Err_0@ == closed->Err_0@,
        text_result(r) == stop_outcome(env_id@, unit_result(closed)),
{
    match closed {
        Ok(_) => {
            let mut m = String::from_str("环境 ");
            m.append(env_id);
            m.append(" 已关闭");
            Ok(m)
        },
        Err(e) => Err(e),
    }
}

// ---------------------------------------------------------------------------
// Laws of the commands
// ---------------------------------------------------------------------------

/// `init_sdk` leaves the SDK initialised unless `init` itself failed: the
/// commands that need it are admitted afterwards, also when the native
/// library could not be loaded.
pub proof fn lemma_init_sdk_admits_commands(s: AppState, startup: SdkStartup)
    requires
        !(startup matches SdkStartup::Initialized(Err(_))),
    ensures
        admission(AppState { initialized: s.initialized || startup_outcome(startup).0, ..s }) == Ok::<
            (),
            Seq<char>,
        >(()),
{
}

/// A failed `init` changes nothing: a session that was not initialised stays
/// refused.
pub proof fn lemma_failed_init_keeps_commands_refused(s: AppState, e: String)
    requires
        !s.initialized,
    ensures
        admission(
            AppState {
                initialized: s.initialized || startup_outcome(SdkStartup::Initialized(Err(e))).0,
                ..s
            },
        ) == Err::<(), Seq<char>>(not_initialized()),
{
}


/// A `getUserSig` reply with code 200 and a `data` field yields its
/// signature, whatever its message; any other code is a refusal that quotes
/// the message and the code; code 200 without `data` is the missing-data error.
pub proof fn lemma_user_sig_decided_by_code_and_data(resp: GetUserSigResponse)
    ensures
        user_sig_outcome(resp) is Ok <==> (resp.code == 200 && resp.data is Some),
        resp.code == 200 && resp.data is Some ==> user_sig_outcome(resp) == Ok::<Seq<char>, Seq<char>>(
            resp.data->Some_0.user_sig@,
        ),
        resp.code != 200 ==> user_sig_outcome(resp) == Err::<Seq<char>, Seq<char>>(
            "获取 userSig 失败: "@ + resp.msg@ + " (code="@ + int_text(resp.code as int) + ")"@,
        ),
        resp.code == 200 && resp.data is None ==> user_sig_outcome(resp) == Err::<Seq<char>, Seq<char>>(
            "响应中缺少 data 字段"@,
        ),
{
    reveal_strlit("获取 userSig 失败");
    reveal_strlit(": ");
    reveal_strlit("获取 userSig 失败: ");
    assert("获取 userSig 失败"@ + ": "@ =~= "获取 userSig 失败: "@);
}

/// The message of a `getUserSig` reply matters only inside a refusal: two
/// replies with code 200 and the same data give the same outcome.
pub proof fn lemma_user_sig_ignores_message_on_success(a: GetUserSigResponse, b: GetUserSigResponse)
    requires
        a.code == 200,
        b.code == 200,
        a.data == b.data,
    ensures
        user_sig_outcome(a) == user_sig_outcome(b),
{
}

/// A `create` reply with code 200 and a `data` field yields that environment,
/// whatever its message; any other code is a refusal that quotes the message
/// and the code; code 200 without `data` is the missing-data error.
pub proof fn lemma_created_env_decided_by_code_and_data(resp: CreateEnvResponse)
    ensures
        created_env_outcome(resp) is Ok <==> (resp.code == 200 && resp.data is Some),
        resp.code == 200 && resp.data is Some ==> created_env_outcome(resp) == Ok::<
            (Seq<char>, Seq<char>),
            Seq<char>,
        >((resp.data->Some_0.env_id@, resp.data->Some_0.env_name@)),
        resp.code != 200 ==> created_env_outcome(resp) == Err::<(Seq<char>, Seq<char>), Seq<char>>(
            "创建环境失败: "@ + resp.msg@ + " (code="@ + int_text(resp.code as int) + ")"@,
        ),
        resp.code == 200 && resp.data is None ==> created_env_outcome(resp) == Err::<
            (Seq<char>, Seq<char>),
            Seq<char>,
        >("响应中缺少 data 字段"@),
{
    reveal_strlit("创建环境失败");
    reveal_strlit(": ");
    reveal_strlit("创建环境失败: ");
    assert("创建环境失败"@ + ": "@ =~= "创建环境失败: "@);
}

/// The message of a `create` reply matters only inside a refusal: two replies
/// with code 200 and the same data give the same outcome.
pub proof fn lemma_created_env_ignores_message_on_success(a: CreateEnvResponse, b: CreateEnvResponse)
    requires
        a.code == 200,
        b.code == 200,
        a.data == b.data,
    ensures
        created_env_outcome(a) == created_env_outcome(b),
{
}

} // verus!
