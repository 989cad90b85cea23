//! The lifecycle of one BroSDK session: loading the native library once, the
//! request each SDK call hands to it, and the result each reply turns into.
//!
//! The native calls themselves are made by the caller; this module decides
//! what goes into them and what comes out of their replies.

use vstd::prelude::*;
use crate::text::{
    from_utf8_lossy, int_text, json_string, json_string_literal, lemma_json_string_literal_has_no_control_chars,
    lemma_concat_no_control_chars, lemma_nat_text_is_digits, nat_text, no_control_chars, push_int,
    push_nat, text_result, unit_result, utf8_lossy,
};

verus! {

/// The name of the application event that carries SDK callbacks.
pub const SDK_EVENT_NAME: &'static str = "brosdk-event";

/// The port the SDK's local service listens on.
pub const SDK_PORT: u16 = 8080;

// ---------------------------------------------------------------------------
// Callback events
// ---------------------------------------------------------------------------

/// An asynchronous result delivered by the SDK's result callback.
#[derive(Clone)]
pub struct SdkEvent {
    pub code: i32,
    pub data: String,
}

/// The text of a callback payload: nothing for a null or empty buffer,
/// otherwise the bytes decoded as lossy UTF-8.
pub open spec fn callback_payload(data: Option<Seq<u8>>) -> Seq<char> {
    match data {
        Some(bytes) => if bytes.len() == 0 {
            Seq::empty()
        } else {
            utf8_lossy(bytes)
        },
        None => Seq::empty(),
    }
}

pub open spec fn opt_bytes(data: Option<&[u8]>) -> Option<Seq<u8>> {
    match data {
        Some(bytes) => Some(bytes@),
        None => None,
    }
}

impl SdkEvent {
    /// The event for one result callback; `data` is `None` where the SDK
    /// passed a null pointer.
    pub fn from_callback(code: i32, data: Option<&[u8]>) -> (e: SdkEvent)
        ensures
            e.code == code,
            e.data@ == callback_payload(opt_bytes(data)),
            data is None ==> e.data@.len() == 0,
            data is Some && data->Some_0@.len() == 0 ==> e.data@.len() == 0,
            data is Some && data->Some_0@.len() > 0 ==> e.data@ == utf8_lossy(data->Some_0@),
    {
        let payload = match data {
            Some(bytes) => if bytes.len() == 0 {
                String::new()
            } else {
                from_utf8_lossy(bytes)
            },
            None => String::new(),
        };
        SdkEvent { code, data: payload }
    }
}

// ---------------------------------------------------------------------------
// Loading the library
// ---------------------------------------------------------------------------

/// What the process has set up for the SDK: whether the application handle
/// that receives callback events is attached, and whether the native library
/// is loaded. Each is set at most once.
pub struct SdkSession {
    app_attached: bool,
    library_loaded: bool,
}

/// The first step of loading: claiming the application handle when one is
/// attached. `Ok` means the library may now be opened.
pub closed spec fn load_start(s: SdkSession, attach_app: bool) -> (SdkSession, Result<(), Seq<char>>) {
    if attach_app && s.app_attached {
        (s, Err("APP_HANDLE already set"@))
    } else {
        (SdkSession { app_attached: s.app_attached || attach_app, ..s }, Ok(()))
    }
}

/// The second step of loading, given how opening the library went.
pub closed spec fn load_end(s: SdkSession, opened: Result<(), Seq<char>>) -> (SdkSession, Result<(), Seq<char>>) {
    match opened {
        Err(e) => (s, Err(e)),
        Ok(_) => if s.library_loaded {
            (s, Err("SDK already loaded"@))
        } else {
            (SdkSession { library_loaded: true, ..s }, Ok(()))
        },
    }
}

/// The error of every SDK call made before the library is loaded.
pub open spec fn not_loaded() -> Seq<char> {
    "SDK not loaded"@
}

impl SdkSession {
    pub closed spec fn attached(self) -> bool {
        self.app_attached
    }

    pub closed spec fn loaded(self) -> bool {
        self.library_loaded
    }

    /// A process that has set up nothing yet.
    pub fn new() -> (s: SdkSession)
        ensures
            !s.attached(),
            !s.loaded(),
    {
        SdkSession { app_attached: false, library_loaded: false }
    }

    pub fn is_loaded(&self) -> (b: bool)
        ensures
            b == self.loaded(),
    {
        self.library_loaded
    }

    /// Starts loading the library; with `attach_app` the application handle is
    /// claimed first, which fails when it was claimed before. On `Ok` the
    /// caller opens the library and reports with `load_finish`.
    pub fn load(&mut self, attach_app: bool) -> (r: Result<(), String>)
        ensures
            (*final(self), unit_result(r)) == load_start(*old(self), attach_app),
            r is Err <==> attach_app && old(self).attached(),
            r is Err ==> r->Err_0@ == "APP_HANDLE already set"@,
            final(self).attached() == (old(self).attached() || attach_app),
            final(self).loaded() == old(self).loaded(),
    {
        if attach_app && self.app_attached {
            return Err(String::from_str("APP_HANDLE already set"));
        }
        self.app_attached = self.app_attached || attach_app;
        Ok(())
    }

    /// Ends loading, given the outcome of opening the library. The library
    /// counts as loaded only the first time it opens; on `Ok` the caller
    /// registers the SDK callbacks.
    pub fn load_finish(&mut self, opened: Result<(), String>) -> (r: Result<(), String>)
        ensures
            (*final(self), unit_result(r)) == load_end(*old(self), unit_result(opened)),
            r is Ok <==> (opened is Ok && !old(self).loaded()),
            opened is Err ==> unit_result(r) == unit_result(opened),
            opened is Ok && old(self).loaded() ==> r is Err && r->Err_0@ == "SDK already loaded"@,
            final(self).loaded() == (old(self).loaded() || opened is Ok),
            final(self).attached() == old(self).attached(),
    {
        match opened {
            Err(e) => Err(e),
            Ok(_) => {
                if self.library_loaded {
                    Err(String::from_str("SDK already loaded"))
                } else {
                    self.library_loaded = true;
                    Ok(())
                }
            },
        }
    }

    /// How many bytes the cookies/storage callback copies into an SDK buffer:
    /// none for a null or empty buffer or before the library is loaded.
    pub fn storage_copy_len(&self, data: Option<&[u8]>) -> (n: Option<usize>)
        ensures
            n == (match data {
                Some(bytes) => if bytes@.len() > 0 && self.loaded() {
                    Some(bytes@.len() as usize)
                } else {
                    None::<usize>
                },
                None => None,
            }),
    {
        match data {
            Some(bytes) => if bytes.len() > 0 && self.library_loaded {
                Some(bytes.len())
            } else {
                None
            },
            None => None,
        }
    }
}


// ---------------------------------------------------------------------------
// Requests handed to the SDK
// ---------------------------------------------------------------------------

/// The JSON document `sdk_init` takes: `{"port":..,"userSig":..,"workDir":..}`,
/// keys in ascending order as serde_json's default object map writes them.
pub open spec fn init_request(user_sig: Seq<char>, work_dir: Seq<char>, port: u16) -> Seq<char> {
    "{\"port\":"@ + nat_text(port as nat) + ",\"userSig\":"@ + json_string_literal(user_sig)
        + ",\"workDir\":"@ + json_string_literal(work_dir) + "}"@
}

/// The bundle identifier of the desktop application; on macOS the browser is
/// launched as its child so that it inherits the application's permissions.
pub const MACOS_PARENT_BUNDLE_ID: &'static str = "com.brosdk.demo";

/// The parent bundle identifier to launch browsers with: the application's on
/// macOS, none elsewhere.
pub fn parent_bundle_id(is_macos: bool) -> (id: Option<&'static str>)
    ensures
        id is Some <==> is_macos,
        id matches Some(b) ==> b@ == MACOS_PARENT_BUNDLE_ID@,
{
    if is_macos {
        Some(MACOS_PARENT_BUNDLE_ID)
    } else {
        None
    }
}

pub open spec fn opt_text(text: Option<&str>) -> Option<Seq<char>> {
    match text {
        Some(t) => Some(t@),
        None => None,
    }
}

/// The launch arguments of a browser, as a JSON array: the fixed arguments,
/// then `--parent-bundle-identifier=<id>` when a parent bundle is given.
pub open spec fn launch_args(parent_bundle_id: Option<Seq<char>>) -> Seq<char> {
    "[\"--no-first-run\",\"--no-default-browser-check\",\"--remote-debugging-port=9222\""@
        + match parent_bundle_id {
        Some(id) => ","@ + json_string_literal("--parent-bundle-identifier="@ + id),
        None => Seq::empty(),
    } + "]"@
}

/// The JSON document `sdk_browser_open` takes for one environment.
pub open spec fn browser_open_request(env_id: Seq<char>, parent_bundle_id: Option<Seq<char>>) -> Seq<char> {
    "{\"envs\":[{\"args\":"@ + launch_args(parent_bundle_id) + ",\"envId\":"@
        + json_string_literal(env_id) + "}]}"@
}

/// The JSON document `sdk_browser_close` takes for one environment.
pub open spec fn browser_close_request(env_id: Seq<char>) -> Seq<char> {
    "{\"envs\":["@ + json_string_literal(env_id) + "]}"@
}

/// The outcome of a request step: the request, or the refusal of a session
/// whose library is not loaded.
pub open spec fn request_outcome(s: SdkSession, request: Seq<char>) -> Result<Seq<char>, Seq<char>> {
    if s.loaded() {
        Ok(request)
    } else {
        Err(not_loaded())
    }
}

fn not_loaded_error() -> (e: String)
    ensures
        e@ == not_loaded(),
{
    String::from_str("SDK not loaded")
}

impl SdkSession {
    /// The document for `sdk_init`.
    pub fn init(&self, user_sig: &str, work_dir: &str, port: u16) -> (r: Result<String, String>)
        ensures
            r is Ok <==> self.loaded(),
            r is Err ==> r->Err_0@ == "SDK not loaded"@,
            text_result(r) == request_outcome(*self, init_request(user_sig@, work_dir@, port)),
    {
        if !self.library_loaded {
            return Err(not_loaded_error());
        }
        let mut doc = String::from_str("{\"port\":");
        push_nat(&mut doc, port as u64);
        doc.append(",\"userSig\":");
        let sig = json_string(user_sig);
        doc.append(sig.as_str());
        doc.append(",\"workDir\":");
        let dir = json_string(work_dir);
        doc.append(dir.as_str());
        doc.append("}");
        assert(doc@ =~= init_request(user_sig@, work_dir@, port));
        Ok(doc)
    }

    /// The document for `sdk_browser_open`; `parent_bundle_id` is the bundle
    /// the browser is launched under (see `parent_bundle_id`).
    pub fn browser_open(&self, env_id: &str, parent_bundle_id: Option<&str>) -> (r: Result<String, String>)
        ensures
            r is Ok <==> self.loaded(),
            r is Err ==> r->Err_0@ == "SDK not loaded"@,
            text_result(r) == request_outcome(*self, browser_open_request(env_id@, opt_text(parent_bundle_id))),
    {
        if !self.library_loaded {
            return Err(not_loaded_error());
        }
        let mut doc = String::from_str(
            "{\"envs\":[{\"args\":[\"--no-first-run\",\"--no-default-browser-check\",\"--remote-debugging-port=9222\"",
        );
        match parent_bundle_id {
            Some(bundle) => {
                let mut arg = String::from_str("--parent-bundle-identifier=");
                arg.append(bundle);
                let quoted = json_string(arg.as_str());
                doc.append(",");
                doc.append(quoted.as_str());
            },
            None => {},
        }
        doc.append("],\"envId\":");
        let id = json_string(env_id);
        doc.append(id.as_str());
        doc.append("}]}");
        proof {
            reveal_strlit("{\"envs\":[{\"args\":[\"--no-first-run\",\"--no-default-browser-check\",\"--remote-debugging-port=9222\"");
            reveal_strlit("[\"--no-first-run\",\"--no-default-browser-check\",\"--remote-debugging-port=9222\"");
            reveal_strlit("{\"envs\":[{\"args\":");
            reveal_strlit("],\"envId\":");
            reveal_strlit(",\"envId\":");
            reveal_strlit("]");
        }
        assert(doc@ =~= browser_open_request(env_id@, opt_text(parent_bundle_id)));
        Ok(doc)
    }

    /// The document for `sdk_browser_close`.
    pub fn browser_close(&self, env_id: &str) -> (r: Result<String, String>)
        ensures
            r is Ok <==> self.loaded(),
            r is Err ==> r->Err_0@ == "SDK not loaded"@,
            text_result(r) == request_outcome(*self, browser_close_request(env_id@)),
    {
        if !self.library_loaded {
            return Err(not_loaded_error());
        }
        let mut doc = String::from_str("{\"envs\":[");
        let id = json_string(env_id);
        doc.append(id.as_str());
        doc.append("]}");
        assert(doc@ =~= browser_close_request(env_id@));
        Ok(doc)
    }

    /// The data for `sdk_token_update`: the token document as given.
    pub fn token_update(&self, token_json: &str) -> (r: Result<String, String>)
        ensures
            r is Ok <==> self.loaded(),
            r is Err ==> r->Err_0@ == "SDK not loaded"@,
            text_result(r) == request_outcome(*self, token_json@),
    {
        if !self.library_loaded {
            return Err(not_loaded_error());
        }
        Ok(String::from_str(token_json))
    }

    /// Whether `sdk_info` may be called.
    pub fn sdk_info(&self) -> (r: Result<(), String>)
        ensures
            r is Ok <==> self.loaded(),
            r is Err ==> r->Err_0@ == "SDK not loaded"@,
            unit_result(r) == (if self.loaded() { Ok(()) } else { Err(not_loaded()) }),
    {
        if !self.library_loaded {
            return Err(not_loaded_error());
        }
        Ok(())
    }

    /// The data for `sdk_env_create`: the configuration document as given.
    pub fn sdk_env_create(&self, config_json: &str) -> (r: Result<String, String>)
        ensures
            r is Ok <==> self.loaded(),
            r is Err ==> r->Err_0@ == "SDK not loaded"@,
            text_result(r) == request_outcome(*self, config_json@),
    {
        if !self.library_loaded {
            return Err(not_loaded_error());
        }
        Ok(String::from_str(config_json))
    }

    /// The data for `sdk_env_page`: the paging document as given.
    pub fn sdk_env_page(&self, page_json: &str) -> (r: Result<String, String>)
        ensures
            r is Ok <==> self.loaded(),
            r is Err ==> r->Err_0@ == "SDK not loaded"@,
            text_result(r) == request_outcome(*self, page_json@),
    {
        if !self.library_loaded {
            return Err(not_loaded_error());
        }
        Ok(String::from_str(page_json))
    }

    /// Whether `sdk_shutdown` may be called.
    pub fn shutdown(&self) -> (r: Result<(), String>)
        ensures
            r is Ok <==> self.loaded(),
            r is Err ==> r->Err_0@ == "SDK not loaded"@,
            unit_result(r) == (if self.loaded() { Ok(()) } else { Err(not_loaded()) }),
    {
        if !self.library_loaded {
            return Err(not_loaded_error());
        }
        Ok(())
    }
}

// ---------------------------------------------------------------------------
// Replies from the SDK
// ---------------------------------------------------------------------------

/// What one SDK call gave back: its status code, whether `sdk_is_error` holds
/// of that code, the bytes of `sdk_error_string(code)` (`None` for a null
/// pointer) and the bytes of the output buffer (empty when there is none).
pub struct SdkReply {
    pub code: i32,
    pub is_error: bool,
    pub error_text: Option<Vec<u8>>,
    pub output: Vec<u8>,
}

/// The message of a failed call: the SDK's own error string when it has one,
/// otherwise `"<label> error: <code>"`.
pub open spec fn reply_error(label: Seq<char>, reply: SdkReply) -> Seq<char> {
    match reply.error_text {
        Some(bytes) => utf8_lossy(bytes@),
        None => label + " error: "@ + int_text(reply.code as int),
    }
}

/// A failure message with the call's output appended, when there is output.
pub open spec fn with_output(message: Seq<char>, output: Seq<char>) -> Seq<char> {
    if output.len() == 0 {
        message
    } else {
        message + " | result: "@ + output
    }
}

/// The output of a successful call, `{}` when it is empty.
pub open spec fn output_or_empty_object(output: Seq<char>) -> Seq<char> {
    if output.len() == 0 {
        "{}"@
    } else {
        output
    }
}

/// The result of a call whose output is returned on success.
pub open spec fn query_outcome(label: Seq<char>, reply: SdkReply) -> Result<Seq<char>, Seq<char>> {
    if reply.is_error {
        Err(reply_error(label, reply))
    } else {
        Ok(output_or_empty_object(utf8_lossy(reply.output@)))
    }
}

/// The result of a call that returns nothing on success.
pub open spec fn command_outcome(label: Seq<char>, reply: SdkReply, show_output: bool) -> Result<(), Seq<char>> {
    if reply.is_error {
        if show_output {
            Err(with_output(reply_error(label, reply), utf8_lossy(reply.output@)))
        } else {
            Err(reply_error(label, reply))
        }
    } else {
        Ok(())
    }
}

/// The result of `sdk_env_create`: its output on success, its output appended
/// to the message on failure.
pub open spec fn env_create_outcome(reply: SdkReply) -> Result<Seq<char>, Seq<char>> {
    if reply.is_error {
        Err(with_output(reply_error("sdk_env_create"@, reply), utf8_lossy(reply.output@)))
    } else {
        Ok(output_or_empty_object(utf8_lossy(reply.output@)))
    }
}

fn error_message(label: &str, reply: &SdkReply) -> (m: String)
    ensures
        m@ == reply_error(label@, *reply),
{
    match &reply.error_text {
        Some(bytes) => from_utf8_lossy(bytes.as_slice()),
        None => {
            let mut m = String::from_str(label);
            m.append(" error: ");
            push_int(&mut m, reply.code as i64);
            assert(m@ =~= reply_error(label@, *reply));
            m
        },
    }
}

fn append_output(message: String, output: &[u8]) -> (m: String)
    ensures
        m@ == with_output(message@, utf8_lossy(output@)),
{
    let text = from_utf8_lossy(output);
    if text.as_str().is_empty() {
        message
    } else {
        let mut m = message;
        m.append(" | result: ");
        m.append(text.as_str());
        m
    }
}

fn output_text(output: &[u8]) -> (t: String)
    ensures
        t@ == output_or_empty_object(utf8_lossy(output@)),
        t@.len() > 0,
{
    proof {
        reveal_strlit("{}");
    }
    let text = from_utf8_lossy(output);
    if text.as_str().is_empty() {
        String::from_str("{}")
    } else {
        text
    }
}

fn query_reply(label: &str, reply: &SdkReply) -> (r: Result<String, String>)
    ensures
        r is Err <==> reply.is_error,
        !reply.is_error ==> r is Ok && r->Ok_0@ == (if utf8_lossy(reply.output@).len() == 0 {
            "{}"@
        } else {
            utf8_lossy(reply.output@)
        }),
        text_result(r) == query_outcome(label@, *reply),
        r matches Ok(t) ==> t@.len() > 0,
{
    if reply.is_error {
        Err(error_message(label, reply))
    } else {
        Ok(output_text(reply.output.as_slice()))
    }
}

fn command_reply(label: &str, reply: &SdkReply, show_output: bool) -> (r: Result<(), String>)
    ensures
        r is Err <==> reply.is_error,
        unit_result(r) == command_outcome(label@, *reply, show_output),
{
    if reply.is_error {
        let message = error_message(label, reply);
        if show_output {
            Err(append_output(message, reply.output.as_slice()))
        } else {
            Err(message)
        }
    } else {
        Ok(())
    }
}

/// The result of `sdk_init`: the SDK's answer document on success.
pub fn init_reply(reply: &SdkReply) -> (r: Result<String, String>)
    ensures
        r is Err <==> reply.is_error,
        !reply.is_error ==> r is Ok && r->Ok_0@ == (if utf8_lossy(reply.output@).len() == 0 {
            "{}"@
        } else {
            utf8_lossy(reply.output@)
        }),
        text_result(r) == query_outcome("SDK init"@, *reply),
        r matches Ok(t) ==> t@.len() > 0,
{
    query_reply("SDK init", reply)
}

/// The result of `sdk_browser_open`; the launch itself is reported later by
/// a callback event.
pub fn browser_open_reply(reply: &SdkReply) -> (r: Result<(), String>)
    ensures
        r is Err <==> reply.is_error,
        unit_result(r) == command_outcome("browser_open"@, *reply, true),
{
    command_reply("browser_open", reply, true)
}

/// The result of `sdk_browser_close`.
pub fn browser_close_reply(reply: &SdkReply) -> (r: Result<(), String>)
    ensures
        r is Err <==> reply.is_error,
        unit_result(r) == command_outcome("browser_close"@, *reply, true),
{
    command_reply("browser_close", reply, true)
}

/// The result of `sdk_token_update`.
pub fn token_update_reply(reply: &SdkReply) -> (r: Result<(), String>)
    ensures
        r is Err <==> reply.is_error,
        unit_result(r) == command_outcome("token_update"@, *reply, false),
{
    command_reply("token_update", reply, false)
}

/// The result of `sdk_info`: the runtime information document on success.
pub fn sdk_info_reply(reply: &SdkReply) -> (r: Result<String, String>)
    ensures
        r is Err <==> reply.is_error,
        !reply.is_error ==> r is Ok && r->Ok_0@ == (if utf8_lossy(reply.output@).len() == 0 {
            "{}"@
        } else {
            utf8_lossy(reply.output@)
        }),
        text_result(r) == query_outcome("sdk_info"@, *reply),
        r matches Ok(t) ==> t@.len() > 0,
{
    query_reply("sdk_info", reply)
}

/// The result of `sdk_env_create`: the created environment on success.
pub fn sdk_env_create_reply(reply: &SdkReply) -> (r: Result<String, String>)
    ensures
        r is Err <==> reply.is_error,
        !reply.is_error ==> r is Ok && r->Ok_0@ == (if utf8_lossy(reply.output@).len() == 0 {
            "{}"@
        } else {
            utf8_lossy(reply.output@)
        }),
        text_result(r) == env_create_outcome(*reply),
        r matches Ok(t) ==> t@.len() > 0,
{
    if reply.is_error {
        let message = error_message("sdk_env_create", reply);
        Err(append_output(message, reply.output.as_slice()))
    } else {
        Ok(output_text(reply.output.as_slice()))
    }
}

/// The result of `sdk_env_page`: the page of environments on success.
pub fn sdk_env_page_reply(reply: &SdkReply) -> (r: Result<String, String>)
    ensures
        r is Err <==> reply.is_error,
        !reply.is_error ==> r is Ok && r->Ok_0@ == (if utf8_lossy(reply.output@).len() == 0 {
            "{}"@
        } else {
            utf8_lossy(reply.output@)
        }),
        text_result(r) == query_outcome("sdk_env_page"@, *reply),
        r matches Ok(t) ==> t@.len() > 0,
{
    query_reply("sdk_env_page", reply)
}

/// The result of `sdk_shutdown`, which reports only its status code.
pub fn shutdown_reply(code: i32, is_error: bool) -> (r: Result<(), String>)
    ensures
        r is Err <==> is_error,
        unit_result(r) == (if is_error {
            Err("shutdown error: "@ + int_text(code as int))
        } else {
            Ok(())
        }),
{
    if is_error {
        let mut m = String::from_str("shutdown error: ");
        push_int(&mut m, code as i64);
        return Err(m);
    }
    Ok(())
}


// ---------------------------------------------------------------------------
// Laws of the replies
// ---------------------------------------------------------------------------

/// A call that returns nothing fails exactly when the SDK's `sdk_is_error`
/// verdict holds of its code, whatever the code's value.
pub proof fn lemma_command_fails_exactly_on_sdk_error(label: Seq<char>, reply: SdkReply, show_output: bool)
    ensures
        command_outcome(label, reply, show_output) is Err <==> reply.is_error,
        !reply.is_error ==> command_outcome(label, reply, show_output) == Ok::<(), Seq<char>>(()),
{
}

/// A failed call that shows its output reports the SDK's error string when it
/// has one, with the output text after it when there is any.
pub proof fn lemma_command_failure_carries_sdk_text(label: Seq<char>, reply: SdkReply, text: Vec<u8>)
    requires
        reply.is_error,
        reply.error_text == Some(text),
    ensures
        command_outcome(label, reply, false) == Err::<(), Seq<char>>(utf8_lossy(text@)),
        utf8_lossy(reply.output@).len() == 0 ==> command_outcome(label, reply, true) == Err::<(), Seq<char>>(
            utf8_lossy(text@),
        ),
        utf8_lossy(reply.output@).len() > 0 ==> command_outcome(label, reply, true) == Err::<(), Seq<char>>(
            utf8_lossy(text@) + " | result: "@ + utf8_lossy(reply.output@),
        ),
{
}

/// A call whose output is its answer succeeds exactly when the SDK reports no
/// error, and then answers with its output text (`{}` when there is none),
/// whatever the code.
pub proof fn lemma_query_succeeds_exactly_without_sdk_error(label: Seq<char>, reply: SdkReply)
    ensures
        query_outcome(label, reply) is Err <==> reply.is_error,
        !reply.is_error ==> query_outcome(label, reply) == Ok::<Seq<char>, Seq<char>>(
            if utf8_lossy(reply.output@).len() == 0 {
                "{}"@
            } else {
                utf8_lossy(reply.output@)
            },
        ),
        env_create_outcome(reply) is Err <==> reply.is_error,
        !reply.is_error ==> env_create_outcome(reply) == query_outcome("sdk_env_create"@, reply),
{
}

/// Two successful replies with the same output give the same answer, whatever
/// their codes and error strings.
pub proof fn lemma_query_answer_ignores_code(label: Seq<char>, a: SdkReply, b: SdkReply)
    requires
        !a.is_error,
        !b.is_error,
        a.output@ == b.output@,
    ensures
        query_outcome(label, a) == query_outcome(label, b),
        env_create_outcome(a) == env_create_outcome(b),
{
}

/// A failed `sdk_env_create` never hands its output back as the created
/// environment: its error starts with the SDK's message and carries the
/// output after it when there is any.
pub proof fn lemma_env_create_failure_keeps_output(reply: SdkReply)
    requires
        reply.is_error,
    ensures
        env_create_outcome(reply) is Err,
        utf8_lossy(reply.output@).len() > 0 ==> env_create_outcome(reply)->Err_0 == reply_error(
            "sdk_env_create"@,
            reply,
        ) + " | result: "@ + utf8_lossy(reply.output@),
        utf8_lossy(reply.output@).len() == 0 ==> env_create_outcome(reply)->Err_0 == reply_error(
            "sdk_env_create"@,
            reply,
        ),
{
}

// ---------------------------------------------------------------------------
// Laws of the session
// ---------------------------------------------------------------------------

/// The library is loaded at most once: after one load has finished with
/// `Ok`, every later load of the same session fails.
pub proof fn lemma_library_loads_once(
    s: SdkSession,
    first: Result<(), Seq<char>>,
    second: Result<(), Seq<char>>,
)
    requires
        load_end(s, first).1 is Ok,
    ensures
        load_end(load_end(s, first).0, second).1 is Err,
        second is Ok ==> load_end(load_end(s, first).0, second).1 == Err::<(), Seq<char>>(
            "SDK already loaded"@,
        ),
{
}

/// With an application handle, loading is tried once per session: once the
/// handle has been claimed, a later load that attaches one fails before
/// opening the library, however opening went the first time.
pub proof fn lemma_app_handle_claimed_once(s: SdkSession, opened: Result<(), Seq<char>>)
    requires
        load_start(s, true).1 is Ok,
    ensures
        load_start(load_end(load_start(s, true).0, opened).0, true).1 == Err::<(), Seq<char>>(
            "APP_HANDLE already set"@,
        ),
{
}

/// Once a load has finished with `Ok`, every SDK request step hands its
/// request on instead of refusing it.
pub proof fn lemma_loaded_session_admits_requests(
    s: SdkSession,
    opened: Result<(), Seq<char>>,
    request: Seq<char>,
)
    requires
        load_end(s, opened).1 is Ok,
    ensures
        request_outcome(load_end(s, opened).0, request) == Ok::<Seq<char>, Seq<char>>(request),
{
}

/// The `sdk_init` document never holds a NUL or any other control character,
/// so it always converts to a C string.
pub proof fn lemma_init_request_has_no_control_chars(user_sig: Seq<char>, work_dir: Seq<char>, port: u16)
    ensures
        no_control_chars(init_request(user_sig, work_dir, port)),
{
    reveal_strlit("{\"port\":");
    reveal_strlit(",\"userSig\":");
    reveal_strlit(",\"workDir\":");
    reveal_strlit("}");
    let p1 = "{\"port\":"@;
    let p2 = ",\"userSig\":"@;
    let p3 = ",\"workDir\":"@;
    let p4 = "}"@;
    assert(no_control_chars(p1));
    assert(no_control_chars(p2));
    assert(no_control_chars(p3));
    assert(no_control_chars(p4));
    let digits = nat_text(port as nat);
    lemma_nat_text_is_digits(port as nat);
    assert(no_control_chars(digits));
    lemma_json_string_literal_has_no_control_chars(user_sig);
    lemma_json_string_literal_has_no_control_chars(work_dir);
    lemma_concat_no_control_chars(p1, digits);
    lemma_concat_no_control_chars(p1 + digits, p2);
    lemma_concat_no_control_chars(p1 + digits + p2, json_string_literal(user_sig));
    lemma_concat_no_control_chars(p1 + digits + p2 + json_string_literal(user_sig), p3);
    lemma_concat_no_control_chars(
        p1 + digits + p2 + json_string_literal(user_sig) + p3,
        json_string_literal(work_dir),
    );
    lemma_concat_no_control_chars(
        p1 + digits + p2 + json_string_literal(user_sig) + p3 + json_string_literal(work_dir),
        p4,
    );
}

} // verus!
