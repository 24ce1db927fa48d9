//! The conversation with the language model: its errors, the text that each
//! streamed event carries, and the accumulation of the streamed answer.
use vstd::prelude::*;

verus! {

/// The region in which the model is invoked.
pub const MODEL_REGION: &'static str = "eu-central-1";

/// Who speaks in a message sent to the model.
#[derive(Debug)]
pub enum MessageRole {
    User,
}

/// The request that starts a conversation: the model to invoke and one
/// message of the user holding the text.
#[derive(Debug)]
pub struct ModelRequest {
    pub model_id: String,
    pub role: MessageRole,
    pub text: String,
}

/// Builds the request that asks the model `model_id` about `message`, as the
/// user.
pub fn model_request(model_id: &str, message: String) -> (r: ModelRequest)
    ensures
        r.model_id@ == model_id@,
        r.role is User,
        r.text@ == message@,
{
    ModelRequest { model_id: String::from_str(model_id), role: MessageRole::User, text: message }
}

/// A failure to converse with the model, with its reason.
#[derive(Debug)]
pub struct BedrockConverseStreamError(pub String);

/// Why the model refused to start a stream.
#[derive(Debug)]
pub enum ConverseStreamErrorKind {
    ModelTimeoutException,
    ModelNotReadyException,
    Other,
}

/// Why the stream failed while it ran, with the service's message where it
/// gave one.
#[derive(Debug)]
pub enum ConverseStreamOutputErrorKind {
    ValidationException(Option<String>),
    ThrottlingException(Option<String>),
    Other(Option<String>),
}

/// The reason given for a refused stream.
pub open spec fn start_error_reason(kind: ConverseStreamErrorKind) -> Seq<char> {
    match kind {
        ConverseStreamErrorKind::ModelTimeoutException => "Model took too long"@,
        ConverseStreamErrorKind::ModelNotReadyException => "Model is not ready"@,
        ConverseStreamErrorKind::Other => "Unknown"@,
    }
}

/// The reason given when starting a stream failed: the service's refusal
/// where there is one, `Unknown` otherwise.
pub open spec fn send_error_reason(service_error: Option<ConverseStreamErrorKind>) -> Seq<char> {
    match service_error {
        Some(kind) => start_error_reason(kind),
        None => "Unknown"@,
    }
}

/// The service's message, or `fallback` where it gave none.
pub open spec fn message_or(message: Option<String>, fallback: Seq<char>) -> Seq<char> {
    match message {
        Some(m) => m@,
        None => fallback,
    }
}

/// The reason given for a stream that failed while it ran.
pub open spec fn output_error_reason(kind: ConverseStreamOutputErrorKind) -> Seq<char> {
    match kind {
        ConverseStreamOutputErrorKind::ValidationException(m) => message_or(
            m,
            "Unknown ValidationException"@,
        ),
        ConverseStreamOutputErrorKind::ThrottlingException(m) => message_or(
            m,
            "Unknown ThrottlingException"@,
        ),
        ConverseStreamOutputErrorKind::Other(m) => message_or(m, "Unknown StreamOutput exception"@),
    }
}

/// The reason given when receiving from the stream failed: the service's
/// error where there is one, a fixed text otherwise.
pub open spec fn receive_error_reason(service_error: Option<ConverseStreamOutputErrorKind>) -> Seq<
    char,
> {
    match service_error {
        Some(kind) => output_error_reason(kind),
        None => "Unknown error receiving stream"@,
    }
}

/// How a failure to invoke the model `model_id` reads.
pub open spec fn failure_text(model_id: Seq<char>, reason: Seq<char>) -> Seq<char> {
    "Can't invoke '"@ + model_id + "'. Reason: "@ + reason
}

/// Each refusal to start has its own fixed reason, and a request that got no
/// answer from the service reads `Unknown`, as an unrecognised refusal does.
pub proof fn law_start_reasons()
    ensures
        start_error_reason(ConverseStreamErrorKind::ModelTimeoutException) == "Model took too long"@,
        start_error_reason(ConverseStreamErrorKind::ModelNotReadyException) == "Model is not ready"@,
        start_error_reason(ConverseStreamErrorKind::Other) == "Unknown"@,
        send_error_reason(None) == "Unknown"@,
        forall|k: ConverseStreamErrorKind| send_error_reason(Some(k)) == start_error_reason(k),
{
}

/// A broken-off stream reads as the service's own message, unchanged, where
/// it gave one, and as a fixed text naming the kind of failure otherwise; a
/// receive failure without a service error has its own fixed text.
pub proof fn law_stream_failure_reasons(m: String)
    ensures
        output_error_reason(ConverseStreamOutputErrorKind::ValidationException(Some(m))) == m@,
        output_error_reason(ConverseStreamOutputErrorKind::ThrottlingException(Some(m))) == m@,
        output_error_reason(ConverseStreamOutputErrorKind::Other(Some(m))) == m@,
        output_error_reason(ConverseStreamOutputErrorKind::ValidationException(None))
            == "Unknown ValidationException"@,
        output_error_reason(ConverseStreamOutputErrorKind::ThrottlingException(None))
            == "Unknown ThrottlingException"@,
        output_error_reason(ConverseStreamOutputErrorKind::Other(None))
            == "Unknown StreamOutput exception"@,
        receive_error_reason(None) == "Unknown error receiving stream"@,
        forall|k: ConverseStreamOutputErrorKind| receive_error_reason(Some(k)) == output_error_reason(k),
{
}

/// A failure reads `Can't invoke '` (14 characters), the model, `'. Reason: `
/// (11 characters) and the whole reason, unchanged.
pub proof fn law_failure_text_parts(model_id: Seq<char>, reason: Seq<char>)
    ensures
        ({
            let t = failure_text(model_id, reason);
            let n = model_id.len() as int;
            let k = reason.len() as int;
            &&& t.len() == n + k + 25
            &&& t.subrange(0, 14) == "Can't invoke '"@
            &&& t.subrange(14, 14 + n) == model_id
            &&& t.subrange(14 + n, 25 + n) == "'. Reason: "@
            &&& t.subrange(25 + n, 25 + n + k) == reason
        }),
{
    reveal_strlit("Can't invoke '");
    reveal_strlit("'. Reason: ");
    let t = failure_text(model_id, reason);
    let n = model_id.len() as int;
    let k = reason.len() as int;
    let p = "Can't invoke '"@;
    let q = "'. Reason: "@;
    assert(t.subrange(0, 14) =~= p);
    assert(t.subrange(14, 14 + n) =~= model_id);
    assert(t.subrange(14 + n, 25 + n) =~= q);
    assert(t.subrange(25 + n, 25 + n + k) =~= reason);
}

/// A copy of an optional message.
fn copy_message(message: &Option<String>, fallback: &str) -> (r: String)
    ensures
        r@ == message_or(*message, fallback@),
{
    match message {
        Some(m) => m.clone(),
        None => String::from_str(fallback),
    }
}

impl BedrockConverseStreamError {
    /// A failure with the given reason.
    pub fn from_reason(reason: &str) -> (e: BedrockConverseStreamError)
        ensures
            e.0@ == reason@,
    {
        BedrockConverseStreamError(String::from_str(reason))
    }

    /// The failure for a stream that the model refused to start.
    pub fn from_stream_error(kind: &ConverseStreamErrorKind) -> (e: BedrockConverseStreamError)
        ensures
            e.0@ == start_error_reason(*kind),
    {
        let reason = match kind {
            ConverseStreamErrorKind::ModelTimeoutException => "Model took too long",
            ConverseStreamErrorKind::ModelNotReadyException => "Model is not ready",
            ConverseStreamErrorKind::Other => "Unknown",
        };
        BedrockConverseStreamError(String::from_str(reason))
    }

    /// The failure for a request to start a stream that was not sent through:
    /// the service's refusal where it answered with one, `Unknown` otherwise.
    pub fn from_send_error(service_error: &Option<ConverseStreamErrorKind>) -> (e:
        BedrockConverseStreamError)
        ensures
            e.0@ == send_error_reason(*service_error),
    {
        match service_error {
            Some(kind) => Self::from_stream_error(kind),
            None => BedrockConverseStreamError(String::from_str("Unknown")),
        }
    }

    /// The failure for a stream that broke off while it ran.
    pub fn from_stream_output_error(kind: &ConverseStreamOutputErrorKind) -> (e:
        BedrockConverseStreamError)
        ensures
            e.0@ == output_error_reason(*kind),
    {
        match kind {
            ConverseStreamOutputErrorKind::ValidationException(m) => BedrockConverseStreamError(
                copy_message(m, "Unknown ValidationException"),
            ),
            ConverseStreamOutputErrorKind::ThrottlingException(m) => BedrockConverseStreamError(
                copy_message(m, "Unknown ThrottlingException"),
            ),
            ConverseStreamOutputErrorKind::Other(m) => BedrockConverseStreamError(
                copy_message(m, "Unknown StreamOutput exception"),
            ),
        }
    }

    /// The failure for an error while receiving from the stream.
    pub fn from_receive_error(service_error: &Option<ConverseStreamOutputErrorKind>) -> (e:
        BedrockConverseStreamError)
        ensures
            e.0@ == receive_error_reason(*service_error),
    {
        match service_error {
            Some(kind) => Self::from_stream_output_error(kind),
            None => BedrockConverseStreamError(String::from_str("Unknown error receiving stream")),
        }
    }

    /// How the failure reads: `Can't invoke '<model>'. Reason: <reason>`,
    /// where `model_id` names the model that was invoked.
    pub fn display_message(&self, model_id: &str) -> (m: String)
        ensures
            m@ == failure_text(model_id@, self.0@),
    {
        let mut m = String::from_str("Can't invoke '");
        m.append(model_id);
        m.append("'. Reason: ");
        m.append(self.0.as_str());
        m
    }
}

} // verus!
