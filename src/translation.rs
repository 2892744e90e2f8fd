use vstd::prelude::*;
use crate::config::{AppConfig, PlatformType};
use crate::error::TranslateError;
use crate::history::{is_hyphenated_id, StoredRow, TranslationRecord};
use crate::json::JsonValue;
use crate::lang::{code_of, Lang};
use crate::request::{build_request, is_request_for, RequestPayload};
use crate::response::{cleaned_text, parse_response, reply_text};

verus! {

/// One translation on its way: what was asked, and the platform and model
/// of the configuration it started with.
pub struct TranslationJob {
    pub text: String,
    pub target: Lang,
    pub source: Lang,
    pub platform: PlatformType,
    pub model: String,
}

/// The request to send: where, with which authorization header, and the body.
pub struct Outgoing {
    pub url: String,
    pub authorization: String,
    pub payload: RequestPayload,
}

/// What the transport brought back.
pub enum Delivery {
    /// The request could not be sent, or its reply could not be read.
    Failed(String),
    /// The backend replied with `status`; `body` is the reply decoded as
    /// JSON, or `None` when it does not decode.
    Replied { status: u16, body: Option<JsonValue> },
}

/// A translation waiting to be recorded: the row to insert and the text to
/// hand back once it is in.
pub struct PendingSave {
    pub row: StoredRow,
    pub translation: String,
}

/// `status` is a success status.
pub open spec fn is_success(status: u16) -> bool {
    200 <= status <= 299
}

/// The transport failed: nothing came back, or a status other than success.
pub open spec fn transport_failed(d: Delivery) -> bool {
    match d {
        Delivery::Failed(_) => true,
        Delivery::Replied { status, .. } => !is_success(status),
    }
}

/// `r` is what the job does with delivery `d`: a transport failure and a
/// reply without the platform's text field are errors of their stage; a
/// good reply becomes one row holding the input, the cleaned translation
/// and the two language codes under a fresh id.
pub open spec fn delivery_outcome(job: TranslationJob, d: Delivery, r: Result<
    PendingSave,
    TranslateError,
>) -> bool {
    match d {
        Delivery::Failed(msg) => r == Err::<PendingSave, TranslateError>(
            TranslateError::Transport(msg),
        ),
        Delivery::Replied { status, body } => if !is_success(status) {
            r == Err::<PendingSave, TranslateError>(TranslateError::HttpStatus(status))
        } else {
            match body {
                None => r == Err::<PendingSave, TranslateError>(
                    TranslateError::Parse(job.platform),
                ),
                Some(b) => match reply_text(b, job.platform) {
                    None => r == Err::<PendingSave, TranslateError>(
                        TranslateError::Parse(job.platform),
                    ),
                    Some(t) => r is Ok && r->Ok_0.translation@ == cleaned_text(
                        t,
                        job.platform,
                        job.model@,
                    ) && r->Ok_0.row.translated_text@ == r->Ok_0.translation@
                        && r->Ok_0.row.source_text@ == job.text@ && r->Ok_0.row.source_lang@
                        == code_of(job.source) && r->Ok_0.row.target_lang@ == code_of(job.target)
                        && is_hyphenated_id(r->Ok_0.row.id@),
                },
            }
        },
    }
}

/// `r` is what the job returns once the write of `p` reported `saved`.
pub open spec fn save_outcome(p: PendingSave, saved: Result<(), String>, r: Result<
    String,
    TranslateError,
>) -> bool {
    match saved {
        Ok(()) => r is Ok && r->Ok_0@ == p.translation@,
        Err(e) => r == Err::<String, TranslateError>(TranslateError::Persistence(e)),
    }
}

/// The value of the authorization header for `key`.
pub open spec fn bearer_of(key: Seq<char>) -> Seq<char> {
    "Bearer "@ + key
}

impl TranslationJob {
    /// Starts translating `text` from `source` into `target` with a snapshot
    /// of the configuration: the job, and the request to send to the
    /// configured endpoint with the key as a bearer token.
    pub fn start(config: &AppConfig, text: &str, target: Lang, source: Lang) -> (r: (
        TranslationJob,
        Outgoing,
    ))
        ensures
            r.0.text@ == text@,
            r.0.target == target,
            r.0.source == source,
            r.0.platform == config.platform,
            r.0.model@ == config.model_name@,
            r.1.url@ == config.api_url@,
            r.1.authorization@ == bearer_of(config.api_key@),
            is_request_for(r.1.payload, *config, text@, target, source),
    {
        let payload = build_request(text, target, source, config);
        let authorization = String::from_str("Bearer ").concat(config.api_key.as_str());
        let job = TranslationJob {
            text: String::from_str(text),
            target,
            source,
            platform: config.platform,
            model: config.model_name.clone(),
        };
        (job, Outgoing { url: config.api_url.clone(), authorization, payload })
    }

    /// What follows the transport: the row to record and the translation,
    /// or the error of the stage that failed.
    pub fn on_delivery(&self, delivery: Delivery) -> (r: Result<PendingSave, TranslateError>)
        ensures
            delivery_outcome(*self, delivery, r),
    {
        match delivery {
            Delivery::Failed(msg) => Err(TranslateError::Transport(msg)),
            Delivery::Replied { status, body } => {
                if status < 200 || status > 299 {
                    return Err(TranslateError::HttpStatus(status));
                }
                let body = match body {
                    Some(b) => b,
                    None => return Err(TranslateError::Parse(self.platform)),
                };
                let translation = match parse_response(&body, self.platform, self.model.as_str()) {
                    Ok(t) => t,
                    Err(e) => return Err(e),
                };
                let record = TranslationRecord::create(
                    self.text.as_str(),
                    translation.as_str(),
                    self.source,
                    self.target,
                );
                match record.to_row() {
                    Ok(row) => Ok(PendingSave { row, translation }),
                    Err(e) => Err(e),
                }
            },
        }
    }

    /// What follows the write of the row: the translation, or the
    /// persistence error when the write failed.
    pub fn on_saved(&self, pending: PendingSave, saved: Result<(), String>) -> (r: Result<
        String,
        TranslateError,
    >)
        ensures
            save_outcome(pending, saved, r),
    {
        match saved {
            Ok(()) => Ok(pending.translation),
            Err(e) => Err(TranslateError::Persistence(e)),
        }
    }
}

/// A failed transport ends the translation with an error of the transport
/// stage, and leaves no row to record.
pub proof fn transport_failure_records_nothing(
    job: TranslationJob,
    d: Delivery,
    r: Result<PendingSave, TranslateError>,
)
    requires
        transport_failed(d),
        delivery_outcome(job, d, r),
    ensures
        r is Err,
        r->Err_0 is Transport || r->Err_0 is HttpStatus,
{
}

/// A translation that succeeds has recorded exactly one row, the one that
/// the delivery step produced, and that row holds the input text, the
/// returned translation and the codes of the two languages.
pub proof fn success_records_its_translation(
    job: TranslationJob,
    d: Delivery,
    pending: Result<PendingSave, TranslateError>,
    saved: Result<(), String>,
    r: Result<String, TranslateError>,
)
    requires
        delivery_outcome(job, d, pending),
        pending is Ok,
        save_outcome(pending->Ok_0, saved, r),
        r is Ok,
    ensures
        !transport_failed(d),
        saved is Ok,
        pending->Ok_0.row.source_text@ == job.text@,
        pending->Ok_0.row.translated_text@ == r->Ok_0@,
        pending->Ok_0.row.source_lang@ == code_of(job.source),
        pending->Ok_0.row.target_lang@ == code_of(job.target),
{
}

} // verus!
