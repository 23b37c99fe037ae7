//! The decision core of the download route.  The route runs in phases:
//! validation of the URL — well-formedness and the secure scheme — in front
//! of any subprocess, a filename phase whose outcome
//! decides between failure kinds and the streaming command, a streaming
//! phase whose spawn outcome decides between failure and the response head,
//! and a detached supervisor that decides from the wait outcome whether the
//! subprocess must be killed.  The surrounding process spawns, waits and
//! streams; every decision is made here.

use vstd::prelude::*;
use crate::config::ApiConfig;
use crate::dto::FieldIssue;
use crate::dto::ValidationIssues;
use crate::errors::ApiError;
use crate::text::is_space_char;
use crate::text::lemma_trim_empty_iff_all_space;
use crate::text::trim_spec;
use crate::text::trim_str;

verus! {

/// Whether a string parses as a well-formed absolute URL.
pub uninterp spec fn url_ok(s: Seq<char>) -> bool;

/// Relies on validator's `ValidateUrl` for `str`: true exactly when
/// `url::Url::parse` accepts the string, a pure function of the characters
/// alone.
#[verifier::external_body]
fn validate_url_str(s: &str) -> (r: bool)
    ensures
        r == url_ok(s@),
{
    validator::ValidateUrl::validate_url(&s)
}

/// The UTF-8 decoding of a byte sequence with invalid sequences substituted.
pub uninterp spec fn lossy_utf8(bytes: Seq<u8>) -> Seq<char>;

/// Relies on `String::from_utf8_lossy`: decodes the bytes as UTF-8 and
/// substitutes the replacement character for invalid sequences instead of
/// failing, a pure function of the bytes alone; no bytes decode to no
/// characters.
#[verifier::external_body]
fn lossy_decode(bytes: &Vec<u8>) -> (r: String)
    ensures
        r@ == lossy_utf8(bytes@),
        bytes@.len() == 0 ==> r@.len() == 0,
{
    String::from_utf8_lossy(bytes).into_owned()
}

/// The media type guessed from a filename.
pub uninterp spec fn mime_for(name: Seq<char>) -> Seq<char>;

/// Relies on `mime_guess::from_path` and `first_or_octet_stream`: the media
/// type looked up from the filename's extension, `application/octet-stream`
/// when the extension is unknown, a pure lookup from the filename alone.
#[verifier::external_body]
fn guess_mime(name: &str) -> (r: String)
    ensures
        r@ == mime_for(name@),
{
    mime_guess::from_path(name).first_or_octet_stream().to_string()
}

/// The query of a download request: the URL of the media to fetch.
#[derive(Debug, Clone)]
pub struct CreateFigureRequest {
    pub url: String,
}

/// Whether `s` starts with the secure scheme prefix `https://`.  Letter case
/// is ignored in the scheme letters, as the URL standard compares schemes
/// without regard to case.
pub open spec fn has_https_prefix(s: Seq<char>) -> bool {
    s.len() >= 8 && (s[0] == 'h' || s[0] == 'H') && (s[1] == 't' || s[1] == 'T') && (s[2] == 't'
        || s[2] == 'T') && (s[3] == 'p' || s[3] == 'P') && (s[4] == 's' || s[4] == 'S') && s[5]
        == ':' && s[6] == '/' && s[7] == '/'
}

/// Checks the secure-scheme prefix of `url`.
pub fn is_https_url(url: &str) -> (r: bool)
    ensures
        r == has_https_prefix(url@),
{
    if url.unicode_len() < 8 {
        return false;
    }
    let c0 = url.get_char(0);
    let c1 = url.get_char(1);
    let c2 = url.get_char(2);
    let c3 = url.get_char(3);
    let c4 = url.get_char(4);
    (c0 == 'h' || c0 == 'H') && (c1 == 't' || c1 == 'T') && (c2 == 't' || c2 == 'T') && (c3 == 'p'
        || c3 == 'P') && (c4 == 's' || c4 == 'S') && url.get_char(5) == ':' && url.get_char(6)
        == '/' && url.get_char(7) == '/'
}

impl CreateFigureRequest {
    /// Validates the request's fields: `url` must be a well-formed absolute
    /// URL, and its scheme must be the secure one — any other scheme, plain
    /// HTTP included, is a field-level failure here, before any subprocess
    /// can be involved.  On failure the one failing field is reported by
    /// name, with a message naming which requirement it missed.
    pub fn validate(&self) -> (r: Result<(), ValidationIssues>)
        ensures
            r is Ok <==> (url_ok(self.url@) && has_https_prefix(self.url@)),
            (r matches Err(v) ==> (v.issues@.len() == 1 && v.issues@[0].field@ == "url"@)),
            (!url_ok(self.url@) ==> (r matches Err(v) && v.issues@[0].message@ == "invalid URL"@)),
            ((url_ok(self.url@) && !has_https_prefix(self.url@)) ==> (r matches Err(v)
                && v.issues@[0].message@ == "URL scheme must be https"@)),
    {
        if !validate_url_str(self.url.as_str()) {
            let mut issues: Vec<FieldIssue> = Vec::new();
            issues.push(
                FieldIssue {
                    field: String::from_str("url"),
                    message: String::from_str("invalid URL"),
                },
            );
            Err(ValidationIssues { issues })
        } else if !is_https_url(self.url.as_str()) {
            let mut issues: Vec<FieldIssue> = Vec::new();
            issues.push(
                FieldIssue {
                    field: String::from_str("url"),
                    message: String::from_str("URL scheme must be https"),
                },
            );
            Err(ValidationIssues { issues })
        } else {
            Ok(())
        }
    }
}

/// A subprocess invocation: the program to run and its arguments, in order.
#[derive(Debug, Clone)]
pub struct CommandSpec {
    pub program: String,
    pub args: Vec<String>,
}

/// The argument list of a command, character sequence by character sequence.
pub open spec fn args_view(args: Seq<String>) -> Seq<Seq<char>> {
    args.map_values(|a: String| a@)
}

/// The format selector handed to the tool: best MP4 video plus audio, then
/// best MP4, then best overall.
pub open spec fn format_selector() -> Seq<char> {
    "bestvideo[ext=mp4]+bestaudio[ext=m4a]/best[ext=mp4]/best"@
}

/// The arguments of the filename phase: quiet, print only the filename,
/// restrict it to a safe character set, select the format, cap the size, and
/// pass the URL after the end-of-options marker, so that a URL shaped like a
/// flag cannot inject options.
pub open spec fn filename_args(max_file_size: Seq<char>, url: Seq<char>) -> Seq<Seq<char>> {
    seq![
        "-q"@,
        "--print"@,
        "filename"@,
        "--restrict-filenames"@,
        "-f"@,
        format_selector(),
        "--max-filesize"@,
        max_file_size,
        "--"@,
        url,
    ]
}

/// The arguments of the streaming phase: quiet, write the media to standard
/// output, same format, same size cap, same protected URL position.
pub open spec fn stream_args(max_file_size: Seq<char>, url: Seq<char>) -> Seq<Seq<char>> {
    seq![
        "-q"@,
        "-o"@,
        "-"@,
        "-f"@,
        format_selector(),
        "--max-filesize"@,
        max_file_size,
        "--"@,
        url,
    ]
}

/// A defensive re-check in front of the filename phase.  Validation has
/// already refused an insecure URL with field-level detail; a URL that
/// nevertheless arrives here without the secure scheme is rejected as a bad
/// request, and no command to spawn is produced for it.  A secure URL yields
/// exactly the filename-phase command.
pub fn begin_download(config: &ApiConfig, url: &String) -> (r: Result<CommandSpec, ApiError>)
    ensures
        r is Ok <==> has_https_prefix(url@),
        (r matches Ok(c) ==> (c.program@ == config.yt_dlp_path@ && args_view(c.args@)
            == filename_args(config.max_file_size@, url@))),
        (r matches Err(e) ==> (e is CannotDownloadBadRequest && e.spec_status() == 400)),
{
    if !is_https_url(url.as_str()) {
        return Err(ApiError::CannotDownloadBadRequest);
    }
    let mut args: Vec<String> = Vec::new();
    args.push(String::from_str("-q"));
    args.push(String::from_str("--print"));
    args.push(String::from_str("filename"));
    args.push(String::from_str("--restrict-filenames"));
    args.push(String::from_str("-f"));
    args.push(String::from_str("bestvideo[ext=mp4]+bestaudio[ext=m4a]/best[ext=mp4]/best"));
    args.push(String::from_str("--max-filesize"));
    args.push(config.max_file_size.clone());
    args.push(String::from_str("--"));
    args.push(url.clone());
    let c = CommandSpec { program: config.yt_dlp_path.clone(), args };
    proof {
        assert(args_view(c.args@) =~= filename_args(config.max_file_size@, url@));
    }
    Ok(c)
}

/// What the filename phase came to: the tool ran to completion with this
/// standard output, the spawn or the wait failed, or the deadline passed
/// first.
pub enum ProcOutcome {
    Completed(Vec<u8>),
    SpawnFailed,
    TimedOut,
}

/// Decides the request's fate from the filename-phase outcome.  A timeout or
/// a spawn failure ends the request with the matching failure kind.  The
/// output of a completed run is decoded permissively and trimmed: if nothing
/// remains, the tool recognized no media and the request ends as a bad
/// request, with no streaming command produced; otherwise the trimmed
/// filename is returned together with the streaming-phase command.
pub fn filename_phase_result(config: &ApiConfig, url: &String, outcome: ProcOutcome) -> (r: Result<
    (String, CommandSpec),
    ApiError,
>)
    ensures
        (outcome is TimedOut ==> (r matches Err(e) && e is CannotDownloadTimeout && e.spec_status()
            == 504)),
        (outcome is SpawnFailed ==> (r matches Err(e) && e is CannotDownloadInternal
            && e.spec_status() == 500)),
        (outcome matches ProcOutcome::Completed(out) ==> {
            let name = trim_spec(lossy_utf8(out@));
            &&& (name.len() == 0 ==> (r matches Err(e) && e is CannotDownloadBadRequest
                && e.spec_status() == 400))
            &&& (name.len() > 0 ==> (r matches Ok(p) && p.0@ == name && p.1.program@
                == config.yt_dlp_path@ && args_view(p.1.args@) == stream_args(
                config.max_file_size@,
                url@,
            )))
        }),
{
    match outcome {
        ProcOutcome::TimedOut => Err(ApiError::CannotDownloadTimeout),
        ProcOutcome::SpawnFailed => Err(ApiError::CannotDownloadInternal),
        ProcOutcome::Completed(out) => {
            let decoded = lossy_decode(&out);
            let filename = trim_str(decoded.as_str());
            if filename.as_str().is_empty() {
                Err(ApiError::CannotDownloadBadRequest)
            } else {
                let mut args: Vec<String> = Vec::new();
                args.push(String::from_str("-q"));
                args.push(String::from_str("-o"));
                args.push(String::from_str("-"));
                args.push(String::from_str("-f"));
                args.push(
                    String::from_str("bestvideo[ext=mp4]+bestaudio[ext=m4a]/best[ext=mp4]/best"),
                );
                args.push(String::from_str("--max-filesize"));
                args.push(config.max_file_size.clone());
                args.push(String::from_str("--"));
                args.push(url.clone());
                let c = CommandSpec { program: config.yt_dlp_path.clone(), args };
                proof {
                    assert(args_view(c.args@) =~= stream_args(config.max_file_size@, url@));
                }
                Ok((filename, c))
            }
        },
    }
}

/// An output of which every character is white space resolves to an empty
/// filename, so the filename phase decides it as a bad request and produces
/// no streaming command.
pub proof fn lemma_blank_output_is_no_filename(out: Seq<u8>)
    requires
        forall|i: int| 0 <= i < lossy_utf8(out).len() ==> is_space_char(lossy_utf8(out)[i]),
    ensures
        trim_spec(lossy_utf8(out)).len() == 0,
{
    lemma_trim_empty_iff_all_space(lossy_utf8(out));
}

/// How spawning the streaming subprocess went: the spawn failed, the process
/// started but its standard output could not be captured, or it started with
/// the output pipe in hand.
pub enum SpawnOutcome {
    Failed,
    SpawnedWithoutStdout,
    Spawned,
}

/// The head of the streaming response: the status and the two headers
/// derived from the resolved filename.  The body follows as the subprocess's
/// bytes, forwarded chunk by chunk.
#[derive(Debug, Clone)]
pub struct ResponseHead {
    pub status: u16,
    pub content_type: String,
    pub content_disposition: String,
}

/// Assembles the streaming response from the spawn outcome.  Only a spawn
/// with its output pipe captured succeeds; the response then carries status
/// 200, the media type guessed from the filename, and the attachment
/// disposition naming the filename verbatim — it was restricted upstream to
/// a safe character set, so no escaping is needed.  Any other outcome is a
/// server-side failure.
pub fn stream_phase_result(filename: &String, outcome: &SpawnOutcome) -> (r: Result<
    ResponseHead,
    ApiError,
>)
    ensures
        r is Ok <==> outcome is Spawned,
        (r matches Ok(h) ==> (h.status == 200 && h.content_type@ == mime_for(filename@)
            && h.content_disposition@ == "attachment; filename=\""@ + filename@ + "\""@)),
        (r matches Err(e) ==> (e is CannotDownloadInternal && e.spec_status() == 500)),
{
    match outcome {
        SpawnOutcome::Spawned => {
            let content_type = guess_mime(filename.as_str());
            let mut content_disposition = String::from_str("attachment; filename=\"");
            content_disposition.append(filename.as_str());
            content_disposition.append("\"");
            Ok(ResponseHead { status: 200, content_type, content_disposition })
        },
        SpawnOutcome::SpawnedWithoutStdout => Err(ApiError::CannotDownloadInternal),
        SpawnOutcome::Failed => Err(ApiError::CannotDownloadInternal),
    }
}

/// What waiting on the streaming subprocess yielded: a normal exit within
/// the deadline, a wait failure, or no exit before the deadline.
pub enum WaitOutcome {
    Exited,
    WaitFailed,
    DeadlineExpired,
}

/// What the detached supervisor does in turn: finish silently, report the
/// wait failure, or kill the subprocess and report the timeout.
#[derive(Debug, PartialEq, Eq, Structural)]
pub enum SupervisorAction {
    Finish,
    ReportFailure,
    KillProcess,
}

/// The timeout supervisor's decision: the subprocess is killed exactly when
/// the download deadline expired, a wait failure is only reported, and a
/// normal exit needs no action.  Bytes already delivered are unaffected
/// either way; the supervisor never touches the response.
pub fn supervisor_decision(outcome: &WaitOutcome) -> (a: SupervisorAction)
    ensures
        a is KillProcess <==> outcome is DeadlineExpired,
        a is ReportFailure <==> outcome is WaitFailed,
        a is Finish <==> outcome is Exited,
{
    match outcome {
        WaitOutcome::Exited => SupervisorAction::Finish,
        WaitOutcome::WaitFailed => SupervisorAction::ReportFailure,
        WaitOutcome::DeadlineExpired => SupervisorAction::KillProcess,
    }
}

} // verus!
