//! Process-wide configuration.  The surrounding process reads a
//! configuration source once at startup and hands the raw values in; the
//! library checks that every required value is present and builds the
//! immutable configuration every request handler shares.

use vstd::prelude::*;

verus! {

/// The configuration of the service: where to listen, where the extraction
/// tool lives, the size ceiling passed to the tool, and the two phase
/// deadlines in seconds.  Read once, never mutated.
#[derive(Debug, Clone)]
pub struct ApiConfig {
    pub server_url: String,
    pub max_file_size: String,
    pub yt_dlp_path: String,
    pub fetch_filename_timeout: u64,
    pub fetch_media_timeout: u64,
}

/// Assembles the configuration from the values a configuration source
/// yielded, one `Option` per required field.  Succeeds exactly when every
/// field is present; missing configuration is fatal at startup, so the
/// caller stops the process on the error.
pub fn load_config(
    server_url: Option<String>,
    max_file_size: Option<String>,
    yt_dlp_path: Option<String>,
    fetch_filename_timeout: Option<u64>,
    fetch_media_timeout: Option<u64>,
) -> (r: Result<ApiConfig, String>)
    ensures
        r is Ok <==> (server_url is Some && max_file_size is Some && yt_dlp_path is Some
            && fetch_filename_timeout is Some && fetch_media_timeout is Some),
        r matches Ok(c) ==> {
            &&& c.server_url == server_url->0
            &&& c.max_file_size == max_file_size->0
            &&& c.yt_dlp_path == yt_dlp_path->0
            &&& c.fetch_filename_timeout == fetch_filename_timeout->0
            &&& c.fetch_media_timeout == fetch_media_timeout->0
        },
        r matches Err(m) ==> m@ == "configuration is missing required values"@,
{
    match (server_url, max_file_size, yt_dlp_path, fetch_filename_timeout, fetch_media_timeout) {
        (Some(server_url), Some(max_file_size), Some(yt_dlp_path), Some(fetch_filename_timeout),
            Some(fetch_media_timeout)) => Ok(
            ApiConfig {
                server_url,
                max_file_size,
                yt_dlp_path,
                fetch_filename_timeout,
                fetch_media_timeout,
            },
        ),
        _ => Err(String::from_str("configuration is missing required values")),
    }
}

} // verus!
