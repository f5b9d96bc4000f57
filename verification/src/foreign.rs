//! The calls this library makes into code that Verus does not read. Every
//! contract in this file is taken on trust from the documentation or the
//! source of the function named above it; nothing here is proved.

use crate::listing::timestamp_pattern;
use crate::proxy::has_proxy_scheme;
use crate::sandbox::PathPart;
use vstd::prelude::*;
use vstd::utf8::{decode_utf8, valid_utf8};

verus! {

/// `reqwest::Client`: an HTTP client, ready to send requests.
#[verifier::external_type_specification]
#[verifier::external_body]
pub struct ExClient(reqwest::Client);

/// `reqwest::ClientBuilder`: the settings of a client that is yet to be
/// built.
#[verifier::external_type_specification]
#[verifier::external_body]
pub struct ExClientBuilder(reqwest::ClientBuilder);

/// `reqwest::Proxy`: a proxy that a client can be told to go through.
#[verifier::external_type_specification]
#[verifier::external_body]
pub struct ExProxy(reqwest::Proxy);

/// `reqwest::Error`: why building a client or making a proxy failed.
#[verifier::external_type_specification]
#[verifier::external_body]
pub struct ExTransportError(reqwest::Error);

/// The longest proxy URL, in characters, for which credentials are handed
/// to the HTTP stack.
pub const AUTH_URL_LIMIT: usize = 0x200_0000;

/// The longest user name or password, in characters, that is handed to the
/// HTTP stack.
pub const AUTH_FIELD_LIMIT: usize = 0x100_0000;

/// Whether `reqwest::Proxy::all` accepts `url` as the address of a proxy.
pub uninterp spec fn proxy_url_accepted(url: Seq<char>) -> bool;

/// `reqwest::Proxy::all`: a proxy for all traffic at `url`. Whether the
/// URL is accepted depends on its text alone: it is parsed, with nothing
/// read from the environment.
#[verifier::external_body]
pub(crate) fn proxy_for_all(url: &str) -> (r: Result<reqwest::Proxy, reqwest::Error>)
    ensures
        r is Ok <==> proxy_url_accepted(url@),
{
    reqwest::Proxy::all(url)
}

/// `reqwest::Proxy::all` followed by `reqwest::Proxy::basic_auth` on the
/// proxy it gives. `basic_auth` writes the credentials into the parsed
/// URL and cannot fail, so acceptance is that of `Proxy::all`. It panics
/// on a URL that cannot carry credentials (scheme `file`) and on one whose
/// text outgrows 32-bit offsets; the preconditions keep clear of both.
#[verifier::external_body]
pub(crate) fn proxy_with_basic_auth(url: &str, username: &str, password: &str) -> (r: Result<
    reqwest::Proxy,
    reqwest::Error,
>)
    requires
        has_proxy_scheme(url@),
        url@.len() <= AUTH_URL_LIMIT,
        username@.len() <= AUTH_FIELD_LIMIT,
        password@.len() <= AUTH_FIELD_LIMIT,
    ensures
        r is Ok <==> proxy_url_accepted(url@),
{
    reqwest::Proxy::all(url).map(|proxy| proxy.basic_auth(username, password))
}

/// `reqwest::Client::builder`: a builder with reqwest's defaults.
#[verifier::external_body]
pub(crate) fn client_builder() -> reqwest::ClientBuilder {
    reqwest::Client::builder()
}

/// `reqwest::ClientBuilder::timeout` with a whole number of seconds: the
/// total time a request may take, from connecting to the end of the body.
#[verifier::external_body]
pub(crate) fn builder_timeout(builder: reqwest::ClientBuilder, secs: u64) -> reqwest::ClientBuilder {
    builder.timeout(std::time::Duration::from_secs(secs))
}

/// `reqwest::ClientBuilder::user_agent`: the `User-Agent` header of every
/// request.
#[verifier::external_body]
pub(crate) fn builder_user_agent(
    builder: reqwest::ClientBuilder,
    agent: &str,
) -> reqwest::ClientBuilder {
    builder.user_agent(agent)
}

/// `reqwest::ClientBuilder::proxy`: sends requests through `proxy` and
/// switches the system's proxy settings off.
#[verifier::external_body]
pub(crate) fn builder_proxy(
    builder: reqwest::ClientBuilder,
    proxy: reqwest::Proxy,
) -> reqwest::ClientBuilder {
    builder.proxy(proxy)
}

/// `reqwest::ClientBuilder::no_proxy`: no proxy at all, the system's
/// settings included.
#[verifier::external_body]
pub(crate) fn builder_no_proxy(builder: reqwest::ClientBuilder) -> reqwest::ClientBuilder {
    builder.no_proxy()
}

/// `reqwest::ClientBuilder::build`. It may fail where the TLS backend or
/// the resolver cannot be set up, which depends on the machine: nothing is
/// promised of the outcome.
#[verifier::external_body]
pub(crate) fn builder_build(builder: reqwest::ClientBuilder) -> Result<
    reqwest::Client,
    reqwest::Error,
> {
    builder.build()
}

/// `reqwest::Error`'s `Display`: the error in words.
#[verifier::external_body]
pub(crate) fn transport_error_text(error: &reqwest::Error) -> String {
    error.to_string()
}

/// What `str::to_uppercase` returns for the text `s`: its upper-case
/// equivalent by the Unicode case mapping, which may differ in length.
pub uninterp spec fn uppercase_text(s: Seq<char>) -> Seq<char>;

/// `str::to_uppercase`.
#[verifier::external_body]
pub(crate) fn to_uppercase(s: &str) -> (r: String)
    ensures
        r@ == uppercase_text(s@),
{
    s.to_uppercase()
}

/// What `str::to_lowercase` returns for the text `s`: its lower-case
/// equivalent by the Unicode case mapping.
pub uninterp spec fn lowercase_text(s: Seq<char>) -> Seq<char>;

/// `str::to_lowercase`.
#[verifier::external_body]
pub(crate) fn to_lowercase(s: &str) -> (r: String)
    ensures
        r@ == lowercase_text(s@),
{
    s.to_lowercase()
}

/// `std::str::from_utf8`, the text copied into an owned string. It
/// succeeds exactly on well-formed UTF-8 and then gives the characters
/// that the bytes encode.
#[verifier::external_body]
pub(crate) fn utf8_text(bytes: &[u8]) -> (r: Option<String>)
    ensures
        r is Some <==> valid_utf8(bytes@),
        r matches Some(t) ==> t@ == decode_utf8(bytes@),
{
    std::str::from_utf8(bytes).ok().map(|text| text.to_string())
}

/// What `http::StatusCode`'s `Display` writes for the status `code`: the
/// number, a space and the canonical reason phrase (or a fixed placeholder
/// where the code has none). Meaningful for `100 <= code <= 999`.
pub uninterp spec fn status_line_text(code: int) -> Seq<char>;

/// `http::StatusCode::from_u16` followed by the status code's `Display`.
/// `from_u16` accepts exactly the codes from 100 to 999; for those the
/// text is a function of the code alone.
#[verifier::external_body]
pub(crate) fn status_line(code: u16) -> (r: Option<String>)
    ensures
        r is Some <==> 100 <= code <= 999,
        r matches Some(t) ==> t@ == status_line_text(code as int),
{
    reqwest::StatusCode::from_u16(code).ok().map(|status| status.to_string())
}

/// The kinds of the components that `std::path::Path::components` yields
/// for the path `path`, in their order. Taking a path apart looks at its
/// text alone, never at the disk or the environment; which characters
/// separate components, and what counts as a prefix, is the path syntax
/// of the platform that the library is built for.
pub uninterp spec fn path_parts_of(path: Seq<char>) -> Seq<PathPart>;

/// `std::path::Path::components`, each component by its kind.
#[verifier::external_body]
pub(crate) fn path_parts(path: &str) -> (r: Vec<PathPart>)
    ensures
        r@ == path_parts_of(path@),
{
    std::path::Path::new(path).components().map(
        |component|
            match component {
                std::path::Component::Prefix(_) => PathPart::Prefix,
                std::path::Component::RootDir => PathPart::Root,
                std::path::Component::CurDir => PathPart::Current,
                std::path::Component::ParentDir => PathPart::Parent,
                std::path::Component::Normal(_) => PathPart::Normal,
            },
    ).collect()
}

/// What `std::path::Path::extension` returns for the path `path`: what
/// follows the last dot of the file name, if the name has a dot that is
/// not its first character. It is read off the text of the path alone;
/// which part of a path is the file name is the path syntax of the
/// platform that the library is built for.
pub uninterp spec fn path_extension_of(path: Seq<char>) -> Option<Seq<char>>;

/// `std::path::Path::extension`, as text. The path is made from a string,
/// so its extension is text already and nothing is lost.
#[verifier::external_body]
pub(crate) fn path_extension(path: &str) -> (r: Option<String>)
    ensures
        match r {
            Some(e) => path_extension_of(path@) == Some(e@),
            None => path_extension_of(path@) is None,
        },
{
    std::path::Path::new(path).extension().map(|e| e.to_string_lossy().into_owned())
}

/// `regex::Regex`: a compiled regular expression.
#[verifier::external_type_specification]
#[verifier::external_body]
pub struct ExRegex(regex::Regex);

/// `regex::Error`: why an expression did not compile.
#[verifier::external_type_specification]
#[verifier::external_body]
pub struct ExRegexError(regex::Error);

/// Whether `regex::Regex::new` compiles `pattern`: it is valid and the
/// compiled program stays within the crate's fixed default size limit.
pub uninterp spec fn regex_accepts(pattern: Seq<char>) -> bool;

/// `regex::Regex::new`.
#[verifier::external_body]
pub(crate) fn regex_new(pattern: &str) -> (r: Result<regex::Regex, regex::Error>)
    ensures
        r is Ok <==> regex_accepts(pattern@),
{
    regex::Regex::new(pattern)
}

/// `regex::Regex::is_match`: whether the expression matches anywhere in
/// `text`.
#[verifier::external_body]
pub(crate) fn regex_is_match(regex: &regex::Regex, text: &str) -> bool {
    regex.is_match(text)
}

/// `regex::Error`'s `Display`: the error in words.
#[verifier::external_body]
pub(crate) fn regex_error_text(error: &regex::Error) -> String {
    error.to_string()
}

/// What `chrono` writes, in the format `pattern`, for the moment `secs`
/// seconds after the start of 1970 in UTC; `None` where the moment is
/// outside the range of dates that `chrono` holds.
pub uninterp spec fn utc_timestamp_text(secs: int, pattern: Seq<char>) -> Option<Seq<char>>;

/// `chrono::DateTime::from_timestamp` with no nanoseconds, then
/// `DateTime::format` with `pattern` and the result's `Display`. The
/// moment is taken in UTC, so the text depends on `secs` and `pattern`
/// alone. The pattern is fixed by the precondition: formatting panics on
/// a pattern that `chrono` cannot read.
#[verifier::external_body]
pub(crate) fn utc_timestamp(secs: i64, pattern: &str) -> (r: Option<String>)
    requires
        pattern@ == timestamp_pattern(),
    ensures
        match r {
            Some(text) => utc_timestamp_text(secs as int, pattern@) == Some(text@),
            None => utc_timestamp_text(secs as int, pattern@) is None,
        },
{
    chrono::DateTime::from_timestamp(secs, 0).map(|moment| moment.format(pattern).to_string())
}

} // verus!
