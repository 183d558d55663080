use vstd::prelude::*;
use vstd::string::*;

use url::{ParseError, Url};

verus! {

/// The page the full-mode window loads: the local dev server of the web
/// app in debug builds, the production web app at wellwon.app otherwise.
pub open spec fn spec_full_mode_url(debug: bool) -> Seq<char> {
    if debug {
        "http://localhost:3005/chat"@
    } else {
        "https://wellwon.app/chat"@
    }
}

/// Base URL of the full-mode window; `debug` is whether this is a debug build.
pub fn full_mode_url(debug: bool) -> (url: &'static str)
    ensures
        url@ == spec_full_mode_url(debug),
{
    if debug {
        "http://localhost:3005/chat"
    } else {
        "https://wellwon.app/chat"
    }
}

/// The page of the bundled compact UI: the frontend dev server in debug
/// builds, the app's own asset protocol otherwise.
pub open spec fn spec_compact_mode_url(debug: bool) -> Seq<char> {
    if debug {
        "http://localhost:1420/"@
    } else {
        "tauri://localhost/"@
    }
}

/// Base URL of the compact panel; `debug` is whether this is a debug build.
pub fn compact_mode_url(debug: bool) -> (url: &'static str)
    ensures
        url@ == spec_compact_mode_url(debug),
{
    if debug {
        "http://localhost:1420/"
    } else {
        "tauri://localhost/"
    }
}

#[verifier::external_type_specification]
#[verifier::external_body]
pub struct ExUrl(Url);

#[verifier::external_type_specification]
#[verifier::external_body]
pub struct ExParseError(ParseError);

/// What `url::Url::parse` gives for the text `input`.
pub uninterp spec fn url_parse(input: Seq<char>) -> Result<Url, ParseError>;

/// Calls `url::Url::parse`. Trusted to be a function of the text alone
/// (the same text always parses to the same URL or fails with the same
/// error); which texts parse, and to what, is left to the `url` crate.
#[verifier::external_body]
fn parse_url(input: &str) -> (parsed: Result<Url, ParseError>)
    ensures
        parsed == url_parse(input@),
{
    Url::parse(input)
}

/// A navigation target whose text is not a valid URL.
pub struct InvalidUrl {
    pub cause: ParseError,
}

/// The navigation target that a parse outcome gives.
pub open spec fn spec_navigation_target(parsed: Result<Url, ParseError>) -> Result<Url, InvalidUrl> {
    match parsed {
        Ok(u) => Ok(u),
        Err(e) => Err(InvalidUrl { cause: e }),
    }
}

/// The parsed navigation target for the URL text `text`.
pub open spec fn spec_target(text: Seq<char>) -> Result<Url, InvalidUrl> {
    spec_navigation_target(url_parse(text))
}

/// The navigation target for a parse outcome: the URL itself, or the parse
/// error reported as an invalid target.
pub fn navigation_target(parsed: Result<Url, ParseError>) -> (t: Result<Url, InvalidUrl>)
    ensures
        t == spec_navigation_target(parsed),
{
    match parsed {
        Ok(u) => Ok(u),
        Err(e) => Err(InvalidUrl { cause: e }),
    }
}

fn target(text: &str) -> (t: Result<Url, InvalidUrl>)
    ensures
        t == spec_target(text@),
{
    navigation_target(parse_url(text))
}

/// Where the full-mode window navigates: [`full_mode_url`], parsed.
pub fn full_mode_target(debug: bool) -> (t: Result<Url, InvalidUrl>)
    ensures
        t == spec_target(spec_full_mode_url(debug)),
{
    target(full_mode_url(debug))
}

/// Where the compact panel navigates: [`compact_mode_url`], parsed.
pub fn compact_mode_target(debug: bool) -> (t: Result<Url, InvalidUrl>)
    ensures
        t == spec_target(spec_compact_mode_url(debug)),
{
    target(compact_mode_url(debug))
}

/// The operating system the shell runs on, as far as the user agent cares.
#[derive(Clone, Copy, Debug, PartialEq, Eq, Structural)]
pub enum HostOs {
    MacOs,
    Windows,
    /// Linux and the rest.
    Other,
}

/// The browser user agent the webview presents on `os`, so that the web
/// app's servers and firewall treat the shell as an ordinary browser.
pub open spec fn spec_base_user_agent(os: HostOs) -> Seq<char> {
    match os {
        HostOs::MacOs => "Mozilla/5.0 (Macintosh; Intel Mac OS X 14_0) AppleWebKit/605.1.15 (KHTML, like Gecko) Version/17.0 Safari/605.1.15"@,
        HostOs::Windows => "Mozilla/5.0 (Windows NT 10.0; Win64; x64) AppleWebKit/537.36 (KHTML, like Gecko) Chrome/120.0.0.0 Safari/537.36"@,
        HostOs::Other => "Mozilla/5.0 (X11; Linux x86_64) AppleWebKit/537.36 (KHTML, like Gecko) Chrome/120.0.0.0 Safari/537.36"@,
    }
}

/// The base browser user agent for `os`.
pub fn base_user_agent(os: HostOs) -> (ua: &'static str)
    ensures
        ua@ == spec_base_user_agent(os),
{
    match os {
        HostOs::MacOs => "Mozilla/5.0 (Macintosh; Intel Mac OS X 14_0) AppleWebKit/605.1.15 (KHTML, like Gecko) Version/17.0 Safari/605.1.15",
        HostOs::Windows => "Mozilla/5.0 (Windows NT 10.0; Win64; x64) AppleWebKit/537.36 (KHTML, like Gecko) Chrome/120.0.0.0 Safari/537.36",
        HostOs::Other => "Mozilla/5.0 (X11; Linux x86_64) AppleWebKit/537.36 (KHTML, like Gecko) Chrome/120.0.0.0 Safari/537.36",
    }
}

/// The user agent of the shell: the base agent for `os` tagged with
/// `WellWonDesktop/<version>`, by which the servers recognise the desktop
/// client.
pub fn user_agent(os: HostOs, version: &str) -> (ua: String)
    ensures
        ua@ == spec_base_user_agent(os) + " WellWonDesktop/"@ + version@,
{
    let mut ua = String::from_str(base_user_agent(os));
    ua.append(" WellWonDesktop/");
    ua.append(version);
    ua
}

} // verus!
