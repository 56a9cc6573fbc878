//! Where a navigation inside a webview goes.
use vstd::prelude::*;
use crate::text::same_text;

verus! {

/// The site that both windows show.
pub const CHATGPT_URL: &'static str = "https://chatgpt.com";

/// The scheme of the site's pages.
pub const CHATGPT_SCHEME: &'static str = "https";

/// The host of the site's pages.
pub const CHATGPT_HOST: &'static str = "chatgpt.com";

/// What happens to a navigation request of a webview.
#[derive(Debug, PartialEq, Eq, Structural, Clone, Copy)]
pub enum Navigation {
    /// The webview follows the link.
    StayInApp,
    /// The link is handed to the system browser and the webview stays put.
    OpenInBrowser,
}

/// Whether a URL with this scheme and host is a page of the ChatGPT site:
/// `https` on exactly the host `chatgpt.com`. A host that merely begins
/// with `chatgpt.com` (such as `chatgpt.com.example.org`) is another site.
pub open spec fn is_site_page(scheme: Seq<char>, host: Option<Seq<char>>) -> bool {
    scheme == CHATGPT_SCHEME@ && host == Some(CHATGPT_HOST@)
}

/// The decision for a URL with this scheme and host when external links are
/// (or are not) to be opened in the browser.
pub open spec fn navigation_decision(
    open_links_in_browser: bool,
    scheme: Seq<char>,
    host: Option<Seq<char>>,
) -> Navigation {
    if open_links_in_browser && !is_site_page(scheme, host) {
        Navigation::OpenInBrowser
    } else {
        Navigation::StayInApp
    }
}

/// The value of an optional host name.
pub open spec fn host_view(host: Option<&str>) -> Option<Seq<char>> {
    match host {
        Some(h) => Some(h@),
        None => None,
    }
}

/// Decides where a navigation goes, given the URL's scheme and host (as a
/// parsed URL reports them; `None` for a URL without a host): links off
/// the ChatGPT site open in the browser when that preference is on;
/// everything else stays in the webview.
pub fn navigation_for(open_links_in_browser: bool, scheme: &str, host: Option<&str>) -> (r: Navigation)
    ensures
        r == navigation_decision(open_links_in_browser, scheme@, host_view(host)),
{
    let site_page = match host {
        Some(h) => same_text(scheme, CHATGPT_SCHEME) && same_text(h, CHATGPT_HOST),
        None => false,
    };
    if open_links_in_browser && !site_page {
        Navigation::OpenInBrowser
    } else {
        Navigation::StayInApp
    }
}

/// Pages of the ChatGPT site always open in the webview, any other host
/// goes to the browser when the preference is on, and with the preference
/// off no link leaves the webview.
pub proof fn lemma_only_site_pages_stay_in_app(
    open_links_in_browser: bool,
    scheme: Seq<char>,
    host: Option<Seq<char>>,
)
    ensures
        is_site_page(scheme, host) ==> navigation_decision(open_links_in_browser, scheme, host)
            == Navigation::StayInApp,
        open_links_in_browser && host != Some(CHATGPT_HOST@) ==> navigation_decision(
            open_links_in_browser,
            scheme,
            host,
        ) == Navigation::OpenInBrowser,
        !open_links_in_browser ==> navigation_decision(open_links_in_browser, scheme, host)
            == Navigation::StayInApp,
        scheme == "https"@ && host == Some("chatgpt.com"@) ==> navigation_decision(
            open_links_in_browser,
            scheme,
            host,
        ) == Navigation::StayInApp,
        open_links_in_browser && scheme != "https"@ ==> navigation_decision(
            open_links_in_browser,
            scheme,
            host,
        ) == Navigation::OpenInBrowser,
        open_links_in_browser && host != Some("chatgpt.com"@) ==> navigation_decision(
            open_links_in_browser,
            scheme,
            host,
        ) == Navigation::OpenInBrowser,
{
}

} // verus!
