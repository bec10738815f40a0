//! Rules of the dApp browser window: which navigations carry messages for the
//! wallet, what origin a request comes from, how wallet requests are sorted,
//! and the scripts sent to the page.

use vstd::prelude::*;
use vstd::string::{StrSliceExecFns, StringExecFns};
use vstd::utf8::{decode_utf8, valid_utf8};

use crate::text::{base64_decoding, decode_base64, string_from_utf8};

verus! {

/// Host of the navigations by which a dApp page sends a wallet request.
pub const REQUEST_HOST: &'static str = "miden-wallet-request";

/// Host of the navigations by which the confirmation overlay answers.
pub const CONFIRMATION_RESPONSE_HOST: &'static str = "miden-wallet-confirmation-response";

/// Origin reported where the page's address cannot be read.
pub const UNKNOWN_ORIGIN: &'static str = "unknown";

/// The scheme, host and path that the url crate reads from an address, or
/// `None` where it refuses the address.
pub uninterp spec fn url_parts(address: Seq<char>) -> Option<(Seq<char>, Option<Seq<char>>, Seq<char>)>;

/// Relies on url's `Url::parse`, with `scheme`, `host_str` and `path` of the
/// parsed address.
#[verifier::external_body]
fn parse_url(address: &str) -> (r: Option<(String, Option<String>, String)>)
    ensures
        match r {
            None => url_parts(address@) is None,
            Some((scheme, host, path)) => url_parts(address@) matches Some((s, h, p)) && s
                == scheme@ && p == path@ && (h is Some <==> host is Some) && (host matches Some(
                x) ==> h == Some(x@)),
        },
{
    let url = url::Url::parse(address).ok()?;
    Some((url.scheme().to_string(), url.host_str().map(|h| h.to_string()), url.path().to_string()))
}

/// The characters of an optional text.
pub open spec fn text_view(t: Option<&str>) -> Option<Seq<char>> {
    match t {
        Some(x) => Some(x@),
        None => None,
    }
}

/// Whether two texts are equal.
pub fn same_text(a: &str, b: &str) -> (r: bool)
    ensures
        r == (a@ == b@),
{
    a.to_string() == b.to_string()
}

/// Number of leading `/` characters of a text.
pub open spec fn leading_slashes(s: Seq<char>) -> nat
    decreases s.len(),
{
    if s.len() > 0 && s[0] == '/' {
        1 + leading_slashes(s.drop_first())
    } else {
        0
    }
}

/// A text without its leading `/` characters.
pub open spec fn without_leading_slashes(s: Seq<char>) -> Seq<char> {
    s.subrange(leading_slashes(s) as int, s.len() as int)
}

proof fn lemma_leading_slashes(s: Seq<char>, i: int)
    requires
        0 <= i <= s.len(),
        forall|j: int| 0 <= j < i ==> s[j] == '/',
    ensures
        i < s.len() && s[i] != '/' ==> leading_slashes(s) == i,
        i == s.len() ==> leading_slashes(s) == i,
    decreases i,
{
    if i > 0 {
        assert forall|j: int| 0 <= j < i - 1 implies s.drop_first()[j] == '/' by {
            assert(s[j + 1] == '/');
        }
        lemma_leading_slashes(s.drop_first(), i - 1);
    }
}

/// Drops the leading `/` characters of a path.
pub fn trim_leading_slashes(path: &str) -> (r: &str)
    ensures
        r@ == without_leading_slashes(path@),
{
    let n = path.unicode_len();
    let mut i: usize = 0;
    while i < n && path.get_char(i) == '/'
        invariant
            i <= n == path@.len(),
            forall|j: int| 0 <= j < i ==> path@[j] == '/',
        decreases n - i,
    {
        i = i + 1;
    }
    proof {
        lemma_leading_slashes(path@, i as int);
    }
    path.substring_char(i, n)
}

/// The message a navigation path carries: the path, without its leading `/`,
/// read as base64 of UTF-8 text. `None` where it is empty or either reading
/// fails.
pub open spec fn carried_message(path: Seq<char>) -> Option<Seq<char>> {
    let body = without_leading_slashes(path);
    if body.len() == 0 {
        None
    } else {
        match base64_decoding(body) {
            Some(bytes) => if valid_utf8(bytes) {
                Some(decode_utf8(bytes))
            } else {
                None
            },
            None => None,
        }
    }
}

/// Reads the message a navigation path carries.
pub fn read_carried_message(path: &str) -> (r: Option<String>)
    ensures
        r is Some <==> carried_message(path@) is Some,
        r matches Some(m) ==> carried_message(path@) == Some(m@),
{
    let body = trim_leading_slashes(path);
    if body.unicode_len() == 0 {
        return None;
    }
    match decode_base64(body) {
        Ok(bytes) => string_from_utf8(bytes),
        Err(_) => None,
    }
}

/// What the browser does with a navigation of the dApp window.
#[derive(Debug, PartialEq, Eq)]
pub enum Navigation {
    /// An ordinary navigation: let it happen.
    Allow,
    /// A wallet-bound navigation whose message could not be read: stop it.
    Block,
    /// Stop it and pass this wallet request to the wallet.
    WalletRequest(String),
    /// Stop it and pass this confirmation answer to the wallet.
    ConfirmationResponse(String),
}

/// What a navigation to an address with this host and path does.
pub open spec fn navigation_route(host: Option<Seq<char>>, path: Seq<char>) -> Option<
    (bool, Option<Seq<char>>),
> {
    match host {
        Some(h) => if h == REQUEST_HOST@ {
            Some((true, carried_message(path)))
        } else if h == CONFIRMATION_RESPONSE_HOST@ {
            Some((false, carried_message(path)))
        } else {
            None
        },
        None => None,
    }
}

/// Sorts a navigation by the host and path of its address. Navigations to
/// the request host carry wallet requests, those to the confirmation host
/// carry answers of the overlay; both are stopped, and blocked outright where
/// their message cannot be read. Anything else is allowed.
pub fn route_by_host(host: Option<&str>, path: &str) -> (r: Navigation)
    ensures
        match navigation_route(text_view(host), path@) {
            None => r == Navigation::Allow,
            Some((_, None)) => r == Navigation::Block,
            Some((true, Some(m))) => r matches Navigation::WalletRequest(x) && x@ == m,
            Some((false, Some(m))) => r matches Navigation::ConfirmationResponse(x) && x@ == m,
        },
{
    let h = match host {
        Some(h) => h,
        None => {
            return Navigation::Allow;
        },
    };
    if same_text(h, REQUEST_HOST) {
        match read_carried_message(path) {
            Some(m) => Navigation::WalletRequest(m),
            None => Navigation::Block,
        }
    } else if same_text(h, CONFIRMATION_RESPONSE_HOST) {
        match read_carried_message(path) {
            Some(m) => Navigation::ConfirmationResponse(m),
            None => Navigation::Block,
        }
    } else {
        Navigation::Allow
    }
}

/// Sorts a navigation of the dApp window by its address; an address that
/// cannot be read is allowed.
pub fn route_navigation(address: &str) -> (r: Navigation)
    ensures
        match url_parts(address@) {
            None => r == Navigation::Allow,
            Some((_, host, path)) => match navigation_route(host, path) {
                None => r == Navigation::Allow,
                Some((_, None)) => r == Navigation::Block,
                Some((true, Some(m))) => r matches Navigation::WalletRequest(x) && x@ == m,
                Some((false, Some(m))) => r matches Navigation::ConfirmationResponse(x) && x@
                    == m,
            },
        },
{
    match parse_url(address) {
        Some((_, host, path)) => {
            let h: Option<&str> = match &host {
                Some(x) => Some(x.as_str()),
                None => None,
            };
            route_by_host(h, path.as_str())
        },
        None => Navigation::Allow,
    }
}

} // verus!

verus! {

/// The origin of an address with this scheme and host: `scheme://host`,
/// with `unknown` for a missing host.
pub open spec fn origin_of_parts(scheme: Seq<char>, host: Option<Seq<char>>) -> Seq<char> {
    scheme + "://"@ + match host {
        Some(h) => h,
        None => UNKNOWN_ORIGIN@,
    }
}

/// The origin of a page: that of its address, or `unknown` where the address
/// cannot be read.
pub open spec fn origin_text(address: Seq<char>) -> Seq<char> {
    match url_parts(address) {
        Some((scheme, host, _)) => origin_of_parts(scheme, host),
        None => UNKNOWN_ORIGIN@,
    }
}

/// Writes the origin of an address from its scheme and host.
pub fn origin_from_parts(scheme: &str, host: Option<&str>) -> (r: String)
    ensures
        r@ == origin_of_parts(scheme@, text_view(host)),
{
    let with_separator = scheme.to_string().concat("://");
    match host {
        Some(h) => with_separator.concat(h),
        None => with_separator.concat(UNKNOWN_ORIGIN),
    }
}

/// The origin to report for a wallet request, from the address of the dApp
/// page, if one could be read.
pub fn request_origin(page_address: Option<&str>) -> (r: String)
    ensures
        page_address matches Some(a) ==> r@ == origin_text(a@),
        page_address is None ==> r@ == UNKNOWN_ORIGIN@,
{
    let address = match page_address {
        Some(a) => a,
        None => {
            return UNKNOWN_ORIGIN.to_string();
        },
    };
    match parse_url(address) {
        Some((scheme, host, _)) => {
            let h: Option<&str> = match &host {
                Some(x) => Some(x.as_str()),
                None => None,
            };
            origin_from_parts(scheme.as_str(), h)
        },
        None => UNKNOWN_ORIGIN.to_string(),
    }
}

/// The string found at a JSON pointer in a text read as JSON (`None` where
/// the pointer reaches nothing or a value that is not a string), and the
/// text written back as compact JSON; `None` where the text is not JSON.
pub uninterp spec fn json_request(text: Seq<char>, pointer: Seq<char>) -> Option<
    (Option<Seq<char>>, Seq<char>),
>;

/// Relies on serde_json's `from_str` into a `Value`, `Value::pointer` and
/// `Value::as_str` to read the string at `pointer`, and `Value`'s `Display`
/// to write the text back.
#[verifier::external_body]
fn read_json_request(text: &str, pointer: &str) -> (r: Option<(Option<String>, String)>)
    ensures
        match r {
            None => json_request(text@, pointer@) is None,
            Some((found, json)) => json_request(text@, pointer@) matches Some((f, j)) && j
                == json@ && (f is Some <==> found is Some) && (found matches Some(x) ==> f == Some(
                x@)),
        },
{
    let request: serde_json::Value = serde_json::from_str(text).ok()?;
    let found = request.pointer(pointer).and_then(serde_json::Value::as_str).map(str::to_string);
    Some((found, request.to_string()))
}

/// Where a wallet request holds its type: the `type` field of its `payload`.
pub const REQUEST_TYPE_POINTER: &'static str = "/payload/type";

/// The request type by which a dApp asks to close its window.
pub const CLOSE_WINDOW_REQUEST: &'static str = "CLOSE_WINDOW";

/// What the browser does with a wallet request from a dApp page.
#[derive(Debug, PartialEq, Eq)]
pub enum DappRequest {
    /// The request is not JSON: drop it.
    Ignore,
    /// The page asks to close the dApp window; handled locally.
    CloseWindow,
    /// Pass this request, as JSON text, to the wallet window.
    Forward(String),
}

/// Sorts a wallet request by its `payload.type` (where that is a string) and
/// its JSON text: a close request is handled locally, anything else goes to
/// the wallet.
pub fn classify_request_fields(kind: Option<&str>, json: String) -> (r: DappRequest)
    ensures
        kind matches Some(k) && k@ == CLOSE_WINDOW_REQUEST@ ==> r == DappRequest::CloseWindow,
        !(kind matches Some(k) && k@ == CLOSE_WINDOW_REQUEST@) ==> (r matches DappRequest::Forward(
            x,
        ) && x@ == json@),
{
    let closes = match kind {
        Some(k) => same_text(k, CLOSE_WINDOW_REQUEST),
        None => false,
    };
    if closes {
        DappRequest::CloseWindow
    } else {
        DappRequest::Forward(json)
    }
}

/// Sorts a wallet request from a dApp page; text that is not JSON is dropped.
pub fn classify_dapp_request(request: &str) -> (r: DappRequest)
    ensures
        match json_request(request@, REQUEST_TYPE_POINTER@) {
            None => r == DappRequest::Ignore,
            Some((Some(kind), _)) if kind == CLOSE_WINDOW_REQUEST@ => r == DappRequest::CloseWindow,
            Some((_, json)) => r matches DappRequest::Forward(x) && x@ == json,
        },
{
    match read_json_request(request, REQUEST_TYPE_POINTER) {
        None => DappRequest::Ignore,
        Some((kind, json)) => {
            let k: Option<&str> = match &kind {
                Some(x) => Some(x.as_str()),
                None => None,
            };
            classify_request_fields(k, json)
        },
    }
}

/// Prefix of the error for a navigation action the browser does not know.
pub const UNKNOWN_ACTION_PREFIX: &'static str = "Unknown navigation action: ";

/// The script that performs a navigation action of the dApp toolbar:
/// `back`, `forward` or `refresh`; any other action is an error naming it.
pub fn navigation_script(action: &str) -> (r: Result<String, String>)
    ensures
        action@ == "back"@ ==> (r matches Ok(s) && s@ == "history.back()"@),
        action@ == "forward"@ ==> (r matches Ok(s) && s@ == "history.forward()"@),
        action@ == "refresh"@ ==> (r matches Ok(s) && s@ == "location.reload()"@),
        action@ != "back"@ && action@ != "forward"@ && action@ != "refresh"@ ==> (r matches Err(e)
            && e@ == UNKNOWN_ACTION_PREFIX@ + action@),
{
    proof {
        reveal_strlit("back");
        reveal_strlit("forward");
        reveal_strlit("refresh");
        assert("back"@[0] != "forward"@[0] && "back"@[0] != "refresh"@[0]);
        assert("forward"@[0] != "refresh"@[0]);
    }
    if same_text(action, "back") {
        Ok("history.back()".to_string())
    } else if same_text(action, "forward") {
        Ok("history.forward()".to_string())
    } else if same_text(action, "refresh") {
        Ok("location.reload()".to_string())
    } else {
        Err(UNKNOWN_ACTION_PREFIX.to_string().concat(action))
    }
}

/// Script text before the response in the page's response call.
pub const RESPONSE_SCRIPT_HEAD: &'static str = "(function() { if (window.__midenWalletResponse) { try { window.__midenWalletResponse(";

/// Script text after the response in the page's response call.
pub const RESPONSE_SCRIPT_TAIL: &'static str = "); } catch(e) { } } })();";

/// The script that hands a wallet response (JSON text, passed as it is) to
/// the dApp page's response handler, where the page has one.
pub fn wallet_response_script(response: &str) -> (r: String)
    ensures
        r@ == RESPONSE_SCRIPT_HEAD@ + response@ + RESPONSE_SCRIPT_TAIL@,
{
    RESPONSE_SCRIPT_HEAD.to_string().concat(response).concat(RESPONSE_SCRIPT_TAIL)
}

/// What a tray menu item does.
#[derive(Clone, Copy, Debug, PartialEq, Eq, Structural)]
pub enum TrayAction {
    /// Show, focus and restore the main window.
    ShowMainWindow,
    /// Hide the main window.
    HideMainWindow,
    /// Quit the application.
    Quit,
    /// Nothing (the separator, or an unknown item).
    Nothing,
}

/// The action of a tray menu item, by its id: `show`, `hide` or `quit`.
pub fn tray_menu_action(id: &str) -> (r: TrayAction)
    ensures
        r == (if id@ == "show"@ {
            TrayAction::ShowMainWindow
        } else if id@ == "hide"@ {
            TrayAction::HideMainWindow
        } else if id@ == "quit"@ {
            TrayAction::Quit
        } else {
            TrayAction::Nothing
        }),
{
    proof {
        reveal_strlit("show");
        reveal_strlit("hide");
        reveal_strlit("quit");
    }
    if same_text(id, "show") {
        TrayAction::ShowMainWindow
    } else if same_text(id, "hide") {
        TrayAction::HideMainWindow
    } else if same_text(id, "quit") {
        TrayAction::Quit
    } else {
        TrayAction::Nothing
    }
}

} // verus!
