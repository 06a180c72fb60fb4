//! The router: from the path of a request to the response.

use vstd::prelude::*;
use vstd::utf8::encode_utf8;
use crate::assets::{AssetEntry, AssetIndex};
use crate::content_type::{content_type_of, extension, last_dot, lowered};
use crate::request::{has_dot, looks_like_file, normalize, normalized, same_text};
use crate::sniff::{label_text, sniff, sniffed_label};

verus! {

/// The path of the entry document.
pub const INDEX_HTML: &'static str = "index.html";

/// The status of a response that serves a file.
pub const STATUS_OK: u16 = 200;

/// The status of a response that serves none.
pub const STATUS_NOT_FOUND: u16 = 404;

/// The cache directive under which every response of the router goes out.
/// The router puts no header on its responses: the server sets this one.
pub const CACHE_CONTROL: &'static str = "public, max-age=86400, immutable";

/// What the router answers. The content is borrowed from the bundle.
#[derive(Clone, Copy, Debug, PartialEq, Eq)]
pub struct Response<'a> {
    /// The HTTP status code.
    pub status: u16,
    /// The media type of the body.
    pub content_type: &'a str,
    /// The body.
    pub body: &'a [u8],
}

/// What a [`Response`] stands for.
pub struct ResponseView {
    /// The HTTP status code.
    pub status: int,
    /// The media type of the body.
    pub content_type: Seq<char>,
    /// The body.
    pub body: Seq<u8>,
}

impl<'a> View for Response<'a> {
    type V = ResponseView;

    open spec fn view(&self) -> ResponseView {
        ResponseView {
            status: self.status as int,
            content_type: self.content_type@,
            body: self.body@,
        }
    }
}

/// The response that serves nothing: status 404 and a body of plain text.
pub open spec fn not_found_response() -> ResponseView {
    ResponseView {
        status: 404,
        content_type: "text/plain"@,
        body: encode_utf8("404 Not Found"@),
    }
}

/// The response that serves the entry document of `assets` as HTML, or the
/// one that serves nothing where the bundle lacks it.
pub open spec fn entry_document_response(assets: Map<Seq<char>, Seq<u8>>) -> ResponseView {
    if assets.contains_key(INDEX_HTML@) {
        ResponseView { status: 200, content_type: "text/html"@, body: assets[INDEX_HTML@] }
    } else {
        not_found_response()
    }
}

/// The content type under which the file at `path` is served: the sniffed
/// label where there is one, else the label of the table.
pub open spec fn served_content_type(path: Seq<char>, sniffed: Option<Seq<char>>) -> Seq<char> {
    match sniffed {
        Some(label) => label,
        None => content_type_of(path),
    }
}

/// The response to a request for `uri_path`, where `sniffed` is the label
/// sniffed for the normalized path.
pub open spec fn response_to(
    assets: Map<Seq<char>, Seq<u8>>,
    uri_path: Seq<char>,
    sniffed: Option<Seq<char>>,
) -> ResponseView {
    let path = normalized(uri_path);
    if path.len() == 0 || path == INDEX_HTML@ {
        entry_document_response(assets)
    } else if assets.contains_key(path) {
        ResponseView {
            status: 200,
            content_type: served_content_type(path, sniffed),
            body: assets[path],
        }
    } else if looks_like_file(path) {
        not_found_response()
    } else {
        entry_document_response(assets)
    }
}

/// The response of the handler to a request for `uri_path`: `response_to`
/// with the label that is sniffed for the normalized path.
pub open spec fn handler_response(
    assets: Map<Seq<char>, Seq<u8>>,
    uri_path: Seq<char>,
) -> ResponseView {
    response_to(assets, uri_path, sniffed_label(normalized(uri_path)))
}

/// The response that serves nothing.
pub fn not_found() -> (response: Response<'static>)
    ensures
        response@ == not_found_response(),
{
    Response {
        status: STATUS_NOT_FOUND,
        content_type: "text/plain",
        body: "404 Not Found".as_bytes(),
    }
}

/// Serves the entry document as HTML, or nothing where the bundle lacks it.
pub fn index_html<'a>(assets: &'a AssetIndex) -> (response: Response<'a>)
    ensures
        response@ == entry_document_response(assets@),
{
    match assets.lookup(INDEX_HTML) {
        Some(entry) => Response {
            status: STATUS_OK,
            content_type: "text/html",
            body: entry.bytes(),
        },
        None => not_found(),
    }
}

/// Serves the file `entry`, under the sniffed label where there is one.
pub fn asset_response<'a>(
    entry: &'a AssetEntry,
    sniffed: Option<&'a str>,
) -> (response: Response<'a>)
    ensures
        response@ == (ResponseView {
            status: 200,
            content_type: served_content_type(entry@.path, label_text(sniffed)),
            body: entry@.bytes,
        }),
{
    let content_type = match sniffed {
        Some(label) => label,
        None => entry.content_type(),
    };
    Response { status: STATUS_OK, content_type, body: entry.bytes() }
}

/// Answers a request for `uri_path`, the path of the URL as it came in. The
/// root and the entry document by name give the entry document. Any other
/// path of the bundle gives its file, under the label that is sniffed for it
/// or else under the label of the table. A path that the bundle lacks gives
/// status 404 where it holds a `.`, and the entry document where it holds
/// none.
pub fn static_handler<'a>(assets: &'a AssetIndex, uri_path: &str) -> (response: Response<'a>)
    ensures
        response@ == handler_response(assets@, uri_path@),
        response.status == 200 || response.status == 404,
{
    let path = normalize(uri_path);
    if path.is_empty() || same_text(path, INDEX_HTML) {
        return index_html(assets);
    }
    match assets.lookup(path) {
        Some(entry) => asset_response(entry, sniff(path)),
        None => {
            if has_dot(path) {
                not_found()
            } else {
                index_html(assets)
            }
        },
    }
}

/// A file of the bundle that is asked for by its path is served with status
/// 200 and with exactly the bytes that are stored for it. Its content type is
/// the sniffed label where there is one and else the label of the table; for
/// the entry document it is always the label of the table.
pub proof fn lemma_present_asset_is_served(
    assets: Map<Seq<char>, Seq<u8>>,
    uri_path: Seq<char>,
    sniffed: Option<Seq<char>>,
)
    requires
        normalized(uri_path).len() > 0,
        assets.contains_key(normalized(uri_path)),
    ensures
        response_to(assets, uri_path, sniffed).status == 200,
        response_to(assets, uri_path, sniffed).body == assets[normalized(uri_path)],
        normalized(uri_path) == INDEX_HTML@ ==> response_to(assets, uri_path, sniffed).content_type
            == content_type_of(normalized(uri_path)),
        normalized(uri_path) != INDEX_HTML@ ==> response_to(assets, uri_path, sniffed).content_type
            == served_content_type(normalized(uri_path), sniffed),
{
    if normalized(uri_path) == INDEX_HTML@ {
        lemma_entry_document_is_html();
    }
}

/// The table labels the entry document as HTML.
pub proof fn lemma_entry_document_is_html()
    ensures
        content_type_of(INDEX_HTML@) == "text/html"@,
{
    reveal_strlit("index.html");
    reveal_strlit("html");
    reveal_with_fuel(last_dot, 11);
    assert(lowered(extension(INDEX_HTML@)) =~= "html"@);
}

/// A request for `/` and a request for `/index.html` get the same response,
/// whatever is sniffed for either. Where the bundle holds the entry document,
/// that response carries its bytes as `text/html`.
pub proof fn lemma_root_is_entry_document(
    assets: Map<Seq<char>, Seq<u8>>,
    sniffed_for_root: Option<Seq<char>>,
    sniffed_for_entry: Option<Seq<char>>,
)
    ensures
        response_to(assets, "/"@, sniffed_for_root) == response_to(
            assets,
            "/index.html"@,
            sniffed_for_entry,
        ),
        assets.contains_key(INDEX_HTML@) ==> response_to(assets, "/"@, sniffed_for_root) == (
        ResponseView { status: 200, content_type: "text/html"@, body: assets[INDEX_HTML@] }),
{
    reveal_strlit("/");
    reveal_strlit("/index.html");
    reveal_strlit("index.html");
    reveal_with_fuel(normalized, 3);
    assert(normalized("/index.html"@) == INDEX_HTML@);
}

/// A path that is not in the bundle and holds a `.` is answered with status
/// 404 and the plain text `404 Not Found`.
pub proof fn lemma_missing_file_is_not_found(
    assets: Map<Seq<char>, Seq<u8>>,
    uri_path: Seq<char>,
    sniffed: Option<Seq<char>>,
)
    requires
        !assets.contains_key(normalized(uri_path)),
        looks_like_file(normalized(uri_path)),
    ensures
        response_to(assets, uri_path, sniffed) == not_found_response(),
{
}

/// A path that is not in the bundle and holds no `.` is answered with the
/// entry document, provided that the bundle holds one.
pub proof fn lemma_route_falls_back(
    assets: Map<Seq<char>, Seq<u8>>,
    uri_path: Seq<char>,
    sniffed: Option<Seq<char>>,
)
    requires
        !assets.contains_key(normalized(uri_path)),
        !looks_like_file(normalized(uri_path)),
        assets.contains_key(INDEX_HTML@),
    ensures
        response_to(assets, uri_path, sniffed) == (ResponseView {
            status: 200,
            content_type: "text/html"@,
            body: assets[INDEX_HTML@],
        }),
{
}

/// Where the bundle lacks the entry document, the root, the entry document
/// by name and every route that would fall back to it are answered with
/// status 404 and the plain text `404 Not Found`.
pub proof fn lemma_missing_entry_document_is_not_found(
    assets: Map<Seq<char>, Seq<u8>>,
    uri_path: Seq<char>,
    sniffed: Option<Seq<char>>,
)
    requires
        !assets.contains_key(INDEX_HTML@),
        !assets.contains_key(normalized(uri_path)) || normalized(uri_path).len() == 0,
    ensures
        response_to(assets, uri_path, sniffed) == not_found_response(),
{
}

/// Every response is one of three: a file of the bundle under the content
/// type it is served with, the entry document as `text/html`, or status 404
/// with the plain text `404 Not Found`.
pub proof fn lemma_response_is_one_of_three(
    assets: Map<Seq<char>, Seq<u8>>,
    uri_path: Seq<char>,
    sniffed: Option<Seq<char>>,
)
    ensures
        ({
            let path = normalized(uri_path);
            let response = response_to(assets, uri_path, sniffed);
            ||| assets.contains_key(path) && response == (ResponseView {
                status: 200,
                content_type: served_content_type(path, sniffed),
                body: assets[path],
            })
            ||| assets.contains_key(INDEX_HTML@) && response == (ResponseView {
                status: 200,
                content_type: "text/html"@,
                body: assets[INDEX_HTML@],
            })
            ||| response == not_found_response()
        }),
{
}

/// The handler's response is decided by the bundle and the path alone: any
/// two responses to the same request against the same bundle are equal.
pub proof fn lemma_same_request_same_response(
    assets: Map<Seq<char>, Seq<u8>>,
    uri_path: Seq<char>,
    first: ResponseView,
    second: ResponseView,
)
    requires
        first == handler_response(assets, uri_path),
        second == handler_response(assets, uri_path),
    ensures
        first == second,
{
}

} // verus!
