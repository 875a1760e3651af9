//! The static asset handler: resolve a request path under the configured
//! root directory, pick the content type from the extension, and decide per
//! request whether the reload script belongs in the body. Missing or
//! unreadable files yield a not-found response and touch nothing else.
//!
//! The HTML tree edit itself (locate the head element, append the script
//! node) is the HTML collaborator's work. Its parser does not return on
//! every malformed document, so no contract here may call it total: the
//! handler instead hands the decoded document out through [`AssetPlan`],
//! and takes the edited text back through [`html_response`], whose
//! contract fixes the response for every value of it.

use vstd::prelude::*;
use vstd::string::*;

verus! {

/// The MIME type that `mime_guess` derives from a path's extension, with
/// text/plain standing in when no extension matches.
pub uninterp spec fn mime_of(path: Seq<char>) -> Seq<char>;

/// Relies on mime_guess::from_path and MimeGuess::first_or_text_plain: the
/// guess is a lookup of the path's extension in a fixed compiled-in table,
/// defaulting to "text/plain", so the result depends on the path alone.
#[verifier::external_body]
fn guess_mime(path: &str) -> (r: String)
    ensures
        r@ == mime_of(path@),
{
    mime_guess::from_path(path).first_or_text_plain().to_string()
}

/// The text that lossy UTF-8 decoding makes of a byte string.
pub uninterp spec fn utf8_lossy_of(bytes: Seq<u8>) -> Seq<char>;

/// Relies on String::from_utf8_lossy: UTF-8 decoding that replaces each
/// invalid sequence with U+FFFD, total and a function of the bytes alone.
#[verifier::external_body]
fn lossy_utf8(bytes: &Vec<u8>) -> (r: String)
    ensures
        r@ == utf8_lossy_of(bytes@),
{
    String::from_utf8_lossy(bytes).into_owned()
}

/// Whether two strings hold the same characters.
pub fn str_eq(a: &str, b: &str) -> (r: bool)
    ensures
        r == (a@ == b@),
{
    let a_len = a.unicode_len();
    let b_len = b.unicode_len();
    if a_len != b_len {
        return false;
    }
    let mut i: usize = 0;
    while i < a_len
        invariant
            i <= a_len,
            a_len == a@.len(),
            a@.len() == b@.len(),
            forall|j: int| 0 <= j < i ==> a@[j] == b@[j],
        decreases a_len - i,
    {
        if a.get_char(i) != b.get_char(i) {
            return false;
        }
        i += 1;
    }
    proof {
        assert(a@ =~= b@);
    }
    true
}

/// The filesystem path a request path maps to: the request appended to the
/// configured root directory, with `index.html` appended when the request
/// names a directory.
pub open spec fn resolved_path_text(root: Seq<char>, request: Seq<char>) -> Seq<char> {
    if request.len() > 0 && request[request.len() - 1] == '/' {
        root + request + "index.html"@
    } else {
        root + request
    }
}

/// Resolve a request path to the file to serve under `root`.
pub fn resolve_path(root: &str, request: &str) -> (r: String)
    ensures
        r@ == resolved_path_text(root@, request@),
{
    let len = request.unicode_len();
    let is_dir = len > 0 && request.get_char(len - 1) == '/';
    let mut s = String::from_str(root);
    s.append(request);
    if is_dir {
        s.append("index.html");
        proof {
            assert(s@ =~= resolved_path_text(root@, request@));
        }
    } else {
        proof {
            assert(s@ =~= resolved_path_text(root@, request@));
        }
    }
    s
}

/// The body of a response: raw file bytes, or an HTML document text.
pub enum ResponseBody {
    Raw(Vec<u8>),
    Html(String),
}

/// An HTTP response as the handler determines it: status, content type, and
/// body. Transport is someone else's business.
pub struct HttpResponse {
    pub status: u16,
    pub content_type: String,
    pub body: ResponseBody,
}

/// Mathematical model of a response body.
#[verifier::ext_equal]
pub enum BodyModel {
    Raw(Seq<u8>),
    Html(Seq<char>),
}

/// Mathematical model of a response.
#[verifier::ext_equal]
pub struct ResponseModel {
    pub status: int,
    pub content_type: Seq<char>,
    pub body: BodyModel,
}

impl View for ResponseBody {
    type V = BodyModel;

    open spec fn view(&self) -> BodyModel {
        match self {
            ResponseBody::Raw(bytes) => BodyModel::Raw(bytes@),
            ResponseBody::Html(text) => BodyModel::Html(text@),
        }
    }
}

impl View for HttpResponse {
    type V = ResponseModel;

    open spec fn view(&self) -> ResponseModel {
        ResponseModel {
            status: self.status as int,
            content_type: self.content_type@,
            body: self.body@,
        }
    }
}

/// What the handler decides for one request: either the response is ready,
/// or the file is an HTML document whose decoded text must have the reload
/// script injected before [`html_response`] assembles the reply.
pub enum AssetPlan {
    Ready(HttpResponse),
    NeedsInjection { content_type: String, document: String },
}

/// Mathematical model of an [`AssetPlan`].
#[verifier::ext_equal]
pub enum PlanModel {
    Ready(ResponseModel),
    NeedsInjection { content_type: Seq<char>, document: Seq<char> },
}

impl View for AssetPlan {
    type V = PlanModel;

    open spec fn view(&self) -> PlanModel {
        match self {
            AssetPlan::Ready(response) => PlanModel::Ready(response@),
            AssetPlan::NeedsInjection { content_type, document } => PlanModel::NeedsInjection {
                content_type: content_type@,
                document: document@,
            },
        }
    }
}

/// What the handler decides for a resolved path and the outcome of reading
/// the file: an unreadable file is a plain-text 404 with an empty body and
/// nothing injected; an HTML file (by its guessed type) is decoded and
/// handed out for injection; any other file is served byte-for-byte as
/// read, under its guessed content type.
pub open spec fn plan_model(resolved: Seq<char>, file: Option<Seq<u8>>) -> PlanModel {
    match file {
        Option::None => PlanModel::Ready(
            ResponseModel {
                status: 404,
                content_type: "text/plain"@,
                body: BodyModel::Raw(Seq::<u8>::empty()),
            },
        ),
        Option::Some(bytes) => {
            if mime_of(resolved) == "text/html"@ {
                PlanModel::NeedsInjection {
                    content_type: mime_of(resolved),
                    document: utf8_lossy_of(bytes),
                }
            } else {
                PlanModel::Ready(
                    ResponseModel {
                        status: 200,
                        content_type: mime_of(resolved),
                        body: BodyModel::Raw(bytes),
                    },
                )
            }
        },
    }
}

/// Decide the response for one request. `resolved` is the file path from
/// `resolve_path` and `file` the bytes read from it, or nothing when the
/// read failed.
pub fn plan_response(resolved: &str, file: Option<Vec<u8>>) -> (r: AssetPlan)
    ensures
        r@ == plan_model(resolved@, file.deep_view()),
{
    match file {
        Option::None => {
            let r = AssetPlan::Ready(
                HttpResponse {
                    status: 404,
                    content_type: String::from_str("text/plain"),
                    body: ResponseBody::Raw(Vec::new()),
                },
            );
            proof {
                assert(r@ =~~= plan_model(resolved@, file.deep_view()));
            }
            r
        },
        Option::Some(bytes) => {
            proof {
                assert(bytes.deep_view() =~= bytes@);
            }
            let mime = guess_mime(resolved);
            let is_html = str_eq(mime.as_str(), "text/html");
            let r = if is_html {
                let document = lossy_utf8(&bytes);
                AssetPlan::NeedsInjection { content_type: mime, document }
            } else {
                AssetPlan::Ready(
                    HttpResponse { status: 200, content_type: mime, body: ResponseBody::Raw(bytes) },
                )
            };
            proof {
                assert(r@ =~~= plan_model(resolved@, file.deep_view()));
            }
            r
        },
    }
}

/// Assemble the reply for an HTML document once the script has been
/// injected into it: status 200, the given content type, the given text as
/// the body, nothing else.
pub fn html_response(content_type: String, body: String) -> (r: HttpResponse)
    ensures
        r@ == (ResponseModel {
            status: 200,
            content_type: content_type@,
            body: BodyModel::Html(body@),
        }),
{
    let r = HttpResponse { status: 200, content_type, body: ResponseBody::Html(body) };
    proof {
        assert(r@ =~~= (ResponseModel {
            status: 200,
            content_type: content_type@,
            body: BodyModel::Html(body@),
        }));
    }
    r
}

/// Serving the same file twice before any change produces byte-identical
/// responses: the plan is a pure function of the resolved path and the
/// file's bytes, and `html_response` is a pure function of the injected
/// text — so equal inputs, with an injection step that depends on its
/// document and script alone, give equal replies.
pub proof fn lemma_plan_deterministic(
    resolved: Seq<char>,
    file: Option<Seq<u8>>,
    first: PlanModel,
    second: PlanModel,
)
    requires
        first == plan_model(resolved, file),
        second == plan_model(resolved, file),
    ensures
        first == second,
{
}

} // verus!
