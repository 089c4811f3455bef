//! The page that carries the client: what an application may set of it,
//! and how it is written out.

use vstd::prelude::*;
use crate::decimal::{decimal, to_decimal};

verus! {

/// The content of the body unless the application sets another.
pub const DEFAULT_BODY_CONTENT: &'static str = "<section id=\"app\"></section>";

/// The page up to its title.
pub const PAGE_UP_TO_TITLE: &'static str =
    "<!DOCTYPE html>\n        <html lang=\"en\">\n        \n        <head>\n          <meta charset=\"utf-8\" />\n          <meta name=\"viewport\" content=\"width=device-width, initial-scale=1, shrink-to-fit=no\" />\n          <title>";

/// From the title to the build id in the address of the compiled module that is loaded ahead.
pub const PAGE_UP_TO_WASM_PRELOAD: &'static str =
    "</title>\n          <link rel=\"preload\" href=\"/_api/pkg/frontend_bg_";

/// From there to the build id in the address of the script that is loaded ahead.
pub const PAGE_UP_TO_JS_PRELOAD: &'static str =
    ".wasm\" as=\"fetch\" type=\"application/wasm\" crossorigin>\n          <link rel=\"modulepreload\" href=\"/_api/pkg/frontend_";

/// From there to what the application adds to the head.
pub const PAGE_UP_TO_HEAD_EXTRAS: &'static str =
    ".js\" crossorigin>\n          ";

/// From there to the content of the body.
pub const PAGE_UP_TO_BODY: &'static str =
    "\n        </head>\n    \n        <body>\n          ";

/// From there to the first inline script.
pub const PAGE_UP_TO_SCRIPTS: &'static str =
    "\n    \n          <script type=\"text/javascript\">\n            ";

/// Between the two inline scripts.
pub const PAGE_BETWEEN_SCRIPTS: &'static str =
    "\n            ";

/// From the inline scripts to the build id in the address of the script that is imported.
pub const PAGE_UP_TO_JS_IMPORT: &'static str =
    "\n          </script>\n    \n          <script type=\"module\">\n            import init from '/_api/pkg/frontend_";

/// From there to the build id in the address of the compiled module that is started.
pub const PAGE_UP_TO_WASM_INIT: &'static str =
    ".js';\n            init('/_api/pkg/frontend_bg_";

/// The end of the page.
pub const PAGE_END: &'static str =
    ".wasm');\n          </script>\n        </body>\n        \n        </html>";

/// What a `Frontend` is, as plain values.
pub struct FrontendView {
    /// The title of the page.
    pub title: Seq<char>,
    /// What the application adds to the head of the page.
    pub append_to_head: Seq<char>,
    /// The content of the body, in front of the scripts.
    pub body_content: Seq<char>,
}

impl FrontendView {
    /// The page of an application that has set nothing.
    pub open spec fn initial() -> FrontendView {
        FrontendView {
            title: Seq::empty(),
            append_to_head: Seq::empty(),
            body_content: DEFAULT_BODY_CONTENT@,
        }
    }

    /// The page as text, for the client that was built under
    /// `frontend_build_id`, with the two inline scripts given.
    pub open spec fn page(
        self,
        frontend_build_id: u128,
        reconnecting_event_source: Seq<char>,
        sse: Seq<char>,
    ) -> Seq<char> {
        let id = decimal(frontend_build_id as nat);
        PAGE_UP_TO_TITLE@ + self.title + PAGE_UP_TO_WASM_PRELOAD@ + id + PAGE_UP_TO_JS_PRELOAD@ + id
            + PAGE_UP_TO_HEAD_EXTRAS@ + self.append_to_head + PAGE_UP_TO_BODY@ + self.body_content
            + PAGE_UP_TO_SCRIPTS@ + reconnecting_event_source + PAGE_BETWEEN_SCRIPTS@ + sse
            + PAGE_UP_TO_JS_IMPORT@ + id + PAGE_UP_TO_WASM_INIT@ + id + PAGE_END@
    }
}

/// The page that carries the client, as the application describes it.
pub struct Frontend {
    title: String,
    append_to_head: String,
    body_content: String,
}

impl View for Frontend {
    type V = FrontendView;

    closed spec fn view(&self) -> FrontendView {
        FrontendView {
            title: self.title@,
            append_to_head: self.append_to_head@,
            body_content: self.body_content@,
        }
    }
}

impl Default for Frontend {
    fn default() -> (frontend: Self)
        ensures
            frontend@ == FrontendView::initial(),
    {
        Frontend {
            title: String::new(),
            append_to_head: String::new(),
            body_content: String::from_str(DEFAULT_BODY_CONTENT),
        }
    }
}

impl Frontend {
    /// A page without title and additions, whose body holds the element
    /// that the application mounts itself in.
    pub fn new() -> (frontend: Self)
        ensures
            frontend@ == FrontendView::initial(),
    {
        Frontend {
            title: String::new(),
            append_to_head: String::new(),
            body_content: String::from_str(DEFAULT_BODY_CONTENT),
        }
    }

    /// Sets the title.
    pub fn title(self, title: &str) -> (frontend: Self)
        ensures
            frontend@ == (FrontendView { title: title@, ..self@ }),
    {
        let mut this = self;
        this.title = String::from_str(title);
        this
    }

    /// Adds `html` to what is appended to the head; what was added before
    /// stays.
    pub fn append_to_head(self, html: &str) -> (frontend: Self)
        ensures
            frontend@ == (FrontendView {
                append_to_head: self@.append_to_head + html@,
                ..self@
            }),
    {
        let mut this = self;
        this.append_to_head.append(html);
        this
    }

    /// Sets the content of the body.
    pub fn body_content(self, content: &str) -> (frontend: Self)
        ensures
            frontend@ == (FrontendView { body_content: content@, ..self@ }),
    {
        let mut this = self;
        this.body_content = String::from_str(content);
        this
    }

    /// Writes the page out for the client that was built under
    /// `frontend_build_id`. The two scripts are put inline, in this order.
    pub fn render(&self, frontend_build_id: u128, reconnecting_event_source: &str, sse: &str) -> (page:
        String)
        ensures
            page@ == self@.page(frontend_build_id, reconnecting_event_source@, sse@),
    {
        let id = to_decimal(frontend_build_id);
        let mut page = String::from_str(PAGE_UP_TO_TITLE);
        page.append(self.title.as_str());
        page.append(PAGE_UP_TO_WASM_PRELOAD);
        page.append(id.as_str());
        page.append(PAGE_UP_TO_JS_PRELOAD);
        page.append(id.as_str());
        page.append(PAGE_UP_TO_HEAD_EXTRAS);
        page.append(self.append_to_head.as_str());
        page.append(PAGE_UP_TO_BODY);
        page.append(self.body_content.as_str());
        page.append(PAGE_UP_TO_SCRIPTS);
        page.append(reconnecting_event_source);
        page.append(PAGE_BETWEEN_SCRIPTS);
        page.append(sse);
        page.append(PAGE_UP_TO_JS_IMPORT);
        page.append(id.as_str());
        page.append(PAGE_UP_TO_WASM_INIT);
        page.append(id.as_str());
        page.append(PAGE_END);
        page
    }
}

} // verus!
