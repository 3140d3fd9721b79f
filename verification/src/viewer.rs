//! The state of a document viewer: which page is shown, at which zoom, and
//! whether a rendering is on its way, driven by the toolbar and by the
//! messages of the background renderer.

use vstd::prelude::*;
use crate::text::{decimal, decimal_spec};

verus! {

/// The smallest zoom, in quarters: 25 %.
pub const MIN_ZOOM_QUARTERS: u8 = 1;

/// The largest zoom, in quarters: 400 %.
pub const MAX_ZOOM_QUARTERS: u8 = 16;

/// The zoom a viewer opens with, in quarters: 100 %.
pub const DEFAULT_ZOOM_QUARTERS: u8 = 4;

/// A request to the renderer: draw page `page_idx` (counted from 0) at a zoom
/// of `zoom_quarters` / 4.
#[derive(Debug, Clone, Copy, PartialEq, Eq, Structural)]
pub struct RenderRequest {
    pub page_idx: i32,
    pub zoom_quarters: u8,
}

/// What can happen to a viewer: a message from the renderer, or a toolbar
/// button being clicked.
#[derive(Debug, PartialEq, Eq)]
pub enum ViewerEvent {
    /// The document was opened and has this many pages.
    DocumentOpened { total_pages: i32 },
    /// A page was rendered at a zoom.
    Rendered { page_idx: i32, zoom_quarters: u8 },
    /// Opening or rendering failed, with this message.
    Failed(String),
    /// The "previous page" button.
    PrevPage,
    /// The "next page" button.
    NextPage,
    /// The "zoom out" button.
    ZoomOut,
    /// The "zoom in" button.
    ZoomIn,
}

/// The failure a viewer shows when its document could not be opened:
/// "Failed to open document: " and the reason.
pub fn open_failure(reason: &str) -> (e: ViewerEvent)
    ensures
        e matches ViewerEvent::Failed(m) && m@ == "Failed to open document: "@ + reason@,
{
    let mut m = String::new();
    m.append("Failed to open document: ");
    m.append(reason);
    ViewerEvent::Failed(m)
}

/// The failure a viewer shows when a page could not be rendered:
/// "Failed to render page: " and the reason.
pub fn render_failure(reason: &str) -> (e: ViewerEvent)
    ensures
        e matches ViewerEvent::Failed(m) && m@ == "Failed to render page: "@ + reason@,
{
    let mut m = String::new();
    m.append("Failed to render page: ");
    m.append(reason);
    ViewerEvent::Failed(m)
}

/// The state of one viewer.
pub struct ViewerState {
    current_page: i32,
    total_pages: i32,
    zoom_quarters: u8,
    is_loading: bool,
    error: Option<String>,
    last_rendered: Option<RenderRequest>,
}

/// What a viewer shows: page (from 0), page count, zoom in quarters, whether
/// a rendering is on its way, the last failure, and the last rendering that
/// came back.
pub struct ViewerView {
    pub page: int,
    pub total: int,
    pub zoom: int,
    pub loading: bool,
    pub failure: Option<Seq<char>>,
    pub rendered: Option<RenderRequest>,
}

impl ViewerView {
    /// The page stays a valid index that can still be incremented, the page
    /// count is a 32-bit number, and the zoom stays between 25 % and 400 %.
    pub open spec fn bounded(self) -> bool {
        &&& 0 <= self.page < i32::MAX
        &&& i32::MIN <= self.total <= i32::MAX
        &&& MIN_ZOOM_QUARTERS <= self.zoom <= MAX_ZOOM_QUARTERS
    }

    /// The toolbar is shown as long as no failure is.
    pub open spec fn toolbar_shown(self) -> bool {
        self.failure is None
    }

    pub open spec fn can_prev(self) -> bool {
        self.toolbar_shown() && self.page > 0
    }

    pub open spec fn can_next(self) -> bool {
        self.toolbar_shown() && self.page + 1 < self.total
    }

    pub open spec fn can_zoom_out(self) -> bool {
        self.toolbar_shown() && self.zoom > MIN_ZOOM_QUARTERS
    }

    pub open spec fn can_zoom_in(self) -> bool {
        self.toolbar_shown() && self.zoom < MAX_ZOOM_QUARTERS
    }

    /// The request for the page and zoom shown.
    pub open spec fn request(self) -> RenderRequest {
        RenderRequest { page_idx: self.page as i32, zoom_quarters: self.zoom as u8 }
    }

    /// The view, now loading, and the request to render it.
    pub open spec fn rerender(self) -> (ViewerView, Option<RenderRequest>) {
        (ViewerView { loading: true, ..self }, Some(self.request()))
    }

    /// What an event does to a viewer, and the rendering it asks for.
    ///
    /// Opening the document sets the page count and requests the current page.
    /// A rendering that comes back is recorded and ends the loading; a failure
    /// is recorded and ends the loading. The buttons move one page or one
    /// quarter of zoom, within the document and between 25 % and 400 %, only
    /// while the toolbar is shown; each move requests the new view. A click
    /// that cannot act changes nothing.
    pub open spec fn step(self, e: ViewerEvent) -> (ViewerView, Option<RenderRequest>) {
        match e {
            ViewerEvent::DocumentOpened { total_pages } => ViewerView { total: total_pages as int, ..self }.rerender(),
            ViewerEvent::Rendered { page_idx, zoom_quarters } => (
                ViewerView {
                    rendered: Some(RenderRequest { page_idx, zoom_quarters }),
                    loading: false,
                    ..self
                },
                None,
            ),
            ViewerEvent::Failed(msg) => (ViewerView { failure: Some(msg@), loading: false, ..self }, None),
            ViewerEvent::PrevPage => if self.can_prev() {
                ViewerView { page: self.page - 1, ..self }.rerender()
            } else {
                (self, None)
            },
            ViewerEvent::NextPage => if self.can_next() {
                ViewerView { page: self.page + 1, ..self }.rerender()
            } else {
                (self, None)
            },
            ViewerEvent::ZoomOut => if self.can_zoom_out() {
                ViewerView { zoom: self.zoom - 1, ..self }.rerender()
            } else {
                (self, None)
            },
            ViewerEvent::ZoomIn => if self.can_zoom_in() {
                ViewerView { zoom: self.zoom + 1, ..self }.rerender()
            } else {
                (self, None)
            },
        }
    }
}

impl View for ViewerState {
    type V = ViewerView;

    closed spec fn view(&self) -> ViewerView {
        ViewerView {
            page: self.current_page as int,
            total: self.total_pages as int,
            zoom: self.zoom_quarters as int,
            loading: self.is_loading,
            failure: match self.error {
                Some(e) => Some(e@),
                None => None,
            },
            rendered: self.last_rendered,
        }
    }
}

impl ViewerState {
    #[verifier::type_invariant]
    closed spec fn inv(self) -> bool {
        self@.bounded()
    }

    /// A viewer for a document that is still being opened: first page, 100 %
    /// zoom, loading, no failure.
    pub fn new() -> (s: ViewerState)
        ensures
            s@ == (ViewerView {
                page: 0,
                total: 0,
                zoom: DEFAULT_ZOOM_QUARTERS as int,
                loading: true,
                failure: None,
                rendered: None,
            }),
    {
        ViewerState {
            current_page: 0,
            total_pages: 0,
            zoom_quarters: DEFAULT_ZOOM_QUARTERS,
            is_loading: true,
            error: None,
            last_rendered: None,
        }
    }

    /// Apply an event; returns the rendering to request, if any.
    pub fn apply(&mut self, e: ViewerEvent) -> (request: Option<RenderRequest>)
        ensures
            (final(self)@, request) == old(self)@.step(e),
            old(self)@.bounded(),
            final(self)@.bounded(),
    {
        proof {
            use_type_invariant(&*self);
        }
        match e {
            ViewerEvent::DocumentOpened { total_pages } => {
                self.total_pages = total_pages;
                self.request_render()
            },
            ViewerEvent::Rendered { page_idx, zoom_quarters } => {
                self.last_rendered = Some(RenderRequest { page_idx, zoom_quarters });
                self.is_loading = false;
                None
            },
            ViewerEvent::Failed(msg) => {
                self.error = Some(msg);
                self.is_loading = false;
                None
            },
            ViewerEvent::PrevPage => {
                if self.error.is_none() && self.current_page > 0 {
                    self.current_page = self.current_page - 1;
                    self.request_render()
                } else {
                    None
                }
            },
            ViewerEvent::NextPage => {
                if self.error.is_none() && self.current_page + 1 < self.total_pages {
                    self.current_page = self.current_page + 1;
                    self.request_render()
                } else {
                    None
                }
            },
            ViewerEvent::ZoomOut => {
                if self.error.is_none() && self.zoom_quarters > MIN_ZOOM_QUARTERS {
                    self.zoom_quarters = self.zoom_quarters - 1;
                    self.request_render()
                } else {
                    None
                }
            },
            ViewerEvent::ZoomIn => {
                if self.error.is_none() && self.zoom_quarters < MAX_ZOOM_QUARTERS {
                    self.zoom_quarters = self.zoom_quarters + 1;
                    self.request_render()
                } else {
                    None
                }
            },
        }
    }

    fn request_render(&mut self) -> (request: Option<RenderRequest>)
        ensures
            (final(self)@, request) == old(self)@.rerender(),
    {
        proof {
            use_type_invariant(&*self);
        }
        self.is_loading = true;
        Some(RenderRequest { page_idx: self.current_page, zoom_quarters: self.zoom_quarters })
    }

    /// The page shown, counted from 0.
    pub fn current_page(&self) -> (p: i32)
        ensures
            p == self@.page,
            self@.bounded(),
    {
        proof {
            use_type_invariant(self);
        }
        self.current_page
    }

    /// The number of pages of the document.
    pub fn total_pages(&self) -> (n: i32)
        ensures
            n == self@.total,
    {
        self.total_pages
    }

    /// The zoom in quarters.
    pub fn zoom_quarters(&self) -> (q: u8)
        ensures
            q == self@.zoom,
            self@.bounded(),
    {
        proof {
            use_type_invariant(self);
        }
        self.zoom_quarters
    }

    /// Whether a rendering is on its way.
    pub fn is_loading(&self) -> (b: bool)
        ensures
            b == self@.loading,
    {
        self.is_loading
    }

    /// The message of the last failure, if any.
    pub fn error(&self) -> (e: Option<&String>)
        ensures
            e matches Some(m) ==> self@.failure == Some(m@),
            e is None ==> self@.failure is None,
    {
        match &self.error {
            Some(m) => Some(m),
            None => None,
        }
    }

    /// The page and zoom of the last rendering that came back.
    pub fn last_rendered(&self) -> (r: Option<RenderRequest>)
        ensures
            r == self@.rendered,
    {
        self.last_rendered
    }

    /// The page navigation is offered only for documents of several pages.
    pub fn shows_page_controls(&self) -> (b: bool)
        ensures
            b == (self@.total > 1),
    {
        self.total_pages > 1
    }

    /// Whether the "previous page" button can act.
    pub fn can_go_prev(&self) -> (b: bool)
        ensures
            b == self@.can_prev(),
    {
        self.error.is_none() && self.current_page > 0
    }

    /// Whether the "next page" button can act.
    pub fn can_go_next(&self) -> (b: bool)
        ensures
            b == self@.can_next(),
    {
        proof {
            use_type_invariant(self);
        }
        self.error.is_none() && self.current_page + 1 < self.total_pages
    }

    /// Whether the "zoom out" button can act.
    pub fn can_zoom_out_now(&self) -> (b: bool)
        ensures
            b == self@.can_zoom_out(),
    {
        self.error.is_none() && self.zoom_quarters > MIN_ZOOM_QUARTERS
    }

    /// Whether the "zoom in" button can act.
    pub fn can_zoom_in_now(&self) -> (b: bool)
        ensures
            b == self@.can_zoom_in(),
    {
        self.error.is_none() && self.zoom_quarters < MAX_ZOOM_QUARTERS
    }

    /// The page label, "<page> / <pages>" with the page counted from 1.
    pub fn page_label(&self) -> (s: String)
        ensures
            s@ == decimal_spec(self@.page + 1) + " / "@ + decimal_spec(self@.total),
    {
        proof {
            use_type_invariant(self);
        }
        let mut s = decimal((self.current_page + 1) as i64);
        s.append(" / ");
        let total = decimal(self.total_pages as i64);
        s.append(total.as_str());
        s
    }

    /// The zoom label, the zoom in percent followed by "%".
    pub fn zoom_label(&self) -> (s: String)
        ensures
            s@ == decimal_spec(25 * self@.zoom) + "%"@,
    {
        let mut s = decimal((25 * (self.zoom_quarters as u32)) as i64);
        s.append("%");
        s
    }
}

/// Every event keeps the page a valid index and the zoom between 25 % and 400 %.
pub proof fn lemma_step_bounded(s: ViewerView, e: ViewerEvent)
    requires
        s.bounded(),
    ensures
        s.step(e).0.bounded(),
{
}

/// The page stays within the document: once the page count is known, no
/// event but a later change of that count moves the page past the last page.
pub proof fn lemma_step_page_in_document(s: ViewerView, e: ViewerEvent)
    requires
        s.page == 0 || s.page < s.total,
        e is DocumentOpened ==> s.page == 0,
    ensures
        s.step(e).0.page == 0 || s.step(e).0.page < s.step(e).0.total,
{
}

/// Whatever page and zoom an event brings on screen is requested from the
/// renderer at once, and the viewer shows that it is loading.
pub proof fn lemma_every_change_is_rendered(s: ViewerView, e: ViewerEvent)
    requires
        s.bounded(),
    ensures
        (s.step(e).0.page != s.page || s.step(e).0.zoom != s.zoom) ==> (
            s.step(e).1 == Some(s.step(e).0.request())
            && s.step(e).0.loading),
        s.step(e).1 matches Some(r) ==> r.page_idx == s.step(e).0.page && r.zoom_quarters == s.step(e).0.zoom,
{
}

/// Zooming in and then out again returns to the same page and zoom.
pub proof fn lemma_zoom_in_out(s: ViewerView)
    requires
        s.bounded(),
        s.can_zoom_in(),
    ensures
        s.step(ViewerEvent::ZoomIn).0.step(ViewerEvent::ZoomOut).0.zoom == s.zoom,
        s.step(ViewerEvent::ZoomIn).0.step(ViewerEvent::ZoomOut).0.page == s.page,
{
}

/// Zooming out and then in again returns to the same page and zoom.
pub proof fn lemma_zoom_out_in(s: ViewerView)
    requires
        s.bounded(),
        s.can_zoom_out(),
    ensures
        s.step(ViewerEvent::ZoomOut).0.step(ViewerEvent::ZoomIn).0.zoom == s.zoom,
        s.step(ViewerEvent::ZoomOut).0.step(ViewerEvent::ZoomIn).0.page == s.page,
{
}

/// Going to the next page and back returns to the same page and zoom.
pub proof fn lemma_next_prev(s: ViewerView)
    requires
        s.bounded(),
        s.can_next(),
    ensures
        s.step(ViewerEvent::NextPage).0.step(ViewerEvent::PrevPage).0.page == s.page,
        s.step(ViewerEvent::NextPage).0.step(ViewerEvent::PrevPage).0.zoom == s.zoom,
{
}

/// Going to the previous page and forward again returns to the same page.
pub proof fn lemma_prev_next(s: ViewerView)
    requires
        s.bounded(),
        s.can_prev(),
        s.page < s.total,
    ensures
        s.step(ViewerEvent::PrevPage).0.step(ViewerEvent::NextPage).0.page == s.page,
        s.step(ViewerEvent::PrevPage).0.step(ViewerEvent::NextPage).0.zoom == s.zoom,
{
}

/// A rendering that comes back ends the loading and is recorded; a failure
/// ends the loading, is recorded, and hides the toolbar so that no button acts.
pub proof fn lemma_replies_end_loading(s: ViewerView, page_idx: i32, zoom_quarters: u8, msg: String, b: ViewerEvent)
    requires
        b is PrevPage || b is NextPage || b is ZoomOut || b is ZoomIn,
    ensures
        !s.step(ViewerEvent::Rendered { page_idx, zoom_quarters }).0.loading,
        s.step(ViewerEvent::Rendered { page_idx, zoom_quarters }).0.rendered == Some(RenderRequest { page_idx, zoom_quarters }),
        !s.step(ViewerEvent::Failed(msg)).0.loading,
        s.step(ViewerEvent::Failed(msg)).0.failure == Some(msg@),
        s.step(ViewerEvent::Failed(msg)).0.step(b) == (s.step(ViewerEvent::Failed(msg)).0, None::<RenderRequest>),
{
}

/// The zoom buttons move the zoom by exactly one quarter (25 %), between one
/// quarter (25 %) and sixteen quarters (400 %), keep the page, and request
/// the new view; a button that cannot act changes nothing and requests
/// nothing. A viewer opens at four quarters (100 %).
pub proof fn lemma_zoom_steps(s: ViewerView)
    requires
        s.bounded(),
    ensures
        DEFAULT_ZOOM_QUARTERS == 4,
        s.can_zoom_in() <==> (s.failure is None && s.zoom < 16),
        s.can_zoom_out() <==> (s.failure is None && s.zoom > 1),
        s.can_zoom_in() ==> {
            let (t, r) = s.step(ViewerEvent::ZoomIn);
            &&& t.zoom == s.zoom + 1
            &&& t.page == s.page && t.total == s.total && t.failure == s.failure && t.rendered == s.rendered
            &&& t.loading
            &&& r == Some(RenderRequest { page_idx: s.page as i32, zoom_quarters: (s.zoom + 1) as u8 })
        },
        s.can_zoom_out() ==> {
            let (t, r) = s.step(ViewerEvent::ZoomOut);
            &&& t.zoom == s.zoom - 1
            &&& t.page == s.page && t.total == s.total && t.failure == s.failure && t.rendered == s.rendered
            &&& t.loading
            &&& r == Some(RenderRequest { page_idx: s.page as i32, zoom_quarters: (s.zoom - 1) as u8 })
        },
        !s.can_zoom_in() ==> s.step(ViewerEvent::ZoomIn) == (s, None::<RenderRequest>),
        !s.can_zoom_out() ==> s.step(ViewerEvent::ZoomOut) == (s, None::<RenderRequest>),
{
}

/// The page buttons move by exactly one page, within the document (the page
/// counted from 0 stays below the page count), keep the zoom, and request the
/// new view; a button that cannot act changes nothing and requests nothing.
pub proof fn lemma_page_steps(s: ViewerView)
    requires
        s.bounded(),
    ensures
        s.can_next() <==> (s.failure is None && s.page + 1 < s.total),
        s.can_prev() <==> (s.failure is None && s.page > 0),
        s.can_next() ==> {
            let (t, r) = s.step(ViewerEvent::NextPage);
            &&& t.page == s.page + 1
            &&& t.zoom == s.zoom && t.total == s.total && t.failure == s.failure && t.rendered == s.rendered
            &&& t.loading
            &&& r == Some(RenderRequest { page_idx: (s.page + 1) as i32, zoom_quarters: s.zoom as u8 })
        },
        s.can_prev() ==> {
            let (t, r) = s.step(ViewerEvent::PrevPage);
            &&& t.page == s.page - 1
            &&& t.zoom == s.zoom && t.total == s.total && t.failure == s.failure && t.rendered == s.rendered
            &&& t.loading
            &&& r == Some(RenderRequest { page_idx: (s.page - 1) as i32, zoom_quarters: s.zoom as u8 })
        },
        !s.can_next() ==> s.step(ViewerEvent::NextPage) == (s, None::<RenderRequest>),
        !s.can_prev() ==> s.step(ViewerEvent::PrevPage) == (s, None::<RenderRequest>),
{
}

/// Opening the document records its page count and requests the page and
/// zoom shown; replies from the renderer request nothing: a rendering is
/// recorded as it came, a failure keeps its message; only the loading flag
/// changes besides.
pub proof fn lemma_renderer_messages(s: ViewerView, total_pages: i32, page_idx: i32, zoom_quarters: u8, msg: String)
    requires
        s.bounded(),
    ensures
        ({
            let (t, r) = s.step(ViewerEvent::DocumentOpened { total_pages });
            &&& t.total == total_pages
            &&& t.page == s.page && t.zoom == s.zoom && t.failure == s.failure && t.rendered == s.rendered
            &&& t.loading
            &&& r == Some(RenderRequest { page_idx: s.page as i32, zoom_quarters: s.zoom as u8 })
        }),
        ({
            let (t, r) = s.step(ViewerEvent::Rendered { page_idx, zoom_quarters });
            &&& t.rendered == Some(RenderRequest { page_idx, zoom_quarters })
            &&& t.page == s.page && t.zoom == s.zoom && t.total == s.total && t.failure == s.failure
            &&& !t.loading
            &&& r is None
        }),
        ({
            let (t, r) = s.step(ViewerEvent::Failed(msg));
            &&& t.failure == Some(msg@)
            &&& t.page == s.page && t.zoom == s.zoom && t.total == s.total && t.rendered == s.rendered
            &&& !t.loading
            &&& r is None
        }),
{
}

} // verus!
