//! The Blitz engine's view bookkeeping: what each view knows besides its document, and the
//! decisions the engine takes on it.
//!
//! A view carries its document (`D`) and the engine's other resources for it (`X`) without
//! looking into them; the engine performs the document work that these functions call for.
use std::collections::hash_map::DefaultHasher;
use std::hash::Hasher;
use vstd::prelude::*;
use vstd::std_specs::hash::DefaultHasherAdditionalSpecFns;

use rand::Rng;

use crate::engines::input::{cursor_icon_to_interaction, interaction_spec, CursorInteraction, CursorShape};
use crate::engines::text::{blank_page_address, blank_page_url, shown_url, shown_url_spec};
use crate::engines::{PageType, ViewId};
use crate::image_info::{blank_pixels, ImageInfo};

verus! {

/// How many update ticks a view keeps picking up fetched resources after a page is loaded.
pub const RESOURCE_TICK_BUDGET: u32 = 3000;

/// How many ticks pass between two layouts while resources are picked up.
pub const RESOLVE_INTERVAL: u32 = 100;

/// One view of the engine.
pub struct BlitzView<D, X> {
    /// The view's identifier.
    pub id: ViewId,
    /// The document shown, once there is one.
    pub document: Option<D>,
    /// The engine's other resources for the view.
    pub extra: X,
    /// The address of the page.
    pub url: String,
    /// The page's title.
    pub title: String,
    /// The cursor the view asks for.
    pub cursor: CursorInteraction,
    /// The last frame rendered.
    pub last_frame: ImageInfo,
    /// The digest of the last frame's pixels.
    pub last_frame_hash: u64,
    /// Whether the view must be rendered again.
    pub needs_render: bool,
    /// The update ticks left for picking up fetched resources.
    pub resource_ticks: u32,
    /// The view's width in logical pixels.
    pub width: u32,
    /// The view's height in logical pixels.
    pub height: u32,
}

/// What a new view starts from.
pub struct NewViewPlan {
    /// The new view's identifier.
    pub id: ViewId,
    /// Its width, at least one pixel.
    pub width: u32,
    /// Its height, at least one pixel.
    pub height: u32,
    /// The HTML to build its document from, if any.
    pub html: Option<String>,
    /// The page's address.
    pub url: String,
}

/// The resource ticks left after one update tick.
pub open spec fn ticks_after(ticks: u32) -> u32 {
    if ticks > 0 {
        (ticks - 1) as u32
    } else {
        0
    }
}

/// Whether the update tick that starts from `ticks` lays the document out again.
pub open spec fn resolves_at(ticks: u32) -> bool {
    ticks > 0 && (ticks - 1) % (RESOLVE_INTERVAL as int) == 0
}

/// The view after one update tick.
pub open spec fn after_tick<D, X>(view: BlitzView<D, X>) -> BlitzView<D, X> {
    BlitzView {
        resource_ticks: ticks_after(view.resource_ticks),
        needs_render: view.needs_render || resolves_at(view.resource_ticks),
        ..view
    }
}

/// The resource ticks left after `n` update ticks.
pub open spec fn ticks_after_n(ticks: u32, n: nat) -> u32
    decreases n,
{
    if n == 0 {
        ticks
    } else {
        ticks_after(ticks_after_n(ticks, (n - 1) as nat))
    }
}

/// Law: update ticks count the resource ticks down by one each, and never below zero.
pub proof fn law_ticks_count_down(ticks: u32, n: nat)
    ensures
        ticks_after_n(ticks, n) == if n <= ticks {
            ticks - n
        } else {
            0
        },
    decreases n,
{
    if n > 0 {
        law_ticks_count_down(ticks, (n - 1) as nat);
    }
}

/// Law: after a page is loaded, the `k`th update tick (counting from zero) lays the document out
/// again exactly when `k` is one short of a multiple of `RESOLVE_INTERVAL` and the budget is not
/// spent; once it is spent, no tick does.
pub proof fn law_resolve_schedule(k: nat)
    ensures
        resolves_at(ticks_after_n(RESOURCE_TICK_BUDGET, k)) <==> (k < RESOURCE_TICK_BUDGET && k
            % (RESOLVE_INTERVAL as nat) == 99),
{
    law_ticks_count_down(RESOURCE_TICK_BUDGET, k);
    if k < RESOURCE_TICK_BUDGET {
        assert((3000 - k - 1) % 100 == 0 <==> k % 100 == 99) by (nonlinear_arith)
            requires
                k < 3000,
        ;
    }
}

/// The view marked for rendering.
pub open spec fn marked<D, X>(view: BlitzView<D, X>) -> BlitzView<D, X> {
    BlitzView { needs_render: true, ..view }
}

/// Whether a frame is small enough that its bytes can be counted.
pub open spec fn frame_fits(width: u32, height: u32) -> bool {
    width as int * height as int * 4 <= usize::MAX
}

/// `after` is `before` showing a white frame of its own size, with no render pending.
pub open spec fn shows_blank<D, X>(before: BlitzView<D, X>, after: BlitzView<D, X>) -> bool {
    &&& after == BlitzView { last_frame: after.last_frame, needs_render: false, ..before }
    &&& after.last_frame.spec_width() == before.width
    &&& after.last_frame.spec_height() == before.height
    &&& after.last_frame.spec_pixels() == blank_pixels(before.width as nat, before.height as nat)
}

/// `after` is `before` once a rendered frame of `width` by `height` pixels with bytes `pixels`
/// and digest `digest` has been taken: a frame of the same size and digest as the last one is
/// kept, any other replaces it; no render is pending.
pub open spec fn takes_frame<D, X>(
    before: BlitzView<D, X>,
    after: BlitzView<D, X>,
    pixels: Seq<u8>,
    width: u32,
    height: u32,
    digest: u64,
) -> bool {
    if before.last_frame.spec_width() == width && before.last_frame.spec_height() == height
        && before.last_frame_hash == digest {
        after == BlitzView { needs_render: false, ..before }
    } else {
        &&& after == BlitzView {
            last_frame: after.last_frame,
            last_frame_hash: digest,
            needs_render: false,
            ..before
        }
        &&& after.last_frame.spec_width() == width
        &&& after.last_frame.spec_height() == height
        &&& after.last_frame.spec_pixels() == pixels
    }
}

/// Law: a frame whose digest differs from the last frame's, or whose size differs, replaces
/// the last frame: afterwards the view shows exactly the new pixels at the new size, under the
/// new digest. Only a frame of the same size and digest may leave the last frame in place, and
/// whichever way, no render is left pending and nothing but the frame changes.
pub proof fn law_changed_frame_replaces<D, X>(
    before: BlitzView<D, X>,
    after: BlitzView<D, X>,
    pixels: Seq<u8>,
    width: u32,
    height: u32,
    digest: u64,
)
    requires
        takes_frame(before, after, pixels, width, height, digest),
    ensures
        !after.needs_render,
        after.id == before.id && after.document == before.document && after.extra == before.extra,
        after.url == before.url && after.title == before.title && after.cursor == before.cursor,
        after.resource_ticks == before.resource_ticks,
        after.width == before.width && after.height == before.height,
        before.last_frame_hash != digest || before.last_frame.spec_width() != width
            || before.last_frame.spec_height() != height ==> {
            &&& after.last_frame.spec_pixels() == pixels
            &&& after.last_frame.spec_width() == width
            &&& after.last_frame.spec_height() == height
            &&& after.last_frame_hash == digest
        },
        after.last_frame != before.last_frame ==> after.last_frame_hash == digest,
        after.last_frame_hash == digest,
{
}

/// Law: an update tick uses up one resource tick while any are left and never goes below
/// zero; it lays the document out again exactly when the ticks left after it are a multiple of
/// `RESOLVE_INTERVAL` (100), and every such tick leaves a render pending, so the resources
/// that arrived get painted. A render already pending stays pending.
pub proof fn law_tick_step<D, X>(view: BlitzView<D, X>)
    ensures
        view.resource_ticks > 0 ==> after_tick(view).resource_ticks + 1 == view.resource_ticks,
        view.resource_ticks == 0 ==> after_tick(view).resource_ticks == 0,
        resolves_at(view.resource_ticks) <==> (view.resource_ticks > 0 && (view.resource_ticks
            - 1) % 100 == 0),
        resolves_at(view.resource_ticks) ==> after_tick(view).needs_render,
        view.needs_render ==> after_tick(view).needs_render,
        !view.needs_render && !resolves_at(view.resource_ticks) ==> !after_tick(
            view,
        ).needs_render,
        after_tick(view).last_frame == view.last_frame && after_tick(view).document
            == view.document && after_tick(view).id == view.id,
{
}

/// Law: taking the same frame twice changes nothing the second time: the repeated frame is
/// recognised by its size and digest.
pub proof fn law_repeated_frame_kept<D, X>(
    first: BlitzView<D, X>,
    second: BlitzView<D, X>,
    third: BlitzView<D, X>,
    pixels: Seq<u8>,
    width: u32,
    height: u32,
    digest: u64,
)
    requires
        takes_frame(first, second, pixels, width, height, digest),
        takes_frame(second, third, pixels, width, height, digest),
    ensures
        third == second,
{
}

/// The digest of a frame's bytes: what a fresh `DefaultHasher` gives after a write of the
/// length prefix `prefix` and a write of the bytes, as hashing a byte vector does.
pub open spec fn frame_digest_spec(prefix: Seq<u8>, pixels: Seq<u8>) -> u64 {
    DefaultHasher::spec_finish(seq![prefix, pixels])
}

/// Calls `usize::to_ne_bytes` (collected into a vector): the number's memory representation in
/// the machine's byte order, `size_of::<usize>()` bytes long.
///
/// The bytes themselves are not stated: they depend on the machine's word size and byte order.
#[verifier::external_body]
fn length_prefix(len: usize) -> (bytes: Vec<u8>)
    ensures
        bytes@.len() == vstd::layout::size_of::<usize>(),
{
    len.to_ne_bytes().to_vec()
}

/// The digest of a frame whose bytes are `pixels`, with the length prefix `prefix`.
pub fn frame_digest(prefix: &[u8], pixels: &[u8]) -> (digest: u64)
    ensures
        digest == frame_digest_spec(prefix@, pixels@),
{
    let mut hasher = DefaultHasher::new();
    hasher.write(prefix);
    hasher.write(pixels);
    assert(hasher@ =~= seq![prefix@, pixels@]);
    hasher.finish()
}

/// Calls `rand::Rng::gen` on the thread-local generator for a `usize`; nothing is promised of
/// the value.
#[verifier::external_body]
fn fresh_view_id() -> (id: ViewId) {
    rand::thread_rng().gen::<usize>()
}


/// The larger of `size` and one.
fn at_least_one(size: u32) -> (out: u32)
    ensures
        out == if size >= 1 {
            size
        } else {
            1
        },
{
    if size >= 1 {
        size
    } else {
        1
    }
}

/// The start of a new view of `width` by `height` pixels showing `content`: a fresh random
/// identifier, sizes of at least one pixel, the HTML to build a document from where a
/// non-empty page is given, and the address where one is given.
pub fn plan_new_view(width: u32, height: u32, content: Option<PageType>) -> (plan: NewViewPlan)
    ensures
        plan.width == if width >= 1 {
            width
        } else {
            1
        },
        plan.height == if height >= 1 {
            height
        } else {
            1
        },
        match content {
            Some(PageType::Html(html)) => {
                &&& plan.url@ == Seq::<char>::empty()
                &&& if html@.len() == 0 {
                    plan.html is None
                } else {
                    plan.html matches Some(h) && h@ == html@
                }
            },
            Some(PageType::Url(url)) => plan.url@ == url@ && plan.html is None,
            None => plan.url@ == Seq::<char>::empty() && plan.html is None,
        },
{
    let id = fresh_view_id();
    let (html, url) = match content {
        Some(PageType::Html(html)) => (html, String::new()),
        Some(PageType::Url(url)) => (String::new(), url),
        None => (String::new(), String::new()),
    };
    let html = if html.as_str().is_empty() {
        None
    } else {
        Some(html)
    };
    NewViewPlan { id, width: at_least_one(width), height: at_least_one(height), html, url }
}

impl<D, X> BlitzView<D, X> {
    /// A new view from `plan`, with its document if one was built: nothing rendered yet (a
    /// white frame), a render pending, no title, an idle cursor, and the resource budget when
    /// there is a document.
    pub fn create(plan: NewViewPlan, document: Option<D>, extra: X) -> (view: Self)
        requires
            frame_fits(plan.width, plan.height),
        ensures
            view.id == plan.id,
            view.document == document,
            view.extra == extra,
            view.url@ == plan.url@,
            view.title@ == Seq::<char>::empty(),
            view.cursor == CursorInteraction::Idle,
            view.last_frame.spec_width() == plan.width,
            view.last_frame.spec_height() == plan.height,
            view.last_frame.spec_pixels() == blank_pixels(plan.width as nat, plan.height as nat),
            view.last_frame_hash == 0,
            view.needs_render,
            view.resource_ticks == if document is Some {
                RESOURCE_TICK_BUDGET
            } else {
                0
            },
            view.width == plan.width,
            view.height == plan.height,
    {
        let has_document = document.is_some();
        BlitzView {
            id: plan.id,
            document,
            extra,
            url: plan.url,
            title: String::new(),
            cursor: CursorInteraction::Idle,
            last_frame: ImageInfo::blank(plan.width, plan.height),
            last_frame_hash: 0,
            needs_render: true,
            resource_ticks: if has_document {
                RESOURCE_TICK_BUDGET
            } else {
                0
            },
            width: plan.width,
            height: plan.height,
        }
    }

    /// One update tick: while resource ticks are left, one is used up, and every
    /// `RESOLVE_INTERVAL`th asks for a new layout (returns true) and a render.
    pub fn tick(&mut self) -> (resolve: bool)
        ensures
            *final(self) == after_tick(*old(self)),
            resolve == resolves_at(old(self).resource_ticks),
    {
        if self.resource_ticks > 0 {
            self.resource_ticks = self.resource_ticks - 1;
            if self.resource_ticks % RESOLVE_INTERVAL == 0 {
                self.needs_render = true;
                return true;
            }
        }
        false
    }

    /// The first step of rendering: an empty view is left alone; a view without a document
    /// shows a white frame; otherwise the document is to be painted (returns true).
    pub fn begin_render(&mut self) -> (paint: bool)
        requires
            old(self).width != 0 && old(self).height != 0 && old(self).document is None
                ==> frame_fits(old(self).width, old(self).height),
        ensures
            paint == (old(self).width != 0 && old(self).height != 0 && old(self).document is Some),
            old(self).width == 0 || old(self).height == 0 ==> *final(self) == *old(self),
            old(self).width != 0 && old(self).height != 0 && old(self).document is None
                ==> shows_blank(*old(self), *final(self)),
            paint ==> *final(self) == *old(self),
    {
        if self.width == 0 || self.height == 0 {
            return false;
        }
        if self.document.is_none() {
            self.show_blank();
            return false;
        }
        true
    }

    /// Shows a white frame of the view's size, with no render pending.
    pub fn show_blank(&mut self)
        requires
            frame_fits(old(self).width, old(self).height),
        ensures
            shows_blank(*old(self), *final(self)),
    {
        self.last_frame = ImageInfo::blank(self.width, self.height);
        self.needs_render = false;
    }

    /// Takes a painted frame whose pixels have the digest `digest`: the same size and digest as
    /// the last frame keep that frame, anything else replaces it.
    pub fn accept_frame(&mut self, pixels: Vec<u8>, width: u32, height: u32, digest: u64)
        requires
            !(old(self).last_frame.spec_width() == width && old(self).last_frame.spec_height()
                == height && old(self).last_frame_hash == digest) ==> pixels@.len() % 4 == 0,
        ensures
            takes_frame(*old(self), *final(self), pixels@, width, height, digest),
    {
        if self.last_frame.image_width() == width && self.last_frame.image_height() == height
            && self.last_frame_hash == digest {
            self.needs_render = false;
            return;
        }
        self.last_frame = ImageInfo::new(pixels, crate::engines::PixelFormat::Rgba, width, height);
        self.last_frame_hash = digest;
        self.needs_render = false;
    }

    /// Takes a painted frame, compared with the last one by its digest: the `DefaultHasher`
    /// value of the length prefix `prefix` followed by the frame's bytes.
    pub fn finish_render_with(&mut self, pixels: Vec<u8>, width: u32, height: u32, prefix: &[u8])
        requires
            pixels@.len() % 4 == 0,
        ensures
            takes_frame(
                *old(self),
                *final(self),
                pixels@,
                width,
                height,
                frame_digest_spec(prefix@, pixels@),
            ),
    {
        let digest = frame_digest(prefix, pixels.as_slice());
        self.accept_frame(pixels, width, height, digest);
    }

    /// Takes a painted frame, compared with the last one by the `DefaultHasher` value that
    /// hashing the byte vector gives: its length in native byte order, then its bytes.
    pub fn finish_render(&mut self, pixels: Vec<u8>, width: u32, height: u32)
        requires
            pixels@.len() % 4 == 0,
        ensures
            exists|prefix: Seq<u8>|
                {
                    &&& prefix.len() == vstd::layout::size_of::<usize>()
                    &&& takes_frame(
                        *old(self),
                        *final(self),
                        pixels@,
                        width,
                        height,
                        frame_digest_spec(prefix, pixels@),
                    )
                },
    {
        let prefix = length_prefix(pixels.len());
        self.finish_render_with(pixels, width, height, prefix.as_slice());
    }

    /// Asks for a render.
    pub fn mark_for_render(&mut self)
        ensures
            *final(self) == marked(*old(self)),
    {
        self.needs_render = true;
    }

    /// Navigation: an address is remembered (returns `None`); HTML is handed back for a new
    /// document, with the view unchanged until it is loaded.
    pub fn goto(&mut self, page: PageType) -> (html: Option<String>)
        ensures
            match page {
                PageType::Url(url) => {
                    &&& html is None
                    &&& *final(self) == (BlitzView { url: final(self).url, ..*old(self) })
                    &&& final(self).url@ == url@
                },
                PageType::Html(text) => {
                    &&& html matches Some(h) && h@ == text@
                    &&& *final(self) == *old(self)
                },
            },
    {
        match page {
            PageType::Url(url) => {
                self.url = url;
                None
            },
            PageType::Html(text) => Some(text),
        }
    }

    /// Shows a newly built document: a render is pending and the resource budget starts anew.
    pub fn load_document(&mut self, document: D)
        ensures
            *final(self) == (BlitzView {
                document: Some(document),
                needs_render: true,
                resource_ticks: RESOURCE_TICK_BUDGET,
                ..*old(self)
            }),
    {
        self.document = Some(document);
        self.needs_render = true;
        self.resource_ticks = RESOURCE_TICK_BUDGET;
    }

    /// Gives the view a new size and asks for a render.
    pub fn resize(&mut self, width: u32, height: u32)
        ensures
            *final(self) == (BlitzView { width, height, needs_render: true, ..*old(self) }),
    {
        self.width = width;
        self.height = height;
        self.needs_render = true;
    }

    /// Takes up the cursor icon that the document asks for, or else the one the shell was
    /// told.
    pub fn hover(&mut self, document_cursor: Option<CursorShape>, shell_cursor: CursorShape)
        ensures
            *final(self) == (BlitzView {
                cursor: interaction_spec(
                    match document_cursor {
                        Some(c) => c,
                        None => shell_cursor,
                    },
                ),
                ..*old(self)
            }),
    {
        let icon = match document_cursor {
            Some(c) => c,
            None => shell_cursor,
        };
        self.cursor = cursor_icon_to_interaction(icon);
    }

    /// The pointer has left the view: the cursor goes back to idle.
    pub fn leave(&mut self)
        ensures
            *final(self) == (BlitzView { cursor: CursorInteraction::Idle, ..*old(self) }),
    {
        self.cursor = CursorInteraction::Idle;
    }
}

/// `i` is the first position in `views` of a view with identifier `id`.
pub open spec fn is_first_with_id<D, X>(views: Seq<BlitzView<D, X>>, id: ViewId, i: int) -> bool {
    &&& 0 <= i < views.len()
    &&& views[i].id == id
    &&& forall|j: int| 0 <= j < i ==> views[j].id != id
}

/// Whether some view in `views` has the identifier `id`.
pub open spec fn holds_view<D, X>(views: Seq<BlitzView<D, X>>, id: ViewId) -> bool {
    exists|i: int| 0 <= i < views.len() && #[trigger] views[i].id == id
}

/// The first view in `views` with the identifier `id`, if any.
pub open spec fn lookup<D, X>(views: Seq<BlitzView<D, X>>, id: ViewId) -> Option<BlitzView<D, X>> {
    if holds_view(views, id) {
        Some(views[choose|i: int| is_first_with_id(views, id, i)])
    } else {
        None
    }
}

/// The test that keeps the views whose identifier is not `id`.
pub open spec fn other_than<D, X>(id: ViewId) -> spec_fn(BlitzView<D, X>) -> bool {
    |v: BlitzView<D, X>| v.id != id
}

/// `indices` lists, in increasing order, exactly the positions below `n` where `p` holds.
pub open spec fn lists_positions(indices: Seq<usize>, n: int, p: spec_fn(int) -> bool) -> bool {
    &&& forall|a: int, b: int| 0 <= a < b < indices.len() ==> indices[a] < indices[b]
    &&& forall|a: int| 0 <= a < indices.len() ==> indices[a] < n && p(indices[a] as int)
    &&& forall|i: int| 0 <= i < n && #[trigger] p(i) ==> indices.contains(i as usize)
}

/// A listing of positions grows by one position at a time.
proof fn lemma_lists_positions_step(indices: Seq<usize>, n: int, p: spec_fn(int) -> bool)
    requires
        0 <= n < usize::MAX,
        lists_positions(indices, n, p),
    ensures
        p(n) ==> lists_positions(indices.push(n as usize), n + 1, p),
        !p(n) ==> lists_positions(indices, n + 1, p),
{
    if p(n) {
        let longer = indices.push(n as usize);
        assert forall|i: int| 0 <= i < n + 1 && #[trigger] p(i) implies longer.contains(
            i as usize,
        ) by {
            if i < n {
                let a = choose|a: int| 0 <= a < indices.len() && indices[a] == i as usize;
                assert(longer[a] == i as usize);
            } else {
                assert(longer[indices.len() as int] == i as usize);
            }
        }
    } else {
        assert forall|i: int| 0 <= i < n + 1 && #[trigger] p(i) implies indices.contains(
            i as usize,
        ) by {
            assert(i != n);
        }
    }
}

/// The first view with a given identifier is what `lookup` finds.
proof fn lemma_lookup_first<D, X>(views: Seq<BlitzView<D, X>>, id: ViewId, i: int)
    requires
        is_first_with_id(views, id, i),
    ensures
        lookup(views, id) == Some(views[i]),
{
    assert(holds_view(views, id)) by {
        assert(views[i].id == id);
    }
    let c = choose|c: int| is_first_with_id(views, id, c);
    assert(is_first_with_id(views, id, c));
    if c < i {
        assert(views[c].id != id);
    } else if c > i {
        assert(views[i].id != id);
    }
}

/// The position of the first view with identifier `id`, if any.
pub fn find_index<D, X>(views: &Vec<BlitzView<D, X>>, id: ViewId) -> (found: Option<usize>)
    ensures
        match found {
            Some(i) => is_first_with_id(views@, id, i as int) && lookup(views@, id) == Some(
                views@[i as int],
            ),
            None => !holds_view(views@, id) && lookup(views@, id) is None,
        },
{
    let mut i: usize = 0;
    while i < views.len()
        invariant
            i <= views@.len(),
            forall|j: int| 0 <= j < i ==> views@[j].id != id,
        decreases views@.len() - i,
    {
        if views[i].id == id {
            proof {
                lemma_lookup_first(views@, id, i as int);
            }
            return Some(i);
        }
        i = i + 1;
    }
    None
}

/// The first view with identifier `id`, if any.
pub fn find_view<D, X>(views: &Vec<BlitzView<D, X>>, id: ViewId) -> (found: Option<&BlitzView<D, X>>)
    ensures
        match found {
            Some(v) => lookup(views@, id) == Some(*v),
            None => lookup(views@, id) is None,
        },
{
    match find_index(views, id) {
        Some(i) => Some(&views[i]),
        None => None,
    }
}

/// The first view with identifier `id`, for changing it in place, if any.
pub fn find_view_mut<D, X>(views: &mut Vec<BlitzView<D, X>>, id: ViewId) -> (found: Option<
    &mut BlitzView<D, X>,
>)
    ensures
        match found {
            Some(v) => exists|i: int|
                {
                    &&& #[trigger] is_first_with_id(old(views)@, id, i)
                    &&& *v == old(views)@[i]
                    &&& final(views)@ == old(views)@.update(i, *final(v))
                },
            None => !holds_view(old(views)@, id) && final(views)@ == old(views)@,
        },
{
    match find_index(views, id) {
        Some(i) => Some(&mut views[i]),
        None => None,
    }
}

/// Whether a view with identifier `id` exists.
pub fn has_view<D, X>(views: &Vec<BlitzView<D, X>>, id: ViewId) -> (present: bool)
    ensures
        present == holds_view(views@, id),
{
    find_index(views, id).is_some()
}

/// The identifiers of the views, in order.
pub fn view_ids<D, X>(views: &Vec<BlitzView<D, X>>) -> (ids: Vec<ViewId>)
    ensures
        ids@ == views@.map_values(|v: BlitzView<D, X>| v.id),
{
    let mut ids: Vec<ViewId> = Vec::new();
    let mut i: usize = 0;
    while i < views.len()
        invariant
            i <= views@.len(),
            ids@ == views@.subrange(0, i as int).map_values(|v: BlitzView<D, X>| v.id),
        decreases views@.len() - i,
    {
        ids.push(views[i].id);
        i = i + 1;
        assert(ids@ =~= views@.subrange(0, i as int).map_values(|v: BlitzView<D, X>| v.id));
    }
    assert(views@.subrange(0, views@.len() as int) =~= views@);
    ids
}

/// Removes every view with identifier `id`, keeping the others in order.
pub fn remove_view<D, X>(views: &mut Vec<BlitzView<D, X>>, id: ViewId)
    ensures
        final(views)@ == old(views)@.filter(other_than(id)),
{
    let ghost start = views@;
    let ghost keep = other_than::<D, X>(id);
    let mut i: usize = 0;
    let ghost mut k: int = 0;
    while i < views.len()
        invariant
            0 <= k <= start.len(),
            keep == other_than::<D, X>(id),
            views@.len() - i == start.len() - k,
            i as int == start.subrange(0, k).filter(keep).len(),
            views@ == start.subrange(0, k).filter(keep) + start.subrange(k, start.len() as int),
        decreases start.len() - k,
    {
        proof {
            reveal(Seq::filter);
            assert(start.subrange(0, k + 1).drop_last() =~= start.subrange(0, k));
            assert(views@[i as int] == start[k]);
        }
        let ghost before = views@;
        if views[i].id == id {
            views.remove(i);
            proof {
                assert(views@ =~= start.subrange(0, k + 1).filter(keep) + start.subrange(
                    k + 1,
                    start.len() as int,
                ));
            }
        } else {
            proof {
                assert(start.subrange(0, k + 1).filter(keep) == start.subrange(0, k).filter(
                    keep,
                ).push(start[k]));
                assert(before =~= start.subrange(0, k + 1).filter(keep) + start.subrange(
                    k + 1,
                    start.len() as int,
                ));
            }
            i = i + 1;
        }
        proof {
            k = k + 1;
        }
    }
    assert(start.subrange(0, start.len() as int) =~= start);
    assert(views@ =~= start.filter(keep));
}

/// Law: after `remove_view(id)` no view has the identifier `id`, every view with another
/// identifier is still there, and nothing else was added.
pub proof fn law_remove_view_removes<D, X>(views: Seq<BlitzView<D, X>>, id: ViewId)
    ensures
        !holds_view(views.filter(other_than(id)), id),
        forall|i: int|
            0 <= i < views.len() && views[i].id != id ==> views.filter(other_than(id)).contains(
                #[trigger] views[i],
            ),
        forall|j: int|
            0 <= j < views.filter(other_than(id)).len() ==> views.contains(
                #[trigger] views.filter(other_than(id))[j],
            ),
{
    let kept = views.filter(other_than(id));
    assert forall|j: int| 0 <= j < kept.len() implies kept[j].id != id by {
        views.lemma_filter_pred(other_than(id), j);
    }
    assert forall|i: int| 0 <= i < views.len() && views[i].id != id implies kept.contains(
        #[trigger] views[i],
    ) by {
        views.lemma_filter_contains(other_than(id), i);
    }
    lemma_filter_within(views, other_than(id));
}

/// Every element kept by a filter is an element of the sequence.
proof fn lemma_filter_within<A>(s: Seq<A>, p: spec_fn(A) -> bool)
    ensures
        forall|j: int| 0 <= j < s.filter(p).len() ==> s.contains(#[trigger] s.filter(p)[j]),
    decreases s.len(),
{
    reveal(Seq::filter);
    if s.len() > 0 {
        lemma_filter_within(s.drop_last(), p);
        let sub = s.drop_last().filter(p);
        assert forall|j: int| 0 <= j < s.filter(p).len() implies s.contains(
            #[trigger] s.filter(p)[j],
        ) by {
            if j < sub.len() {
                assert(s.filter(p)[j] == sub[j]);
                let k = choose|k: int| 0 <= k < s.drop_last().len() && s.drop_last()[k] == sub[j];
                assert(s[k] == sub[j]);
            } else {
                assert(s.filter(p)[j] == s.last());
                assert(s[s.len() - 1] == s.last());
            }
        }
    }
}

/// One update tick for every view; returns, in order, the positions of the views whose
/// documents are to be laid out again now.
pub fn update_views<D, X>(views: &mut Vec<BlitzView<D, X>>) -> (resolve: Vec<usize>)
    ensures
        final(views)@.len() == old(views)@.len(),
        forall|i: int|
            0 <= i < old(views)@.len() ==> final(views)@[i] == after_tick(old(views)@[i]),
        lists_positions(
            resolve@,
            old(views)@.len() as int,
            |i: int| resolves_at(old(views)@[i].resource_ticks),
        ),
{
    let ghost start = views@;
    let mut resolve: Vec<usize> = Vec::new();
    let mut i: usize = 0;
    while i < views.len()
        invariant
            views@.len() == start.len(),
            i <= start.len(),
            forall|j: int| 0 <= j < i ==> views@[j] == after_tick(start[j]),
            forall|j: int| i <= j < start.len() ==> views@[j] == start[j],
            lists_positions(resolve@, i as int, |j: int| resolves_at(start[j].resource_ticks)),
        decreases start.len() - i,
    {
        proof {
            lemma_lists_positions_step(
                resolve@,
                i as int,
                |j: int| resolves_at(start[j].resource_ticks),
            );
        }
        if views[i].tick() {
            resolve.push(i);
        }
        i = i + 1;
    }
    resolve
}

/// The positions, in order, of the views with a render pending.
pub fn views_to_render<D, X>(views: &Vec<BlitzView<D, X>>) -> (targets: Vec<usize>)
    ensures
        lists_positions(targets@, views@.len() as int, |i: int| views@[i].needs_render),
{
    let mut targets: Vec<usize> = Vec::new();
    let mut i: usize = 0;
    while i < views.len()
        invariant
            i <= views@.len(),
            lists_positions(targets@, i as int, |j: int| views@[j].needs_render),
        decreases views@.len() - i,
    {
        proof {
            lemma_lists_positions_step(targets@, i as int, |j: int| views@[j].needs_render);
        }
        if views[i].needs_render {
            targets.push(i);
        }
        i = i + 1;
    }
    targets
}

/// The position of the view with identifier `id` when it has a render pending.
pub fn render_target<D, X>(views: &Vec<BlitzView<D, X>>, id: ViewId) -> (target: Option<usize>)
    ensures
        match target {
            Some(i) => is_first_with_id(views@, id, i as int) && views@[i as int].needs_render,
            None => match lookup(views@, id) {
                Some(v) => !v.needs_render,
                None => true,
            },
        },
{
    match find_index(views, id) {
        Some(i) => if views[i].needs_render {
            Some(i)
        } else {
            None
        },
        None => None,
    }
}

/// Gives every view the size `width` by `height` and asks for a render of each.
pub fn resize_views<D, X>(views: &mut Vec<BlitzView<D, X>>, width: u32, height: u32)
    ensures
        final(views)@.len() == old(views)@.len(),
        forall|i: int|
            0 <= i < old(views)@.len() ==> final(views)@[i] == (BlitzView {
                width,
                height,
                needs_render: true,
                ..old(views)@[i]
            }),
{
    let ghost start = views@;
    let mut i: usize = 0;
    while i < views.len()
        invariant
            views@.len() == start.len(),
            i <= start.len(),
            forall|j: int|
                0 <= j < i ==> views@[j] == (BlitzView {
                    width,
                    height,
                    needs_render: true,
                    ..start[j]
                }),
            forall|j: int| i <= j < start.len() ==> views@[j] == start[j],
        decreases start.len() - i,
    {
        views[i].resize(width, height);
        i = i + 1;
    }
}

/// Asks for a render of every view.
pub fn mark_all_for_render<D, X>(views: &mut Vec<BlitzView<D, X>>)
    ensures
        final(views)@.len() == old(views)@.len(),
        forall|i: int| 0 <= i < old(views)@.len() ==> final(views)@[i] == marked(old(views)@[i]),
{
    let ghost start = views@;
    let mut i: usize = 0;
    while i < views.len()
        invariant
            views@.len() == start.len(),
            i <= start.len(),
            forall|j: int| 0 <= j < i ==> views@[j] == marked(start[j]),
            forall|j: int| i <= j < start.len() ==> views@[j] == start[j],
        decreases start.len() - i,
    {
        views[i].mark_for_render();
        i = i + 1;
    }
}

/// The address shown for the view `id`: the blank page's when there is no such view or it
/// has no address.
pub fn get_url<D, X>(views: &Vec<BlitzView<D, X>>, id: ViewId) -> (url: String)
    ensures
        url@ == match lookup(views@, id) {
            Some(v) => shown_url_spec(v.url@),
            None => blank_page_address(),
        },
{
    match find_view(views, id) {
        Some(v) => shown_url(&v.url),
        None => blank_page_url(),
    }
}

/// The title of the view `id`: empty when there is no such view.
pub fn get_title<D, X>(views: &Vec<BlitzView<D, X>>, id: ViewId) -> (title: String)
    ensures
        title@ == match lookup(views@, id) {
            Some(v) => v.title@,
            None => Seq::<char>::empty(),
        },
{
    match find_view(views, id) {
        Some(v) => v.title.clone(),
        None => String::new(),
    }
}

/// The cursor of the view `id`: idle when there is no such view.
pub fn get_cursor<D, X>(views: &Vec<BlitzView<D, X>>, id: ViewId) -> (cursor: CursorInteraction)
    ensures
        cursor == match lookup(views@, id) {
            Some(v) => v.cursor,
            None => CursorInteraction::Idle,
        },
{
    match find_view(views, id) {
        Some(v) => v.cursor,
        None => CursorInteraction::Idle,
    }
}

/// The last frame of the view `id`, if there is such a view.
pub fn get_view<D, X>(views: &Vec<BlitzView<D, X>>, id: ViewId) -> (frame: Option<&ImageInfo>)
    ensures
        match frame {
            Some(f) => lookup(views@, id) matches Some(v) && *f == v.last_frame,
            None => lookup(views@, id) is None,
        },
{
    match find_view(views, id) {
        Some(v) => Some(&v.last_frame),
        None => None,
    }
}

/// Whether the engine fetches pages from their address itself: Blitz does not (it only
/// fetches the resources a page refers to), so the widget fetches the HTML.
pub fn handles_urls() -> (handles: bool)
    ensures
        !handles,
{
    false
}

} // verus!