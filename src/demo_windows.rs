use vstd::prelude::*;

use crate::clock::clock_text;
use crate::menu_bar::{clock_label, handle_menu_event, menu_memory, menu_windows, MemoryAction, MenuEvent};
use crate::windows::{link_key, only, DemoLink, OpenWindows, WindowKey};

verus! {

/// One window that the demo app can render.
#[derive(Clone, Copy, Debug, PartialEq, Eq, Structural)]
pub enum WindowId {
    Demo,
    Settings,
    Inspection,
    Memory,
    ColorTest,
    FractalClock,
    /// The four resizable-window demos, which share one flag.
    Resizable,
    ResizableEmbeddedScroll,
    ResizableScroll,
    AutoSized,
}

/// The flag that decides whether `w` is rendered, and that its close control
/// clears.
pub open spec fn key_of(w: WindowId) -> WindowKey {
    match w {
        WindowId::Demo => WindowKey::Demo,
        WindowId::Settings => WindowKey::Settings,
        WindowId::Inspection => WindowKey::Inspection,
        WindowId::Memory => WindowKey::Memory,
        WindowId::ColorTest => WindowKey::ColorTest,
        WindowId::FractalClock => WindowKey::FractalClock,
        WindowId::Resizable => WindowKey::Resize,
        WindowId::ResizableEmbeddedScroll => WindowKey::Resize,
        WindowId::ResizableScroll => WindowKey::Resize,
        WindowId::AutoSized => WindowKey::Resize,
    }
}

/// Whether `w` is one of the resizable-window demos.
pub open spec fn in_resize_group(w: WindowId) -> bool {
    key_of(w) == WindowKey::Resize
}

impl WindowId {
    /// The flag of this window.
    pub fn key(self) -> (r: WindowKey)
        ensures
            r == key_of(self),
    {
        match self {
            WindowId::Demo => WindowKey::Demo,
            WindowId::Settings => WindowKey::Settings,
            WindowId::Inspection => WindowKey::Inspection,
            WindowId::Memory => WindowKey::Memory,
            WindowId::ColorTest => WindowKey::ColorTest,
            WindowId::FractalClock => WindowKey::FractalClock,
            WindowId::Resizable => WindowKey::Resize,
            WindowId::ResizableEmbeddedScroll => WindowKey::Resize,
            WindowId::ResizableScroll => WindowKey::Resize,
            WindowId::AutoSized => WindowKey::Resize,
        }
    }
}

/// The windows with a flag of their own, in the order they are rendered.
pub open spec fn main_order() -> Seq<WindowId> {
    seq![
        WindowId::Demo,
        WindowId::Settings,
        WindowId::Inspection,
        WindowId::Memory,
        WindowId::ColorTest,
        WindowId::FractalClock,
    ]
}

/// The resizable-window demos, in the order they are rendered.
pub open spec fn resize_order() -> Seq<WindowId> {
    seq![
        WindowId::Resizable,
        WindowId::ResizableEmbeddedScroll,
        WindowId::ResizableScroll,
        WindowId::AutoSized,
    ]
}

/// Rendering one window: it shows when its flag is on, and a click on its
/// close control clears that flag and no other.
pub open spec fn window_step(o: OpenWindows, w: WindowId, close_clicked: bool) -> OpenWindows {
    if o.flag(key_of(w)) && close_clicked {
        o.with(key_of(w), false)
    } else {
        o
    }
}

/// The visibility set after rendering `ws` in order, where the user clicks
/// the close control of each window in `closes` that is shown.
pub open spec fn window_pass(o: OpenWindows, ws: Seq<WindowId>, closes: Seq<WindowId>) -> OpenWindows
    decreases ws.len(),
{
    if ws.len() == 0 {
        o
    } else {
        window_step(window_pass(o, ws.drop_last(), closes), ws.last(), closes.contains(ws.last()))
    }
}

/// The windows of `ws` that are rendered, in order.
pub open spec fn shown_in_pass(o: OpenWindows, ws: Seq<WindowId>, closes: Seq<WindowId>) -> Seq<
    WindowId,
>
    decreases ws.len(),
{
    if ws.len() == 0 {
        seq![]
    } else if window_pass(o, ws.drop_last(), closes).flag(key_of(ws.last())) {
        shown_in_pass(o, ws.drop_last(), closes).push(ws.last())
    } else {
        shown_in_pass(o, ws.drop_last(), closes)
    }
}

/// The visibility set after a link value is observed, given the link
/// observed on the frame before: a change to `Some(l)` leaves only the
/// window of `l` open; anything else leaves the set as it is.
pub open spec fn link_step(o: OpenWindows, previous: Option<DemoLink>, link: Option<DemoLink>) -> OpenWindows {
    if previous != link && link.is_some() {
        only(link_key(link.unwrap()))
    } else {
        o
    }
}

/// The visibility set after the menu events `es`, in order.
pub open spec fn menu_pass(o: OpenWindows, clock_shown: bool, es: Seq<MenuEvent>) -> OpenWindows
    decreases es.len(),
{
    if es.len() == 0 {
        o
    } else {
        menu_windows(menu_pass(o, clock_shown, es.drop_last()), clock_shown, es.last())
    }
}

/// Input that the host supplies once per frame.
#[derive(Clone, Copy, Debug, PartialEq, Eq, Structural)]
pub struct DemoEnvironment {
    /// Local time, in hundredths of a second since midnight.
    pub centis_since_midnight: Option<u64>,
    /// Set to `Some` to open a specific part of the demo app.
    pub link: Option<DemoLink>,
}

/// What one frame asks the host to draw and do.
pub struct Frame {
    /// The text of the clock label of the menu bar, when a time is known.
    pub clock_label: Option<String>,
    /// One memory action per menu event, in order.
    pub memory_actions: Vec<MemoryAction>,
    /// The windows rendered, in order.
    pub shown: Vec<WindowId>,
}

/// The state of the demo app across frames: which windows are open, and the
/// link seen on the last frame.
#[derive(Clone, Copy, Debug, PartialEq, Eq, Structural)]
pub struct DemoWindows {
    open_windows: OpenWindows,
    previous_link: Option<DemoLink>,
}

/// Whether `w` occurs in `ws`.
fn contains_window(ws: &Vec<WindowId>, w: WindowId) -> (r: bool)
    ensures
        r == ws@.contains(w),
{
    let mut i: usize = 0;
    while i < ws.len()
        invariant
            i <= ws@.len(),
            forall|j: int| 0 <= j < i ==> ws@[j] != w,
        decreases ws@.len() - i,
    {
        if ws[i] == w {
            return true;
        }
        i = i + 1;
    }
    false
}

impl DemoWindows {
    /// Which windows are open.
    pub closed spec fn open_spec(self) -> OpenWindows {
        self.open_windows
    }

    /// The link seen on the last frame.
    pub closed spec fn previous_spec(self) -> Option<DemoLink> {
        self.previous_link
    }

    /// The state from a visibility set and the link seen last.
    pub fn new(open_windows: OpenWindows, previous_link: Option<DemoLink>) -> (r: DemoWindows)
        ensures
            r.open_spec() == open_windows,
            r.previous_spec() == previous_link,
    {
        DemoWindows { open_windows, previous_link }
    }

    /// Which windows are open.
    pub fn open_windows(&self) -> (r: OpenWindows)
        ensures
            r == self.open_spec(),
    {
        self.open_windows
    }

    /// The link seen on the last frame.
    pub fn previous_link(&self) -> (r: Option<DemoLink>)
        ensures
            r == self.previous_spec(),
    {
        self.previous_link
    }

    /// Reacts to the link of this frame: where it differs from the one seen
    /// last and names a window, that window alone is left open. The link is
    /// then remembered.
    pub fn follow_link(&mut self, link: Option<DemoLink>)
        ensures
            final(self).open_spec() == link_step(old(self).open_spec(), old(self).previous_spec(), link),
            final(self).previous_spec() == link,
    {
        if self.previous_link != link {
            match link {
                None => {},
                Some(DemoLink::Clock) => {
                    self.open_windows = OpenWindows::only(WindowKey::FractalClock);
                },
            }
            self.previous_link = link;
        }
    }

    /// Clicks the close control of window `w`.
    pub fn close(&mut self, w: WindowId)
        ensures
            final(self).open_spec() == old(self).open_spec().with(key_of(w), false),
            final(self).previous_spec() == old(self).previous_spec(),
    {
        self.open_windows.set(w.key(), false);
    }
}

impl Default for DemoWindows {
    /// The default windows open, and no link seen yet.
    fn default() -> (r: DemoWindows)
        ensures
            r.open_spec() == only(WindowKey::Demo),
            r.previous_spec() == None::<DemoLink>,
    {
        DemoWindows { open_windows: OpenWindows::default(), previous_link: None }
    }
}

impl DemoWindows {
    /// Renders window `w` if its flag is on; where `close_clicked`, its close
    /// control then clears that flag. Returns whether it was rendered.
    pub fn show_window(&mut self, w: WindowId, close_clicked: bool) -> (shown: bool)
        ensures
            shown == old(self).open_spec().flag(key_of(w)),
            final(self).open_spec() == window_step(old(self).open_spec(), w, close_clicked),
            final(self).previous_spec() == old(self).previous_spec(),
    {
        let k = w.key();
        let shown = self.open_windows.get(k);
        if shown && close_clicked {
            self.open_windows.set(k, false);
        }
        shown
    }

    /// Renders the windows of `order` in turn, appending each one rendered to
    /// `shown`; the user clicks the close control of those in `closes`.
    fn show_windows(&mut self, order: &Vec<WindowId>, closes: &Vec<WindowId>, shown: &mut Vec<WindowId>)
        ensures
            final(self).open_spec() == window_pass(old(self).open_spec(), order@, closes@),
            final(shown)@ == old(shown)@ + shown_in_pass(old(self).open_spec(), order@, closes@),
            final(self).previous_spec() == old(self).previous_spec(),
    {
        let ghost o = self.open_spec();
        let ghost start = shown@;
        let mut i: usize = 0;
        while i < order.len()
            invariant
                i <= order@.len(),
                self.open_spec() == window_pass(o, order@.take(i as int), closes@),
                shown@ == start + shown_in_pass(o, order@.take(i as int), closes@),
                self.previous_spec() == old(self).previous_spec(),
            decreases order@.len() - i,
        {
            let w = order[i];
            let close_clicked = contains_window(closes, w);
            proof {
                assert(order@.take(i + 1).drop_last() =~= order@.take(i as int));
                assert(order@.take(i + 1).last() == w);
            }
            if self.show_window(w, close_clicked) {
                shown.push(w);
            }
            i = i + 1;
            assert(shown@ =~= start + shown_in_pass(o, order@.take(i as int), closes@));
        }
        assert(order@.take(i as int) =~= order@);
    }

    /// Renders the resizable-window demos, which all share one flag: closing
    /// any of them closes them all, and those after it in the order are not
    /// rendered this frame.
    pub fn resize_windows(&mut self, closes: &Vec<WindowId>, shown: &mut Vec<WindowId>)
        ensures
            final(self).open_spec() == window_pass(old(self).open_spec(), resize_order(), closes@),
            final(shown)@ == old(shown)@ + shown_in_pass(old(self).open_spec(), resize_order(), closes@),
            final(self).previous_spec() == old(self).previous_spec(),
    {
        let order = vec![
            WindowId::Resizable,
            WindowId::ResizableEmbeddedScroll,
            WindowId::ResizableScroll,
            WindowId::AutoSized,
        ];
        assert(order@ =~= resize_order());
        self.show_windows(&order, closes, shown);
    }

    /// Renders every open window and returns them in order; the user clicks
    /// the close control of those in `closes`.
    pub fn windows(&mut self, closes: &Vec<WindowId>) -> (shown: Vec<WindowId>)
        ensures
            final(self).open_spec() == window_pass(
                window_pass(old(self).open_spec(), main_order(), closes@),
                resize_order(),
                closes@,
            ),
            shown@ == shown_in_pass(old(self).open_spec(), main_order(), closes@) + shown_in_pass(
                window_pass(old(self).open_spec(), main_order(), closes@),
                resize_order(),
                closes@,
            ),
            final(self).previous_spec() == old(self).previous_spec(),
    {
        let order = vec![
            WindowId::Demo,
            WindowId::Settings,
            WindowId::Inspection,
            WindowId::Memory,
            WindowId::ColorTest,
            WindowId::FractalClock,
        ];
        assert(order@ =~= main_order());
        let mut shown: Vec<WindowId> = Vec::new();
        self.show_windows(&order, closes, &mut shown);
        assert(shown@ =~= shown_in_pass(old(self).open_spec(), main_order(), closes@));
        self.resize_windows(closes, &mut shown);
        shown
    }

    /// Applies the menu events of one frame in order, and returns the memory
    /// action of each.
    pub fn show_menu_bar(&mut self, clock_shown: bool, events: &Vec<MenuEvent>) -> (r: Vec<
        MemoryAction,
    >)
        ensures
            final(self).open_spec() == menu_pass(old(self).open_spec(), clock_shown, events@),
            r@ == events@.map_values(|e: MenuEvent| menu_memory(e)),
            final(self).previous_spec() == old(self).previous_spec(),
    {
        let ghost o = self.open_spec();
        let mut actions: Vec<MemoryAction> = Vec::new();
        let mut i: usize = 0;
        while i < events.len()
            invariant
                i <= events@.len(),
                self.open_spec() == menu_pass(o, clock_shown, events@.take(i as int)),
                actions@ == events@.take(i as int).map_values(|e: MenuEvent| menu_memory(e)),
                self.previous_spec() == old(self).previous_spec(),
            decreases events@.len() - i,
        {
            let e = events[i];
            proof {
                assert(events@.take(i + 1).drop_last() =~= events@.take(i as int));
                assert(events@.take(i + 1).last() == e);
            }
            let a = handle_menu_event(&mut self.open_windows, clock_shown, e);
            actions.push(a);
            i = i + 1;
            assert(actions@ =~= events@.take(i as int).map_values(|e: MenuEvent| menu_memory(e)));
        }
        assert(events@.take(i as int) =~= events@);
        actions
    }

    /// One frame: follow the link, apply the menu events, then render the
    /// open windows, of which the user closes those in `closes`.
    pub fn ui(&mut self, env: &DemoEnvironment, events: &Vec<MenuEvent>, closes: &Vec<WindowId>) -> (r:
        Frame)
        ensures
            ({
                let linked = link_step(old(self).open_spec(), old(self).previous_spec(), env.link);
                let menued = menu_pass(linked, env.centis_since_midnight.is_some(), events@);
                let mid = window_pass(menued, main_order(), closes@);
                &&& final(self).open_spec() == window_pass(mid, resize_order(), closes@)
                &&& r.shown@ == shown_in_pass(menued, main_order(), closes@) + shown_in_pass(
                    mid,
                    resize_order(),
                    closes@,
                )
            }),
            final(self).previous_spec() == env.link,
            r.memory_actions@ == events@.map_values(|e: MenuEvent| menu_memory(e)),
            r.clock_label.is_some() == env.centis_since_midnight.is_some(),
            r.clock_label.is_some() ==> r.clock_label.unwrap()@ == clock_text(
                env.centis_since_midnight.unwrap() as nat,
            ),
    {
        self.follow_link(env.link);
        let label = clock_label(env.centis_since_midnight);
        let memory_actions = self.show_menu_bar(env.centis_since_midnight.is_some(), events);
        let shown = self.windows(closes);
        Frame { clock_label: label, memory_actions, shown }
    }
}

/// The link remembered after the frames `links`, starting from `previous`.
pub open spec fn remembered(previous: Option<DemoLink>, links: Seq<Option<DemoLink>>) -> Option<
    DemoLink,
> {
    if links.len() == 0 {
        previous
    } else {
        links.last()
    }
}

/// The visibility set after one frame per link of `links`, with no other
/// change between frames.
pub open spec fn link_run(o: OpenWindows, previous: Option<DemoLink>, links: Seq<Option<DemoLink>>) -> OpenWindows
    decreases links.len(),
{
    if links.len() == 0 {
        o
    } else {
        link_step(
            link_run(o, previous, links.drop_last()),
            remembered(previous, links.drop_last()),
            links.last(),
        )
    }
}

/// A link held over any number of frames acts as it does on the first of
/// them alone.
pub proof fn lemma_held_link(o: OpenWindows, previous: Option<DemoLink>, links: Seq<Option<DemoLink>>, link: Option<DemoLink>)
    requires
        links.len() >= 1,
        forall|i: int| 0 <= i < links.len() ==> #[trigger] links[i] == link,
    ensures
        link_run(o, previous, links) == link_step(o, previous, link),
    decreases links.len(),
{
    let head = links.drop_last();
    assert(links.last() == link);
    if links.len() > 1 {
        assert(head.last() == link);
        assert(remembered(previous, head) == link);
        lemma_held_link(o, previous, head, link);
        lemma_link_edge_triggered(link_run(o, previous, head), link, link);
    } else {
        assert(link_run(o, previous, head) == o);
        assert(remembered(previous, head) == previous);
    }
}

/// A link acts only on the frame where it changes: once remembered, the same
/// link leaves every visibility set as it is; a change to a window's link
/// leaves that window alone open; a change to no link changes nothing.
pub proof fn lemma_link_edge_triggered(o: OpenWindows, previous: Option<DemoLink>, link: Option<DemoLink>)
    ensures
        link_step(o, link, link) == o,
        (previous == link || link.is_none()) ==> link_step(o, previous, link) == o,
        (previous != link && link.is_some()) ==> link_step(o, previous, link) == only(
            link_key(link.unwrap()),
        ),
{
}

/// After a change to the link `Some(l)`, the flag of `l` is the only one on,
/// whatever the set held before.
pub proof fn lemma_link_isolation(o: OpenWindows, previous: Option<DemoLink>, l: DemoLink)
    requires
        previous != Some(l),
    ensures
        forall|k: WindowKey| #[trigger] link_step(o, previous, Some(l)).flag(k) == (k == link_key(l)),
{
}

/// Closing a window with a flag of its own leaves the flag of every other such
/// window as it was.
pub proof fn lemma_independent_close(o: OpenWindows, a: WindowId, b: WindowId, close_clicked: bool)
    requires
        a != b,
        !in_resize_group(a),
        !in_resize_group(b),
    ensures
        window_step(o, a, close_clicked).flag(key_of(b)) == o.flag(key_of(b)),
        o.with(key_of(a), false).flag(key_of(b)) == o.flag(key_of(b)),
{
}

/// Rendering windows never opens one.
proof fn lemma_pass_only_clears(o: OpenWindows, ws: Seq<WindowId>, closes: Seq<WindowId>)
    ensures
        forall|k: WindowKey| #[trigger] window_pass(o, ws, closes).flag(k) ==> o.flag(k),
    decreases ws.len(),
{
    if ws.len() > 0 {
        lemma_pass_only_clears(o, ws.drop_last(), closes);
        let prev = window_pass(o, ws.drop_last(), closes);
        assert forall|k: WindowKey| #[trigger] window_pass(o, ws, closes).flag(k) implies o.flag(
            k,
        ) by {
            assert(window_pass(o, ws, closes).flag(k) ==> prev.flag(k));
        }
    }
}

/// A window whose close control is clicked during a pass ends it closed.
proof fn lemma_pass_closes(o: OpenWindows, ws: Seq<WindowId>, closes: Seq<WindowId>, w: WindowId)
    requires
        ws.contains(w),
        closes.contains(w),
    ensures
        !window_pass(o, ws, closes).flag(key_of(w)),
    decreases ws.len(),
{
    if ws.last() == w {
        lemma_pass_only_clears(o, ws.drop_last(), closes);
    } else {
        let i = choose|i: int| 0 <= i < ws.len() && ws[i] == w;
        assert(ws.drop_last()[i] == w);
        lemma_pass_closes(o, ws.drop_last(), closes, w);
    }
}

/// No window of a group whose flag is off is rendered.
proof fn lemma_pass_hidden(o: OpenWindows, ws: Seq<WindowId>, closes: Seq<WindowId>, k: WindowKey)
    requires
        !o.flag(k),
        forall|i: int| 0 <= i < ws.len() ==> key_of(#[trigger] ws[i]) == k,
    ensures
        shown_in_pass(o, ws, closes) == Seq::<WindowId>::empty(),
    decreases ws.len(),
{
    if ws.len() > 0 {
        lemma_pass_only_clears(o, ws.drop_last(), closes);
        assert(key_of(ws[ws.len() - 1]) == k);
        lemma_pass_hidden(o, ws.drop_last(), closes, k);
    }
}

/// Closing any one of the resizable-window demos clears their shared flag, so
/// that none of them is rendered on the next pass, whatever is clicked then.
pub proof fn lemma_shared_resize_close(
    o: OpenWindows,
    closes: Seq<WindowId>,
    w: WindowId,
    next_closes: Seq<WindowId>,
)
    requires
        in_resize_group(w),
        closes.contains(w),
    ensures
        !window_pass(o, resize_order(), closes).resize,
        shown_in_pass(window_pass(o, resize_order(), closes), resize_order(), next_closes)
            == Seq::<WindowId>::empty(),
{
    let order = resize_order();
    assert(order[0] == WindowId::Resizable);
    assert(order[1] == WindowId::ResizableEmbeddedScroll);
    assert(order[2] == WindowId::ResizableScroll);
    assert(order[3] == WindowId::AutoSized);
    assert(order.contains(w));
    lemma_pass_closes(o, order, closes, w);
    lemma_pass_hidden(window_pass(o, order, closes), order, next_closes, WindowKey::Resize);
}

} // verus!
