//! The window model: the application's windows as plain values, each carrying
//! the events it has received, and best-effort delivery of a deep-link URL to
//! the window labelled `"main"`.

use vstd::prelude::*;

verus! {

/// The label of the one window that deep-link events are addressed to.
pub open spec fn main_label() -> Seq<char> {
    "main"@
}

/// The name under which a forwarded URL is published to the main window.
pub open spec fn deep_link_event_name() -> Seq<char> {
    "deep-link"@
}

/// The label of the main window, as callers of the host runtime need it.
pub fn main_label_str() -> (r: &'static str)
    ensures
        r@ == main_label(),
{
    "main"
}

/// The event name deep-link deliveries are published under, as callers of the
/// host runtime need it.
pub fn deep_link_event_name_str() -> (r: &'static str)
    ensures
        r@ == deep_link_event_name(),
{
    "deep-link"
}

/// An event as a window receives it: a name and a string payload.
pub struct Event {
    pub name: String,
    pub payload: String,
}

/// The mathematical value of an [`Event`].
#[verifier::ext_equal]
pub ghost struct EventView {
    pub name: Seq<char>,
    pub payload: Seq<char>,
}

impl View for Event {
    type V = EventView;

    open spec fn view(&self) -> EventView {
        EventView { name: self.name@, payload: self.payload@ }
    }
}

/// A window: its label and the events it has received, oldest first.
pub struct Window {
    pub label: String,
    pub events: Vec<Event>,
}

/// The mathematical value of a [`Window`].
#[verifier::ext_equal]
pub ghost struct WindowView {
    pub label: Seq<char>,
    pub events: Seq<EventView>,
}

impl View for Window {
    type V = WindowView;

    open spec fn view(&self) -> WindowView {
        WindowView { label: self.label@, events: self.events@.map_values(|e: Event| e@) }
    }
}

/// The windows of the running application, in creation order.
pub struct WindowSet {
    pub windows: Vec<Window>,
}

impl View for WindowSet {
    type V = Seq<WindowView>;

    open spec fn view(&self) -> Seq<WindowView> {
        self.windows@.map_values(|w: Window| w@)
    }
}

/// Whether some window in `ws` carries the main label.
pub open spec fn has_main(ws: Seq<WindowView>) -> bool {
    exists|i: int| 0 <= i < ws.len() && ws[i].label == main_label()
}

/// The index of the first window labelled `"main"`; meaningful only when
/// `has_main(ws)` holds.
pub open spec fn first_main_index(ws: Seq<WindowView>) -> int
    decreases ws.len(),
{
    if ws.len() == 0 {
        0
    } else if ws[0].label == main_label() {
        0
    } else {
        1 + first_main_index(ws.skip(1))
    }
}

/// `w` after receiving one `"deep-link"` event carrying `url`.
pub open spec fn with_deep_link(w: WindowView, url: Seq<char>) -> WindowView {
    WindowView {
        label: w.label,
        events: w.events.push(EventView { name: deep_link_event_name(), payload: url }),
    }
}

/// Best-effort delivery of `url`: the first window labelled `"main"` receives
/// one `"deep-link"` event; with no such window nothing changes.
pub open spec fn deliver_spec(ws: Seq<WindowView>, url: Seq<char>) -> Seq<WindowView> {
    if has_main(ws) {
        ws.update(first_main_index(ws), with_deep_link(ws[first_main_index(ws)], url))
    } else {
        ws
    }
}

/// When a main window exists, `first_main_index` names the first one: it is in
/// range, carries the main label, and no window before it does.
pub proof fn lemma_first_main_index(ws: Seq<WindowView>)
    requires
        has_main(ws),
    ensures
        0 <= first_main_index(ws) < ws.len(),
        ws[first_main_index(ws)].label == main_label(),
        forall|j: int| 0 <= j < first_main_index(ws) ==> ws[j].label != main_label(),
    decreases ws.len(),
{
    if ws[0].label == main_label() {
    } else {
        let i: int = choose|i: int| 0 <= i < ws.len() && ws[i].label == main_label();
        assert(ws.skip(1)[i - 1] == ws[i]);
        assert(has_main(ws.skip(1)));
        lemma_first_main_index(ws.skip(1));
        assert forall|j: int| 0 <= j < first_main_index(ws) implies ws[j].label
            != main_label() by {
            if j > 0 {
                assert(ws.skip(1)[j - 1] == ws[j]);
            }
        }
    }
}

/// A window that carries the main label and is preceded by none that does is
/// the one `first_main_index` names.
pub proof fn lemma_first_main_index_unique(ws: Seq<WindowView>, i: int)
    requires
        0 <= i < ws.len(),
        ws[i].label == main_label(),
        forall|j: int| 0 <= j < i ==> ws[j].label != main_label(),
    ensures
        has_main(ws),
        first_main_index(ws) == i,
{
    assert(has_main(ws));
    lemma_first_main_index(ws);
}

/// Delivery to a missing main window is dropped: the window state is exactly
/// as it was, with no event published anywhere.
pub proof fn lemma_missing_window_drops(ws: Seq<WindowView>, url: Seq<char>)
    requires
        !has_main(ws),
    ensures
        deliver_spec(ws, url) == ws,
{
}

impl WindowSet {
    /// An application with no windows yet.
    pub fn new() -> (r: WindowSet)
        ensures
            r@ == Seq::<WindowView>::empty(),
    {
        let r = WindowSet { windows: Vec::new() };
        proof {
            assert(r@ =~= Seq::<WindowView>::empty());
        }
        r
    }

    /// Appends a window with the given label and no events received yet.
    pub fn add_window(&mut self, label: String)
        ensures
            final(self)@ == old(self)@.push(
                WindowView { label: label@, events: Seq::<EventView>::empty() },
            ),
    {
        let w = Window { label, events: Vec::new() };
        proof {
            assert(w@ =~= (WindowView { label: label@, events: Seq::<EventView>::empty() }));
        }
        self.windows.push(w);
        proof {
            assert(self@ =~= old(self)@.push(w@));
        }
    }

    /// Locates the first window labelled `"main"`, if any.
    pub fn find_main(&self) -> (r: Option<usize>)
        ensures
            match r {
                Some(i) => {
                    &&& (i as int) < self@.len()
                    &&& self@[i as int].label == main_label()
                    &&& forall|j: int| 0 <= j < i as int ==> self@[j].label != main_label()
                },
                None => !has_main(self@),
            },
    {
        let target: String = String::from_str(main_label_str());
        let n: usize = self.windows.len();
        let mut i: usize = 0;
        while i < n
            invariant
                n == self.windows@.len(),
                i <= n,
                target@ == main_label(),
                forall|j: int| 0 <= j < i as int ==> self@[j].label != main_label(),
            decreases n - i,
        {
            if self.windows[i].label == target {
                return Some(i);
            }
            i += 1;
        }
        None
    }
}

/// Delivers `url` to the main window as one `"deep-link"` event; if no window
/// is labelled `"main"`, the URL is dropped and nothing changes.
pub fn deliver(ws: &mut WindowSet, url: String)
    ensures
        final(ws)@ == deliver_spec(old(ws)@, url@),
{
    let ghost u: Seq<char> = url@;
    match ws.find_main() {
        None => {
        }
        Some(i) => {
            proof {
                lemma_first_main_index_unique(old(ws)@, i as int);
            }
            let mut w = ws.windows.remove(i);
            let ev = Event { name: String::from_str(deep_link_event_name_str()), payload: url };
            proof {
                assert(ev@ =~= (EventView { name: deep_link_event_name(), payload: u }));
            }
            w.events.push(ev);
            let ghost wv: WindowView = w@;
            ws.windows.insert(i, w);
            proof {
                let o = old(ws)@;
                let s1 = old(ws).windows@;
                let ii: int = i as int;
                s1.remove_ensures(ii);
                s1.remove(ii).insert_ensures(ii, w);
                assert(wv.events =~= o[ii].events.push(
                    EventView { name: deep_link_event_name(), payload: u },
                )) by {
                    s1[ii].events@.lemma_push_map_commute(|e: Event| e@, ev);
                }
                assert(wv =~= with_deep_link(o[ii], u));
                assert forall|k: int| 0 <= k < ws@.len() implies ws@[k] == deliver_spec(o, u)[k] by {
                    if k != ii {
                        assert(ws.windows@[k] == s1[k]);
                    }
                }
                assert(ws@ =~= deliver_spec(o, u));
            }
        }
    }
}

} // verus!
