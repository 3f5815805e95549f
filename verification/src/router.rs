//! The launch router: decides, from the argument list a process launch
//! carries, whether a deep-link URL was supplied, and routes it to the main
//! window. Three independent entry points — a blocked second launch, the
//! first launch's own arguments, and the OS URL-open notification — share one
//! delivery primitive.

use vstd::prelude::*;

use crate::window::WindowSet;
use crate::window::WindowView;
use crate::window::deliver;
use crate::window::deliver_spec;
use crate::window::deep_link_event_name;
use crate::window::EventView;
use crate::window::first_main_index;
use crate::window::has_main;
use crate::window::lemma_first_main_index;

verus! {

/// The deep-link URL carried by an argument list: its second element, if any.
/// The first element is the program's own name and never a payload.
pub open spec fn payload_spec(argv: Seq<Seq<char>>) -> Option<Seq<char>> {
    if argv.len() > 1 {
        Some(argv[1])
    } else {
        None
    }
}

/// What routing an argument list does to the windows: with more than one
/// argument the second is delivered to the main window, otherwise nothing.
pub open spec fn route_spec(ws: Seq<WindowView>, argv: Seq<Seq<char>>) -> Seq<WindowView> {
    if argv.len() > 1 {
        deliver_spec(ws, argv[1])
    } else {
        ws
    }
}

/// The deep-link URL an argument list carries: `argv[1]` when there is more
/// than one argument, nothing otherwise. No URL syntax is checked.
pub fn deep_link_payload(argv: &Vec<String>) -> (r: Option<&String>)
    ensures
        match r {
            Some(u) => payload_spec(argv.deep_view()) == Some(u@),
            None => payload_spec(argv.deep_view()) is None,
        },
{
    if argv.len() > 1 {
        Some(&argv[1])
    } else {
        None
    }
}

/// Routes one argument list: delivers `argv[1]` to the main window when the
/// list has more than one element, and otherwise leaves every window as it
/// was.
pub fn route_args(ws: &mut WindowSet, argv: Vec<String>)
    ensures
        final(ws)@ == route_spec(old(ws)@, argv.deep_view()),
{
    if argv.len() > 1 {
        let mut args = argv;
        let url = args.remove(1);
        deliver(ws, url);
    }
}

/// Trigger for a blocked second launch: the host runtime hands over the other
/// instance's argument list, and it is routed exactly as a first launch's
/// own.
pub fn handle_second_instance(ws: &mut WindowSet, argv: Vec<String>)
    ensures
        final(ws)@ == route_spec(old(ws)@, argv.deep_view()),
{
    route_args(ws, argv);
}

/// Trigger for the first launch: the process's own argument list is routed at
/// setup time, exactly as a second instance's would be.
pub fn handle_launch(ws: &mut WindowSet, argv: Vec<String>)
    ensures
        final(ws)@ == route_spec(old(ws)@, argv.deep_view()),
{
    route_args(ws, argv);
}

/// Trigger for the OS URL-open notification: the received URLs are handed
/// back for logging only; no window receives any event from this path.
pub fn handle_open_url(ws: &mut WindowSet, urls: Vec<String>) -> (logged: Vec<String>)
    ensures
        *final(ws) == *old(ws),
        final(ws)@ == old(ws)@,
        logged == urls,
{
    urls
}

/// An operating system, as far as deep-link scheme registration cares.
#[derive(Clone, Copy, PartialEq, Eq, Structural, Debug)]
pub enum Os {
    Linux,
    Windows,
    MacOs,
    Other,
}

/// Whether the running program must register the deep-link URL scheme itself
/// at startup: only in non-production (debug) builds, and only on Linux and
/// Windows. Production installers register the scheme at install time, so
/// every other OS/build combination skips it.
pub fn should_register_scheme(os: Os, debug_build: bool) -> (r: bool)
    ensures
        r == ((os == Os::Linux || os == Os::Windows) && debug_build),
{
    match os {
        Os::Linux => debug_build,
        Os::Windows => debug_build,
        Os::MacOs => false,
        Os::Other => false,
    }
}

/// With at most one argument, no delivery occurs: routing leaves every window
/// exactly as it was, whichever trigger received the list.
pub proof fn lemma_short_argv_no_delivery(ws: Seq<WindowView>, argv: Seq<Seq<char>>)
    requires
        argv.len() <= 1,
    ensures
        route_spec(ws, argv) == ws,
{
}

/// With more than one argument, exactly one delivery is attempted, carrying
/// `argv[1]`: when a main window exists, the first one gains exactly one
/// `"deep-link"` event with that payload and every other window is unchanged;
/// when none exists, every window is unchanged. Both launch triggers route
/// through this same function, so the statement holds regardless of trigger.
pub proof fn lemma_single_delivery(ws: Seq<WindowView>, argv: Seq<Seq<char>>)
    requires
        argv.len() > 1,
    ensures
        route_spec(ws, argv).len() == ws.len(),
        has_main(ws) ==> {
            let i = first_main_index(ws);
            let out = route_spec(ws, argv);
            &&& out[i].label == ws[i].label
            &&& out[i].events == ws[i].events.push(
                EventView { name: deep_link_event_name(), payload: argv[1] },
            )
            &&& forall|j: int| 0 <= j < ws.len() && j != i ==> out[j] == ws[j]
        },
        !has_main(ws) ==> route_spec(ws, argv) == ws,
{
    if has_main(ws) {
        lemma_first_main_index(ws);
    }
}

} // verus!
