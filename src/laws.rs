use vstd::prelude::*;
use crate::events::{
    Action, Event, TrayEvent, action_of, is_left_release, quit_label, show_label,
};
use crate::session::{Session, next, revealed, run};

verus! {

/// The event is the quit entry of the tray menu.
pub open spec fn is_quit(ev: Event) -> bool {
    match ev {
        Event::Menu { id } => id@ == quit_label(),
        _ => false,
    }
}

/// The event asks for the main window back: the show entry of the tray menu,
/// or a completed left click on the tray icon.
pub open spec fn is_show_request(ev: Event) -> bool {
    match ev {
        Event::Menu { id } => id@ == show_label(),
        Event::Tray { event } => is_left_release(event),
        _ => false,
    }
}

/// One event ends a running process only if it is the quit entry; and the
/// main window, once it exists, is never destroyed.
pub proof fn only_quit_terminates_step(s: Session, ev: Event)
    ensures
        !s.terminated() && next(s, ev).terminated() ==> is_quit(ev),
        (next(s, ev).main is Some) == (s.main is Some),
{
}

/// However many events arrive, none of them the quit entry, a running
/// process keeps running and keeps its main window if it had one.
pub proof fn only_quit_terminates(s: Session, evs: Seq<Event>)
    requires
        !s.terminated(),
        forall|i: int| 0 <= i < evs.len() ==> !is_quit(#[trigger] evs[i]),
    ensures
        !run(s, evs).terminated(),
        (run(s, evs).main is Some) == (s.main is Some),
    decreases evs.len(),
{
    if evs.len() > 0 {
        let rest = evs.drop_last();
        assert forall|i: int| 0 <= i < rest.len() implies !is_quit(#[trigger] rest[i]) by {
            assert(rest[i] == evs[i]);
        }
        only_quit_terminates(s, rest);
        only_quit_terminates_step(run(s, rest), evs.last());
    }
}

/// Close requests alone, in any number, never end the process: closing only
/// hides.
pub proof fn close_requests_never_terminate(s: Session, evs: Seq<Event>)
    requires
        !s.terminated(),
        forall|i: int| 0 <= i < evs.len() ==> (#[trigger] evs[i]) is CloseRequested,
    ensures
        !run(s, evs).terminated(),
        (run(s, evs).main is Some) == (s.main is Some),
{
    assert forall|i: int| 0 <= i < evs.len() implies !is_quit(#[trigger] evs[i]) by {}
    only_quit_terminates(s, evs);
}

/// After a close request, a show request brings the main window back
/// visible and focused, whatever state it was in before, and the process
/// keeps running.
pub proof fn show_after_close(s: Session, close: Event, show: Event)
    requires
        s.main is Some,
        close is CloseRequested,
        is_show_request(show),
    ensures
        action_of(show) == Action::RevealMain,
        next(next(s, close), show).main == Some(revealed()),
        next(next(s, close), show).exit_code == s.exit_code,
{
}

/// The quit entry always ends the process with exit code 0, whatever state
/// the main window is in and whether or not it exists.
pub proof fn quit_exits_with_zero(s: Session, ev: Event)
    requires
        is_quit(ev),
    ensures
        action_of(ev) == (Action::Exit { code: 0 }),
        next(s, ev).exit_code == Some(0i32),
        next(s, ev).main == s.main,
{
}

/// A menu identifier other than the show and quit entries asks for nothing
/// and changes nothing.
pub proof fn other_menu_ids_are_inert(s: Session, id: String)
    requires
        id@ != show_label(),
        id@ != quit_label(),
    ensures
        action_of(Event::Menu { id }) == Action::Nothing,
        next(s, Event::Menu { id }) == s,
{
}

/// A tray event other than a completed left click asks for nothing and
/// changes nothing.
pub proof fn other_tray_events_are_inert(s: Session, event: TrayEvent)
    requires
        !is_left_release(event),
    ensures
        action_of(Event::Tray { event }) == Action::Nothing,
        next(s, Event::Tray { event }) == s,
{
}

} // verus!
