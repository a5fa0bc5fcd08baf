use vstd::prelude::*;
use crate::components::canvas::CanvasComponent;
use crate::components::help::HelpModal;
use crate::components::panels::properties::PropertiesPanel;
use crate::components::panels::tools::{tools_key_done, ToolsPanel};
use crate::components::table_editor::edit_ready;
use crate::events::global::{global_key_done, GlobalHandler};
use crate::events::types::{KeyEvent, MouseEvent, MouseEventKind};
use crate::events::{settle, settled, ActionType, EventResult};
use crate::state::command::FileRequest;
use crate::state::AppState;

verus! {

/// The components that take events, each with what it keeps between events.
pub struct Components {
    pub help: HelpModal,
    pub tools: ToolsPanel,
    pub properties: PropertiesPanel,
    pub canvas: CanvasComponent,
    pub global: GlobalHandler,
}

impl Components {
    /// Fresh components: help scrolled to the top, no element in the panel.
    pub fn new() -> (c: Self)
        ensures
            c.help.spec_scroll() == 0,
            c.properties.spec_inputs().len() == 0,
            c.properties.spec_focus() is None,
            c.properties.spec_element() is None,
            c.properties.wf(),
    {
        Components {
            help: HelpModal::new(),
            tools: ToolsPanel::new(),
            properties: PropertiesPanel::new(),
            canvas: CanvasComponent::new(),
            global: GlobalHandler,
        }
    }
}

/// Whether a final answer `r` gives the outcome `quit`.
pub open spec fn ends_with(r: EventResult, quit: bool) -> bool {
    quit == (r == EventResult::Action(ActionType::Quit))
}

/// The global handler's turn with a key: it comes last, so its answer ends
/// the chain, with the file work it asks for.
pub open spec fn global_key_turn(c0: Components, c1: Components, s0: AppState, s1: AppState, key: KeyEvent,
    out: (bool, FileRequest)) -> bool
{
    &&& c1 == c0
    &&& exists|rg: (EventResult, FileRequest)| #[trigger] global_key_done(s0, s1, key, rg)
        && ends_with(rg.0, out.0) && out.1 == rg.1
}

/// The canvas's turn with a key; a key it ignores goes on to the global handler.
pub open spec fn canvas_key_turn(c0: Components, c1: Components, s0: AppState, s1: AppState, key: KeyEvent,
    out: (bool, FileRequest)) -> bool
{
    exists|cc: CanvasComponent, sc: AppState, rc: EventResult|
        #[trigger] CanvasComponent::key_done(c0.canvas, cc, s0, sc, key, rc) && if rc == EventResult::Ignored {
            global_key_turn(Components { canvas: cc, ..c0 }, c1, sc, s1, key, out)
        } else {
            s1 == sc && c1 == (Components { canvas: cc, ..c0 }) && settled(rc) == Some(out.0) && out.1 is Nothing
        }
}

/// The properties panel's turn with a key; a key it ignores goes on to the canvas.
pub open spec fn properties_key_turn(c0: Components, c1: Components, s0: AppState, s1: AppState, key: KeyEvent,
    out: (bool, FileRequest)) -> bool
{
    exists|cp: PropertiesPanel, sp: AppState, rp: EventResult|
        #[trigger] PropertiesPanel::key_done(c0.properties, cp, s0, sp, key, rp) && if rp == EventResult::Ignored {
            canvas_key_turn(Components { properties: cp, ..c0 }, c1, sp, s1, key, out)
        } else {
            s1 == sp && c1 == (Components { properties: cp, ..c0 }) && settled(rp) == Some(out.0) && out.1 is Nothing
        }
}

/// The tools modal's turn with a key; a key it ignores goes on to the properties panel.
pub open spec fn tools_key_turn(c0: Components, c1: Components, s0: AppState, s1: AppState, key: KeyEvent,
    out: (bool, FileRequest)) -> bool
{
    exists|st: AppState, rt: EventResult| #[trigger] tools_key_done(s0, st, key, rt) && if rt == EventResult::Ignored {
        properties_key_turn(c0, c1, st, s1, key, out)
    } else {
        s1 == st && c1 == c0 && settled(rt) == Some(out.0) && out.1 is Nothing
    }
}

/// A key handed down the chain help, tools, properties, canvas, global: the
/// first handler that does not ignore it gives the outcome (`out.0` asks to
/// quit; `out.1` is file work that only the global handler asks for), and
/// the handlers after it never see the key.
pub open spec fn key_dispatched(c0: Components, c1: Components, s0: AppState, s1: AppState, key: KeyEvent,
    out: (bool, FileRequest)) -> bool
{
    exists|ch: HelpModal, sh: AppState, rh: EventResult|
        #[trigger] HelpModal::key_done(c0.help, ch, s0, sh, key, rh) && if rh == EventResult::Ignored {
            tools_key_turn(Components { help: ch, ..c0 }, c1, sh, s1, key, out)
        } else {
            s1 == sh && c1 == (Components { help: ch, ..c0 }) && settled(rh) == Some(out.0) && out.1 is Nothing
        }
}

/// Hands a key down the chain of components (see `key_dispatched`); `true`
/// asks to quit, and the file request is work for the caller.
pub fn dispatch_key(state: &mut AppState, c: &mut Components, key: &KeyEvent) -> (out: (bool, FileRequest))
    requires
        old(state).layout.canvas.height * 60 <= u16::MAX,
        old(state).tool.wf(),
        old(c).properties.wf(),
        old(state).editing_table matches Some(e) ==> edit_ready(e),
        old(state).canvas.spec_next_id() < usize::MAX,
    ensures
        key_dispatched(*old(c), *final(c), *old(state), *final(state), *key, out),
        final(c).properties.wf(),
        final(state).tool.wf(),
{
    let ghost c0 = *c;
    let ghost s0 = *state;
    let rh = c.help.handle_key_event(state, key);
    let ghost c1 = *c;
    let ghost s1 = *state;
    if let Some(q) = settle(rh) {
        let out = (q, FileRequest::Nothing);
        assert(HelpModal::key_done(c0.help, c1.help, s0, s1, *key, rh));
        return out;
    }
    let rt = c.tools.handle_key_event(state, key);
    let ghost c2 = *c;
    let ghost s2 = *state;
    if let Some(q) = settle(rt) {
        let out = (q, FileRequest::Nothing);
        assert(tools_key_done(s1, s2, *key, rt));
        assert(tools_key_turn(c1, c2, s1, s2, *key, out));
        assert(HelpModal::key_done(c0.help, c1.help, s0, s1, *key, rh));
        return out;
    }
    let rp = c.properties.handle_key_event(state, key);
    let ghost c3 = *c;
    let ghost s3 = *state;
    if let Some(q) = settle(rp) {
        let out = (q, FileRequest::Nothing);
        assert(PropertiesPanel::key_done(c2.properties, c3.properties, s2, s3, *key, rp));
        assert(properties_key_turn(c2, c3, s2, s3, *key, out));
        assert(tools_key_done(s1, s2, *key, rt));
        assert(tools_key_turn(c1, c3, s1, s3, *key, out));
        assert(HelpModal::key_done(c0.help, c1.help, s0, s1, *key, rh));
        return out;
    }
    let rc = c.canvas.handle_key_event(state, key);
    let ghost c4 = *c;
    let ghost s4 = *state;
    if let Some(q) = settle(rc) {
        let out = (q, FileRequest::Nothing);
        assert(CanvasComponent::key_done(c3.canvas, c4.canvas, s3, s4, *key, rc));
        assert(canvas_key_turn(c3, c4, s3, s4, *key, out));
        assert(PropertiesPanel::key_done(c2.properties, c3.properties, s2, s3, *key, rp));
        assert(properties_key_turn(c2, c4, s2, s4, *key, out));
        assert(tools_key_done(s1, s2, *key, rt));
        assert(tools_key_turn(c1, c4, s1, s4, *key, out));
        assert(HelpModal::key_done(c0.help, c1.help, s0, s1, *key, rh));
        return out;
    }
    let rg = c.global.handle_key_event(state, key);
    let out = (rg.0 == EventResult::Action(ActionType::Quit), rg.1);
    proof {
        assert(global_key_done(s4, *state, *key, rg));
        assert(global_key_turn(c4, *c, s4, *state, *key, out));
        assert(CanvasComponent::key_done(c3.canvas, c4.canvas, s3, s4, *key, rc));
        assert(canvas_key_turn(c3, *c, s3, *state, *key, out));
        assert(PropertiesPanel::key_done(c2.properties, c3.properties, s2, s3, *key, rp));
        assert(properties_key_turn(c2, *c, s2, *state, *key, out));
        assert(tools_key_done(s1, s2, *key, rt));
        assert(tools_key_turn(c1, *c, s1, *state, *key, out));
        assert(HelpModal::key_done(c0.help, c1.help, s0, s1, *key, rh));
    }
    out
}

/// The global handler's turn with a press: last in the chain.
pub open spec fn global_down_turn(c0: Components, c1: Components, s0: AppState, s1: AppState, ev: MouseEvent,
    quit: bool) -> bool
{
    exists|cg: GlobalHandler, rg: EventResult| #[trigger] GlobalHandler::down_done(c0.global, cg, s0, s1, ev, rg)
        && c1 == (Components { global: cg, ..c0 }) && ends_with(rg, quit)
}

/// The canvas's turn with a press; a press it ignores goes on to the global handler.
pub open spec fn canvas_down_turn(c0: Components, c1: Components, s0: AppState, s1: AppState, ev: MouseEvent,
    quit: bool) -> bool
{
    exists|cc: CanvasComponent, sc: AppState, rc: EventResult|
        #[trigger] CanvasComponent::down_done(c0.canvas, cc, s0, sc, ev, rc) && if rc == EventResult::Ignored {
            global_down_turn(Components { canvas: cc, ..c0 }, c1, sc, s1, ev, quit)
        } else {
            s1 == sc && c1 == (Components { canvas: cc, ..c0 }) && settled(rc) == Some(quit)
        }
}

/// The properties panel's turn with a press; a press it ignores goes on to the canvas.
pub open spec fn properties_down_turn(c0: Components, c1: Components, s0: AppState, s1: AppState, ev: MouseEvent,
    quit: bool) -> bool
{
    exists|cp: PropertiesPanel, sp: AppState, rp: EventResult|
        #[trigger] PropertiesPanel::down_done(c0.properties, cp, s0, sp, ev, rp) && if rp == EventResult::Ignored {
            canvas_down_turn(Components { properties: cp, ..c0 }, c1, sp, s1, ev, quit)
        } else {
            s1 == sp && c1 == (Components { properties: cp, ..c0 }) && settled(rp) == Some(quit)
        }
}

/// A press handed down the chain tools, properties, canvas, global: the first
/// handler that does not ignore it gives the outcome, and the handlers after
/// it never see the press.
pub open spec fn down_dispatched(c0: Components, c1: Components, s0: AppState, s1: AppState, ev: MouseEvent,
    quit: bool) -> bool
{
    exists|ct: ToolsPanel, st: AppState, rt: EventResult|
        #[trigger] ToolsPanel::down_done(c0.tools, ct, s0, st, ev, rt) && if rt == EventResult::Ignored {
            properties_down_turn(Components { tools: ct, ..c0 }, c1, st, s1, ev, quit)
        } else {
            s1 == st && c1 == (Components { tools: ct, ..c0 }) && settled(rt) == Some(quit)
        }
}

/// A mouse event handed to the components that take its kind: a press goes
/// down the chain of `down_dispatched`; a release, a move and a drag go to
/// the canvas; a scroll goes to the help modal. Only those handlers act, and
/// `quit` is whether the answer asks to quit.
pub open spec fn mouse_dispatched(c0: Components, c1: Components, s0: AppState, s1: AppState, ev: MouseEvent,
    quit: bool) -> bool
{
    match ev.kind {
        MouseEventKind::Down(_) => down_dispatched(c0, c1, s0, s1, ev, quit),
        MouseEventKind::Up(_) => exists|cc: CanvasComponent, rc: EventResult|
            #[trigger] CanvasComponent::up_done(c0.canvas, cc, s0, s1, ev, rc)
            && c1 == (Components { canvas: cc, ..c0 }) && ends_with(rc, quit),
        MouseEventKind::Moved => exists|cc: CanvasComponent, rc: EventResult|
            #[trigger] CanvasComponent::moved_done(c0.canvas, cc, s0, s1, ev, rc)
            && c1 == (Components { canvas: cc, ..c0 }) && ends_with(rc, quit),
        MouseEventKind::Drag(_) => exists|cc: CanvasComponent, rc: EventResult|
            #[trigger] CanvasComponent::drag_done(c0.canvas, cc, s0, s1, ev, rc)
            && c1 == (Components { canvas: cc, ..c0 }) && ends_with(rc, quit),
        _ => exists|ch: HelpModal, rh: EventResult|
            #[trigger] HelpModal::scroll_done(c0.help, ch, s0, s1, ev, rh)
            && c1 == (Components { help: ch, ..c0 }) && ends_with(rh, quit),
    }
}

/// Hands a mouse event to the components (see `mouse_dispatched`); `true`
/// asks to quit.
pub fn dispatch_mouse(state: &mut AppState, c: &mut Components, ev: &MouseEvent) -> (quit: bool)
    requires
        old(state).layout.canvas.height * 60 <= u16::MAX,
        old(c).properties.wf(),
        old(state).canvas.spec_next_id() < usize::MAX,
    ensures
        mouse_dispatched(*old(c), *final(c), *old(state), *final(state), *ev, quit),
        final(c).properties.wf(),
        old(state).tool.wf() ==> final(state).tool.wf(),
{
    let ghost c0 = *c;
    let ghost s0 = *state;
    match ev.kind {
        MouseEventKind::Down(_) => {
            let rt = c.tools.handle_mouse_down(state, ev);
            let ghost c1 = *c;
            let ghost s1 = *state;
            if let Some(q) = settle(rt) {
                assert(ToolsPanel::down_done(c0.tools, c1.tools, s0, s1, *ev, rt));
                return q;
            }
            let rp = c.properties.handle_mouse_down(state, ev);
            let ghost c2 = *c;
            let ghost s2 = *state;
            if let Some(q) = settle(rp) {
                assert(PropertiesPanel::down_done(c1.properties, c2.properties, s1, s2, *ev, rp));
                assert(properties_down_turn(c1, c2, s1, s2, *ev, q));
                assert(ToolsPanel::down_done(c0.tools, c1.tools, s0, s1, *ev, rt));
                return q;
            }
            let rc = c.canvas.handle_mouse_down(state, ev);
            let ghost c3 = *c;
            let ghost s3 = *state;
            if let Some(q) = settle(rc) {
                assert(CanvasComponent::down_done(c2.canvas, c3.canvas, s2, s3, *ev, rc));
                assert(canvas_down_turn(c2, c3, s2, s3, *ev, q));
                assert(PropertiesPanel::down_done(c1.properties, c2.properties, s1, s2, *ev, rp));
                assert(properties_down_turn(c1, c3, s1, s3, *ev, q));
                assert(ToolsPanel::down_done(c0.tools, c1.tools, s0, s1, *ev, rt));
                return q;
            }
            let rg = c.global.handle_mouse_down(state, ev);
            let q = rg == EventResult::Action(ActionType::Quit);
            proof {
                assert(GlobalHandler::down_done(c3.global, c.global, s3, *state, *ev, rg));
                assert(global_down_turn(c3, *c, s3, *state, *ev, q));
                assert(CanvasComponent::down_done(c2.canvas, c3.canvas, s2, s3, *ev, rc));
                assert(canvas_down_turn(c2, *c, s2, *state, *ev, q));
                assert(PropertiesPanel::down_done(c1.properties, c2.properties, s1, s2, *ev, rp));
                assert(properties_down_turn(c1, *c, s1, *state, *ev, q));
                assert(ToolsPanel::down_done(c0.tools, c1.tools, s0, s1, *ev, rt));
            }
            q
        },
        MouseEventKind::Up(_) => {
            let r = c.canvas.handle_mouse_up(state, ev);
            assert(CanvasComponent::up_done(c0.canvas, c.canvas, s0, *state, *ev, r));
            r == EventResult::Action(ActionType::Quit)
        },
        MouseEventKind::Moved => {
            let r = c.canvas.handle_mouse_moved(state, ev);
            assert(CanvasComponent::moved_done(c0.canvas, c.canvas, s0, *state, *ev, r));
            r == EventResult::Action(ActionType::Quit)
        },
        MouseEventKind::Drag(_) => {
            let r = c.canvas.handle_mouse_drag(state, ev);
            assert(CanvasComponent::drag_done(c0.canvas, c.canvas, s0, *state, *ev, r));
            r == EventResult::Action(ActionType::Quit)
        },
        _ => {
            let r = c.help.handle_mouse_scroll(state, ev);
            assert(HelpModal::scroll_done(c0.help, c.help, s0, *state, *ev, r));
            r == EventResult::Action(ActionType::Quit)
        },
    }
}

/// An input event as the components see it.
pub enum Event {
    Key(KeyEvent),
    Mouse(MouseEvent),
    /// Anything else the terminal reports (a resize, focus, paste).
    Other,
}

/// What handling `event` does: keys go down the key chain, mouse events to
/// the components that take their kind, anything else changes nothing.
pub open spec fn event_handled(event: Event, c0: Components, c1: Components, s0: AppState, s1: AppState,
    out: (bool, FileRequest)) -> bool
{
    match event {
        Event::Key(k) => key_dispatched(c0, c1, s0, s1, k, out),
        Event::Mouse(m) => mouse_dispatched(c0, c1, s0, s1, m, out.0) && out.1 is Nothing,
        Event::Other => c1 == c0 && s1 == s0 && out.0 == false && out.1 is Nothing,
    }
}

/// Hands an event to the components; `true` asks to quit, and the file
/// request is work for the caller.
pub fn handle_event(event: &Event, c: &mut Components, state: &mut AppState) -> (out: (bool, FileRequest))
    requires
        old(state).layout.canvas.height * 60 <= u16::MAX,
        old(state).tool.wf(),
        old(c).properties.wf(),
        old(state).editing_table matches Some(e) ==> edit_ready(e),
        old(state).canvas.spec_next_id() < usize::MAX,
    ensures
        event_handled(*event, *old(c), *final(c), *old(state), *final(state), out),
        final(c).properties.wf(),
        final(state).tool.wf(),
{
    match event {
        Event::Key(k) => dispatch_key(state, c, k),
        Event::Mouse(m) => (dispatch_mouse(state, c, m), FileRequest::Nothing),
        Event::Other => (false, FileRequest::Nothing),
    }
}

} // verus!
