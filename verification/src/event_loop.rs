use vstd::prelude::*;

use crate::renderer::{FrameStep, SurfaceStatus};

verus! {

/// The window events that the application tells apart.
#[derive(Debug, Clone, Copy, PartialEq, Eq, Structural)]
pub enum WindowEventKind {
    CloseRequested,
    RedrawRequested,
    /// Any other window event.
    Other,
}

/// What the overlay UI answered when it was shown a window event.
#[derive(Debug, Clone, Copy, PartialEq, Eq, Structural)]
pub struct EguiResponse {
    /// The UI wants a new frame.
    pub repaint: bool,
    /// The UI used the event, so the application must not act on it.
    pub consumed: bool,
}

/// Work for the event loop, performed in the order given.
#[derive(Debug, Clone, Copy, PartialEq, Eq, Structural)]
pub enum AppAction {
    /// Open the borderless full-screen window.
    CreateWindow,
    /// Set up the GPU device, surface, pipelines and overlay UI.
    Initialize,
    /// Ask the window for another redraw event.
    RequestRedraw,
    /// Render and present one frame.
    Render,
    /// Leave the event loop.
    Exit,
}

/// What the application does when it is resumed: the window and the GPU
/// state are created once, on the first resume.
pub open spec fn resumed_actions(has_window: bool) -> Seq<AppAction> {
    if has_window {
        seq![]
    } else {
        seq![AppAction::CreateWindow, AppAction::Initialize]
    }
}

/// The application's own answer to an event that the overlay UI left to it.
pub open spec fn event_kind_actions(kind: WindowEventKind) -> Seq<AppAction> {
    match kind {
        WindowEventKind::CloseRequested => seq![AppAction::Exit],
        WindowEventKind::RedrawRequested => seq![AppAction::Render],
        WindowEventKind::Other => seq![],
    }
}

/// What the application does on a window event. Once initialized, the
/// overlay UI sees the event first (`egui` is its answer, `None` before
/// initialization): a redraw is requested if it wants one, and an event it
/// consumed goes no further.
pub open spec fn window_event_actions(egui: Option<EguiResponse>, kind: WindowEventKind) -> Seq<
    AppAction,
> {
    match egui {
        Some(r) => (if r.repaint {
            seq![AppAction::RequestRedraw]
        } else {
            seq![]
        }) + (if r.consumed {
            seq![]
        } else {
            event_kind_actions(kind)
        }),
        None => event_kind_actions(kind),
    }
}

/// What follows a rendered frame: a failed frame ends the application, and
/// either way the next redraw is requested.
pub open spec fn after_render_actions(rendered: bool) -> Seq<AppAction> {
    if rendered {
        seq![AppAction::RequestRedraw]
    } else {
        seq![AppAction::Exit, AppAction::RequestRedraw]
    }
}

/// The actions for a resume of the application.
pub fn on_resumed(has_window: bool) -> (actions: Vec<AppAction>)
    ensures
        actions@ == resumed_actions(has_window),
{
    let mut actions: Vec<AppAction> = Vec::new();
    if !has_window {
        actions.push(AppAction::CreateWindow);
        actions.push(AppAction::Initialize);
    }
    proof {
        assert(actions@ =~= resumed_actions(has_window));
    }
    actions
}

/// Whether the overlay UI consumed the event.
pub open spec fn consumed_by_overlay(egui: Option<EguiResponse>) -> bool {
    egui matches Some(r) && r.consumed
}

/// A concatenation holds exactly what its two parts hold.
proof fn lemma_concat_contains(a: Seq<AppAction>, b: Seq<AppAction>, x: AppAction)
    ensures
        (a + b).contains(x) <==> (a.contains(x) || b.contains(x)),
{
    let c = a + b;
    if c.contains(x) {
        let i = choose|i: int| 0 <= i < c.len() && c[i] == x;
        if i < a.len() {
            assert(a[i] == x);
        } else {
            assert(b[i - a.len()] == x);
        }
    }
    if a.contains(x) {
        let i = choose|i: int| 0 <= i < a.len() && a[i] == x;
        assert(c[i] == x);
    }
    if b.contains(x) {
        let i = choose|i: int| 0 <= i < b.len() && b[i] == x;
        assert(c[a.len() + i] == x);
    }
}

/// A sequence of at most one action holds exactly that action.
proof fn lemma_short_contains(s: Seq<AppAction>, x: AppAction)
    ensures
        s =~= seq![] ==> !s.contains(x),
        forall|y: AppAction| s =~= seq![y] ==> (s.contains(x) <==> x == y),
{
    if s.contains(x) {
        let i = choose|i: int| 0 <= i < s.len() && s[i] == x;
    }
    assert forall|y: AppAction| s =~= seq![y] implies (s.contains(x) <==> x == y) by {
        if x == y {
            assert(s[0] == x);
        }
    }
}

/// What a window event makes the application do, in terms of the event: a
/// redraw is requested exactly when the overlay UI asks for a repaint; an
/// event the overlay did not consume gets the application's own answer, so a
/// close request exits and a redraw request renders, whatever the repaint
/// flag says; a consumed event neither exits nor renders; the repaint
/// request, if any, comes first, and nothing else is ever done.
pub proof fn lemma_window_event_actions_follow_event(egui: Option<EguiResponse>, kind: WindowEventKind)
    ensures
        window_event_actions(egui, kind).contains(AppAction::RequestRedraw) <==> (egui matches Some(
            r,
        ) && r.repaint),
        window_event_actions(egui, kind).contains(AppAction::Exit) <==> (kind
            == WindowEventKind::CloseRequested && !consumed_by_overlay(egui)),
        window_event_actions(egui, kind).contains(AppAction::Render) <==> (kind
            == WindowEventKind::RedrawRequested && !consumed_by_overlay(egui)),
        !window_event_actions(egui, kind).contains(AppAction::CreateWindow),
        !window_event_actions(egui, kind).contains(AppAction::Initialize),
        window_event_actions(egui, kind).len() <= 2,
        window_event_actions(egui, kind).contains(AppAction::RequestRedraw)
            ==> window_event_actions(egui, kind)[0] == AppAction::RequestRedraw,
{
    let a = window_event_actions(egui, kind);
    let pre: Seq<AppAction> = if egui matches Some(r) && r.repaint {
        seq![AppAction::RequestRedraw]
    } else {
        seq![]
    };
    let own: Seq<AppAction> = if consumed_by_overlay(egui) {
        seq![]
    } else {
        event_kind_actions(kind)
    };
    assert(a =~= pre + own);
    assert forall|x: AppAction| #[trigger] a.contains(x) <==> (pre.contains(x) || own.contains(x)) by {
        lemma_concat_contains(pre, own, x);
        lemma_short_contains(pre, x);
        lemma_short_contains(own, x);
    }
    lemma_short_contains(pre, AppAction::RequestRedraw);
    lemma_short_contains(pre, AppAction::Exit);
    lemma_short_contains(pre, AppAction::Render);
    lemma_short_contains(pre, AppAction::CreateWindow);
    lemma_short_contains(pre, AppAction::Initialize);
    lemma_short_contains(own, AppAction::RequestRedraw);
    lemma_short_contains(own, AppAction::Exit);
    lemma_short_contains(own, AppAction::Render);
    lemma_short_contains(own, AppAction::CreateWindow);
    lemma_short_contains(own, AppAction::Initialize);
    assert(a.contains(AppAction::RequestRedraw) <==> (pre.contains(AppAction::RequestRedraw)
        || own.contains(AppAction::RequestRedraw)));
    assert(a.contains(AppAction::Exit) <==> (pre.contains(AppAction::Exit) || own.contains(
        AppAction::Exit,
    )));
    assert(a.contains(AppAction::Render) <==> (pre.contains(AppAction::Render) || own.contains(
        AppAction::Render,
    )));
    assert(a.contains(AppAction::CreateWindow) <==> (pre.contains(AppAction::CreateWindow)
        || own.contains(AppAction::CreateWindow)));
    assert(a.contains(AppAction::Initialize) <==> (pre.contains(AppAction::Initialize)
        || own.contains(AppAction::Initialize)));
}

/// The actions for a window event.
pub fn on_window_event(egui: Option<EguiResponse>, kind: WindowEventKind) -> (actions: Vec<
    AppAction,
>)
    ensures
        actions@ == window_event_actions(egui, kind),
        egui matches Some(r) && r.consumed ==> !actions@.contains(AppAction::Exit)
            && !actions@.contains(AppAction::Render),
        actions@.contains(AppAction::RequestRedraw) <==> (egui matches Some(r) && r.repaint),
        actions@.contains(AppAction::Exit) <==> (kind == WindowEventKind::CloseRequested
            && !consumed_by_overlay(egui)),
        actions@.contains(AppAction::Render) <==> (kind == WindowEventKind::RedrawRequested
            && !consumed_by_overlay(egui)),
        !actions@.contains(AppAction::CreateWindow),
        !actions@.contains(AppAction::Initialize),
{
    let mut actions: Vec<AppAction> = Vec::new();
    let mut handled = false;
    if let Some(r) = egui {
        if r.repaint {
            actions.push(AppAction::RequestRedraw);
        }
        handled = r.consumed;
    }
    if !handled {
        match kind {
            WindowEventKind::CloseRequested => actions.push(AppAction::Exit),
            WindowEventKind::RedrawRequested => actions.push(AppAction::Render),
            WindowEventKind::Other => {},
        }
    }
    proof {
        assert(actions@ =~= window_event_actions(egui, kind));
        lemma_window_event_actions_follow_event(egui, kind);
        if egui matches Some(r) && r.consumed {
            assert(forall|i: int| 0 <= i < actions@.len() ==> actions@[i] == AppAction::RequestRedraw);
        }
    }
    actions
}

/// The actions after rendering a frame, `rendered` telling whether it succeeded.
pub fn after_render(rendered: bool) -> (actions: Vec<AppAction>)
    ensures
        actions@ == after_render_actions(rendered),
        !rendered ==> actions@.contains(AppAction::Exit),
{
    let mut actions: Vec<AppAction> = Vec::new();
    if !rendered {
        actions.push(AppAction::Exit);
    }
    actions.push(AppAction::RequestRedraw);
    proof {
        assert(actions@ =~= after_render_actions(rendered));
        if !rendered {
            assert(actions@[0] == AppAction::Exit);
        }
    }
    actions
}

/// The application draws whenever a texture was acquired, suboptimal or
/// not, skips the frame when the surface is outdated, and fails on any other
/// surface error.
pub open spec fn app_step(status: SurfaceStatus) -> FrameStep {
    match status {
        SurfaceStatus::Success | SurfaceStatus::Suboptimal => FrameStep::Draw,
        SurfaceStatus::Outdated => FrameStep::Skip,
        _ => FrameStep::Fail,
    }
}

/// The step the application's frame takes for a surface status.
pub fn app_frame_step(status: SurfaceStatus) -> (step: FrameStep)
    ensures
        step == app_step(status),
{
    match status {
        SurfaceStatus::Success | SurfaceStatus::Suboptimal => FrameStep::Draw,
        SurfaceStatus::Outdated => FrameStep::Skip,
        _ => FrameStep::Fail,
    }
}

} // verus!
