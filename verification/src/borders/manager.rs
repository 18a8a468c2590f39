//! The border subsystem: which windows carry an overlay, and what events make of them.
use crate::borders::border::Edges;
use crate::borders::overlay::{frame_fits, BorderOverlay, Frame};
use crate::borders::style::BorderStyle;
use crate::config::BorderConfig;
use std::collections::HashMap;
use vstd::prelude::*;

verus! {

/// A window's rect on screen changed.
pub const EVENT_OBJECT_LOCATIONCHANGE: u32 = 0x800B;

/// The event is about the window itself, not about a control in it.
pub const OBJID_WINDOW: i32 = 0x0000;

/// Event callbacks run in the context of the listening thread.
pub const WINEVENT_OUTOFCONTEXT: u32 = 0x0000;

/// Top-level state of the border subsystem: settings, the overlay of each bordered
/// window by the window's handle, and the thread that listens for window events.
#[derive(Debug)]
pub struct BorderManager {
    config: BorderConfig,
    overlays: HashMap<isize, BorderOverlay>,
    hooks_claimed: bool,
    hook_thread: Option<u32>,
}

/// What attaching a border to a window asks for.
#[derive(Debug, Clone, Copy, PartialEq, Eq, Structural)]
pub enum AttachPlan {
    /// Borders are switched off.
    Ignore,
    /// The window has an overlay, which gets the new style.
    Restyle,
    /// An overlay window has to be created.
    Create,
}

/// What the event loop does with the result of waiting for a message.
#[derive(Debug, Clone, Copy, PartialEq, Eq, Structural)]
pub enum HookStep {
    /// Asked to quit.
    Quit,
    /// Waiting failed.
    Fail,
    /// A message came; wait for the next.
    Continue,
}

/// Decides what follows a wait for the next message: zero is a request to quit, minus
/// one a failure.
pub fn hook_loop_step(ret: i32) -> (res: HookStep)
    ensures
        res == if ret == 0 {
            HookStep::Quit
        } else if ret == -1 {
            HookStep::Fail
        } else {
            HookStep::Continue
        },
{
    match ret {
        0 => HookStep::Quit,
        -1 => HookStep::Fail,
        _ => HookStep::Continue,
    }
}

impl BorderManager {
    /// The settings.
    pub closed spec fn settings(&self) -> BorderConfig {
        self.config
    }

    /// The overlays, by the handle of the bordered window.
    pub closed spec fn view(&self) -> Map<isize, BorderOverlay> {
        self.overlays@
    }

    /// Whether the event thread was claimed, and its identifier once it runs.
    pub closed spec fn hooks(&self) -> (bool, Option<u32>) {
        (self.hooks_claimed, self.hook_thread)
    }

    /// What attaching a border to `target` asks for.
    pub open spec fn plan_for(&self, target: isize) -> AttachPlan {
        if !self.settings().enabled {
            AttachPlan::Ignore
        } else if self@.contains_key(target) {
            AttachPlan::Restyle
        } else {
            AttachPlan::Create
        }
    }

    /// The overlays once a border was attached to `target`.
    pub open spec fn attached(
        &self,
        target: isize,
        style: BorderStyle,
        created: Option<isize>,
    ) -> Map<isize, BorderOverlay> {
        match self.plan_for(target) {
            AttachPlan::Ignore => self@,
            AttachPlan::Restyle => self@.insert(target, BorderOverlay { style, ..self@[target] }),
            AttachPlan::Create => match created {
                Some(overlay) => self@.insert(target, BorderOverlay { target, overlay, style }),
                None => self@,
            },
        }
    }

    /// A manager without overlays. The event thread is started apart from it.
    #[must_use]
    pub fn new(config: BorderConfig) -> (res: Self)
        ensures
            res.settings() == config,
            res@ == Map::<isize, BorderOverlay>::empty(),
            res.hooks() == (false, None::<u32>),
    {
        BorderManager {
            config,
            overlays: HashMap::new(),
            hooks_claimed: false,
            hook_thread: None,
        }
    }

    /// Claims the one event thread of the manager, which the program then starts; a second claim
    /// is an error.
    pub fn start_hooks(&mut self) -> (res: Result<(), String>)
        ensures
            res is Ok <==> !old(self).hooks().0,
            res is Err ==> res->Err_0@ == "start_hooks called more than once — this is a bug"@,
            final(self).hooks() == (true, old(self).hooks().1),
            final(self)@ == old(self)@,
            final(self).settings() == old(self).settings(),
    {
        if self.hooks_claimed {
            return Err("start_hooks called more than once — this is a bug".to_owned());
        }
        self.hooks_claimed = true;
        Ok(())
    }

    /// Remembers the event thread, once it has reported its identifier.
    pub fn hooks_started(&mut self, os_thread_id: u32)
        ensures
            final(self).hooks() == (old(self).hooks().0, Some(os_thread_id)),
            final(self)@ == old(self)@,
            final(self).settings() == old(self).settings(),
    {
        self.hook_thread = Some(os_thread_id);
    }

    /// The settings.
    pub fn config(&self) -> (res: &BorderConfig)
        ensures
            *res == self.settings(),
    {
        &self.config
    }

    /// Number of windows with an overlay.
    pub fn overlay_count(&self) -> (res: usize)
        ensures
            res == self@.len(),
    {
        broadcast use vstd::std_specs::hash::group_hash_axioms;

        self.overlays.len()
    }

    /// The overlay of a window.
    pub fn overlay(&self, target: isize) -> (res: Option<BorderOverlay>)
        ensures
            res == if self@.contains_key(target) {
                Some(self@[target])
            } else {
                None
            },
    {
        broadcast use vstd::std_specs::hash::group_hash_axioms;

        match self.overlays.get(&target) {
            Some(o) => Some(*o),
            None => None,
        }
    }

    /// Decides what attaching a border to `target` asks for.
    pub fn attach_plan(&self, target: isize) -> (res: AttachPlan)
        ensures
            res == self.plan_for(target),
    {
        if !self.config.enabled {
            return AttachPlan::Ignore;
        }
        match self.overlay(target) {
            Some(_) => AttachPlan::Restyle,
            None => AttachPlan::Create,
        }
    }

    /// Attaches a border to `target`. Attaching again only changes the style, and nothing
    /// happens while borders are switched off.
    ///
    /// `created` is the overlay window that was created for the target, which matters only
    /// where the plan is to create one; without it the target stays without a border.
    pub fn attach(&mut self, target: isize, style: BorderStyle, created: Option<isize>)
        ensures
            final(self)@ == old(self).attached(target, style, created),
            final(self).settings() == old(self).settings(),
            final(self).hooks() == old(self).hooks(),
    {
        broadcast use vstd::std_specs::hash::group_hash_axioms;

        if !self.config.enabled {
            return ;
        }
        match self.overlay(target) {
            Some(existing) => {
                let mut restyled: BorderOverlay = existing;
                restyled.set_style(style);
                self.overlays.insert(target, restyled);
            },
            None => {
                if let Some(overlay) = created {
                    self.overlays.insert(target, BorderOverlay::create(target, style, overlay));
                }
            },
        }
    }

    /// Detaches the overlay of `target` and gives it back, so that it can be destroyed.
    pub fn detach(&mut self, target: isize) -> (res: Option<BorderOverlay>)
        ensures
            res == if old(self)@.contains_key(target) {
                Some(old(self)@[target])
            } else {
                None
            },
            final(self)@ == old(self)@.remove(target),
            final(self).settings() == old(self).settings(),
            final(self).hooks() == old(self).hooks(),
    {
        broadcast use vstd::std_specs::hash::group_hash_axioms;

        let removed: Option<BorderOverlay> = self.overlays.remove(&target);
        removed
    }

    /// Changes the style of the overlay of `target` and gives the overlay to redraw;
    /// nothing for a window without one.
    pub fn set_style(&mut self, target: isize, style: BorderStyle) -> (res: Option<BorderOverlay>)
        ensures
            res == if old(self)@.contains_key(target) {
                Some(BorderOverlay { style, ..old(self)@[target] })
            } else {
                None
            },
            final(self)@ == if old(self)@.contains_key(target) {
                old(self)@.insert(target, BorderOverlay { style, ..old(self)@[target] })
            } else {
                old(self)@
            },
            final(self).settings() == old(self).settings(),
            final(self).hooks() == old(self).hooks(),
    {
        broadcast use vstd::std_specs::hash::group_hash_axioms;

        match self.overlay(target) {
            Some(existing) => {
                let mut restyled: BorderOverlay = existing;
                restyled.set_style(style);
                self.overlays.insert(target, restyled);
                Some(restyled)
            },
            None => None,
        }
    }

    /// The overlay window of `target` to show or hide; nothing for a window without one.
    #[must_use]
    pub fn set_visible(&self, target: isize, visible: bool) -> (res: Option<(isize, bool)>)
        ensures
            res == if self@.contains_key(target) && self@[target].overlay != 0 {
                Some((self@[target].overlay, visible))
            } else {
                None
            },
    {
        match self.overlay(target) {
            Some(o) => o.set_visible(visible),
            None => None,
        }
    }

    /// What bringing the overlay of `target` in line with its window asks for; `edges` are
    /// the current edges of the window. Nothing for a window without an overlay.
    #[must_use]
    pub fn sync_overlay(&self, target: isize, edges: Option<Edges>) -> (res: Option<Frame>)
        requires
            edges is Some ==> frame_fits(edges->Some_0),
        ensures
            res is Some <==> {
                &&& self@.contains_key(target)
                &&& self@[target].overlay != 0
                &&& edges is Some
                &&& edges->Some_0.left < edges->Some_0.right
                &&& edges->Some_0.top < edges->Some_0.bottom
            },
            res is Some ==> res->Some_0.shows(self@[target], edges->Some_0),
    {
        match self.overlay(target) {
            Some(o) => o.sync_geometry(edges),
            None => None,
        }
    }

    /// The overlay that a window event is about: the event must be about the window
    /// itself, and the window must have an overlay.
    #[must_use]
    pub fn overlay_for_event(&self, id_object: i32, target: isize) -> (res: Option<BorderOverlay>)
        ensures
            res == if id_object == OBJID_WINDOW && self@.contains_key(target) {
                Some(self@[target])
            } else {
                None
            },
    {
        if id_object != OBJID_WINDOW {
            return None;
        }
        self.overlay(target)
    }

    /// Ends the subsystem: gives the overlays to destroy and the event thread to stop.
    pub fn shutdown(self) -> (res: (HashMap<isize, BorderOverlay>, Option<u32>))
        ensures
            res.0@ == self@,
            res.1 == self.hooks().1,
    {
        (self.overlays, self.hook_thread)
    }
}

/// While borders are switched off, attaching leaves every window without an overlay.
pub proof fn disabled_manager_attaches_nothing(m: BorderManager, target: isize)
    requires
        !m.settings().enabled,
    ensures
        m.plan_for(target) == AttachPlan::Ignore,
{
}

/// A window that has an overlay is never given a second one: attaching again only changes
/// its style, whatever overlay window is offered, and the overlay window stays.
pub proof fn attaching_again_keeps_the_overlay(
    before: BorderManager,
    after: BorderManager,
    target: isize,
    style: BorderStyle,
    overlay: isize,
    new_style: BorderStyle,
    offered: Option<isize>,
)
    requires
        before.settings().enabled,
        before.plan_for(target) == AttachPlan::Create,
        after@ == before.attached(target, style, Some(overlay)),
        after.settings() == before.settings(),
    ensures
        after.plan_for(target) == AttachPlan::Restyle,
        after@[target].overlay == overlay,
        after.attached(target, new_style, offered).dom() == after@.dom(),
        after.attached(target, new_style, offered)[target] == (BorderOverlay {
            target,
            overlay,
            style: new_style,
        }),
        forall|other: isize|
            other != target && #[trigger] after@.contains_key(other) ==> after.attached(
                target,
                new_style,
                offered,
            )[other] == after@[other],
{
    assert(after.attached(target, new_style, offered).dom() =~= after@.dom());
}

/// Attaching to a window without a border and detaching again restores the overlays.
pub proof fn detach_undoes_attach(
    before: Map<isize, BorderOverlay>,
    target: isize,
    overlay: BorderOverlay,
)
    requires
        !before.contains_key(target),
    ensures
        before.insert(target, overlay).remove(target) == before,
{
    assert(before.insert(target, overlay).remove(target) =~= before);
}

/// Detaching twice is detaching once.
pub proof fn detach_is_idempotent(before: Map<isize, BorderOverlay>, target: isize)
    ensures
        before.remove(target).remove(target) == before.remove(target),
        !before.remove(target).contains_key(target),
{
    assert(before.remove(target).remove(target) =~= before.remove(target));
}

/// Attaching gives a window without an overlay the one that was created for it, with the style
/// that was asked for, where borders are switched on; every other window keeps what it has.
pub proof fn attaching_gives_a_window_its_overlay(
    m: BorderManager,
    target: isize,
    style: BorderStyle,
    created: Option<isize>,
)
    ensures
        ({
            let after = m.attached(target, style, created);
            &&& m.settings().enabled && created is Some ==> after.contains_key(target)
                && after[target].style == style && after[target].overlay == if m@.contains_key(
                target,
            ) {
                m@[target].overlay
            } else {
                created->Some_0
            }
            &&& m.settings().enabled && created is Some && !m@.contains_key(target)
                ==> after[target].target == target
            &&& m.settings().enabled && m@.contains_key(target) ==> after.contains_key(target)
                && after[target].style == style
            &&& created is None && !m@.contains_key(target) ==> !after.contains_key(target)
            &&& !m.settings().enabled ==> after == m@
            &&& forall|other: isize|
                other != target ==> after.contains_key(other) == m@.contains_key(other) && (
                m@.contains_key(other) ==> #[trigger] after[other] == m@[other])
        }),
{
}

} // verus!
