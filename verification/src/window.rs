//! The window display-mode state machine.
//!
//! The session owns one native window that is always in exactly one of three
//! modes: windowed, exclusive fullscreen, or borderless (the overlay is a
//! toggle layered on top of borderless). The controller here is the verified
//! model of that window: it keeps the last true windowed geometry as the
//! restore target and decides every transition, returning the commands the
//! unverified shell must hand to the windowing backend. The invariants are:
//! the windowed geometry snapshot is updated only by explicit windowed-state
//! resize/move calls or on leaving a true windowed state, never from
//! transient fullscreen/borderless geometry; fullscreen and borderless are
//! mutually exclusive (entering one exits the other first); and overlay mode
//! implies borderless, always-on-top and mouse passthrough.

use vstd::prelude::*;

verus! {

/// Which of the three display modes the window is in.
#[derive(Clone, Copy, Debug, PartialEq, Eq, Structural)]
pub enum DisplayMode {
    Windowed,
    Fullscreen,
    Borderless,
}

/// The primary display's video mode, as the windowing backend reports it.
#[derive(Clone, Copy, Debug, PartialEq, Eq, Structural)]
pub struct VideoMode {
    pub width: i32,
    pub height: i32,
    pub refresh_rate: u32,
}

/// A buffer-swap pacing choice for the presentation step.
#[derive(Clone, Copy, Debug, PartialEq, Eq, Structural)]
pub enum SwapMode {
    /// No synchronization: present as fast as possible.
    Immediate,
    /// Adaptive vertical synchronization.
    Adaptive,
    /// Synchronize to every n-th vertical blank.
    SyncEvery(u32),
}

/// One instruction for the unverified shell to hand to the windowing backend.
#[derive(Clone, Copy, Debug, PartialEq, Eq, Structural)]
pub enum WindowCommand {
    /// Request exclusive fullscreen at the given video mode.
    EnterFullscreen { width: i32, height: i32, refresh_rate: u32 },
    /// Leave exclusive fullscreen for windowed mode at the given geometry.
    LeaveFullscreen { x: i32, y: i32, width: i32, height: i32 },
    SetPos { x: i32, y: i32 },
    SetSize { width: i32, height: i32 },
    SetDecorated(bool),
    SetFloating(bool),
    SetPassthrough(bool),
}

/// The window controller's state. The geometry fields are the last true
/// windowed position and size: the restore target for every transition back
/// to windowed mode.
#[derive(Clone, Copy, Debug)]
pub struct Window {
    pub windowed_pos: (i32, i32),
    pub windowed_size: (i32, i32),
    pub mode: DisplayMode,
    pub overlay_mode: bool,
}

impl Window {
    /// Well-formedness: the overlay is a layer over borderless mode, so it is
    /// never set in windowed or fullscreen mode. Fullscreen/borderless
    /// exclusion is structural (one `mode` field).
    pub open spec fn wf(self) -> bool {
        self.overlay_mode ==> self.mode is Borderless
    }

    /// Whether the window currently has its decorations (it loses them
    /// exactly in borderless mode).
    pub open spec fn decorated(self) -> bool {
        !(self.mode is Borderless)
    }

    /// Whether the window is currently always-on-top.
    pub open spec fn floating(self) -> bool {
        self.overlay_mode
    }

    /// Whether mouse input currently passes through the window.
    pub open spec fn passthrough(self) -> bool {
        self.overlay_mode
    }
}

/// The command that restores the snapshotted windowed geometry on leaving
/// exclusive fullscreen.
pub open spec fn restore_windowed_cmd(s: Window) -> WindowCommand {
    WindowCommand::LeaveFullscreen {
        x: s.windowed_pos.0,
        y: s.windowed_pos.1,
        width: s.windowed_size.0,
        height: s.windowed_size.1,
    }
}

/// The state and commands after a borderless-mode request.
///
/// Entering exits exclusive fullscreen first if needed, snapshots the
/// windowed geometry only when leaving a true windowed state (the actual
/// geometry is what the backend reports for the window at that moment),
/// removes decorations and fills the primary display. Leaving restores
/// decorations and the snapshotted geometry, and drops the overlay layer if
/// it was set.
pub open spec fn spec_set_borderless(
    s: Window,
    enable: bool,
    actual_pos: (i32, i32),
    actual_size: (i32, i32),
    vm: VideoMode,
) -> (Window, Seq<WindowCommand>) {
    if enable {
        let exited = if s.mode is Fullscreen {
            (Window { mode: DisplayMode::Windowed, ..s }, seq![restore_windowed_cmd(s)])
        } else {
            (s, Seq::<WindowCommand>::empty())
        };
        let snapped = if s.mode is Windowed {
            Window { windowed_pos: actual_pos, windowed_size: actual_size, ..exited.0 }
        } else {
            exited.0
        };
        (
            Window { mode: DisplayMode::Borderless, ..snapped },
            exited.1 + seq![
                WindowCommand::SetDecorated(false),
                WindowCommand::SetPos { x: 0, y: 0 },
                WindowCommand::SetSize { width: vm.width, height: vm.height },
            ],
        )
    } else {
        let drop_overlay = if s.overlay_mode {
            seq![WindowCommand::SetFloating(false), WindowCommand::SetPassthrough(false)]
        } else {
            Seq::<WindowCommand>::empty()
        };
        (
            Window { mode: DisplayMode::Windowed, overlay_mode: false, ..s },
            drop_overlay + seq![
                WindowCommand::SetDecorated(true),
                WindowCommand::SetPos { x: s.windowed_pos.0, y: s.windowed_pos.1 },
                WindowCommand::SetSize { width: s.windowed_size.0, height: s.windowed_size.1 },
            ],
        )
    }
}

/// The state and commands after a fullscreen request. A request for the mode
/// the window is already in does nothing. Entering from borderless exits the
/// borderless/overlay layer first; entering from windowed snapshots the
/// actual geometry; leaving restores the snapshot.
pub open spec fn spec_set_fullscreen(
    s: Window,
    fullscreen: bool,
    actual_pos: (i32, i32),
    actual_size: (i32, i32),
    vm: VideoMode,
) -> (Window, Seq<WindowCommand>) {
    let enter_cmd = WindowCommand::EnterFullscreen {
        width: vm.width,
        height: vm.height,
        refresh_rate: vm.refresh_rate,
    };
    if fullscreen == (s.mode is Fullscreen) {
        (s, Seq::<WindowCommand>::empty())
    } else if fullscreen {
        if s.mode is Borderless {
            let exited = spec_set_borderless(s, false, actual_pos, actual_size, vm);
            (Window { mode: DisplayMode::Fullscreen, ..exited.0 }, exited.1 + seq![enter_cmd])
        } else {
            (
                Window {
                    windowed_pos: actual_pos,
                    windowed_size: actual_size,
                    mode: DisplayMode::Fullscreen,
                    ..s
                },
                seq![enter_cmd],
            )
        }
    } else {
        (Window { mode: DisplayMode::Windowed, ..s }, seq![restore_windowed_cmd(s)])
    }
}

/// The state and commands after an overlay-mode request: set or clear the
/// always-on-top and mouse-passthrough flags, then enter or leave borderless
/// mode accordingly.
pub open spec fn spec_set_overlay(
    s: Window,
    enable: bool,
    actual_pos: (i32, i32),
    actual_size: (i32, i32),
    vm: VideoMode,
) -> (Window, Seq<WindowCommand>) {
    let flagged = Window { overlay_mode: enable, ..s };
    let inner = spec_set_borderless(flagged, enable, actual_pos, actual_size, vm);
    (
        inner.0,
        seq![WindowCommand::SetFloating(enable), WindowCommand::SetPassthrough(enable)] + inner.1,
    )
}

/// The swap-pacing choice for a requested frame interval: -1 asks for
/// adaptive synchronization, 0 for none, n >= 1 for every n-th vertical
/// blank, and anything below -1 falls back to every blank.
pub open spec fn spec_swap_mode(interval: i32) -> SwapMode {
    if interval == -1 {
        SwapMode::Adaptive
    } else if interval == 0 {
        SwapMode::Immediate
    } else if interval >= 1 {
        SwapMode::SyncEvery(interval as u32)
    } else {
        SwapMode::SyncEvery(1)
    }
}

impl Window {
    /// A fresh controller for a window created windowed at the given size.
    pub fn new(width: i32, height: i32) -> (w: Window)
        ensures
            w == (Window {
                windowed_pos: (0, 0),
                windowed_size: (width, height),
                mode: DisplayMode::Windowed,
                overlay_mode: false,
            }),
            w.wf(),
    {
        Window {
            windowed_pos: (0, 0),
            windowed_size: (width, height),
            mode: DisplayMode::Windowed,
            overlay_mode: false,
        }
    }

    /// The last true windowed size: the restore target.
    pub fn get_window_size(&self) -> (size: (i32, i32))
        ensures
            size == self.windowed_size,
    {
        self.windowed_size
    }

    /// An explicit resize request: it updates the windowed-geometry snapshot
    /// and asks the backend to resize.
    pub fn set_window_size(&mut self, size: (i32, i32)) -> (c: WindowCommand)
        ensures
            *final(self) == (Window { windowed_size: size, ..*old(self) }),
            c == (WindowCommand::SetSize { width: size.0, height: size.1 }),
    {
        self.windowed_size = size;
        WindowCommand::SetSize { width: size.0, height: size.1 }
    }

    /// The last true windowed position: the restore target.
    pub fn get_window_pos(&self) -> (pos: (i32, i32))
        ensures
            pos == self.windowed_pos,
    {
        self.windowed_pos
    }

    /// An explicit move request: it updates the windowed-geometry snapshot
    /// and asks the backend to move the window.
    pub fn set_window_pos(&mut self, pos: (i32, i32)) -> (c: WindowCommand)
        ensures
            *final(self) == (Window { windowed_pos: pos, ..*old(self) }),
            c == (WindowCommand::SetPos { x: pos.0, y: pos.1 }),
    {
        self.windowed_pos = pos;
        WindowCommand::SetPos { x: pos.0, y: pos.1 }
    }

    /// Enter or leave exclusive fullscreen. `actual_pos` and `actual_size`
    /// are the window's current geometry as the backend reports it; they are
    /// snapshotted when leaving a true windowed state.
    pub fn set_fullscreen(
        &mut self,
        fullscreen: bool,
        actual_pos: (i32, i32),
        actual_size: (i32, i32),
        vm: &VideoMode,
    ) -> (cmds: Vec<WindowCommand>)
        ensures
            *final(self) == spec_set_fullscreen(*old(self), fullscreen, actual_pos, actual_size, *vm).0,
            cmds@ == spec_set_fullscreen(*old(self), fullscreen, actual_pos, actual_size, *vm).1,
    {
        let mut cmds: Vec<WindowCommand> = Vec::new();
        if fullscreen == matches!(self.mode, DisplayMode::Fullscreen) {
            return cmds;
        }
        if fullscreen {
            if matches!(self.mode, DisplayMode::Borderless) {
                cmds = self.set_borderless_fullscreen(false, actual_pos, actual_size, vm);
            } else {
                self.windowed_pos = actual_pos;
                self.windowed_size = actual_size;
            }
            self.mode = DisplayMode::Fullscreen;
            cmds.push(WindowCommand::EnterFullscreen {
                width: vm.width,
                height: vm.height,
                refresh_rate: vm.refresh_rate,
            });
        } else {
            self.mode = DisplayMode::Windowed;
            cmds.push(WindowCommand::LeaveFullscreen {
                x: self.windowed_pos.0,
                y: self.windowed_pos.1,
                width: self.windowed_size.0,
                height: self.windowed_size.1,
            });
        }
        proof {
            assert(cmds@ =~= spec_set_fullscreen(*old(self), fullscreen, actual_pos, actual_size, *vm).1);
        }
        cmds
    }

    /// Enter or leave borderless mode. Entering exits exclusive fullscreen
    /// first and fills the primary display without decorations; leaving
    /// restores decorations, the snapshotted geometry, and drops the overlay
    /// layer if it was set.
    pub fn set_borderless_fullscreen(
        &mut self,
        enable: bool,
        actual_pos: (i32, i32),
        actual_size: (i32, i32),
        vm: &VideoMode,
    ) -> (cmds: Vec<WindowCommand>)
        ensures
            *final(self) == spec_set_borderless(*old(self), enable, actual_pos, actual_size, *vm).0,
            cmds@ == spec_set_borderless(*old(self), enable, actual_pos, actual_size, *vm).1,
    {
        let mut cmds: Vec<WindowCommand> = Vec::new();
        if enable {
            if matches!(self.mode, DisplayMode::Fullscreen) {
                cmds.push(WindowCommand::LeaveFullscreen {
                    x: self.windowed_pos.0,
                    y: self.windowed_pos.1,
                    width: self.windowed_size.0,
                    height: self.windowed_size.1,
                });
            } else if matches!(self.mode, DisplayMode::Windowed) {
                self.windowed_pos = actual_pos;
                self.windowed_size = actual_size;
            }
            self.mode = DisplayMode::Borderless;
            cmds.push(WindowCommand::SetDecorated(false));
            cmds.push(WindowCommand::SetPos { x: 0, y: 0 });
            cmds.push(WindowCommand::SetSize { width: vm.width, height: vm.height });
        } else {
            if self.overlay_mode {
                cmds.push(WindowCommand::SetFloating(false));
                cmds.push(WindowCommand::SetPassthrough(false));
            }
            self.overlay_mode = false;
            self.mode = DisplayMode::Windowed;
            cmds.push(WindowCommand::SetDecorated(true));
            cmds.push(WindowCommand::SetPos { x: self.windowed_pos.0, y: self.windowed_pos.1 });
            cmds.push(WindowCommand::SetSize {
                width: self.windowed_size.0,
                height: self.windowed_size.1,
            });
        }
        proof {
            assert(cmds@ =~= spec_set_borderless(*old(self), enable, actual_pos, actual_size, *vm).1);
        }
        cmds
    }

    /// Set or clear overlay mode: always-on-top plus mouse passthrough,
    /// layered on borderless mode.
    pub fn set_overlay_mode(
        &mut self,
        enable: bool,
        actual_pos: (i32, i32),
        actual_size: (i32, i32),
        vm: &VideoMode,
    ) -> (cmds: Vec<WindowCommand>)
        ensures
            *final(self) == spec_set_overlay(*old(self), enable, actual_pos, actual_size, *vm).0,
            cmds@ == spec_set_overlay(*old(self), enable, actual_pos, actual_size, *vm).1,
    {
        let mut cmds: Vec<WindowCommand> = Vec::new();
        cmds.push(WindowCommand::SetFloating(enable));
        cmds.push(WindowCommand::SetPassthrough(enable));
        self.overlay_mode = enable;
        let mut rest = self.set_borderless_fullscreen(enable, actual_pos, actual_size, vm);
        cmds.append(&mut rest);
        proof {
            assert(cmds@ =~= spec_set_overlay(*old(self), enable, actual_pos, actual_size, *vm).1);
        }
        cmds
    }

    /// Flip overlay mode.
    pub fn toggle_overlay_mode(
        &mut self,
        actual_pos: (i32, i32),
        actual_size: (i32, i32),
        vm: &VideoMode,
    ) -> (cmds: Vec<WindowCommand>)
        ensures
            *final(self) == spec_set_overlay(
                *old(self),
                !old(self).overlay_mode,
                actual_pos,
                actual_size,
                *vm,
            ).0,
            cmds@ == spec_set_overlay(
                *old(self),
                !old(self).overlay_mode,
                actual_pos,
                actual_size,
                *vm,
            ).1,
    {
        let enable = !self.overlay_mode;
        self.set_overlay_mode(enable, actual_pos, actual_size, vm)
    }

    /// The swap-pacing choice for a requested frame interval.
    pub fn set_fps(&self, interval: i32) -> (m: SwapMode)
        ensures
            m == spec_swap_mode(interval),
    {
        if interval == -1 {
            SwapMode::Adaptive
        } else if interval == 0 {
            SwapMode::Immediate
        } else if interval >= 1 {
            SwapMode::SyncEvery(interval as u32)
        } else {
            SwapMode::SyncEvery(1)
        }
    }
}

/// Every transition preserves well-formedness of the controller state.
pub proof fn lemma_transitions_preserve_wf(
    s: Window,
    enable: bool,
    actual_pos: (i32, i32),
    actual_size: (i32, i32),
    vm: VideoMode,
)
    requires
        s.wf(),
    ensures
        spec_set_borderless(s, enable, actual_pos, actual_size, vm).0.wf(),
        spec_set_fullscreen(s, enable, actual_pos, actual_size, vm).0.wf(),
        spec_set_overlay(s, enable, actual_pos, actual_size, vm).0.wf(),
{
}

/// Entering exclusive fullscreen and then returning to windowed restores the
/// pre-fullscreen position and size bit for bit, for arbitrary starting
/// geometry, whatever video modes the two transitions saw.
pub proof fn lemma_fullscreen_round_trip(
    s: Window,
    actual_pos: (i32, i32),
    actual_size: (i32, i32),
    vm1: VideoMode,
    later_pos: (i32, i32),
    later_size: (i32, i32),
    vm2: VideoMode,
)
    requires
        s.wf(),
        s.mode is Windowed,
    ensures
        ({
            let entered = spec_set_fullscreen(s, true, actual_pos, actual_size, vm1).0;
            let left = spec_set_fullscreen(entered, false, later_pos, later_size, vm2);
            &&& left.0.mode is Windowed
            &&& left.0.windowed_pos == actual_pos
            &&& left.0.windowed_size == actual_size
            &&& left.1 == seq![WindowCommand::LeaveFullscreen {
                x: actual_pos.0,
                y: actual_pos.1,
                width: actual_size.0,
                height: actual_size.1,
            }]
        }),
{
}

/// Toggling overlay mode twice from a well-formed windowed state restores
/// the decoration, floating and passthrough flags to their original values,
/// and restores the windowed geometry to the pre-toggle snapshot: the first
/// toggle snapshots the actual geometry, the second one's restore commands
/// carry exactly that snapshot.
pub proof fn lemma_overlay_toggle_round_trip(
    s: Window,
    actual_pos: (i32, i32),
    actual_size: (i32, i32),
    vm1: VideoMode,
    later_pos: (i32, i32),
    later_size: (i32, i32),
    vm2: VideoMode,
)
    requires
        s.wf(),
        s.mode is Windowed,
    ensures
        ({
            let entered = spec_set_overlay(s, true, actual_pos, actual_size, vm1).0;
            let left = spec_set_overlay(entered, false, later_pos, later_size, vm2);
            &&& left.0.mode is Windowed
            &&& !left.0.overlay_mode
            &&& left.0.decorated() == s.decorated()
            &&& left.0.floating() == s.floating()
            &&& left.0.passthrough() == s.passthrough()
            &&& left.0.windowed_pos == actual_pos
            &&& left.0.windowed_size == actual_size
            &&& left.1 == seq![
                WindowCommand::SetFloating(false),
                WindowCommand::SetPassthrough(false),
                WindowCommand::SetDecorated(true),
                WindowCommand::SetPos { x: actual_pos.0, y: actual_pos.1 },
                WindowCommand::SetSize { width: actual_size.0, height: actual_size.1 },
            ]
        }),
{
    let entered = spec_set_overlay(s, true, actual_pos, actual_size, vm1).0;
    let left = spec_set_overlay(entered, false, later_pos, later_size, vm2);
    assert(left.1 =~= seq![
        WindowCommand::SetFloating(false),
        WindowCommand::SetPassthrough(false),
        WindowCommand::SetDecorated(true),
        WindowCommand::SetPos { x: actual_pos.0, y: actual_pos.1 },
        WindowCommand::SetSize { width: actual_size.0, height: actual_size.1 },
    ]);
}

} // verus!
