//! The discovery phase: which globals the compositor announced, the geometry
//! of each output, and when the keyboard may be set up.
use vstd::prelude::*;
use crate::surface::KEYBOARD_HEIGHT;

verus! {

/// A global interface that the keyboard binds.
#[derive(Clone, Copy, Debug, PartialEq, Eq, Structural)]
pub enum GlobalKind {
    Output,
    Shm,
    Seat,
    LayerShell,
    WmBase,
    XdgOutputManager,
    VirtualKeyboardManager,
}

/// The kind of a global by its interface name; other names are ignored.
pub open spec fn interface_kind(name: Seq<char>) -> Option<GlobalKind> {
    if name == "wl_output"@ {
        Some(GlobalKind::Output)
    } else if name == "wl_shm"@ {
        Some(GlobalKind::Shm)
    } else if name == "wl_seat"@ {
        Some(GlobalKind::Seat)
    } else if name == "zwlr_layer_shell_v1"@ {
        Some(GlobalKind::LayerShell)
    } else if name == "xdg_wm_base"@ {
        Some(GlobalKind::WmBase)
    } else if name == "zxdg_output_manager_v1"@ {
        Some(GlobalKind::XdgOutputManager)
    } else if name == "zwp_virtual_keyboard_manager_v1"@ {
        Some(GlobalKind::VirtualKeyboardManager)
    } else {
        None
    }
}

pub fn global_kind(interface: &str) -> (r: Option<GlobalKind>)
    ensures
        r == interface_kind(interface@),
{
    let name = interface.to_owned();
    if name == String::from_str("wl_output") {
        Some(GlobalKind::Output)
    } else if name == String::from_str("wl_shm") {
        Some(GlobalKind::Shm)
    } else if name == String::from_str("wl_seat") {
        Some(GlobalKind::Seat)
    } else if name == String::from_str("zwlr_layer_shell_v1") {
        Some(GlobalKind::LayerShell)
    } else if name == String::from_str("xdg_wm_base") {
        Some(GlobalKind::WmBase)
    } else if name == String::from_str("zxdg_output_manager_v1") {
        Some(GlobalKind::XdgOutputManager)
    } else if name == String::from_str("zwp_virtual_keyboard_manager_v1") {
        Some(GlobalKind::VirtualKeyboardManager)
    } else {
        None
    }
}

/// Why the keyboard cannot be set up from what was discovered.
#[derive(Clone, Copy, Debug, PartialEq, Eq, Structural)]
pub enum SetupError {
    /// No layer shell or no window-manager base: the compositor is unsupported.
    Unsupported,
    /// No shared-memory allocator, seat, output manager or virtual-keyboard manager.
    MissingGlobal,
    /// No output was announced.
    NoOutput,
    /// Some output's geometry is still unknown.
    UnresolvedOutput,
}

/// Where and how large the keyboard is drawn.
#[derive(Clone, Copy, Debug, PartialEq, Eq, Structural)]
pub struct KeyboardPlan {
    pub output: usize,
    pub width: i32,
    pub height: i32,
}

/// What the registry has announced so far.
#[derive(Debug)]
pub struct Discovery {
    /// Per output, in order of announcement: its size once known.
    pub outputs: Vec<Option<(i32, i32)>>,
    pub shm: bool,
    pub seat: bool,
    pub layer_shell: bool,
    pub wm_base: bool,
    pub xdg_output_manager: bool,
    pub virtual_keyboard_manager: bool,
}

impl Discovery {
    pub fn new() -> (r: Discovery)
        ensures
            r.outputs@.len() == 0,
            !r.shm && !r.seat && !r.layer_shell && !r.wm_base && !r.xdg_output_manager
                && !r.virtual_keyboard_manager,
    {
        Discovery {
            outputs: Vec::new(),
            shm: false,
            seat: false,
            layer_shell: false,
            wm_base: false,
            xdg_output_manager: false,
            virtual_keyboard_manager: false,
        }
    }

    /// Every announced output has a known size.
    pub open spec fn all_resolved_spec(self) -> bool {
        forall|i: int| 0 <= i < self.outputs@.len() ==> (#[trigger] self.outputs@[i]) is Some
    }

    /// What setting up would give now.
    pub open spec fn outcome(self) -> Result<KeyboardPlan, SetupError> {
        if !self.layer_shell || !self.wm_base {
            Err(SetupError::Unsupported)
        } else if !self.shm || !self.seat || !self.xdg_output_manager
            || !self.virtual_keyboard_manager {
            Err(SetupError::MissingGlobal)
        } else if self.outputs@.len() == 0 {
            Err(SetupError::NoOutput)
        } else if !self.all_resolved_spec() {
            Err(SetupError::UnresolvedOutput)
        } else {
            Ok(
                KeyboardPlan {
                    output: 0,
                    width: self.outputs@[0]->Some_0.0,
                    height: KEYBOARD_HEIGHT,
                },
            )
        }
    }

    /// Records an announced global. An output gets the next index, returned,
    /// with its size unknown.
    pub fn announce(&mut self, kind: GlobalKind) -> (r: Option<usize>)
        requires
            old(self).outputs@.len() < usize::MAX,
        ensures
            kind == GlobalKind::Output ==> r == Some(old(self).outputs@.len() as usize) && final(self).outputs@ == old(self).outputs@.push(None),
            kind != GlobalKind::Output ==> r is None && final(self).outputs@ == old(self).outputs@,
            final(self).shm == (old(self).shm || kind == GlobalKind::Shm),
            final(self).seat == (old(self).seat || kind == GlobalKind::Seat),
            final(self).layer_shell == (old(self).layer_shell || kind == GlobalKind::LayerShell),
            final(self).wm_base == (old(self).wm_base || kind == GlobalKind::WmBase),
            final(self).xdg_output_manager == (old(self).xdg_output_manager || kind
                == GlobalKind::XdgOutputManager),
            final(self).virtual_keyboard_manager == (old(self).virtual_keyboard_manager || kind
                == GlobalKind::VirtualKeyboardManager),
    {
        match kind {
            GlobalKind::Output => {
                let index = self.outputs.len();
                self.outputs.push(None);
                return Some(index);
            },
            GlobalKind::Shm => {
                self.shm = true;
            },
            GlobalKind::Seat => {
                self.seat = true;
            },
            GlobalKind::LayerShell => {
                self.layer_shell = true;
            },
            GlobalKind::WmBase => {
                self.wm_base = true;
            },
            GlobalKind::XdgOutputManager => {
                self.xdg_output_manager = true;
            },
            GlobalKind::VirtualKeyboardManager => {
                self.virtual_keyboard_manager = true;
            },
        }
        None
    }

    /// Records the size of output `index`; an unknown index is ignored and
    /// gives `false`.
    pub fn set_output_size(&mut self, index: usize, width: i32, height: i32) -> (r: bool)
        ensures
            r == (index < old(self).outputs@.len()),
            r ==> final(self).outputs@ == old(self).outputs@.update(
                index as int,
                Some((width, height)),
            ),
            !r ==> final(self).outputs@ == old(self).outputs@,
            final(self).shm == old(self).shm && final(self).seat == old(self).seat && final(self).layer_shell == old(self).layer_shell && final(self).wm_base == old(self).wm_base
                && final(self).xdg_output_manager == old(self).xdg_output_manager && final(self).virtual_keyboard_manager == old(self).virtual_keyboard_manager,
    {
        if index < self.outputs.len() {
            self.outputs.set(index, Some((width, height)));
            true
        } else {
            false
        }
    }

    pub fn all_resolved(&self) -> (r: bool)
        ensures
            r == self.all_resolved_spec(),
    {
        let mut i: usize = 0;
        while i < self.outputs.len()
            invariant
                i <= self.outputs@.len(),
                forall|j: int| 0 <= j < i ==> (#[trigger] self.outputs@[j]) is Some,
            decreases self.outputs@.len() - i,
        {
            if self.outputs[i].is_none() {
                return false;
            }
            i = i + 1;
        }
        true
    }

    /// Ends discovery: the keyboard's plan, or why there can be none.
    pub fn finish(&self) -> (r: Result<KeyboardPlan, SetupError>)
        ensures
            r == self.outcome(),
    {
        if !self.layer_shell || !self.wm_base {
            Err(SetupError::Unsupported)
        } else if !self.shm || !self.seat || !self.xdg_output_manager
            || !self.virtual_keyboard_manager {
            Err(SetupError::MissingGlobal)
        } else if self.outputs.len() == 0 {
            Err(SetupError::NoOutput)
        } else if !self.all_resolved() {
            Err(SetupError::UnresolvedOutput)
        } else {
            match self.outputs[0] {
                Some((width, _)) => Ok(KeyboardPlan { output: 0, width, height: KEYBOARD_HEIGHT }),
                None => Err(SetupError::UnresolvedOutput),
            }
        }
    }

    /// A plan exists only once every announced output has a known size, and
    /// its width is that of the first output.
    pub proof fn lemma_plan_after_geometry(self)
        ensures
            self.outcome() is Ok ==> self.outputs@.len() > 0 && self.all_resolved_spec()
                && self.layer_shell && self.wm_base,
            self.outcome() matches Ok(plan) ==> plan.height == KEYBOARD_HEIGHT && (
            self.outputs@[0] matches Some(s) && s.0 == plan.width),
    {
    }
}

} // verus!
