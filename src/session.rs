//! The keyboard's steady state: where the pointer and the touch point are,
//! which modifiers are latched, and what each press or release asks of the
//! compositor.
use vstd::prelude::*;
use crate::modifier::{key_bit, ModifierState};
use crate::pangoui::{key_at, PangoUi, MINIMIZE_KEYCODE};
use crate::registry::KeyboardPlan;
use crate::surface::{buffer_fits, BufferSpec, LayerConfig, LayerRequest, buffer_spec};

verus! {

/// What the compositor is to be told after an input event.
#[derive(Clone, Copy, Debug, PartialEq, Eq, Structural)]
pub enum Action {
    /// Nothing was hit, or nothing changes.
    Nothing,
    /// Send a key-down event for this keycode.
    Press(u32),
    /// Send a key-up event, then, when the latched mask changed, a modifiers
    /// event carrying the new mask (and repaint).
    Release { key: u32, modifiers: Option<u32> },
    /// Request this size and exclusive zone for the layer surface.
    Resize(LayerRequest),
}

/// The state of a running keyboard.
#[derive(Clone, Copy, Debug)]
pub struct KeyboardState {
    pub ui: PangoUi,
    pub layer: LayerConfig,
    pub modifiers: ModifierState,
    pub position: (i32, i32),
    pub touch_pos: (i32, i32),
}

impl KeyboardState {
    pub open spec fn wf(self) -> bool {
        self.layer.wf()
    }

    /// A keyboard of the planned size, full height, nothing latched.
    pub fn new(plan: &KeyboardPlan) -> (r: Option<KeyboardState>)
        ensures
            r is Some <==> plan.height >= 0,
            r matches Some(k) ==> k.wf() && k.ui@ == (plan.width, plan.height)
                && k.layer.spec_height() == plan.height && !k.layer.spec_minimized()
                && k.modifiers.bits == 0 && k.position == (0i32, 0i32) && k.touch_pos == (
            0i32,
            0i32,
        ),
    {
        match LayerConfig::new(plan.height) {
            None => None,
            Some(layer) => {
                let mut ui = PangoUi::new();
                ui.set_size((plan.width, plan.height));
                Some(
                    KeyboardState {
                        ui,
                        layer,
                        modifiers: ModifierState::new(),
                        position: (0, 0),
                        touch_pos: (0, 0),
                    },
                )
            },
        }
    }

    /// The layout of the buffer that holds the keyboard's image.
    pub fn buffer(&self) -> (r: Option<BufferSpec>)
        ensures
            r is Some <==> buffer_fits(self.ui@.0 as int, self.ui@.1 as int),
            r matches Some(b) ==> b.width == self.ui@.0 && b.height == self.ui@.1 && b.stride
                == self.ui@.0 * 4 && b.pool_size == self.ui@.0 * self.ui@.1 * 4,
    {
        let (width, height) = self.ui.get_size();
        buffer_spec(width, height)
    }

    pub fn pointer_motion(&mut self, x: i32, y: i32)
        ensures
            *final(self) == (KeyboardState { position: (x, y), ..*old(self) }),
    {
        self.position = (x, y);
    }

    pub fn touch_motion(&mut self, x: i32, y: i32)
        ensures
            *final(self) == (KeyboardState { touch_pos: (x, y), ..*old(self) }),
    {
        self.touch_pos = (x, y);
    }

    /// The keycode under the pointer.
    pub fn get_key_point(&self) -> (r: Option<u32>)
        ensures
            r == key_at(
                self.ui@.0 as int,
                self.ui@.1 as int,
                self.position.0 as int,
                self.position.1 as int,
            ),
    {
        self.ui.get_key(self.position)
    }

    /// The keycode under the touch point.
    pub fn get_key_touch(&self) -> (r: Option<u32>)
        ensures
            r == key_at(
                self.ui@.0 as int,
                self.ui@.1 as int,
                self.touch_pos.0 as int,
                self.touch_pos.1 as int,
            ),
    {
        self.ui.get_key(self.touch_pos)
    }

    /// Latches or unlatches the modifier of `key`; whether the mask changed.
    pub fn key_release(&mut self, key: u32) -> (changed: bool)
        ensures
            *final(self) == (KeyboardState {
                modifiers: old(self).modifiers.after_release(key),
                ..*old(self)
            }),
            changed == (key_bit(key) != 0),
    {
        self.modifiers.release(key)
    }

    /// A press on the key `hit`: the minimize key toggles the minimized
    /// state; any other key goes down at once.
    pub fn on_press(&mut self, hit: Option<u32>) -> (r: Action)
        requires
            old(self).wf(),
        ensures
            final(self).wf(),
            match hit {
                None => r == Action::Nothing && *final(self) == *old(self),
                Some(k) => if k == MINIMIZE_KEYCODE {
                    *final(self) == (KeyboardState {
                        layer: old(self).layer.with_minimized(!old(self).layer.spec_minimized()),
                        ..*old(self)
                    }) && (r matches Action::Resize(req) && req.width == 0 && req.height as int
                        == final(self).layer.spec_zone() && req.exclusive_zone as int
                        == final(self).layer.spec_zone())
                } else {
                    r == Action::Press(k) && *final(self) == *old(self)
                },
            },
    {
        match hit {
            None => Action::Nothing,
            Some(k) => {
                if k == MINIMIZE_KEYCODE {
                    self.layer.toggle_minimized();
                    Action::Resize(self.layer.request())
                } else {
                    Action::Press(k)
                }
            },
        }
    }

    /// A release on the key `hit`: the key goes up and its modifier, if any,
    /// is toggled. The minimize key acted on its press and does nothing here.
    pub fn on_release(&mut self, hit: Option<u32>) -> (r: Action)
        ensures
            match hit {
                None => r == Action::Nothing && *final(self) == *old(self),
                Some(k) => if k == MINIMIZE_KEYCODE {
                    r == Action::Nothing && *final(self) == *old(self)
                } else {
                    *final(self) == (KeyboardState {
                        modifiers: old(self).modifiers.after_release(k),
                        ..*old(self)
                    }) && r == Action::Release {
                        key: k,
                        modifiers: if key_bit(k) != 0 {
                            Some(final(self).modifiers.bits)
                        } else {
                            None
                        },
                    }
                },
            },
    {
        match hit {
            None => Action::Nothing,
            Some(k) => {
                if k == MINIMIZE_KEYCODE {
                    Action::Nothing
                } else {
                    let changed = self.key_release(k);
                    let modifiers = if changed {
                        Some(self.modifiers.bits())
                    } else {
                        None
                    };
                    Action::Release { key: k, modifiers }
                }
            },
        }
    }
}

} // verus!
