//! Input handling of the player's ship: which key drives which control, and
//! the thrust direction the held keys ask for.

use vstd::prelude::*;

verus! {

/// The keys the player ship listens to.
#[derive(Debug, Clone, Copy, PartialEq, Eq, Structural)]
pub enum ShipKey {
    W,
    A,
    S,
    D,
    ArrowUp,
    ArrowDown,
    ArrowLeft,
    ArrowRight,
    Space,
    /// Esc: quits the game.
    Escape,
    /// Any other key.
    Other,
}

/// Thrust and fire requests of the player's ship.
#[derive(Debug, Clone, Copy, PartialEq, Eq, Structural, Default)]
pub struct ThrustInput {
    pub thrust_forward: bool,
    pub thrust_backward: bool,
    pub thrust_left: bool,
    pub thrust_right: bool,
    /// Fire weapon on next update tick.
    pub fire_weapon: bool,
}

/// The input after `key` is pressed (or released, when `pressed` is false).
pub open spec fn spec_handle_key(input: ThrustInput, key: ShipKey, pressed: bool) -> ThrustInput {
    match key {
        ShipKey::W | ShipKey::ArrowUp => ThrustInput { thrust_forward: pressed, ..input },
        ShipKey::S | ShipKey::ArrowDown => ThrustInput { thrust_backward: pressed, ..input },
        ShipKey::A | ShipKey::ArrowLeft => ThrustInput { thrust_left: pressed, ..input },
        ShipKey::D | ShipKey::ArrowRight => ThrustInput { thrust_right: pressed, ..input },
        ShipKey::Space => if pressed {
            ThrustInput { fire_weapon: true, ..input }
        } else {
            input
        },
        ShipKey::Escape | ShipKey::Other => input,
    }
}

/// 1 when the flag is set, 0 otherwise.
pub open spec fn flag(b: bool) -> int {
    if b {
        1
    } else {
        0
    }
}

impl ShipKey {
    /// Whether this key event asks the game to quit: pressing Esc.
    pub fn requests_quit(self, pressed: bool) -> (quit: bool)
        ensures
            quit == (self == ShipKey::Escape && pressed),
    {
        match self {
            ShipKey::Escape => pressed,
            _ => false,
        }
    }
}

impl ThrustInput {
    /// WASD / arrow keys hold thrust while pressed: each sets its own thrust
    /// and nothing else. Space requests a shot when pressed, and releasing it
    /// keeps the request. Esc, which quits the game, and other keys leave the
    /// input as it is.
    pub fn handle_key(&mut self, key: ShipKey, pressed: bool)
        ensures
            *final(self) == spec_handle_key(*old(self), key, pressed),
            key == ShipKey::W || key == ShipKey::ArrowUp ==> *final(self) == (ThrustInput {
                thrust_forward: pressed,
                ..*old(self)
            }),
            key == ShipKey::S || key == ShipKey::ArrowDown ==> *final(self) == (ThrustInput {
                thrust_backward: pressed,
                ..*old(self)
            }),
            key == ShipKey::A || key == ShipKey::ArrowLeft ==> *final(self) == (ThrustInput {
                thrust_left: pressed,
                ..*old(self)
            }),
            key == ShipKey::D || key == ShipKey::ArrowRight ==> *final(self) == (ThrustInput {
                thrust_right: pressed,
                ..*old(self)
            }),
            key == ShipKey::Space ==> *final(self) == (ThrustInput {
                fire_weapon: old(self).fire_weapon || pressed,
                ..*old(self)
            }),
            key == ShipKey::Escape || key == ShipKey::Other ==> *final(self) == *old(self),
    {
        match key {
            ShipKey::W | ShipKey::ArrowUp => {
                self.thrust_forward = pressed;
            },
            ShipKey::S | ShipKey::ArrowDown => {
                self.thrust_backward = pressed;
            },
            ShipKey::A | ShipKey::ArrowLeft => {
                self.thrust_left = pressed;
            },
            ShipKey::D | ShipKey::ArrowRight => {
                self.thrust_right = pressed;
            },
            ShipKey::Space => {
                if pressed {
                    self.fire_weapon = true;
                }
            },
            ShipKey::Escape | ShipKey::Other => {},
        }
    }

    /// The thrust direction before normalisation, as `(x, z)`: right is +x,
    /// forward is -z.
    pub fn thrust_axes(&self) -> (axes: (i8, i8))
        ensures
            axes.0 == flag(self.thrust_right) - flag(self.thrust_left),
            axes.1 == flag(self.thrust_backward) - flag(self.thrust_forward),
    {
        let mut x: i8 = 0;
        let mut z: i8 = 0;
        if self.thrust_forward {
            z = z - 1;
        }
        if self.thrust_backward {
            z = z + 1;
        }
        if self.thrust_left {
            x = x - 1;
        }
        if self.thrust_right {
            x = x + 1;
        }
        (x, z)
    }
}

/// Pressing and then releasing a thrust key leaves that thrust off and every
/// other request as it was.
pub proof fn law_press_release(input: ThrustInput, key: ShipKey)
    requires
        key != ShipKey::Space,
        key != ShipKey::Escape,
        key != ShipKey::Other,
    ensures
        ({
            let after = spec_handle_key(spec_handle_key(input, key, true), key, false);
            after == spec_handle_key(input, key, false)
        }),
{
}

/// The input with no key held and no shot requested.
pub open spec fn no_keys_held() -> ThrustInput {
    ThrustInput {
        thrust_forward: false,
        thrust_backward: false,
        thrust_left: false,
        thrust_right: false,
        fire_weapon: false,
    }
}

/// Each arrow key does what its letter key does: up is W, down is S, left is
/// A and right is D.
pub proof fn law_arrows_match_letters(input: ThrustInput, pressed: bool)
    ensures
        spec_handle_key(input, ShipKey::ArrowUp, pressed) == spec_handle_key(input, ShipKey::W, pressed),
        spec_handle_key(input, ShipKey::ArrowDown, pressed) == spec_handle_key(input, ShipKey::S, pressed),
        spec_handle_key(input, ShipKey::ArrowLeft, pressed) == spec_handle_key(input, ShipKey::A, pressed),
        spec_handle_key(input, ShipKey::ArrowRight, pressed) == spec_handle_key(input, ShipKey::D, pressed),
{
}

/// Holding right alone (D or the right arrow) thrusts toward +x, holding left
/// alone toward -x; holding forward alone thrusts toward -z, backward toward +z.
pub proof fn law_keys_steer(pressed_key: ShipKey)
    ensures
        ({
            let held = spec_handle_key(no_keys_held(), pressed_key, true);
            &&& (pressed_key == ShipKey::D || pressed_key == ShipKey::ArrowRight) ==> flag(held.thrust_right) - flag(held.thrust_left) == 1
                && flag(held.thrust_backward) - flag(held.thrust_forward) == 0
            &&& (pressed_key == ShipKey::A || pressed_key == ShipKey::ArrowLeft) ==> flag(held.thrust_right) - flag(held.thrust_left) == -1
                && flag(held.thrust_backward) - flag(held.thrust_forward) == 0
            &&& (pressed_key == ShipKey::W || pressed_key == ShipKey::ArrowUp) ==> flag(held.thrust_backward) - flag(held.thrust_forward) == -1
                && flag(held.thrust_right) - flag(held.thrust_left) == 0
            &&& (pressed_key == ShipKey::S || pressed_key == ShipKey::ArrowDown) ==> flag(held.thrust_backward) - flag(held.thrust_forward) == 1
                && flag(held.thrust_right) - flag(held.thrust_left) == 0
        }),
{
}

} // verus!
