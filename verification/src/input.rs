//! Input snapshot: the boolean state of the seven logical commands,
//! independent of physical key bindings.

use vstd::prelude::*;

verus! {

/// During event handling, if a button is reported as "pressed", that field in
/// this struct is set to `true`. If a button is reported as "released", that
/// field is set to `false`.
#[derive(Clone, Copy, Debug, PartialEq, Eq, Structural)]
pub struct Input {
    pub up: bool,
    pub down: bool,
    pub left: bool,
    pub right: bool,
    pub attack: bool,
    pub defend: bool,
    pub menu: bool,
}

#[derive(Clone, Copy, Debug, PartialEq, Eq, Structural)]
pub enum InputError {
    /// The bit vector handed over the wire did not hold exactly seven bits;
    /// carries the length that was seen.
    BadBitVec(usize),
}

/// The logical commands a physical key can be bound to.
#[derive(Clone, Copy, Debug, PartialEq, Eq, Structural)]
pub enum Command {
    Up,
    Down,
    Left,
    Right,
    Attack,
    Defend,
    Menu,
}

/// The input snapshot with every command cleared.
pub open spec fn input_idle() -> Input {
    Input {
        up: false,
        down: false,
        left: false,
        right: false,
        attack: false,
        defend: false,
        menu: false,
    }
}

/// The snapshot `input` after the field for `cmd` is set to `set`.
pub open spec fn with_command(input: Input, cmd: Command, set: bool) -> Input {
    match cmd {
        Command::Up => Input { up: set, ..input },
        Command::Down => Input { down: set, ..input },
        Command::Left => Input { left: set, ..input },
        Command::Right => Input { right: set, ..input },
        Command::Attack => Input { attack: set, ..input },
        Command::Defend => Input { defend: set, ..input },
        Command::Menu => Input { menu: set, ..input },
    }
}

impl Input {
    /// The wire order of the commands: up, down, left, right, attack,
    /// defend, menu.
    pub open spec fn bits(self) -> Seq<bool> {
        seq![self.up, self.down, self.left, self.right, self.attack, self.defend, self.menu]
    }

    pub fn new() -> (r: Self)
        ensures
            r == input_idle(),
    {
        Input {
            up: false,
            down: false,
            left: false,
            right: false,
            attack: false,
            defend: false,
            menu: false,
        }
    }

    pub fn set_command(&mut self, cmd: &Command, set: bool)
        ensures
            *final(self) == with_command(*old(self), *cmd, set),
    {
        match cmd {
            Command::Up => self.up = set,
            Command::Down => self.down = set,
            Command::Left => self.left = set,
            Command::Right => self.right = set,
            Command::Attack => self.attack = set,
            Command::Defend => self.defend = set,
            Command::Menu => self.menu = set,
        }
    }

    /// Decodes the seven-bit wire form of an input snapshot. Exactly seven
    /// bits are accepted; any other length is reported with `BadBitVec`.
    pub fn from_bitvec(bv: Vec<bool>) -> (r: Result<Self, InputError>)
        ensures
            bv@.len() == 7 ==> r == Ok::<Input, InputError>(
                (Input {
                    up: bv@[0],
                    down: bv@[1],
                    left: bv@[2],
                    right: bv@[3],
                    attack: bv@[4],
                    defend: bv@[5],
                    menu: bv@[6],
                }),
            ),
            bv@.len() != 7 ==> r == Err::<Input, InputError>(
                InputError::BadBitVec(bv@.len() as usize),
            ),
    {
        if bv.len() != 7 {
            return Err(InputError::BadBitVec(bv.len()));
        }
        Ok(Input {
            up: bv[0],
            down: bv[1],
            left: bv[2],
            right: bv[3],
            attack: bv[4],
            defend: bv[5],
            menu: bv[6],
        })
    }

    /// Encodes the snapshot in its seven-bit wire order.
    pub fn to_bits(&self) -> (r: Vec<bool>)
        ensures
            r@ == self.bits(),
    {
        let mut bv: Vec<bool> = Vec::new();
        bv.push(self.up);
        bv.push(self.down);
        bv.push(self.left);
        bv.push(self.right);
        bv.push(self.attack);
        bv.push(self.defend);
        bv.push(self.menu);
        proof {
            assert(bv@ =~= self.bits());
        }
        bv
    }
}

} // verus!
