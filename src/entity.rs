use vstd::prelude::*;
use crate::geometry::{
    is_outside, outside, overlap, overlaps, Rect, CANVAS_HEIGHT, CANVAS_WIDTH, COORD_LIMIT,
};

verus! {

pub const BOSS_WIDTH: i64 = 225_000;

pub const BOSS_HEIGHT: i64 = 225_000;

pub const BOSS_MAX_HP: i32 = 999;

pub const BOSS_START_X: i64 = 180_000;

pub const BOSS_START_Y: i64 = 60_000;

pub const BOSS_SPEED: i64 = 1000;

pub const BULLET_WIDTH: i64 = 28_000;

pub const BULLET_HEIGHT: i64 = 28_000;

pub const BULLET_STRENGTH: i32 = 2;

/// Largest per-tick speed of a bullet along one axis.
pub const BULLET_MAX_SPEED: i64 = 2000;

pub const SHIP_WIDTH: i64 = 40_000;

pub const SHIP_HEIGHT: i64 = 50_000;

pub const SHIP_STEP: i64 = 1000;

/// Left edge of a freshly placed ship: centred on the playfield.
pub const SHIP_START_X: i64 = 380_000;

/// Top edge of the ship: its height plus a margin above the bottom edge.
pub const SHIP_Y: i64 = 940_000;

pub const SHOT_WIDTH: i64 = 5000;

pub const SHOT_HEIGHT: i64 = 5000;

pub const SHOT_SPEED: i64 = 10_000;

pub const SUPER_SHOT_WIDTH: i64 = 100_000;

pub const SUPER_SHOT_HEIGHT: i64 = 40_000;

pub const SUPER_SHOT_HP: i32 = 3;

/// Pointer positions are accepted within this magnitude.
pub const POINTER_LIMIT: i64 = 0x100_0000_0000;

/// Lowest hit points any live entity can be driven to within one tick.
pub const HP_FLOOR: i32 = -100_000;

/// Fire mode of the ship and kind of a shot.
#[derive(Clone, Copy, Debug, PartialEq, Eq, Structural)]
pub enum ShotType {
    Normal,
    Super,
}

/// A projectile fired by the ship; it only travels upward.
#[derive(Clone, Copy, Debug, PartialEq, Eq, Structural)]
pub struct Shot {
    pub x: i64,
    pub y: i64,
    pub dx: i64,
    pub dy: i64,
    pub w: i64,
    pub h: i64,
    pub hp: i32,
    pub t: ShotType,
}

/// A projectile emitted by the boss, with a fixed velocity.
#[derive(Clone, Copy, Debug, PartialEq, Eq, Structural)]
pub struct Bullet {
    pub x: i64,
    pub y: i64,
    pub dx: i64,
    pub dy: i64,
    pub w: i64,
    pub h: i64,
    pub hp: i32,
}

/// The enemy: sweeps left and right along the top of the playfield.
#[derive(Clone, Copy, Debug, PartialEq, Eq, Structural)]
pub struct Boss {
    pub x: i64,
    pub y: i64,
    pub dx: i64,
    pub dy: i64,
    pub w: i64,
    pub h: i64,
    pub hp: i32,
    /// Sweep direction: `1` to the right, `-1` to the left.
    pub d: i64,
}

/// The player's ship: follows the pointer horizontally.
#[derive(Clone, Copy, Debug, PartialEq, Eq, Structural)]
pub struct Ship {
    pub x: i64,
    pub y: i64,
    pub dx: i64,
    pub dy: i64,
    pub w: i64,
    pub h: i64,
    pub hp: i32,
    pub mouse_x: i64,
    pub t: ShotType,
}

/// What every entity shares: a bounding box whose corner is its reference
/// point.
pub trait Character {
    spec fn area(&self) -> Rect;

    fn bounds(&self) -> (r: Rect)
        ensures
            r == self.area(),
    ;

    /// Whether the reference point has left the playfield.
    fn exit(&self) -> (r: bool)
        ensures
            r == outside(self.area().x as int, self.area().y as int),
    {
        let b = self.bounds();
        is_outside(b.x, b.y)
    }

    /// Whether the bounding box overlaps `obj`, another entity's box.
    fn hit(&self, obj: &Rect) -> (r: bool)
        requires
            self.area().in_range(),
            obj.in_range(),
        ensures
            r == overlap(self.area(), *obj),
    {
        let a = self.bounds();
        overlaps(&a, obj)
    }
}

impl Character for Shot {
    open spec fn area(&self) -> Rect {
        self.rect()
    }

    fn bounds(&self) -> (r: Rect) {
        Rect { x: self.x, y: self.y, w: self.w, h: self.h }
    }
}

impl Character for Bullet {
    open spec fn area(&self) -> Rect {
        self.rect()
    }

    fn bounds(&self) -> (r: Rect) {
        Rect { x: self.x, y: self.y, w: self.w, h: self.h }
    }
}

impl Character for Boss {
    open spec fn area(&self) -> Rect {
        self.rect()
    }

    fn bounds(&self) -> (r: Rect) {
        Rect { x: self.x, y: self.y, w: self.w, h: self.h }
    }
}

impl Character for Ship {
    open spec fn area(&self) -> Rect {
        self.rect()
    }

    fn bounds(&self) -> (r: Rect) {
        Rect { x: self.x, y: self.y, w: self.w, h: self.h }
    }
}

impl Shot {
    pub open spec fn rect(self) -> Rect {
        Rect { x: self.x, y: self.y, w: self.w, h: self.h }
    }

    /// Shape and motion of a shot: upward at the shot speed, sized by its kind.
    pub open spec fn wf(self) -> bool {
        &&& self.dx == 0
        &&& self.dy == SHOT_SPEED
        &&& match self.t {
            ShotType::Normal => self.w == SHOT_WIDTH && self.h == SHOT_HEIGHT,
            ShotType::Super => self.w == SUPER_SHOT_WIDTH && self.h == SUPER_SHOT_HEIGHT,
        }
        &&& HP_FLOOR <= self.hp <= SUPER_SHOT_HP
        &&& -COORD_LIMIT <= self.x <= COORD_LIMIT
        &&& -SHOT_SPEED <= self.y <= SHIP_Y
    }

    pub open spec fn moved(self) -> Shot {
        Shot { y: (self.y - self.dy) as i64, ..self }
    }

    /// Moves the shot up by its speed.
    pub fn update(&mut self)
        requires
            i64::MIN <= old(self).y - old(self).dy <= i64::MAX,
        ensures
            *final(self) == old(self).moved(),
    {
        self.y = self.y - self.dy;
    }
}

impl Bullet {
    pub open spec fn rect(self) -> Rect {
        Rect { x: self.x, y: self.y, w: self.w, h: self.h }
    }

    pub open spec fn wf(self) -> bool {
        &&& -BULLET_MAX_SPEED <= self.dx <= BULLET_MAX_SPEED
        &&& -BULLET_MAX_SPEED <= self.dy <= BULLET_MAX_SPEED
        &&& self.w == BULLET_WIDTH
        &&& self.h == BULLET_HEIGHT
        &&& HP_FLOOR <= self.hp <= BULLET_STRENGTH
        &&& 0 <= self.x <= CANVAS_WIDTH
        &&& 0 <= self.y <= CANVAS_HEIGHT
    }

    pub open spec fn moved(self) -> Bullet {
        Bullet { x: (self.x + self.dx) as i64, y: (self.y + self.dy) as i64, ..self }
    }

    /// Moves the bullet by its velocity.
    pub fn update(&mut self)
        requires
            i64::MIN <= old(self).x + old(self).dx <= i64::MAX,
            i64::MIN <= old(self).y + old(self).dy <= i64::MAX,
        ensures
            *final(self) == old(self).moved(),
    {
        self.x = self.x + self.dx;
        self.y = self.y + self.dy;
    }
}

impl Boss {
    pub open spec fn rect(self) -> Rect {
        Rect { x: self.x, y: self.y, w: self.w, h: self.h }
    }

    /// Shape and sweep of the boss; its hit points are not constrained here.
    pub open spec fn wf(self) -> bool {
        &&& self.dx == BOSS_SPEED
        &&& self.dy == 0
        &&& self.w == BOSS_WIDTH
        &&& self.h == BOSS_HEIGHT
        &&& self.y == BOSS_START_Y
        &&& self.d == 1 || self.d == -1
        &&& -BOSS_SPEED <= self.x <= CANVAS_WIDTH - BOSS_WIDTH + BOSS_SPEED
        &&& HP_FLOOR <= self.hp <= BOSS_MAX_HP
    }

    /// Direction after the edge check: it turns right past the left edge and
    /// left past the right edge.
    pub open spec fn turned(self) -> i64 {
        if self.x < 0 && self.d == -1 {
            1
        } else if self.x > CANVAS_WIDTH - BOSS_WIDTH && self.d == 1 {
            -1i64
        } else {
            self.d
        }
    }

    pub open spec fn moved(self) -> Boss {
        Boss { x: (self.x + self.turned() * self.dx) as i64, d: self.turned(), ..self }
    }

    /// Turns at the edges, then advances one step in the current direction.
    pub fn update(&mut self)
        requires
            i64::MIN <= old(self).turned() * old(self).dx <= i64::MAX,
            i64::MIN <= old(self).x + old(self).turned() * old(self).dx <= i64::MAX,
        ensures
            *final(self) == old(self).moved(),
            old(self).wf() ==> final(self).wf(),
    {
        if self.x < 0 && self.d == -1 {
            self.d = 1;
        }
        if self.x > CANVAS_WIDTH - BOSS_WIDTH && self.d == 1 {
            self.d = -1;
        }
        proof {
            if old(self).wf() {
                let (d, dx) = (self.d as int, self.dx as int);
                assert(d == 1 || d == -1);
                assert(dx == BOSS_SPEED);
                if d == 1 {
                    assert(d * dx == dx) by (nonlinear_arith)
                        requires
                            d == 1,
                    ;
                } else {
                    assert(d * dx == -dx) by (nonlinear_arith)
                        requires
                            d == -1,
                    ;
                }
            }
        }
        self.x = self.x + self.d * self.dx;
    }
}

impl Ship {
    pub open spec fn rect(self) -> Rect {
        Rect { x: self.x, y: self.y, w: self.w, h: self.h }
    }

    pub open spec fn wf(self) -> bool {
        &&& self.dx == SHIP_STEP
        &&& self.dy == 0
        &&& self.w == SHIP_WIDTH
        &&& self.h == SHIP_HEIGHT
        &&& self.y == SHIP_Y
        &&& self.hp == 1
        &&& -POINTER_LIMIT <= self.mouse_x <= POINTER_LIMIT
        &&& -POINTER_LIMIT - SHIP_STEP <= self.x <= POINTER_LIMIT + SHIP_STEP
    }

    /// A ship at its starting place, in normal mode.
    pub open spec fn initial() -> Ship {
        Ship {
            x: SHIP_START_X,
            y: SHIP_Y,
            dx: SHIP_STEP,
            dy: 0,
            w: SHIP_WIDTH,
            h: SHIP_HEIGHT,
            hp: 1,
            mouse_x: (CANVAS_WIDTH / 2) as i64,
            t: ShotType::Normal,
        }
    }

    /// One step toward the pointer unless it lies over the ship.
    pub open spec fn moved(self) -> Ship {
        if self.mouse_x < self.x {
            Ship { x: (self.x - self.dx) as i64, ..self }
        } else if self.mouse_x > self.x + SHIP_WIDTH {
            Ship { x: (self.x + self.dx) as i64, ..self }
        } else {
            self
        }
    }

    pub fn new() -> (r: Ship)
        ensures
            r == Ship::initial(),
            r.wf(),
    {
        Ship {
            x: SHIP_START_X,
            y: SHIP_Y,
            dx: SHIP_STEP,
            dy: 0,
            w: SHIP_WIDTH,
            h: SHIP_HEIGHT,
            hp: 1,
            mouse_x: CANVAS_WIDTH / 2,
            t: ShotType::Normal,
        }
    }

    /// Records the pointer's horizontal position.
    pub fn set_mouse_x(&mut self, offset_x: i64)
        ensures
            *final(self) == (Ship { mouse_x: offset_x, ..*old(self) }),
    {
        self.mouse_x = offset_x;
    }

    /// Steps toward the pointer.
    pub fn update(&mut self)
        requires
            i64::MIN <= old(self).x - old(self).dx <= i64::MAX,
            i64::MIN <= old(self).x + old(self).dx <= i64::MAX,
            old(self).x + SHIP_WIDTH <= i64::MAX,
        ensures
            *final(self) == old(self).moved(),
            old(self).wf() ==> final(self).wf(),
    {
        if self.mouse_x < self.x {
            self.x = self.x - self.dx;
        } else if self.mouse_x > self.x + SHIP_WIDTH {
            self.x = self.x + self.dx;
        }
    }
}

impl Boss {
    /// A full-health boss at its starting place, heading right.
    pub open spec fn initial() -> Boss {
        Boss {
            x: BOSS_START_X,
            y: BOSS_START_Y,
            dx: BOSS_SPEED,
            dy: 0,
            w: BOSS_WIDTH,
            h: BOSS_HEIGHT,
            hp: BOSS_MAX_HP,
            d: 1,
        }
    }

    pub fn new() -> (r: Boss)
        ensures
            r == Boss::initial(),
            r.wf(),
    {
        Boss {
            x: BOSS_START_X,
            y: BOSS_START_Y,
            dx: BOSS_SPEED,
            dy: 0,
            w: BOSS_WIDTH,
            h: BOSS_HEIGHT,
            hp: BOSS_MAX_HP,
            d: 1,
        }
    }
}

} // verus!
