//! Projectiles: a square with a per-frame displacement vector. A blocked
//! axis reflects the direction on that axis; a projectile that bounces a
//! second time without an intervening player contact signals game over.
//! Contact with the player re-homes the projectile toward the inverse of
//! the offset between the two centers.

use vstd::prelude::*;
use rand_pcg::Pcg64;
use crate::basics::{
    Point, Square, FIELD_EXTENT, blocked, clamped, spec_overlaps,
};
use crate::rng::{rng_bool, rng_range};

verus! {

/// Side length of every spawned projectile, in pixels.
pub const PROJECTILE_SIZE: u32 = 6;

/// Truncating division by ten, as the machine's signed division rounds:
/// toward zero.
pub open spec fn div_trunc_10(n: int) -> int {
    if n >= 0 {
        n / 10
    } else {
        -((-n) / 10)
    }
}

/// A projectile: its box, its per-frame displacement along each axis
/// (zero means no movement on that axis), and whether it has bounced since
/// the last player contact.
#[derive(Clone, Copy, PartialEq, Eq, Structural)]
pub struct Projectile {
    pub square: Square,
    pub direction: Point,
    pub bounced: bool,
}

impl Projectile {
    /// The box is inside the field and the displacement components are
    /// small enough that one step can never overflow a coordinate.
    pub open spec fn wf(self) -> bool {
        self.square.wf()
            && -(FIELD_EXTENT as int) <= self.direction.x as int <= FIELD_EXTENT as int
            && -(FIELD_EXTENT as int) <= self.direction.y as int <= FIELD_EXTENT as int
    }

    /// Whether this frame's x move runs into a playfield edge.
    pub open spec fn spec_bounce_x(self) -> bool {
        self.direction.x != 0 && blocked(
            self.square.pos.x as int,
            self.direction.x as int,
            self.square.size as int,
        )
    }

    /// Whether this frame's y move runs into a playfield edge.
    pub open spec fn spec_bounce_y(self) -> bool {
        self.direction.y != 0 && blocked(
            self.square.pos.y as int,
            self.direction.y as int,
            self.square.size as int,
        )
    }

    /// The state after the x move: the position is clamped to the field and
    /// a blocked move reflects the x displacement. A zero x displacement
    /// leaves the projectile as it is.
    pub open spec fn spec_move_x(self) -> Projectile {
        if self.direction.x == 0 {
            self
        } else {
            Projectile {
                square: Square {
                    pos: Point {
                        x: clamped(
                            self.square.pos.x as int,
                            self.direction.x as int,
                            self.square.size as int,
                        ) as i32,
                        y: self.square.pos.y,
                    },
                    size: self.square.size,
                },
                direction: Point {
                    x: if self.spec_bounce_x() {
                        (-(self.direction.x as int)) as i32
                    } else {
                        self.direction.x
                    },
                    y: self.direction.y,
                },
                bounced: self.bounced,
            }
        }
    }

    /// The state after the y move, the mirror of `spec_move_x`.
    pub open spec fn spec_move_y(self) -> Projectile {
        if self.direction.y == 0 {
            self
        } else {
            Projectile {
                square: Square {
                    pos: Point {
                        x: self.square.pos.x,
                        y: clamped(
                            self.square.pos.y as int,
                            self.direction.y as int,
                            self.square.size as int,
                        ) as i32,
                    },
                    size: self.square.size,
                },
                direction: Point {
                    x: self.direction.x,
                    y: if self.spec_bounce_y() {
                        (-(self.direction.y as int)) as i32
                    } else {
                        self.direction.y
                    },
                },
                bounced: self.bounced,
            }
        }
    }

    /// Whether the frame step signals game over: the projectile had already
    /// bounced and bounces again on either axis this frame. The y move is
    /// only reached when the x move does not bounce.
    pub open spec fn spec_mv_over(self) -> bool {
        self.bounced && (self.spec_bounce_x() || self.spec_move_x().spec_bounce_y())
    }

    /// The state after one frame step. The x move runs first; a bounce on x
    /// skips the y move. When the projectile had not yet bounced, the
    /// bounced flag records whether either axis bounced this frame.
    pub open spec fn spec_mv(self) -> Projectile {
        let stepped = if self.spec_bounce_x() {
            self.spec_move_x()
        } else {
            self.spec_move_x().spec_move_y()
        };
        if self.bounced {
            stepped
        } else {
            Projectile {
                square: stepped.square,
                direction: stepped.direction,
                bounced: self.spec_bounce_x() || self.spec_move_x().spec_bounce_y(),
            }
        }
    }

    /// The state after a player-contact check: on overlap the bounced flag
    /// clears and the direction becomes the inverse of the center offset,
    /// scaled down by ten. A precisely centered player yields a zero
    /// direction and freezes the projectile; that is intended.
    pub open spec fn spec_homed(self, player: Square) -> Projectile {
        if spec_overlaps(self.square, player) {
            Projectile {
                square: self.square,
                direction: Point {
                    x: div_trunc_10(
                        -(player.pos.x + player.size as int / 2 - self.square.pos.x
                            - PROJECTILE_SIZE as int / 2),
                    ) as i32,
                    y: div_trunc_10(
                        -(player.pos.y + player.size as int / 2 - self.square.pos.y
                            - PROJECTILE_SIZE as int / 2),
                    ) as i32,
                },
                bounced: false,
            }
        } else {
            self
        }
    }

    /// Spawns a projectile at a random in-field position that does not
    /// overlap the player, moving one pixel per frame along one randomly
    /// chosen axis. Positions that overlap the player are rejected and
    /// redrawn; as a guard against an unbounded run of rejections, after a
    /// generous number of draws the projectile is placed deterministically
    /// beside the player instead. That guard is why the player must leave
    /// room for a projectile on at least one side, which the size bound in
    /// `requires` guarantees for every player position.
    pub fn new(rng: &mut Pcg64, player: &Square) -> (p: Projectile)
        requires
            player.wf(),
            player.size as int + 2 * (PROJECTILE_SIZE as int) + 1 <= FIELD_EXTENT as int,
        ensures
            p.wf(),
            p.square.size == PROJECTILE_SIZE,
            !spec_overlaps(p.square, *player),
            p.bounced == false,
            (p.direction.x == 0 && (p.direction.y == 1 || p.direction.y == -1)) || (
            p.direction.y == 0 && (p.direction.x == 1 || p.direction.x == -1)),
    {
        let dir: i32 = if rng_bool(rng) {
            1
        } else {
            -1
        };
        let limit: i32 = FIELD_EXTENT - PROJECTILE_SIZE as i32;
        let mut square = Square {
            pos: Point { x: rng_range(rng, 0, limit), y: rng_range(rng, 0, limit) },
            size: PROJECTILE_SIZE,
        };
        let mut tries: u32 = 0;
        while tries < 1000 && square.overlaps(player)
            invariant
                square.size == PROJECTILE_SIZE,
                square.wf(),
                player.wf(),
                0 < limit,
                limit + PROJECTILE_SIZE <= FIELD_EXTENT,
                tries <= 1000,
            decreases 1000 - tries,
        {
            square.pos.x = rng_range(rng, 0, limit);
            square.pos.y = rng_range(rng, 0, limit);
            tries = tries + 1;
        }
        if square.overlaps(player) {
            // The draws ran out while still overlapping: place the box just
            // clear of the player on the x-axis.
            if player.pos.x >= PROJECTILE_SIZE as i32 {
                square.pos.x = 0;
            } else {
                square.pos.x = player.pos.x + player.size as i32 + 1;
            }
        }
        let direction = if rng_bool(rng) {
            Point { x: dir, y: 0 }
        } else {
            Point { x: 0, y: dir }
        };
        Projectile { square, direction, bounced: false }
    }

    /// One frame step: move, reflect on blocked axes, and report whether a
    /// second bounce without player contact ended the game. On that signal
    /// the y move is skipped, as `spec_mv` records.
    pub fn mv(&mut self) -> (game_over: bool)
        requires
            old(self).wf(),
        ensures
            *final(self) == old(self).spec_mv(),
            game_over == old(self).spec_mv_over(),
            final(self).wf(),
    {
        let was_bounced: bool = self.bounced;
        if was_bounced {
            return self.move_x() || self.move_y();
        }
        let bounced_now: bool = self.move_x() || self.move_y();
        self.bounced = bounced_now;
        false
    }

    /// Re-homes the projectile off the player if the two overlap, clearing
    /// the bounced flag; otherwise leaves it as it is.
    pub fn update(&mut self, player: &Square)
        requires
            old(self).wf(),
            player.wf(),
        ensures
            *final(self) == old(self).spec_homed(*player),
            final(self).wf(),
    {
        if self.square.overlaps(player) {
            self.bounced = false;

            let p_mid: i32 = (player.size / 2) as i32;
            let mid: i32 = (PROJECTILE_SIZE / 2) as i32;
            let off_x: i32 = player.pos.x + p_mid - self.square.pos.x - mid;
            let off_y: i32 = player.pos.y + p_mid - self.square.pos.y - mid;
            self.direction = Point {
                x: if off_x <= 0 {
                    (-off_x) / 10
                } else {
                    -(off_x / 10)
                },
                y: if off_y <= 0 {
                    (-off_y) / 10
                } else {
                    -(off_y / 10)
                },
            };
        }
    }

    /// The x half of the frame step: a blocked move reflects the x
    /// displacement and reports the bounce.
    fn move_x(&mut self) -> (bounced: bool)
        requires
            old(self).wf(),
        ensures
            *final(self) == old(self).spec_move_x(),
            bounced == old(self).spec_bounce_x(),
            final(self).wf(),
    {
        if self.direction.x != 0 && !self.square.move_x(self.direction.x) {
            self.direction.x = -self.direction.x;
            return true;
        }
        false
    }

    /// The y half of the frame step, the mirror of `move_x`.
    fn move_y(&mut self) -> (bounced: bool)
        requires
            old(self).wf(),
        ensures
            *final(self) == old(self).spec_move_y(),
            bounced == old(self).spec_bounce_y(),
            final(self).wf(),
    {
        if self.direction.y != 0 && !self.square.move_y(self.direction.y) {
            self.direction.y = -self.direction.y;
            return true;
        }
        false
    }
}

} // verus!
