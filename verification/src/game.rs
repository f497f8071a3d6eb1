//! The session state machine: one playthrough of the game, advanced once
//! per frame. Pre-game waits for a button-press edge, playing applies
//! input, spawns projectiles on a fixed cadence and steps them, and
//! game-over updates the high score, asks the host to persist it exactly
//! once, and waits for a release-then-press edge before restarting.

use vstd::prelude::*;
use rand_pcg::Pcg64;
use crate::basics::{Point, Square, clamped, spec_overlaps};
use crate::projectile::{Projectile, PROJECTILE_SIZE};
use crate::rng::rng_from_seed;

verus! {

/// Bit of the left direction button in the host's gamepad bitmask.
pub const BUTTON_LEFT: u8 = 16;

/// Bit of the right direction button in the host's gamepad bitmask.
pub const BUTTON_RIGHT: u8 = 32;

/// Bit of the up direction button in the host's gamepad bitmask.
pub const BUTTON_UP: u8 = 64;

/// Bit of the down direction button in the host's gamepad bitmask.
pub const BUTTON_DOWN: u8 = 128;

/// Side length of the player's square, in pixels.
pub const PLAYER_SIZE: u32 = 16;

/// Starting coordinate of the player on both axes.
pub const PLAYER_START: i32 = 69;

/// A projectile spawns every `SPAWN_PERIOD` frames while playing.
pub const SPAWN_PERIOD: u64 = 120;

/// How far one held direction button moves the player in one frame.
pub const PLAYER_SPEED: i32 = 2;

/// The player square after a clamped x move by `amt`.
pub open spec fn spec_moved_x(s: Square, amt: int) -> Square {
    Square {
        pos: Point { x: clamped(s.pos.x as int, amt, s.size as int) as i32, y: s.pos.y },
        size: s.size,
    }
}

/// The player square after a clamped y move by `amt`.
pub open spec fn spec_moved_y(s: Square, amt: int) -> Square {
    Square {
        pos: Point { x: s.pos.x, y: clamped(s.pos.y as int, amt, s.size as int) as i32 },
        size: s.size,
    }
}

/// The player square after one frame of held buttons: up, down, left and
/// right are applied in that order, each as an independent clamped move.
pub open spec fn input_applied(s: Square, gamepad: u8) -> Square {
    let s1 = if gamepad & BUTTON_UP != 0 {
        spec_moved_y(s, -(PLAYER_SPEED as int))
    } else {
        s
    };
    let s2 = if gamepad & BUTTON_DOWN != 0 {
        spec_moved_y(s1, PLAYER_SPEED as int)
    } else {
        s1
    };
    let s3 = if gamepad & BUTTON_LEFT != 0 {
        spec_moved_x(s2, -(PLAYER_SPEED as int))
    } else {
        s2
    };
    if gamepad & BUTTON_RIGHT != 0 {
        spec_moved_x(s3, PLAYER_SPEED as int)
    } else {
        s3
    }
}

/// The score counter after one spawn: it saturates at the top of its
/// 8-bit range rather than wrapping.
pub open spec fn sat_inc(s: u8) -> u8 {
    if s == 255 {
        s
    } else {
        (s + 1) as u8
    }
}

/// What holds of a projectile the spawner hands out: in the field, clear
/// of the player, not yet bounced, moving one pixel per frame along a
/// single axis.
pub open spec fn spawned_ok(q: Projectile, player: Square) -> bool {
    &&& q.wf()
    &&& q.square.size == PROJECTILE_SIZE
    &&& !spec_overlaps(q.square, player)
    &&& q.bounced == false
    &&& (q.direction.x == 0 && (q.direction.y == 1 || q.direction.y == -1)) || (q.direction.y
        == 0 && (q.direction.x == 1 || q.direction.x == -1))
}

/// The index of the first projectile whose frame step signals game over,
/// or the sequence's length when none does. Projectiles step
/// independently, so the signal of each depends on its own prior state
/// alone.
pub open spec fn first_over_idx(ps: Seq<Projectile>) -> int
    decreases ps.len(),
{
    if ps.len() == 0 {
        0
    } else if ps[0].spec_mv_over() {
        0
    } else {
        1 + first_over_idx(ps.drop_first())
    }
}

/// `first_over_idx` is the least index whose step signals game over: every
/// projectile before it does not signal, and the one at it does when it
/// lies inside the sequence.
pub proof fn lemma_first_over_idx(ps: Seq<Projectile>)
    ensures
        0 <= first_over_idx(ps) <= ps.len(),
        forall|j: int| 0 <= j < first_over_idx(ps) ==> !(#[trigger] ps[j]).spec_mv_over(),
        first_over_idx(ps) < ps.len() ==> ps[first_over_idx(ps)].spec_mv_over(),
    decreases ps.len(),
{
    if ps.len() > 0 && !ps[0].spec_mv_over() {
        lemma_first_over_idx(ps.drop_first());
        let df = ps.drop_first();
        assert forall|j: int| 0 <= j < first_over_idx(ps) implies !(#[trigger] ps[j]).spec_mv_over() by {
            if j > 0 {
                assert(ps[j] == df[j - 1]);
                assert(!df[j - 1].spec_mv_over());
            }
        }
        if first_over_idx(ps) < ps.len() {
            assert(ps[first_over_idx(ps)] == df[first_over_idx(df)]);
        }
    }
}

/// The projectile sequence after the frame's step loop, where `k` is the
/// index at which the loop stopped: everything before `k` has moved and
/// been checked against the player, the projectile at `k` (if any) had
/// moved when its step signaled game over and the loop returned, and
/// everything after `k` is untouched.
pub open spec fn stepped_seq(ps: Seq<Projectile>, player: Square, k: int) -> Seq<Projectile> {
    Seq::new(
        ps.len(),
        |i: int|
            if i < k {
                ps[i].spec_mv().spec_homed(player)
            } else if i == k {
                ps[i].spec_mv()
            } else {
                ps[i]
            },
    )
}

/// What the step loop leaves behind, given the projectiles `ps0` it
/// started from and the player it checked against: the game is over
/// exactly when some step signaled it, and the sequence is stepped up to
/// that point.
pub open spec fn stepped_outcome(ps0: Seq<Projectile>, player: Square, g2: Game) -> bool {
    &&& g2.projectiles@ == stepped_seq(ps0, player, first_over_idx(ps0))
    &&& g2.over == (first_over_idx(ps0) < ps0.len())
}

/// The whole mutable state of one playthrough.
pub struct Game {
    pub player: Square,
    pub score: u8,
    pub high_score: u8,
    pub projectiles: Vec<Projectile>,
    pub frame_count: u64,
    pub rng: Pcg64,
    pub pre_game: bool,
    pub over: bool,
    pub btn_pressed: bool,
}

impl Game {
    /// The player is a well-placed square of the player's size and every
    /// live projectile is well formed.
    pub open spec fn wf(self) -> bool {
        &&& self.player.wf()
        &&& self.player.size == PLAYER_SIZE
        &&& forall|i: int| 0 <= i < self.projectiles@.len() ==> (#[trigger] self.projectiles@[i]).wf()
    }

    /// A brand-new session carrying the given high score: default player
    /// position, no projectiles, zero score, pre-game phase. Nothing is
    /// said of the generator; it is reseeded when play starts.
    pub open spec fn is_initial(self, high_score: u8) -> bool {
        &&& self.player == (Square {
            pos: Point { x: PLAYER_START, y: PLAYER_START },
            size: PLAYER_SIZE,
        })
        &&& self.score == 0
        &&& self.high_score == high_score
        &&& self.projectiles@.len() == 0
        &&& self.frame_count == 0
        &&& self.pre_game == true
        &&& self.over == false
        &&& self.btn_pressed == false
    }

    /// One game-over frame. The high score is raised to the score, and the
    /// byte to persist is handed out, exactly on the first such frame
    /// (afterwards the score no longer exceeds the stored high score, so
    /// nothing is persisted again). A press after an all-buttons-released
    /// frame restarts with a fresh session that keeps the high score.
    pub open spec fn spec_update_over(g: Game, gamepad: u8, g2: Game, persist: Option<u8>) -> bool {
        let hs = if g.score > g.high_score {
            g.score
        } else {
            g.high_score
        };
        &&& persist == (if g.score > g.high_score {
            Some(g.score)
        } else {
            None::<u8>
        })
        &&& if gamepad != 0 && g.btn_pressed {
            g2.is_initial(hs)
        } else {
            &&& g2.player == g.player
            &&& g2.score == g.score
            &&& g2.high_score == hs
            &&& g2.projectiles@ == g.projectiles@
            &&& g2.frame_count == g.frame_count
            &&& g2.rng == g.rng
            &&& g2.pre_game == g.pre_game
            &&& g2.over == true
            &&& g2.btn_pressed == (g.btn_pressed || gamepad == 0)
        }
    }

    /// One pre-game frame. Only the frame counter advances until a press
    /// follows an all-buttons-released frame; that edge starts play and
    /// reseeds the generator from the frame counter.
    pub open spec fn spec_update_pregame(g: Game, gamepad: u8, g2: Game, persist: Option<u8>) -> bool {
        &&& persist == None::<u8>
        &&& g2.player == g.player
        &&& g2.score == g.score
        &&& g2.high_score == g.high_score
        &&& g2.projectiles@ == g.projectiles@
        &&& g2.frame_count == g.frame_count + 1
        &&& g2.over == false
        &&& if gamepad != 0 && g.btn_pressed {
            g2.pre_game == false && g2.btn_pressed == false
        } else {
            &&& g2.pre_game == true
            &&& g2.btn_pressed == (g.btn_pressed || gamepad == 0)
            &&& g2.rng == g.rng
        }
    }

    /// One playing frame. The frame counter advances, held buttons move
    /// the player, on the spawn cadence a fresh projectile clear of the
    /// player joins the live set and the score rises (saturating), and the
    /// step loop runs over the live set, ending the game if a projectile
    /// signals it.
    pub open spec fn spec_update_playing(g: Game, gamepad: u8, g2: Game, persist: Option<u8>) -> bool {
        let fc = g.frame_count + 1;
        let pl = input_applied(g.player, gamepad);
        &&& persist == None::<u8>
        &&& g2.frame_count == fc
        &&& g2.player == pl
        &&& g2.pre_game == false
        &&& g2.btn_pressed == g.btn_pressed
        &&& g2.high_score == g.high_score
        &&& if fc % (SPAWN_PERIOD as int) == 0 {
            &&& g2.score == sat_inc(g.score)
            &&& exists|q: Projectile|
                #[trigger] spawned_ok(q, pl) && stepped_outcome(g.projectiles@.push(q), pl, g2)
        } else {
            &&& g2.score == g.score
            &&& stepped_outcome(g.projectiles@, pl, g2)
        }
    }

    /// A new session. The caller hands in the high score read from
    /// persistent storage (0 when nothing was ever written).
    pub fn new(high_score: u8) -> (g: Game)
        ensures
            g.is_initial(high_score),
            g.wf(),
    {
        Game {
            player: Square { pos: Point { x: PLAYER_START, y: PLAYER_START }, size: PLAYER_SIZE },
            score: 0,
            high_score,
            projectiles: Vec::new(),
            frame_count: 0,
            rng: rng_from_seed(0),  // reseeded when play starts
            pre_game: true,
            over: false,
            btn_pressed: false,
        }
    }

    /// Advances the session by one frame, given the currently held button
    /// bitmask. Returns the byte to write to persistent storage this
    /// frame, if any: exactly the score, on the first game-over frame on
    /// which it exceeds the stored high score.
    pub fn update(&mut self, gamepad: u8) -> (persist: Option<u8>)
        requires
            old(self).wf(),
            old(self).frame_count < u64::MAX,
        ensures
            final(self).wf(),
            old(self).over ==> Self::spec_update_over(*old(self), gamepad, *final(self), persist),
            !old(self).over && old(self).pre_game ==> Self::spec_update_pregame(
                *old(self),
                gamepad,
                *final(self),
                persist,
            ),
            !old(self).over && !old(self).pre_game ==> Self::spec_update_playing(
                *old(self),
                gamepad,
                *final(self),
                persist,
            ),
    {
        if self.over {
            let mut persist: Option<u8> = None;
            if self.score > self.high_score {
                self.high_score = self.score;
                persist = Some(self.score);
            }

            if gamepad == 0 {
                if !self.btn_pressed {
                    self.btn_pressed = true;
                }
            } else if self.btn_pressed {
                let hs = self.high_score;
                *self = Game::new(hs);
            }

            return persist;
        }

        self.frame_count = self.frame_count + 1;

        if self.pre_game {
            if gamepad == 0 {
                if !self.btn_pressed {
                    self.btn_pressed = true;
                }
            } else if self.btn_pressed {
                self.pre_game = false;
                self.rng = rng_from_seed(self.frame_count);
                self.btn_pressed = false;
            }
            return None;
        }

        self.handle_input(gamepad);

        let ghost pl = self.player;
        let ghost old_ps = self.projectiles@;
        let ghost mut gq = Projectile {
            square: self.player,
            direction: Point { x: 0, y: 0 },
            bounced: false,
        };
        if self.frame_count % SPAWN_PERIOD == 0 {
            let q = Projectile::new(&mut self.rng, &self.player);
            self.projectiles.push(q);
            // The score saturates at the top of its range, by design.
            if self.score < 255 {
                self.score = self.score + 1;
            }
            proof {
                gq = q;
            }
        }

        let game_over = self.step_projectiles();
        if game_over {
            self.over = true;
        }
        proof {
            let fc = old(self).frame_count + 1;
            if fc % (SPAWN_PERIOD as int) == 0 {
                assert(spawned_ok(gq, pl));
                assert(stepped_outcome(old_ps.push(gq), pl, *self));
                assert(exists|q: Projectile|
                    #[trigger] spawned_ok(q, pl) && stepped_outcome(old_ps.push(q), pl, *self));
            } else {
                assert(stepped_outcome(old_ps, pl, *self));
            }
        }
        None
    }

    /// Moves the player by the held direction buttons, each axis clamped
    /// independently at the playfield edges.
    fn handle_input(&mut self, gamepad: u8)
        requires
            old(self).wf(),
        ensures
            final(self).player == input_applied(old(self).player, gamepad),
            final(self).wf(),
            final(self).score == old(self).score,
            final(self).high_score == old(self).high_score,
            final(self).projectiles@ == old(self).projectiles@,
            final(self).frame_count == old(self).frame_count,
            final(self).rng == old(self).rng,
            final(self).pre_game == old(self).pre_game,
            final(self).over == old(self).over,
            final(self).btn_pressed == old(self).btn_pressed,
    {
        if gamepad & BUTTON_UP != 0 {
            self.player.move_y(-PLAYER_SPEED);
        }
        if gamepad & BUTTON_DOWN != 0 {
            self.player.move_y(PLAYER_SPEED);
        }
        if gamepad & BUTTON_LEFT != 0 {
            self.player.move_x(-PLAYER_SPEED);
        }
        if gamepad & BUTTON_RIGHT != 0 {
            self.player.move_x(PLAYER_SPEED);
        }
    }

    /// Runs every live projectile through one frame step and the player
    /// contact check, stopping at (and reporting) the first game-over
    /// signal; projectiles after that point stay untouched this frame.
    fn step_projectiles(&mut self) -> (game_over: bool)
        requires
            old(self).wf(),
        ensures
            final(self).projectiles@ == stepped_seq(
                old(self).projectiles@,
                old(self).player,
                first_over_idx(old(self).projectiles@),
            ),
            game_over == (first_over_idx(old(self).projectiles@) < old(
                self,
            ).projectiles@.len()),
            final(self).wf(),
            final(self).player == old(self).player,
            final(self).score == old(self).score,
            final(self).high_score == old(self).high_score,
            final(self).frame_count == old(self).frame_count,
            final(self).rng == old(self).rng,
            final(self).pre_game == old(self).pre_game,
            final(self).over == old(self).over,
            final(self).btn_pressed == old(self).btn_pressed,
    {
        let ghost ps0 = old(self).projectiles@;
        let ghost pl = old(self).player;
        let mut i: usize = 0;
        let mut game_over: bool = false;
        while i < self.projectiles.len()
            invariant_except_break
                game_over == false,
                forall|j: int| i <= j < ps0.len() ==> #[trigger] self.projectiles@[j] == ps0[j],
            invariant
                ps0 == old(self).projectiles@,
                pl == old(self).player,
                self.projectiles@.len() == ps0.len(),
                i <= ps0.len(),
                self.player == old(self).player,
                self.score == old(self).score,
                self.high_score == old(self).high_score,
                self.frame_count == old(self).frame_count,
                self.rng == old(self).rng,
                self.pre_game == old(self).pre_game,
                self.over == old(self).over,
                self.btn_pressed == old(self).btn_pressed,
                pl.wf(),
                forall|j: int|
                    0 <= j < self.projectiles@.len() ==> (#[trigger] self.projectiles@[j]).wf(),
                forall|j: int| 0 <= j < i ==> !(#[trigger] ps0[j]).spec_mv_over(),
                forall|j: int|
                    0 <= j < i ==> #[trigger] self.projectiles@[j] == ps0[j].spec_mv().spec_homed(
                        pl,
                    ),
            ensures
                i <= ps0.len(),
                !game_over ==> i == ps0.len(),
                game_over ==> i < ps0.len() && ps0[i as int].spec_mv_over()
                    && self.projectiles@[i as int] == ps0[i as int].spec_mv(),
                game_over ==> forall|j: int|
                    i < j < ps0.len() ==> #[trigger] self.projectiles@[j] == ps0[j],
            decreases ps0.len() - i,
        {
            let go = self.projectiles[i].mv();
            if go {
                game_over = true;
                break;
            }
            self.projectiles[i].update(&self.player);
            i = i + 1;
        }
        proof {
            lemma_first_over_idx(ps0);
            if game_over {
                assert(first_over_idx(ps0) == i as int);
                assert(self.projectiles@ =~= stepped_seq(ps0, pl, i as int));
            } else {
                assert(first_over_idx(ps0) == ps0.len() as int);
                assert(self.projectiles@ =~= stepped_seq(ps0, pl, ps0.len() as int));
            }
        }
        game_over
    }
}

} // verus!
