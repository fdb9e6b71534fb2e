//! Kinematic bodies, platforms, integration and one-way landing resolution.
use vstd::prelude::*;
use std::collections::VecDeque;
use crate::fixed::{clamp_i64, displacement, displacement_of, sat_add};
use crate::geometry::{spans_overlap, spans_overlap_exec};
use crate::{BODY_HEIGHT, BODY_WIDTH, PLATFORM_THICKNESS};

verus! {

/// Highest altitude, up or down, at which a platform may stand.
pub const MAX_PLATFORM_ALTITUDE: i64 = 1_000_000_000_000;

/// Position and velocity of a player or an enemy, y pointing up.
#[derive(Clone, Copy, Debug, PartialEq, Eq)]
pub struct Body {
    pub x: i64,
    pub y: i64,
    pub vx: i64,
    pub vy: i64,
    pub is_grounded: bool,
}

/// A platform: a box of fixed thickness with its centre and width.
#[derive(Clone, Copy, Debug, PartialEq, Eq)]
pub struct Platform {
    pub x: i64,
    pub y: i64,
    pub width: i64,
}

impl Platform {
    pub open spec fn wf(self) -> bool {
        0 <= self.width && -MAX_PLATFORM_ALTITUDE <= self.y <= MAX_PLATFORM_ALTITUDE
    }

    pub open spec fn top(self) -> int {
        self.y + PLATFORM_THICKNESS / 2
    }

    pub open spec fn bottom(self) -> int {
        self.y - PLATFORM_THICKNESS / 2
    }

    /// The right edge, rounded down when the width is odd.
    pub open spec fn right_edge(self) -> int {
        self.x + self.width / 2
    }
}

/// The live platforms, oldest first.
pub struct PlatformQueue(pub VecDeque<Platform>);

impl PlatformQueue {
    pub open spec fn view(&self) -> Seq<Platform> {
        self.0@
    }

    /// Every platform is well formed and the centres never decrease.
    pub open spec fn wf(&self) -> bool {
        &&& forall|i: int| 0 <= i < self@.len() ==> (#[trigger] self@[i]).wf()
        &&& forall|i: int, j: int| 0 <= i < j < self@.len() ==> self@[i].x <= self@[j].x
    }

    /// Tests the well-formedness that the collision and streaming passes need.
    pub fn is_well_formed(&self) -> (r: bool)
        ensures
            r == self.wf(),
    {
        let n = self.0.len();
        let mut i: usize = 0;
        while i < n
            invariant
                n == self@.len(),
                0 <= i <= n,
                forall|k: int| 0 <= k < i ==> (#[trigger] self@[k]).wf(),
                forall|a: int, b: int| 0 <= a < b < i ==> self@[a].x <= self@[b].x,
            decreases n - i,
        {
            let p = self.0[i];
            if p.width < 0 || p.y < -MAX_PLATFORM_ALTITUDE || p.y > MAX_PLATFORM_ALTITUDE {
                return false;
            }
            if i > 0 && self.0[i - 1].x > p.x {
                return false;
            }
            i = i + 1;
        }
        true
    }

    pub fn new() -> (r: PlatformQueue)
        ensures
            r@ == Seq::<Platform>::empty(),
    {
        PlatformQueue(VecDeque::new())
    }
}

impl Body {
    pub open spec fn bottom(self) -> int {
        self.y - BODY_HEIGHT / 2
    }

    pub open spec fn top(self) -> int {
        self.y + BODY_HEIGHT / 2
    }

    /// Whether the body, falling or at rest, meets `p` from above: it overlaps
    /// `p` horizontally, its bottom is at or below `p`'s top surface, and it
    /// has not passed below `p`. A body resting exactly on the surface counts.
    pub open spec fn lands_on(self, p: Platform) -> bool {
        &&& self.vy <= 0
        &&& spans_overlap(self.x as int, BODY_WIDTH as int, p.x as int, p.width as int)
        &&& self.bottom() <= p.top()
        &&& self.top() > p.bottom()
    }

    /// The body after resolving against one platform: pushed up by the
    /// penetration, stopped vertically and grounded, if it lands on it.
    pub open spec fn landed(self, p: Platform) -> Body {
        if self.lands_on(p) {
            Body {
                x: self.x,
                y: (p.top() + BODY_HEIGHT / 2) as i64,
                vx: self.vx,
                vy: 0,
                is_grounded: true,
            }
        } else {
            self
        }
    }

    /// The body after resolving against each platform of `ps` in order.
    pub open spec fn landed_all(self, ps: Seq<Platform>) -> Body
        decreases ps.len(),
    {
        if ps.len() == 0 {
            self
        } else {
            self.landed_all(ps.drop_last()).landed(ps.last())
        }
    }

    /// The body before resolution, with the grounded flag cleared.
    pub open spec fn ungrounded(self) -> Body {
        Body { x: self.x, y: self.y, vx: self.vx, vy: self.vy, is_grounded: false }
    }

    /// The body after one collision pass: grounded exactly when it landed on
    /// some platform of the pass.
    pub open spec fn resolved(self, ps: Seq<Platform>) -> Body {
        self.ungrounded().landed_all(ps)
    }

    /// The body moved by its velocity over `dt_us` microseconds.
    pub open spec fn integrated(self, dt_us: int) -> Body {
        Body {
            x: clamp_i64(self.x + clamp_i64(displacement(self.vx as int, dt_us))) as i64,
            y: clamp_i64(self.y + clamp_i64(displacement(self.vy as int, dt_us))) as i64,
            vx: self.vx,
            vy: self.vy,
            is_grounded: self.is_grounded,
        }
    }

    /// Landing moves a body only vertically.
    pub proof fn landing_keeps_horizontal(self, ps: Seq<Platform>)
        ensures
            self.landed_all(ps).x == self.x,
            self.landed_all(ps).vx == self.vx,
        decreases ps.len(),
    {
        if ps.len() > 0 {
            self.landing_keeps_horizontal(ps.drop_last());
        }
    }

    /// Advances the position by the velocity over `dt_us` microseconds.
    pub fn apply_velocity(&mut self, dt_us: u32)
        ensures
            *final(self) == old(self).integrated(dt_us as int),
    {
        let dx = displacement_of(self.vx, dt_us);
        let dy = displacement_of(self.vy, dt_us);
        self.x = sat_add(self.x, dx);
        self.y = sat_add(self.y, dy);
    }

    pub fn lands_on_exec(&self, p: &Platform) -> (r: bool)
        ensures
            r == self.lands_on(*p),
    {
        let half_h = (BODY_HEIGHT / 2) as i128;
        let half_t = (PLATFORM_THICKNESS / 2) as i128;
        self.vy <= 0 && spans_overlap_exec(
            self.x as i128,
            BODY_WIDTH as i128,
            p.x as i128,
            p.width as i128,
        ) && (self.y as i128)
            - half_h <= (p.y as i128) + half_t && (self.y as i128) + half_h > (p.y as i128)
            - half_t
    }

    /// Landing-only collision pass against every platform of the window: a
    /// falling or resting body that meets a platform from above is put on
    /// its top surface, stopped vertically and grounded.
    pub fn resolve_landings(&mut self, platforms: &PlatformQueue)
        requires
            platforms.wf(),
        ensures
            *final(self) == old(self).resolved(platforms@),
    {
        self.is_grounded = false;
        let n = platforms.0.len();
        let mut i: usize = 0;
        while i < n
            invariant
                n == platforms@.len(),
                platforms.wf(),
                0 <= i <= n,
                *self == old(self).ungrounded().landed_all(platforms@.subrange(0, i as int)),
            decreases n - i,
        {
            let p = platforms.0[i];
            proof {
                assert(platforms@[i as int].wf());
                let s = platforms@.subrange(0, i as int + 1);
                assert(s.drop_last() =~= platforms@.subrange(0, i as int));
            }
            if self.lands_on_exec(&p) {
                self.y = (p.y + PLATFORM_THICKNESS / 2) + BODY_HEIGHT / 2;
                self.vy = 0;
                self.is_grounded = true;
            }
            i = i + 1;
        }
        proof {
            assert(platforms@.subrange(0, n as int) =~= platforms@);
        }
    }
}

} // verus!
