//! The platform stream: a FIFO window of platforms around the player, grown
//! ahead of it and trimmed behind it by at most one platform each per tick.
use vstd::prelude::*;
use crate::body::{Platform, PlatformQueue};
use crate::fixed::clamp_i64;
use crate::random::random_u32;
use crate::VIEWPORT_WIDTH;

verus! {

/// How far behind the left edge of the view a platform's right edge must be
/// before it is dropped.
pub const DESPAWN_MARGIN: i64 = 50_000;

/// A new platform's left gap, height and width are drawn from these ranges.
pub const MIN_GAP: i64 = 100_000;

pub const GAP_SPREAD: u32 = 150_000;

pub const MIN_PLATFORM_Y: i64 = -250_000;

pub const PLATFORM_Y_SPREAD: u32 = 200_000;

pub const MIN_PLATFORM_WIDTH: i64 = 100_000;

pub const PLATFORM_WIDTH_SPREAD: u32 = 150_000;

/// Raw random values for one new platform.
#[derive(Clone, Copy, Debug, PartialEq, Eq)]
pub struct PlatformRolls {
    pub gap: u32,
    pub height: u32,
    pub width: u32,
}

impl PlatformRolls {
    /// Draws fresh values.
    pub fn draw() -> (r: PlatformRolls) {
        let gap = random_u32();
        let height = random_u32();
        let width = random_u32();
        PlatformRolls { gap, height, width }
    }
}

pub fn spawn_platform(x: i64, y: i64, width: i64) -> (r: Platform)
    ensures
        r == (Platform { x, y, width }),
{
    Platform { x, y, width }
}

/// The platform placed after `back`: a gap of 100 to 250 units past its right
/// edge, 250 to 50 units below the origin, 100 to 250 units wide.
pub open spec fn next_platform(back: Platform, rolls: PlatformRolls) -> Platform {
    Platform {
        x: clamp_i64(
            back.right_edge() + MIN_GAP + (rolls.gap as int) % (GAP_SPREAD as int + 1),
        ) as i64,
        y: (MIN_PLATFORM_Y + (rolls.height as int) % (PLATFORM_Y_SPREAD as int + 1)) as i64,
        width: (MIN_PLATFORM_WIDTH + (rolls.width as int) % (PLATFORM_WIDTH_SPREAD as int
            + 1)) as i64,
    }
}

/// The left edge of the view minus the margin, for a player at `player_x`.
pub open spec fn despawn_line(player_x: int) -> int {
    player_x - VIEWPORT_WIDTH / 2 - DESPAWN_MARGIN
}

/// The right edge of the view for a player at `player_x`.
pub open spec fn spawn_line(player_x: int) -> int {
    player_x + VIEWPORT_WIDTH / 2
}

/// The window after dropping its oldest platform if that one is out of view.
pub open spec fn trimmed(q: Seq<Platform>, player_x: int) -> Seq<Platform> {
    if q.len() > 0 && q[0].right_edge() < despawn_line(player_x) {
        q.subrange(1, q.len() as int)
    } else {
        q
    }
}

/// The window after one tick of streaming.
pub open spec fn streamed(q: Seq<Platform>, player_x: int, rolls: PlatformRolls) -> Seq<
    Platform,
> {
    let t = trimmed(q, player_x);
    if t.len() > 0 && t.last().right_edge() < spawn_line(player_x) {
        t.push(next_platform(t.last(), rolls))
    } else {
        t
    }
}

/// The two platforms a session starts with.
pub open spec fn initial_platforms() -> Seq<Platform> {
    seq![
        Platform { x: 0, y: -250_000i64, width: 800_000 },
        Platform { x: 500_000, y: -150_000i64, width: 200_000 },
    ]
}

/// Lays out the starting platforms when the window is empty.
pub fn setup_platforms(queue: &mut PlatformQueue)
    ensures
        old(queue)@.len() == 0 ==> final(queue)@ == initial_platforms(),
        old(queue)@.len() > 0 ==> final(queue)@ == old(queue)@,
        old(queue).wf() ==> final(queue).wf(),
{
    if queue.0.len() == 0 {
        queue.0.clear();
        queue.0.push_back(spawn_platform(0, -250_000, 800_000));
        queue.0.push_back(spawn_platform(500_000, -150_000, 200_000));
        proof {
            assert(queue@ =~= initial_platforms());
        }
    }
}

fn right_edge_of(p: &Platform) -> (r: i128)
    requires
        p.wf(),
    ensures
        r == p.right_edge(),
{
    (p.x as i128) + (p.width / 2) as i128
}

/// Drops the oldest platform once it is out of view behind the player, then
/// adds one ahead when the newest one's right edge is inside the view.
pub fn manage_platforms(queue: &mut PlatformQueue, player_x: i64, rolls: PlatformRolls)
    requires
        old(queue).wf(),
    ensures
        final(queue)@ == streamed(old(queue)@, player_x as int, rolls),
        final(queue).wf(),
{
    let ghost q0 = queue@;
    let px = player_x as i128;
    if queue.0.len() > 0 {
        let front = queue.0[0];
        assert(q0[0].wf());
        if right_edge_of(&front) < px - (VIEWPORT_WIDTH / 2) as i128 - DESPAWN_MARGIN as i128 {
            queue.0.pop_front();
        }
    }
    let ghost q1 = queue@;
    assert(q1 == trimmed(q0, player_x as int));
    assert(queue.wf()) by {
        assert forall|i: int, j: int| 0 <= i < j < q1.len() implies q1[i].x <= q1[j].x by {
            if q1.len() < q0.len() {
                assert(q1[i] == q0[i + 1] && q1[j] == q0[j + 1]);
            }
        }
        assert forall|i: int| 0 <= i < q1.len() implies (#[trigger] q1[i]).wf() by {
            if q1.len() < q0.len() {
                assert(q1[i] == q0[i + 1]);
            }
        }
    }
    let n = queue.0.len();
    if n > 0 {
        let back = queue.0[n - 1];
        assert(q1[n - 1].wf());
        let edge = right_edge_of(&back);
        if edge < px + (VIEWPORT_WIDTH / 2) as i128 {
            let x_wide = edge + MIN_GAP as i128 + (rolls.gap % (GAP_SPREAD + 1)) as i128;
            let x: i64 = if x_wide > i64::MAX as i128 {
                i64::MAX
            } else {
                x_wide as i64
            };
            let y = MIN_PLATFORM_Y + (rolls.height % (PLATFORM_Y_SPREAD + 1)) as i64;
            let width = MIN_PLATFORM_WIDTH + (rolls.width % (PLATFORM_WIDTH_SPREAD + 1)) as i64;
            let p = spawn_platform(x, y, width);
            proof {
                assert(p == next_platform(back, rolls));
                assert(back == q1.last());
                assert(back.x <= p.x);
            }
            queue.0.push_back(p);
            proof {
                let q2 = queue@;
                assert forall|i: int, j: int| 0 <= i < j < q2.len() implies q2[i].x
                    <= q2[j].x by {
                    if j == q2.len() - 1 && i < q1.len() - 1 {
                        assert(q1[i].x <= q1[q1.len() - 1].x);
                    }
                }
                assert forall|i: int| 0 <= i < q2.len() implies (#[trigger] q2[i]).wf() by {
                    if i < q1.len() {
                        assert(q2[i] == q1[i]);
                    }
                }
            }
        }
    }
}

} // verus!
