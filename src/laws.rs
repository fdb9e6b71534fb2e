//! Laws of the simulation, stated over the spec functions that the step
//! functions' contracts use, and proved.
use vstd::prelude::*;
use crate::body::{Body, Platform};
use crate::enemy::{has_fallen, populated, survivors, Enemy};
use crate::fixed::{abs, clamp_i64, gain, scale};
use crate::platform::{next_platform, streamed, trimmed, PlatformRolls};
use crate::geometry::spans_overlap;
use crate::player::{classify, damped, intent, Player, PlayerInput, PlayerState, PLAYER_ACCELERATION};
use crate::BODY_WIDTH;


verus! {

/// Platforms in order of non-decreasing centre.
pub open spec fn ordered(s: Seq<Platform>) -> bool {
    forall|i: int, j: int| 0 <= i < j < s.len() ==> s[i].x <= s[j].x
}

pub open spec fn all_wf(s: Seq<Platform>) -> bool {
    forall|i: int| 0 <= i < s.len() ==> (#[trigger] s[i]).wf()
}

/// With no direction held, one tick of input and forces strictly reduces a
/// non-zero horizontal speed, and keeps a zero one at zero: the speed
/// converges toward rest.
pub proof fn damping_converges(vx: i64, input: PlayerInput, dt_us: u32)
    requires
        intent(input) == 0,
    ensures
        ({
            let after = damped(
                clamp_i64(vx + intent(input) * gain(PLAYER_ACCELERATION as int, dt_us as int)),
            );
            &&& vx != 0 ==> abs(after) < abs(vx as int)
            &&& vx == 0 ==> after == 0
        }),
{
    assert(clamp_i64(vx + intent(input) * gain(PLAYER_ACCELERATION as int, dt_us as int)) == vx);
    let v = vx as int;
    let d = scale(v, 9, 10);
    if v > 0 {
        assert(v * 9 / 10 < v && v * 9 / 10 >= 0) by (nonlinear_arith)
            requires v > 0;
        assert(0 <= d < v);
    } else if v < 0 {
        assert((-v) * 9 / 10 < -v && (-v) * 9 / 10 >= 0) by (nonlinear_arith)
            requires v < 0;
        assert(v * 9 < 0);
        assert(-(v * 9) == (-v) * 9);
        assert(v < d <= 0);
    } else {
        assert(d == 0);
    }
}

/// A jump fires only while the jump buffer and the coyote window both have
/// time left. Firing closes the jump buffer of `p` (see `handle_input`); any
/// later player `q` whose buffer is still that closed one does not fire on a
/// tick without a new press.
pub proof fn jump_fires_once(
    p: Player,
    input: PlayerInput,
    dt_us: u32,
    q: Player,
    later: PlayerInput,
    later_dt_us: u32,
)
    requires
        q.jump_buffer == p.jump_buffer.ended(),
        !later.jump_pressed,
    ensures
        p.jump_fires(input, dt_us as int) ==> p.buffer_after(input, dt_us as int).remaining_us > 0
            && p.coyote_time.ticked(dt_us as int).remaining_us > 0,
        !q.jump_fires(later, later_dt_us as int),
{
}

/// Landing never leaves a body sunk into a platform it landed on during the
/// pass: afterwards its bottom is at or above that platform's top, and it is
/// grounded.
pub proof fn landing_clears_surface(b: Body, ps: Seq<Platform>, i: int)
    requires
        all_wf(ps),
        0 <= i < ps.len(),
        b.ungrounded().landed_all(ps.subrange(0, i)).lands_on(ps[i]),
    ensures
        b.resolved(ps).bottom() >= ps[i].top(),
        b.resolved(ps).is_grounded,
{
    let c = b.ungrounded();
    assert(ps.subrange(0, i + 1).drop_last() =~= ps.subrange(0, i));
    assert(c.landed_all(ps.subrange(0, i + 1)).bottom() == ps[i].top());
    rises_after(c, ps, i + 1, ps.len() as int);
    assert(ps.subrange(0, ps.len() as int) =~= ps);
}

/// Resolving against more platforms never lowers a body, and keeps it
/// grounded once it is.
proof fn rises_after(c: Body, ps: Seq<Platform>, k: int, m: int)
    requires
        all_wf(ps),
        0 <= k <= m <= ps.len(),
    ensures
        c.landed_all(ps.subrange(0, m)).bottom() >= c.landed_all(ps.subrange(0, k)).bottom(),
        c.landed_all(ps.subrange(0, k)).is_grounded ==> c.landed_all(
            ps.subrange(0, m),
        ).is_grounded,
    decreases m - k,
{
    if k < m {
        rises_after(c, ps, k, m - 1);
        assert(ps.subrange(0, m).drop_last() =~= ps.subrange(0, m - 1));
        assert(ps[m - 1].wf());
    }
}

/// One tick of streaming removes at most the oldest platform and appends at
/// most one new platform, and keeps the window ordered by centre.
pub proof fn stream_moves_by_one(q: Seq<Platform>, player_x: int, rolls: PlatformRolls)
    requires
        all_wf(q),
        ordered(q),
    ensures
        ({
            let r = streamed(q, player_x, rolls);
            let t = trimmed(q, player_x);
            &&& t == q || (q.len() > 0 && t == q.subrange(1, q.len() as int))
            &&& r == t || (t.len() > 0 && r == t.push(r.last()))
            &&& ordered(r)
        }),
{
    let t = trimmed(q, player_x);
    let r = streamed(q, player_x, rolls);
    assert(ordered(t)) by {
        assert forall|i: int, j: int| 0 <= i < j < t.len() implies t[i].x <= t[j].x by {
            if t.len() < q.len() {
                assert(t[i] == q[i + 1] && t[j] == q[j + 1]);
            }
        }
    }
    if r != t {
        let p = next_platform(t.last(), rolls);
        assert(r == t.push(p));
        assert(t.last().wf()) by {
            if t.len() < q.len() {
                assert(t.last() == q[q.len() - 1]);
            } else {
                assert(t.last() == q[q.len() - 1]);
            }
        }
        assert(t.last().x <= p.x);
        assert forall|i: int, j: int| 0 <= i < j < r.len() implies r[i].x <= r[j].x by {
            if j == r.len() - 1 && i < t.len() - 1 {
                assert(t[i].x <= t[t.len() - 1].x);
            }
        }
    }
}

proof fn survivors_shrink(s: Seq<Enemy>)
    ensures
        survivors(s).len() <= s.len(),
        (forall|i: int| 0 <= i < s.len() ==> !has_fallen(#[trigger] s[i])) ==> survivors(s) == s,
    decreases s.len(),
{
    if s.len() > 0 {
        survivors_shrink(s.drop_last());
        if forall|i: int| 0 <= i < s.len() ==> !has_fallen(#[trigger] s[i]) {
            assert forall|i: int| 0 <= i < s.drop_last().len() implies !has_fallen(
                #[trigger] s.drop_last()[i],
            ) by {
                assert(s.drop_last()[i] == s[i]);
            }
            assert(!has_fallen(s[s.len() - 1]));
            assert(s.drop_last().push(s.last()) =~= s);
        }
    }
}

/// A population step never grows the enemy count past the larger of its
/// previous size and the target. When no enemy has fallen, the distance to
/// the target never grows, and a population at or under the target stays at
/// or under it.
pub proof fn population_approaches_target(
    s: Seq<Enemy>,
    player_x: int,
    max_enemies: u32,
    jitter: u32,
)
    ensures
        ({
            let r = populated(s, player_x, max_enemies, jitter);
            &&& r.len() <= s.len() || r.len() <= max_enemies
            &&& (forall|i: int| 0 <= i < s.len() ==> !has_fallen(#[trigger] s[i])) ==> {
                &&& abs(r.len() - max_enemies) <= abs(s.len() - max_enemies)
                &&& s.len() <= max_enemies ==> r.len() <= max_enemies
            }
        }),
{
    survivors_shrink(s);
}

/// `b` raised to the power `n`.
pub open spec fn power(b: int, n: nat) -> int
    decreases n,
{
    if n == 0 {
        1
    } else {
        b * power(b, (n - 1) as nat)
    }
}

/// The horizontal speed after `n` ticks without a held direction. With no
/// intent the input step leaves the speed as it is (see `World::tick`), so
/// each tick applies `damped` once, whatever its length.
pub open spec fn damped_ticks(v: int, n: nat) -> int
    decreases n,
{
    if n == 0 {
        v
    } else {
        damped(damped_ticks(v, (n - 1) as nat))
    }
}

proof fn damping_ratio(v: int)
    ensures
        10 * abs(damped(v)) <= 9 * abs(v),
{
    let d = scale(v, 9, 10);
    if v >= 0 {
        assert(10 * (v * 9 / 10) <= 9 * v && v * 9 / 10 >= 0) by (nonlinear_arith)
            requires v >= 0;
    } else {
        assert(10 * ((-v) * 9 / 10) <= 9 * (-v) && (-v) * 9 / 10 >= 0) by (nonlinear_arith)
            requires v < 0;
        assert(-(v * 9) == (-v) * 9);
    }
    assert(10 * abs(d) <= 9 * abs(v));
}

/// Over any number `n` of ticks without a held direction, the horizontal
/// speed shrinks at least geometrically: `10^n * |v_n| <= 9^n * |v_0|`, so it
/// converges to rest for every sequence of time steps.
pub proof fn damping_geometric(v: i64, n: nat)
    ensures
        power(10, n) * abs(damped_ticks(v as int, n)) <= power(9, n) * abs(v as int),
    decreases n,
{
    if n > 0 {
        let m = (n - 1) as nat;
        damping_geometric(v, m);
        let prev = damped_ticks(v as int, m);
        damping_ratio(prev);
        power_positive(10, m);
        let a = power(10, m);
        let x = abs(damped(prev));
        let y = abs(prev);
        let c = power(9, m) * abs(v as int);
        assert(a * (10 * x) <= a * (9 * y)) by (nonlinear_arith)
            requires a > 0, 10 * x <= 9 * y;
        assert(9 * (a * y) <= 9 * c) by (nonlinear_arith)
            requires a * y <= c;
        assert(power(10, n) * x == a * (10 * x)) by (nonlinear_arith)
            requires power(10, n) == 10 * a;
        assert(power(9, n) * abs(v as int) == 9 * c) by (nonlinear_arith)
            requires power(9, n) == 9 * power(9, m), c == power(9, m) * abs(v as int);
        assert(a * (9 * y) == 9 * (a * y)) by (nonlinear_arith);
    }
}

proof fn power_positive(b: int, n: nat)
    requires
        b > 0,
    ensures
        power(b, n) > 0,
    decreases n,
{
    if n > 0 {
        power_positive(b, (n - 1) as nat);
        assert(b * power(b, (n - 1) as nat) > 0) by (nonlinear_arith)
            requires b > 0, power(b, (n - 1) as nat) > 0;
    }
}

/// Whether body `b` is sunk below the top surface of platform `p` while
/// overlapping it.
pub open spec fn sinks_into(b: Body, p: Platform) -> bool {
    &&& spans_overlap(b.x as int, BODY_WIDTH as int, p.x as int, p.width as int)
    &&& b.bottom() < p.top()
    &&& b.top() > p.bottom()
}

/// A player at rest on a platform: still, grounded, no jump pending, standing
/// on some platform of `ps` and sunk into none.
pub open spec fn resting_on(p: Player, ps: Seq<Platform>) -> bool {
    &&& p.body.vx == 0
    &&& p.body.vy == 0
    &&& p.body.is_grounded
    &&& p.jump_buffer.is_finished()
    &&& exists|i: int| 0 <= i < ps.len() && p.body.lands_on(#[trigger] ps[i])
    &&& forall|j: int| 0 <= j < ps.len() ==> !sinks_into(p.body, #[trigger] ps[j])
}

/// The landing pass leaves a still body that is sunk into no platform where
/// it is, grounded exactly when it rests on one.
proof fn still_body_stays(b: Body, ps: Seq<Platform>, k: int)
    requires
        all_wf(ps),
        0 <= k <= ps.len(),
        b.vy == 0,
        forall|j: int| 0 <= j < ps.len() ==> !sinks_into(b, #[trigger] ps[j]),
    ensures
        ({
            let r = b.landed_all(ps.subrange(0, k));
            &&& r.x == b.x && r.y == b.y && r.vx == b.vx && r.vy == 0
            &&& r.is_grounded == (b.is_grounded || exists|i: int|
                0 <= i < k && b.lands_on(#[trigger] ps[i]))
        }),
    decreases k,
{
    if k > 0 {
        still_body_stays(b, ps, k - 1);
        assert(ps.subrange(0, k).drop_last() =~= ps.subrange(0, k - 1));
        assert(ps[k - 1].wf());
        assert(!sinks_into(b, ps[k - 1]));
        let r0 = b.landed_all(ps.subrange(0, k - 1));
        assert(r0.lands_on(ps[k - 1]) == b.lands_on(ps[k - 1]));
        if exists|i: int| 0 <= i < k && b.lands_on(#[trigger] ps[i]) {
            let i = choose|i: int| 0 <= i < k && b.lands_on(#[trigger] ps[i]);
            if i < k - 1 {
                assert(0 <= i < k - 1 && b.lands_on(ps[i]));
            }
        }
        if exists|i: int| 0 <= i < k - 1 && b.lands_on(#[trigger] ps[i]) {
            let i = choose|i: int| 0 <= i < k - 1 && b.lands_on(#[trigger] ps[i]);
            assert(0 <= i < k && b.lands_on(ps[i]));
        }
    }
}

/// A player at rest on a platform with no input stays exactly where it is
/// through a tick's input, forces, integration and landing: still, grounded,
/// shown as idle, and again at rest, so it stays put over any number of ticks.
pub proof fn rest_is_kept(p: Player, ps: Seq<Platform>, input: PlayerInput, dt_us: u32)
    requires
        all_wf(ps),
        resting_on(p, ps),
        !input.left && !input.right && !input.jump_pressed,
    ensures
        ({
            let dt = dt_us as int;
            let q = p.after_input(input, dt).after_forces(dt).moved(dt).after_landing(ps);
            &&& q.body == p.body
            &&& classify(q.body) == PlayerState::Idle
            &&& resting_on(q, ps)
        }),
{
    let dt = dt_us as int;
    let g = gain(PLAYER_ACCELERATION as int, dt);
    assert(intent(input) == 0);
    assert(intent(input) * g == 0) by (nonlinear_arith)
        requires intent(input) == 0;
    assert(!p.jump_fires(input, dt));
    let p2 = p.after_input(input, dt).after_forces(dt);
    assert(p2.body == p.body);
    assert(0 * dt == 0);
    assert(p2.moved(dt).body == p.body);
    let b = p.body;
    still_body_stays(b.ungrounded(), ps, ps.len() as int);
    assert(ps.subrange(0, ps.len() as int) =~= ps);
    let i = choose|i: int| 0 <= i < ps.len() && p.body.lands_on(#[trigger] ps[i]);
    assert(b.ungrounded().lands_on(ps[i]));
    assert forall|j: int| 0 <= j < ps.len() implies !sinks_into(
        b.ungrounded(),
        #[trigger] ps[j],
    ) by {
        assert(!sinks_into(b, ps[j]));
    }
}

} // verus!
