//! The whole-number skeleton of the gamut search.
//!
//! The colours of one tone lie on a plane in linear RGB, which the cube of
//! displayable colours cuts into a polygon. The search for the most chromatic
//! colour of a hue first visits the twelve edges of the cube for the corners
//! of that polygon, then walks along one side of it by halving a run of
//! critical planes: the values at which a rounded channel steps from one
//! whole number to the next. What is computed in between is the model's; here
//! stand the order of the edges, and the halving with its bound.

use vstd::prelude::*;

verus! {

/// The number of edges of the cube.
pub const EDGES: u32 = 12;

/// The plane below every channel value.
pub const LOWEST_PLANE: i32 = -1;

/// The plane above every channel value.
pub const HIGHEST_PLANE: i32 = 255;

/// The number of halvings that bring any run of planes down to neighbours.
pub const ROUNDS: u32 = 8;

/// One of the three channels, as a direction in the cube.
#[derive(Debug, Clone, Copy, PartialEq, Eq, Structural)]
pub enum Axis {
    Red,
    Green,
    Blue,
}

/// An edge of the cube: it runs along `free`, and sits at the low or the high
/// end of the axis that follows `free` (green after red, blue after green,
/// red after blue) and of the axis after that one.
#[derive(Debug, Clone, Copy, PartialEq, Eq, Structural)]
pub struct Edge {
    pub free: Axis,
    pub next_high: bool,
    pub last_high: bool,
}

/// The edge that is visited at step `n`.
pub open spec fn edge_at(n: int) -> Edge {
    Edge {
        free: if n < 4 {
            Axis::Red
        } else if n < 8 {
            Axis::Green
        } else {
            Axis::Blue
        },
        next_high: n % 4 >= 2,
        last_high: n % 2 == 1,
    }
}

/// The step at which `edge` is visited.
pub open spec fn step_of(edge: Edge) -> int {
    (match edge.free {
        Axis::Red => 0int,
        Axis::Green => 4int,
        Axis::Blue => 8int,
    }) + (if edge.next_high {
        2int
    } else {
        0int
    }) + (if edge.last_high {
        1int
    } else {
        0int
    })
}

/// The edge of the cube that the search visits at step `n`.
pub fn nth_edge(n: u32) -> (edge: Edge)
    ensures
        edge == edge_at(n as int),
{
    let free = if n < 4 {
        Axis::Red
    } else if n < 8 {
        Axis::Green
    } else {
        Axis::Blue
    };
    Edge { free, next_high: n % 4 >= 2, last_high: n % 2 == 1 }
}

/// The twelve steps visit every edge of the cube, each exactly once.
pub proof fn lemma_edges_visited_once(n: int, edge: Edge)
    requires
        0 <= n < EDGES,
    ensures
        step_of(edge_at(n)) == n,
        0 <= step_of(edge) < EDGES,
        edge_at(step_of(edge)) == edge,
{
}

/// The plane halfway between two planes, rounded down.
pub open spec fn midplane(l_plane: int, r_plane: int) -> int {
    (l_plane + r_plane) / 2
}

/// Whether two planes are the same or neighbours.
pub open spec fn adjacent(l_plane: int, r_plane: int) -> bool {
    -1 <= r_plane - l_plane <= 1
}

/// The longest run of planes that `rounds` halvings bring down to
/// neighbours: two to the power of `rounds`.
pub open spec fn reach(rounds: nat) -> int
    decreases rounds,
{
    if rounds == 0 {
        1
    } else {
        2 * reach((rounds - 1) as nat)
    }
}

/// What `probe` can answer, as a relation: asked in `state` at `plane`, it
/// can answer `right` and hand on `next`.
pub open spec fn answers<S, P: Fn(S, i32) -> (bool, S)>(probe: &P) -> spec_fn(
    S,
    i32,
    bool,
    S,
) -> bool {
    |state: S, plane: i32, right: bool, next: S| probe.ensures((state, plane), (right, next))
}

/// Whether at most `rounds` halvings can lead from `from` to `to`. Each is a
/// state of the walk with its left and its right plane. While the planes are
/// not adjacent and rounds are left, a question is asked at the plane halfway
/// between them; the answer says whether that plane becomes the right one
/// (else it becomes the left one), and hands on the state.
pub open spec fn halves<S>(
    answer: spec_fn(S, i32, bool, S) -> bool,
    rounds: nat,
    from: (S, i32, i32),
    to: (S, i32, i32),
) -> bool
    decreases rounds,
{
    if rounds == 0 || adjacent(from.1 as int, from.2 as int) {
        to == from
    } else {
        let mid = midplane(from.1 as int, from.2 as int) as i32;
        exists|right: bool, state: S| #[trigger]
            answer(from.0, mid, right, state) && halves(
                answer,
                (rounds - 1) as nat,
                if right {
                    (state, from.1, mid)
                } else {
                    (state, mid, from.2)
                },
                to,
            )
    }
}

/// Whether at most `rounds` halvings with the answers of `probe` can lead
/// from `from` to `to`.
pub open spec fn narrows<S, P: Fn(S, i32) -> (bool, S)>(
    probe: &P,
    rounds: nat,
    from: (S, i32, i32),
    to: (S, i32, i32),
) -> bool {
    halves(answers(probe), rounds, from, to)
}

/// Whether `plane` lies between the two given planes, ends included.
pub open spec fn within(plane: int, l_plane: int, r_plane: int) -> bool {
    l_plane <= plane <= r_plane || r_plane <= plane <= l_plane
}

/// Halving keeps the planes between those it started from and on the sides
/// they started on, and `rounds` halvings of a run no longer than
/// `reach(rounds)` end on neighbours.
pub proof fn lemma_halves_converges<S>(
    answer: spec_fn(S, i32, bool, S) -> bool,
    rounds: nat,
    from: (S, i32, i32),
    to: (S, i32, i32),
)
    requires
        halves(answer, rounds, from, to),
    ensures
        within(to.1 as int, from.1 as int, from.2 as int),
        within(to.2 as int, from.1 as int, from.2 as int),
        from.1 <= from.2 ==> to.1 <= to.2,
        from.1 >= from.2 ==> to.1 >= to.2,
        -reach(rounds) <= from.2 - from.1 <= reach(rounds) ==> adjacent(to.1 as int, to.2 as int),
    decreases rounds,
{
    if rounds == 0 || adjacent(from.1 as int, from.2 as int) {
    } else {
        let mid = midplane(from.1 as int, from.2 as int) as i32;
        let (right, state) = choose|right: bool, state: S| #[trigger]
            answer(from.0, mid, right, state) && halves(
                answer,
                (rounds - 1) as nat,
                if right {
                    (state, from.1, mid)
                } else {
                    (state, mid, from.2)
                },
                to,
            );
        let next = if right {
            (state, from.1, mid)
        } else {
            (state, mid, from.2)
        };
        lemma_halves_converges(answer, (rounds - 1) as nat, next, to);
    }
}

/// Eight halvings bring any run of planes from `-1` to `255` down to
/// neighbours.
pub proof fn lemma_eight_rounds_suffice()
    ensures
        reach(ROUNDS as nat) == HIGHEST_PLANE - LOWEST_PLANE,
{
    reveal_with_fuel(reach, 9);
}

/// Walks a run of critical planes down to neighbours. While the two planes
/// are not adjacent, `probe` is asked at the plane halfway between them, at
/// most eight times; each answer makes that plane the new right or the new
/// left end. Every plane that `probe` is asked at lies strictly between the
/// two ends, so it is one of the planes `0..=254`.
pub fn bisect_planes<S, P: Fn(S, i32) -> (bool, S)>(
    state: S,
    l_plane: i32,
    r_plane: i32,
    probe: &P,
) -> (end: (S, i32, i32))
    requires
        LOWEST_PLANE <= l_plane <= HIGHEST_PLANE,
        LOWEST_PLANE <= r_plane <= HIGHEST_PLANE,
        forall|state: S, plane: i32|
            LOWEST_PLANE < plane < HIGHEST_PLANE ==> #[trigger] probe.requires((state, plane)),
    ensures
        narrows(probe, ROUNDS as nat, (state, l_plane, r_plane), end),
        adjacent(end.1 as int, end.2 as int),
        within(end.1 as int, l_plane as int, r_plane as int),
        within(end.2 as int, l_plane as int, r_plane as int),
        l_plane <= r_plane ==> end.1 <= end.2,
        l_plane >= r_plane ==> end.1 >= end.2,
{
    let ghost start = (state, l_plane, r_plane);
    let ghost answer = answers(probe);
    let mut state = state;
    let mut l_plane = l_plane;
    let mut r_plane = r_plane;
    let mut round: u32 = 0;
    while round < ROUNDS && (r_plane - l_plane > 1 || l_plane - r_plane > 1)
        invariant
            round <= ROUNDS,
            answer == answers(probe),
            LOWEST_PLANE <= l_plane <= HIGHEST_PLANE,
            LOWEST_PLANE <= r_plane <= HIGHEST_PLANE,
            forall|state: S, plane: i32|
                LOWEST_PLANE < plane < HIGHEST_PLANE ==> #[trigger] probe.requires((state, plane)),
            forall|to: (S, i32, i32)|
                halves(answer, (ROUNDS - round) as nat, (state, l_plane, r_plane), to)
                    ==> #[trigger] halves(answer, ROUNDS as nat, start, to),
        decreases ROUNDS - round,
    {
        let ghost before = (state, l_plane, r_plane);
        let m_plane: i32 = (l_plane + r_plane) / 2;
        assert(m_plane == midplane(l_plane as int, r_plane as int));
        let (right, next) = probe(state, m_plane);
        state = next;
        if right {
            r_plane = m_plane;
        } else {
            l_plane = m_plane;
        }
        round = round + 1;
        assert forall|to: (S, i32, i32)|
            halves(
                answer,
                (ROUNDS - round) as nat,
                (state, l_plane, r_plane),
                to,
            ) implies #[trigger] halves(answer, ROUNDS as nat, start, to) by {
            assert(answer(before.0, m_plane, right, state));
            assert(halves(answer, (ROUNDS - round + 1) as nat, before, to));
        }
    }
    let end = (state, l_plane, r_plane);
    proof {
        assert(halves(answer, (ROUNDS - round) as nat, end, end));
        lemma_halves_converges(answer, ROUNDS as nat, start, end);
        lemma_eight_rounds_suffice();
    }
    end
}

} // verus!
