use std::collections::VecDeque;
use vstd::prelude::*;

verus! {

/// A position on the canvas.
#[derive(Clone, Copy, Debug, PartialEq)]
pub struct Point<S> {
    pub x: S,
    pub y: S,
}

/// One sample of a traced curve: a position and the heading kept there.
#[derive(Clone, Copy, Debug, PartialEq)]
pub struct Vertex<S> {
    pub x: S,
    pub y: S,
    pub theta: S,
}

impl<S: Copy> Vertex<S> {
    pub fn new(x: S, y: S, theta: S) -> (v: Self)
        ensures
            v == (Vertex { x, y, theta }),
    {
        Vertex { x, y, theta }
    }

    /// The position of the vertex, without its heading.
    pub open spec fn point(self) -> Point<S> {
        Point { x: self.x, y: self.y }
    }

    pub fn to_point(self) -> (p: Point<S>)
        ensures
            p == self.point(),
    {
        Point { x: self.x, y: self.y }
    }
}

/// The positions of a sequence of vertices, in the same order.
pub open spec fn points<S>(vs: Seq<Vertex<S>>) -> Seq<Point<S>> {
    Seq::new(vs.len(), |i: int| Point { x: vs[i].x, y: vs[i].y })
}

/// A flow field together with the parameters of the curves traced through it.
///
/// The three function values hold the arithmetic:
/// `noise_function(x, y)` is the heading of the field at a position,
/// `advance(v, step_size, reversed)` is the position one step away from `v`
/// along its heading (against it when `reversed`), and
/// `blend(speed, theta, sampled)` is the heading kept after a step, between
/// the heading so far and the one sampled at the new position.
pub struct Field<S, N, M, B> {
    pub noise_function: N,
    pub advance: M,
    pub blend: B,
    pub step_size: S,
    pub width: u32,
    pub height: u32,
    pub curve_length: u32,
    pub speed: S,
}

impl<S: Copy, N, M, B> Field<S, N, M, B> where
    N: Fn(S, S) -> S,
    M: Fn(Vertex<S>, S, bool) -> Point<S>,
    B: Fn(S, S, S) -> S,
 {
    /// The field's functions accept every argument.
    pub open spec fn total(&self) -> bool {
        &&& forall|x: S, y: S| call_requires(self.noise_function, (x, y))
        &&& forall|v: Vertex<S>, reversed: bool|
            call_requires(self.advance, (v, self.step_size, reversed))
        &&& forall|theta: S, sampled: S| call_requires(self.blend, (self.speed, theta, sampled))
    }

    /// `v` sits at `(x, y)` with the heading of the field there.
    pub open spec fn seeds(&self, x: S, y: S, v: Vertex<S>) -> bool {
        &&& v.x == x
        &&& v.y == y
        &&& call_ensures(self.noise_function, (x, y), v.theta)
    }

    /// `next` is one step away from `prev`: its position is where `advance`
    /// takes `prev`, and its heading blends the heading of `prev` with the
    /// one sampled at the new position.
    pub open spec fn follows(&self, prev: Vertex<S>, reversed: bool, next: Vertex<S>) -> bool {
        &&& call_ensures(self.advance, (prev, self.step_size, reversed), next.point())
        &&& exists|sampled: S|
            {
                &&& call_ensures(self.noise_function, (next.x, next.y), sampled)
                &&& call_ensures(self.blend, (self.speed, prev.theta, sampled), next.theta)
            }
    }

    /// `vs` is a curve grown forward from `(x, y)`: the seed vertex first,
    /// then `curve_length` further vertices, each one step after the one
    /// before it.
    pub open spec fn one_sided(&self, x: S, y: S, vs: Seq<Vertex<S>>) -> bool {
        &&& vs.len() == self.curve_length + 1
        &&& self.seeds(x, y, vs[0])
        &&& forall|i: int|
            0 <= i < self.curve_length ==> self.follows(#[trigger] vs[i], false, vs[i + 1])
    }

    /// `vs` is a curve grown both ways from `(x, y)`: the seed vertex in the
    /// middle, `curve_length / 2` forward steps after it and as many reversed
    /// steps before it, the farthest first.
    pub open spec fn two_sided(&self, x: S, y: S, vs: Seq<Vertex<S>>) -> bool {
        let half = self.curve_length as int / 2;
        &&& vs.len() == 2 * half + 1
        &&& self.seeds(x, y, vs[half])
        &&& forall|i: int|
            half <= i < 2 * half ==> self.follows(#[trigger] vs[i], false, vs[i + 1])
        &&& forall|i: int| 0 < i <= half ==> self.follows(#[trigger] vs[i], true, vs[i - 1])
    }

    /// Each of the field's functions has one result for one argument.
    pub open spec fn deterministic(&self) -> bool {
        &&& forall|x: S, y: S, a: S, b: S|
            #![trigger call_ensures(self.noise_function, (x, y), a), call_ensures(self.noise_function, (x, y), b)]
            call_ensures(self.noise_function, (x, y), a) && call_ensures(
                self.noise_function,
                (x, y),
                b,
            ) ==> a == b
        &&& forall|v: Vertex<S>, reversed: bool, p: Point<S>, q: Point<S>|
            #![trigger call_ensures(self.advance, (v, self.step_size, reversed), p), call_ensures(self.advance, (v, self.step_size, reversed), q)]
            call_ensures(self.advance, (v, self.step_size, reversed), p) && call_ensures(
                self.advance,
                (v, self.step_size, reversed),
                q,
            ) ==> p == q
        &&& forall|theta: S, sampled: S, a: S, b: S|
            #![trigger call_ensures(self.blend, (self.speed, theta, sampled), a), call_ensures(self.blend, (self.speed, theta, sampled), b)]
            call_ensures(self.blend, (self.speed, theta, sampled), a) && call_ensures(
                self.blend,
                (self.speed, theta, sampled),
                b,
            ) ==> a == b
    }

    /// `blend` always keeps the heading that it is given.
    pub open spec fn keeps_heading(&self) -> bool {
        forall|theta: S, sampled: S, kept: S|
            call_ensures(self.blend, (self.speed, theta, sampled), kept) ==> kept == theta
    }

    /// `blend` always takes the heading that was sampled.
    pub open spec fn takes_sample(&self) -> bool {
        forall|theta: S, sampled: S, kept: S|
            call_ensures(self.blend, (self.speed, theta, sampled), kept) ==> kept == sampled
    }

    /// In a deterministic field one vertex has one successor.
    pub proof fn lemma_successor_unique(
        &self,
        prev: Vertex<S>,
        reversed: bool,
        a: Vertex<S>,
        b: Vertex<S>,
    )
        requires
            self.deterministic(),
            self.follows(prev, reversed, a),
            self.follows(prev, reversed, b),
        ensures
            a == b,
    {
        assert(a.point() == b.point());
        let sa = choose|sampled: S|
            call_ensures(self.noise_function, (a.x, a.y), sampled) && call_ensures(
                self.blend,
                (self.speed, prev.theta, sampled),
                a.theta,
            );
        let sb = choose|sampled: S|
            call_ensures(self.noise_function, (b.x, b.y), sampled) && call_ensures(
                self.blend,
                (self.speed, prev.theta, sampled),
                b.theta,
            );
        assert(sa == sb);
        assert(a.theta == b.theta);
    }

    proof fn lemma_one_sided_agree(&self, x: S, y: S, a: Seq<Vertex<S>>, b: Seq<Vertex<S>>, i: nat)
        requires
            self.deterministic(),
            self.one_sided(x, y, a),
            self.one_sided(x, y, b),
            i <= self.curve_length,
        ensures
            a[i as int] == b[i as int],
        decreases i,
    {
        if i > 0 {
            self.lemma_one_sided_agree(x, y, a, b, (i - 1) as nat);
            assert(self.follows(a[i - 1], false, a[i - 1 + 1]));
            assert(self.follows(b[i - 1], false, b[i - 1 + 1]));
            self.lemma_successor_unique(a[i - 1], false, a[i as int], b[i as int]);
        }
    }

    /// Determinism of one-sided tracing: through a deterministic field only
    /// one curve grows forward from a given seed.
    pub proof fn lemma_one_sided_unique(&self, x: S, y: S, a: Seq<Vertex<S>>, b: Seq<Vertex<S>>)
        requires
            self.deterministic(),
            self.one_sided(x, y, a),
            self.one_sided(x, y, b),
        ensures
            a == b,
            points(a) == points(b),
    {
        assert forall|i: int| 0 <= i < a.len() implies a[i] == b[i] by {
            self.lemma_one_sided_agree(x, y, a, b, i as nat);
        }
        assert(a =~= b);
    }

    proof fn lemma_two_sided_agree(&self, x: S, y: S, a: Seq<Vertex<S>>, b: Seq<Vertex<S>>, d: nat)
        requires
            self.deterministic(),
            self.two_sided(x, y, a),
            self.two_sided(x, y, b),
            d <= self.curve_length / 2,
        ensures
            a[self.curve_length / 2 + d] == b[self.curve_length / 2 + d],
            a[self.curve_length / 2 - d] == b[self.curve_length / 2 - d],
        decreases d,
    {
        let half = self.curve_length as int / 2;
        if d > 0 {
            self.lemma_two_sided_agree(x, y, a, b, (d - 1) as nat);
            let up = half + d - 1;
            assert(self.follows(a[up], false, a[up + 1]));
            assert(self.follows(b[up], false, b[up + 1]));
            self.lemma_successor_unique(a[up], false, a[up + 1], b[up + 1]);
            let down = half - d + 1;
            assert(self.follows(a[down], true, a[down - 1]));
            assert(self.follows(b[down], true, b[down - 1]));
            self.lemma_successor_unique(a[down], true, a[down - 1], b[down - 1]);
        }
    }

    /// Determinism of two-sided tracing: through a deterministic field only
    /// one curve grows both ways from a given seed.
    pub proof fn lemma_two_sided_unique(&self, x: S, y: S, a: Seq<Vertex<S>>, b: Seq<Vertex<S>>)
        requires
            self.deterministic(),
            self.two_sided(x, y, a),
            self.two_sided(x, y, b),
        ensures
            a == b,
            points(a) == points(b),
    {
        let half = self.curve_length as int / 2;
        assert forall|i: int| 0 <= i < a.len() implies a[i] == b[i] by {
            if i >= half {
                self.lemma_two_sided_agree(x, y, a, b, (i - half) as nat);
            } else {
                self.lemma_two_sided_agree(x, y, a, b, (half - i) as nat);
            }
        }
        assert(a =~= b);
    }

    /// Where `blend` keeps the heading it is given, every vertex of a
    /// one-sided curve has the heading of the seed vertex.
    pub proof fn lemma_heading_kept(&self, x: S, y: S, vs: Seq<Vertex<S>>, i: int)
        requires
            self.keeps_heading(),
            self.one_sided(x, y, vs),
            0 <= i <= self.curve_length,
        ensures
            vs[i].theta == vs[0].theta,
        decreases i,
    {
        if i > 0 {
            self.lemma_heading_kept(x, y, vs, i - 1);
            assert(self.follows(vs[i - 1], false, vs[i - 1 + 1]));
        }
    }

    /// Where `blend` takes the heading sampled, every vertex of a one-sided
    /// curve has a heading that the field gives at the vertex's own position.
    pub proof fn lemma_heading_sampled(&self, x: S, y: S, vs: Seq<Vertex<S>>, i: int)
        requires
            self.takes_sample(),
            self.one_sided(x, y, vs),
            0 <= i <= self.curve_length,
        ensures
            call_ensures(self.noise_function, (vs[i].x, vs[i].y), vs[i].theta),
    {
        if i > 0 {
            assert(self.follows(vs[i - 1], false, vs[i - 1 + 1]));
        }
    }

    /// Traces a curve forward from `(x, y)`.
    pub fn curve1(&self, x: S, y: S) -> (curve: Vec<Point<S>>)
        requires
            self.total(),
        ensures
            curve@.len() == self.curve_length + 1,
            curve@[0] == (Point { x, y }),
            exists|vs: Seq<Vertex<S>>| self.one_sided(x, y, vs) && curve@ == points(vs),
    {
        let mut vertices: Vec<Vertex<S>> = Vec::new();
        let mut theta = (self.noise_function)(x, y);
        vertices.push(Vertex::new(x, y, theta));
        let mut i: u32 = 0;
        while i < self.curve_length
            invariant
                self.total(),
                i <= self.curve_length,
                vertices@.len() == i + 1,
                self.seeds(x, y, vertices@[0]),
                theta == vertices@[i as int].theta,
                forall|j: int| 0 <= j < i ==> self.follows(#[trigger] vertices@[j], false, vertices@[j + 1]),
            decreases self.curve_length - i,
        {
            let v = vertices[vertices.len() - 1];
            let p = (self.advance)(v, self.step_size, false);
            let sampled = (self.noise_function)(p.x, p.y);
            theta = (self.blend)(self.speed, theta, sampled);
            let v1 = Vertex::new(p.x, p.y, theta);
            assert(self.follows(v, false, v1)) by {
                assert(v1.point() == p);
                assert(call_ensures(self.blend, (self.speed, v.theta, sampled), v1.theta));
            }
            vertices.push(v1);
            i += 1;
        }
        assert(self.one_sided(x, y, vertices@));
        let mut curve: Vec<Point<S>> = Vec::new();
        let mut k: usize = 0;
        while k < vertices.len()
            invariant
                k <= vertices@.len(),
                curve@.len() == k,
                forall|j: int| 0 <= j < k ==> curve@[j] == (#[trigger] vertices@[j]).point(),
            decreases vertices@.len() - k,
        {
            curve.push(vertices[k].to_point());
            k += 1;
        }
        assert(curve@ =~= points(vertices@));
        curve
    }

    /// Traces a curve both ways from `(x, y)`: forward along the field and,
    /// from the same seed, against it.
    pub fn curve2(&self, x: S, y: S) -> (curve: Vec<Point<S>>)
        requires
            self.total(),
        ensures
            curve@.len() == 2 * (self.curve_length as int / 2) + 1,
            curve@[self.curve_length as int / 2] == (Point { x, y }),
            exists|vs: Seq<Vertex<S>>| self.two_sided(x, y, vs) && curve@ == points(vs),
    {
        let mut vertices: VecDeque<Vertex<S>> = VecDeque::new();
        let mut theta_back = (self.noise_function)(x, y);
        let mut theta_front = theta_back;
        vertices.push_back(Vertex::new(x, y, theta_back));
        let half: u32 = self.curve_length / 2;
        let mut i: u32 = 0;
        while i < half
            invariant
                self.total(),
                half == self.curve_length / 2,
                i <= half,
                vertices@.len() == 2 * i + 1,
                self.seeds(x, y, vertices@[i as int]),
                theta_back == vertices@[2 * i].theta,
                theta_front == vertices@[0].theta,
                forall|j: int|
                    i <= j < 2 * i ==> self.follows(#[trigger] vertices@[j], false, vertices@[j + 1]),
                forall|j: int|
                    0 < j <= i ==> self.follows(#[trigger] vertices@[j], true, vertices@[j - 1]),
            decreases half - i,
        {
            let ghost before = vertices@;
            let v_back = vertices[vertices.len() - 1];
            let v_front = vertices[0];
            let p_back = (self.advance)(v_back, self.step_size, false);
            let p_front = (self.advance)(v_front, self.step_size, true);
            let sampled_back = (self.noise_function)(p_back.x, p_back.y);
            theta_back = (self.blend)(self.speed, theta_back, sampled_back);
            let sampled_front = (self.noise_function)(p_front.x, p_front.y);
            theta_front = (self.blend)(self.speed, theta_front, sampled_front);
            let v1 = Vertex::new(p_back.x, p_back.y, theta_back);
            let v2 = Vertex::new(p_front.x, p_front.y, theta_front);
            assert(self.follows(v_back, false, v1)) by {
                assert(v1.point() == p_back);
                assert(call_ensures(self.blend, (self.speed, v_back.theta, sampled_back), v1.theta));
            }
            assert(self.follows(v_front, true, v2)) by {
                assert(v2.point() == p_front);
                assert(call_ensures(self.blend, (self.speed, v_front.theta, sampled_front), v2.theta));
            }
            vertices.push_back(v1);
            vertices.push_front(v2);
            i += 1;
            proof {
                let after = vertices@;
                assert forall|j: int| 0 < j < after.len() - 1 implies after[j] == before[j - 1] by {}
                assert forall|j: int| i <= j < 2 * i implies self.follows(
                    #[trigger] after[j],
                    false,
                    after[j + 1],
                ) by {
                    if j + 1 < 2 * i {
                        assert(self.follows(before[j - 1], false, before[j]));
                    }
                }
                assert forall|j: int| 0 < j <= i implies self.follows(
                    #[trigger] after[j],
                    true,
                    after[j - 1],
                ) by {
                    if j > 1 {
                        assert(self.follows(before[j - 1], true, before[j - 2]));
                    }
                }
            }
        }
        assert(self.two_sided(x, y, vertices@));
        let mut curve: Vec<Point<S>> = Vec::new();
        let mut k: usize = 0;
        while k < vertices.len()
            invariant
                k <= vertices@.len(),
                curve@.len() == k,
                forall|j: int| 0 <= j < k ==> curve@[j] == (#[trigger] vertices@[j]).point(),
            decreases vertices@.len() - k,
        {
            curve.push(vertices[k].to_point());
            k += 1;
        }
        assert(curve@ =~= points(vertices@));
        curve
    }
}

} // verus!
