use vstd::prelude::*;

verus! {

/// The `k`-th chunk of `0..n` in chunks of `chunk_size`: `[k * size, min((k + 1) * size, n))`.
pub open spec fn chunk(n: nat, chunk_size: nat, k: nat) -> (usize, usize) {
    let end = if (k + 1) * chunk_size <= n {
        (k + 1) * chunk_size
    } else {
        n
    };
    ((k * chunk_size) as usize, end as usize)
}

/// Splits the points `0..n` of a temperature sweep into consecutive chunks of
/// `chunk_size` points (the last one may be shorter), each solved as its own
/// continuation from its first point.
pub fn chunk_ranges(n: usize, chunk_size: usize) -> (r: Vec<(usize, usize)>)
    requires
        chunk_size > 0,
    ensures
        r@.len() * chunk_size >= n,
        r@.len() == 0 || (r@.len() - 1) * chunk_size < n,
        forall|k: int| 0 <= k < r@.len() ==> r@[k] == chunk(n as nat, chunk_size as nat, k as nat),
{
    let mut r: Vec<(usize, usize)> = Vec::new();
    let mut start: usize = 0;
    proof {
        assert(r@.len() * chunk_size == 0) by (nonlinear_arith)
            requires
                r@.len() == 0,
        ;
    }
    while start < n
        invariant
            chunk_size > 0,
            start <= n,
            start < n ==> start == r@.len() * chunk_size,
            start == n ==> r@.len() * chunk_size >= n,
            r@.len() == 0 || (r@.len() - 1) * chunk_size < n,
            forall|k: int|
                0 <= k < r@.len() ==> r@[k] == chunk(n as nat, chunk_size as nat, k as nat),
        decreases n - start,
    {
        let ghost k = r@.len();
        proof {
            assert((k + 1) * chunk_size == k * chunk_size + chunk_size) by (nonlinear_arith);
        }
        let end: usize = if n - start <= chunk_size {
            n
        } else {
            start + chunk_size
        };
        r.push((start, end));
        start = end;
    }
    r
}

/// Control of a temperature continuation: points are solved one after the
/// other, each seeded with the previous point's solution when that point was
/// solved, and the indices of solved points are kept in order.
#[derive(Clone, Debug)]
pub struct ContinuationSweep {
    pub n_points: usize,
    pub next: usize,
    pub previous_solved: bool,
    pub kept: Vec<usize>,
}

/// Where the next point of a sweep starts from.
#[derive(Clone, Copy, Debug, PartialEq, Eq, Structural)]
pub enum SweepStart {
    /// Solve point `0` from scratch.
    Cold(usize),
    /// Solve point `0` seeded with the solution of the point before it.
    Warm(usize),
}

impl ContinuationSweep {
    /// Indices are below the next point, strictly increasing, and no point
    /// is left to solve past the end.
    pub open spec fn wf(&self) -> bool {
        &&& self.next <= self.n_points
        &&& forall|k: int| 0 <= k < self.kept@.len() ==> self.kept@[k] < self.next
        &&& forall|k: int, l: int|
            0 <= k < l < self.kept@.len() ==> self.kept@[k] < self.kept@[l]
        &&& self.previous_solved ==> self.next > 0 && self.kept@.len() > 0 && self.kept@.last()
            == self.next - 1
    }

    /// A sweep over `n_points` points with none solved yet.
    pub fn new(n_points: usize) -> (r: ContinuationSweep)
        ensures
            r.wf(),
            r.n_points == n_points,
            r.next == 0,
            !r.previous_solved,
            r.kept@.len() == 0,
    {
        ContinuationSweep { n_points, next: 0, previous_solved: false, kept: Vec::new() }
    }

    /// The next point to solve and how to seed it, or none once all were tried.
    pub fn next_point(&self) -> (r: Option<SweepStart>)
        ensures
            self.next >= self.n_points ==> r is None,
            self.next < self.n_points && self.previous_solved ==> r == Some(
                SweepStart::Warm(self.next),
            ),
            self.next < self.n_points && !self.previous_solved ==> r == Some(
                SweepStart::Cold(self.next),
            ),
    {
        if self.next >= self.n_points {
            None
        } else if self.previous_solved {
            Some(SweepStart::Warm(self.next))
        } else {
            Some(SweepStart::Cold(self.next))
        }
    }

    /// Records whether the current point was solved.
    pub fn record(&mut self, solved: bool)
        requires
            old(self).wf(),
            old(self).next < old(self).n_points,
        ensures
            final(self).wf(),
            final(self).n_points == old(self).n_points,
            final(self).next == old(self).next + 1,
            final(self).previous_solved == solved,
            solved ==> final(self).kept@ == old(self).kept@.push(old(self).next),
            !solved ==> final(self).kept@ == old(self).kept@,
    {
        if solved {
            self.kept.push(self.next);
        }
        self.next = self.next + 1;
        self.previous_solved = solved;
    }
}

} // verus!
