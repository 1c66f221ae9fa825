use vstd::prelude::*;

verus! {

/// The cyclic distance from position `from` forward to position `to`, among `n` positions.
pub open spec fn cyclic_distance(from: int, to: int, n: int) -> int {
    if to >= from {
        to - from
    } else {
        to + n - from
    }
}

/// The position `d` steps forward from `from`, among `n` positions.
pub open spec fn cyclic_step(from: int, d: int, n: int) -> int {
    if from + d < n {
        from + d
    } else {
        from + d - n
    }
}

/// Fair choice among merged event sources: each choice takes the first ready source at or after
/// the one following the previous choice, so that no ready source waits for more than one turn of
/// the others.
pub struct RoundRobin {
    sources: usize,
    next: usize,
}

impl RoundRobin {
    /// The number of sources.
    pub closed spec fn sources_view(&self) -> nat {
        self.sources as nat
    }

    /// The source the next choice starts looking at.
    pub closed spec fn next_view(&self) -> nat {
        self.next as nat
    }

    /// The starting position is a source, when there is any.
    pub closed spec fn wf(&self) -> bool {
        if self.sources == 0 {
            self.next == 0
        } else {
            self.next < self.sources
        }
    }

    /// A choice among no sources yet.
    pub fn new() -> (r: RoundRobin)
        ensures
            r.wf(),
            r.sources_view() == 0,
            r.next_view() == 0,
    {
        RoundRobin { sources: 0, next: 0 }
    }

    /// Adds a source and returns its position.
    pub fn add_source(&mut self) -> (r: usize)
        requires
            old(self).wf(),
            old(self).sources_view() < usize::MAX,
        ensures
            final(self).wf(),
            r == old(self).sources_view(),
            final(self).sources_view() == old(self).sources_view() + 1,
            final(self).next_view() == old(self).next_view(),
    {
        let r = self.sources;
        self.sources = self.sources + 1;
        r
    }

    /// The number of sources.
    pub fn sources(&self) -> (r: usize)
        ensures
            r == self.sources_view(),
    {
        self.sources
    }

    /// Chooses a ready source: the first, going forward cyclically from the start position, with
    /// `ready` set; `None` when no source is ready. The start position moves past the choice.
    pub fn pick(&mut self, ready: &Vec<bool>) -> (r: Option<usize>)
        requires
            old(self).wf(),
            ready@.len() == old(self).sources_view(),
        ensures
            final(self).wf(),
            final(self).sources_view() == old(self).sources_view(),
            r is None <==> forall|i: int| 0 <= i < ready@.len() ==> !#[trigger] ready@[i],
            r is None ==> final(self).next_view() == old(self).next_view(),
            r matches Some(k) ==> {
                let n = old(self).sources_view() as int;
                let from = old(self).next_view() as int;
                &&& k < n
                &&& ready@[k as int]
                &&& forall|d: int|
                    0 <= d < cyclic_distance(from, k as int, n) ==> !#[trigger] ready@[cyclic_step(
                        from,
                        d,
                        n,
                    )]
                &&& final(self).next_view() == if k + 1 == n {
                    0
                } else {
                    k + 1
                }
            },
    {
        let n = self.sources;
        let from = self.next;
        let mut d: usize = 0;
        while d < n
            invariant
                n == self.sources,
                from == self.next,
                self.sources == old(self).sources,
                self.next == old(self).next,
                ready@.len() == n,
                n == 0 ==> from == 0,
                n > 0 ==> from < n,
                d <= n,
                forall|e: int| 0 <= e < d ==> !#[trigger] ready@[cyclic_step(from as int, e, n as int)],
            decreases n - d,
        {
            let i = if d < n - from {
                from + d
            } else {
                d - (n - from)
            };
            if ready[i] {
                self.next = if i + 1 == n {
                    0
                } else {
                    i + 1
                };
                proof {
                    assert(cyclic_distance(from as int, i as int, n as int) == d);
                }
                return Some(i);
            }
            d = d + 1;
        }
        proof {
            assert forall|i: int| 0 <= i < ready@.len() implies !#[trigger] ready@[i] by {
                let e = cyclic_distance(from as int, i, n as int);
                assert(cyclic_step(from as int, e, n as int) == i);
            }
        }
        None
    }

    /// No ready source is passed over for long: while a source stays ready, every choice that
    /// takes another source brings the start position strictly closer to it, so it is chosen
    /// within as many choices as there are sources.
    pub proof fn lemma_no_starvation(
        &self,
        after: RoundRobin,
        ready: Seq<bool>,
        chosen: usize,
        waiting: usize,
    )
        requires
            self.wf(),
            self.sources_view() > 0,
            ready.len() == self.sources_view(),
            chosen < self.sources_view(),
            waiting < self.sources_view(),
            ready[waiting as int],
            chosen != waiting,
            forall|d: int|
                0 <= d < cyclic_distance(
                    self.next_view() as int,
                    chosen as int,
                    self.sources_view() as int,
                ) ==> !#[trigger] ready[cyclic_step(
                    self.next_view() as int,
                    d,
                    self.sources_view() as int,
                )],
            after.sources_view() == self.sources_view(),
            after.next_view() == if chosen + 1 == self.sources_view() {
                0
            } else {
                chosen + 1
            },
        ensures
            cyclic_distance(after.next_view() as int, waiting as int, self.sources_view() as int)
                < cyclic_distance(self.next_view() as int, waiting as int, self.sources_view() as int),
    {
        let n = self.sources_view() as int;
        let from = self.next_view() as int;
        let dw = cyclic_distance(from, waiting as int, n);
        assert(cyclic_step(from, dw, n) == waiting);
        assert(cyclic_distance(from, chosen as int, n) < dw);
    }
}

} // verus!
