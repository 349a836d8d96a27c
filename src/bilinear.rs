use vstd::prelude::*;

verus! {

/// Most terms that one row holds.
pub const ROW_CAPACITY: usize = 6;

/// One signed product of a component of the left operand and a component of
/// the right operand: `left_value[left] * right_value[right]`, negated where
/// `positive` is false.
#[derive(Debug, Clone, Copy, PartialEq, Eq, Structural)]
pub struct Term {
    pub positive: bool,
    pub left: usize,
    pub right: usize,
}

/// One output component of a bilinear map: a short list of signed products,
/// to be summed from the first to the last.
#[derive(Debug, Clone, Copy)]
pub struct BilinearRow {
    terms: [Term; ROW_CAPACITY],
    len: usize,
}

/// Value of one term on exact operands.
pub open spec fn term_value(t: Term, a: Seq<int>, b: Seq<int>) -> int {
    let p = a[t.left as int] * b[t.right as int];
    if t.positive {
        p
    } else {
        -p
    }
}

/// Exact value of a list of terms, summed from the first to the last.
pub open spec fn evaluate(terms: Seq<Term>, a: Seq<int>, b: Seq<int>) -> int
    decreases terms.len(),
{
    if terms.len() == 0 {
        0
    } else {
        evaluate(terms.drop_last(), a, b) + term_value(terms.last(), a, b)
    }
}

/// `sum(c < n) a[lo + c * ls] * b[ro + c * rs]`: a run of products taken
/// with a stride on each side.
pub open spec fn strided_sum(a: Seq<int>, lo: int, ls: int, b: Seq<int>, ro: int, rs: int, n: nat) -> int
    decreases n,
{
    if n == 0 {
        0
    } else {
        strided_sum(a, lo, ls, b, ro, rs, (n - 1) as nat) + a[lo + (n - 1) * ls] * b[ro + (n - 1) * rs]
    }
}

/// Component `i` (`i < 3`) of the 3-D cross product of the triple of `a`
/// that starts at `ao` with the triple of `b` that starts at `bo`.
pub open spec fn cross_component(a: Seq<int>, ao: int, b: Seq<int>, bo: int, i: int) -> int {
    a[ao + (i + 1) % 3] * b[bo + (i + 2) % 3] - a[ao + (i + 2) % 3] * b[bo + (i + 1) % 3]
}

/// The run of terms `+a[lo + c * ls] * b[ro + c * rs]` for `c < n`, in
/// increasing `c`.
pub open spec fn run_terms(lo: int, ls: int, ro: int, rs: int, n: nat) -> Seq<Term> {
    Seq::new(
        n,
        |c: int| Term { positive: true, left: (lo + c * ls) as usize, right: (ro + c * rs) as usize },
    )
}

/// The two terms of component `i` of the 3-D cross product of the triple of
/// the left operand at `ao` with the triple of the right operand at `bo`:
/// `+a[ao + j] * b[bo + k]` then `-a[ao + k] * b[bo + j]`, where `j` and `k`
/// follow `i` cyclically.
pub open spec fn cross_terms(ao: int, bo: int, i: int) -> Seq<Term> {
    seq![
        Term { positive: true, left: (ao + (i + 1) % 3) as usize, right: (bo + (i + 2) % 3) as usize },
        Term { positive: false, left: (ao + (i + 2) % 3) as usize, right: (bo + (i + 1) % 3) as usize },
    ]
}

/// Every term reads inside operands of lengths `la` and `lb`.
pub open spec fn indices_below(terms: Seq<Term>, la: nat, lb: nat) -> bool {
    forall|t: int| 0 <= t < terms.len() ==> (#[trigger] terms[t]).left < la && terms[t].right < lb
}

/// Appending a term adds its value.
pub proof fn lemma_evaluate_push(terms: Seq<Term>, t: Term, a: Seq<int>, b: Seq<int>)
    ensures
        evaluate(terms.push(t), a, b) == evaluate(terms, a, b) + term_value(t, a, b),
{
    assert(terms.push(t).drop_last() =~= terms);
}

impl View for BilinearRow {
    type V = Seq<Term>;

    closed spec fn view(&self) -> Seq<Term> {
        self.terms@.subrange(0, self.len as int)
    }
}

impl BilinearRow {
    pub closed spec fn wf(&self) -> bool {
        self.len <= ROW_CAPACITY
    }

    /// A row with no term, whose value is zero.
    pub fn empty() -> (r: BilinearRow)
        ensures
            r.wf(),
            r@ == Seq::<Term>::empty(),
    {
        let blank = Term { positive: true, left: 0, right: 0 };
        let r = BilinearRow { terms: [blank; ROW_CAPACITY], len: 0 };
        assert(r@ =~= Seq::<Term>::empty());
        r
    }

    /// Number of terms.
    pub fn len(&self) -> (n: usize)
        requires
            self.wf(),
        ensures
            n == self@.len(),
    {
        self.len
    }

    /// Term `t` (`t < len`).
    pub fn term(&self, t: usize) -> (r: Term)
        requires
            self.wf(),
            t < self@.len(),
        ensures
            r == self@[t as int],
    {
        self.terms[t]
    }

    pub(crate) fn push(&mut self, t: Term)
        requires
            old(self).wf(),
            old(self)@.len() < ROW_CAPACITY,
        ensures
            final(self).wf(),
            final(self)@ == old(self)@.push(t),
    {
        let n = self.len;
        self.terms[n] = t;
        self.len = n + 1;
        assert(self@ =~= old(self)@.push(t));
    }

    /// Appends `+a[lo + c * ls] * b[ro + c * rs]` for each `c < n`, in
    /// increasing `c`.
    pub(crate) fn push_run(&mut self, lo: usize, ls: usize, ro: usize, rs: usize, n: usize)
        requires
            old(self).wf(),
            old(self)@.len() + n <= ROW_CAPACITY,
            lo <= 36,
            ro <= 36,
            ls <= 6,
            rs <= 6,
        ensures
            final(self).wf(),
            final(self)@ == old(self)@ + run_terms(lo as int, ls as int, ro as int, rs as int, n as nat),
            final(self)@.len() == old(self)@.len() + n,
            forall|t: int| 0 <= t < old(self)@.len() ==> final(self)@[t] == old(self)@[t],
            forall|c: int|
                0 <= c < n ==> #[trigger] final(self)@[old(self)@.len() + c] == (Term {
                    positive: true,
                    left: (lo + c * ls) as usize,
                    right: (ro + c * rs) as usize,
                }),
            forall|t: int|
                old(self)@.len() <= t < final(self)@.len() ==> (#[trigger] final(self)@[t]).left + ls
                    <= lo + n * ls && final(self)@[t].right + rs <= ro + n * rs,
            forall|a: Seq<int>, b: Seq<int>|
                #[trigger] evaluate(final(self)@, a, b) == evaluate(old(self)@, a, b)
                    + strided_sum(a, lo as int, ls as int, b, ro as int, rs as int, n as nat),
    {
        let ghost start = self@;
        let mut c: usize = 0;
        let mut l: usize = lo;
        let mut r: usize = ro;
        while c < n
            invariant
                self.wf(),
                c <= n,
                start.len() + n <= ROW_CAPACITY,
                lo <= 36,
                ro <= 36,
                ls <= 6,
                rs <= 6,
                l == lo + c * ls,
                r == ro + c * rs,
                self@.len() == start.len() + c,
                forall|t: int| 0 <= t < start.len() ==> self@[t] == start[t],
                forall|d: int|
                    0 <= d < c ==> #[trigger] self@[start.len() + d] == (Term {
                        positive: true,
                        left: (lo + d * ls) as usize,
                        right: (ro + d * rs) as usize,
                    }),
                forall|t: int|
                    start.len() <= t < self@.len() ==> (#[trigger] self@[t]).left + ls <= l
                        && self@[t].right + rs <= r,
                forall|a: Seq<int>, b: Seq<int>|
                    #[trigger] evaluate(self@, a, b) == evaluate(start, a, b)
                        + strided_sum(a, lo as int, ls as int, b, ro as int, rs as int, c as nat),
            decreases n - c,
        {
            proof {
                assert(c * ls <= 6 * 6) by (nonlinear_arith)
                    requires
                        c <= 6,
                        ls <= 6,
                ;
                assert(c * rs <= 6 * 6) by (nonlinear_arith)
                    requires
                        c <= 6,
                        rs <= 6,
                ;
            }
            let t = Term { positive: true, left: l, right: r };
            let ghost before = self@;
            self.push(t);
            proof {
                assert forall|a: Seq<int>, b: Seq<int>|
                    #[trigger] evaluate(self@, a, b) == evaluate(start, a, b)
                        + strided_sum(a, lo as int, ls as int, b, ro as int, rs as int, (c + 1) as nat) by {
                    lemma_evaluate_push(before, t, a, b);
                }
                assert((c + 1) * ls == c * ls + ls) by (nonlinear_arith);
                assert((c + 1) * rs == c * rs + rs) by (nonlinear_arith);
            }
            l = l + ls;
            r = r + rs;
            c = c + 1;
        }
        let ghost run = run_terms(lo as int, ls as int, ro as int, rs as int, n as nat);
        assert forall|t: int| start.len() <= t < self@.len() implies self@[t] == run[t - start.len()] by {
            let d = t - start.len();
            assert(self@[start.len() + d] == run[d]);
        }
        assert(self@ =~= start + run);
    }

    /// Appends the two terms of component `i` of the 3-D cross product of
    /// the triple of the left operand at `ao` with the triple of the right
    /// operand at `bo`.
    pub(crate) fn push_cross(&mut self, ao: usize, bo: usize, i: usize)
        requires
            old(self).wf(),
            old(self)@.len() + 2 <= ROW_CAPACITY,
            ao <= 3,
            bo <= 3,
            i < 3,
        ensures
            final(self).wf(),
            final(self)@ == old(self)@ + cross_terms(ao as int, bo as int, i as int),
            final(self)@.len() == old(self)@.len() + 2,
            forall|t: int| 0 <= t < old(self)@.len() ==> final(self)@[t] == old(self)@[t],
            forall|t: int|
                old(self)@.len() <= t < final(self)@.len() ==> ao <= (#[trigger] final(self)@[t]).left
                    < ao + 3 && bo <= final(self)@[t].right < bo + 3,
            forall|a: Seq<int>, b: Seq<int>|
                #[trigger] evaluate(final(self)@, a, b) == evaluate(old(self)@, a, b)
                    + cross_component(a, ao as int, b, bo as int, i as int),
    {
        let ghost start = self@;
        let j = (i + 1) % 3;
        let k = (i + 2) % 3;
        let first = Term { positive: true, left: ao + j, right: bo + k };
        let second = Term { positive: false, left: ao + k, right: bo + j };
        self.push(first);
        let ghost middle = self@;
        self.push(second);
        assert(self@ =~= start + cross_terms(ao as int, bo as int, i as int));
        assert forall|a: Seq<int>, b: Seq<int>|
            #[trigger] evaluate(self@, a, b) == evaluate(start, a, b)
                + cross_component(a, ao as int, b, bo as int, i as int) by {
            lemma_evaluate_push(start, first, a, b);
            lemma_evaluate_push(middle, second, a, b);
        }
    }
}

} // verus!
