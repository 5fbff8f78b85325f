//! Primal-dual iterates, and what replaces them.
use crate::decimal::D0;
use crate::number::Number;
use crate::statistics::copy_numbers;
use vstd::prelude::*;

verus! {

/// The eight blocks of an iterate.
#[derive(Debug)]
pub struct IteratesVector {
    pub x: Vec<Number>,
    pub s: Vec<Number>,
    pub y_c: Vec<Number>,
    pub y_d: Vec<Number>,
    pub z_l: Vec<Number>,
    pub z_u: Vec<Number>,
    pub v_l: Vec<Number>,
    pub v_u: Vec<Number>,
}

/// An iterate with its barrier parameter.
#[derive(Debug)]
pub struct IterateSnapshot {
    pub iterates: IteratesVector,
    pub mu: Number,
}

impl IteratesVector {
    /// Every dimension fits the index type.
    pub open spec fn fits(self) -> bool {
        &&& self.x.len() <= i32::MAX
        &&& self.s.len() <= i32::MAX
        &&& self.y_c.len() <= i32::MAX
        &&& self.y_d.len() <= i32::MAX
        &&& self.z_l.len() <= i32::MAX
        &&& self.z_u.len() <= i32::MAX
        &&& self.v_l.len() <= i32::MAX
        &&& self.v_u.len() <= i32::MAX
    }

    /// The dimensions of the blocks, in order.
    pub open spec fn dims(self) -> Seq<int> {
        seq![
            self.x.len() as int,
            self.s.len() as int,
            self.y_c.len() as int,
            self.y_d.len() as int,
            self.z_l.len() as int,
            self.z_u.len() as int,
            self.v_l.len() as int,
            self.v_u.len() as int,
        ]
    }

    /// The two hold the same numbers.
    pub open spec fn same_as(self, other: IteratesVector) -> bool {
        &&& self.x@ == other.x@
        &&& self.s@ == other.s@
        &&& self.y_c@ == other.y_c@
        &&& self.y_d@ == other.y_d@
        &&& self.z_l@ == other.z_l@
        &&& self.z_u@ == other.z_u@
        &&& self.v_l@ == other.v_l@
        &&& self.v_u@ == other.v_u@
    }

    /// A copy.
    pub fn deep_copy(&self) -> (r: IteratesVector)
        ensures
            r.same_as(*self),
    {
        IteratesVector {
            x: copy_numbers(&self.x),
            s: copy_numbers(&self.s),
            y_c: copy_numbers(&self.y_c),
            y_d: copy_numbers(&self.y_d),
            z_l: copy_numbers(&self.z_l),
            z_u: copy_numbers(&self.z_u),
            v_l: copy_numbers(&self.v_l),
            v_u: copy_numbers(&self.v_u),
        }
    }
}

/// The eight block dimensions of an iterate, in order.
pub fn iterates_dims(c: &IteratesVector) -> (r: [i32; 8])
    requires
        c.fits(),
    ensures
        forall|i: int| 0 <= i < 8 ==> #[trigger] r@[i] == c.dims()[i],
{
    [
        c.x.len() as i32,
        c.s.len() as i32,
        c.y_c.len() as i32,
        c.y_d.len() as i32,
        c.z_l.len() as i32,
        c.z_u.len() as i32,
        c.v_l.len() as i32,
        c.v_u.len() as i32,
    ]
}

/// Whether the blocks of the two have the same dimensions.
pub fn same_dims(a: &IteratesVector, b: &IteratesVector) -> (r: bool)
    requires
        a.fits(),
        b.fits(),
    ensures
        r == (a.dims() == b.dims()),
{
    let p = iterates_dims(a);
    let q = iterates_dims(b);
    let mut i: usize = 0;
    while i < 8
        invariant
            i <= 8,
            forall|k: int| 0 <= k < 8 ==> #[trigger] p@[k] == a.dims()[k],
            forall|k: int| 0 <= k < 8 ==> #[trigger] q@[k] == b.dims()[k],
            forall|k: int| 0 <= k < i ==> #[trigger] a.dims()[k] == b.dims()[k],
        decreases 8 - i,
    {
        if p[i] != q[i] {
            assert(p@[i as int] != q@[i as int]);
            assert(a.dims()[i as int] != b.dims()[i as int]);
            return false;
        }
        assert(p@[i as int] == q@[i as int]);
        i = i + 1;
    }
    assert(a.dims() =~= b.dims());
    true
}

/// Overwrites the numbers where the lengths agree, and writes nothing where
/// they do not.
pub fn set_dense(v: &mut Vec<Number>, vals: &Vec<Number>) -> (r: bool)
    ensures
        r == (old(v).len() == vals.len()),
        r ==> final(v)@ == vals@,
        !r ==> final(v)@ == old(v)@,
{
    if v.len() != vals.len() {
        return false;
    }
    *v = copy_numbers(vals);
    true
}

/// The numbers from `from` up to `to`.
pub fn slice_numbers(v: &Vec<Number>, from: usize, to: usize) -> (r: Vec<Number>)
    requires
        from <= to <= v.len(),
    ensures
        r@ == v@.subrange(from as int, to as int),
{
    let mut r: Vec<Number> = Vec::new();
    let mut i: usize = from;
    while i < to
        invariant
            from <= i <= to <= v.len(),
            r@ == v@.subrange(from as int, i as int),
        decreases to - i,
    {
        r.push(v[i]);
        i = i + 1;
        assert(v@.subrange(from as int, i as int) =~= v@.subrange(from as int, i - 1).push(
            v@[i - 1],
        ));
    }
    r
}

/// What an accepted crossover hands back.
#[derive(Debug)]
pub struct CrossoverPoint {
    pub x: Vec<Number>,
    /// The equality multipliers, then the inequality multipliers.
    pub lambda_g: Vec<Number>,
    /// The values of the equality rows, then of the inequality rows.
    pub rows: Vec<Number>,
    pub z_l: Vec<Number>,
    pub z_u: Vec<Number>,
    pub v_l: Vec<Number>,
    pub v_u: Vec<Number>,
    /// The number of equality rows.
    pub m_c: usize,
}

/// The iterate that a crossover point stands for: the slacks are the values of
/// the inequality rows.
pub open spec fn is_crossover_iterate(p: CrossoverPoint, it: IteratesVector) -> bool {
    &&& it.x@ == p.x@
    &&& it.s@ == p.rows@.skip(p.m_c as int)
    &&& it.y_c@ == p.lambda_g@.take(p.m_c as int)
    &&& it.y_d@ == p.lambda_g@.skip(p.m_c as int)
    &&& it.z_l@ == p.z_l@
    &&& it.z_u@ == p.z_u@
    &&& it.v_l@ == p.v_l@
    &&& it.v_u@ == p.v_u@
}

/// The point fits the iterate: every block has the dimension of the present
/// one.
pub open spec fn fits_iterate(p: CrossoverPoint, curr: IteratesVector) -> bool {
    &&& p.x.len() == curr.x.len()
    &&& p.rows.len() - p.m_c == curr.s.len()
    &&& p.m_c == curr.y_c.len()
    &&& p.lambda_g.len() - p.m_c == curr.y_d.len()
    &&& p.z_l.len() == curr.z_l.len()
    &&& p.z_u.len() == curr.z_u.len()
    &&& p.v_l.len() == curr.v_l.len()
    &&& p.v_u.len() == curr.v_u.len()
}

/// The iterate that replaces the present one after a crossover. All eight
/// blocks change together, or there is none.
pub fn install_crossover_iterate(curr: &IteratesVector, p: &CrossoverPoint) -> (r: Option<
    IteratesVector,
>)
    requires
        p.m_c <= p.lambda_g.len(),
        p.m_c <= p.rows.len(),
    ensures
        r is Some <==> fits_iterate(*p, *curr),
        r matches Some(it) ==> is_crossover_iterate(*p, it) && it.dims() == curr.dims(),
{
    let y_c = slice_numbers(&p.lambda_g, 0, p.m_c);
    let y_d = slice_numbers(&p.lambda_g, p.m_c, p.lambda_g.len());
    let s = slice_numbers(&p.rows, p.m_c, p.rows.len());
    let mut out = curr.deep_copy();
    let ok = set_dense(&mut out.x, &p.x) && set_dense(&mut out.s, &s) && set_dense(
        &mut out.y_c,
        &y_c,
    ) && set_dense(&mut out.y_d, &y_d) && set_dense(&mut out.z_l, &p.z_l) && set_dense(
        &mut out.z_u,
        &p.z_u,
    ) && set_dense(&mut out.v_l, &p.v_l) && set_dense(&mut out.v_u, &p.v_u);
    if ok {
        assert(out.dims() =~= curr.dims());
        Some(out)
    } else {
        None
    }
}

/// The numbers of the first vector, then those of the second.
pub fn join_numbers(a: &Vec<Number>, b: &Vec<Number>) -> (r: Vec<Number>)
    ensures
        r@ == a@ + b@,
{
    let mut r = copy_numbers(a);
    let mut i: usize = 0;
    while i < b.len()
        invariant
            i <= b.len(),
            r@ == a@ + b@.take(i as int),
        decreases b.len() - i,
    {
        r.push(b[i]);
        i = i + 1;
        assert(b@.take(i as int) =~= b@.take(i - 1).push(b@[i - 1]));
        assert(r@ =~= a@ + b@.take(i as int));
    }
    assert(b@.take(b.len() as int) =~= b@);
    r
}

/// The parts of signed bound multipliers: the lower ones are the positive part,
/// the upper ones the negative part turned around.
pub open spec fn lower_parts(lambda_x: Seq<Number>) -> Seq<Number> {
    lambda_x.map_values(|v: Number| v.max_spec(Number { bits: D0 }))
}

/// See `lower_parts`.
pub open spec fn upper_parts(lambda_x: Seq<Number>) -> Seq<Number> {
    lambda_x.map_values(|v: Number| v.neg_spec().max_spec(Number { bits: D0 }))
}

/// Splits signed bound multipliers into lower and upper ones.
pub fn split_signed(lambda_x: &Vec<Number>) -> (r: (Vec<Number>, Vec<Number>))
    ensures
        r.0@ == lower_parts(lambda_x@),
        r.1@ == upper_parts(lambda_x@),
{
    let zero = Number { bits: D0 };
    let mut lower: Vec<Number> = Vec::new();
    let mut upper: Vec<Number> = Vec::new();
    let mut i: usize = 0;
    while i < lambda_x.len()
        invariant
            i <= lambda_x.len(),
            zero == (Number { bits: D0 }),
            lower@ == lower_parts(lambda_x@).take(i as int),
            upper@ == upper_parts(lambda_x@).take(i as int),
        decreases lambda_x.len() - i,
    {
        let v = lambda_x[i];
        lower.push(v.larger(zero));
        upper.push(v.negated().larger(zero));
        i = i + 1;
        assert(lower@ =~= lower_parts(lambda_x@).take(i as int));
        assert(upper@ =~= upper_parts(lambda_x@).take(i as int));
    }
    assert(lower@ =~= lower_parts(lambda_x@));
    assert(upper@ =~= upper_parts(lambda_x@));
    (lower, upper)
}

/// The two parts of signed multipliers are not negative, and at most one of
/// them is not zero.
pub proof fn law_split_parts(lambda_x: Seq<Number>, i: int)
    requires
        0 <= i < lambda_x.len(),
        !lambda_x[i].nan(),
    ensures
        (Number { bits: D0 }).le_spec(lower_parts(lambda_x)[i]),
        (Number { bits: D0 }).le_spec(upper_parts(lambda_x)[i]),
        lower_parts(lambda_x)[i].zero() || upper_parts(lambda_x)[i].zero(),
        lower_parts(lambda_x)[i].key() - upper_parts(lambda_x)[i].key() == lambda_x[i].key(),
{
}

/// The vector, or zeros in its place where it is empty.
pub fn or_zeros(v: Vec<Number>, n: usize) -> (r: Vec<Number>)
    ensures
        v.len() > 0 ==> r@ == v@,
        v.len() == 0 ==> r@ == Seq::new(n as nat, |i: int| Number { bits: D0 }),
{
    if v.len() > 0 {
        return v;
    }
    let mut r: Vec<Number> = Vec::new();
    let mut i: usize = 0;
    while i < n
        invariant
            i <= n,
            r@ == Seq::new(i as nat, |k: int| Number { bits: D0 }),
        decreases n - i,
    {
        r.push(Number { bits: D0 });
        i = i + 1;
        assert(r@ =~= Seq::new(i as nat, |k: int| Number { bits: D0 }));
    }
    r
}

} // verus!
