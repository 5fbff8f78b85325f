//! Iterates: what replaces them, and how multipliers are split.
use crate::decimal::D0;
use crate::iterates::install_crossover_iterate;
use crate::iterates::join_numbers;
use crate::iterates::or_zeros;
use crate::iterates::same_dims;
use crate::iterates::set_dense;
use crate::iterates::split_signed;
use crate::iterates::CrossoverPoint;
use crate::iterates::IteratesVector;
use crate::number::Number;
use vstd::prelude::*;

verus! {

/// A crossover point replaces the iterate in all eight blocks or not at all: the
/// slacks are the values of the inequality rows, which come after the equality
/// ones, and the multipliers are parted in the same way.
pub proof fn law_crossover_iterate(
    c: IteratesVector,
    p: CrossoverPoint,
    r: Option<IteratesVector>,
)
    requires
        call_ensures(install_crossover_iterate, (&c, &p), r),
        p.m_c <= p.lambda_g.len(),
        p.m_c <= p.rows.len(),
    ensures
        r is Some <==> p.x.len() == c.x.len() && p.rows.len() == p.m_c + c.s.len() && p.m_c
            == c.y_c.len() && p.lambda_g.len() == p.m_c + c.y_d.len() && p.z_l.len() == c.z_l.len()
            && p.z_u.len() == c.z_u.len() && p.v_l.len() == c.v_l.len() && p.v_u.len()
            == c.v_u.len(),
        r matches Some(it) ==> {
            &&& it.x@ == p.x@
            &&& it.z_l@ == p.z_l@
            &&& it.z_u@ == p.z_u@
            &&& it.v_l@ == p.v_l@
            &&& it.v_u@ == p.v_u@
            &&& it.y_c.len() == p.m_c
            &&& it.y_c@ + it.y_d@ =~= p.lambda_g@
            &&& forall|i: int| 0 <= i < it.s.len() ==> #[trigger] it.s@[i] == p.rows@[p.m_c + i]
        },
{
}

/// Two iterates have the same shape where each of the eight blocks has.
pub proof fn law_same_shape(a: IteratesVector, b: IteratesVector, r: bool)
    requires
        call_ensures(same_dims, (&a, &b), r),
    ensures
        r <==> a.x.len() == b.x.len() && a.s.len() == b.s.len() && a.y_c.len() == b.y_c.len()
            && a.y_d.len() == b.y_d.len() && a.z_l.len() == b.z_l.len() && a.z_u.len()
            == b.z_u.len() && a.v_l.len() == b.v_l.len() && a.v_u.len() == b.v_u.len(),
{
    let d = a.dims();
    let f = b.dims();
    if d == f {
        assert(d[0] == f[0] && d[1] == f[1] && d[2] == f[2] && d[3] == f[3] && d[4] == f[4] && d[5]
            == f[5] && d[6] == f[6] && d[7] == f[7]);
    } else {
        assert(!(d =~= f));
    }
}

/// Numbers are written where the lengths agree, and not at all otherwise.
pub proof fn law_set_dense(v: &mut Vec<Number>, w: Vec<Number>, r: bool)
    requires
        call_ensures(set_dense, (v, &w), r),
    ensures
        r <==> old(v).len() == w.len(),
        r ==> final(v)@ == w@,
        !r ==> final(v)@ == old(v)@,
{
}

/// Joined numbers are the first, then the second.
pub proof fn law_joined(a: Vec<Number>, b: Vec<Number>, r: Vec<Number>, i: int)
    requires
        call_ensures(join_numbers, (&a, &b), r),
    ensures
        r.len() == a.len() + b.len(),
        0 <= i < a.len() ==> r@[i] == a@[i],
        0 <= i < b.len() ==> r@[a.len() + i] == b@[i],
{
}

/// A signed bound multiplier goes to the lower side where it is positive and, with
/// its sign turned, to the upper side where it is negative; the other side is 0.
pub proof fn law_split(v: Vec<Number>, r: (Vec<Number>, Vec<Number>), i: int)
    requires
        call_ensures(split_signed, (&v,), r),
        0 <= i < v.len(),
    ensures
        r.0.len() == v.len(),
        r.1.len() == v.len(),
        (Number { bits: D0 }).lt_spec(v@[i]) ==> r.0@[i] == v@[i] && r.1@[i].zero(),
        v@[i].lt_spec(Number { bits: D0 }) ==> r.1@[i] == v@[i].neg_spec() && r.0@[i].zero(),
        v@[i].zero() ==> r.0@[i].zero() && r.1@[i].zero(),
{
}

/// Missing numbers are zeros; others stay.
pub proof fn law_or_zeros(v: Vec<Number>, n: usize, r: Vec<Number>, i: int)
    requires
        call_ensures(or_zeros, (v, n), r),
    ensures
        v.len() > 0 ==> r@ == v@,
        v.len() == 0 ==> r.len() == n,
        v.len() == 0 && 0 <= i < n ==> r@[i] == (Number { bits: D0 }),
{
}

/// A copy of an iterate is the iterate.
pub proof fn law_copied(a: IteratesVector, r: IteratesVector)
    requires
        call_ensures(IteratesVector::deep_copy, (&a,), r),
    ensures
        r.x@ == a.x@,
        r.s@ == a.s@,
        r.y_c@ == a.y_c@,
        r.y_d@ == a.y_d@,
        r.z_l@ == a.z_l@,
        r.z_u@ == a.z_u@,
        r.v_l@ == a.v_l@,
        r.v_u@ == a.v_u@,
{
}

} // verus!
