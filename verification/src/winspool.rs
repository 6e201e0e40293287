//! Print-spooler helpers: the buffer arithmetic of the printer
//! enumeration, proved over plain values.

use vstd::prelude::*;

verus! {

/// How many whole records to allocate for a byte count reported by the
/// printer enumeration: the byte count plus one record of slack,
/// divided down to whole records, so that the allocation always covers
/// the reported bytes.
pub fn enum_printers_buf_elems(sz_buf: u32, sz_unit: u32) -> (n: u32)
    requires
        sz_unit > 0,
        sz_buf + sz_unit <= u32::MAX,
    ensures
        n as int == (sz_buf + sz_unit) / (sz_unit as int),
        n * sz_unit <= sz_buf + sz_unit,
        sz_buf < n * sz_unit,
{
    let total = sz_buf + sz_unit;
    let n = (total - (total % sz_unit)) / sz_unit;
    proof {
        let t = total as int;
        let u = sz_unit as int;
        assert(t == u * (t / u) + t % u) by (nonlinear_arith)
            requires
                u > 0,
        ;
        assert((u * (t / u)) / u == t / u) by (nonlinear_arith)
            requires
                u > 0,
        ;
        assert(0 <= t % u < u) by (nonlinear_arith)
            requires
                u > 0,
        ;
        assert(n as int == t / u);
        assert((t / u) * u == t - t % u) by (nonlinear_arith)
            requires
                u > 0,
                t == u * (t / u) + t % u,
        ;
    }
    n
}

} // verus!
