use vstd::prelude::*;

verus! {

/// Where the desktop begins: the least physical x and y over all monitors.
#[derive(Clone, Copy, Debug, Default, PartialEq, Eq, Structural)]
pub struct DeviceInfo {
    pub phys_min_x: i32,
    pub phys_min_y: i32,
}

/// Whether `m` is the least of the values `f` picks from `s`.
pub open spec fn is_least(s: Seq<(i32, i32)>, m: i32, first: bool) -> bool {
    &&& exists|i: int| 0 <= i < s.len() && m == if first { (#[trigger] s[i]).0 } else { s[i].1 }
    &&& forall|i: int| 0 <= i < s.len() ==> m <= if first { (#[trigger] s[i]).0 } else { s[i].1 }
}

impl DeviceInfo {
    /// The origin of the desktop spanned by monitors at the physical positions
    /// `positions`; zero when there is no monitor.
    pub fn from_monitor_positions(positions: &Vec<(i32, i32)>) -> (r: Self)
        ensures
            positions@.len() == 0 ==> r.phys_min_x == 0 && r.phys_min_y == 0,
            positions@.len() > 0 ==> is_least(positions@, r.phys_min_x, true) && is_least(
                positions@,
                r.phys_min_y,
                false,
            ),
    {
        if positions.len() == 0 {
            return Self { phys_min_x: 0, phys_min_y: 0 };
        }
        let mut min_x = i32::MAX;
        let mut min_y = i32::MAX;
        let mut i: usize = 0;
        while i < positions.len()
            invariant
                i <= positions@.len(),
                positions@.len() > 0,
                i == 0 ==> min_x == i32::MAX && min_y == i32::MAX,
                i > 0 ==> is_least(positions@.take(i as int), min_x, true),
                i > 0 ==> is_least(positions@.take(i as int), min_y, false),
            decreases positions@.len() - i,
        {
            let (x, y) = positions[i];
            let ghost pre = positions@.take(i as int);
            let ghost post = positions@.take(i + 1);
            if x < min_x {
                min_x = x;
            }
            if y < min_y {
                min_y = y;
            }
            proof {
                assert(post[i as int] == (x, y));
                assert forall|k: int| 0 <= k < i implies post[k] == pre[k] by {}
                if i > 0 {
                    if min_x == x {
                        assert(post[i as int].0 == min_x);
                    } else {
                        let w = choose|k: int| 0 <= k < pre.len() && min_x == (#[trigger] pre[k]).0;
                        assert(post[w].0 == min_x);
                    }
                    if min_y == y {
                        assert(post[i as int].1 == min_y);
                    } else {
                        let w = choose|k: int| 0 <= k < pre.len() && min_y == (#[trigger] pre[k]).1;
                        assert(post[w].1 == min_y);
                    }
                } else {
                    assert(post[0].0 == min_x);
                    assert(post[0].1 == min_y);
                }
            }
            i = i + 1;
        }
        assert(positions@.take(positions@.len() as int) =~= positions@);
        Self { phys_min_x: min_x, phys_min_y: min_y }
    }
}

} // verus!
