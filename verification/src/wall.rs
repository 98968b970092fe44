//! The wall rule of the obstacle game: a wall is a column of segments over
//! the rows -12 to 12, broken by a gap of nine rows centred on a chosen row.

use vstd::prelude::*;

verus! {

/// Whether row `y` holds a wall segment when the gap is centred on row
/// `gap_y`: every row further than four rows from the centre does.
pub open spec fn wall_at(gap_y: int, y: int) -> bool {
    y < gap_y - 4 || y > gap_y + 4
}

/// The wall rows from row `y` up to row 12, in ascending order.
pub open spec fn wall_rows_from(gap_y: int, y: int) -> Seq<int>
    decreases 13 - y,
    when y <= 13
{
    if y > 12 {
        Seq::empty()
    } else if wall_at(gap_y, y) {
        seq![y] + wall_rows_from(gap_y, y + 1)
    } else {
        wall_rows_from(gap_y, y + 1)
    }
}

/// The rows of a whole wall with its gap centred on `gap_y`.
pub open spec fn wall_rows(gap_y: int) -> Seq<int> {
    wall_rows_from(gap_y, -12)
}

/// The rows at which a wall with its gap centred on `gap_y` holds a
/// segment, bottom to top.
pub fn wall_slots(gap_y: i32) -> (r: Vec<i32>)
    ensures
        r@.len() == wall_rows(gap_y as int).len(),
        forall|i: int| 0 <= i < r@.len() ==> r@[i] == wall_rows(gap_y as int)[i],
{
    let mut r: Vec<i32> = Vec::new();
    let ghost mut done: Seq<int> = Seq::empty();
    let mut y: i32 = -12;
    proof {
        assert(done + wall_rows_from(gap_y as int, -12) =~= wall_rows(gap_y as int));
    }
    while y <= 12
        invariant
            -12 <= y <= 13,
            done.len() == r@.len(),
            forall|i: int| 0 <= i < r@.len() ==> done[i] == r@[i],
            wall_rows(gap_y as int) == done + wall_rows_from(gap_y as int, y as int),
        decreases 13 - y,
    {
        if (y as i64) < (gap_y as i64) - 4 || (y as i64) > (gap_y as i64) + 4 {
            r.push(y);
            proof {
                assert(wall_rows(gap_y as int) =~= done.push(y as int) + wall_rows_from(
                    gap_y as int,
                    y as int + 1,
                ));
                done = done.push(y as int);
            }
        } else {
            proof {
                assert(wall_rows(gap_y as int) =~= done + wall_rows_from(
                    gap_y as int,
                    y as int + 1,
                ));
            }
        }
        y = y + 1;
    }
    proof {
        assert(wall_rows(gap_y as int) =~= done);
    }
    r
}

} // verus!
