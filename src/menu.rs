use vstd::prelude::*;

verus! {

/// What a step through a menu asks of the application.
#[derive(Clone, Copy, Debug, PartialEq, Eq, Structural)]
pub enum MenuAction {
    Nothing,
    Update,
    Exit,
    Accept,
    Decline,
}

/// A line of text on a menu page, at the height `y` of the screen.
pub struct Text<'a> {
    pub text: &'a str,
    pub bold: bool,
    pub y: usize,
}

/// Rows left between two items stacked on a page.
pub const SPACING: usize = 2;

/// The sum of `heights`.
pub open spec fn total_height(heights: Seq<usize>) -> int
    decreases heights.len(),
{
    if heights.len() == 0 {
        0
    } else {
        total_height(heights.drop_last()) + heights.last()
    }
}

/// The rows from the top of the first item to the bottom of the last one
/// when the items are stacked `SPACING` rows apart.
pub open spec fn block_height(heights: Seq<usize>) -> int {
    if heights.len() == 0 {
        0
    } else {
        total_height(heights) + (heights.len() - 1) * SPACING
    }
}

/// The top row of item `k` of a stack centred on a screen `screen` rows high.
pub open spec fn stacked_row(screen: int, heights: Seq<usize>, k: int) -> int {
    (screen - block_height(heights)) / 2 + total_height(heights.take(k)) + k * SPACING
}

/// Sums over longer prefixes are no smaller.
proof fn lemma_prefix_total_grows(heights: Seq<usize>, i: int, j: int)
    requires
        0 <= i <= j <= heights.len(),
    ensures
        total_height(heights.take(i)) <= total_height(heights.take(j)),
    decreases j - i,
{
    if i < j {
        assert(heights.take(j).drop_last() =~= heights.take(j - 1));
        lemma_prefix_total_grows(heights, i, j - 1);
    }
}

/// The top rows of the items of a page, stacked `SPACING` rows apart and
/// centred as one block on a screen `screen` rows high; `None` when the block
/// is taller than the screen.
pub fn stack_rows(screen: usize, heights: &[usize]) -> (rows: Option<Vec<usize>>)
    ensures
        block_height(heights@) > screen ==> rows is None,
        block_height(heights@) <= screen ==> (rows matches Some(r) && r@.len() == heights@.len()
            && forall|k: int| 0 <= k < heights@.len() ==> r@[k] == stacked_row(screen as int, heights@, k)),
{
    let n = heights.len();
    if n == 0 {
        return Some(Vec::new());
    }
    // the rows taken by the first `i` items and the gaps after them
    let mut used: usize = 0;
    let mut i: usize = 0;
    while i < n
        invariant
            n == heights@.len(),
            n > 0,
            i <= n,
            used <= screen,
            i < n ==> used == total_height(heights@.take(i as int)) + i * SPACING,
            i == n ==> used == block_height(heights@),
        decreases n - i,
    {
        assert(heights@.take(i + 1).drop_last() =~= heights@.take(i as int));
        if heights[i] > screen - used {
            proof {
                lemma_prefix_total_grows(heights@, i + 1, n as int);
                assert(heights@.take(n as int) =~= heights@);
            }
            return None;
        }
        used = used + heights[i];
        if i + 1 < n {
            if SPACING > screen - used {
                proof {
                    lemma_prefix_total_grows(heights@, i + 1, n as int);
                    assert(heights@.take(n as int) =~= heights@);
                }
                return None;
            }
            used = used + SPACING;
        } else {
            assert(heights@.take(n as int) =~= heights@);
        }
        i = i + 1;
    }
    let start = (screen - used) / 2;
    let mut rows: Vec<usize> = Vec::new();
    let mut row = start;
    let mut k: usize = 0;
    while k < n
        invariant
            n == heights@.len(),
            used == block_height(heights@),
            used <= screen,
            start == (screen - used) / 2,
            k <= n,
            rows@.len() == k,
            k < n ==> row == stacked_row(screen as int, heights@, k as int),
            forall|j: int| 0 <= j < k ==> rows@[j] == stacked_row(screen as int, heights@, j),
        decreases n - k,
    {
        rows.push(row);
        if k + 1 < n {
            proof {
                assert(heights@.take(k + 1).drop_last() =~= heights@.take(k as int));
                lemma_prefix_total_grows(heights@, k + 1, n as int);
                assert(heights@.take(n as int).drop_last() =~= heights@.take(n - 1));
                lemma_prefix_total_grows(heights@, k + 1, n - 1);
                assert(heights@.take(n as int) =~= heights@);
            }
            row = row + heights[k] + SPACING;
        }
        k = k + 1;
    }
    Some(rows)
}

} // verus!
