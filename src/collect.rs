use vstd::prelude::*;
use crate::schedule::{lemma_rows_assigned_once, worker_rows};

verus! {

/// The rows of an image, with `None` for a row not yet reported.
pub open spec fn opt_rows<T>(rows: Seq<Option<Vec<T>>>) -> Seq<Option<Seq<T>>> {
    rows.map_values(
        |o: Option<Vec<T>>|
            match o {
                Some(v) => Some(v@),
                None => None,
            },
    )
}

/// The contents of the reported rows, an empty row standing for a missing one.
pub open spec fn placed_rows<T>(rows: Seq<Option<Seq<T>>>) -> Seq<Seq<T>> {
    rows.map_values(
        |o: Option<Seq<T>>|
            match o {
                Some(r) => r,
                None => Seq::empty(),
            },
    )
}

/// Whether every row has been reported.
pub open spec fn all_placed<T>(rows: Seq<Option<Seq<T>>>) -> bool {
    forall|l: int| 0 <= l < rows.len() ==> (#[trigger] rows[l]) is Some
}

/// The state of the rows after the rows of `image` with the indices of
/// `order` have been reported, one after another.
pub open spec fn place_all<T>(rows: Seq<Option<Seq<T>>>, order: Seq<int>, image: Seq<Seq<T>>) -> Seq<
    Option<Seq<T>>,
>
    decreases order.len(),
{
    if order.len() == 0 {
        rows
    } else {
        place_all(rows.update(order[0], Some(image[order[0]])), order.drop_first(), image)
    }
}

/// No row reported yet, for an image of `height` rows.
pub open spec fn no_rows<T>(height: nat) -> Seq<Option<Seq<T>>> {
    Seq::new(height, |l: int| None)
}

/// Rows `0..height` in ascending order, as a single-threaded renderer
/// produces them.
pub open spec fn serial_order(height: nat) -> Seq<int> {
    Seq::new(height, |l: int| l)
}

proof fn lemma_place_all<T>(rows: Seq<Option<Seq<T>>>, order: Seq<int>, image: Seq<Seq<T>>)
    requires
        forall|i: int| 0 <= i < order.len() ==> 0 <= #[trigger] order[i] < rows.len(),
    ensures
        place_all(rows, order, image).len() == rows.len(),
        forall|l: int|
            0 <= l < rows.len() ==> #[trigger] place_all(rows, order, image)[l] == if order.contains(
                l,
            ) {
                Some(image[l])
            } else {
                rows[l]
            },
    decreases order.len(),
{
    if order.len() > 0 {
        let next = rows.update(order[0], Some(image[order[0]]));
        let rest = order.drop_first();
        assert forall|i: int| 0 <= i < rest.len() implies 0 <= #[trigger] rest[i] < next.len() by {
            assert(rest[i] == order[i + 1]);
        }
        lemma_place_all(next, rest, image);
        assert forall|l: int| 0 <= l < rows.len() implies #[trigger] place_all(rows, order, image)[l]
            == if order.contains(l) {
            Some(image[l])
        } else {
            rows[l]
        } by {
            if rest.contains(l) {
                let i = choose|i: int| 0 <= i < rest.len() && rest[i] == l;
                assert(order[i + 1] == l);
            }
            if order.contains(l) && l != order[0] {
                let i = choose|i: int| 0 <= i < order.len() && order[i] == l;
                assert(rest[i - 1] == l);
            }
            assert(order[0] == l ==> order.contains(l));
        }
    }
}

/// Rows reported in any order in which every row index of the image comes
/// at least once give the same rows as a single-threaded renderer that
/// reports them top to bottom: every row holds the image's row of that index.
pub proof fn lemma_arrival_order_irrelevant<T>(image: Seq<Seq<T>>, order: Seq<int>)
    requires
        forall|i: int| 0 <= i < order.len() ==> 0 <= #[trigger] order[i] < image.len(),
        forall|l: int| 0 <= l < image.len() ==> #[trigger] order.contains(l),
    ensures
        place_all(no_rows(image.len()), order, image) == place_all(
            no_rows(image.len()),
            serial_order(image.len()),
            image,
        ),
        place_all(no_rows(image.len()), order, image) == image.map_values(
            |r: Seq<T>| Some(r),
        ),
        placed_rows(place_all(no_rows(image.len()), order, image)) == image,
{
    let start = no_rows::<T>(image.len());
    let serial = serial_order(image.len());
    lemma_place_all(start, order, image);
    lemma_place_all(start, serial, image);
    assert forall|l: int| 0 <= l < image.len() implies #[trigger] serial.contains(l) by {
        assert(serial[l] == l);
    }
    assert(place_all(start, order, image) =~= image.map_values(|r: Seq<T>| Some(r)));
    assert(place_all(start, serial, image) =~= image.map_values(|r: Seq<T>| Some(r)));
    assert(placed_rows(place_all(start, order, image)) =~= image);
}

/// Rendering the rows of a round-robin distribution over any number of
/// workers, and collecting them in whatever interleaving the workers report
/// them, gives the image a single-threaded renderer gives.
pub proof fn lemma_round_robin_render_is_serial<T>(
    image: Seq<Seq<T>>,
    workers: nat,
    order: Seq<int>,
)
    requires
        workers > 0,
        image.len() <= u64::MAX,
        forall|i: int| 0 <= i < order.len() ==> 0 <= #[trigger] order[i] < image.len(),
        forall|k: nat, row: u64|
            k < workers && #[trigger] worker_rows(image.len(), workers, k).contains(row)
                ==> order.contains(row as int),
    ensures
        place_all(no_rows(image.len()), order, image) == place_all(
            no_rows(image.len()),
            serial_order(image.len()),
            image,
        ),
{
    assert forall|l: int| 0 <= l < image.len() implies #[trigger] order.contains(l) by {
        let k = (l % workers as int) as nat;
        lemma_rows_assigned_once(image.len(), workers, k);
        assert(worker_rows(image.len(), workers, k).contains(l as u64));
    }
    lemma_arrival_order_irrelevant(image, order);
}

/// Collects rendered rows, reported in any order, into a row-major image.
/// It is the only writer of the image buffer.
pub struct RowCollector<T> {
    width: usize,
    rows: Vec<Option<Vec<T>>>,
}

impl<T: Copy> RowCollector<T> {
    /// The rows reported so far, by row index.
    pub closed spec fn rows_view(&self) -> Seq<Option<Seq<T>>> {
        opt_rows(self.rows@)
    }

    /// The number of pixels in each row.
    pub closed spec fn width_view(&self) -> nat {
        self.width as nat
    }

    /// Every reported row is as wide as the image.
    pub closed spec fn wf(&self) -> bool {
        forall|l: int|
            0 <= l < self.rows@.len() && (#[trigger] self.rows@[l]) is Some ==> self.rows@[l]->0@.len()
                == self.width
    }

    /// A collector for a `width` by `height` image with no row reported.
    pub fn new(width: usize, height: usize) -> (r: Self)
        ensures
            r.wf(),
            r.width_view() == width,
            r.rows_view() == no_rows::<T>(height as nat),
    {
        let mut rows: Vec<Option<Vec<T>>> = Vec::new();
        let mut l: usize = 0;
        while l < height
            invariant
                l <= height,
                rows@.len() == l,
                forall|j: int| 0 <= j < l ==> (#[trigger] rows@[j]) is None,
            decreases height - l,
        {
            rows.push(None);
            l = l + 1;
        }
        let r = RowCollector { width, rows };
        assert(r.rows_view() =~= no_rows::<T>(height as nat));
        r
    }

    /// The number of pixels in each row.
    pub fn width(&self) -> (r: usize)
        ensures
            r == self.width_view(),
    {
        self.width
    }

    /// The number of rows of the image.
    pub fn height(&self) -> (r: usize)
        ensures
            r == self.rows_view().len(),
    {
        self.rows.len()
    }

    /// Stores the pixels of row `line`, replacing whatever that row held.
    pub fn place_row(&mut self, line: usize, row: Vec<T>)
        requires
            old(self).wf(),
            line < old(self).rows_view().len(),
            row@.len() == old(self).width_view(),
        ensures
            final(self).wf(),
            final(self).width_view() == old(self).width_view(),
            final(self).rows_view() == old(self).rows_view().update(line as int, Some(row@)),
    {
        let ghost row_view = row@;
        self.rows[line] = Some(row);
        assert(self.rows_view() =~= old(self).rows_view().update(line as int, Some(row_view)));
    }

    /// Whether every row has been reported.
    pub fn is_complete(&self) -> (r: bool)
        ensures
            r == all_placed(self.rows_view()),
    {
        let mut l: usize = 0;
        while l < self.rows.len()
            invariant
                l <= self.rows@.len(),
                forall|j: int| 0 <= j < l ==> (#[trigger] self.rows@[j]) is Some,
            decreases self.rows@.len() - l,
        {
            if self.rows[l].is_none() {
                assert(self.rows_view()[l as int] is None);
                return false;
            }
            l = l + 1;
        }
        assert forall|j: int| 0 <= j < self.rows_view().len() implies (
        #[trigger] self.rows_view()[j]) is Some by {
            assert(self.rows@[j] is Some);
        }
        true
    }

    /// The image in row-major order, top row first, once every row has been
    /// reported; `None` while a row is missing.
    pub fn into_image(self) -> (r: Option<Vec<T>>)
        requires
            self.wf(),
        ensures
            r is Some <==> all_placed(self.rows_view()),
            r is Some ==> r->0@ == placed_rows(self.rows_view()).flatten(),
    {
        if !self.is_complete() {
            return None;
        }
        let ghost all = placed_rows(self.rows_view());
        let mut image: Vec<T> = Vec::new();
        let mut l: usize = 0;
        while l < self.rows.len()
            invariant
                l <= self.rows@.len(),
                all == placed_rows(self.rows_view()),
                all_placed(self.rows_view()),
                image@ == all.take(l as int).flatten(),
            decreases self.rows@.len() - l,
        {
            assert(self.rows_view()[l as int] is Some);
            match &self.rows[l] {
                Some(row) => {
                    assert(all[l as int] == row@);
                    let mut x: usize = 0;
                    while x < row.len()
                        invariant
                            x <= row@.len(),
                            image@ == all.take(l as int).flatten() + row@.take(x as int),
                        decreases row@.len() - x,
                    {
                        image.push(row[x]);
                        x = x + 1;
                        assert(image@ =~= all.take(l as int).flatten() + row@.take(x as int));
                    }
                    proof {
                        assert(row@.take(x as int) =~= row@);
                        assert(all.take(l + 1) =~= all.take(l as int).push(all[l as int]));
                        all.take(l as int).lemma_flatten_push(all[l as int]);
                    }
                },
                None => {},
            }
            l = l + 1;
        }
        assert(all.take(l as int) =~= all);
        Some(image)
    }
}

} // verus!
