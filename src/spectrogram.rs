//! The rolling spectrogram: a fixed number of columns, oldest first, where each
//! new column pushes the oldest one out.
use vstd::prelude::*;

verus! {

pub struct SpectrogramBuffer<T> {
    columns: Vec<Vec<T>>,
}

impl<T: Copy> SpectrogramBuffer<T> {
    /// The columns, oldest first.
    pub closed spec fn grid(&self) -> Seq<Seq<T>> {
        self.columns@.map_values(|c: Vec<T>| c@)
    }

    /// `width` columns of `height` cells, each holding `fill`.
    pub fn new(width: usize, height: usize, fill: T) -> (r: Self)
        ensures
            r.grid() == Seq::new(width as nat, |i: int| Seq::new(height as nat, |j: int| fill)),
    {
        let mut columns: Vec<Vec<T>> = Vec::new();
        let mut i: usize = 0;
        while i < width
            invariant
                i <= width,
                columns@.map_values(|c: Vec<T>| c@) == Seq::new(
                    i as nat,
                    |k: int| Seq::new(height as nat, |j: int| fill),
                ),
            decreases width - i,
        {
            let mut column: Vec<T> = Vec::new();
            let mut j: usize = 0;
            while j < height
                invariant
                    j <= height,
                    column@ == Seq::new(j as nat, |k: int| fill),
                decreases height - j,
            {
                column.push(fill);
                j = j + 1;
            }
            let ghost before = columns@;
            columns.push(column);
            assert(columns@.map_values(|c: Vec<T>| c@) == before.map_values(|c: Vec<T>| c@).push(
                column@,
            ));
            i = i + 1;
        }
        SpectrogramBuffer { columns }
    }

    /// Drops the oldest column and appends `column` as the newest.
    pub fn push_column(&mut self, column: Vec<T>)
        requires
            old(self).grid().len() > 0,
        ensures
            final(self).grid() == old(self).grid().drop_first().push(column@),
    {
        let ghost before = self.columns@;
        self.columns.remove(0);
        let ghost mid = self.columns@;
        self.columns.push(column);
        assert(mid == before.drop_first());
        assert(self.columns@ == mid.push(column));
        assert(self.grid() == before.map_values(|c: Vec<T>| c@).drop_first().push(column@));
    }

    /// The cells of every column, oldest column first.
    pub fn flattened(&self) -> (r: Vec<T>)
        ensures
            r@ == self.grid().flatten(),
    {
        let ghost g = self.grid();
        let mut flat: Vec<T> = Vec::new();
        let mut i: usize = 0;
        while i < self.columns.len()
            invariant
                g == self.grid(),
                i <= g.len(),
                flat@ == g.take(i as int).flatten(),
            decreases g.len() - i,
        {
            let column = &self.columns[i];
            assert(column@ == g[i as int]);
            let mut j: usize = 0;
            while j < column.len()
                invariant
                    j <= column@.len(),
                    column@ == g[i as int],
                    flat@ == g.take(i as int).flatten() + column@.take(j as int),
                decreases column@.len() - j,
            {
                flat.push(column[j]);
                assert(column@.take(j + 1) == column@.take(j as int).push(column@[j as int]));
                j = j + 1;
            }
            proof {
                assert(column@.take(column@.len() as int) == column@);
                assert(g.take(i + 1) == g.take(i as int).push(g[i as int]));
                g.take(i as int).lemma_flatten_push(g[i as int]);
            }
            i = i + 1;
        }
        assert(g.take(g.len() as int) == g);
        flat
    }
}

} // verus!
