//! The grid of buttons that makes up one screen.

use crate::plugins::{Destination, Icon, Widget, WidgetView};
use vstd::prelude::*;

verus! {

/// Mathematical model of a [`ButtonGrid`]: `height` rows of `width` cells,
/// stored row by row.
pub struct GridView {
    pub width: nat,
    pub height: nat,
    pub cells: Seq<Option<WidgetView>>,
}

impl GridView {
    /// The grid of the given size with no button on it.
    pub open spec fn blank(width: nat, height: nat) -> GridView {
        GridView { width, height, cells: Seq::new(width * height, |c: int| None) }
    }

    /// Whether column `x` of row `y` lies on the grid.
    pub open spec fn in_bounds(self, x: int, y: int) -> bool {
        0 <= x < self.width && 0 <= y < self.height
    }

    /// The place of column `x` of row `y` in `cells`.
    pub open spec fn index_of(self, x: int, y: int) -> int {
        y * self.width + x
    }

    /// What column `x` of row `y` holds.
    pub open spec fn cell(self, x: int, y: int) -> Option<WidgetView> {
        self.cells[self.index_of(x, y)]
    }

    /// The grid with `widget` put at column `x` of row `y`.
    pub open spec fn put(self, x: int, y: int, widget: WidgetView) -> GridView {
        GridView { cells: self.cells.update(self.index_of(x, y), Some(widget)), ..self }
    }
}

/// The model of a cell.
pub open spec fn cell_view(cell: Option<Widget>) -> Option<WidgetView> {
    match cell {
        Some(widget) => Some(widget@),
        None => None,
    }
}

/// A cell of a grid lies inside its sequence of cells.
pub proof fn lemma_index_in_range(width: nat, height: nat, x: int, y: int)
    requires
        0 <= x < width,
        0 <= y < height,
    ensures
        0 <= y * width + x < width * height,
{
    assert(y * width + x < width * height) by (nonlinear_arith)
        requires
            0 <= x < width,
            0 <= y < height,
    {
    }
    assert(0 <= y * width) by (nonlinear_arith)
        requires
            0 <= y,
            0 <= width,
    {
    }
}

/// The message of a placement outside the grid.
pub open spec fn out_of_bounds_message() -> Seq<char> {
    "Row or column out of bounds"@
}

/// A screen: a grid of `width` columns and `height` rows, each cell empty or
/// holding one [`Widget`].
#[derive(Debug, PartialEq, Eq)]
pub struct ButtonGrid {
    width: usize,
    height: usize,
    cells: Vec<Option<Widget>>,
}

impl View for ButtonGrid {
    type V = GridView;

    closed spec fn view(&self) -> GridView {
        GridView {
            width: self.width as nat,
            height: self.height as nat,
            cells: Seq::new(self.cells@.len(), |c: int| cell_view(self.cells@[c])),
        }
    }
}

impl ButtonGrid {
    #[verifier::type_invariant]
    spec fn well_formed(self) -> bool {
        self.cells@.len() == self.width * self.height
    }

    /// An empty grid of `width` columns and `height` rows.
    pub fn new(width: usize, height: usize) -> (res: Self)
        requires
            width * height <= usize::MAX,
        ensures
            res@ == GridView::blank(width as nat, height as nat),
    {
        let total: usize = width * height;
        let mut cells: Vec<Option<Widget>> = Vec::new();
        let mut i: usize = 0;
        while i < total
            invariant
                i <= total,
                cells@.len() == i,
                forall|c: int| 0 <= c < i ==> cells@[c] is None,
            decreases total - i,
        {
            cells.push(None);
            i += 1;
        }
        let res = ButtonGrid { width, height, cells };
        assert(res@.cells =~= GridView::blank(width as nat, height as nat).cells);
        res
    }

    /// The number of columns.
    pub fn width(&self) -> (res: usize)
        ensures
            res == self@.width,
    {
        self.width
    }

    /// The number of rows.
    pub fn height(&self) -> (res: usize)
        ensures
            res == self@.height,
    {
        self.height
    }

    /// Puts `widget` at column `x` of row `y`, replacing what was there.
    /// A place outside the grid is refused and the grid stays as it was.
    pub fn set_button(&mut self, x: usize, y: usize, widget: Widget) -> (res: Result<(), String>)
        ensures
            old(self)@.in_bounds(x as int, y as int) ==> res is Ok && final(self)@ == old(self)@.put(
                x as int,
                y as int,
                widget@,
            ),
            !old(self)@.in_bounds(x as int, y as int) ==> res is Err && res->Err_0@
                == out_of_bounds_message() && final(self)@ == old(self)@,
    {
        proof {
            use_type_invariant(&*self);
        }
        if x < self.width && y < self.height {
            proof {
                lemma_index_in_range(self.width as nat, self.height as nat, x as int, y as int);
                assert(self.cells@.len() == self.cells.len());
            }
            let index: usize = y * self.width + x;
            self.cells[index] = Some(widget);
            assert(self@.cells =~= old(self)@.put(x as int, y as int, widget@).cells);
            Ok(())
        } else {
            Err("Row or column out of bounds".to_owned())
        }
    }

    /// Puts a button at column `x` of row `y` that opens `navigation`.
    pub fn set_navigation(
        &mut self,
        x: usize,
        y: usize,
        navigation: Destination,
        text: String,
        icon: Icon,
    ) -> (res: Result<(), String>)
        ensures
            old(self)@.in_bounds(x as int, y as int) ==> res is Ok && final(self)@ == old(self)@.put(
                x as int,
                y as int,
                WidgetView::Navigation { destination: navigation@, text: text@, icon },
            ),
            !old(self)@.in_bounds(x as int, y as int) ==> res is Err && res->Err_0@
                == out_of_bounds_message() && final(self)@ == old(self)@,
    {
        self.set_button(x, y, Widget::Navigation { destination: navigation, text, icon })
    }

    /// The widget at column `x` of row `y`; nothing for an empty cell or a
    /// place outside the grid.
    pub fn get(&self, x: usize, y: usize) -> (res: Option<&Widget>)
        ensures
            self@.in_bounds(x as int, y as int) ==> cell_view_ref(res) == self@.cell(
                x as int,
                y as int,
            ),
            !self@.in_bounds(x as int, y as int) ==> res is None,
    {
        proof {
            use_type_invariant(self);
        }
        if x < self.width && y < self.height {
            proof {
                lemma_index_in_range(self.width as nat, self.height as nat, x as int, y as int);
                assert(self.cells@.len() == self.cells.len());
            }
            let index: usize = y * self.width + x;
            match &self.cells[index] {
                Some(widget) => Some(widget),
                None => None,
            }
        } else {
            None
        }
    }
}

/// The model of a borrowed cell.
pub open spec fn cell_view_ref(cell: Option<&Widget>) -> Option<WidgetView> {
    match cell {
        Some(widget) => Some(widget@),
        None => None,
    }
}

} // verus!
