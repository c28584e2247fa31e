use vstd::prelude::*;
use crate::fault::Fault;

verus! {

/// A text display addressed by row: writing a row replaces what it showed.
pub trait LineDisplay {
    /// Shows `s` left-aligned on row `line`, clearing the row's previous text.
    fn write(&mut self, s: &str, line: u32) -> Result<(), Fault>;
}

/// A rectangle in panel pixels: top-left corner, width and height.
#[derive(Clone, Copy, Debug, PartialEq, Eq, Structural)]
pub struct RowArea {
    pub x: u32,
    pub y: u32,
    pub width: u32,
    pub height: u32,
}

/// How a panel of fixed pixel size is cut into equal text rows.
#[derive(Clone, Copy, Debug, PartialEq, Eq, Structural)]
pub struct LineGeometry {
    pub panel_width: u32,
    pub panel_height: u32,
    pub line_height: u32,
}

impl LineGeometry {
    /// The row height lies in 10 to 16 pixels and the panel holds at least one row.
    pub open spec fn wf(self) -> bool {
        &&& 10 <= self.line_height <= 16
        &&& self.line_height <= self.panel_height
    }

    /// How many whole rows fit on the panel.
    pub open spec fn line_count_spec(self) -> nat {
        (self.panel_height / self.line_height) as nat
    }

    /// The area that row `line` covers: the full panel width, one row high.
    pub open spec fn row_area_spec(self, line: nat) -> RowArea {
        RowArea {
            x: 0,
            y: (line * self.line_height) as u32,
            width: self.panel_width,
            height: self.line_height,
        }
    }

    /// A geometry for a panel, or `None` unless the row height lies in
    /// 10 to 16 pixels and at most the panel height.
    pub fn new(panel_width: u32, panel_height: u32, line_height: u32) -> (r: Option<LineGeometry>)
        ensures
            r is Some <==> (10 <= line_height <= 16 && line_height <= panel_height),
            r matches Some(g) ==> g.wf() && g.panel_width == panel_width && g.panel_height
                == panel_height && g.line_height == line_height,
    {
        if 10 <= line_height && line_height <= 16 && line_height <= panel_height {
            Some(LineGeometry { panel_width, panel_height, line_height })
        } else {
            None
        }
    }

    /// How many whole rows fit on the panel.
    pub fn line_count(&self) -> (r: u32)
        requires
            self.wf(),
        ensures
            r as nat == self.line_count_spec(),
            r >= 1,
    {
        proof {
            vstd::arithmetic::div_mod::lemma_div_is_ordered(
                self.line_height as int,
                self.panel_height as int,
                self.line_height as int,
            );
            vstd::arithmetic::div_mod::lemma_div_by_self(self.line_height as int);
        }
        self.panel_height / self.line_height
    }

    /// The pixel row at which text row `line` begins.
    pub fn get_line_bound(&self, line: u32) -> (r: u32)
        requires
            self.wf(),
            (line as nat) < self.line_count_spec(),
        ensures
            r == line * self.line_height,
    {
        proof {
            lemma_row_fits(line as int, self.line_height as int, self.panel_height as int);
        }
        line * self.line_height
    }

    /// The area to clear before drawing row `line`.
    pub fn row_area(&self, line: u32) -> (r: RowArea)
        requires
            self.wf(),
            (line as nat) < self.line_count_spec(),
        ensures
            r == self.row_area_spec(line as nat),
            r.y + r.height <= self.panel_height,
    {
        proof {
            lemma_row_fits(line as int, self.line_height as int, self.panel_height as int);
        }
        let y = self.get_line_bound(line);
        RowArea { x: 0, y, width: self.panel_width, height: self.line_height }
    }
}

/// A row below the row count ends within the panel.
proof fn lemma_row_fits(line: int, h: int, panel: int)
    requires
        0 <= line,
        0 < h,
        0 <= panel,
        line < panel / h,
    ensures
        line * h + h <= panel,
{
    assert((line + 1) * h <= (panel / h) * h) by (nonlinear_arith)
        requires
            line + 1 <= panel / h,
            0 < h,
    ;
    assert((panel / h) * h <= panel) by (nonlinear_arith)
        requires
            0 < h,
            0 <= panel,
    ;
    assert((line + 1) * h == line * h + h) by (nonlinear_arith);
}

} // verus!
