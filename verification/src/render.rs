//! The raster scan: for each cell of the grid, map, evaluate, select, and
//! emit one cell write; after each completed row, emit one line break. The
//! emitted sequence is a pure function of the configuration, stated by
//! [`frame_spec`], so a frame is fully reproducible.

use vstd::prelude::*;

use crate::config::Config;
use crate::escape::{escape_time, evaluate};
use crate::palette::{select, select_spec, Cell};
use crate::viewport::map_spec;

verus! {

/// One operation handed to the display surface, in the order the surface
/// must perform them: draw one cell at the cursor, or break the line.
#[derive(Clone, Copy, Debug, PartialEq, Eq, Structural)]
pub enum SurfaceOp {
    WriteCell(Cell),
    LineBreak,
}

/// How many operations one frame emits: each of `height` rows emits `width`
/// cell writes and one line break.
pub open spec fn frame_len(cfg: Config) -> int {
    cfg.viewport.height * (cfg.viewport.width + 1)
}

/// The operation at position `k` of the frame: positions run in raster order,
/// `width + 1` per row, the last of each row being the line break.
pub open spec fn frame_op(cfg: Config, k: int) -> SurfaceOp {
    let stride = cfg.viewport.width + 1;
    let row = k / stride;
    let col = k % stride;
    if col == cfg.viewport.width {
        SurfaceOp::LineBreak
    } else {
        SurfaceOp::WriteCell(
            select_spec(
                cfg.palette,
                escape_time(map_spec(cfg.viewport, col, row), cfg.max_iter as nat),
                cfg.max_iter as nat,
            ),
        )
    }
}

/// The full sequence of surface operations of one frame: a function of the
/// configuration alone.
pub open spec fn frame_spec(cfg: Config) -> Seq<SurfaceOp> {
    Seq::new(frame_len(cfg) as nat, |k: int| frame_op(cfg, k))
}

/// Renders one frame: emits, in strict left-to-right, top-to-bottom raster
/// order, one cell write per grid point and one line break after each row.
/// The result is exactly [`frame_spec`] of the configuration, so two renders
/// of one configuration emit identical frames.
pub fn render_frame(cfg: &Config) -> (out: Vec<SurfaceOp>)
    requires
        cfg.wf(),
    ensures
        out@ == frame_spec(*cfg),
{
    let width = cfg.viewport.width;
    let height = cfg.viewport.height;
    let ghost stride = width as int + 1;
    let mut out: Vec<SurfaceOp> = Vec::new();
    let mut row: usize = 0;
    while row < height
        invariant
            cfg.wf(),
            width == cfg.viewport.width,
            height == cfg.viewport.height,
            stride == width as int + 1,
            row <= height,
            out@.len() == row * stride,
            forall|k: int| 0 <= k < out@.len() ==> out@[k] == frame_op(*cfg, k),
        decreases height - row,
    {
        let mut col: usize = 0;
        proof {
            assert(row * stride + stride <= height * stride) by (nonlinear_arith)
                requires
                    row < height,
                    stride > 0,
            ;
        }
        while col < width
            invariant
                cfg.wf(),
                width == cfg.viewport.width,
                height == cfg.viewport.height,
                stride == width as int + 1,
                row < height,
                col <= width,
                out@.len() == row * stride + col,
                row * stride + stride <= height * stride,
                forall|k: int| 0 <= k < out@.len() ==> out@[k] == frame_op(*cfg, k),
            decreases width - col,
        {
            let point = crate::viewport::map(col, row, &cfg.viewport);
            let count = evaluate(point, cfg.max_iter);
            let cell = select(&cfg.palette, count, cfg.max_iter);
            proof {
                let k = row * stride + col;
                vstd::arithmetic::div_mod::lemma_fundamental_div_mod_converse(
                    k,
                    stride,
                    row as int,
                    col as int,
                );
                assert(frame_op(*cfg, k) == SurfaceOp::WriteCell(cell));
            }
            out.push(SurfaceOp::WriteCell(cell));
            col = col + 1;
        }
        proof {
            let k = row * stride + width;
            vstd::arithmetic::div_mod::lemma_fundamental_div_mod_converse(
                k,
                stride,
                row as int,
                width as int,
            );
            assert(frame_op(*cfg, k) == SurfaceOp::LineBreak);
            assert((row + 1) * stride == row * stride + stride) by (nonlinear_arith);
        }
        out.push(SurfaceOp::LineBreak);
        row = row + 1;
    }
    proof {
        assert(out@ =~= frame_spec(*cfg));
    }
    out
}

/// Rendering is reproducible: two frames of one configuration are identical,
/// operation for operation, because each equals [`frame_spec`] of that
/// configuration.
pub proof fn lemma_frame_reproducible(cfg: Config, first: Seq<SurfaceOp>, second: Seq<SurfaceOp>)
    requires
        first == frame_spec(cfg),
        second == frame_spec(cfg),
    ensures
        first == second,
{
}

} // verus!
