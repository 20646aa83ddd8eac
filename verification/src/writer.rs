//! Output mode selection and per-frame file naming.
//!
//! The tool either writes one self-animating SVG document, or one file per
//! frame (an SVG each, or a rasterized PNG each).  Which file a frame goes
//! to is pure text computed here; opening and writing the file, and
//! rasterizing in the PNG case, are the caller's business.

use crate::strfmt::push_decimal;
use crate::strfmt::spec_decimal;
use vstd::prelude::*;
use vstd::string::StrSliceExecFns;
use vstd::string::StringExecFns;

verus! {

/// How the animation is emitted: one animated SVG document, one SVG file
/// per frame, or one PNG file per frame.
#[derive(Clone, Copy, PartialEq, Eq, Structural, Debug)]
pub enum Mode {
    Svg,
    Svgs,
    Pngs,
}

impl Mode {
    /// The mode selected by a command-line value; `svg` is the only
    /// recognized spelling, anything else is rejected.
    pub fn parse(s: &str) -> (r: Option<Mode>)
        ensures
            s@ == "svg"@ ==> r == Some(Mode::Svg),
            s@ != "svg"@ ==> r is None,
    {
        proof {
            reveal_strlit("svg");
        }
        if s.unicode_len() == 3 && s.get_char(0) == 's' && s.get_char(1) == 'v' && s.get_char(2)
            == 'g' {
            proof {
                assert(s@ =~= "svg"@);
            }
            Some(Mode::Svg)
        } else {
            None
        }
    }
}

/// Writes the finished animation frames out, one file per frame, under a
/// common directory.
pub struct FrameWriter {
    pub mode: Mode,
    pub out_fp: String,
}

impl FrameWriter {
    /// A writer that puts frames for the given mode under `out_fp`.
    pub fn new(mode: Mode, out_fp: String) -> (w: FrameWriter)
        ensures
            w.mode == mode,
            w.out_fp == out_fp,
    {
        FrameWriter { mode, out_fp }
    }

    /// The file the given frame is written to: `frame-<n>` under the
    /// writer's directory, with the extension the mode asks for.  In the
    /// single-document mode no per-frame file exists, so that mode is
    /// outside this function's contract.
    pub fn frame_path(&self, frame: usize) -> (r: String)
        requires
            self.mode != Mode::Svg,
        ensures
            r@ == self.out_fp@ + "/frame-"@ + spec_decimal(frame as int) + (if self.mode
                == Mode::Svgs {
                ".svg"@
            } else {
                ".png"@
            }),
    {
        let mut r = self.out_fp.clone();
        r.append("/frame-");
        push_decimal(&mut r, frame as u64);
        match self.mode {
            Mode::Pngs => r.append(".png"),
            _ => r.append(".svg"),
        }
        proof {
            assert(r@ =~= self.out_fp@ + "/frame-"@ + spec_decimal(frame as int) + (if self.mode
                == Mode::Svgs {
                ".svg"@
            } else {
                ".png"@
            }));
        }
        r
    }
}

} // verus!
