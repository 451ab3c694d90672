use vstd::prelude::*;

verus! {

/// A captured or resampled frame: `width` x `height` pixels of four bytes each
/// (red, green, blue, alpha), row by row.
#[derive(Debug)]
pub struct Bitmap {
    pub width: u32,
    pub height: u32,
    pub pixels: Vec<u8>,
}

impl Bitmap {
    /// The pixel buffer holds exactly four bytes per pixel.
    pub open spec fn wf(&self) -> bool {
        self.pixels@.len() == 4 * (self.width as nat) * (self.height as nat)
    }

    /// Wraps a raw RGBA buffer, or returns `None` when its length is not
    /// `4 * width * height`.
    pub fn from_rgba(width: u32, height: u32, pixels: Vec<u8>) -> (r: Option<Bitmap>)
        ensures
            r is Some <==> pixels@.len() == 4 * (width as nat) * (height as nat),
            r is Some ==> r->Some_0.wf() && r->Some_0.width == width && r->Some_0.height
                == height && r->Some_0.pixels@ == pixels@,
    {
        let n = pixels.len();
        let w = width as u64;
        let h = height as u64;
        assert(w * h <= u32::MAX * u32::MAX) by (nonlinear_arith)
            requires
                w <= u32::MAX,
                h <= u32::MAX,
        ;
        let area = w * h;
        proof {
            assert(4 * (width as nat) * (height as nat) == 4 * (w * h)) by (nonlinear_arith)
                requires
                    w == width,
                    h == height,
            ;
        }
        if n % 4 != 0 || (n / 4) as u64 != area {
            proof {
                assert(n != 4 * (w * h)) by (nonlinear_arith)
                    requires
                        n % 4 != 0 || n / 4 != w * h,
                ;
            }
            return None;
        }
        Some(Bitmap { width, height, pixels })
    }
}

} // verus!
