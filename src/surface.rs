//! Sizing of the overlay surface: the shared-memory buffer's layout and the
//! exclusive zone in its full and minimized forms.
use vstd::prelude::*;

verus! {

/// Height in pixels of the keyboard.
pub const KEYBOARD_HEIGHT: i32 = 300;

/// Height in pixels kept when the keyboard is minimized.
pub const MINIMIZED_HEIGHT: i32 = 10;

/// Layout of one ARGB8888 buffer in a shared-memory pool.
#[derive(Clone, Copy, Debug, PartialEq, Eq, Structural)]
pub struct BufferSpec {
    pub width: i32,
    pub height: i32,
    pub stride: i32,
    pub pool_size: i32,
}

/// Whether the stride and the pool size of a buffer of this size fit an `i32`.
pub open spec fn buffer_fits(width: int, height: int) -> bool {
    0 <= width && 0 <= height && width * 4 <= i32::MAX && width * height * 4 <= i32::MAX
}

/// Four bytes per pixel, rows packed without padding, the pool exactly as
/// large as the image. `None` where the stride or the pool size would not fit
/// an `i32`.
pub fn buffer_spec(width: i32, height: i32) -> (r: Option<BufferSpec>)
    ensures
        r is Some <==> buffer_fits(width as int, height as int),
        r matches Some(b) ==> b.width == width && b.height == height && b.stride == width * 4
            && b.pool_size == width * height * 4,
{
    if width < 0 || height < 0 || width > i32::MAX / 4 {
        return None;
    }
    let stride: i32 = width * 4;
    proof {
        assert(0 <= stride as int * height as int <= (i32::MAX as int) * (i32::MAX as int))
            by (nonlinear_arith)
            requires
                0 <= stride <= i32::MAX,
                0 <= height <= i32::MAX,
        ;
        assert(stride as int * height as int == width as int * height as int * 4)
            by (nonlinear_arith)
            requires
                stride == width * 4,
        ;
    }
    let pool: i64 = stride as i64 * height as i64;
    if pool > i32::MAX as i64 {
        return None;
    }
    Some(BufferSpec { width, height, stride, pool_size: pool as i32 })
}

/// What the layer surface is asked for: a size (width zero stretches it
/// between the anchored edges) and an exclusive zone.
#[derive(Clone, Copy, Debug, PartialEq, Eq, Structural)]
pub struct LayerRequest {
    pub width: u32,
    pub height: u32,
    pub exclusive_zone: i32,
}

/// The keyboard's full height and whether it is minimized.
#[derive(Clone, Copy, Debug)]
pub struct LayerConfig {
    height: i32,
    minimized: bool,
}

impl LayerConfig {
    pub closed spec fn spec_height(self) -> int {
        self.height as int
    }

    pub closed spec fn spec_minimized(self) -> bool {
        self.minimized
    }

    pub closed spec fn wf(self) -> bool {
        self.height >= 0
    }

    /// The same configuration with the minimized flag set to `m`.
    pub closed spec fn with_minimized(self, m: bool) -> LayerConfig {
        LayerConfig { minimized: m, ..self }
    }

    /// The exclusive zone, which is also the requested height.
    pub open spec fn spec_zone(self) -> int {
        if self.spec_minimized() {
            MINIMIZED_HEIGHT as int
        } else {
            self.spec_height()
        }
    }

    /// A full-height configuration; `None` for a negative height.
    pub fn new(height: i32) -> (r: Option<LayerConfig>)
        ensures
            r is Some <==> height >= 0,
            r matches Some(c) ==> c.wf() && c.spec_height() == height && !c.spec_minimized(),
    {
        if height < 0 {
            None
        } else {
            Some(LayerConfig { height, minimized: false })
        }
    }

    pub fn is_minimized(&self) -> (r: bool)
        ensures
            r == self.spec_minimized(),
    {
        self.minimized
    }

    pub fn height(&self) -> (r: i32)
        ensures
            r == self.spec_height(),
    {
        self.height
    }

    /// The size and exclusive zone to request in the current state.
    pub fn request(&self) -> (r: LayerRequest)
        requires
            self.wf(),
        ensures
            r.width == 0,
            r.height as int == self.spec_zone(),
            r.exclusive_zone as int == self.spec_zone(),
    {
        let zone: i32 = if self.minimized {
            MINIMIZED_HEIGHT
        } else {
            self.height
        };
        LayerRequest { width: 0, height: zone as u32, exclusive_zone: zone }
    }

    pub fn minimize(&mut self)
        ensures
            *final(self) == old(self).with_minimized(true),
            final(self).spec_minimized(),
            final(self).spec_height() == old(self).spec_height(),
            final(self).spec_zone() == MINIMIZED_HEIGHT as int,
            final(self).wf() == old(self).wf(),
    {
        self.minimized = true;
    }

    pub fn restore(&mut self)
        ensures
            *final(self) == old(self).with_minimized(false),
            !final(self).spec_minimized(),
            final(self).spec_height() == old(self).spec_height(),
            final(self).spec_zone() == old(self).spec_height(),
            final(self).wf() == old(self).wf(),
    {
        self.minimized = false;
    }

    /// Minimizes a full keyboard and restores a minimized one.
    pub fn toggle_minimized(&mut self)
        ensures
            *final(self) == old(self).with_minimized(!old(self).spec_minimized()),
            final(self).spec_minimized() == !old(self).spec_minimized(),
            final(self).spec_height() == old(self).spec_height(),
            final(self).wf() == old(self).wf(),
    {
        self.minimized = !self.minimized;
    }

    /// Minimizing and then restoring a full keyboard gives back the
    /// configuration it had, and with it the same zone and size.
    pub proof fn lemma_minimize_restore(self)
        requires
            !self.spec_minimized(),
        ensures
            self.with_minimized(true).with_minimized(false) == self,
            self.with_minimized(true).with_minimized(false).spec_zone() == self.spec_zone(),
            self.with_minimized(true).spec_zone() == MINIMIZED_HEIGHT as int,
            self.with_minimized(true).spec_height() == self.spec_height(),
    {
    }
}

} // verus!
