use std::sync::Arc;
use vstd::prelude::*;
use vstd::rwlock::RwLock;
use vstd::rwlock::RwLockPredicate;

verus! {

/// On-screen bounds of the video surface, in whole physical pixels of the
/// window. The widget layer publishes the placeholder's bounds here and the
/// external renderer reads them once per presented frame; the renderer maps
/// them to its own floating-point coordinates at the edge.
#[derive(Clone, Copy, Debug, PartialEq, Eq, Structural)]
pub struct Rect {
    pub x: u32,
    pub y: u32,
    pub width: u32,
    pub height: u32,
}

impl Rect {
    /// A rectangle is well formed when both far edges stay inside coordinate
    /// space, so a reader can form `x + width` and `y + height` without
    /// overflow.
    pub open spec fn wf(self) -> bool {
        &&& self.x + self.width <= u32::MAX
        &&& self.y + self.height <= u32::MAX
    }

    /// The rectangle a freshly created cell holds.
    pub open spec fn spec_zero() -> Rect {
        Rect { x: 0, y: 0, width: 0, height: 0 }
    }

    /// All four fields zero: what a reader sees before the first write.
    pub fn zero() -> (r: Rect)
        ensures
            r == Rect::spec_zero(),
            r.wf(),
    {
        Rect { x: 0, y: 0, width: 0, height: 0 }
    }
}

/// The invariant on every value stored in a [`ViewportCell`].
pub struct ViewportInv;

impl RwLockPredicate<Rect> for ViewportInv {
    open spec fn inv(self, r: Rect) -> bool {
        r.wf()
    }
}

/// A mutually-exclusive shared rectangle: the latest-value cell through which
/// the widget layer tells the render lane where to draw video frames.
///
/// Each handle refers to one shared slot; [`ViewportCell::duplicate`] hands a
/// second handle to the other lane. A reader always observes one complete,
/// well-formed rectangle — the initial zero rectangle or the value of some
/// finished write — never a mix of old and new fields: the lock's critical
/// sections cover exactly the copy of the whole value and nothing longer.
pub struct ViewportCell {
    inner: Arc<RwLock<Rect, ViewportInv>>,
}

impl ViewportCell {
    /// A fresh cell holding the zero rectangle.
    pub fn new() -> ViewportCell {
        ViewportCell { inner: Arc::new(RwLock::new(Rect::zero(), Ghost(ViewportInv))) }
    }

    /// A second handle to the same shared slot, for the render lane.
    pub fn duplicate(&self) -> (c: ViewportCell)
        ensures
            c == *self,
    {
        ViewportCell { inner: arc_clone_viewport_lock(&self.inner) }
    }

    /// The most recently completed write, or the zero rectangle before the
    /// first write. The critical section is only the copy of the value.
    pub fn read(&self) -> (r: Rect)
        ensures
            r.wf(),
    {
        let handle = self.inner.acquire_read();
        let r = *handle.borrow();
        handle.release_read();
        r
    }

    /// Replace the published rectangle as one unit. Always succeeds; the
    /// critical section is only the assignment of the value.
    pub fn write(&self, r: Rect)
        requires
            r.wf(),
    {
        let (_old_value, handle) = self.inner.acquire_write();
        handle.release_write(r);
    }
}

/// Relies on `std::sync::Arc::clone`: the returned `Arc` points to the same
/// allocation as the argument, so as a value it equals the argument.
#[verifier::external_body]
fn arc_clone_viewport_lock(a: &Arc<RwLock<Rect, ViewportInv>>) -> (r: Arc<
    RwLock<Rect, ViewportInv>,
>)
    ensures
        r == *a,
{
    Arc::clone(a)
}

} // verus!
