use std::sync::atomic::{AtomicBool, Ordering};
use std::sync::Arc;
use vstd::prelude::*;
use vstd::rwlock::{RwLock, RwLockPredicate};

use crate::error::ViewerError;
use crate::store::{names_distinct, Frame, FrameStore};
use crate::transform::{is_four_by_four, Transform};

verus! {

/// What the viewer's lock demands of the store it guards. The store's own
/// type invariant already keeps names unique, so any store may be held.
pub struct StoreLockPred;

impl RwLockPredicate<FrameStore> for StoreLockPred {
    open spec fn inv(self, v: FrameStore) -> bool {
        true
    }
}

/// The boundary between producers and the render thread: a frame store behind
/// a reader/writer lock, and a flag telling the render loop to keep going.
/// Handles made by `share` refer to the same store and flag.
pub struct Viewer {
    frames: Arc<RwLock<FrameStore, StoreLockPred>>,
    running: Arc<AtomicBool>,
}

impl Viewer {
    /// A viewer with no frames that is not running.
    pub fn new() -> Viewer {
        Viewer {
            frames: Arc::new(RwLock::new(FrameStore::new(), Ghost(StoreLockPred))),
            running: Arc::new(AtomicBool::new(false)),
        }
    }

    /// Another handle on the same store and running flag, for the render thread.
    pub fn share(&self) -> Viewer {
        Viewer { frames: self.frames.clone(), running: self.running.clone() }
    }

    /// Inserts or replaces the frame `name` as `FrameStore::push` does, as one
    /// step under the write lock: concurrent readers see the store either
    /// before or after it.
    pub fn push_frame(&self, transform: Transform, name: &str) {
        let (mut store, handle) = self.frames.acquire_write();
        store.push(name, transform);
        handle.release_write(store);
    }

    /// Pushes a frame given as a matrix payload (its shape and its entries row
    /// by row, as single-precision bit patterns). A payload that is not a 4x4
    /// matrix is rejected and leaves the store untouched.
    pub fn push_frame_rows(&self, shape: &[usize], rows: &[u32], name: &str) -> (r: Result<
        (),
        ViewerError,
    >)
        ensures
            r is Ok <==> is_four_by_four(shape@, rows@.len()),
            r is Err ==> r->Err_0 == ViewerError::InvalidTransform,
    {
        match Transform::from_row_major(shape, rows) {
            Ok(t) => {
                self.push_frame(t, name);
                Ok(())
            },
            Err(e) => Err(e),
        }
    }

    /// Removes every frame as one step under the write lock.
    pub fn clear_frames(&self) {
        let (mut store, handle) = self.frames.acquire_write();
        store.clear();
        handle.release_write(store);
    }

    /// Copies out the frames stored at one instant, holding the read lock only
    /// while copying; each name appears once.
    pub fn snapshot_for_render(&self) -> (r: Vec<Frame>)
        ensures
            names_distinct(r@),
    {
        let handle = self.frames.acquire_read();
        let r = handle.borrow().snapshot_for_render();
        handle.release_read();
        r
    }

    /// Marks the viewer as running; the render loop keeps going while it is.
    pub fn mark_running(&self) {
        self.running.store(true, Ordering::SeqCst);
    }

    /// Asks the render loop to exit at its next iteration; does not wait.
    pub fn stop(&self) {
        self.running.store(false, Ordering::SeqCst);
    }

    /// Whether the render loop should keep going.
    pub fn is_running(&self) -> bool {
        self.running.load(Ordering::SeqCst)
    }
}

} // verus!
