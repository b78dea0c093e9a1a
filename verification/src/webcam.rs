//! The camera overlay of the preview: where it lies on the display frame and
//! the border that is drawn round it.

use crate::capture::{
    after_publish, CaptureFrame, CaptureFrameView, FrameQueue, Rgba, FRAME_QUEUE_CAPACITY,
};
use vstd::prelude::*;

verus! {

/// The camera overlay: its top left corner on the display frame, its size,
/// and its border.
#[derive(Debug, Clone, Copy)]
pub struct WebcamOverlay {
    pub position: (u32, u32),
    pub size: (u32, u32),
    pub border_color: Rgba,
    pub border_width: u32,
}

/// Whether a position lies on the border of the overlay: on one of the four
/// bands, each as wide as the border, that run along the inside of its edges.
pub open spec fn in_border(overlay: WebcamOverlay, px: int, py: int) -> bool {
    let x = overlay.position.0 as int;
    let y = overlay.position.1 as int;
    let w = overlay.size.0 as int;
    let h = overlay.size.1 as int;
    let b = overlay.border_width as int;
    ||| (x <= px < x + w && y <= py < y + b)
    ||| (x <= px < x + w && y + h - b <= py < y + h)
    ||| (x <= px < x + b && y <= py < y + h)
    ||| (x + w - b <= px < x + w && y <= py < y + h)
}

/// Where on a frame the overlay pixel of the given column and row lands: the
/// position of that pixel in the frame, or `None` where it falls outside.
pub open spec fn overlay_target(
    overlay: WebcamOverlay,
    column: int,
    row: int,
    width: nat,
    height: nat,
) -> Option<int> {
    let px = overlay.position.0 + column;
    let py = overlay.position.1 + row;
    if px < width && py < height {
        Some(py * width + px)
    } else {
        None
    }
}

/// The pixels of a frame once the border is drawn: the border colour on the
/// border, the pixel as it was elsewhere.
pub open spec fn with_border(overlay: WebcamOverlay, width: nat, pixels: Seq<Rgba>) -> Seq<Rgba> {
    Seq::new(
        pixels.len(),
        |k: int|
            if width > 0 && in_border(overlay, k % (width as int), k / (width as int)) {
                overlay.border_color
            } else {
                pixels[k]
            },
    )
}

impl WebcamOverlay {
    /// An overlay at the given corner and of the given size, with the
    /// default border: two pixels of blurple.
    pub fn new(x: u32, y: u32, width: u32, height: u32) -> (overlay: WebcamOverlay)
        ensures
            overlay == (WebcamOverlay {
                position: (x, y),
                size: (width, height),
                border_color: Rgba { r: 88, g: 101, b: 242, a: 255 },
                border_width: 2,
            }),
    {
        WebcamOverlay {
            position: (x, y),
            size: (width, height),
            border_color: Rgba { r: 88, g: 101, b: 242, a: 255 },
            border_width: 2,
        }
    }

    /// Moves the overlay.
    pub fn set_position(&mut self, x: u32, y: u32)
        ensures
            *final(self) == (WebcamOverlay { position: (x, y), ..*old(self) }),
    {
        self.position = (x, y);
    }

    /// Resizes the overlay.
    pub fn set_size(&mut self, width: u32, height: u32)
        ensures
            *final(self) == (WebcamOverlay { size: (width, height), ..*old(self) }),
    {
        self.size = (width, height);
    }

    /// Recolours the border.
    pub fn set_border_color(&mut self, r: u8, g: u8, b: u8, a: u8)
        ensures
            *final(self) == (WebcamOverlay { border_color: Rgba { r, g, b, a }, ..*old(self) }),
    {
        self.border_color = Rgba { r, g, b, a };
    }

    /// The top left corner of the overlay.
    pub fn get_position(&self) -> (position: (u32, u32))
        ensures
            position == self.position,
    {
        self.position
    }

    /// The size of the overlay.
    pub fn get_size(&self) -> (size: (u32, u32))
        ensures
            size == self.size,
    {
        self.size
    }

    /// Where on a frame the overlay pixel of the given column and row lands,
    /// or `None` where it falls outside the frame and is not shown.
    pub fn target_index(&self, column: u32, row: u32, frame: &CaptureFrame) -> (r: Option<usize>)
        requires
            frame.well_formed(),
        ensures
            match r {
                Some(i) => overlay_target(
                    *self,
                    column as int,
                    row as int,
                    frame.width as nat,
                    frame.height as nat,
                ) == Some(i as int) && i < frame.pixels@.len(),
                None => overlay_target(
                    *self,
                    column as int,
                    row as int,
                    frame.width as nat,
                    frame.height as nat,
                ) is None,
            },
    {
        let px = self.position.0 as u64 + column as u64;
        let py = self.position.1 as u64 + row as u64;
        if px < frame.width as u64 && py < frame.height as u64 {
            assert(py * frame.width + px < frame.width * frame.height) by (nonlinear_arith)
                requires
                    0 <= px < frame.width,
                    0 <= py < frame.height,
            ;
            assert(frame.width * frame.height == frame.pixels@.len());
            assert(py * frame.width >= 0) by (nonlinear_arith)
                requires
                    py >= 0,
                    frame.width >= 0,
            ;
            let count = frame.pixels.len();
            assert(py * frame.width + px < count);
            let index: u64 = py * (frame.width as u64) + px;
            Some(index as usize)
        } else {
            None
        }
    }

    /// Whether a position of the frame lies on the border.
    pub fn on_border(&self, px: u32, py: u32) -> (r: bool)
        ensures
            r == in_border(*self, px as int, py as int),
    {
        let x = self.position.0 as u64;
        let y = self.position.1 as u64;
        let w = self.size.0 as u64;
        let h = self.size.1 as u64;
        let b = self.border_width as u64;
        let px = px as u64;
        let py = py as u64;
        let in_columns = x <= px && px < x + w;
        let in_rows = y <= py && py < y + h;
        (in_columns && y <= py && py < y + b) || (in_columns && y + h <= py + b && py < y + h) || (
        in_rows && x <= px && px < x + b) || (in_rows && x + w <= px + b && px < x + w)
    }

    /// Draws the border of the overlay onto a frame. Every pixel of the frame
    /// that lies on the border takes the border colour; every other pixel,
    /// and the size of the frame, stay as they were. What lies outside the
    /// frame is not drawn.
    pub fn draw_border(&self, frame: &mut CaptureFrame)
        requires
            old(frame).well_formed(),
        ensures
            final(frame).well_formed(),
            final(frame).width == old(frame).width,
            final(frame).height == old(frame).height,
            final(frame).pixels@ == with_border(*self, old(frame).width as nat, old(frame).pixels@),
    {
        let count = frame.pixels.len();
        let width = frame.width as usize;
        let ghost before = frame.pixels@;
        let mut i: usize = 0;
        while i < count
            invariant
                i <= count,
                count == before.len(),
                width == frame.width,
                frame.width == old(frame).width,
                frame.height == old(frame).height,
                before == old(frame).pixels@,
                before.len() == frame.width * frame.height,
                frame.pixels@.len() == count,
                forall|k: int|
                    0 <= k < i ==> frame.pixels@[k] == with_border(
                        *self,
                        width as nat,
                        before,
                    )[k],
                forall|k: int| i <= k < count ==> frame.pixels@[k] == before[k],
            decreases count - i,
        {
            assert(width > 0) by (nonlinear_arith)
                requires
                    width == frame.width,
                    i < frame.width * frame.height,
            ;
            let column = i % width;
            let row = i / width;
            assert(row < frame.height) by (nonlinear_arith)
                requires
                    row == i / width,
                    width > 0,
                    width == frame.width,
                    i < frame.width * frame.height,
            ;
            if self.on_border(column as u32, row as u32) {
                frame.pixels.set(i, self.border_color);
            }
            i += 1;
        }
        assert(frame.pixels@ =~= with_border(*self, width as nat, before));
    }
}

/// Whether one resolution stands before another: by width, then by height.
pub open spec fn resolution_before(a: (u32, u32), b: (u32, u32)) -> bool {
    a.0 < b.0 || (a.0 == b.0 && a.1 < b.1)
}

/// Whether a list of resolutions rises strictly, so that none stands twice.
pub open spec fn strictly_ascending(list: Seq<(u32, u32)>) -> bool {
    forall|i: int, j: int| 0 <= i < j < list.len() ==> resolution_before(list[i], list[j])
}

/// Whether two lists hold the same resolutions, however often and in
/// whatever order.
pub open spec fn same_members(a: Seq<(u32, u32)>, b: Seq<(u32, u32)>) -> bool {
    forall|x: (u32, u32)| a.contains(x) <==> b.contains(x)
}

/// The resolutions that are offered while no camera is open.
pub open spec fn fallback_resolutions() -> Seq<(u32, u32)> {
    seq![(640u32, 480u32), (1280u32, 720u32), (1920u32, 1080u32)]
}

/// The resolutions of a list of camera formats, each once, in rising order.
pub fn sorted_resolutions(formats: &Vec<(u32, u32)>) -> (out: Vec<(u32, u32)>)
    ensures
        strictly_ascending(out@),
        same_members(out@, formats@),
{
    let mut out: Vec<(u32, u32)> = Vec::new();
    let mut k: usize = 0;
    while k < formats.len()
        invariant
            k <= formats.len(),
            strictly_ascending(out@),
            forall|x: (u32, u32)| out@.contains(x) <==> formats@.take(k as int).contains(x),
        decreases formats.len() - k,
    {
        let x = formats[k];
        let mut p: usize = 0;
        while p < out.len() && (out[p].0 < x.0 || (out[p].0 == x.0 && out[p].1 < x.1))
            invariant
                p <= out.len(),
                forall|j: int| 0 <= j < p ==> resolution_before(out@[j], x),
            decreases out.len() - p,
        {
            p += 1;
        }
        let ghost before = out@;
        let ghost seen = formats@.take(k as int);
        let ghost seen_next = formats@.take(k + 1);
        assert(seen_next =~= seen.push(x));
        assert(forall|y: (u32, u32)| seen_next.contains(y) <==> (seen.contains(y) || y == x)) by {
            assert forall|y: (u32, u32)| seen_next.contains(y) implies (seen.contains(y) || y
                == x) by {
                let i = choose|i: int| 0 <= i < seen_next.len() && seen_next[i] == y;
                if i < seen.len() {
                    assert(seen[i] == y);
                }
            }
            assert forall|y: (u32, u32)| (seen.contains(y) || y == x) implies seen_next.contains(
                y,
            ) by {
                if seen.contains(y) {
                    let i = choose|i: int| 0 <= i < seen.len() && seen[i] == y;
                    assert(seen_next[i] == y);
                } else {
                    assert(seen_next[seen.len() as int] == y);
                }
            }
        }
        if p < out.len() && out[p].0 == x.0 && out[p].1 == x.1 {
            assert(before[p as int] == x);
            assert(before.contains(x));
            assert forall|y: (u32, u32)| out@.contains(y) <==> (before.contains(y) || y == x) by {}
        } else {
            out.insert(p, x);
            assert(out@ == before.insert(p as int, x));
            assert(forall|j: int| 0 <= j < p ==> out@[j] == before[j]);
            assert(out@[p as int] == x);
            assert(forall|j: int| p < j < out@.len() ==> out@[j] == before[j - 1]);
            assert(forall|j: int| p <= j < before.len() ==> resolution_before(x, before[j])) by {
                if p < before.len() {
                    assert(!resolution_before(before[p as int], x));
                    assert(before[p as int] != x);
                    assert(resolution_before(x, before[p as int]));
                    assert forall|j: int| p < j < before.len() implies resolution_before(
                        x,
                        before[j],
                    ) by {
                        assert(resolution_before(before[p as int], before[j]));
                    }
                }
            }
            assert(strictly_ascending(out@)) by {
                assert forall|i: int, j: int| 0 <= i < j < out@.len() implies resolution_before(
                    out@[i],
                    out@[j],
                ) by {
                    if j < p {
                        assert(resolution_before(before[i], before[j]));
                    } else if j == p {
                        assert(resolution_before(before[i], x));
                    } else if i < p {
                        assert(resolution_before(before[i], before[j - 1]));
                    } else if i == p {
                        assert(resolution_before(x, before[j - 1]));
                    } else {
                        assert(resolution_before(before[i - 1], before[j - 1]));
                    }
                }
            }
            assert forall|y: (u32, u32)| out@.contains(y) <==> (before.contains(y) || y == x) by {
                if out@.contains(y) {
                    let i = choose|i: int| 0 <= i < out@.len() && out@[i] == y;
                    if i < p {
                        assert(before[i] == y);
                    } else if i > p {
                        assert(before[i - 1] == y);
                    }
                }
                if before.contains(y) {
                    let i = choose|i: int| 0 <= i < before.len() && before[i] == y;
                    if i < p {
                        assert(out@[i] == y);
                    } else {
                        assert(out@[i + 1] == y);
                    }
                }
                if y == x {
                    assert(out@[p as int] == y);
                }
            }
        }
        assert forall|y: (u32, u32)| out@.contains(y) <==> seen_next.contains(y) by {
            assert(before.contains(y) <==> seen.contains(y));
            assert(seen_next.contains(y) <==> (seen.contains(y) || y == x));
            assert(out@.contains(y) <==> (before.contains(y) || y == x));
        }
        k += 1;
    }
    assert(formats@.take(formats.len() as int) =~= formats@);
    out
}

/// The preview source of a camera: the format that is asked of the camera,
/// the flag that its polling loop obeys and the queue that the loop fills.
pub struct WebcamCapture {
    pub camera_index: usize,
    pub resolution: (u32, u32),
    pub capturing: bool,
    pub queue: FrameQueue,
}

impl WebcamCapture {
    /// A source for the camera of the given position, at 640 by 480. It does
    /// not capture yet and its queue is empty.
    pub fn new(camera_index: usize) -> (source: WebcamCapture)
        ensures
            source.camera_index == camera_index,
            source.resolution == (640u32, 480u32),
            !source.capturing,
            source.queue.frames() == Seq::<CaptureFrameView>::empty(),
            source.queue.capacity() == FRAME_QUEUE_CAPACITY,
    {
        WebcamCapture {
            camera_index,
            resolution: (640, 480),
            capturing: false,
            queue: FrameQueue::new(),
        }
    }

    /// Lets the polling loop run. Returns whether a loop is to be spawned:
    /// none ran before.
    pub fn start(&mut self) -> (spawn: bool)
        ensures
            spawn == !old(self).capturing,
            final(self).capturing,
            final(self).camera_index == old(self).camera_index,
            final(self).resolution == old(self).resolution,
            final(self).queue == old(self).queue,
    {
        let spawn = !self.capturing;
        self.capturing = true;
        spawn
    }

    /// Tells the polling loop to leave, which releases the camera. Returns
    /// whether a loop is to be joined: one ran before.
    pub fn stop(&mut self) -> (join: bool)
        ensures
            join == old(self).capturing,
            !final(self).capturing,
            final(self).camera_index == old(self).camera_index,
            final(self).resolution == old(self).resolution,
            final(self).queue == old(self).queue,
    {
        let join = self.capturing;
        self.capturing = false;
        join
    }

    /// Whether the polling loop is let run.
    pub fn is_running(&self) -> (r: bool)
        ensures
            r == self.capturing,
    {
        self.capturing
    }

    /// Offers a captured frame to the preview without waiting. A stopped
    /// source drops it; a running one queues it where there is room and drops
    /// it where there is none.
    pub fn publish(&mut self, frame: CaptureFrame) -> (accepted: bool)
        ensures
            accepted == (old(self).capturing && old(self).queue.frames().len() < old(
                self,
            ).queue.capacity()),
            final(self).queue.frames() == if old(self).capturing {
                after_publish(old(self).queue.frames(), old(self).queue.capacity(), frame@)
            } else {
                old(self).queue.frames()
            },
            final(self).queue.capacity() == old(self).queue.capacity(),
            final(self).capturing == old(self).capturing,
            final(self).camera_index == old(self).camera_index,
            final(self).resolution == old(self).resolution,
    {
        if self.capturing {
            self.queue.publish(frame)
        } else {
            false
        }
    }

    /// Takes the oldest frame that waits for the preview, without waiting.
    pub fn get_latest_frame(&mut self) -> (frame: Option<CaptureFrame>)
        ensures
            final(self).queue.capacity() == old(self).queue.capacity(),
            final(self).capturing == old(self).capturing,
            final(self).camera_index == old(self).camera_index,
            final(self).resolution == old(self).resolution,
            match frame {
                Some(taken) => {
                    &&& old(self).queue.frames().len() > 0
                    &&& taken@ == old(self).queue.frames()[0]
                    &&& final(self).queue.frames() == old(self).queue.frames().drop_first()
                },
                None => old(self).queue.frames().len() == 0 && final(self).queue.frames() == old(
                    self,
                ).queue.frames(),
            },
    {
        self.queue.get_latest_frame()
    }

    /// Asks for another resolution from the next start on.
    pub fn set_resolution(&mut self, width: u32, height: u32)
        ensures
            final(self).resolution == (width, height),
            final(self).camera_index == old(self).camera_index,
            final(self).capturing == old(self).capturing,
            final(self).queue == old(self).queue,
    {
        self.resolution = (width, height);
    }

    /// The resolution that is asked for.
    pub fn get_resolution(&self) -> (resolution: (u32, u32))
        ensures
            resolution == self.resolution,
    {
        self.resolution
    }

    /// The resolutions to choose from: those of the formats of the open
    /// camera, each once and in rising order, or three common ones while no
    /// camera is open.
    pub fn get_available_resolutions(&self, formats: Option<Vec<(u32, u32)>>) -> (out: Vec<
        (u32, u32),
    >)
        ensures
            match formats {
                Some(list) => strictly_ascending(out@) && same_members(out@, list@),
                None => out@ == fallback_resolutions(),
            },
    {
        match formats {
            Some(list) => sorted_resolutions(&list),
            None => {
                let mut out: Vec<(u32, u32)> = Vec::new();
                out.push((640, 480));
                out.push((1280, 720));
                out.push((1920, 1080));
                assert(out@ =~= fallback_resolutions());
                out
            },
        }
    }
}

} // verus!
