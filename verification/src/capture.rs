//! Preview frames and the bounded queue between a capture source and the
//! preview: a source offers each frame without waiting, and a frame that
//! finds the queue full is dropped.

use vstd::prelude::*;

verus! {

/// One pixel: red, green, blue and opacity.
#[derive(Debug, Clone, Copy, PartialEq, Eq, Structural)]
pub struct Rgba {
    pub r: u8,
    pub g: u8,
    pub b: u8,
    pub a: u8,
}

/// A decoded image: its pixels row by row, the top row first.
#[derive(Debug, Clone)]
pub struct CaptureFrame {
    pub width: u32,
    pub height: u32,
    pub pixels: Vec<Rgba>,
}

/// The mathematical content of [`CaptureFrame`].
pub ghost struct CaptureFrameView {
    pub width: nat,
    pub height: nat,
    pub pixels: Seq<Rgba>,
}

impl View for CaptureFrame {
    type V = CaptureFrameView;

    open spec fn view(&self) -> CaptureFrameView {
        CaptureFrameView {
            width: self.width as nat,
            height: self.height as nat,
            pixels: self.pixels@,
        }
    }
}

impl CaptureFrame {
    /// A frame holds one pixel for each position.
    pub open spec fn well_formed(&self) -> bool {
        self.pixels@.len() == self.width * self.height
    }

    /// Whether this frame holds one pixel for each position.
    pub fn is_well_formed(&self) -> (r: bool)
        ensures
            r == self.well_formed(),
    {
        assert(self.width * self.height <= u64::MAX) by (nonlinear_arith)
            requires
                self.width <= u32::MAX,
                self.height <= u32::MAX,
        ;
        self.pixels.len() as u64 == self.width as u64 * self.height as u64
    }

    /// A frame of one colour.
    pub fn filled(width: u32, height: u32, color: Rgba) -> (frame: CaptureFrame)
        requires
            width * height <= usize::MAX,
        ensures
            frame.well_formed(),
            frame.width == width,
            frame.height == height,
            forall|i: int| 0 <= i < frame.pixels@.len() ==> frame.pixels@[i] == color,
    {
        assert(width * height <= u64::MAX) by (nonlinear_arith)
            requires
                width <= u32::MAX,
                height <= u32::MAX,
        ;
        let count = (width as u64 * height as u64) as usize;
        let mut pixels: Vec<Rgba> = Vec::new();
        let mut i: usize = 0;
        while i < count
            invariant
                i <= count,
                pixels@.len() == i,
                forall|k: int| 0 <= k < i ==> pixels@[k] == color,
            decreases count - i,
        {
            pixels.push(color);
            i += 1;
        }
        CaptureFrame { width, height, pixels }
    }
}

/// Declares `crossbeam::channel::Sender`, the sending end of a channel, as
/// a type whose inside is not looked at.
#[verifier::external_type_specification]
#[verifier::external_body]
#[verifier::reject_recursive_types(T)]
pub struct ExSender<T>(crossbeam::channel::Sender<T>);

/// Declares `crossbeam::channel::Receiver`, the receiving end of a channel,
/// as a type whose inside is not looked at.
#[verifier::external_type_specification]
#[verifier::external_body]
#[verifier::reject_recursive_types(T)]
pub struct ExReceiver<T>(crossbeam::channel::Receiver<T>);

/// The frames that wait in a channel of `crossbeam::channel`, the oldest
/// first.
pub uninterp spec fn channel_frames(receiver: crossbeam::channel::Receiver<CaptureFrame>) -> Seq<
    CaptureFrameView,
>;

/// The number of frames that a channel of `crossbeam::channel` was made to
/// hold.
pub uninterp spec fn channel_limit(receiver: crossbeam::channel::Receiver<CaptureFrame>) -> nat;

/// How many frames the queue of a capture source holds.
pub const FRAME_QUEUE_CAPACITY: usize = 2;

/// The largest capacity that a queue is made with.
pub const MAX_QUEUE_CAPACITY: usize = 1024;

/// The queue between a capture source and the preview. It owns both ends of
/// its channel and hands out neither, so nothing else touches the channel.
pub struct FrameQueue {
    sender: crossbeam::channel::Sender<CaptureFrame>,
    receiver: crossbeam::channel::Receiver<CaptureFrame>,
}

/// Calls `crossbeam::channel::bounded`, which makes a channel of the given
/// capacity; the new channel is empty. A capacity of zero would make a
/// rendezvous channel and a huge one panics, so both are left out.
#[verifier::external_body]
fn open_channel(limit: usize) -> (queue: FrameQueue)
    requires
        0 < limit <= MAX_QUEUE_CAPACITY,
    ensures
        channel_frames(queue.receiver) == Seq::<CaptureFrameView>::empty(),
        channel_limit(queue.receiver) == limit,
{
    let (sender, receiver) = crossbeam::channel::bounded(limit);
    FrameQueue { sender, receiver }
}

/// Calls `Sender::try_send`, which never waits: a channel with room takes the
/// frame at its end, a full one hands it back and stays as it is. The
/// receiving end is alive, so the channel is never disconnected.
#[verifier::external_body]
fn channel_offer(queue: &mut FrameQueue, frame: CaptureFrame) -> (accepted: bool)
    ensures
        accepted == (channel_frames(old(queue).receiver).len() < channel_limit(
            old(queue).receiver,
        )),
        channel_frames(final(queue).receiver) == if accepted {
            channel_frames(old(queue).receiver).push(frame@)
        } else {
            channel_frames(old(queue).receiver)
        },
        channel_limit(final(queue).receiver) == channel_limit(old(queue).receiver),
{
    queue.sender.try_send(frame).is_ok()
}

/// Calls `Receiver::try_recv`, which never waits: it takes the oldest frame
/// out of the channel, or finds the channel empty and leaves it so.
#[verifier::external_body]
fn channel_take(queue: &mut FrameQueue) -> (frame: Option<CaptureFrame>)
    ensures
        match frame {
            Some(taken) => {
                &&& channel_frames(old(queue).receiver).len() > 0
                &&& taken@ == channel_frames(old(queue).receiver)[0]
                &&& channel_frames(final(queue).receiver) == channel_frames(
                    old(queue).receiver,
                ).drop_first()
            },
            None => {
                &&& channel_frames(old(queue).receiver).len() == 0
                &&& channel_frames(final(queue).receiver) == channel_frames(old(queue).receiver)
            },
        },
        channel_limit(final(queue).receiver) == channel_limit(old(queue).receiver),
{
    queue.receiver.try_recv().ok()
}

/// A queue after a frame was offered: the frame stands at the end where there
/// was room, and is dropped where there was none.
pub open spec fn after_publish(
    frames: Seq<CaptureFrameView>,
    capacity: nat,
    frame: CaptureFrameView,
) -> Seq<CaptureFrameView> {
    if frames.len() < capacity {
        frames.push(frame)
    } else {
        frames
    }
}

/// A queue after a series of frames was offered, one after the other, with
/// none taken in between.
pub open spec fn after_publishing(
    frames: Seq<CaptureFrameView>,
    capacity: nat,
    offered: Seq<CaptureFrameView>,
) -> Seq<CaptureFrameView>
    decreases offered.len(),
{
    if offered.len() == 0 {
        frames
    } else {
        after_publishing(after_publish(frames, capacity, offered[0]), capacity, offered.drop_first())
    }
}

/// Whatever is offered to a queue that nobody polls, the queue keeps what it
/// held and, of the offered frames, the earliest ones up to its capacity:
/// every later frame is dropped. An empty queue that is offered more frames
/// than it holds keeps exactly the first of them.
pub proof fn unpolled_queue_keeps_first_frames(
    frames: Seq<CaptureFrameView>,
    capacity: nat,
    offered: Seq<CaptureFrameView>,
)
    requires
        frames.len() <= capacity,
    ensures
        after_publishing(frames, capacity, offered) == (frames + offered).take(
            if frames.len() + offered.len() < capacity {
                (frames.len() + offered.len()) as int
            } else {
                capacity as int
            },
        ),
        frames.len() == 0 && offered.len() >= capacity ==> after_publishing(
            frames,
            capacity,
            offered,
        ) == offered.take(capacity as int),
    decreases offered.len(),
{
    if offered.len() == 0 {
        assert((frames + offered).take(frames.len() as int) =~= frames);
    } else {
        let next = after_publish(frames, capacity, offered[0]);
        unpolled_queue_keeps_first_frames(next, capacity, offered.drop_first());
        let keep = if frames.len() + offered.len() < capacity {
            (frames.len() + offered.len()) as int
        } else {
            capacity as int
        };
        assert(after_publishing(frames, capacity, offered) =~= (frames + offered).take(keep));
    }
    if frames.len() == 0 && offered.len() >= capacity {
        assert((frames + offered) =~= offered);
    }
}

impl FrameQueue {
    /// The frames that wait, the oldest first.
    pub closed spec fn frames(&self) -> Seq<CaptureFrameView> {
        channel_frames(self.receiver)
    }

    /// The number of frames that the queue holds at most.
    pub closed spec fn capacity(&self) -> nat {
        channel_limit(self.receiver)
    }

    /// A queue never holds more than its capacity.
    pub open spec fn well_formed(&self) -> bool {
        self.frames().len() <= self.capacity()
    }

    /// The empty queue of a capture source: it holds two frames.
    pub fn new() -> (queue: FrameQueue)
        ensures
            queue.frames() == Seq::<CaptureFrameView>::empty(),
            queue.capacity() == FRAME_QUEUE_CAPACITY,
            queue.well_formed(),
    {
        open_channel(FRAME_QUEUE_CAPACITY)
    }

    /// An empty queue of the given capacity, or `None` where the capacity is
    /// zero or above the largest that is offered.
    pub fn with_capacity(capacity: usize) -> (r: Option<FrameQueue>)
        ensures
            r is Some <==> 0 < capacity <= MAX_QUEUE_CAPACITY,
            r is Some ==> {
                &&& r->Some_0.frames() == Seq::<CaptureFrameView>::empty()
                &&& r->Some_0.capacity() == capacity
                &&& r->Some_0.well_formed()
            },
    {
        if 0 < capacity && capacity <= MAX_QUEUE_CAPACITY {
            Some(open_channel(capacity))
        } else {
            None
        }
    }

    /// Offers a frame without waiting. A queue with room takes it at its
    /// end; a full queue drops it and stays as it is. Returns whether the
    /// frame was taken.
    pub fn publish(&mut self, frame: CaptureFrame) -> (accepted: bool)
        ensures
            old(self).well_formed() ==> final(self).well_formed(),
            accepted == (old(self).frames().len() < old(self).capacity()),
            final(self).frames() == after_publish(old(self).frames(), old(self).capacity(), frame@),
            final(self).capacity() == old(self).capacity(),
    {
        channel_offer(self, frame)
    }

    /// Takes the oldest waiting frame without waiting, or returns `None`
    /// where no frame waits.
    pub fn get_latest_frame(&mut self) -> (frame: Option<CaptureFrame>)
        ensures
            old(self).well_formed() ==> final(self).well_formed(),
            final(self).capacity() == old(self).capacity(),
            match frame {
                Some(taken) => {
                    &&& old(self).frames().len() > 0
                    &&& taken@ == old(self).frames()[0]
                    &&& final(self).frames() == old(self).frames().drop_first()
                },
                None => old(self).frames().len() == 0 && final(self).frames() == old(
                    self,
                ).frames(),
            },
    {
        channel_take(self)
    }
}

/// The interval between two captures of a source, in milliseconds: about
/// thirty frames a second.
pub const CAPTURE_INTERVAL_MS: u64 = 33;

/// How long a source rests after a capture that failed, in milliseconds.
pub const CAPTURE_BACKOFF_MS: u64 = 100;

/// What the polling loop of a capture source does next.
#[derive(Debug, Clone, Copy, PartialEq, Eq, Structural)]
pub enum CaptureStep {
    /// The source was stopped: release the device and leave the loop.
    Exit,
    /// Acquire a frame and offer it.
    Capture,
    /// Rest for a millisecond and look again.
    Rest,
}

/// The next step of a polling loop: a stopped source leaves; a running one
/// captures once the interval has passed since the last capture.
pub open spec fn capture_step(capturing: bool, interval_ms: u64, since_capture_ms: u64) -> CaptureStep {
    if !capturing {
        CaptureStep::Exit
    } else if since_capture_ms >= interval_ms {
        CaptureStep::Capture
    } else {
        CaptureStep::Rest
    }
}

/// The preview source of a display: the flag that its polling loop obeys and
/// the queue that the loop fills.
pub struct ScreenCapture {
    pub screen_index: usize,
    pub capturing: bool,
    pub capture_interval_ms: u64,
    pub queue: FrameQueue,
}

impl ScreenCapture {
    /// A source for the display of the given position. It does not capture
    /// yet and its queue is empty.
    pub fn new(screen_index: usize) -> (source: ScreenCapture)
        ensures
            source.screen_index == screen_index,
            !source.capturing,
            source.capture_interval_ms == CAPTURE_INTERVAL_MS,
            source.queue.frames() == Seq::<CaptureFrameView>::empty(),
            source.queue.capacity() == FRAME_QUEUE_CAPACITY,
    {
        ScreenCapture {
            screen_index,
            capturing: false,
            capture_interval_ms: CAPTURE_INTERVAL_MS,
            queue: FrameQueue::new(),
        }
    }

    /// Lets the polling loop run. Returns whether a loop is to be spawned:
    /// none ran before.
    pub fn start(&mut self) -> (spawn: bool)
        ensures
            spawn == !old(self).capturing,
            final(self).capturing,
            final(self).screen_index == old(self).screen_index,
            final(self).capture_interval_ms == old(self).capture_interval_ms,
            final(self).queue == old(self).queue,
    {
        let spawn = !self.capturing;
        self.capturing = true;
        spawn
    }

    /// Tells the polling loop to leave. Returns whether a loop is to be
    /// joined: one ran before.
    pub fn stop(&mut self) -> (join: bool)
        ensures
            join == old(self).capturing,
            !final(self).capturing,
            final(self).screen_index == old(self).screen_index,
            final(self).capture_interval_ms == old(self).capture_interval_ms,
            final(self).queue == old(self).queue,
    {
        let join = self.capturing;
        self.capturing = false;
        join
    }

    /// Whether the polling loop is let run.
    pub fn is_running(&self) -> (r: bool)
        ensures
            r == self.capturing,
    {
        self.capturing
    }

    /// The next step of the polling loop, given the time since its last
    /// capture.
    pub fn next_step(&self, since_capture_ms: u64) -> (step: CaptureStep)
        ensures
            step == capture_step(self.capturing, self.capture_interval_ms, since_capture_ms),
    {
        if !self.capturing {
            CaptureStep::Exit
        } else if since_capture_ms >= self.capture_interval_ms {
            CaptureStep::Capture
        } else {
            CaptureStep::Rest
        }
    }

    /// Offers a captured frame to the preview without waiting. A stopped
    /// source drops it; a running one queues it where there is room and drops
    /// it where there is none.
    pub fn publish(&mut self, frame: CaptureFrame) -> (accepted: bool)
        ensures
            accepted == (old(self).capturing && old(self).queue.frames().len() < old(
                self,
            ).queue.capacity()),
            final(self).queue.frames() == if old(self).capturing {
                after_publish(old(self).queue.frames(), old(self).queue.capacity(), frame@)
            } else {
                old(self).queue.frames()
            },
            final(self).queue.capacity() == old(self).queue.capacity(),
            final(self).capturing == old(self).capturing,
            final(self).screen_index == old(self).screen_index,
            final(self).capture_interval_ms == old(self).capture_interval_ms,
    {
        if self.capturing {
            self.queue.publish(frame)
        } else {
            false
        }
    }

    /// Takes the oldest frame that waits for the preview, without waiting.
    pub fn get_latest_frame(&mut self) -> (frame: Option<CaptureFrame>)
        ensures
            final(self).queue.capacity() == old(self).queue.capacity(),
            final(self).capturing == old(self).capturing,
            final(self).screen_index == old(self).screen_index,
            final(self).capture_interval_ms == old(self).capture_interval_ms,
            match frame {
                Some(taken) => {
                    &&& old(self).queue.frames().len() > 0
                    &&& taken@ == old(self).queue.frames()[0]
                    &&& final(self).queue.frames() == old(self).queue.frames().drop_first()
                },
                None => old(self).queue.frames().len() == 0 && final(self).queue.frames() == old(
                    self,
                ).queue.frames(),
            },
    {
        self.queue.get_latest_frame()
    }
}

/// How long the polling loop rests after an attempt to capture, beyond its
/// cadence: not at all after a frame, the backoff after a failure. A failure
/// never ends the loop.
pub fn rest_after_capture(captured: bool) -> (ms: u64)
    ensures
        ms == (if captured {
            0
        } else {
            CAPTURE_BACKOFF_MS
        }),
{
    if captured {
        0
    } else {
        CAPTURE_BACKOFF_MS
    }
}

} // verus!
