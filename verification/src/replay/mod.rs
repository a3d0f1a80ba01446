//! Recording and playing back camera paths and input.
//!
//! Positions, rotations and timings are numbers the engine computes with
//! and this module only keeps: it holds each as the 32 bits of its IEEE 754
//! form.

use vstd::prelude::*;
use vstd::string::StringExecFns;

verus! {

/// Where the camera was in one frame.
#[derive(Debug, Clone)]
pub struct CameraPathFrame {
    pub frame: u32,
    /// The bits of x, y and z.
    pub position: [u32; 3],
    /// The bits of the quaternion's x, y, z and w.
    pub rotation: [u32; 4],
}

/// One input, with the frame it came in.
#[derive(Debug, Clone)]
pub struct InputRecord {
    pub frame: u32,
    pub input_type: InputType,
}

/// What kind of input came.
#[derive(Debug, Clone)]
pub enum InputType {
    KeyPress(String),
    KeyRelease(String),
    MouseButton { button: u8, pressed: bool },
    /// The bits of the motion along x and along y.
    MouseMotion { delta_x: u32, delta_y: u32 },
    GamepadButton { id: usize, button: u8, pressed: bool },
}

/// A camera path with the input that came along, as it is being recorded
/// or after.
#[derive(Debug, Clone)]
pub struct CameraPathRecording {
    pub frames: Vec<CameraPathFrame>,
    pub inputs: Vec<InputRecord>,
    pub recording: bool,
    pub current_frame: u32,
}

/// A recording as a value: what it holds, whether it runs, and the number
/// of the frame that comes next.
pub struct RecordingView {
    pub frames: Seq<CameraPathFrame>,
    pub inputs: Seq<InputRecord>,
    pub recording: bool,
    pub current_frame: u32,
}

impl View for CameraPathRecording {
    type V = RecordingView;

    open spec fn view(&self) -> RecordingView {
        RecordingView {
            frames: self.frames@,
            inputs: self.inputs@,
            recording: self.recording,
            current_frame: self.current_frame,
        }
    }
}

impl RecordingView {
    /// A recording that has just begun.
    pub open spec fn started() -> RecordingView {
        RecordingView {
            frames: Seq::empty(),
            inputs: Seq::empty(),
            recording: true,
            current_frame: 0,
        }
    }

    /// The recording, ended.
    pub open spec fn stopped(self) -> RecordingView {
        RecordingView { recording: false, ..self }
    }

    /// The recording after the camera's place was offered to it: while it
    /// runs, it takes the place under the current frame's number and moves
    /// on to the next frame.
    pub open spec fn with_camera_frame(self, position: [u32; 3], rotation: [u32; 4]) -> RecordingView {
        if self.recording {
            RecordingView {
                frames: self.frames.push(
                    CameraPathFrame { frame: self.current_frame, position, rotation },
                ),
                current_frame: (self.current_frame + 1) as u32,
                ..self
            }
        } else {
            self
        }
    }

    /// The recording after an input was offered to it: while it runs, it
    /// takes the input under the current frame's number.
    pub open spec fn with_input(self, input_type: InputType) -> RecordingView {
        if self.recording {
            RecordingView {
                inputs: self.inputs.push(InputRecord { frame: self.current_frame, input_type }),
                ..self
            }
        } else {
            self
        }
    }

    /// The recording after a frame's keys were offered to it: a press for
    /// each key that went down, then a release for each key that came up.
    pub open spec fn with_keys(self, pressed: Seq<String>, released: Seq<String>) -> RecordingView {
        if self.recording {
            RecordingView {
                inputs: self.inputs + key_inputs(self.current_frame, pressed, released),
                ..self
            }
        } else {
            self
        }
    }

    /// The recording after the toggle key was pressed, or was not: a
    /// running recording ends, and one that does not run starts afresh.
    pub open spec fn toggled(self, toggle: bool) -> RecordingView {
        if !toggle {
            self
        } else if self.recording {
            self.stopped()
        } else {
            Self::started()
        }
    }

    /// The recording after one frame of the recorder: first the toggle key,
    /// then the camera's place where there is a camera, then the keys.
    pub open spec fn after_frame(
        self,
        toggle: bool,
        camera: Option<([u32; 3], [u32; 4])>,
        pressed: Seq<String>,
        released: Seq<String>,
    ) -> RecordingView {
        let switched = self.toggled(toggle);
        let placed = match camera {
            Some((position, rotation)) => switched.with_camera_frame(position, rotation),
            None => switched,
        };
        placed.with_keys(pressed, released)
    }
}

/// The inputs that a frame's keys add to a recording: a press for each key
/// that went down, then a release for each key that came up.
pub open spec fn key_inputs(frame: u32, pressed: Seq<String>, released: Seq<String>) -> Seq<
    InputRecord,
> {
    Seq::new(
        pressed.len() + released.len(),
        |i: int|
            if i < pressed.len() {
                InputRecord { frame, input_type: InputType::KeyPress(pressed[i]) }
            } else {
                InputRecord {
                    frame,
                    input_type: InputType::KeyRelease(released[i - pressed.len()]),
                }
            },
    )
}

impl Default for CameraPathRecording {
    fn default() -> (r: Self)
        ensures
            r@ == RecordingView::started().stopped(),
    {
        CameraPathRecording {
            frames: Vec::new(),
            inputs: Vec::new(),
            recording: false,
            current_frame: 0,
        }
    }
}

impl CameraPathRecording {
    /// Starts a recording from frame zero. What was recorded before is
    /// dropped.
    pub fn start_recording(&mut self)
        ensures
            final(self)@ == RecordingView::started(),
    {
        self.recording = true;
        self.current_frame = 0;
        self.frames.clear();
        self.inputs.clear();
    }

    /// Ends the recording. What was recorded stays.
    pub fn stop_recording(&mut self)
        ensures
            final(self)@ == old(self)@.stopped(),
    {
        self.recording = false;
    }

    /// While recording: adds the camera's place under the current frame's
    /// number, and moves on to the next frame. Else nothing happens.
    pub fn record_camera_frame(&mut self, position: [u32; 3], rotation: [u32; 4])
        requires
            old(self).recording ==> old(self).current_frame < u32::MAX,
        ensures
            final(self)@ == old(self)@.with_camera_frame(position, rotation),
    {
        if self.recording {
            self.frames.push(CameraPathFrame { frame: self.current_frame, position, rotation });
            self.current_frame += 1;
        }
    }

    /// While recording: adds the input under the current frame's number.
    /// Else nothing happens.
    pub fn record_input(&mut self, input_type: InputType)
        ensures
            final(self)@ == old(self)@.with_input(input_type),
    {
        if self.recording {
            self.inputs.push(InputRecord { frame: self.current_frame, input_type });
        }
    }
}

/// What the recorder asks of its caller after a frame.
#[derive(Debug, Clone, Copy, PartialEq, Eq, Structural)]
pub enum RecorderRequest {
    /// Nothing.
    Nothing,
    /// The recording has just ended: store it.
    Save,
    /// A recording has just begun.
    Announce,
}

/// One frame of the recorder.
///
/// The toggle key ends a running recording, which is then to be saved, or
/// starts a new one. A recording that runs after that takes the camera's
/// place, where there is a camera, and then the keys that went down and
/// those that came up in this frame.
pub fn camera_recorder_system(
    recording: &mut CameraPathRecording,
    toggle: bool,
    camera: Option<([u32; 3], [u32; 4])>,
    just_pressed: &[String],
    just_released: &[String],
) -> (request: RecorderRequest)
    requires
        !toggle && old(recording).recording && camera is Some ==> old(recording).current_frame
            < u32::MAX,
    ensures
        request == if !toggle {
            RecorderRequest::Nothing
        } else if old(recording).recording {
            RecorderRequest::Save
        } else {
            RecorderRequest::Announce
        },
        final(recording)@ == old(recording)@.after_frame(
            toggle,
            camera,
            just_pressed@,
            just_released@,
        ),
{
    let mut request = RecorderRequest::Nothing;
    if toggle {
        if recording.recording {
            recording.stop_recording();
            request = RecorderRequest::Save;
        } else {
            recording.start_recording();
            request = RecorderRequest::Announce;
        }
    }
    if recording.recording {
        match camera {
            Some((position, rotation)) => {
                recording.record_camera_frame(position, rotation);
            },
            None => {},
        }
    }
    let ghost placed = recording@;
    if recording.recording {
        let mut i: usize = 0;
        assert(key_inputs(placed.current_frame, just_pressed@.take(0), Seq::<String>::empty())
            =~= Seq::<InputRecord>::empty());
        assert(placed.inputs + Seq::<InputRecord>::empty() =~= placed.inputs);
        while i < just_pressed.len()
            invariant
                i <= just_pressed@.len(),
                placed.recording,
                recording@ == placed.with_keys(just_pressed@.take(i as int), Seq::<String>::empty()),
            decreases just_pressed@.len() - i,
        {
            recording.record_input(InputType::KeyPress(just_pressed[i].clone()));
            assert(recording@.inputs =~= placed.inputs + key_inputs(
                placed.current_frame,
                just_pressed@.take(i as int + 1),
                Seq::<String>::empty(),
            ));
            i += 1;
        }
        assert(just_pressed@.take(just_pressed@.len() as int) =~= just_pressed@);
        let mut k: usize = 0;
        assert(just_released@.take(0) =~= Seq::<String>::empty());
        while k < just_released.len()
            invariant
                k <= just_released@.len(),
                placed.recording,
                recording@ == placed.with_keys(just_pressed@, just_released@.take(k as int)),
            decreases just_released@.len() - k,
        {
            recording.record_input(InputType::KeyRelease(just_released[k].clone()));
            assert(recording@.inputs =~= placed.inputs + key_inputs(
                placed.current_frame,
                just_pressed@,
                just_released@.take(k as int + 1),
            ));
            k += 1;
        }
        assert(just_released@.take(just_released@.len() as int) =~= just_released@);
    }
    request
}

/// A recording that is being played back.
#[derive(Debug, Clone)]
pub struct CameraPathPlayback {
    pub recording: CameraPathRecording,
    pub current_frame: u32,
    pub playing: bool,
}

/// The first frame in the list that has the given number, if there is one.
pub open spec fn first_frame(frames: Seq<CameraPathFrame>, number: u32) -> Option<CameraPathFrame>
    decreases frames.len(),
{
    if frames.len() == 0 {
        None
    } else if frames[0].frame == number {
        Some(frames[0])
    } else {
        first_frame(frames.drop_first(), number)
    }
}

/// The first frame in the list that has the given number.
fn find_frame(frames: &Vec<CameraPathFrame>, number: u32) -> (found: Option<&CameraPathFrame>)
    ensures
        match first_frame(frames@, number) {
            Some(frame) => found == Some(&frame),
            None => found is None,
        },
{
    let mut i: usize = 0;
    assert(frames@.subrange(0, frames@.len() as int) =~= frames@);
    while i < frames.len()
        invariant
            i <= frames@.len(),
            first_frame(frames@, number) == first_frame(
                frames@.subrange(i as int, frames@.len() as int),
                number,
            ),
        decreases frames@.len() - i,
    {
        let ghost rest = frames@.subrange(i as int, frames@.len() as int);
        assert(rest[0] == frames@[i as int]);
        if frames[i].frame == number {
            return Some(&frames[i]);
        }
        assert(rest.drop_first() =~= frames@.subrange(i as int + 1, frames@.len() as int));
        i += 1;
    }
    None
}

/// A playback as a value: the frames it plays, the number after the last
/// of them, the number of the frame it is at, and whether it runs.
pub struct PlaybackView {
    pub frames: Seq<CameraPathFrame>,
    pub end: u32,
    pub current_frame: u32,
    pub playing: bool,
}

impl View for CameraPathPlayback {
    type V = PlaybackView;

    open spec fn view(&self) -> PlaybackView {
        PlaybackView {
            frames: self.recording.frames@,
            end: self.recording.current_frame,
            current_frame: self.current_frame,
            playing: self.playing,
        }
    }
}

impl PlaybackView {
    /// The playback, started from frame zero.
    pub open spec fn started(self) -> PlaybackView {
        PlaybackView { playing: true, current_frame: 0, ..self }
    }

    /// The playback, ended where it is.
    pub open spec fn stopped(self) -> PlaybackView {
        PlaybackView { playing: false, ..self }
    }

    /// The playback after the toggle key was pressed, or was not.
    pub open spec fn toggled(self, toggle: bool) -> PlaybackView {
        if !toggle {
            self
        } else if self.playing {
            self.stopped()
        } else {
            self.started()
        }
    }

    /// The frame the playback shows: while it runs, the first of its
    /// frames that has the current number.
    pub open spec fn shown(self) -> Option<CameraPathFrame> {
        if self.playing {
            first_frame(self.frames, self.current_frame)
        } else {
            None
        }
    }

    /// The playback, one frame on: while it runs, the number grows by one,
    /// and the playback ends when the number reaches the end.
    pub open spec fn advanced(self) -> PlaybackView {
        if self.playing {
            PlaybackView {
                current_frame: (self.current_frame + 1) as u32,
                playing: self.current_frame + 1 < self.end,
                ..self
            }
        } else {
            self
        }
    }
}

impl CameraPathPlayback {
    /// A playback of the recording that does not run yet.
    pub fn new(recording: CameraPathRecording) -> (playback: Self)
        ensures
            playback.recording == recording,
            playback.current_frame == 0,
            !playback.playing,
    {
        CameraPathPlayback { recording, current_frame: 0, playing: false }
    }

    /// Starts the playback from frame zero.
    pub fn start(&mut self)
        ensures
            final(self)@ == old(self)@.started(),
            final(self).recording == old(self).recording,
    {
        self.playing = true;
        self.current_frame = 0;
    }

    /// Ends the playback where it is.
    pub fn stop(&mut self)
        ensures
            final(self)@ == old(self)@.stopped(),
            final(self).recording == old(self).recording,
    {
        self.playing = false;
    }

    /// While playing: the first recorded frame that has the current
    /// frame's number, if there is one. Else nothing.
    pub fn get_current_frame(&self) -> (found: Option<&CameraPathFrame>)
        ensures
            match self@.shown() {
                Some(frame) => found == Some(&frame),
                None => found is None,
            },
    {
        if self.playing {
            find_frame(&self.recording.frames, self.current_frame)
        } else {
            None
        }
    }

    /// While playing: moves on to the next frame, and ends the playback
    /// when the recording has no frame of that number or beyond. Else
    /// nothing happens.
    pub fn advance_frame(&mut self)
        requires
            old(self).playing ==> old(self).current_frame < u32::MAX,
        ensures
            final(self)@ == old(self)@.advanced(),
            final(self).recording == old(self).recording,
    {
        if self.playing {
            self.current_frame += 1;
            if self.current_frame >= self.recording.current_frame {
                self.stop();
            }
        }
    }
}

/// One frame of the playback.
///
/// The toggle key ends a running playback, or starts one from frame zero.
/// A playback that runs after that hands out the place of the camera in its
/// current frame, where the recording has one, and moves on to the next
/// frame.
pub fn camera_playback_system(playback: &mut CameraPathPlayback, toggle: bool) -> (place: Option<
    ([u32; 3], [u32; 4]),
>)
    requires
        !toggle && old(playback).playing ==> old(playback).current_frame < u32::MAX,
    ensures
        final(playback).recording == old(playback).recording,
        final(playback)@ == old(playback)@.toggled(toggle).advanced(),
        place == match old(playback)@.toggled(toggle).shown() {
            Some(frame) => Some((frame.position, frame.rotation)),
            None => None,
        },
{
    if toggle {
        if playback.playing {
            playback.stop();
        } else {
            playback.start();
        }
    }
    let place = match playback.get_current_frame() {
        Some(frame) => Some((frame.position, frame.rotation)),
        None => None,
    };
    playback.advance_frame();
    place
}

/// The camera's place in one frame of a replay.
#[derive(Debug, Clone)]
pub struct CameraFrame {
    pub frame: u32,
    /// The bits of x, y and z.
    pub position: [u32; 3],
    /// The bits of the quaternion's x, y, z and w.
    pub rotation: [u32; 4],
}

/// An input event of a replay, with the frame it came in.
#[derive(Debug, Clone)]
pub struct InputEvent {
    pub frame: u32,
    pub event_type: String,
    pub data: String,
}

/// The time one frame of a replay took.
#[derive(Debug, Clone)]
pub struct FrameTiming {
    pub frame: u32,
    /// The bits of the milliseconds on the GPU.
    pub gpu_ms: u32,
    /// The bits of the milliseconds on the CPU.
    pub cpu_ms: u32,
}

/// A named replay: camera frames, input events and timings.
#[derive(Debug)]
pub struct Replay {
    pub name: String,
    pub total_frames: u32,
    pub camera_frames: Vec<CameraFrame>,
    pub input_events: Vec<InputEvent>,
    pub gpu_timings: Vec<FrameTiming>,
}

impl Replay {
    /// An empty replay of the given name.
    pub fn new(name: &str) -> (replay: Self)
        ensures
            replay.name@ == name@,
            replay.total_frames == 0,
            replay.camera_frames@.len() == 0,
            replay.input_events@.len() == 0,
            replay.gpu_timings@.len() == 0,
    {
        Replay {
            name: String::from_str(name),
            total_frames: 0,
            camera_frames: Vec::new(),
            input_events: Vec::new(),
            gpu_timings: Vec::new(),
        }
    }

    /// Adds the camera's place in a frame. The replay's number of frames
    /// becomes the frame's number where that is larger.
    pub fn add_camera_frame(&mut self, frame: u32, position: [u32; 3], rotation: [u32; 4])
        ensures
            final(self).camera_frames@ == old(self).camera_frames@.push(
                CameraFrame { frame, position, rotation },
            ),
            final(self).total_frames == if old(self).total_frames >= frame {
                old(self).total_frames
            } else {
                frame
            },
            final(self).name == old(self).name,
            final(self).input_events == old(self).input_events,
            final(self).gpu_timings == old(self).gpu_timings,
    {
        self.camera_frames.push(CameraFrame { frame, position, rotation });
        if frame > self.total_frames {
            self.total_frames = frame;
        }
    }

    /// Adds an input event.
    pub fn add_input_event(&mut self, frame: u32, event_type: &str, data: &str)
        ensures
            final(self).input_events@.len() == old(self).input_events@.len() + 1,
            final(self).input_events@.drop_last() == old(self).input_events@,
            final(self).input_events@.last().frame == frame,
            final(self).input_events@.last().event_type@ == event_type@,
            final(self).input_events@.last().data@ == data@,
            final(self).name == old(self).name,
            final(self).total_frames == old(self).total_frames,
            final(self).camera_frames == old(self).camera_frames,
            final(self).gpu_timings == old(self).gpu_timings,
    {
        self.input_events.push(
            InputEvent {
                frame,
                event_type: String::from_str(event_type),
                data: String::from_str(data),
            },
        );
        assert(self.input_events@.drop_last() =~= old(self).input_events@);
    }

    /// Adds the time a frame took.
    pub fn add_timing(&mut self, frame: u32, gpu_ms: u32, cpu_ms: u32)
        ensures
            final(self).gpu_timings@ == old(self).gpu_timings@.push(
                FrameTiming { frame, gpu_ms, cpu_ms },
            ),
            final(self).name == old(self).name,
            final(self).total_frames == old(self).total_frames,
            final(self).camera_frames == old(self).camera_frames,
            final(self).input_events == old(self).input_events,
    {
        self.gpu_timings.push(FrameTiming { frame, gpu_ms, cpu_ms });
    }

}

/// Records the camera's place in a frame, where there is a camera.
pub fn record_camera_path(replay: &mut Replay, frame: u32, camera: Option<([u32; 3], [u32; 4])>)
    ensures
        final(replay).name == old(replay).name,
        final(replay).input_events == old(replay).input_events,
        final(replay).gpu_timings == old(replay).gpu_timings,
        match camera {
            Some((position, rotation)) => {
                &&& final(replay).camera_frames@ == old(replay).camera_frames@.push(
                    CameraFrame { frame, position, rotation },
                )
                &&& final(replay).total_frames == if old(replay).total_frames >= frame {
                    old(replay).total_frames
                } else {
                    frame
                }
            },
            None => {
                &&& final(replay).camera_frames == old(replay).camera_frames
                &&& final(replay).total_frames == old(replay).total_frames
            },
        },
{
    match camera {
        Some((position, rotation)) => {
            replay.add_camera_frame(frame, position, rotation);
        },
        None => {},
    }
}

/// The place of the camera in the given frame: that of the first camera
/// frame of this number, if there is one.
pub fn playback_camera_path(replay: &Replay, frame: u32) -> (place: Option<([u32; 3], [u32; 4])>)
    ensures
        place == match first_camera_frame(replay.camera_frames@, frame) {
            Some(found) => Some((found.position, found.rotation)),
            None => None,
        },
{
    let mut i: usize = 0;
    assert(replay.camera_frames@.subrange(0, replay.camera_frames@.len() as int)
        =~= replay.camera_frames@);
    while i < replay.camera_frames.len()
        invariant
            i <= replay.camera_frames@.len(),
            first_camera_frame(replay.camera_frames@, frame) == first_camera_frame(
                replay.camera_frames@.subrange(i as int, replay.camera_frames@.len() as int),
                frame,
            ),
        decreases replay.camera_frames@.len() - i,
    {
        let ghost rest = replay.camera_frames@.subrange(
            i as int,
            replay.camera_frames@.len() as int,
        );
        assert(rest[0] == replay.camera_frames@[i as int]);
        if replay.camera_frames[i].frame == frame {
            return Some((replay.camera_frames[i].position, replay.camera_frames[i].rotation));
        }
        assert(rest.drop_first() =~= replay.camera_frames@.subrange(
            i as int + 1,
            replay.camera_frames@.len() as int,
        ));
        i += 1;
    }
    None
}

/// The first camera frame in the list that has the given number, if there
/// is one.
pub open spec fn first_camera_frame(frames: Seq<CameraFrame>, number: u32) -> Option<CameraFrame>
    decreases frames.len(),
{
    if frames.len() == 0 {
        None
    } else if frames[0].frame == number {
        Some(frames[0])
    } else {
        first_camera_frame(frames.drop_first(), number)
    }
}

} // verus!
