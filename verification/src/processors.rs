//! The three task processors.
//!
//! Each processor shares one engine and differs only in its simulated
//! compute loop and output naming. The compute loop runs a fixed number of
//! steps, reports progress in thousandths, and polls a cancellation step:
//! the driver sets it when the cancel flag was raised, and the processor
//! then stops cooperatively. The pauses between steps belong to the driver.

use crate::media::meta_get;
use crate::task::{
    clamp_progress, same_identity, stamps_preserved, Task, TaskStatus, PROGRESS_SCALE,
};
use vstd::prelude::*;
use vstd::string::StringExecFns;

verus! {

/// Run `steps + 1` polls of the cancel step (`cancel_at`), reporting
/// progress `i * PROGRESS_SCALE / steps` at each step `i`. Stops with the
/// cancellation error as soon as the cancel step is reached.
fn run_simulation(task: &mut Task, steps: u32, cancel_at: Option<u32>, now: i64) -> (r: Result<
    (),
    String,
>)
    requires
        1 <= steps <= 100,
        old(task).progress <= PROGRESS_SCALE,
    ensures
        same_identity(*old(task), *final(task)),
        stamps_preserved(*old(task), *final(task)),
        final(task).retry_count == old(task).retry_count,
        final(task).error == old(task).error,
        final(task).output_path == old(task).output_path,
        final(task).progress <= PROGRESS_SCALE,
        final(task).started_at == old(task).started_at,
        match r {
            Ok(()) => {
                &&& (cancel_at matches Some(k) ==> k > steps)
                &&& final(task).status == old(task).status
                &&& final(task).progress == PROGRESS_SCALE
                &&& final(task).updated_at == now
                &&& final(task).completed_at == old(task).completed_at
            },
            Err(m) => {
                &&& (cancel_at matches Some(k) && k <= steps)
                &&& final(task).status == TaskStatus::Cancelled
                &&& final(task).completed_at is Some
                &&& final(task).updated_at == now
                &&& m@ == "Task cancelled"@
            },
        },
{
    let mut i: u32 = 0;
    while i <= steps
        invariant
            1 <= steps <= 100,
            i <= steps + 1,
            same_identity(*old(task), *task),
            stamps_preserved(*old(task), *task),
            task.retry_count == old(task).retry_count,
            task.error == old(task).error,
            task.output_path == old(task).output_path,
            task.status == old(task).status,
            task.started_at == old(task).started_at,
            task.completed_at == old(task).completed_at,
            cancel_at matches Some(k) ==> i <= k,
            i == 0 ==> task.progress == old(task).progress,
            i > 0 ==> task.progress == clamp_progress(
                ((i - 1) * (PROGRESS_SCALE as int)) / (steps as int),
            ) && task.updated_at == now,
            task.progress <= PROGRESS_SCALE,
        decreases steps + 1 - i,
    {
        if let Some(k) = cancel_at {
            if i == k {
                task.update_status(TaskStatus::Cancelled, now);
                return Err("Task cancelled".to_owned());
            }
        }
        let p = i * PROGRESS_SCALE / steps;
        task.update_progress(p as i64, now);
        i = i + 1;
    }
    proof {
        assert(((steps as int) * (PROGRESS_SCALE as int)) / (steps as int) == PROGRESS_SCALE
            as int) by (nonlinear_arith)
            requires
                1 <= steps,
                PROGRESS_SCALE == 1000,
        ;
    }
    Ok(())
}

/// A processor: specialised to one task type, it moves a dequeued task
/// through `Processing` to `Completed`, or to `Cancelled` when the cancel
/// step is reached first.
pub trait TaskProcessor {
    /// Where the output for `t` is written.
    spec fn spec_output_path(&self, t: Task) -> Seq<char>;

    /// The number of steps of the simulated compute loop.
    spec fn spec_steps(&self) -> u32;

    /// The number of steps, for the driver that paces the compute loop.
    fn steps(&self) -> (r: u32)
        ensures
            r == self.spec_steps(),
    ;

    /// The output path depends only on the task's id and media.
    proof fn output_path_congruence(&self, a: Task, b: Task)
        requires
            a.id == b.id,
            crate::media::media_like(a.media, b.media),
        ensures
            self.spec_output_path(a) == self.spec_output_path(b),
    ;

    fn process(&self, task: &mut Task, cancel_at: Option<u32>, now: i64) -> (r: Result<
        (),
        String,
    >)
        requires
            old(task).progress <= PROGRESS_SCALE,
        ensures
            same_identity(*old(task), *final(task)),
            stamps_preserved(*old(task), *final(task)),
            final(task).retry_count == old(task).retry_count,
            final(task).error == old(task).error,
            final(task).progress <= PROGRESS_SCALE,
            final(task).started_at is Some,
            match r {
                Ok(()) => {
                    &&& (cancel_at matches Some(k) ==> k > self.spec_steps())
                    &&& final(task).status == TaskStatus::Completed
                    &&& (final(task).output_path matches Some(p) && p@ == self.spec_output_path(
                        *old(task),
                    ))
                    &&& final(task).progress == PROGRESS_SCALE
                    &&& final(task).completed_at is Some
                },
                Err(m) => {
                    &&& (cancel_at matches Some(k) && k <= self.spec_steps())
                    &&& final(task).status == TaskStatus::Cancelled
                    &&& final(task).completed_at is Some
                    &&& final(task).output_path == old(task).output_path
                    &&& m@ == "Task cancelled"@
                },
            },
    ;
}

pub struct VideoProcessor {
    output_dir: String,
}

impl VideoProcessor {
    pub fn new(output_dir: String) -> (p: VideoProcessor)
        ensures
            p.spec_dir() == output_dir@,
    {
        VideoProcessor { output_dir }
    }
}

impl VideoProcessor {
    /// The directory outputs are written under.
    pub closed spec fn spec_dir(&self) -> Seq<char> {
        self.output_dir@
    }
}

impl TaskProcessor for VideoProcessor {
    open spec fn spec_output_path(&self, t: Task) -> Seq<char> {
        self.spec_dir() + "/"@ + t.id@ + "_compressed.mp4"@
    }

    open spec fn spec_steps(&self) -> u32 {
        100
    }

    fn steps(&self) -> u32 {
        100
    }

    proof fn output_path_congruence(&self, a: Task, b: Task) {
    }

    fn process(&self, task: &mut Task, cancel_at: Option<u32>, now: i64) -> (r: Result<
        (),
        String,
    >) {
        task.update_status(TaskStatus::Processing, now);
        let mut path = self.output_dir.clone();
        path.append("/");
        path.append(task.id.as_str());
        path.append("_compressed.mp4");
        match simulate_video_processing(task, cancel_at, now) {
            Err(m) => Err(m),
            Ok(()) => {
                task.output_path = Some(path);
                task.update_status(TaskStatus::Completed, now);
                Ok(())
            }
        }
    }
}

/// The video compute loop: 100 steps.
fn simulate_video_processing(task: &mut Task, cancel_at: Option<u32>, now: i64) -> (r: Result<
    (),
    String,
>)
    requires
        old(task).progress <= PROGRESS_SCALE,
    ensures
        same_identity(*old(task), *final(task)),
        stamps_preserved(*old(task), *final(task)),
        final(task).retry_count == old(task).retry_count,
        final(task).error == old(task).error,
        final(task).output_path == old(task).output_path,
        final(task).progress <= PROGRESS_SCALE,
        final(task).started_at == old(task).started_at,
        match r {
            Ok(()) => {
                &&& (cancel_at matches Some(k) ==> k > 100)
                &&& final(task).status == old(task).status
                &&& final(task).progress == PROGRESS_SCALE
                &&& final(task).completed_at == old(task).completed_at
            },
            Err(m) => {
                &&& (cancel_at matches Some(k) && k <= 100)
                &&& final(task).status == TaskStatus::Cancelled
                &&& final(task).completed_at is Some
                &&& m@ == "Task cancelled"@
            },
        },
{
    run_simulation(task, 100, cancel_at, now)
}

pub struct AudioProcessor {
    output_dir: String,
}

impl AudioProcessor {
    pub fn new(output_dir: String) -> (p: AudioProcessor)
        ensures
            p.spec_dir() == output_dir@,
    {
        AudioProcessor { output_dir }
    }

    /// The directory outputs are written under.
    pub closed spec fn spec_dir(&self) -> Seq<char> {
        self.output_dir@
    }
}

impl TaskProcessor for AudioProcessor {
    open spec fn spec_output_path(&self, t: Task) -> Seq<char> {
        self.spec_dir() + "/"@ + t.id@ + "_processed."@ + (match meta_get(
            t.media.metadata@,
            "audio_format"@,
        ) {
            Some(f) => f,
            None => "mp3"@,
        })
    }

    open spec fn spec_steps(&self) -> u32 {
        100
    }

    fn steps(&self) -> u32 {
        100
    }

    proof fn output_path_congruence(&self, a: Task, b: Task) {
    }

    fn process(&self, task: &mut Task, cancel_at: Option<u32>, now: i64) -> (r: Result<
        (),
        String,
    >) {
        task.update_status(TaskStatus::Processing, now);
        let format: String = match task.media.get_metadata("audio_format") {
            Some(f) => f.clone(),
            None => "mp3".to_owned(),
        };
        let mut path = self.output_dir.clone();
        path.append("/");
        path.append(task.id.as_str());
        path.append("_processed.");
        path.append(format.as_str());
        match simulate_audio_processing(task, cancel_at, now) {
            Err(m) => Err(m),
            Ok(()) => {
                task.output_path = Some(path);
                task.update_status(TaskStatus::Completed, now);
                Ok(())
            }
        }
    }
}

/// The audio compute loop: 100 steps.
fn simulate_audio_processing(task: &mut Task, cancel_at: Option<u32>, now: i64) -> (r: Result<
    (),
    String,
>)
    requires
        old(task).progress <= PROGRESS_SCALE,
    ensures
        same_identity(*old(task), *final(task)),
        stamps_preserved(*old(task), *final(task)),
        final(task).retry_count == old(task).retry_count,
        final(task).error == old(task).error,
        final(task).output_path == old(task).output_path,
        final(task).progress <= PROGRESS_SCALE,
        final(task).started_at == old(task).started_at,
        match r {
            Ok(()) => {
                &&& (cancel_at matches Some(k) ==> k > 100)
                &&& final(task).status == old(task).status
                &&& final(task).progress == PROGRESS_SCALE
                &&& final(task).completed_at == old(task).completed_at
            },
            Err(m) => {
                &&& (cancel_at matches Some(k) && k <= 100)
                &&& final(task).status == TaskStatus::Cancelled
                &&& final(task).completed_at is Some
                &&& m@ == "Task cancelled"@
            },
        },
{
    run_simulation(task, 100, cancel_at, now)
}

pub struct ImageProcessor {
    output_dir: String,
}

impl ImageProcessor {
    pub fn new(output_dir: String) -> (p: ImageProcessor)
        ensures
            p.spec_dir() == output_dir@,
    {
        ImageProcessor { output_dir }
    }

    /// The directory outputs are written under.
    pub closed spec fn spec_dir(&self) -> Seq<char> {
        self.output_dir@
    }
}

impl TaskProcessor for ImageProcessor {
    open spec fn spec_output_path(&self, t: Task) -> Seq<char> {
        self.spec_dir() + "/"@ + t.id@ + "_optimized."@ + (match meta_get(
            t.media.metadata@,
            "image_format"@,
        ) {
            Some(f) => f,
            None => "jpg"@,
        })
    }

    open spec fn spec_steps(&self) -> u32 {
        20
    }

    fn steps(&self) -> u32 {
        20
    }

    proof fn output_path_congruence(&self, a: Task, b: Task) {
    }

    fn process(&self, task: &mut Task, cancel_at: Option<u32>, now: i64) -> (r: Result<
        (),
        String,
    >) {
        task.update_status(TaskStatus::Processing, now);
        let format: String = match task.media.get_metadata("image_format") {
            Some(f) => f.clone(),
            None => "jpg".to_owned(),
        };
        let mut path = self.output_dir.clone();
        path.append("/");
        path.append(task.id.as_str());
        path.append("_optimized.");
        path.append(format.as_str());
        match simulate_image_processing(task, cancel_at, now) {
            Err(m) => Err(m),
            Ok(()) => {
                task.output_path = Some(path);
                task.update_status(TaskStatus::Completed, now);
                Ok(())
            }
        }
    }
}

/// The image compute loop: 20 steps.
fn simulate_image_processing(task: &mut Task, cancel_at: Option<u32>, now: i64) -> (r: Result<
    (),
    String,
>)
    requires
        old(task).progress <= PROGRESS_SCALE,
    ensures
        same_identity(*old(task), *final(task)),
        stamps_preserved(*old(task), *final(task)),
        final(task).retry_count == old(task).retry_count,
        final(task).error == old(task).error,
        final(task).output_path == old(task).output_path,
        final(task).progress <= PROGRESS_SCALE,
        final(task).started_at == old(task).started_at,
        match r {
            Ok(()) => {
                &&& (cancel_at matches Some(k) ==> k > 20)
                &&& final(task).status == old(task).status
                &&& final(task).progress == PROGRESS_SCALE
                &&& final(task).completed_at == old(task).completed_at
            },
            Err(m) => {
                &&& (cancel_at matches Some(k) && k <= 20)
                &&& final(task).status == TaskStatus::Cancelled
                &&& final(task).completed_at is Some
                &&& m@ == "Task cancelled"@
            },
        },
{
    run_simulation(task, 20, cancel_at, now)
}

} // verus!
