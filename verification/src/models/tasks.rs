//! Encoding tasks run by the vault.
use vstd::prelude::*;

use crate::text::{nat_decimal, push_str, push_u64_decimal};
use crate::models::media::{resolution_text, resolution_to_string};

verus! {

/// What a task does.
#[derive(Clone, Copy, Debug, PartialEq, Eq, Structural)]
pub enum TaskType {
    EncodeOriginal,
    EncodeResolution,
    GenerateVideoPreviews,
}

impl TaskType {
    pub open spec fn label(self) -> Seq<char> {
        match self {
            TaskType::EncodeOriginal => "Encode original"@,
            TaskType::EncodeResolution => "Encode resolution"@,
            TaskType::GenerateVideoPreviews => "Generate video previews"@,
        }
    }

    /// The label shown for what the task does.
    pub fn to_string(&self) -> (r: String)
        ensures
            r@ == self.label(),
    {
        match self {
            TaskType::EncodeOriginal => String::from_str("Encode original"),
            TaskType::EncodeResolution => String::from_str("Encode resolution"),
            TaskType::GenerateVideoPreviews => String::from_str("Generate video previews"),
        }
    }
}

/// The resolution an encoding task produces.
#[derive(Clone, Copy, Debug, PartialEq, Eq, Structural)]
pub struct TaskEncodeResolution {
    pub width: i32,
    pub height: i32,
    pub fps: i32,
}

impl TaskEncodeResolution {
    /// Writes the resolution: `{width}x{height}:{fps}` when `fps` is positive, else
    /// `{width}x{height}`.
    pub fn to_string(&self) -> (r: String)
        ensures
            r@ == resolution_text(self.width as int, self.height as int, self.fps as int),
    {
        resolution_to_string(self.width, self.height, self.fps)
    }
}

/// The stage a task is at.
#[derive(Clone, Copy, Debug, PartialEq, Eq, Structural)]
pub enum TaskStage {
    Pending,
    Prepare,
    Copy,
    Probe,
    Encode,
    Encrypt,
    Update,
    Finish,
}

impl TaskStage {
    pub open spec fn label(self) -> Seq<char> {
        match self {
            TaskStage::Pending => "Pending"@,
            TaskStage::Prepare => "Prepare"@,
            TaskStage::Copy => "Copy"@,
            TaskStage::Probe => "Probe"@,
            TaskStage::Encode => "Encode"@,
            TaskStage::Encrypt => "Encrypt"@,
            TaskStage::Update => "Update"@,
            TaskStage::Finish => "Finish"@,
        }
    }

    pub open spec fn number(self) -> u8 {
        match self {
            TaskStage::Pending => 0,
            TaskStage::Prepare => 0,
            TaskStage::Copy => 1,
            TaskStage::Probe => 2,
            TaskStage::Encode => 3,
            TaskStage::Encrypt => 4,
            TaskStage::Update => 5,
            TaskStage::Finish => 6,
        }
    }

    /// The name of the stage.
    pub fn to_string(&self) -> (r: String)
        ensures
            r@ == self.label(),
    {
        match self {
            TaskStage::Pending => String::from_str("Pending"),
            TaskStage::Prepare => String::from_str("Prepare"),
            TaskStage::Copy => String::from_str("Copy"),
            TaskStage::Probe => String::from_str("Probe"),
            TaskStage::Encode => String::from_str("Encode"),
            TaskStage::Encrypt => String::from_str("Encrypt"),
            TaskStage::Update => String::from_str("Update"),
            TaskStage::Finish => String::from_str("Finish"),
        }
    }

    /// The index of the stage among the seven (pending and preparing share the first).
    pub fn to_stage_number(&self) -> (r: u8)
        ensures
            r == self.number(),
    {
        match self {
            TaskStage::Pending => 0,
            TaskStage::Prepare => 0,
            TaskStage::Copy => 1,
            TaskStage::Probe => 2,
            TaskStage::Encode => 3,
            TaskStage::Encrypt => 4,
            TaskStage::Update => 5,
            TaskStage::Finish => 6,
        }
    }
}

/// An encoding task, without its progress (a float, kept outside the library).
pub struct Task {
    pub id: u64,
    pub running: bool,
    pub media_id: u64,
    pub task_type: TaskType,
    pub resolution: Option<TaskEncodeResolution>,
    pub stage: TaskStage,
    pub stage_start: i64,
    pub time_now: i64,
}

/// What a task does, with the resolution when it encodes one.
pub open spec fn task_type_text(task: Task) -> Seq<char> {
    match task.task_type {
        TaskType::EncodeResolution => match task.resolution {
            Some(r) => task.task_type.label() + ": "@ + resolution_text(
                r.width as int,
                r.height as int,
                r.fps as int,
            ),
            None => task.task_type.label(),
        },
        _ => task.task_type.label(),
    }
}

/// Describes what a task does, e.g. `Encode resolution: 1280x720:30`.
pub fn get_task_type_string(task: &Task) -> (r: String)
    ensures
        r@ == task_type_text(*task),
{
    match task.task_type {
        TaskType::EncodeOriginal | TaskType::GenerateVideoPreviews => task.task_type.to_string(),
        TaskType::EncodeResolution => match &task.resolution {
            Some(res) => {
                let mut s = task.task_type.to_string();
                push_str(&mut s, ": ");
                let rs = res.to_string();
                push_str(&mut s, rs.as_str());
                s
            },
            None => task.task_type.to_string(),
        },
    }
}

/// The status of a task, without its progress: `Pending`, or `Stage {n}/7: {name}`.
pub open spec fn task_status_text(running: bool, stage: TaskStage) -> Seq<char> {
    if running && stage != TaskStage::Pending {
        "Stage "@ + nat_decimal((stage.number() + 1) as nat) + "/7: "@ + stage.label()
    } else {
        "Pending"@
    }
}

/// The status of a task: `Pending`, or `Stage {n}/7: {name}`, followed by
/// ` ({progress}%)` while the stage reports progress; `progress` is that progress,
/// written with two decimals, when it is positive.
pub open spec fn task_status_full_text(running: bool, stage: TaskStage, progress: Option<Seq<char>>) -> Seq<char> {
    if running && stage != TaskStage::Pending {
        match progress {
            Some(p) => task_status_text(running, stage) + " ("@ + p + "%)"@,
            None => task_status_text(running, stage),
        }
    } else {
        "Pending"@
    }
}

/// The status of a task (see `task_status_full_text`).
pub fn get_task_status_string(task: &Task, progress: Option<&str>) -> (r: String)
    ensures
        r@ == task_status_full_text(task.running, task.stage, match progress {
            Some(p) => Some(p@),
            None => None,
        }),
{
    if task.running {
        match task.stage {
            TaskStage::Pending => String::from_str("Pending"),
            _ => {
                let n = task.stage.to_stage_number() + 1;
                let mut s = String::from_str("Stage ");
                push_u64_decimal(&mut s, n as u64);
                push_str(&mut s, "/7: ");
                let name = task.stage.to_string();
                push_str(&mut s, name.as_str());
                if let Some(p) = progress {
                    push_str(&mut s, " (");
                    push_str(&mut s, p);
                    push_str(&mut s, "%)");
                }
                s
            },
        }
    } else {
        String::from_str("Pending")
    }
}

/// Counts the running tasks of a list; the others are pending.
pub fn count_running_tasks(tasks: &Vec<Task>) -> (r: (usize, usize))
    ensures
        r.0 == tasks@.filter(|t: Task| t.running).len(),
        r.0 + r.1 == tasks@.len(),
{
    let mut running: usize = 0;
    let mut i: usize = 0;
    while i < tasks.len()
        invariant
            i <= tasks@.len(),
            running == tasks@.take(i as int).filter(|t: Task| t.running).len(),
            running <= i,
        decreases tasks.len() - i,
    {
        proof {
            reveal_with_fuel(Seq::<_>::filter, 1);
            assert(tasks@.take(i + 1).drop_last() =~= tasks@.take(i as int));
        }
        if tasks[i].running {
            running = running + 1;
        }
        i = i + 1;
    }
    assert(tasks@.take(tasks@.len() as int) =~= tasks@);
    (running, tasks.len() - running)
}

} // verus!
