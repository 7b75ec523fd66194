//! Start at logon, by a task of the system's task scheduler.
//!
//! The task starts the program when the current user logs on. It needs no rights of an
//! administrator. That the task exists means that start at logon is on, so there is no other record
//! of it. Switching takes a fixed series of calls on the scheduler; [`TaskJob`] says which call is
//! next, and what the whole comes to.
use vstd::prelude::*;

use crate::text;

verus! {

/// Name of the task, in the root folder.
pub const TASK_NAME: &'static str = "auto-shutdown";

/// What the task is for.
pub const TASK_DESCRIPTION: &'static str = "自动关机守护：用户登录时自动启动";

/// Who made the task.
pub const TASK_AUTHOR: &'static str = "auto-shutdown";

/// How long the program may run: for ever.
pub const TASK_TIME_LIMIT: &'static str = "PT0S";

/// The folder of the task.
pub const TASK_FOLDER: &'static str = "\\";

/// What the scheduler answers where there is no such task.
pub const NOT_FOUND: u32 = 0x8007_0002;

/// One call on the task scheduler.
#[derive(Clone, Copy, Debug, PartialEq, Eq, Structural)]
pub enum TaskStep {
    CreateService,
    Connect,
    OpenRoot,
    DeleteTask,
    NewTask,
    ReadInfo,
    SetDescription,
    SetAuthor,
    ReadSettings,
    StartOnBatteries,
    StayOnBatteries,
    SetTimeLimit,
    ReadPrincipal,
    SetInteractiveLogon,
    SetLeastRights,
    ReadTriggers,
    CreateLogonTrigger,
    GetLogonTrigger,
    SetTriggerUser,
    EnableTrigger,
    FindProgram,
    ReadActions,
    CreateAction,
    GetAction,
    SetPath,
    Register,
}

/// The calls that come before all others: they open the folder of the task.
pub open spec fn opening() -> Seq<TaskStep> {
    seq![TaskStep::CreateService, TaskStep::Connect, TaskStep::OpenRoot]
}

/// The calls that switch start at logon, in order.
pub open spec fn steps(enabled: bool) -> Seq<TaskStep> {
    let open = opening();
    if enabled {
        open + seq![
            TaskStep::NewTask,
            TaskStep::ReadInfo,
            TaskStep::SetDescription,
            TaskStep::SetAuthor,
            TaskStep::ReadSettings,
            TaskStep::StartOnBatteries,
            TaskStep::StayOnBatteries,
            TaskStep::SetTimeLimit,
            TaskStep::ReadPrincipal,
            TaskStep::SetInteractiveLogon,
            TaskStep::SetLeastRights,
            TaskStep::ReadTriggers,
            TaskStep::CreateLogonTrigger,
            TaskStep::GetLogonTrigger,
            TaskStep::SetTriggerUser,
            TaskStep::EnableTrigger,
            TaskStep::FindProgram,
            TaskStep::ReadActions,
            TaskStep::CreateAction,
            TaskStep::GetAction,
            TaskStep::SetPath,
            TaskStep::Register,
        ]
    } else {
        open + seq![TaskStep::DeleteTask]
    }
}

/// The words where a call fails.
pub open spec fn failure_words(step: TaskStep) -> Seq<char> {
    match step {
        TaskStep::CreateService => "创建任务计划服务失败: "@,
        TaskStep::Connect => "连接任务计划服务失败: "@,
        TaskStep::OpenRoot => "打开任务计划根目录失败: "@,
        TaskStep::DeleteTask => "删除计划任务失败: "@,
        TaskStep::NewTask => "创建任务定义失败: "@,
        TaskStep::ReadInfo => "读取任务注册信息失败: "@,
        TaskStep::SetDescription => "设置任务描述失败: "@,
        TaskStep::SetAuthor => "设置任务作者失败: "@,
        TaskStep::ReadSettings => "读取任务设置失败: "@,
        TaskStep::StartOnBatteries => "设置电池选项失败: "@,
        TaskStep::StayOnBatteries => "设置电池选项失败: "@,
        TaskStep::SetTimeLimit => "设置运行时长失败: "@,
        TaskStep::ReadPrincipal => "读取任务主体失败: "@,
        TaskStep::SetInteractiveLogon => "设置登录类型失败: "@,
        TaskStep::SetLeastRights => "设置运行级别失败: "@,
        TaskStep::ReadTriggers => "读取任务触发器失败: "@,
        TaskStep::CreateLogonTrigger => "创建登录触发器失败: "@,
        TaskStep::GetLogonTrigger => "获取登录触发器失败: "@,
        TaskStep::SetTriggerUser => "设置触发用户失败: "@,
        TaskStep::EnableTrigger => "启用触发器失败: "@,
        TaskStep::FindProgram => "获取程序路径失败: "@,
        TaskStep::ReadActions => "读取任务动作失败: "@,
        TaskStep::CreateAction => "创建启动动作失败: "@,
        TaskStep::GetAction => "获取启动动作失败: "@,
        TaskStep::SetPath => "设置启动路径失败: "@,
        TaskStep::Register => "注册计划任务失败: "@,
    }
}

/// The words where a call fails.
fn failure_prefix(step: TaskStep) -> (r: &'static str)
    ensures
        r@ == failure_words(step),
{
    match step {
        TaskStep::CreateService => "创建任务计划服务失败: ",
        TaskStep::Connect => "连接任务计划服务失败: ",
        TaskStep::OpenRoot => "打开任务计划根目录失败: ",
        TaskStep::DeleteTask => "删除计划任务失败: ",
        TaskStep::NewTask => "创建任务定义失败: ",
        TaskStep::ReadInfo => "读取任务注册信息失败: ",
        TaskStep::SetDescription => "设置任务描述失败: ",
        TaskStep::SetAuthor => "设置任务作者失败: ",
        TaskStep::ReadSettings => "读取任务设置失败: ",
        TaskStep::StartOnBatteries => "设置电池选项失败: ",
        TaskStep::StayOnBatteries => "设置电池选项失败: ",
        TaskStep::SetTimeLimit => "设置运行时长失败: ",
        TaskStep::ReadPrincipal => "读取任务主体失败: ",
        TaskStep::SetInteractiveLogon => "设置登录类型失败: ",
        TaskStep::SetLeastRights => "设置运行级别失败: ",
        TaskStep::ReadTriggers => "读取任务触发器失败: ",
        TaskStep::CreateLogonTrigger => "创建登录触发器失败: ",
        TaskStep::GetLogonTrigger => "获取登录触发器失败: ",
        TaskStep::SetTriggerUser => "设置触发用户失败: ",
        TaskStep::EnableTrigger => "启用触发器失败: ",
        TaskStep::FindProgram => "获取程序路径失败: ",
        TaskStep::ReadActions => "读取任务动作失败: ",
        TaskStep::CreateAction => "创建启动动作失败: ",
        TaskStep::GetAction => "获取启动动作失败: ",
        TaskStep::SetPath => "设置启动路径失败: ",
        TaskStep::Register => "注册计划任务失败: ",
    }
}

/// The calls that come before all others. After them one can also look for the task, which
/// [`is_enabled`] judges.
pub fn opening_steps() -> (r: Vec<TaskStep>)
    ensures
        r@ == opening(),
{
    let list: Vec<TaskStep> = vec![
        TaskStep::CreateService,
        TaskStep::Connect,
        TaskStep::OpenRoot,
    ];
    assert(list@ =~= opening());
    list
}

/// The calls that switch start at logon, in order.
fn step_list(enabled: bool) -> (r: Vec<TaskStep>)
    ensures
        r@ == steps(enabled),
{
    let mut list: Vec<TaskStep> = opening_steps();
    let mut rest: Vec<TaskStep> = if enabled {
        vec![
            TaskStep::NewTask,
            TaskStep::ReadInfo,
            TaskStep::SetDescription,
            TaskStep::SetAuthor,
            TaskStep::ReadSettings,
            TaskStep::StartOnBatteries,
            TaskStep::StayOnBatteries,
            TaskStep::SetTimeLimit,
            TaskStep::ReadPrincipal,
            TaskStep::SetInteractiveLogon,
            TaskStep::SetLeastRights,
            TaskStep::ReadTriggers,
            TaskStep::CreateLogonTrigger,
            TaskStep::GetLogonTrigger,
            TaskStep::SetTriggerUser,
            TaskStep::EnableTrigger,
            TaskStep::FindProgram,
            TaskStep::ReadActions,
            TaskStep::CreateAction,
            TaskStep::GetAction,
            TaskStep::SetPath,
            TaskStep::Register,
        ]
    } else {
        vec![TaskStep::DeleteTask]
    };
    list.append(&mut rest);
    assert(list@ =~= steps(enabled));
    list
}

/// Why a call failed.
#[derive(Debug)]
pub struct TaskFailure {
    /// Code of the error.
    pub code: u32,
    /// The error in words.
    pub message: String,
}

/// The failure does not count: a task that is not there need not be deleted.
pub open spec fn is_harmless(step: TaskStep, failure: TaskFailure) -> bool {
    step == TaskStep::DeleteTask && failure.code == NOT_FOUND
}

/// How a job goes on.
#[derive(Debug)]
pub enum TaskProgress {
    /// Make this call next.
    Next(TaskStep),
    /// The job is over.
    Done(Result<(), String>),
}

/// Switching start at logon on or off.
#[derive(Debug)]
pub struct TaskJob {
    enabled: bool,
    list: Vec<TaskStep>,
    index: usize,
}

/// Begins to switch start at logon. Returns the job and the first call.
pub fn set_enabled(enabled: bool) -> (r: (TaskJob, TaskStep))
    ensures
        r.0.wf(),
        r.0.target() == enabled,
        r.0.calls() == 0,
        r.1 == r.0.current(),
{
    let list = step_list(enabled);
    let first = list[0];
    (TaskJob { enabled, list, index: 0 }, first)
}

impl TaskJob {
    /// Whether the job switches start at logon on.
    pub closed spec fn target(self) -> bool {
        self.enabled
    }

    /// How many calls have been made.
    pub closed spec fn calls(self) -> nat {
        self.index as nat
    }

    /// The job is on its way.
    pub closed spec fn wf(self) -> bool {
        &&& self.list@ == steps(self.enabled)
        &&& self.index < self.list@.len()
    }

    /// The call that is being made.
    pub open spec fn current(self) -> TaskStep {
        steps(self.target())[self.calls() as int]
    }

    /// The call is made. Returns how the job goes on.
    pub fn advance(&mut self, outcome: Result<(), TaskFailure>) -> (r: TaskProgress)
        requires
            old(self).wf(),
        ensures
            final(self).target() == old(self).target(),
            match outcome {
                Ok(_) => if old(self).calls() + 1 == steps(old(self).target()).len() {
                    r matches TaskProgress::Done(Ok(_))
                } else {
                    &&& r == TaskProgress::Next(final(self).current())
                    &&& final(self).wf()
                    &&& final(self).calls() == old(self).calls() + 1
                },
                Err(e) => if is_harmless(old(self).current(), e) {
                    r matches TaskProgress::Done(Ok(_))
                } else {
                    r matches TaskProgress::Done(Err(words)) && words@ == failure_words(
                        old(self).current(),
                    ) + e.message@
                },
            },
    {
        let step = self.list[self.index];
        match outcome {
            Ok(_) => {
                if self.index + 1 == self.list.len() {
                    TaskProgress::Done(Ok(()))
                } else {
                    self.index = self.index + 1;
                    TaskProgress::Next(self.list[self.index])
                }
            },
            Err(e) => {
                if step == TaskStep::DeleteTask && e.code == NOT_FOUND {
                    TaskProgress::Done(Ok(()))
                } else {
                    TaskProgress::Done(
                        Err(text::join(failure_prefix(step), e.message.as_str())),
                    )
                }
            },
        }
    }
}

/// Whether start at logon is on, by what came of looking for the task. Where one cannot look, it
/// counts as off.
pub fn is_enabled(found: Result<bool, String>) -> (r: bool)
    ensures
        r == match found {
            Ok(exists) => exists,
            Err(_) => false,
        },
{
    match found {
        Ok(exists) => exists,
        Err(_) => false,
    }
}

/// The current user, with the domain in front where there is one.
pub open spec fn user_name(domain: Option<String>, user: Option<String>) -> Seq<char> {
    let name = match user {
        Some(u) => u@,
        None => Seq::empty(),
    };
    match domain {
        Some(d) => if d@.len() == 0 {
            name
        } else {
            d@ + "\\"@ + name
        },
        None => name,
    }
}

/// The current user, from the values of the environment.
pub fn current_user(domain: Option<String>, user: Option<String>) -> (r: String)
    ensures
        r@ == user_name(domain, user),
{
    let name = match user {
        Some(u) => u,
        None => {
            proof {
                reveal_strlit("");
                assert(""@ =~= Seq::<char>::empty());
            }
            "".to_owned()
        },
    };
    match domain {
        Some(d) => {
            if text::is_empty(d.as_str()) {
                name
            } else {
                text::join3(d.as_str(), "\\", name.as_str())
            }
        },
        None => name,
    }
}

/// Whether the task exists after a call that succeeded.
pub open spec fn exists_after(exists: bool, step: TaskStep) -> bool {
    match step {
        TaskStep::Register => true,
        TaskStep::DeleteTask => false,
        _ => exists,
    }
}

/// Whether the task exists after the first `n` calls of a job succeeded.
pub open spec fn exists_after_calls(exists: bool, enabled: bool, n: nat) -> bool
    decreases n,
{
    if n == 0 {
        exists
    } else {
        exists_after(exists_after_calls(exists, enabled, (n - 1) as nat), steps(enabled)[n - 1])
    }
}

/// Nothing but the last call of a job changes whether the task exists, and when all calls have
/// succeeded, the task exists exactly where start at logon was to be switched on. So a job that
/// fails on the way leaves everything as it was, and a job whose calls all succeed does the same
/// whether or not it was done before.
pub proof fn law_last_call_decides(exists: bool, enabled: bool, n: nat)
    requires
        n <= steps(enabled).len(),
    ensures
        exists_after_calls(exists, enabled, n) == if n < steps(enabled).len() {
            exists
        } else {
            enabled
        },
    decreases n,
{
    if n > 0 {
        law_last_call_decides(exists, enabled, (n - 1) as nat);
        let step = steps(enabled)[n - 1];
        if n < steps(enabled).len() {
            assert(step != TaskStep::Register && step != TaskStep::DeleteTask);
        }
    }
}

/// A failure that does not count leaves what was asked for: it comes of the last call of a job that
/// switches start at logon off, and where the task is missing then, it is off. So switching off
/// twice does no more than once, though the second time there is nothing to delete.
pub proof fn law_missing_task_is_off(
    exists: bool,
    enabled: bool,
    n: nat,
    failure: TaskFailure,
)
    requires
        n < steps(enabled).len(),
        is_harmless(steps(enabled)[n as int], failure),
        !exists_after_calls(exists, enabled, n),
    ensures
        !enabled,
        n + 1 == steps(enabled).len(),
        exists_after_calls(exists, enabled, n) == enabled,
        exists_after_calls(exists, enabled, n) == exists,
{
    law_last_call_decides(exists, enabled, n);
}

/// The folder of the task is opened first, in three calls, and switching begins with the first of
/// them.
pub proof fn law_switching_opens_the_folder(
    enabled: bool,
    list: Vec<TaskStep>,
    r: (TaskJob, TaskStep),
)
    requires
        call_ensures(opening_steps, (), list),
        call_ensures(set_enabled, (enabled,), r),
    ensures
        list@.len() == 3 && list@[0] is CreateService && list@[1] is Connect && list@[2] is OpenRoot,
        r.1 is CreateService && r.0.current() is CreateService,
        r.0.wf() && r.0.target() == enabled,
{
}

/// After each call that succeeded comes the one that follows it, and the job is done after the task
/// is registered or deleted. What it switches to stays.
pub proof fn law_call_follows_call(job: &mut TaskJob, r: TaskProgress)
    requires
        old(job).wf(),
        call_ensures(TaskJob::advance, (job, Ok(())), r),
    ensures
        final(job).target() == old(job).target(),
        old(job).target() ==> !(old(job).current() is DeleteTask),
        old(job).current() is Register || old(job).current() is DeleteTask <==> r is Done,
        r matches TaskProgress::Done(result) ==> result is Ok,
        r matches TaskProgress::Next(n) ==> {
            let s = old(job).current();
            &&& final(job).wf() && final(job).current() == n
            &&& s is OpenRoot && old(job).target() ==> n is NewTask
            &&& s is OpenRoot && !old(job).target() ==> n is DeleteTask
            &&& s is CreateService ==> n is Connect
            &&& s is Connect ==> n is OpenRoot
            &&& s is NewTask ==> n is ReadInfo
            &&& s is ReadInfo ==> n is SetDescription
            &&& s is SetDescription ==> n is SetAuthor
            &&& s is SetAuthor ==> n is ReadSettings
            &&& s is ReadSettings ==> n is StartOnBatteries
            &&& s is StartOnBatteries ==> n is StayOnBatteries
            &&& s is StayOnBatteries ==> n is SetTimeLimit
            &&& s is SetTimeLimit ==> n is ReadPrincipal
            &&& s is ReadPrincipal ==> n is SetInteractiveLogon
            &&& s is SetInteractiveLogon ==> n is SetLeastRights
            &&& s is SetLeastRights ==> n is ReadTriggers
            &&& s is ReadTriggers ==> n is CreateLogonTrigger
            &&& s is CreateLogonTrigger ==> n is GetLogonTrigger
            &&& s is GetLogonTrigger ==> n is SetTriggerUser
            &&& s is SetTriggerUser ==> n is EnableTrigger
            &&& s is EnableTrigger ==> n is FindProgram
            &&& s is FindProgram ==> n is ReadActions
            &&& s is ReadActions ==> n is CreateAction
            &&& s is CreateAction ==> n is GetAction
            &&& s is GetAction ==> n is SetPath
            &&& s is SetPath ==> n is Register
        },
{
    let n = old(job).calls();
    assert(n < steps(old(job).target()).len());
}

/// A call that failed ends the job with its words and those of the error, unless there was no task
/// to delete.
pub proof fn law_failed_call_ends_the_job(job: &mut TaskJob, failure: TaskFailure, r: TaskProgress)
    requires
        old(job).wf(),
        call_ensures(TaskJob::advance, (job, Err(failure)), r),
    ensures
        r is Done,
        r->Done_0 is Ok <==> old(job).current() is DeleteTask && failure.code == 0x8007_0002,
        r->Done_0 matches Err(words) ==> {
            let s = old(job).current();
            &&& s is CreateService ==> words@ == "创建任务计划服务失败: "@ + failure.message@
            &&& s is Connect ==> words@ == "连接任务计划服务失败: "@ + failure.message@
            &&& s is OpenRoot ==> words@ == "打开任务计划根目录失败: "@ + failure.message@
            &&& s is DeleteTask ==> words@ == "删除计划任务失败: "@ + failure.message@
            &&& s is NewTask ==> words@ == "创建任务定义失败: "@ + failure.message@
            &&& s is ReadInfo ==> words@ == "读取任务注册信息失败: "@ + failure.message@
            &&& s is SetDescription ==> words@ == "设置任务描述失败: "@ + failure.message@
            &&& s is SetAuthor ==> words@ == "设置任务作者失败: "@ + failure.message@
            &&& s is ReadSettings ==> words@ == "读取任务设置失败: "@ + failure.message@
            &&& s is StartOnBatteries ==> words@ == "设置电池选项失败: "@ + failure.message@
            &&& s is StayOnBatteries ==> words@ == "设置电池选项失败: "@ + failure.message@
            &&& s is SetTimeLimit ==> words@ == "设置运行时长失败: "@ + failure.message@
            &&& s is ReadPrincipal ==> words@ == "读取任务主体失败: "@ + failure.message@
            &&& s is SetInteractiveLogon ==> words@ == "设置登录类型失败: "@ + failure.message@
            &&& s is SetLeastRights ==> words@ == "设置运行级别失败: "@ + failure.message@
            &&& s is ReadTriggers ==> words@ == "读取任务触发器失败: "@ + failure.message@
            &&& s is CreateLogonTrigger ==> words@ == "创建登录触发器失败: "@ + failure.message@
            &&& s is GetLogonTrigger ==> words@ == "获取登录触发器失败: "@ + failure.message@
            &&& s is SetTriggerUser ==> words@ == "设置触发用户失败: "@ + failure.message@
            &&& s is EnableTrigger ==> words@ == "启用触发器失败: "@ + failure.message@
            &&& s is FindProgram ==> words@ == "获取程序路径失败: "@ + failure.message@
            &&& s is ReadActions ==> words@ == "读取任务动作失败: "@ + failure.message@
            &&& s is CreateAction ==> words@ == "创建启动动作失败: "@ + failure.message@
            &&& s is GetAction ==> words@ == "获取启动动作失败: "@ + failure.message@
            &&& s is SetPath ==> words@ == "设置启动路径失败: "@ + failure.message@
            &&& s is Register ==> words@ == "注册计划任务失败: "@ + failure.message@
        },
{
}

/// Start at logon is on exactly if the task was found.
pub proof fn law_found_task_is_on(found: Result<bool, String>, r: bool)
    requires
        call_ensures(is_enabled, (found,), r),
    ensures
        r <==> (found matches Ok(there) && there),
{
}

/// The user is named with the domain and a backslash in front, where there is a domain.
pub proof fn law_user_is_named(domain: Option<String>, user: Option<String>, r: String)
    requires
        call_ensures(current_user, (domain, user), r),
    ensures
        ({
            let name = match user {
                Some(u) => u@,
                None => Seq::empty(),
            };
            let has_domain = domain matches Some(d) && d@.len() > 0;
            &&& has_domain ==> r@ == domain->0@ + seq!['\\'] + name
            &&& !has_domain ==> r@ == name
        }),
{
    reveal_strlit("\\");
    assert("\\"@ =~= seq!['\\']);
}

} // verus!
