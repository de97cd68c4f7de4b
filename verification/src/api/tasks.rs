//! Tasks: the rules on their arguments, and the requests that read and change
//! them.

use vstd::prelude::*;
use vstd::string::StringExecFns;
use crate::model::task::TaskDurationUnit;
use crate::request::models::{CreateNewTaskArgs, UpdateTaskArgs};
use crate::request::paths::{
    create_path,
    is_bare,
    is_key,
    item_path,
    lemma_path_is_rooted,
    lemma_push_parameter,
    lemma_resources_only,
    path_text,
    resource_text,
    valid_segments,
    CLOSE,
    PARAM_FILTER,
    PARAM_IDS,
    PARAM_LABEL,
    PARAM_LANG,
    PARAM_PROJECT_ID,
    PARAM_SECTION_ID,
    REOPEN,
    TASKS,
};
use crate::request::{
    is_rooted,
    APIParametersError,
    Request,
    RequestMethod,
    TodoistAPIError,
};
use crate::text::{chars_of, decimal_string, decimal_text, join, join_text, opt_view, texts_of};
use crate::validation::{
    date_fault,
    date_time_fault,
    find_date_fault,
    find_date_time_fault,
    is_date,
    is_date_time,
    lemma_date_fault_free,
    lemma_date_time_fault_free,
    DateFault,
    DateTimeFault,
};

verus! {

/// The arguments of a task that the rules speak of, as texts and numbers.
pub struct TaskFields {
    pub due_string: Option<Seq<char>>,
    pub due_date: Option<Seq<char>>,
    pub due_datetime: Option<Seq<char>>,
    pub priority: Option<u8>,
    pub due_lang: Option<Seq<char>>,
    pub duration: Option<u64>,
    pub duration_unit: Option<TaskDurationUnit>,
}

/// The rule that a set of arguments breaks.
pub enum TaskArgsFault {
    /// More than one of `due_string`, `due_date` and `due_datetime` is given.
    SeveralDue,
    /// The priority lies outside 1..=4.
    Priority,
    /// `due_date` is no date `YYYY-MM-DD`.
    DueDate(DateFault),
    /// `due_datetime` is no date and time as RFC 3339 writes it.
    DueDatetime(DateTimeFault),
    /// `due_lang` is not two characters long.
    DueLang,
    /// A duration is given without its unit.
    DurationWithoutUnit,
    /// The duration is zero.
    DurationZero,
    /// A unit is given without a duration.
    UnitWithoutDuration,
}

/// The one text of an argument that is given, or none.
pub open spec fn given(text: Option<Seq<char>>) -> Seq<Seq<char>> {
    match text {
        Some(t) => seq![t],
        None => Seq::empty(),
    }
}

impl TaskFields {
    /// Those of `due_string`, `due_date` and `due_datetime` that are given, in
    /// this order.
    pub open spec fn due_values(self) -> Seq<Seq<char>> {
        given(self.due_string) + given(self.due_date) + given(self.due_datetime)
    }

    /// What the service asks of the arguments of a task: at most one way of
    /// saying when it is due; a priority in 1..=4; a due date that is a date and
    /// a due time that is a date and time; a language code of two characters; a
    /// duration above zero, given together with its unit.
    pub open spec fn is_valid(self) -> bool {
        &&& self.due_values().len() <= 1
        &&& (self.priority matches Some(p) ==> 1 <= p <= 4)
        &&& (self.due_date matches Some(d) ==> is_date(d))
        &&& (self.due_datetime matches Some(d) ==> is_date_time(d))
        &&& (self.due_lang matches Some(l) ==> l.len() == 2)
        &&& (self.duration is Some <==> self.duration_unit is Some)
        &&& (self.duration matches Some(d) ==> d > 0)
    }

    /// The first rule that the arguments break. The rules are looked at in the
    /// order of [`TaskArgsFault`]'s variants.
    pub open spec fn fault(self) -> Option<TaskArgsFault> {
        if self.due_values().len() > 1 {
            Some(TaskArgsFault::SeveralDue)
        } else if self.priority is Some && !(1 <= self.priority->0 <= 4) {
            Some(TaskArgsFault::Priority)
        } else if self.due_date is Some && date_fault(self.due_date->0) is Some {
            Some(TaskArgsFault::DueDate(date_fault(self.due_date->0)->0))
        } else if self.due_datetime is Some && date_time_fault(self.due_datetime->0) is Some {
            Some(TaskArgsFault::DueDatetime(date_time_fault(self.due_datetime->0)->0))
        } else if self.due_lang is Some && self.due_lang->0.len() != 2 {
            Some(TaskArgsFault::DueLang)
        } else if self.duration is Some && self.duration_unit is None {
            Some(TaskArgsFault::DurationWithoutUnit)
        } else if self.duration == Some(0u64) {
            Some(TaskArgsFault::DurationZero)
        } else if self.duration_unit is Some && self.duration is None {
            Some(TaskArgsFault::UnitWithoutDuration)
        } else {
            None
        }
    }

    /// The message that reports `fault` of these arguments.
    pub open spec fn fault_text(self, fault: TaskArgsFault) -> Seq<char> {
        match fault {
            TaskArgsFault::SeveralDue => {
                "Only one of the due_* fields can be used at the same time, but "@ + decimal_text(
                    self.due_values().len(),
                ) + " were used: "@ + join_text(self.due_values(), ", "@)
            },
            TaskArgsFault::Priority => {
                "The priority must be between 1 and 4 (was "@ + decimal_text(
                    self.priority->0 as nat,
                ) + ")"@
            },
            TaskArgsFault::DueDate(f) => {
                "The due_date must be in format YYYY-MM-DD ("@ + f.text() + ", was "@
                    + self.due_date->0 + ")"@
            },
            TaskArgsFault::DueDatetime(f) => {
                "The due_datetime must be in format RFC3339 ("@ + f.text() + ", was "@
                    + self.due_datetime->0 + ")"@
            },
            TaskArgsFault::DueLang => {
                "The due_lang must be a 2-letter code (was "@ + self.due_lang->0 + ")"@
            },
            TaskArgsFault::DurationWithoutUnit => {
                "The duration_unit must be defined if duration is defined"@
            },
            TaskArgsFault::DurationZero => {
                "The duration must be greater than 0 (was "@ + decimal_text(
                    self.duration->0 as nat,
                ) + ")"@
            },
            TaskArgsFault::UnitWithoutDuration => {
                "The duration must be defined if duration_unit is defined"@
            },
        }
    }

    /// The message for the first rule that the arguments break, if they break
    /// one.
    pub open spec fn error_text(self) -> Option<Seq<char>> {
        match self.fault() {
            Some(fault) => Some(self.fault_text(fault)),
            None => None,
        }
    }
}

/// The arguments as the rules see them.
pub open spec fn task_fields(
    due_string: Option<String>,
    due_date: Option<String>,
    due_datetime: Option<String>,
    priority: Option<u8>,
    due_lang: Option<String>,
    duration: Option<u64>,
    duration_unit: Option<TaskDurationUnit>,
) -> TaskFields {
    TaskFields {
        due_string: opt_view(due_string),
        due_date: opt_view(due_date),
        due_datetime: opt_view(due_datetime),
        priority,
        due_lang: opt_view(due_lang),
        duration,
        duration_unit,
    }
}

/// What `result` says of `fields`: it is `Ok` where they break no rule, and
/// else an [`APIParametersError`] with the message for the first rule they
/// break.
pub open spec fn reports(result: Result<(), TodoistAPIError>, fields: TaskFields) -> bool {
    match result {
        Ok(_) => fields.error_text() is None,
        Err(TodoistAPIError::APIParametersError(e)) => fields.error_text() == Some(e.reason()),
        Err(_) => false,
    }
}

/// Arguments break no rule exactly if they are what the service asks for.
pub proof fn lemma_fault_free_iff_valid(fields: TaskFields)
    ensures
        fields.fault() is None <==> fields.is_valid(),
{
    if fields.due_date is Some {
        lemma_date_fault_free(fields.due_date->0);
    }
    if fields.due_datetime is Some {
        lemma_date_time_fault_free(fields.due_datetime->0);
    }
}

/// Arguments that say in two or three ways when the task is due are refused,
/// whatever else they hold, with a message that names how many ways were used
/// and each of their values.
pub proof fn lemma_several_due_values_refused(fields: TaskFields)
    requires
        fields.due_values().len() >= 2,
    ensures
        fields.fault() == Some(TaskArgsFault::SeveralDue),
        fields.error_text() == Some(
            "Only one of the due_* fields can be used at the same time, but "@ + decimal_text(
                fields.due_values().len(),
            ) + " were used: "@ + join_text(fields.due_values(), ", "@),
        ),
{
}

/// A priority outside 1..=4 is refused, whatever else the arguments hold. Where
/// nothing but the priority is given, it is accepted exactly if it lies in
/// 1..=4.
pub proof fn lemma_priority_rule(fields: TaskFields)
    requires
        fields.priority is Some,
    ensures
        !(1 <= fields.priority->0 <= 4) ==> fields.fault() is Some,
        fields.due_string is None && fields.due_date is None && fields.due_datetime is None
            && fields.due_lang is None && fields.duration is None && fields.duration_unit is None
            ==> (fields.fault() is None <==> 1 <= fields.priority->0 <= 4),
{
}

/// A duration without its unit, a unit without a duration and a duration of
/// zero are refused, whatever else the arguments hold. Where nothing but
/// duration and unit is given, the two are accepted exactly if the duration is
/// above zero.
pub proof fn lemma_duration_rule(fields: TaskFields)
    ensures
        fields.duration is Some && fields.duration_unit is None ==> fields.fault() is Some,
        fields.duration is None && fields.duration_unit is Some ==> fields.fault() is Some,
        fields.duration == Some(0u64) ==> fields.fault() is Some,
        fields.due_string is None && fields.due_date is None && fields.due_datetime is None
            && fields.due_lang is None && fields.priority is None && fields.duration is Some
            && fields.duration_unit is Some ==> (fields.fault() is None <==> fields.duration->0
            > 0),
{
}

fn refuse(message: String) -> (result: Result<(), TodoistAPIError>)
    ensures
        result matches Err(TodoistAPIError::APIParametersError(e)) && e.reason() == message@,
{
    Err(TodoistAPIError::APIParametersError(APIParametersError::new(message)))
}

/// Checks the arguments of a task against the rules of the service, before
/// anything is sent. The first rule that is broken decides the error.
pub fn validate_task_args(
    due_string: &Option<String>,
    due_date: &Option<String>,
    due_datetime: &Option<String>,
    priority: &Option<u8>,
    due_lang: &Option<String>,
    duration: &Option<u64>,
    duration_unit: &Option<TaskDurationUnit>,
) -> (result: Result<(), TodoistAPIError>)
    ensures
        reports(
            result,
            task_fields(
                *due_string,
                *due_date,
                *due_datetime,
                *priority,
                *due_lang,
                *duration,
                *duration_unit,
            ),
        ),
{
    let ghost fields = task_fields(
        *due_string,
        *due_date,
        *due_datetime,
        *priority,
        *due_lang,
        *duration,
        *duration_unit,
    );
    let mut due_types: Vec<&str> = Vec::new();
    if let Some(value) = due_string {
        due_types.push(value.as_str());
    }
    if let Some(value) = due_date {
        due_types.push(value.as_str());
    }
    if let Some(value) = due_datetime {
        due_types.push(value.as_str());
    }
    assert(texts_of(due_types@) =~= fields.due_values());
    if due_types.len() > 1 {
        let mut message = String::from_str(
            "Only one of the due_* fields can be used at the same time, but ",
        );
        message.append(decimal_string(due_types.len() as u64).as_str());
        message.append(" were used: ");
        message.append(join(&due_types, ", ").as_str());
        return refuse(message);
    }
    if let Some(priority) = priority {
        if *priority < 1 || *priority > 4 {
            let mut message = String::from_str("The priority must be between 1 and 4 (was ");
            message.append(decimal_string(*priority as u64).as_str());
            message.append(")");
            return refuse(message);
        }
    }
    if let Some(due_date) = due_date {
        let chars = chars_of(due_date.as_str());
        if let Some(fault) = find_date_fault(chars.as_slice()) {
            let mut message = String::from_str("The due_date must be in format YYYY-MM-DD (");
            message.append(fault.message());
            message.append(", was ");
            message.append(due_date.as_str());
            message.append(")");
            return refuse(message);
        }
    }
    if let Some(due_datetime) = due_datetime {
        let chars = chars_of(due_datetime.as_str());
        if let Some(fault) = find_date_time_fault(chars.as_slice()) {
            let mut message = String::from_str("The due_datetime must be in format RFC3339 (");
            message.append(fault.message().as_str());
            message.append(", was ");
            message.append(due_datetime.as_str());
            message.append(")");
            return refuse(message);
        }
    }
    if let Some(due_lang) = due_lang {
        if due_lang.as_str().unicode_len() != 2 {
            let mut message = String::from_str("The due_lang must be a 2-letter code (was ");
            message.append(due_lang.as_str());
            message.append(")");
            return refuse(message);
        }
    }
    if let Some(duration) = duration {
        if duration_unit.is_none() {
            return refuse(
                String::from_str("The duration_unit must be defined if duration is defined"),
            );
        }
        if *duration == 0 {
            let mut message = String::from_str("The duration must be greater than 0 (was ");
            message.append(decimal_string(*duration).as_str());
            message.append(")");
            return refuse(message);
        }
    }
    if duration_unit.is_some() && duration.is_none() {
        return refuse(
            String::from_str("The duration must be defined if duration_unit is defined"),
        );
    }
    Ok(())
}

/// A parameter of a query: its key and its value where the value is given,
/// nothing where it is not.
pub open spec fn parameter(key: Seq<char>, value: Option<Seq<char>>) -> Seq<Seq<char>> {
    match value {
        Some(v) => seq![key, v],
        None => Seq::empty(),
    }
}

/// The texts of the IDs of a list.
pub open spec fn id_texts(ids: Seq<String>) -> Seq<Seq<char>> {
    Seq::new(ids.len(), |i: int| ids[i]@)
}

/// The value of the parameter `ids`: the IDs with commas between them, where
/// there are any.
pub open spec fn ids_value(ids: Option<&[String]>) -> Option<Seq<char>> {
    match ids {
        Some(list) => if list@.len() > 0 {
            Some(join_text(id_texts(list@), ","@))
        } else {
            None
        },
        None => None,
    }
}

/// The segments of the path that asks for active tasks: the collection, then
/// one parameter for each filter that is given.
pub open spec fn active_tasks_segments(
    project_id: Option<Seq<char>>,
    section_id: Option<Seq<char>>,
    label: Option<Seq<char>>,
    filter: Option<Seq<char>>,
    lang: Option<Seq<char>>,
    ids: Option<Seq<char>>,
) -> Seq<Seq<char>> {
    seq!["/tasks"@] + parameter("project_id="@, project_id) + parameter("section_id="@, section_id)
        + parameter("label="@, label) + parameter("filter="@, filter) + parameter("lang="@, lang)
        + parameter("ids="@, ids)
}

/// A value that can stand behind a key, where it is given.
pub open spec fn is_value(text: Option<Seq<char>>) -> bool {
    text matches Some(t) ==> is_bare(t)
}

/// Appends a parameter to the segments of a path where its value is given.
fn push_parameter<'a>(parts: &mut Vec<&'a str>, key: &'a str, value: &'a Option<String>)
    requires
        valid_segments(texts_of(old(parts)@)),
        is_key(key@),
        is_value(opt_view(*value)),
    ensures
        valid_segments(texts_of(final(parts)@)),
        texts_of(final(parts)@) == texts_of(old(parts)@) + parameter(key@, opt_view(*value)),
{
    if let Some(v) = value {
        proof {
            lemma_push_parameter(texts_of(parts@), key@, v@);
        }
        let ghost before = parts@;
        parts.push(key);
        parts.push(v.as_str());
        assert(texts_of(parts@) =~= texts_of(before).push(key@).push(v@));
        assert(texts_of(parts@) =~= texts_of(before) + parameter(key@, opt_view(*value)));
    } else {
        assert(texts_of(parts@) =~= texts_of(parts@) + parameter(key@, opt_view(*value)));
    }
}

/// The IDs of a list with commas between them.
fn join_ids(ids: &[String]) -> (joined: String)
    ensures
        joined@ == join_text(id_texts(ids@), ","@),
{
    let mut items: Vec<&str> = Vec::new();
    let mut i: usize = 0;
    while i < ids.len()
        invariant
            0 <= i <= ids.len(),
            texts_of(items@) == id_texts(ids@).take(i as int),
        decreases ids.len() - i,
    {
        let ghost before = items@;
        items.push(ids[i].as_str());
        assert(texts_of(items@) =~= texts_of(before).push(ids[i as int]@));
        assert(id_texts(ids@).take(i + 1) =~= id_texts(ids@).take(i as int).push(ids[i as int]@));
        i += 1;
    }
    assert(id_texts(ids@).take(ids.len() as int) =~= id_texts(ids@));
    join(&items, ",")
}

/// The request for the active tasks that pass every filter that is given. The
/// service looks at `filter` (with `lang`) first, then at `ids`, then at the
/// rest: of several kinds it uses the first.
pub fn get_active_tasks(
    project_id: Option<String>,
    section_id: Option<String>,
    label: Option<String>,
    filter: Option<String>,
    lang: Option<String>,
    ids: Option<&[String]>,
) -> (request: Request<()>)
    requires
        is_value(opt_view(project_id)),
        is_value(opt_view(section_id)),
        is_value(opt_view(label)),
        is_value(opt_view(filter)),
        is_value(opt_view(lang)),
        is_value(ids_value(ids)),
    ensures
        is_rooted(request.path@),
        request.asks(
            RequestMethod::Get,
            path_text(
                active_tasks_segments(
                    opt_view(project_id),
                    opt_view(section_id),
                    opt_view(label),
                    opt_view(filter),
                    opt_view(lang),
                    ids_value(ids),
                ),
            ),
            None,
            false,
        ),
{
    let ids_joined: Option<String> = match ids {
        Some(list) => if list.len() > 0 {
            Some(join_ids(list))
        } else {
            None
        },
        None => None,
    };
    assert(opt_view(ids_joined) == ids_value(ids));
    let mut path_parts: Vec<&str> = Vec::new();
    path_parts.push(TASKS);
    proof {
        reveal_strlit("/tasks");
        reveal_strlit("project_id=");
        reveal_strlit("section_id=");
        reveal_strlit("label=");
        reveal_strlit("filter=");
        reveal_strlit("lang=");
        reveal_strlit("ids=");
        assert(texts_of(path_parts@) =~= seq!["/tasks"@]);
        lemma_resources_only(texts_of(path_parts@));
    }
    push_parameter(&mut path_parts, PARAM_PROJECT_ID, &project_id);
    push_parameter(&mut path_parts, PARAM_SECTION_ID, &section_id);
    push_parameter(&mut path_parts, PARAM_LABEL, &label);
    push_parameter(&mut path_parts, PARAM_FILTER, &filter);
    push_parameter(&mut path_parts, PARAM_LANG, &lang);
    push_parameter(&mut path_parts, PARAM_IDS, &ids_joined);
    proof {
        let segs = texts_of(path_parts@);
        assert(segs[0] == "/tasks"@);
        lemma_path_is_rooted(segs);
    }
    Request::get(create_path(path_parts.as_slice()))
}

/// What the call that creates or changes a task returns for `fields`: the
/// request where they break no rule, and else an [`APIParametersError`] with
/// the message for the first rule they break.
pub open spec fn request_or_refusal<B>(
    result: Result<Request<B>, TodoistAPIError>,
    fields: TaskFields,
    path: Seq<char>,
    body: B,
) -> bool {
    match result {
        Ok(request) => fields.error_text() is None && request.asks(
            RequestMethod::Post,
            path,
            Some(body),
            true,
        ),
        Err(TodoistAPIError::APIParametersError(e)) => fields.error_text() == Some(e.reason()),
        Err(_) => false,
    }
}

/// The request that creates a task, where the arguments pass
/// [`validate_task_args`]. Of `due_string`, `due_date` and `due_datetime` at
/// most one can be given; `due_lang` says in which language `due_string` is
/// written.
pub fn create_new_task(
    content: String,
    description: Option<String>,
    project_id: Option<String>,
    section_id: Option<String>,
    parent_id: Option<String>,
    order: Option<u32>,
    labels: Option<Vec<String>>,
    priority: Option<u8>,
    due_string: Option<String>,
    due_date: Option<String>,
    due_datetime: Option<String>,
    due_lang: Option<String>,
    assignee_id: Option<String>,
    duration: Option<u64>,
    duration_unit: Option<TaskDurationUnit>,
) -> (result: Result<Request<CreateNewTaskArgs>, TodoistAPIError>)
    ensures
        result matches Ok(request) ==> is_rooted(request.path@),
        request_or_refusal(
            result,
            task_fields(
                due_string,
                due_date,
                due_datetime,
                priority,
                due_lang,
                duration,
                duration_unit,
            ),
            "/tasks"@,
            (CreateNewTaskArgs {
                content,
                description,
                project_id,
                section_id,
                parent_id,
                order,
                labels,
                priority,
                due_string,
                due_date,
                due_datetime,
                due_lang,
                assignee_id,
                duration,
                duration_unit,
            }),
        ),
{
    proof {
        reveal_strlit("/tasks");
    }
    match validate_task_args(
        &due_string,
        &due_date,
        &due_datetime,
        &priority,
        &due_lang,
        &duration,
        &duration_unit,
    ) {
        Ok(_) => {},
        Err(error) => {
            return Err(error);
        },
    }
    Ok(
        Request::post(
            String::from_str(TASKS),
            Some(
                CreateNewTaskArgs {
                    content,
                    description,
                    project_id,
                    section_id,
                    parent_id,
                    order,
                    labels,
                    priority,
                    due_string,
                    due_date,
                    due_datetime,
                    due_lang,
                    assignee_id,
                    duration,
                    duration_unit,
                },
            ),
            true,
        ),
    )
}

/// The request for one active task.
pub fn get_active_task(task_id: String) -> (request: Request<()>)
    requires
        !is_key(task_id@),
    ensures
        is_rooted(request.path@),
        request.asks(RequestMethod::Get, "/tasks"@ + resource_text(task_id@), None, false),
{
    Request::get(get_task_path(task_id))
}

/// The request that changes a task, where the arguments pass
/// [`validate_task_args`]; the arguments are looked at before the task ID is. To
/// take the due date off a task, set `due_string` to `no date`.
pub fn update_task(
    task_id: String,
    content: Option<String>,
    description: Option<String>,
    labels: Option<Vec<String>>,
    priority: Option<u8>,
    due_string: Option<String>,
    due_date: Option<String>,
    due_datetime: Option<String>,
    due_lang: Option<String>,
    assignee_id: Option<String>,
    duration: Option<u64>,
    duration_unit: Option<TaskDurationUnit>,
) -> (result: Result<Request<UpdateTaskArgs>, TodoistAPIError>)
    requires
        task_fields(
            due_string,
            due_date,
            due_datetime,
            priority,
            due_lang,
            duration,
            duration_unit,
        ).fault() is None ==> !is_key(task_id@),
    ensures
        result matches Ok(request) ==> is_rooted(request.path@),
        request_or_refusal(
            result,
            task_fields(
                due_string,
                due_date,
                due_datetime,
                priority,
                due_lang,
                duration,
                duration_unit,
            ),
            "/tasks"@ + resource_text(task_id@),
            (UpdateTaskArgs {
                content,
                description,
                labels,
                priority,
                due_string,
                due_date,
                due_datetime,
                due_lang,
                assignee_id,
                duration,
                duration_unit,
            }),
        ),
{
    match validate_task_args(
        &due_string,
        &due_date,
        &due_datetime,
        &priority,
        &due_lang,
        &duration,
        &duration_unit,
    ) {
        Ok(_) => {},
        Err(error) => {
            return Err(error);
        },
    }
    Ok(
        Request::post(
            get_task_path(task_id),
            Some(
                UpdateTaskArgs {
                    content,
                    description,
                    labels,
                    priority,
                    due_string,
                    due_date,
                    due_datetime,
                    due_lang,
                    assignee_id,
                    duration,
                    duration_unit,
                },
            ),
            true,
        ),
    )
}

/// The request that closes a task: a plain task is completed and moved to the
/// history with its subtasks; a recurring one moves to its next date.
pub fn close_task(task_id: String) -> (request: Request<()>)
    requires
        !is_key(task_id@),
    ensures
        is_rooted(request.path@),
        request.asks(
            RequestMethod::Delete,
            "/tasks"@ + resource_text(task_id@) + "/close"@,
            None,
            false,
        ),
{
    let mut path = get_task_path(task_id);
    path.append(CLOSE);
    Request::delete(path)
}

/// The request that reopens a task, and with it the tasks and sections above
/// it.
pub fn reopen_task(task_id: String) -> (request: Request<()>)
    requires
        !is_key(task_id@),
    ensures
        is_rooted(request.path@),
        request.asks(
            RequestMethod::Post,
            "/tasks"@ + resource_text(task_id@) + "/reopen"@,
            None,
            false,
        ),
{
    let mut path = get_task_path(task_id);
    path.append(REOPEN);
    Request::post(path, None, false)
}

/// The request that deletes a task.
pub fn delete_task(task_id: String) -> (request: Request<()>)
    requires
        !is_key(task_id@),
    ensures
        is_rooted(request.path@),
        request.asks(RequestMethod::Delete, "/tasks"@ + resource_text(task_id@), None, false),
{
    Request::delete(get_task_path(task_id))
}

/// The path of one task.
pub fn get_task_path(task_id: String) -> (path: String)
    requires
        !is_key(task_id@),
    ensures
        path@ == "/tasks"@ + resource_text(task_id@),
        path@.len() > 0 && path@[0] == '/',
{
    proof {
        reveal_strlit("/tasks");
    }
    item_path(TASKS, task_id.as_str())
}

} // verus!
