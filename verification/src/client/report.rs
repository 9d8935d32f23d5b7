//! What a client prints, line by line.
use crate::protocol::frame::PROTOCOL_VERSION;
use crate::protocol::management::DaemonManagementStatus;
use crate::protocol::record::DaemonInfo;
use crate::session::{
    AttachmentRecord, CreateSessionResult, SessionDiff, SessionRecord, WorktreeRecord,
};
use crate::session_find::{status_label, status_name};
use crate::text::{
    decimal, decimal_of, opt_view, signed_decimal, signed_decimal_of, views,
};
use crate::time::rfc3339_text;
use vstd::prelude::*;
use vstd::string::*;

verus! {

/// What is printed for a truth value.
pub open spec fn truth(value: bool) -> Seq<char> {
    if value {
        "true"@
    } else {
        "false"@
    }
}

fn truth_of(value: bool) -> (r: &'static str)
    ensures
        r@ == truth(value),
{
    if value {
        "true"
    } else {
        "false"
    }
}

/// A line that may be left out.
pub open spec fn optional_line(label: Seq<char>, value: Option<Seq<char>>) -> Seq<Seq<char>> {
    match value {
        Some(value) => seq![label + value],
        None => seq![],
    }
}

fn put(lines: &mut Vec<String>, label: &str, value: &str)
    ensures
        views(final(lines)@) == views(old(lines)@).push(label@ + value@),
{
    let ghost before = views(lines@);
    let mut line = label.to_string();
    line.append(value);
    lines.push(line);
    assert(views(lines@) =~= before.push(label@ + value@));
}

fn put_optional(lines: &mut Vec<String>, label: &str, value: &Option<String>)
    ensures
        views(final(lines)@) == views(old(lines)@) + optional_line(label@, opt_view(*value)),
{
    let ghost before = views(lines@);
    if let Some(value) = value {
        put(lines, label, value.as_str());
    }
    assert(views(lines@) =~= before + optional_line(label@, opt_view(*value)));
}

/// A number in decimal notation, where there is one.
pub open spec fn number_text(value: Option<u32>) -> Option<Seq<char>> {
    match value {
        Some(value) => Some(decimal(value as nat)),
        None => None,
    }
}

/// A number with a sign in decimal notation, where there is one.
pub open spec fn signed_text(value: Option<i32>) -> Option<Seq<char>> {
    match value {
        Some(value) => Some(signed_decimal(value as int)),
        None => None,
    }
}

fn number_of_option(value: Option<u32>) -> (r: Option<String>)
    ensures
        opt_view(r) == number_text(value),
{
    match value {
        Some(value) => Some(decimal_of(value as u64)),
        None => None,
    }
}

fn signed_of_option(value: Option<i32>) -> (r: Option<String>)
    ensures
        opt_view(r) == signed_text(value),
{
    match value {
        Some(value) => Some(signed_decimal_of(value as i64)),
        None => None,
    }
}

/// How a session's process ended, as far as it did.
pub open spec fn end_lines(session: SessionRecord) -> Seq<Seq<char>> {
    optional_line("pid: "@, number_text(session.pid)) + optional_line(
        "exit_code: "@,
        signed_text(session.exit_code),
    ) + optional_line("error: "@, opt_view(session.error))
}

fn put_end(lines: &mut Vec<String>, session: &SessionRecord)
    ensures
        views(final(lines)@) == views(old(lines)@) + end_lines(*session),
{
    let ghost before = views(lines@);
    put_optional(lines, "pid: ", &number_of_option(session.pid));
    put_optional(lines, "exit_code: ", &signed_of_option(session.exit_code));
    put_optional(lines, "error: ", &session.error);
    assert(views(lines@) =~= before + end_lines(*session));
}

/// All that is printed of a session.
pub open spec fn session_lines(session: SessionRecord) -> Seq<Seq<char>> {
    (seq!["name: "@ + session.session_id@] + optional_line(
        "thread_id: "@,
        opt_view(session.thread_id),
    )).push("agent: "@ + session.agent@) + optional_line("model: "@, opt_view(session.model))
        + seq![
        "status: "@ + status_name(session.status),
        "apply_state: "@ + session.apply_state.name(),
        "has_commits: "@ + truth(session.has_commits),
        "has_pending_changes: "@ + truth(session.has_pending_changes),
        "attention: "@ + session.attention.name(),
    ] + optional_line("attention_summary: "@, opt_view(session.attention_summary)) + seq![
        "repo_name: "@ + session.repo_name@,
        "repo_path: "@ + session.repo_path@,
        "workspace: "@ + session.workspace@,
        "base_branch: "@ + session.base_branch@,
        "branch: "@ + session.branch@,
        "worktree: "@ + session.worktree@,
    ] + end_lines(session)
}

/// All that is printed of a session.
pub fn session_report(session: &SessionRecord) -> (r: Vec<String>)
    ensures
        views(r@) == session_lines(*session),
{
    let mut lines: Vec<String> = Vec::new();
    put(&mut lines, "name: ", session.session_id.as_str());
    assert(views(lines@) =~= seq!["name: "@ + session.session_id@]);
    put_optional(&mut lines, "thread_id: ", &session.thread_id);
    put(&mut lines, "agent: ", session.agent.as_str());
    put_optional(&mut lines, "model: ", &session.model);
    let ghost before = views(lines@);
    put(&mut lines, "status: ", status_label(session.status));
    put(&mut lines, "apply_state: ", session.apply_state.as_str());
    put(&mut lines, "has_commits: ", truth_of(session.has_commits));
    put(&mut lines, "has_pending_changes: ", truth_of(session.has_pending_changes));
    put(&mut lines, "attention: ", session.attention.as_str());
    assert(views(lines@) =~= before + seq![
        "status: "@ + status_name(session.status),
        "apply_state: "@ + session.apply_state.name(),
        "has_commits: "@ + truth(session.has_commits),
        "has_pending_changes: "@ + truth(session.has_pending_changes),
        "attention: "@ + session.attention.name(),
    ]);
    put_optional(&mut lines, "attention_summary: ", &session.attention_summary);
    let ghost before = views(lines@);
    put(&mut lines, "repo_name: ", session.repo_name.as_str());
    put(&mut lines, "repo_path: ", session.repo_path.as_str());
    put(&mut lines, "workspace: ", session.workspace.as_str());
    put(&mut lines, "base_branch: ", session.base_branch.as_str());
    put(&mut lines, "branch: ", session.branch.as_str());
    put(&mut lines, "worktree: ", session.worktree.as_str());
    assert(views(lines@) =~= before + seq![
        "repo_name: "@ + session.repo_name@,
        "repo_path: "@ + session.repo_path@,
        "workspace: "@ + session.workspace@,
        "base_branch: "@ + session.base_branch@,
        "branch: "@ + session.branch@,
        "worktree: "@ + session.worktree@,
    ]);
    put_end(&mut lines, session);
    lines
}

/// The short form of what is printed of a session.
pub open spec fn short_session_lines(session: SessionRecord) -> Seq<Seq<char>> {
    seq![
        "session_id: "@ + session.session_id@,
        "agent: "@ + session.agent@,
        "status: "@ + status_name(session.status),
        "repo_path: "@ + session.repo_path@,
        "workspace: "@ + session.workspace@,
        "task: "@ + session.task@,
        "base_branch: "@ + session.base_branch@,
        "branch: "@ + session.branch@,
        "worktree: "@ + session.worktree@,
    ] + end_lines(session)
}

/// The short form of what is printed of a session.
pub fn short_session_report(session: &SessionRecord) -> (r: Vec<String>)
    ensures
        views(r@) == short_session_lines(*session),
{
    let mut lines: Vec<String> = Vec::new();
    put(&mut lines, "session_id: ", session.session_id.as_str());
    put(&mut lines, "agent: ", session.agent.as_str());
    put(&mut lines, "status: ", status_label(session.status));
    put(&mut lines, "repo_path: ", session.repo_path.as_str());
    put(&mut lines, "workspace: ", session.workspace.as_str());
    put(&mut lines, "task: ", session.task.as_str());
    put(&mut lines, "base_branch: ", session.base_branch.as_str());
    put(&mut lines, "branch: ", session.branch.as_str());
    put(&mut lines, "worktree: ", session.worktree.as_str());
    assert(views(lines@) =~= seq![
        "session_id: "@ + session.session_id@,
        "agent: "@ + session.agent@,
        "status: "@ + status_name(session.status),
        "repo_path: "@ + session.repo_path@,
        "workspace: "@ + session.workspace@,
        "task: "@ + session.task@,
        "base_branch: "@ + session.base_branch@,
        "branch: "@ + session.branch@,
        "worktree: "@ + session.worktree@,
    ]);
    put_end(&mut lines, session);
    lines
}

/// The one line that a plain list has for a session.
pub fn plain_session_line(session: &SessionRecord) -> (r: String)
    ensures
        r@ == session.session_id@ + "\t"@ + session.agent@ + "\t"@ + status_name(session.status)
            + "\t"@ + session.branch@,
{
    let mut line = session.session_id.clone();
    line.append("\t");
    line.append(session.agent.as_str());
    line.append("\t");
    line.append(status_label(session.status));
    line.append("\t");
    line.append(session.branch.as_str());
    line
}

/// The branches and the worktree of a session.
pub open spec fn place_lines(base_branch: Seq<char>, branch: Seq<char>, worktree: Seq<char>) -> Seq<
    Seq<char>,
> {
    seq!["base_branch: "@ + base_branch, "branch: "@ + branch, "worktree: "@ + worktree]
}

fn put_place(lines: &mut Vec<String>, base_branch: &str, branch: &str, worktree: &str)
    ensures
        views(final(lines)@) == views(old(lines)@) + place_lines(
            base_branch@,
            branch@,
            worktree@,
        ),
{
    let ghost before = views(lines@);
    put(lines, "base_branch: ", base_branch);
    put(lines, "branch: ", branch);
    put(lines, "worktree: ", worktree);
    assert(views(lines@) =~= before + place_lines(base_branch@, branch@, worktree@));
}

/// What is printed of a session that was made. `label` is what its name is announced by.
pub fn created_report(label: &str, session: &CreateSessionResult) -> (r: Vec<String>)
    ensures
        views(r@) == seq![label@ + session.session_id@] + place_lines(
            session.base_branch@,
            session.branch@,
            session.worktree@,
        ),
{
    let mut lines: Vec<String> = Vec::new();
    put(&mut lines, label, session.session_id.as_str());
    assert(views(lines@) =~= seq![label@ + session.session_id@]);
    put_place(
        &mut lines,
        session.base_branch.as_str(),
        session.branch.as_str(),
        session.worktree.as_str(),
    );
    lines
}

/// What is printed of a worktree. `label` is what the session's name is announced by.
pub open spec fn worktree_lines(label: Seq<char>, worktree: WorktreeRecord) -> Seq<Seq<char>> {
    seq![label + worktree.session_id@, "repo_path: "@ + worktree.repo_path@] + place_lines(
        worktree.base_branch@,
        worktree.branch@,
        worktree.worktree@,
    )
}

/// What is printed of a worktree.
pub fn worktree_report(label: &str, worktree: &WorktreeRecord) -> (r: Vec<String>)
    ensures
        views(r@) == worktree_lines(label@, *worktree),
{
    let mut lines: Vec<String> = Vec::new();
    put(&mut lines, label, worktree.session_id.as_str());
    put(&mut lines, "repo_path: ", worktree.repo_path.as_str());
    assert(views(lines@) =~= seq![
        label@ + worktree.session_id@,
        "repo_path: "@ + worktree.repo_path@,
    ]);
    put_place(
        &mut lines,
        worktree.base_branch.as_str(),
        worktree.branch.as_str(),
        worktree.worktree.as_str(),
    );
    lines
}

/// What is printed of a worktree that was removed.
pub fn cleanup_report(label: &str, worktree: &WorktreeRecord) -> (r: Vec<String>)
    ensures
        views(r@) == seq!["cleaned up worktree for session "@ + worktree.session_id@]
            + worktree_lines(label@, *worktree),
{
    let mut lines: Vec<String> = Vec::new();
    put(&mut lines, "cleaned up worktree for session ", worktree.session_id.as_str());
    let mut rest = worktree_report(label, worktree);
    let ghost first = lines@;
    let ghost then_lines = rest@;
    lines.append(&mut rest);
    assert(views(lines@) =~= views(first) + views(then_lines));
    assert(views(first) =~= seq!["cleaned up worktree for session "@ + worktree.session_id@]);
    lines
}

/// What is printed above a diff: whose it is, and an empty line.
pub fn diff_head(label: &str, diff: &SessionDiff) -> (r: Vec<String>)
    ensures
        views(r@) == (seq![label@ + diff.session_id@] + place_lines(
            diff.base_branch@,
            diff.branch@,
            diff.worktree@,
        )).push(""@ + ""@),
{
    let mut lines: Vec<String> = Vec::new();
    put(&mut lines, label, diff.session_id.as_str());
    assert(views(lines@) =~= seq![label@ + diff.session_id@]);
    put_place(
        &mut lines,
        diff.base_branch.as_str(),
        diff.branch.as_str(),
        diff.worktree.as_str(),
    );
    put(&mut lines, "", "");
    lines
}

/// What is printed of a session that was stopped, removed or both.
pub open spec fn kill_lines(session_id: Seq<char>, was_running: bool, removed: bool) -> Seq<
    Seq<char>,
> {
    let stopped = if was_running {
        seq!["terminated session "@ + session_id]
    } else {
        seq![]
    };
    if removed {
        stopped.push("removed session "@ + session_id)
    } else {
        stopped
    }
}

/// What is printed of a session that was stopped, removed or both.
pub fn kill_report(session_id: &str, was_running: bool, removed: bool) -> (r: Vec<String>)
    ensures
        views(r@) == kill_lines(session_id@, was_running, removed),
{
    let mut lines: Vec<String> = Vec::new();
    if was_running {
        put(&mut lines, "terminated session ", session_id);
        assert(views(lines@) =~= seq!["terminated session "@ + session_id@]);
    } else {
        assert(views(lines@) =~= seq![]);
    }
    if removed {
        put(&mut lines, "removed session ", session_id);
    }
    lines
}

/// The line of an attached client.
pub open spec fn attachment_text(attachment: AttachmentRecord) -> Seq<char> {
    attachment.attach_id@ + "\t"@ + attachment.session_id@ + "\t"@ + attachment.kind.name() + "\t"@
        + rfc3339_text(attachment.connected_at.seconds, attachment.connected_at.nanos)
}

/// The lines of attached clients.
pub open spec fn attachment_texts(attachments: Seq<AttachmentRecord>) -> Seq<Seq<char>> {
    Seq::new(attachments.len(), |i: int| attachment_text(attachments[i]))
}

/// The lines of attached clients.
pub fn attachments_report(attachments: &Vec<AttachmentRecord>) -> (r: Vec<String>)
    requires
        forall|i: int|
            0 <= i < attachments@.len() ==> (#[trigger] attachments@[i]).connected_at.valid(),
    ensures
        views(r@) == attachment_texts(attachments@),
{
    let mut lines: Vec<String> = Vec::new();
    let mut i: usize = 0;
    assert(views(lines@) =~= attachment_texts(attachments@.take(0)));
    while i < attachments.len()
        invariant
            i <= attachments.len(),
            forall|k: int|
                0 <= k < attachments@.len() ==> (#[trigger] attachments@[k]).connected_at.valid(),
            views(lines@) == attachment_texts(attachments@.take(i as int)),
        decreases attachments.len() - i,
    {
        let attachment = &attachments[i];
        assert(attachments@[i as int].connected_at.valid());
        let mut line = attachment.attach_id.clone();
        line.append("\t");
        line.append(attachment.session_id.as_str());
        line.append("\t");
        line.append(attachment.kind.as_str());
        line.append("\t");
        line.append(attachment.connected_at.to_rfc3339().as_str());
        let ghost before = views(lines@);
        assert(line@ == attachment_text(attachments@[i as int]));
        lines.push(line);
        i = i + 1;
        assert(views(lines@) =~= before.push(line@));
        assert(views(lines@) =~= attachment_texts(attachments@.take(i as int)));
    }
    assert(attachments@.take(i as int) =~= attachments@);
    lines
}

/// What is printed of a daemon that answers its management protocol.
pub fn management_status_report(status: &DaemonManagementStatus, client_version: &str) -> (r: Vec<
    String,
>)
    ensures
        views(r@) == seq![
            "source: "@ + "daemon_management"@,
            "daemon_version: "@ + status.daemon_version@,
            "daemon_protocol_version: "@ + decimal(status.protocol_version as nat),
            "client_version: "@ + client_version@,
            "expected_protocol_version: "@ + decimal(PROTOCOL_VERSION as nat),
            "pid: "@ + decimal(status.pid as nat),
            "root: "@ + status.root@,
            "socket: "@ + status.socket@,
            "running_sessions: "@ + truth(status.running_sessions),
        ],
{
    let mut lines: Vec<String> = Vec::new();
    put(&mut lines, "source: ", "daemon_management");
    put(&mut lines, "daemon_version: ", status.daemon_version.as_str());
    put(
        &mut lines,
        "daemon_protocol_version: ",
        decimal_of(status.protocol_version as u64).as_str(),
    );
    put(&mut lines, "client_version: ", client_version);
    put(
        &mut lines,
        "expected_protocol_version: ",
        decimal_of(PROTOCOL_VERSION as u64).as_str(),
    );
    put(&mut lines, "pid: ", decimal_of(status.pid as u64).as_str());
    put(&mut lines, "root: ", status.root.as_str());
    put(&mut lines, "socket: ", status.socket.as_str());
    put(&mut lines, "running_sessions: ", truth_of(status.running_sessions));
    assert(views(lines@) =~= seq![
        "source: "@ + "daemon_management"@,
        "daemon_version: "@ + status.daemon_version@,
        "daemon_protocol_version: "@ + decimal(status.protocol_version as nat),
        "client_version: "@ + client_version@,
        "expected_protocol_version: "@ + decimal(PROTOCOL_VERSION as nat),
        "pid: "@ + decimal(status.pid as nat),
        "root: "@ + status.root@,
        "socket: "@ + status.socket@,
        "running_sessions: "@ + truth(status.running_sessions),
    ]);
    lines
}

/// What is printed of a daemon that answers: its versions, and the client's where one is given.
pub fn daemon_info_report(info: &DaemonInfo, client_version: Option<&str>) -> (r: Vec<String>)
    ensures
        views(r@) == seq![
            "daemon_version: "@ + info.daemon_version@,
            "protocol_version: "@ + decimal(info.protocol_version as nat),
        ] + match client_version {
            Some(version) => seq![
                "client_version: "@ + version@,
                "expected_protocol_version: "@ + decimal(PROTOCOL_VERSION as nat),
            ],
            None => seq![],
        },
{
    let mut lines: Vec<String> = Vec::new();
    put(&mut lines, "daemon_version: ", info.daemon_version.as_str());
    put(&mut lines, "protocol_version: ", decimal_of(info.protocol_version as u64).as_str());
    let ghost head = views(lines@);
    assert(head =~= seq![
        "daemon_version: "@ + info.daemon_version@,
        "protocol_version: "@ + decimal(info.protocol_version as nat),
    ]);
    match client_version {
        Some(version) => {
            put(&mut lines, "client_version: ", version);
            put(
                &mut lines,
                "expected_protocol_version: ",
                decimal_of(PROTOCOL_VERSION as u64).as_str(),
            );
            assert(views(lines@) =~= head + seq![
                "client_version: "@ + version@,
                "expected_protocol_version: "@ + decimal(PROTOCOL_VERSION as nat),
            ]);
        },
        None => {
            assert(views(lines@) =~= head + seq![]);
        },
    }
    lines
}

} // verus!
