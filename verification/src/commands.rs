//! What the listing and lookup commands show, worked out from workspaces and
//! sessions that were loaded. Nothing is printed here: each command gives
//! back rows and details as plain values, to be drawn by the caller.
use crate::path::{last_segment, path_last_segment};
use crate::render::ELLIPSIS;
use crate::session::{
    RequestEntry, SessionRecord, StoredSession, WorkspaceDescriptor, WorkspaceSessions,
};
use crate::text::{
    contains_ignoring_case, contains_lowercased, leading, leading_chars, lowercase, lowercase_of,
    option_str_view, str_eq,
};
use crate::timestamp::{millis_stamp, modified_stamp, second_of_millis, stamp_of};
use vstd::prelude::*;
use vstd::string::StringExecFns;
use vstd::utf8::encode_utf8;

verus! {

/// The number of characters of a hash that a row shows.
pub const ROW_HASH_CHARS: usize = 12;

/// What is shown for a project path or a session id that is absent.
pub const NO_VALUE: &'static str = "(none)";

/// What is shown for a file name or a session id that is not known.
pub const UNKNOWN_NAME: &'static str = "unknown";

/// What is shown as project of the sessions that belong to no workspace.
pub const ALL_SESSIONS: &'static str = "(ALL SESSIONS)";

/// The pattern that stands for the current directory.
pub const CURRENT_DIRECTORY: &'static str = ".";

/// The extension given to the file name of a session that belongs to no
/// workspace.
pub const SESSION_FILE_SUFFIX: &'static str = ".json";

/// The number of requests of which a preview is shown.
pub const PREVIEW_REQUESTS: usize = 3;

/// The number of characters of a message that its preview shows.
pub const PREVIEW_CHARS: usize = 100;

/// A row of the table of workspaces.
#[derive(Clone, Debug, PartialEq, Eq)]
pub struct WorkspaceRow {
    /// The first characters of the hash, and an ellipsis.
    pub hash: String,
    /// The project path, or `(none)`.
    pub project_path: String,
    /// The number of sessions.
    pub sessions: usize,
    /// Whether the workspace keeps any session.
    pub has_chats: bool,
}

/// What a `WorkspaceRow` stands for.
pub struct WorkspaceRowView {
    pub hash: Seq<char>,
    pub project_path: Seq<char>,
    pub sessions: nat,
    pub has_chats: bool,
}

impl View for WorkspaceRow {
    type V = WorkspaceRowView;

    open spec fn view(&self) -> WorkspaceRowView {
        WorkspaceRowView {
            hash: self.hash@,
            project_path: self.project_path@,
            sessions: self.sessions as nat,
            has_chats: self.has_chats,
        }
    }
}

impl DeepView for WorkspaceRow {
    type V = WorkspaceRowView;

    open spec fn deep_view(&self) -> WorkspaceRowView {
        self@
    }
}

/// A row of the table of sessions.
#[derive(Clone, Debug, PartialEq, Eq)]
pub struct SessionRow {
    /// The project path of the session's workspace.
    pub project_path: String,
    /// The name of the session file.
    pub session_file: String,
    /// When the session was last modified: `YYYY-MM-DD HH:MM` in UTC, or
    /// `unknown`.
    pub last_modified: String,
    /// The number of requests of the session.
    pub messages: usize,
}

/// What a `SessionRow` stands for.
pub struct SessionRowView {
    pub project_path: Seq<char>,
    pub session_file: Seq<char>,
    pub last_modified: Seq<char>,
    pub messages: nat,
}

impl View for SessionRow {
    type V = SessionRowView;

    open spec fn view(&self) -> SessionRowView {
        SessionRowView {
            project_path: self.project_path@,
            session_file: self.session_file@,
            last_modified: self.last_modified@,
            messages: self.messages as nat,
        }
    }
}

impl DeepView for SessionRow {
    type V = SessionRowView;

    open spec fn deep_view(&self) -> SessionRowView {
        self@
    }
}

/// The text of an optional string, or `placeholder` in its absence.
pub open spec fn text_or(s: Option<String>, placeholder: Seq<char>) -> Seq<char> {
    match s {
        Some(text) => text@,
        None => placeholder,
    }
}

/// The hash as a row shows it: its first `ROW_HASH_CHARS` characters and an
/// ellipsis.
pub open spec fn short_hash(hash: Seq<char>) -> Seq<char> {
    leading(hash, ROW_HASH_CHARS as int) + ELLIPSIS@
}

/// The row of a workspace.
pub open spec fn workspace_row_of(ws: WorkspaceDescriptor) -> WorkspaceRowView {
    WorkspaceRowView {
        hash: short_hash(ws.hash@),
        project_path: text_or(ws.project_path, NO_VALUE@),
        sessions: ws.session_count as nat,
        has_chats: ws.has_sessions,
    }
}

/// The name of the file at `path`, or `placeholder` where the path has no
/// last segment.
pub open spec fn file_name_or(path: Seq<char>, placeholder: Seq<char>) -> Seq<char> {
    match last_segment(path) {
        Some(name) => name,
        None => placeholder,
    }
}

/// The row of a session of the workspace `ws`.
pub open spec fn session_row_of(ws: WorkspaceDescriptor, session: StoredSession) -> SessionRowView {
    SessionRowView {
        project_path: text_or(ws.project_path, NO_VALUE@),
        session_file: file_name_or(session.path@, UNKNOWN_NAME@),
        last_modified: stamp_of(session.modified),
        messages: session.record.requests@.len(),
    }
}

/// The row of a session that belongs to no workspace.
pub open spec fn unattached_row_of(record: SessionRecord) -> SessionRowView {
    SessionRowView {
        project_path: ALL_SESSIONS@,
        session_file: text_or(record.session_id, UNKNOWN_NAME@) + SESSION_FILE_SUFFIX@,
        last_modified: stamp_of(Some(second_of_millis(record.last_message_date as int) as i64)),
        messages: record.requests@.len(),
    }
}

/// Whether a workspace answers a query: its project path or its hash holds
/// `query_lower`, without regard to case.
pub open spec fn answers_query(ws: WorkspaceDescriptor, query_lower: Seq<char>) -> bool {
    ||| (ws.project_path matches Some(path) && contains_ignoring_case(path@, query_lower))
    ||| contains_ignoring_case(ws.hash@, query_lower)
}

/// An owned copy of an optional string, or of `placeholder` in its absence.
pub fn owned_or(s: &Option<String>, placeholder: &str) -> (r: String)
    ensures
        r@ == text_or(*s, placeholder@),
{
    match s {
        Some(text) => text.clone(),
        None => String::from_str(placeholder),
    }
}

/// The row of a workspace.
pub fn workspace_row(ws: &WorkspaceDescriptor) -> (r: WorkspaceRow)
    ensures
        r@ == workspace_row_of(*ws),
{
    WorkspaceRow {
        hash: leading_chars(ws.hash.as_str(), ROW_HASH_CHARS).concat(ELLIPSIS),
        project_path: owned_or(&ws.project_path, NO_VALUE),
        sessions: ws.session_count,
        has_chats: ws.has_sessions,
    }
}

/// The name of the file at `path`, or `placeholder`.
pub fn file_name_of(path: &str, placeholder: &str) -> (r: String)
    ensures
        r@ == file_name_or(path@, placeholder@),
{
    match path_last_segment(path) {
        Some(name) => name,
        None => String::from_str(placeholder),
    }
}

/// The row of a session of the workspace `ws`.
pub fn session_row(ws: &WorkspaceDescriptor, session: &StoredSession) -> (r: SessionRow)
    ensures
        r@ == session_row_of(*ws, *session),
{
    SessionRow {
        project_path: owned_or(&ws.project_path, NO_VALUE),
        session_file: file_name_of(session.path.as_str(), UNKNOWN_NAME),
        last_modified: modified_stamp(session.modified),
        messages: session.record.request_count(),
    }
}

/// The row of a session that belongs to no workspace.
pub fn unattached_row(record: &SessionRecord) -> (r: SessionRow)
    ensures
        r@ == unattached_row_of(*record),
{
    SessionRow {
        project_path: String::from_str(ALL_SESSIONS),
        session_file: owned_or(&record.session_id, UNKNOWN_NAME).concat(SESSION_FILE_SUFFIX),
        last_modified: millis_stamp(record.last_message_date),
        messages: record.request_count(),
    }
}

/// Whether a workspace answers a query given in lower case.
pub fn workspace_answers(ws: &WorkspaceDescriptor, query_lower: &str) -> (r: bool)
    ensures
        r == answers_query(*ws, query_lower@),
{
    let by_path = match &ws.project_path {
        Some(path) => contains_lowercased(path.as_str(), query_lower),
        None => false,
    };
    by_path || contains_lowercased(ws.hash.as_str(), query_lower)
}

/// The rows of the first `upto` workspaces.
pub open spec fn workspace_rows_of(workspaces: Seq<WorkspaceDescriptor>) -> Seq<
    WorkspaceRowView,
> {
    Seq::new(workspaces.len(), |i: int| workspace_row_of(workspaces[i]))
}

/// The table of all workspaces: one row for each, in their order.
pub fn list_workspaces(workspaces: &Vec<WorkspaceDescriptor>) -> (rows: Vec<WorkspaceRow>)
    ensures
        rows.deep_view() == workspace_rows_of(workspaces@),
{
    let mut rows: Vec<WorkspaceRow> = Vec::new();
    let mut i: usize = 0;
    while i < workspaces.len()
        invariant
            i <= workspaces.len(),
            rows.len() == i,
            forall|k: int| 0 <= k < i ==> (#[trigger] rows[k])@ == workspace_row_of(workspaces[k]),
        decreases workspaces.len() - i,
    {
        rows.push(workspace_row(&workspaces[i]));
        i += 1;
    }
    rows
}

/// The session files of a workspace that answered a query.
#[derive(Clone, Debug, PartialEq, Eq)]
pub struct SessionPaths {
    /// The project path of the workspace, or `(none)`.
    pub project: String,
    /// The paths of its session files, in the order of its sessions.
    pub paths: Vec<String>,
}

/// What a `SessionPaths` stands for.
pub struct SessionPathsView {
    pub project: Seq<char>,
    pub paths: Seq<Seq<char>>,
}

impl View for SessionPaths {
    type V = SessionPathsView;

    open spec fn view(&self) -> SessionPathsView {
        SessionPathsView { project: self.project@, paths: self.paths.deep_view() }
    }
}

impl DeepView for SessionPaths {
    type V = SessionPathsView;

    open spec fn deep_view(&self) -> SessionPathsView {
        self@
    }
}

/// The workspaces that answer a query.
#[derive(Clone, Debug, PartialEq, Eq)]
pub struct WorkspaceMatches {
    /// The pattern that was sought.
    pub pattern: String,
    /// One row for each workspace that answers, in their order.
    pub rows: Vec<WorkspaceRow>,
    /// The session files of each workspace that answers and keeps sessions.
    pub sessions: Vec<SessionPaths>,
}

/// The pattern that is sought: the name of the current directory where the
/// pattern is a single dot and that name is known, else the pattern itself.
pub open spec fn resolved_pattern(pattern: Seq<char>, current_dir: Option<Seq<char>>) -> Seq<
    char,
> {
    match current_dir {
        Some(name) if pattern == CURRENT_DIRECTORY@ => name,
        _ => pattern,
    }
}

/// The rows of the workspaces among the first `upto` that answer the query.
pub open spec fn answering_rows(
    workspaces: Seq<WorkspaceSessions>,
    query_lower: Seq<char>,
    upto: int,
) -> Seq<WorkspaceRowView>
    decreases upto,
{
    if upto <= 0 {
        Seq::empty()
    } else if answers_query(workspaces[upto - 1].descriptor, query_lower) {
        answering_rows(workspaces, query_lower, upto - 1).push(
            workspace_row_of(workspaces[upto - 1].descriptor),
        )
    } else {
        answering_rows(workspaces, query_lower, upto - 1)
    }
}

/// The session files of a workspace.
pub open spec fn session_paths_of(ws: WorkspaceSessions) -> SessionPathsView {
    SessionPathsView {
        project: text_or(ws.descriptor.project_path, NO_VALUE@),
        paths: Seq::new(ws.sessions@.len(), |i: int| ws.sessions@[i].path@),
    }
}

/// The session files of the workspaces among the first `upto` that answer
/// the query and keep sessions.
pub open spec fn answering_session_paths(
    workspaces: Seq<WorkspaceSessions>,
    query_lower: Seq<char>,
    upto: int,
) -> Seq<SessionPathsView>
    decreases upto,
{
    if upto <= 0 {
        Seq::empty()
    } else if answers_query(workspaces[upto - 1].descriptor, query_lower) && workspaces[upto
        - 1].descriptor.has_sessions {
        answering_session_paths(workspaces, query_lower, upto - 1).push(
            session_paths_of(workspaces[upto - 1]),
        )
    } else {
        answering_session_paths(workspaces, query_lower, upto - 1)
    }
}

/// The pattern that is sought.
pub fn resolve_pattern(pattern: &str, current_dir: Option<&str>) -> (r: String)
    ensures
        r@ == resolved_pattern(pattern@, option_str_view(current_dir)),
{
    match current_dir {
        Some(name) => if str_eq(pattern, CURRENT_DIRECTORY) {
            String::from_str(name)
        } else {
            String::from_str(pattern)
        },
        None => String::from_str(pattern),
    }
}

/// The session files of a workspace.
pub fn session_paths(ws: &WorkspaceSessions) -> (r: SessionPaths)
    ensures
        r@ == session_paths_of(*ws),
{
    let mut paths: Vec<String> = Vec::new();
    let mut i: usize = 0;
    while i < ws.sessions.len()
        invariant
            i <= ws.sessions.len(),
            paths.len() == i,
            forall|k: int| 0 <= k < i ==> (#[trigger] paths[k])@ == ws.sessions@[k].path@,
        decreases ws.sessions.len() - i,
    {
        paths.push(ws.sessions[i].path.clone());
        i += 1;
    }
    assert(paths.deep_view() =~= session_paths_of(*ws).paths);
    SessionPaths { project: owned_or(&ws.descriptor.project_path, NO_VALUE), paths }
}

/// Finds the workspaces whose project path or hash holds a pattern, without
/// regard to case.
///
/// A pattern that is a single dot stands for the name of the current
/// directory, given as `current_dir` where it is known. Each workspace that
/// answers gets a row; each that keeps sessions too gets the list of its
/// session files.
pub fn find_workspaces(
    pattern: &str,
    current_dir: Option<&str>,
    workspaces: &Vec<WorkspaceSessions>,
) -> (r: WorkspaceMatches)
    ensures
        r.pattern@ == resolved_pattern(pattern@, option_str_view(current_dir)),
        r.rows.deep_view() == answering_rows(
            workspaces@,
            lowercase_of(r.pattern@),
            workspaces.len() as int,
        ),
        r.sessions.deep_view() == answering_session_paths(
            workspaces@,
            lowercase_of(r.pattern@),
            workspaces.len() as int,
        ),
{
    let sought = resolve_pattern(pattern, current_dir);
    let query = lowercase(sought.as_str());
    let mut rows: Vec<WorkspaceRow> = Vec::new();
    let mut sessions: Vec<SessionPaths> = Vec::new();
    let mut i: usize = 0;
    while i < workspaces.len()
        invariant
            i <= workspaces.len(),
            query@ == lowercase_of(sought@),
            rows.deep_view() == answering_rows(workspaces@, query@, i as int),
            sessions.deep_view() == answering_session_paths(workspaces@, query@, i as int),
        decreases workspaces.len() - i,
    {
        let ws = &workspaces[i];
        if workspace_answers(&ws.descriptor, query.as_str()) {
            rows.push(workspace_row(&ws.descriptor));
            if ws.descriptor.has_sessions {
                sessions.push(session_paths(ws));
            }
        }
        i += 1;
    }
    WorkspaceMatches { pattern: sought, rows, sessions }
}

/// A session as the details of its workspace list it.
#[derive(Clone, Debug, PartialEq, Eq)]
pub struct SessionLine {
    /// The session's title.
    pub title: String,
    /// The number of requests of the session.
    pub messages: usize,
}

/// What a `SessionLine` stands for.
pub struct SessionLineView {
    pub title: Seq<char>,
    pub messages: nat,
}

impl View for SessionLine {
    type V = SessionLineView;

    open spec fn view(&self) -> SessionLineView {
        SessionLineView { title: self.title@, messages: self.messages as nat }
    }
}

impl DeepView for SessionLine {
    type V = SessionLineView;

    open spec fn deep_view(&self) -> SessionLineView {
        self@
    }
}

/// The details of a workspace.
#[derive(Clone, Debug, PartialEq, Eq)]
pub struct WorkspaceDetails {
    /// The hash, in full.
    pub hash: String,
    /// The project path, or `(none)`.
    pub project_path: String,
    /// Whether the workspace keeps any session.
    pub has_sessions: bool,
    /// The workspace's directory.
    pub location: String,
    /// The sessions of the workspace, where it keeps any.
    pub sessions: Option<Vec<SessionLine>>,
}

/// What a `WorkspaceDetails` stands for.
pub struct WorkspaceDetailsView {
    pub hash: Seq<char>,
    pub project_path: Seq<char>,
    pub has_sessions: bool,
    pub location: Seq<char>,
    pub sessions: Option<Seq<SessionLineView>>,
}

impl View for WorkspaceDetails {
    type V = WorkspaceDetailsView;

    open spec fn view(&self) -> WorkspaceDetailsView {
        WorkspaceDetailsView {
            hash: self.hash@,
            project_path: self.project_path@,
            has_sessions: self.has_sessions,
            location: self.location@,
            sessions: self.sessions.deep_view(),
        }
    }
}

impl DeepView for WorkspaceDetails {
    type V = WorkspaceDetailsView;

    open spec fn deep_view(&self) -> WorkspaceDetailsView {
        self@
    }
}

/// The lines of the sessions of a workspace.
pub open spec fn session_lines_of(ws: WorkspaceSessions) -> Seq<SessionLineView> {
    Seq::new(
        ws.sessions@.len(),
        |i: int|
            SessionLineView {
                title: ws.sessions@[i].record.title@,
                messages: ws.sessions@[i].record.requests@.len(),
            },
    )
}

/// The details of a workspace.
pub open spec fn workspace_details_of(ws: WorkspaceSessions) -> WorkspaceDetailsView {
    WorkspaceDetailsView {
        hash: ws.descriptor.hash@,
        project_path: text_or(ws.descriptor.project_path, NO_VALUE@),
        has_sessions: ws.descriptor.has_sessions,
        location: ws.descriptor.location@,
        sessions: if ws.descriptor.has_sessions {
            Some(session_lines_of(ws))
        } else {
            None
        },
    }
}

/// The details of the workspaces among the first `upto` that answer the
/// query.
pub open spec fn answering_details(
    workspaces: Seq<WorkspaceSessions>,
    query_lower: Seq<char>,
    upto: int,
) -> Seq<WorkspaceDetailsView>
    decreases upto,
{
    if upto <= 0 {
        Seq::empty()
    } else if answers_query(workspaces[upto - 1].descriptor, query_lower) {
        answering_details(workspaces, query_lower, upto - 1).push(
            workspace_details_of(workspaces[upto - 1]),
        )
    } else {
        answering_details(workspaces, query_lower, upto - 1)
    }
}

/// The details of a workspace.
pub fn workspace_details(ws: &WorkspaceSessions) -> (r: WorkspaceDetails)
    ensures
        r@ == workspace_details_of(*ws),
{
    let sessions = if ws.descriptor.has_sessions {
        let mut lines: Vec<SessionLine> = Vec::new();
        let mut i: usize = 0;
        while i < ws.sessions.len()
            invariant
                i <= ws.sessions.len(),
                lines.len() == i,
                forall|k: int| 0 <= k < i ==> (#[trigger] lines[k])@ == session_lines_of(*ws)[k],
            decreases ws.sessions.len() - i,
        {
            let record = &ws.sessions[i].record;
            lines.push(
                SessionLine { title: record.title.clone(), messages: record.request_count() },
            );
            i += 1;
        }
        assert(lines.deep_view() =~= session_lines_of(*ws));
        Some(lines)
    } else {
        None
    };
    WorkspaceDetails {
        hash: ws.descriptor.hash.clone(),
        project_path: owned_or(&ws.descriptor.project_path, NO_VALUE),
        has_sessions: ws.descriptor.has_sessions,
        location: ws.descriptor.location.clone(),
        sessions,
    }
}

/// The details of each workspace whose hash or project path holds `query`,
/// without regard to case, in their order.
pub fn show_workspace(query: &str, workspaces: &Vec<WorkspaceSessions>) -> (r: Vec<
    WorkspaceDetails,
>)
    ensures
        r.deep_view() == answering_details(
            workspaces@,
            lowercase_of(query@),
            workspaces.len() as int,
        ),
{
    let query_lower = lowercase(query);
    let mut details: Vec<WorkspaceDetails> = Vec::new();
    let mut i: usize = 0;
    while i < workspaces.len()
        invariant
            i <= workspaces.len(),
            query_lower@ == lowercase_of(query@),
            details.deep_view() == answering_details(workspaces@, query_lower@, i as int),
        decreases workspaces.len() - i,
    {
        let ws = &workspaces[i];
        if workspace_answers(&ws.descriptor, query_lower.as_str()) {
            details.push(workspace_details(ws));
        }
        i += 1;
    }
    details
}

/// Whether the text of some request holds `query_lower`, without regard to
/// case.
pub open spec fn some_request_holds(requests: Seq<RequestEntry>, query_lower: Seq<char>) -> bool {
    exists|i: int|
        0 <= i < requests.len() && ((#[trigger] requests[i]).text matches Some(text)
            && contains_ignoring_case(text@, query_lower))
}

/// Whether a session answers a query: its id, its title or the text of one
/// of its requests holds `query_lower`, without regard to case.
pub open spec fn session_answers(record: SessionRecord, query_lower: Seq<char>) -> bool {
    ||| (record.session_id matches Some(id) && contains_ignoring_case(id@, query_lower))
    ||| contains_ignoring_case(record.title@, query_lower)
    ||| some_request_holds(record.requests@, query_lower)
}

/// Whether a session is among those asked for: all where there is no query,
/// else those that answer it.
pub open spec fn session_selected(record: SessionRecord, query_lower: Option<Seq<char>>) -> bool {
    query_lower matches Some(query) ==> session_answers(record, query)
}

/// The rows of the sessions among the first `upto` of a workspace that are
/// asked for.
pub open spec fn selected_rows(
    ws: WorkspaceSessions,
    query_lower: Option<Seq<char>>,
    upto: int,
) -> Seq<SessionRowView>
    decreases upto,
{
    if upto <= 0 {
        Seq::empty()
    } else if session_selected(ws.sessions@[upto - 1].record, query_lower) {
        selected_rows(ws, query_lower, upto - 1).push(
            session_row_of(ws.descriptor, ws.sessions@[upto - 1]),
        )
    } else {
        selected_rows(ws, query_lower, upto - 1)
    }
}

/// The rows that a workspace adds to a table of sessions: those of its
/// sessions that are asked for, where the command reads the workspace.
pub open spec fn rows_of_workspace(
    ws: WorkspaceSessions,
    project: Option<Seq<char>>,
    query_lower: Option<Seq<char>>,
) -> Seq<SessionRowView> {
    if ws.is_read(project) {
        selected_rows(ws, query_lower, ws.sessions@.len() as int)
    } else {
        Seq::empty()
    }
}

/// The rows of the first `upto` workspaces, workspace by workspace.
pub open spec fn rows_of_workspaces(
    workspaces: Seq<WorkspaceSessions>,
    project: Option<Seq<char>>,
    query_lower: Option<Seq<char>>,
    upto: int,
) -> Seq<SessionRowView>
    decreases upto,
{
    if upto <= 0 {
        Seq::empty()
    } else {
        rows_of_workspaces(workspaces, project, query_lower, upto - 1) + rows_of_workspace(
            workspaces[upto - 1],
            project,
            query_lower,
        )
    }
}

/// The rows of the sessions that belong to no workspace. They are listed
/// only where no project is asked for, and where they could be read.
pub open spec fn unattached_rows(
    project: Option<Seq<char>>,
    unattached: Option<Seq<SessionRecord>>,
) -> Seq<SessionRowView> {
    match unattached {
        Some(records) if project is None => Seq::new(
            records.len(),
            |i: int| unattached_row_of(records[i]),
        ),
        _ => Seq::empty(),
    }
}

/// Whether the text of some request holds `query_lower`.
pub fn any_request_holds(requests: &Vec<RequestEntry>, query_lower: &str) -> (r: bool)
    ensures
        r == some_request_holds(requests@, query_lower@),
{
    let mut i: usize = 0;
    while i < requests.len()
        invariant
            i <= requests.len(),
            forall|k: int|
                0 <= k < i ==> !((#[trigger] requests@[k]).text matches Some(text)
                    && contains_ignoring_case(text@, query_lower@)),
        decreases requests.len() - i,
    {
        match &requests[i].text {
            Some(text) => {
                if contains_lowercased(text.as_str(), query_lower) {
                    return true;
                }
            },
            None => {},
        }
        i += 1;
    }
    false
}

/// Whether a session answers a query given in lower case.
pub fn session_matches(record: &SessionRecord, query_lower: &str) -> (r: bool)
    ensures
        r == session_answers(*record, query_lower@),
{
    let by_id = match &record.session_id {
        Some(id) => contains_lowercased(id.as_str(), query_lower),
        None => false,
    };
    by_id || contains_lowercased(record.title.as_str(), query_lower) || any_request_holds(
        &record.requests,
        query_lower,
    )
}

/// The rows of the workspaces that a command reads, for the sessions that
/// are asked for.
fn collect_session_rows(
    workspaces: &Vec<WorkspaceSessions>,
    project: Option<&str>,
    query_lower: Option<&str>,
    rows: &mut Vec<SessionRow>,
)
    ensures
        final(rows).deep_view() == old(rows).deep_view() + rows_of_workspaces(
            workspaces@,
            option_str_view(project),
            option_str_view(query_lower),
            workspaces.len() as int,
        ),
{
    let ghost start = rows.deep_view();
    let ghost scope = option_str_view(project);
    let ghost query = option_str_view(query_lower);
    let mut w: usize = 0;
    while w < workspaces.len()
        invariant
            w <= workspaces.len(),
            scope == option_str_view(project),
            query == option_str_view(query_lower),
            rows.deep_view() == start + rows_of_workspaces(workspaces@, scope, query, w as int),
        decreases workspaces.len() - w,
    {
        let ws = &workspaces[w];
        let ghost before = rows.deep_view();
        if ws.wants_sessions(project) {
            let mut j: usize = 0;
            while j < ws.sessions.len()
                invariant
                    j <= ws.sessions.len(),
                    query == option_str_view(query_lower),
                    rows.deep_view() == before + selected_rows(*ws, query, j as int),
                decreases ws.sessions.len() - j,
            {
                let session = &ws.sessions[j];
                let selected = match query_lower {
                    Some(q) => session_matches(&session.record, q),
                    None => true,
                };
                if selected {
                    let ghost prior = rows.deep_view();
                    rows.push(session_row(&ws.descriptor, session));
                    assert(rows.deep_view() =~= prior.push(
                        session_row_of(ws.descriptor, *session),
                    ));
                }
                j += 1;
            }
        }
        w += 1;
    }
}

/// The view of an optional list of session records.
pub open spec fn option_records_view(records: Option<&Vec<SessionRecord>>) -> Option<
    Seq<SessionRecord>,
> {
    match records {
        Some(list) => Some(list@),
        None => None,
    }
}

/// The table of sessions.
///
/// Where no project is asked for, the sessions that belong to no workspace
/// come first, given as `unattached` where they could be read. Then come the
/// sessions of each workspace in scope that keeps sessions: all workspaces
/// where no project is asked for, else those whose project path is `project`
/// when both are put in normal form.
pub fn list_sessions(
    project: Option<&str>,
    unattached: Option<&Vec<SessionRecord>>,
    workspaces: &Vec<WorkspaceSessions>,
) -> (rows: Vec<SessionRow>)
    ensures
        rows.deep_view() == unattached_rows(
            option_str_view(project),
            option_records_view(unattached),
        ) + rows_of_workspaces(
            workspaces@,
            option_str_view(project),
            None,
            workspaces.len() as int,
        ),
{
    let mut rows: Vec<SessionRow> = Vec::new();
    if project.is_none() {
        match unattached {
            Some(records) => {
                let mut i: usize = 0;
                while i < records.len()
                    invariant
                        i <= records.len(),
                        rows.len() == i,
                        forall|k: int|
                            0 <= k < i ==> (#[trigger] rows[k])@ == unattached_row_of(records[k]),
                    decreases records.len() - i,
                {
                    rows.push(unattached_row(&records[i]));
                    i += 1;
                }
            },
            None => {},
        }
    }
    collect_session_rows(workspaces, project, None, &mut rows);
    rows
}

/// The table of the sessions that hold a pattern, without regard to case, in
/// their id, their title or the text of one of their requests. The sessions
/// of each workspace in scope that keeps sessions are looked at.
pub fn find_sessions(
    pattern: &str,
    project: Option<&str>,
    workspaces: &Vec<WorkspaceSessions>,
) -> (rows: Vec<SessionRow>)
    ensures
        rows.deep_view() == rows_of_workspaces(
            workspaces@,
            option_str_view(project),
            Some(lowercase_of(pattern@)),
            workspaces.len() as int,
        ),
{
    let query = lowercase(pattern);
    let mut rows: Vec<SessionRow> = Vec::new();
    collect_session_rows(workspaces, project, Some(query.as_str()), &mut rows);
    rows
}

/// The preview of a message.
#[derive(Clone, Debug, PartialEq, Eq)]
pub struct PreviewLine {
    /// The number of the request among the session's requests, from 1.
    pub number: usize,
    /// The first `PREVIEW_CHARS` characters of the message.
    pub text: String,
    /// Whether the message is longer than what is shown: it holds more than
    /// `PREVIEW_CHARS` bytes.
    pub truncated: bool,
}

/// What a `PreviewLine` stands for.
pub struct PreviewLineView {
    pub number: nat,
    pub text: Seq<char>,
    pub truncated: bool,
}

impl View for PreviewLine {
    type V = PreviewLineView;

    open spec fn view(&self) -> PreviewLineView {
        PreviewLineView { number: self.number as nat, text: self.text@, truncated: self.truncated }
    }
}

impl DeepView for PreviewLine {
    type V = PreviewLineView;

    open spec fn deep_view(&self) -> PreviewLineView {
        self@
    }
}

/// The details of a session.
#[derive(Clone, Debug, PartialEq, Eq)]
pub struct SessionDetails {
    /// The session's title.
    pub title: String,
    /// The name of the session file; empty where the path has none.
    pub file_name: String,
    /// The session's id, or `(none)`.
    pub session_id: String,
    /// The number of requests of the session.
    pub messages: usize,
    /// The project path of the session's workspace, or `(none)`.
    pub workspace: String,
    /// The previews of the messages of the first requests.
    pub preview: Vec<PreviewLine>,
}

/// What a `SessionDetails` stands for.
pub struct SessionDetailsView {
    pub title: Seq<char>,
    pub file_name: Seq<char>,
    pub session_id: Seq<char>,
    pub messages: nat,
    pub workspace: Seq<char>,
    pub preview: Seq<PreviewLineView>,
}

impl View for SessionDetails {
    type V = SessionDetailsView;

    open spec fn view(&self) -> SessionDetailsView {
        SessionDetailsView {
            title: self.title@,
            file_name: self.file_name@,
            session_id: self.session_id@,
            messages: self.messages as nat,
            workspace: self.workspace@,
            preview: self.preview.deep_view(),
        }
    }
}

impl DeepView for SessionDetails {
    type V = SessionDetailsView;

    open spec fn deep_view(&self) -> SessionDetailsView {
        self@
    }
}

/// Whether a session is the one sought: its id or the name of its file holds
/// `query_lower`, without regard to case.
pub open spec fn session_is_sought(session: StoredSession, query_lower: Seq<char>) -> bool {
    ||| (session.record.session_id matches Some(id) && contains_ignoring_case(id@, query_lower))
    ||| contains_ignoring_case(file_name_or(session.path@, Seq::empty()), query_lower)
}

/// The index of the first session of a workspace, from `from` on, that is
/// the one sought.
pub open spec fn first_sought_in(
    ws: WorkspaceSessions,
    query_lower: Seq<char>,
    from: int,
) -> Option<int>
    decreases ws.sessions@.len() - from,
{
    if from < 0 || from >= ws.sessions@.len() {
        None
    } else if session_is_sought(ws.sessions@[from], query_lower) {
        Some(from)
    } else {
        first_sought_in(ws, query_lower, from + 1)
    }
}

/// The first session sought, from the workspace `from` on: the index of its
/// workspace and its index among the sessions of that workspace. Only the
/// workspaces that the command reads are looked at.
pub open spec fn first_sought(
    workspaces: Seq<WorkspaceSessions>,
    project: Option<Seq<char>>,
    query_lower: Seq<char>,
    from: int,
) -> Option<(int, int)>
    decreases workspaces.len() - from,
{
    if from < 0 || from >= workspaces.len() {
        None
    } else if workspaces[from].is_read(project) && first_sought_in(
        workspaces[from],
        query_lower,
        0,
    ) is Some {
        Some((from, first_sought_in(workspaces[from], query_lower, 0)->0))
    } else {
        first_sought(workspaces, project, query_lower, from + 1)
    }
}

/// The previews of the messages among the first `upto` requests: one for
/// each request that has a message text.
pub open spec fn preview_of(requests: Seq<RequestEntry>, upto: int) -> Seq<PreviewLineView>
    decreases upto,
{
    if upto <= 0 {
        Seq::empty()
    } else {
        match requests[upto - 1].text {
            Some(text) => preview_of(requests, upto - 1).push(
                PreviewLineView {
                    number: upto as nat,
                    text: leading(text@, PREVIEW_CHARS as int),
                    truncated: encode_utf8(text@).len() > PREVIEW_CHARS,
                },
            ),
            None => preview_of(requests, upto - 1),
        }
    }
}

/// The number of requests of which a preview is shown.
pub open spec fn preview_span(requests: Seq<RequestEntry>) -> int {
    if requests.len() < PREVIEW_REQUESTS {
        requests.len() as int
    } else {
        PREVIEW_REQUESTS as int
    }
}

/// The details of a session of the workspace `ws`.
pub open spec fn session_details_of(
    ws: WorkspaceDescriptor,
    session: StoredSession,
) -> SessionDetailsView {
    SessionDetailsView {
        title: session.record.title@,
        file_name: file_name_or(session.path@, Seq::empty()),
        session_id: text_or(session.record.session_id, NO_VALUE@),
        messages: session.record.requests@.len(),
        workspace: text_or(ws.project_path, NO_VALUE@),
        preview: preview_of(session.record.requests@, preview_span(session.record.requests@)),
    }
}

/// The details of the session that `show_session` shows, if it finds one.
pub open spec fn shown_session(
    workspaces: Seq<WorkspaceSessions>,
    project: Option<Seq<char>>,
    query_lower: Seq<char>,
) -> Option<SessionDetailsView> {
    match first_sought(workspaces, project, query_lower, 0) {
        Some((w, s)) => Some(
            session_details_of(workspaces[w].descriptor, workspaces[w].sessions@[s]),
        ),
        None => None,
    }
}

/// Whether a session is the one sought, the query given in lower case.
pub fn session_sought(session: &StoredSession, query_lower: &str) -> (r: bool)
    ensures
        r == session_is_sought(*session, query_lower@),
{
    let by_id = match &session.record.session_id {
        Some(id) => contains_lowercased(id.as_str(), query_lower),
        None => false,
    };
    if by_id {
        return true;
    }
    let name = file_name_of(session.path.as_str(), "");
    assert(""@ =~= Seq::<char>::empty()) by {
        reveal_strlit("");
    }
    contains_lowercased(name.as_str(), query_lower)
}

/// The details of a session of the workspace `ws`.
pub fn session_details(ws: &WorkspaceDescriptor, session: &StoredSession) -> (r: SessionDetails)
    ensures
        r@ == session_details_of(*ws, *session),
{
    let requests = &session.record.requests;
    let span: usize = if requests.len() < PREVIEW_REQUESTS {
        requests.len()
    } else {
        PREVIEW_REQUESTS
    };
    let mut preview: Vec<PreviewLine> = Vec::new();
    let mut i: usize = 0;
    while i < span
        invariant
            i <= span <= requests.len(),
            preview.deep_view() == preview_of(requests@, i as int),
        decreases span - i,
    {
        match &requests[i].text {
            Some(text) => {
                let message = text.as_str();
                let line = PreviewLine {
                    number: i + 1,
                    text: leading_chars(message, PREVIEW_CHARS),
                    truncated: message.as_bytes().len() > PREVIEW_CHARS,
                };
                preview.push(line);
            },
            None => {},
        }
        i += 1;
    }
    assert(""@ =~= Seq::<char>::empty()) by {
        reveal_strlit("");
    }
    SessionDetails {
        title: session.record.title.clone(),
        file_name: file_name_of(session.path.as_str(), ""),
        session_id: owned_or(&session.record.session_id, NO_VALUE),
        messages: session.record.request_count(),
        workspace: owned_or(&ws.project_path, NO_VALUE),
        preview,
    }
}

/// The details of the first session whose id or file name holds
/// `session_id`, without regard to case.
///
/// The workspaces in scope that keep sessions are looked at in their order,
/// and the sessions of each in theirs. `None` where no session is found.
pub fn show_session(
    session_id: &str,
    project: Option<&str>,
    workspaces: &Vec<WorkspaceSessions>,
) -> (r: Option<SessionDetails>)
    ensures
        r.deep_view() == shown_session(
            workspaces@,
            option_str_view(project),
            lowercase_of(session_id@),
        ),
{
    let query = lowercase(session_id);
    let ghost scope = option_str_view(project);
    let mut w: usize = 0;
    while w < workspaces.len()
        invariant
            w <= workspaces.len(),
            scope == option_str_view(project),
            query@ == lowercase_of(session_id@),
            first_sought(workspaces@, scope, query@, 0) == first_sought(
                workspaces@,
                scope,
                query@,
                w as int,
            ),
        decreases workspaces.len() - w,
    {
        let ws = &workspaces[w];
        if ws.wants_sessions(project) {
            let mut j: usize = 0;
            while j < ws.sessions.len()
                invariant
                    j <= ws.sessions.len(),
                    w < workspaces.len(),
                    *ws == workspaces@[w as int],
                    ws.is_read(scope),
                    scope == option_str_view(project),
                    query@ == lowercase_of(session_id@),
                    first_sought(workspaces@, scope, query@, 0) == first_sought(
                        workspaces@,
                        scope,
                        query@,
                        w as int,
                    ),
                    first_sought_in(*ws, query@, 0) == first_sought_in(*ws, query@, j as int),
                decreases ws.sessions.len() - j,
            {
                if session_sought(&ws.sessions[j], query.as_str()) {
                    return Some(session_details(&ws.descriptor, &ws.sessions[j]));
                }
                j += 1;
            }
        }
        w += 1;
    }
    None
}

} // verus!
