//! Workspaces and sessions as the commands read them: already found on disk
//! and loaded.
use crate::path::{normalize_path, normalized};
use crate::text::{option_str_view, str_eq};
use vstd::prelude::*;

verus! {

/// A workspace: a storage directory that belongs to one project.
#[derive(Clone, Debug, PartialEq, Eq)]
pub struct WorkspaceDescriptor {
    /// The name of the workspace's directory: an opaque hash.
    pub hash: String,
    /// The path of the project, where the workspace's descriptor names one.
    pub project_path: Option<String>,
    /// The workspace's directory.
    pub location: String,
    /// The number of sessions kept in the workspace.
    pub session_count: usize,
    /// Whether the workspace keeps any session.
    pub has_sessions: bool,
}

/// One request of a session.
#[derive(Clone, Debug, PartialEq, Eq)]
pub struct RequestEntry {
    /// The text of the request's message, where it has one.
    pub text: Option<String>,
}

/// A session as it was read from its document.
#[derive(Clone, Debug, PartialEq, Eq)]
pub struct SessionRecord {
    /// The session's id, where the document holds one.
    pub session_id: Option<String>,
    /// The session's title.
    pub title: String,
    /// The session's requests, in their order.
    pub requests: Vec<RequestEntry>,
    /// When the last message was written, in milliseconds since 1970-01-01
    /// 00:00 UTC.
    pub last_message_date: i64,
}

/// A session with the file it was read from.
#[derive(Clone, Debug, PartialEq, Eq)]
pub struct StoredSession {
    /// The path of the session file.
    pub path: String,
    /// When the file was last modified, in seconds since 1970-01-01 00:00
    /// UTC; `None` where that is not known.
    pub modified: Option<i64>,
    /// The session.
    pub record: SessionRecord,
}

/// A workspace with its sessions.
#[derive(Clone, Debug, PartialEq, Eq)]
pub struct WorkspaceSessions {
    /// The workspace.
    pub descriptor: WorkspaceDescriptor,
    /// The sessions of the workspace. They need be loaded only where the
    /// command looks into the workspace.
    pub sessions: Vec<StoredSession>,
}

impl SessionRecord {
    /// The number of requests of the session.
    pub fn request_count(&self) -> (n: usize)
        ensures
            n == self.requests@.len(),
    {
        self.requests.len()
    }
}

impl WorkspaceSessions {
    /// Whether a command that asks for the project `project` looks at the
    /// workspace: every workspace where no project is asked for, else those
    /// whose project path is the one asked for. Paths are compared in normal
    /// form.
    pub open spec fn in_scope(self, project: Option<Seq<char>>) -> bool {
        project matches Some(path) ==> (self.descriptor.project_path matches Some(own)
            && normalized(own@) == normalized(path))
    }

    /// Whether a command that asks for `project` loads the sessions of the
    /// workspace: it is in scope and keeps sessions.
    pub open spec fn is_read(self, project: Option<Seq<char>>) -> bool {
        self.in_scope(project) && self.descriptor.has_sessions
    }

    /// Whether a command that asks for `project` loads the sessions of the
    /// workspace.
    pub fn wants_sessions(&self, project: Option<&str>) -> (r: bool)
        ensures
            r == self.is_read(option_str_view(project)),
    {
        if !self.descriptor.has_sessions {
            return false;
        }
        match project {
            None => true,
            Some(path) => match &self.descriptor.project_path {
                Some(own) => {
                    let wanted = normalize_path(path);
                    let given = normalize_path(own.as_str());
                    str_eq(given.as_str(), wanted.as_str())
                },
                None => false,
            },
        }
    }
}

} // verus!
