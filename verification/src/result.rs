//! What a search gives back: one result per session that matched, tagged with
//! the criterion that made it match.
use vstd::prelude::*;

verus! {

/// The criterion by which a session matched the pattern.
#[derive(Clone, Copy, Debug, PartialEq, Eq, Structural)]
pub enum MatchKind {
    /// The pattern was empty: every session is listed.
    ListAll,
    /// The pattern stands in the session's id.
    Id,
    /// The pattern stands in the session's title.
    Title,
    /// The pattern stands in the session's text.
    Content,
}

impl MatchKind {
    /// The tag under which the kind is shown.
    pub open spec fn tag(self) -> Seq<char> {
        match self {
            MatchKind::ListAll => ""@,
            MatchKind::Id => "ID"@,
            MatchKind::Title => "title"@,
            MatchKind::Content => "content"@,
        }
    }

    /// The tag under which the kind is shown: empty where every session is
    /// listed.
    pub fn label(&self) -> (r: &'static str)
        ensures
            r@ == self.tag(),
    {
        match self {
            MatchKind::ListAll => "",
            MatchKind::Id => "ID",
            MatchKind::Title => "title",
            MatchKind::Content => "content",
        }
    }
}

/// A session that matched.
#[derive(Clone, Debug, PartialEq, Eq)]
pub struct SearchResult {
    /// The session's title, or the default title where it has none.
    pub title: String,
    /// The label of the session's workspace.
    pub workspace: String,
    /// When the session file was last modified: `YYYY-MM-DD HH:MM` in UTC, or
    /// `unknown`.
    pub modified: String,
    /// The approximate number of messages in the session.
    pub message_count: usize,
    /// The criterion by which the session matched.
    pub match_kind: MatchKind,
}

/// What a `SearchResult` stands for.
pub struct ResultView {
    pub title: Seq<char>,
    pub workspace: Seq<char>,
    pub modified: Seq<char>,
    pub message_count: nat,
    pub match_kind: MatchKind,
}

impl View for SearchResult {
    type V = ResultView;

    open spec fn view(&self) -> ResultView {
        ResultView {
            title: self.title@,
            workspace: self.workspace@,
            modified: self.modified@,
            message_count: self.message_count as nat,
            match_kind: self.match_kind,
        }
    }
}

impl DeepView for SearchResult {
    type V = ResultView;

    open spec fn deep_view(&self) -> ResultView {
        self@
    }
}

} // verus!
