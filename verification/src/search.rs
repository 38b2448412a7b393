//! The scan of the candidates: each is held to the date bounds, then read,
//! given a title and classified against the pattern; what matched is ranked
//! and cut to the limit.
//!
//! The stages are laid out by what they cost. The date filter needs the
//! file's modification time only, and comes before the file is read.
use crate::rank::{
    lemma_ranked_is_permutation, lemma_ranked_len, newest_first, rank_results, ranked,
    ranked_and_cut,
};
use crate::result::{MatchKind, ResultView, SearchResult};
use crate::text::{
    contains_ignoring_case, contains_lowercased, count_occurrences, count_occurrences_in,
    lowercase, lowercase_of, option_str_view, to_chars,
};
use crate::timestamp::{
    date_bounds_of, date_verdict, modified_day, modified_stamp, parse_date_bounds, parsed_date,
    stamp_of, survives_date_filter, BoundSide, DateBounds, DateVerdict,
};
use crate::title::{extract_title_from_content, title_of};
use crate::workspace::{
    candidate_in, candidates_of, count_searched, index_candidates, lemma_candidates_in,
    searched_count, Candidate, CandidateView, StoredFile, StoredWorkspace,
};
use vstd::prelude::*;
use vstd::seq_lib::to_multiset_contains;

verus! {

/// The title shown for a session that has none.
pub const DEFAULT_TITLE: &'static str = "Untitled";

/// The marker whose occurrences are counted as messages.
pub const MESSAGE_MARKER: &'static str = "\"message\":";

/// Why a search could not be made.
#[derive(Clone, Copy, Debug, PartialEq, Eq, Structural)]
pub enum SearchError {
    /// There is no storage root, so there are no workspaces to search.
    StorageRootMissing,
    /// The text given for a date bound holds no date.
    DateBoundUnparseable(BoundSide),
}

/// What a search looks for.
#[derive(Debug)]
pub struct SearchCriteria {
    pattern: String,
    pattern_lower: String,
    workspace_filter: Option<String>,
    workspace_filter_lower: Option<String>,
    title_only: bool,
    search_content: bool,
    bounds: DateBounds,
    limit: usize,
}

/// What a `SearchCriteria` stands for.
pub struct CriteriaView {
    /// The pattern; empty to list every session.
    pub pattern: Seq<char>,
    /// The text that a workspace's hash or project path must hold.
    pub workspace_filter: Option<Seq<char>>,
    /// Whether the pattern is sought in ids and titles only.
    pub title_only: bool,
    /// Whether the pattern is sought in the text of a session too.
    pub search_content: bool,
    /// The days within which a session file must have been modified.
    pub bounds: DateBounds,
    /// The greatest number of results to give back.
    pub limit: nat,
}

impl CriteriaView {
    /// The pattern in lower case, as it is sought.
    pub open spec fn pattern_lower(self) -> Seq<char> {
        lowercase_of(self.pattern)
    }

    /// The workspace filter in lower case, as it is sought.
    pub open spec fn filter_lower(self) -> Option<Seq<char>> {
        match self.workspace_filter {
            Some(filter) => Some(lowercase_of(filter)),
            None => None,
        }
    }

    /// Whether every session is listed: the pattern is empty.
    pub open spec fn lists_all(self) -> bool {
        self.pattern.len() == 0
    }
}

impl View for SearchCriteria {
    type V = CriteriaView;

    closed spec fn view(&self) -> CriteriaView {
        CriteriaView {
            pattern: self.pattern@,
            workspace_filter: match self.workspace_filter {
                Some(filter) => Some(filter@),
                None => None,
            },
            title_only: self.title_only,
            search_content: self.search_content,
            bounds: self.bounds,
            limit: self.limit as nat,
        }
    }
}

impl SearchCriteria {
    /// The lower-case forms are those of the pattern and of the filter.
    #[verifier::type_invariant]
    spec fn well_formed(&self) -> bool {
        &&& self.pattern_lower@ == lowercase_of(self.pattern@)
        &&& match (self.workspace_filter, self.workspace_filter_lower) {
            (Some(filter), Some(lower)) => lower@ == lowercase_of(filter@),
            (None, None) => true,
            _ => false,
        }
    }

    /// Criteria with date bounds that were read already.
    pub fn new(
        pattern: &str,
        workspace_filter: Option<&str>,
        title_only: bool,
        search_content: bool,
        bounds: DateBounds,
        limit: usize,
    ) -> (c: SearchCriteria)
        ensures
            c@ == (CriteriaView {
                pattern: pattern@,
                workspace_filter: option_str_view(workspace_filter),
                title_only,
                search_content,
                bounds,
                limit: limit as nat,
            }),
    {
        let (filter, filter_lower) = match workspace_filter {
            Some(filter) => (Some(filter.to_owned()), Some(lowercase(filter))),
            None => (None, None),
        };
        SearchCriteria {
            pattern: pattern.to_owned(),
            pattern_lower: lowercase(pattern),
            workspace_filter: filter,
            workspace_filter_lower: filter_lower,
            title_only,
            search_content,
            bounds,
            limit,
        }
    }

    /// The pattern.
    pub fn pattern(&self) -> (r: &str)
        ensures
            r@ == self@.pattern,
    {
        self.pattern.as_str()
    }

    /// The pattern in lower case.
    pub fn pattern_lower(&self) -> (r: &str)
        ensures
            r@ == self@.pattern_lower(),
    {
        proof {
            use_type_invariant(self);
        }
        self.pattern_lower.as_str()
    }

    /// The workspace filter.
    pub fn workspace_filter(&self) -> (r: Option<&str>)
        ensures
            option_str_view(r) == self@.workspace_filter,
    {
        match &self.workspace_filter {
            Some(filter) => Some(filter.as_str()),
            None => None,
        }
    }

    /// The workspace filter in lower case.
    pub fn workspace_filter_lower(&self) -> (r: Option<&str>)
        ensures
            option_str_view(r) == self@.filter_lower(),
    {
        proof {
            use_type_invariant(self);
        }
        match &self.workspace_filter_lower {
            Some(filter) => Some(filter.as_str()),
            None => None,
        }
    }

    /// Whether the pattern is sought in ids and titles only.
    pub fn title_only(&self) -> (r: bool)
        ensures
            r == self@.title_only,
    {
        self.title_only
    }

    /// Whether the pattern is sought in the text of a session too.
    pub fn search_content(&self) -> (r: bool)
        ensures
            r == self@.search_content,
    {
        self.search_content
    }

    /// The date bounds.
    pub fn bounds(&self) -> (r: DateBounds)
        ensures
            r == self@.bounds,
    {
        self.bounds
    }

    /// The greatest number of results to give back.
    pub fn limit(&self) -> (r: usize)
        ensures
            r as nat == self@.limit,
    {
        self.limit
    }

    /// Criteria whose date bounds are given as text, each as `YYYY-MM-DD`.
    ///
    /// A supplied bound that holds no date is refused, `after` before
    /// `before`: it is never taken for an absent bound.
    pub fn parse(
        pattern: &str,
        workspace_filter: Option<&str>,
        title_only: bool,
        search_content: bool,
        after: Option<&str>,
        before: Option<&str>,
        limit: usize,
    ) -> (r: Result<SearchCriteria, SearchError>)
        ensures
            match r {
                Ok(c) => parsed_bounds(after, before) == Ok::<DateBounds, BoundSide>(c@.bounds)
                    && c@ == (CriteriaView {
                    pattern: pattern@,
                    workspace_filter: option_str_view(workspace_filter),
                    title_only,
                    search_content,
                    bounds: c@.bounds,
                    limit: limit as nat,
                }),
                Err(e) => (parsed_bounds(after, before) matches Err(side) && e
                    == SearchError::DateBoundUnparseable(side)),
            },
    {
        match parse_date_bounds(after, before) {
            Ok(bounds) => Ok(
                SearchCriteria::new(
                    pattern,
                    workspace_filter,
                    title_only,
                    search_content,
                    bounds,
                    limit,
                ),
            ),
            Err(side) => Err(SearchError::DateBoundUnparseable(side)),
        }
    }
}

/// The date bounds read from two optional texts, or the side of the first
/// supplied text that holds no date.
pub open spec fn parsed_bounds(after: Option<&str>, before: Option<&str>) -> Result<
    DateBounds,
    BoundSide,
> {
    date_bounds_of(
        match after {
            Some(text) => Some(parsed_date(text@)),
            None => None,
        },
        match before {
            Some(text) => Some(parsed_date(text@)),
            None => None,
        },
    )
}

/// The title under which a session is shown: its own, or the default.
pub open spec fn display_title(content: Seq<char>) -> Seq<char> {
    match title_of(content) {
        Some(title) => title,
        None => DEFAULT_TITLE@,
    }
}

/// The approximate number of messages of a session: the number of times the
/// message marker stands in its text. A marker inside a quoted message body
/// is counted too.
pub open spec fn message_count_of(content: Seq<char>) -> nat {
    count_occurrences(content, MESSAGE_MARKER@)
}

/// The kind of a match, by priority: every session is listed where all are
/// asked for; else a pattern found in the id counts before one found in the
/// title, and that before one found in the text. `None` where the session
/// does not match.
pub open spec fn kind_by_priority(
    lists_all: bool,
    in_id: bool,
    in_title: bool,
    in_content: bool,
) -> Option<MatchKind> {
    if lists_all {
        Some(MatchKind::ListAll)
    } else if in_id {
        Some(MatchKind::Id)
    } else if in_title {
        Some(MatchKind::Title)
    } else if in_content {
        Some(MatchKind::Content)
    } else {
        None
    }
}

/// How a session matches the criteria, if it does. Every session matches an
/// empty pattern. Otherwise the pattern is sought, without regard to case, in
/// the session's id, then in its title, then in its text if the text is
/// searched at all: the first that holds it gives the kind.
pub open spec fn match_kind_of(
    c: CriteriaView,
    session_id: Seq<char>,
    title: Seq<char>,
    content: Seq<char>,
) -> Option<MatchKind> {
    kind_by_priority(
        c.lists_all(),
        contains_ignoring_case(session_id, c.pattern_lower()),
        contains_ignoring_case(title, c.pattern_lower()),
        c.search_content && !c.title_only && contains_ignoring_case(content, c.pattern_lower()),
    )
}

/// The result that a candidate with the text `content` gives, if it matches.
pub open spec fn result_of(
    c: CriteriaView,
    candidate: CandidateView,
    modified: Option<i64>,
    content: Seq<char>,
) -> Option<ResultView> {
    match match_kind_of(c, candidate.session_id, display_title(content), content) {
        Some(kind) => Some(
            ResultView {
                title: display_title(content),
                workspace: candidate.workspace_label,
                modified: stamp_of(modified),
                message_count: message_count_of(content),
                match_kind: kind,
            },
        ),
        None => None,
    }
}

/// What became of a candidate in the scan.
#[derive(Clone, Debug, PartialEq, Eq)]
pub enum ScanOutcome {
    /// The file was modified outside the date bounds. It was not read.
    SkippedByDate,
    /// A date bound is set, and the day of the file's modification cannot be
    /// told. It was not read.
    Undated,
    /// The file could not be read.
    Unreadable,
    /// The file was read and does not match.
    NoMatch,
    /// The file was read and matches.
    Matched(SearchResult),
}

/// What a `ScanOutcome` stands for.
pub enum OutcomeView {
    SkippedByDate,
    Undated,
    Unreadable,
    NoMatch,
    Matched(ResultView),
}

impl View for ScanOutcome {
    type V = OutcomeView;

    open spec fn view(&self) -> OutcomeView {
        match self {
            ScanOutcome::SkippedByDate => OutcomeView::SkippedByDate,
            ScanOutcome::Undated => OutcomeView::Undated,
            ScanOutcome::Unreadable => OutcomeView::Unreadable,
            ScanOutcome::NoMatch => OutcomeView::NoMatch,
            ScanOutcome::Matched(result) => OutcomeView::Matched(result@),
        }
    }
}

impl DeepView for ScanOutcome {
    type V = OutcomeView;

    open spec fn deep_view(&self) -> OutcomeView {
        self@
    }
}

/// What becomes of a candidate whose file was modified at `modified` and
/// holds `content`, or cannot be read where `content` is `None`.
pub open spec fn outcome_of(
    c: CriteriaView,
    candidate: CandidateView,
    modified: Option<i64>,
    content: Option<Seq<char>>,
) -> OutcomeView {
    match date_verdict(modified, c.bounds.after, c.bounds.before) {
        DateVerdict::Outside => OutcomeView::SkippedByDate,
        DateVerdict::Unknown => OutcomeView::Undated,
        DateVerdict::Admitted => match content {
            None => OutcomeView::Unreadable,
            Some(text) => match result_of(c, candidate, modified, text) {
                Some(result) => OutcomeView::Matched(result),
                None => OutcomeView::NoMatch,
            },
        },
    }
}

/// The priority law: a session whose id holds the pattern is reported as a
/// match by id, whatever its title and its text hold.
pub proof fn lemma_id_match_has_priority(
    c: CriteriaView,
    session_id: Seq<char>,
    title: Seq<char>,
    content: Seq<char>,
)
    requires
        !c.lists_all(),
        contains_ignoring_case(session_id, c.pattern_lower()),
    ensures
        match_kind_of(c, session_id, title, content) == Some(MatchKind::Id),
        forall|in_title: bool, in_content: bool|
            kind_by_priority(false, true, in_title, in_content) == Some(MatchKind::Id),
{
}

/// A session is listed without a kind only where the pattern is empty, and
/// then every session is.
pub proof fn lemma_list_all_iff_empty_pattern(
    c: CriteriaView,
    session_id: Seq<char>,
    title: Seq<char>,
    content: Seq<char>,
)
    ensures
        match_kind_of(c, session_id, title, content) == Some(MatchKind::ListAll)
            <==> c.lists_all(),
{
}

/// With an empty pattern every candidate that survives the date filter and
/// can be read is a match, and is listed without a kind.
pub proof fn lemma_empty_pattern_matches_all(
    c: CriteriaView,
    candidate: CandidateView,
    modified: Option<i64>,
    content: Seq<char>,
)
    requires
        c.lists_all(),
        survives_date_filter(modified, c.bounds.after, c.bounds.before),
    ensures
        (outcome_of(c, candidate, modified, Some(content)) matches OutcomeView::Matched(result)
            && result.match_kind == MatchKind::ListAll),
{
}

/// A candidate matches only if its file survives the date filter: for each
/// bound that is set, the day of its modification is known and lies on the
/// right side of the bound, the bound's own day included.
pub proof fn lemma_match_within_date_bounds(
    c: CriteriaView,
    candidate: CandidateView,
    modified: Option<i64>,
    content: Option<Seq<char>>,
)
    requires
        outcome_of(c, candidate, modified, content) is Matched,
    ensures
        survives_date_filter(modified, c.bounds.after, c.bounds.before),
        c.bounds.after matches Some(after) ==> (modified_day(modified) matches Some(day)
            && after <= day),
        c.bounds.before matches Some(before) ==> (modified_day(modified) matches Some(day) && day
            <= before),
{
}

/// The kind of a match, by priority.
pub fn match_kind_by_priority(lists_all: bool, in_id: bool, in_title: bool, in_content: bool) -> (r:
    Option<MatchKind>)
    ensures
        r == kind_by_priority(lists_all, in_id, in_title, in_content),
        lists_all ==> r == Some(MatchKind::ListAll),
        !lists_all && in_id ==> r == Some(MatchKind::Id),
        r is None <==> !(lists_all || in_id || in_title || in_content),
{
    if lists_all {
        Some(MatchKind::ListAll)
    } else if in_id {
        Some(MatchKind::Id)
    } else if in_title {
        Some(MatchKind::Title)
    } else if in_content {
        Some(MatchKind::Content)
    } else {
        None
    }
}

/// How a session matches the criteria, if it does.
///
/// The title is looked at only where the id does not hold the pattern, and
/// the text only where neither does and the text is to be searched: it is
/// put in lower case no sooner.
pub fn classify(criteria: &SearchCriteria, session_id: &str, title: &str, content: &str) -> (r:
    Option<MatchKind>)
    ensures
        r == match_kind_of(criteria@, session_id@, title@, content@),
        criteria@.lists_all() ==> r == Some(MatchKind::ListAll),
        !criteria@.lists_all() && contains_ignoring_case(session_id@, criteria@.pattern_lower())
            ==> r == Some(MatchKind::Id),
{
    let lists_all = criteria.pattern().is_empty();
    let pattern = criteria.pattern_lower();
    let in_id = !lists_all && contains_lowercased(session_id, pattern);
    let in_title = !lists_all && !in_id && contains_lowercased(title, pattern);
    let in_content = !lists_all && !in_id && !in_title && criteria.search_content()
        && !criteria.title_only() && contains_lowercased(content, pattern);
    match_kind_by_priority(lists_all, in_id, in_title, in_content)
}

/// The approximate number of messages of a session.
pub fn approximate_message_count(content: &str) -> (n: usize)
    ensures
        n as nat == message_count_of(content@),
{
    let chars = to_chars(content);
    let marker = to_chars(MESSAGE_MARKER);
    count_occurrences_in(&chars, &marker)
}

/// The result that a candidate gives whose file was read, if it matches.
pub fn evaluate_content(
    criteria: &SearchCriteria,
    candidate: &Candidate,
    modified: Option<i64>,
    content: &str,
) -> (r: Option<SearchResult>)
    ensures
        r.deep_view() == result_of(criteria@, candidate@, modified, content@),
{
    let title = match extract_title_from_content(content) {
        Some(title) => title,
        None => DEFAULT_TITLE.to_owned(),
    };
    match classify(criteria, candidate.session_id.as_str(), title.as_str(), content) {
        Some(kind) => Some(
            SearchResult {
                title,
                workspace: candidate.workspace_label.clone(),
                modified: modified_stamp(modified),
                message_count: approximate_message_count(content),
                match_kind: kind,
            },
        ),
        None => None,
    }
}

/// What becomes of a candidate that the date filter drops, by the
/// modification time of its file alone.
pub open spec fn date_outcome_of(c: CriteriaView, modified: Option<i64>) -> Option<OutcomeView> {
    match date_verdict(modified, c.bounds.after, c.bounds.before) {
        DateVerdict::Outside => Some(OutcomeView::SkippedByDate),
        DateVerdict::Unknown => Some(OutcomeView::Undated),
        DateVerdict::Admitted => None,
    }
}

/// The first stage of the scan, which needs the modification time of the file
/// only: what becomes of the candidate where the date filter drops it, and
/// `None` where its file is to be read.
pub fn date_stage(criteria: &SearchCriteria, modified: Option<i64>) -> (r: Option<ScanOutcome>)
    ensures
        r.deep_view() == date_outcome_of(criteria@, modified),
        r is None <==> survives_date_filter(
            modified,
            criteria@.bounds.after,
            criteria@.bounds.before,
        ),
{
    match criteria.bounds().verdict(modified) {
        DateVerdict::Outside => Some(ScanOutcome::SkippedByDate),
        DateVerdict::Unknown => Some(ScanOutcome::Undated),
        DateVerdict::Admitted => None,
    }
}

/// What becomes of a candidate, given its file's modification time and its
/// text, `None` for a file that could not be read.
///
/// The text is not looked at where the date filter drops the candidate.
pub fn scan_candidate(
    criteria: &SearchCriteria,
    candidate: &Candidate,
    modified: Option<i64>,
    content: Option<&str>,
) -> (r: ScanOutcome)
    ensures
        r@ == outcome_of(criteria@, candidate@, modified, option_str_view(content)),
        r is Matched ==> survives_date_filter(
            modified,
            criteria@.bounds.after,
            criteria@.bounds.before,
        ),
        criteria@.lists_all() && content is Some && survives_date_filter(
            modified,
            criteria@.bounds.after,
            criteria@.bounds.before,
        ) ==> (r matches ScanOutcome::Matched(result) && result.match_kind
            == MatchKind::ListAll),
{
    match date_stage(criteria, modified) {
        Some(dropped) => {
            return dropped;
        },
        None => {},
    }
    match content {
        None => ScanOutcome::Unreadable,
        Some(text) => match evaluate_content(criteria, candidate, modified, text) {
            Some(result) => ScanOutcome::Matched(result),
            None => ScanOutcome::NoMatch,
        },
    }
}

/// The number of candidates among the first `upto` that were skipped by
/// date.
pub open spec fn skipped_among(outcomes: Seq<OutcomeView>, upto: int) -> nat
    decreases upto,
{
    if upto <= 0 {
        0
    } else if outcomes[upto - 1] is SkippedByDate {
        skipped_among(outcomes, upto - 1) + 1
    } else {
        skipped_among(outcomes, upto - 1)
    }
}

/// The number of candidates among the first `upto` that were dropped because
/// the day of their modification could not be told.
pub open spec fn undated_among(outcomes: Seq<OutcomeView>, upto: int) -> nat
    decreases upto,
{
    if upto <= 0 {
        0
    } else if outcomes[upto - 1] is Undated {
        undated_among(outcomes, upto - 1) + 1
    } else {
        undated_among(outcomes, upto - 1)
    }
}

/// The number of candidates among the first `upto` that were scanned: those
/// that survived the date filter, whether or not their file could be read.
pub open spec fn scanned_among(outcomes: Seq<OutcomeView>, upto: int) -> nat
    decreases upto,
{
    if upto <= 0 {
        0
    } else if outcomes[upto - 1] is SkippedByDate || outcomes[upto - 1] is Undated {
        scanned_among(outcomes, upto - 1)
    } else {
        scanned_among(outcomes, upto - 1) + 1
    }
}

/// The counting law: every candidate is skipped by date, dropped for want of
/// a date, or scanned. So the scanned and the skipped together are no more
/// than all, and are all where no candidate lacked a date.
pub proof fn lemma_counts_add_up(outcomes: Seq<OutcomeView>, upto: int)
    requires
        0 <= upto <= outcomes.len(),
    ensures
        scanned_among(outcomes, upto) + skipped_among(outcomes, upto) + undated_among(
            outcomes,
            upto,
        ) == upto,
        scanned_among(outcomes, upto) + skipped_among(outcomes, upto) <= upto,
    decreases upto,
{
    if upto > 0 {
        lemma_counts_add_up(outcomes, upto - 1);
    }
}

/// The results of the candidates among the first `upto` that matched, in the
/// order of the candidates.
pub open spec fn matches_among(outcomes: Seq<OutcomeView>, upto: int) -> Seq<ResultView>
    decreases upto,
{
    if upto <= 0 {
        Seq::empty()
    } else {
        match outcomes[upto - 1] {
            OutcomeView::Matched(result) => matches_among(outcomes, upto - 1).push(result),
            _ => matches_among(outcomes, upto - 1),
        }
    }
}

/// What a scan found, with the counts that explain it.
#[derive(Clone, Debug, PartialEq, Eq)]
pub struct ScanSummary {
    /// The matches, newest first, cut to the limit.
    pub results: Vec<SearchResult>,
    /// The number of candidates that survived the date filter: those whose
    /// file was to be read, whether or not it could be.
    pub scanned: usize,
    /// The number of candidates that the date filter dropped.
    pub skipped_by_date: usize,
    /// The number of candidates.
    pub total_candidates: usize,
    /// Whether as many results are given as the limit allows, so that there
    /// may be more matches than are shown.
    pub limit_reached: bool,
}

impl ScanSummary {
    /// The number of results given.
    pub fn matched(&self) -> (n: usize)
        ensures
            n == self.results.len(),
    {
        self.results.len()
    }
}

/// Sums up a scan: counts the candidates, ranks what matched and cuts it to
/// `limit`.
///
/// A candidate counts as scanned once it has survived the date filter, also
/// where its file could not be read. The scanned and the skipped together are
/// no more than all candidates, and are all of them unless a candidate was
/// dropped for want of a date. The outcomes may come in any order: the order
/// of the results is that of the ranking, and among equal stamps that of the
/// outcomes.
pub fn summarize(outcomes: Vec<ScanOutcome>, limit: usize) -> (s: ScanSummary)
    ensures
        s.results.deep_view() == ranked_and_cut(
            matches_among(outcomes.deep_view(), outcomes.len() as int),
            limit as int,
        ),
        s.total_candidates == outcomes.len(),
        s.skipped_by_date as nat == skipped_among(outcomes.deep_view(), outcomes.len() as int),
        s.scanned as nat == scanned_among(outcomes.deep_view(), outcomes.len() as int),
        s.scanned + s.skipped_by_date <= s.total_candidates,
        undated_among(outcomes.deep_view(), outcomes.len() as int) == 0 ==> s.scanned
            + s.skipped_by_date == s.total_candidates,
        s.results.len() <= limit,
        s.limit_reached == (s.results.len() == limit),
        newest_first(s.results.deep_view()),
{
    let total = outcomes.len();
    let ghost all = outcomes.deep_view();
    let mut matches: Vec<SearchResult> = Vec::new();
    let mut skipped: usize = 0;
    let mut scanned: usize = 0;
    for outcome in it: outcomes
        invariant
            it.seq() == outcomes@,
            all == outcomes.deep_view(),
            total == outcomes@.len(),
            it.index() <= total,
            skipped as nat == skipped_among(all, it.index() as int),
            scanned as nat == scanned_among(all, it.index() as int),
            matches.deep_view() == matches_among(all, it.index() as int),
    {
        proof {
            lemma_counts_add_up(all, it.index() as int);
        }
        match outcome {
            ScanOutcome::SkippedByDate => {
                skipped += 1;
            },
            ScanOutcome::Undated => {},
            ScanOutcome::Matched(result) => {
                scanned += 1;
                matches.push(result);
            },
            _ => {
                scanned += 1;
            },
        }
    }
    proof {
        lemma_counts_add_up(all, total as int);
    }
    let results = rank_results(matches, limit);
    let limit_reached = results.len() == limit;
    ScanSummary {
        results,
        scanned,
        skipped_by_date: skipped,
        total_candidates: total,
        limit_reached,
    }
}

/// The text of a stored file, where it was read.
pub open spec fn content_view(file: StoredFile) -> Option<Seq<char>> {
    match file.content {
        Some(text) => Some(text@),
        None => None,
    }
}

/// The stored file that a candidate names.
pub open spec fn file_of(workspaces: Seq<StoredWorkspace>, candidate: CandidateView) -> StoredFile {
    workspaces[candidate.workspace_index].files@[candidate.file_index]
}

/// What becomes of a candidate, by what is stored of its file.
pub open spec fn outcome_at(
    c: CriteriaView,
    workspaces: Seq<StoredWorkspace>,
    candidate: CandidateView,
) -> OutcomeView {
    outcome_of(
        c,
        candidate,
        file_of(workspaces, candidate).modified,
        content_view(file_of(workspaces, candidate)),
    )
}

/// The candidates of a search over stored workspaces.
pub open spec fn candidates_for(
    c: CriteriaView,
    workspaces: Seq<StoredWorkspace>,
) -> Seq<CandidateView> {
    candidates_of(workspaces, c.filter_lower(), workspaces.len() as int)
}

/// What becomes of each candidate of a search over stored workspaces.
pub open spec fn outcomes_for(c: CriteriaView, workspaces: Seq<StoredWorkspace>) -> Seq<
    OutcomeView,
> {
    Seq::new(
        candidates_for(c, workspaces).len(),
        |i: int| outcome_at(c, workspaces, candidates_for(c, workspaces)[i]),
    )
}

/// Every match of a search over stored workspaces, in the order of the
/// candidates, before ranking and cut.
pub open spec fn matches_for(c: CriteriaView, workspaces: Seq<StoredWorkspace>) -> Seq<
    ResultView,
> {
    matches_among(outcomes_for(c, workspaces), outcomes_for(c, workspaces).len() as int)
}

/// The results of a search over stored workspaces: its matches, ranked and
/// cut to the limit.
pub open spec fn found(c: CriteriaView, workspaces: Seq<StoredWorkspace>) -> Seq<ResultView> {
    ranked_and_cut(matches_for(c, workspaces), c.limit as int)
}

/// What a search over stored workspaces gives.
#[derive(Clone, Debug, PartialEq, Eq)]
pub struct SearchReport {
    /// The number of workspaces that were searched: those with a sessions
    /// directory that meet the workspace filter.
    pub workspaces_searched: usize,
    /// What the scan of their session files found.
    pub summary: ScanSummary,
}

impl SearchReport {
    /// Whether the report is that of the search for `c` over `workspaces`.
    pub open spec fn describes(self, c: CriteriaView, workspaces: Seq<StoredWorkspace>) -> bool {
        &&& self.workspaces_searched as nat == searched_count(
            workspaces,
            c.filter_lower(),
            workspaces.len() as int,
        )
        &&& self.summary.results.deep_view() == found(c, workspaces)
        &&& self.summary.total_candidates == candidates_for(c, workspaces).len()
        &&& self.summary.skipped_by_date as nat == skipped_among(
            outcomes_for(c, workspaces),
            outcomes_for(c, workspaces).len() as int,
        )
        &&& self.summary.scanned as nat == scanned_among(
            outcomes_for(c, workspaces),
            outcomes_for(c, workspaces).len() as int,
        )
        &&& self.summary.scanned + self.summary.skipped_by_date <= self.summary.total_candidates
        &&& self.summary.limit_reached == (self.summary.results.len() == c.limit)
    }
}

/// Each match is the result of a candidate that matched.
pub proof fn lemma_matches_come_from_outcomes(outcomes: Seq<OutcomeView>, upto: int, k: int)
    requires
        upto <= outcomes.len(),
        0 <= k < matches_among(outcomes, upto).len(),
    ensures
        exists|i: int|
            0 <= i < upto && #[trigger] outcomes[i] == OutcomeView::Matched(
                matches_among(outcomes, upto)[k],
            ),
    decreases upto,
{
    if upto > 0 {
        let before = matches_among(outcomes, upto - 1);
        if k < before.len() {
            lemma_matches_come_from_outcomes(outcomes, upto - 1, k);
        } else {
            assert(outcomes[upto - 1] == OutcomeView::Matched(matches_among(outcomes, upto)[k]));
        }
    }
}

/// Each result that is given back is one of the matches.
pub proof fn lemma_found_is_a_match(results: Seq<ResultView>, limit: int, k: int)
    requires
        0 <= limit,
        0 <= k < ranked_and_cut(results, limit).len(),
    ensures
        results.contains(ranked_and_cut(results, limit)[k]),
{
    let given = ranked_and_cut(results, limit)[k];
    lemma_ranked_len(results);
    lemma_ranked_is_permutation(results);
    to_multiset_contains(ranked(results), given);
    to_multiset_contains(results, given);
}

/// Whether the file of a candidate was modified within the date bounds: for
/// each bound that is set, the day of its modification is known and lies on
/// the right side of the bound, the bound's own day included.
pub open spec fn modified_within(
    c: CriteriaView,
    workspaces: Seq<StoredWorkspace>,
    candidate: CandidateView,
) -> bool {
    let day = modified_day(file_of(workspaces, candidate).modified);
    &&& c.bounds.after matches Some(after) ==> (day matches Some(d) && after <= d)
    &&& c.bounds.before matches Some(before) ==> (day matches Some(d) && d <= before)
}

/// The date law: each result of a search over stored workspaces is the
/// result of a candidate whose file was modified within the date bounds.
pub proof fn lemma_found_within_date_bounds(
    c: CriteriaView,
    workspaces: Seq<StoredWorkspace>,
    k: int,
)
    requires
        0 <= k < found(c, workspaces).len(),
    ensures
        exists|i: int|
            {
                &&& 0 <= i < candidates_for(c, workspaces).len()
                &&& candidate_in(
                    #[trigger] candidates_for(c, workspaces)[i],
                    workspaces,
                    c.filter_lower(),
                )
                &&& outcome_at(c, workspaces, candidates_for(c, workspaces)[i])
                    == OutcomeView::Matched(found(c, workspaces)[k])
                &&& modified_within(c, workspaces, candidates_for(c, workspaces)[i])
            },
{
    let outcomes = outcomes_for(c, workspaces);
    let matches = matches_for(c, workspaces);
    let given = found(c, workspaces)[k];
    lemma_found_is_a_match(matches, c.limit as int, k);
    let m = choose|m: int| 0 <= m < matches.len() && matches[m] == given;
    lemma_matches_come_from_outcomes(outcomes, outcomes.len() as int, m);
    let i = choose|i: int|
        0 <= i < outcomes.len() && #[trigger] outcomes[i] == OutcomeView::Matched(matches[m]);
    lemma_candidates_in(workspaces, c.filter_lower(), workspaces.len() as int);
    let candidate = candidates_for(c, workspaces)[i];
    assert(outcomes[i] == outcome_at(c, workspaces, candidate));
    assert(candidate_in(candidate, workspaces, c.filter_lower()));
    assert(modified_within(c, workspaces, candidate));
}

/// A candidate that matched has its result among the matches.
pub proof fn lemma_matched_is_among_matches(outcomes: Seq<OutcomeView>, upto: int, i: int)
    requires
        0 <= i < upto <= outcomes.len(),
        outcomes[i] is Matched,
    ensures
        matches_among(outcomes, upto).contains(outcomes[i]->Matched_0),
    decreases upto,
{
    let result = outcomes[i]->Matched_0;
    let all = matches_among(outcomes, upto);
    if i == upto - 1 {
        assert(all[all.len() - 1] == result);
    } else {
        lemma_matched_is_among_matches(outcomes, upto - 1, i);
        let before = matches_among(outcomes, upto - 1);
        let k = choose|k: int| 0 <= k < before.len() && before[k] == result;
        assert(all[k] == result);
    }
}

/// The list-all law: with an empty pattern, every candidate whose file
/// survives the date filter and can be read is among the matches before the
/// cut, and is listed without a kind.
pub proof fn lemma_empty_pattern_lists_every_readable_survivor(
    c: CriteriaView,
    workspaces: Seq<StoredWorkspace>,
    i: int,
)
    requires
        c.lists_all(),
        0 <= i < candidates_for(c, workspaces).len(),
        survives_date_filter(
            file_of(workspaces, candidates_for(c, workspaces)[i]).modified,
            c.bounds.after,
            c.bounds.before,
        ),
        file_of(workspaces, candidates_for(c, workspaces)[i]).content is Some,
    ensures
        outcomes_for(c, workspaces)[i] is Matched,
        outcomes_for(c, workspaces)[i]->Matched_0.match_kind == MatchKind::ListAll,
        matches_for(c, workspaces).contains(outcomes_for(c, workspaces)[i]->Matched_0),
{
    let outcomes = outcomes_for(c, workspaces);
    lemma_matched_is_among_matches(outcomes, outcomes.len() as int, i);
}

/// With an empty pattern, every result is listed without a kind.
pub proof fn lemma_empty_pattern_gives_no_kind(
    c: CriteriaView,
    workspaces: Seq<StoredWorkspace>,
    k: int,
)
    requires
        c.lists_all(),
        0 <= k < found(c, workspaces).len(),
    ensures
        found(c, workspaces)[k].match_kind == MatchKind::ListAll,
{
    lemma_found_within_date_bounds(c, workspaces, k);
}

/// Searches stored workspaces.
///
/// The workspaces with a sessions directory that meet the workspace filter
/// are searched. Their session files are the candidates. Each is held to the
/// date bounds, and where it survives them its text is classified; what
/// matched is ranked newest first and cut to the limit.
pub fn search_workspaces(criteria: &SearchCriteria, workspaces: &Vec<StoredWorkspace>) -> (r:
    SearchReport)
    ensures
        r.describes(criteria@, workspaces@),
        r.summary.results.len() <= criteria@.limit,
        newest_first(r.summary.results.deep_view()),
{
    let filter = criteria.workspace_filter_lower();
    let searched = count_searched(workspaces, filter);
    let candidates = index_candidates(workspaces, filter);
    let ghost c = criteria@;
    let ghost expected = outcomes_for(c, workspaces@);
    let mut outcomes: Vec<ScanOutcome> = Vec::new();
    let mut i: usize = 0;
    while i < candidates.len()
        invariant
            i <= candidates.len(),
            c == criteria@,
            expected == outcomes_for(c, workspaces@),
            candidates.deep_view() == candidates_for(c, workspaces@),
            forall|k: int|
                0 <= k < candidates.len() ==> candidate_in(
                    (#[trigger] candidates[k])@,
                    workspaces@,
                    c.filter_lower(),
                ),
            outcomes.len() == i,
            forall|k: int| 0 <= k < i ==> (#[trigger] outcomes[k])@ == expected[k],
        decreases candidates.len() - i,
    {
        let candidate = &candidates[i];
        let file = &workspaces[candidate.workspace_index].files[candidate.file_index];
        let outcome = scan_candidate(
            criteria,
            candidate,
            file.modified,
            match &file.content {
                Some(text) => Some(text.as_str()),
                None => None,
            },
        );
        outcomes.push(outcome);
        i += 1;
    }
    assert(outcomes.deep_view() =~= expected);
    SearchReport { workspaces_searched: searched, summary: summarize(outcomes, criteria.limit()) }
}

/// Finds the sessions that match a pattern in the workspaces stored under
/// the storage root, `None` standing for a storage root that does not exist.
///
/// The date bounds are read first, each as `YYYY-MM-DD`; a supplied bound
/// that holds no date is refused before anything is searched. A missing
/// storage root is reported next. Otherwise the report of the search is
/// given, which may hold no result.
pub fn find_sessions_filtered(
    pattern: &str,
    workspace_filter: Option<&str>,
    title_only: bool,
    search_content: bool,
    after: Option<&str>,
    before: Option<&str>,
    limit: usize,
    storage: Option<&Vec<StoredWorkspace>>,
) -> (r: Result<SearchReport, SearchError>)
    ensures
        match r {
            Ok(report) => {
                &&& storage matches Some(workspaces)
                &&& parsed_bounds(after, before) matches Ok(bounds)
                &&& report.describes(
                    CriteriaView {
                        pattern: pattern@,
                        workspace_filter: option_str_view(workspace_filter),
                        title_only,
                        search_content,
                        bounds,
                        limit: limit as nat,
                    },
                    workspaces@,
                )
                &&& report.summary.results.len() <= limit
                &&& newest_first(report.summary.results.deep_view())
            },
            Err(SearchError::DateBoundUnparseable(side)) => parsed_bounds(after, before) == Err::<
                DateBounds,
                BoundSide,
            >(side),
            Err(SearchError::StorageRootMissing) => parsed_bounds(after, before) is Ok
                && storage is None,
        },
{
    let criteria = match SearchCriteria::parse(
        pattern,
        workspace_filter,
        title_only,
        search_content,
        after,
        before,
        limit,
    ) {
        Ok(criteria) => criteria,
        Err(e) => {
            return Err(e);
        },
    };
    match storage {
        Some(workspaces) => Ok(search_workspaces(&criteria, workspaces)),
        None => Err(SearchError::StorageRootMissing),
    }
}

} // verus!
