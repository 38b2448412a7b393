//! Workspaces under the storage root: which of them a search looks into, how
//! each is labelled, and the flat list of session files that they hold.
use crate::path::{decode_workspace_folder, decoded_folder, last_segment, path_last_segment};
use crate::text::{
    contains_ignoring_case, contains_lowercased, leading, leading_chars, matches_at,
    option_str_view, to_chars,
};
use vstd::prelude::*;
use vstd::string::StrSliceExecFns;

verus! {

/// The number of characters of a hash that label a workspace without a
/// project path.
pub const LABEL_HASH_CHARS: usize = 8;

/// The extension of a session file, without its dot.
pub const SESSION_EXTENSION: &'static str = "json";

/// A file in the sessions directory of a workspace, with what is known of it.
#[derive(Clone, Debug, PartialEq, Eq)]
pub struct StoredFile {
    /// The file's name within the sessions directory.
    pub name: String,
    /// When the file was last modified, in seconds since 1970-01-01 00:00 UTC;
    /// `None` where that is not known.
    pub modified: Option<i64>,
    /// The file's text; `None` where it was not read, or could not be.
    pub content: Option<String>,
}

/// A workspace directory under the storage root.
#[derive(Clone, Debug, PartialEq, Eq)]
pub struct StoredWorkspace {
    /// The directory's name: an opaque hash that identifies the workspace.
    pub hash: String,
    /// Whether the directory holds a sessions directory.
    pub has_sessions_dir: bool,
    /// The folder reference of the workspace's descriptor, as it is written
    /// there: it names the project that the workspace belongs to. `None`
    /// where the descriptor is unreadable or holds no reference.
    pub folder: Option<String>,
    /// The files of the sessions directory, in the order in which they were
    /// listed.
    pub files: Vec<StoredFile>,
}

/// A session file that passed the workspace filters and is up for the scan.
#[derive(Clone, Debug, PartialEq, Eq)]
pub struct Candidate {
    /// The index of the file's workspace among the workspaces given.
    pub workspace_index: usize,
    /// The index of the file among the files of its workspace.
    pub file_index: usize,
    /// The label of the file's workspace.
    pub workspace_label: String,
    /// The session's id: the file's name without its extension.
    pub session_id: String,
}

/// What a `Candidate` stands for.
pub struct CandidateView {
    pub workspace_index: int,
    pub file_index: int,
    pub workspace_label: Seq<char>,
    pub session_id: Seq<char>,
}

impl View for Candidate {
    type V = CandidateView;

    open spec fn view(&self) -> CandidateView {
        CandidateView {
            workspace_index: self.workspace_index as int,
            file_index: self.file_index as int,
            workspace_label: self.workspace_label@,
            session_id: self.session_id@,
        }
    }
}

impl DeepView for Candidate {
    type V = CandidateView;

    open spec fn deep_view(&self) -> CandidateView {
        self@
    }
}

/// The label under which a workspace is shown: the last segment of its
/// project path, or the first `LABEL_HASH_CHARS` characters of its hash where
/// it has no project path, or one without a segment.
pub open spec fn label_of(hash: Seq<char>, project_path: Option<Seq<char>>) -> Seq<char> {
    match project_path {
        Some(path) if last_segment(path) is Some => last_segment(path)->0,
        _ => leading(hash, LABEL_HASH_CHARS as int),
    }
}

/// Whether a workspace meets the filter: its hash or its project path holds
/// `filter_lower`, without regard to case.
pub open spec fn meets_filter(
    hash: Seq<char>,
    project_path: Option<Seq<char>>,
    filter_lower: Seq<char>,
) -> bool {
    ||| contains_ignoring_case(hash, filter_lower)
    ||| (project_path matches Some(path) && contains_ignoring_case(path, filter_lower))
}

/// The position of the dot that starts the extension of a file name: its last
/// dot, unless that is the name's first character.
pub open spec fn extension_dot(name: Seq<char>, upto: int) -> Option<int>
    decreases upto,
{
    if upto <= 1 || upto > name.len() {
        None
    } else if name[upto - 1] == '.' {
        Some(upto - 1)
    } else {
        extension_dot(name, upto - 1)
    }
}

/// Whether a file of the sessions directory is a session file: its name ends
/// in a dot and `SESSION_EXTENSION`, in lower case, behind at least one other
/// character.
pub open spec fn is_session_file_name(name: Seq<char>) -> bool {
    match extension_dot(name, name.len() as int) {
        Some(dot) => name.subrange(dot + 1, name.len() as int) == SESSION_EXTENSION@,
        None => false,
    }
}

/// The name of a file without its extension.
pub open spec fn file_stem(name: Seq<char>) -> Seq<char> {
    match extension_dot(name, name.len() as int) {
        Some(dot) => name.take(dot),
        None => name,
    }
}

/// The candidate that the file at `file_index` of workspace `ws` makes, `ws`
/// standing at `workspace_index`.
pub open spec fn candidate_of(
    ws: StoredWorkspace,
    workspace_index: int,
    file_index: int,
) -> CandidateView {
    CandidateView {
        workspace_index,
        file_index,
        workspace_label: ws.label(),
        session_id: file_stem(ws.files@[file_index].name@),
    }
}

/// The candidates among the first `upto` files of a workspace: its session
/// files, in the order in which they are listed.
pub open spec fn file_candidates(
    ws: StoredWorkspace,
    workspace_index: int,
    upto: int,
) -> Seq<CandidateView>
    decreases upto,
{
    if upto <= 0 {
        Seq::empty()
    } else if is_session_file_name(ws.files@[upto - 1].name@) {
        file_candidates(ws, workspace_index, upto - 1).push(
            candidate_of(ws, workspace_index, upto - 1),
        )
    } else {
        file_candidates(ws, workspace_index, upto - 1)
    }
}

/// The candidates of one workspace: all its session files where a search
/// looks into it, none elsewhere.
pub open spec fn workspace_candidates(
    ws: StoredWorkspace,
    workspace_index: int,
    filter_lower: Option<Seq<char>>,
) -> Seq<CandidateView> {
    if ws.survives(filter_lower) {
        file_candidates(ws, workspace_index, ws.files@.len() as int)
    } else {
        Seq::empty()
    }
}

/// The candidates of the first `upto` workspaces, workspace by workspace.
pub open spec fn candidates_of(
    workspaces: Seq<StoredWorkspace>,
    filter_lower: Option<Seq<char>>,
    upto: int,
) -> Seq<CandidateView>
    decreases upto,
{
    if upto <= 0 {
        Seq::empty()
    } else {
        candidates_of(workspaces, filter_lower, upto - 1) + workspace_candidates(
            workspaces[upto - 1],
            upto - 1,
            filter_lower,
        )
    }
}

/// The number of workspaces among the first `upto` that a search looks into.
pub open spec fn searched_count(
    workspaces: Seq<StoredWorkspace>,
    filter_lower: Option<Seq<char>>,
    upto: int,
) -> nat
    decreases upto,
{
    if upto <= 0 {
        0
    } else if workspaces[upto - 1].survives(filter_lower) {
        searched_count(workspaces, filter_lower, upto - 1) + 1
    } else {
        searched_count(workspaces, filter_lower, upto - 1)
    }
}

/// Whether a candidate names a session file of a workspace that the search
/// looks into.
pub open spec fn candidate_in(
    c: CandidateView,
    workspaces: Seq<StoredWorkspace>,
    filter_lower: Option<Seq<char>>,
) -> bool {
    &&& 0 <= c.workspace_index < workspaces.len()
    &&& workspaces[c.workspace_index].survives(filter_lower)
    &&& 0 <= c.file_index < workspaces[c.workspace_index].files@.len()
    &&& c == candidate_of(workspaces[c.workspace_index], c.workspace_index, c.file_index)
    &&& is_session_file_name(workspaces[c.workspace_index].files@[c.file_index].name@)
}

/// Every candidate of a workspace names one of its session files.
pub proof fn lemma_file_candidates_in(
    workspaces: Seq<StoredWorkspace>,
    filter_lower: Option<Seq<char>>,
    workspace_index: int,
    upto: int,
)
    requires
        0 <= workspace_index < workspaces.len(),
        workspaces[workspace_index].survives(filter_lower),
        upto <= workspaces[workspace_index].files@.len(),
    ensures
        forall|i: int|
            0 <= i < file_candidates(workspaces[workspace_index], workspace_index, upto).len()
                ==> candidate_in(
                #[trigger] file_candidates(workspaces[workspace_index], workspace_index, upto)[i],
                workspaces,
                filter_lower,
            ),
    decreases upto,
{
    if upto > 0 {
        let ws = workspaces[workspace_index];
        let before = file_candidates(ws, workspace_index, upto - 1);
        let all = file_candidates(ws, workspace_index, upto);
        lemma_file_candidates_in(workspaces, filter_lower, workspace_index, upto - 1);
        lemma_file_candidates_len(ws, workspace_index, upto - 1);
        assert forall|i: int| 0 <= i < all.len() implies candidate_in(
            #[trigger] all[i],
            workspaces,
            filter_lower,
        ) by {
            if i < before.len() {
                assert(all[i] == before[i]);
            }
        }
    }
}

/// A workspace has at most as many candidates as files.
pub proof fn lemma_file_candidates_len(ws: StoredWorkspace, workspace_index: int, upto: int)
    ensures
        file_candidates(ws, workspace_index, upto).len() <= if upto < 0 {
            0
        } else {
            upto
        },
    decreases upto,
{
    if upto > 0 {
        lemma_file_candidates_len(ws, workspace_index, upto - 1);
    }
}

/// Every candidate names a session file of a workspace that has a sessions
/// directory and meets the filter: no other file is ever scanned.
pub proof fn lemma_candidates_in(
    workspaces: Seq<StoredWorkspace>,
    filter_lower: Option<Seq<char>>,
    upto: int,
)
    requires
        upto <= workspaces.len(),
    ensures
        forall|i: int|
            0 <= i < candidates_of(workspaces, filter_lower, upto).len() ==> candidate_in(
                #[trigger] candidates_of(workspaces, filter_lower, upto)[i],
                workspaces,
                filter_lower,
            ),
    decreases upto,
{
    if upto > 0 {
        lemma_candidates_in(workspaces, filter_lower, upto - 1);
        let before = candidates_of(workspaces, filter_lower, upto - 1);
        let added = workspace_candidates(workspaces[upto - 1], upto - 1, filter_lower);
        let all = candidates_of(workspaces, filter_lower, upto);
        if workspaces[upto - 1].survives(filter_lower) {
            lemma_file_candidates_in(
                workspaces,
                filter_lower,
                upto - 1,
                workspaces[upto - 1].files@.len() as int,
            );
        }
        assert forall|i: int| 0 <= i < all.len() implies candidate_in(
            #[trigger] all[i],
            workspaces,
            filter_lower,
        ) by {
            if i < before.len() {
                assert(all[i] == before[i]);
            } else {
                assert(all[i] == added[i - before.len()]);
            }
        }
    }
}

impl StoredWorkspace {
    /// The path of the project: what the folder reference names.
    pub open spec fn project_path_view(self) -> Option<Seq<char>> {
        match self.folder {
            Some(reference) => Some(decoded_folder(reference@)),
            None => None,
        }
    }

    /// Whether a search looks into the workspace: it has a sessions
    /// directory, and it meets the filter where one is given.
    pub open spec fn survives(self, filter_lower: Option<Seq<char>>) -> bool {
        &&& self.has_sessions_dir
        &&& filter_lower matches Some(filter) ==> meets_filter(
            self.hash@,
            self.project_path_view(),
            filter,
        )
    }

    /// The label under which the workspace is shown.
    pub open spec fn label(self) -> Seq<char> {
        label_of(self.hash@, self.project_path_view())
    }

    /// The path of the project, decoded from the folder reference.
    pub fn project_path(&self) -> (r: Option<String>)
        ensures
            r.deep_view() == self.project_path_view(),
    {
        match &self.folder {
            Some(reference) => Some(decode_workspace_folder(reference.as_str())),
            None => None,
        }
    }

    /// Whether a search looks into the workspace.
    ///
    /// The sessions directory is asked for first: a workspace without one is
    /// left out before its folder reference is decoded. The reference is
    /// decoded only where a filter is given.
    pub fn is_searched(&self, filter_lower: Option<&str>) -> (r: bool)
        ensures
            r == self.survives(option_str_view(filter_lower)),
    {
        if !self.has_sessions_dir {
            return false;
        }
        match filter_lower {
            Some(filter) => {
                let path = self.project_path();
                workspace_meets_filter(
                    self.hash.as_str(),
                    match &path {
                        Some(decoded) => Some(decoded.as_str()),
                        None => None,
                    },
                    filter,
                )
            },
            None => true,
        }
    }

    /// The label under which the workspace is shown.
    pub fn display_label(&self) -> (r: String)
        ensures
            r@ == self.label(),
    {
        let path = self.project_path();
        workspace_label(
            self.hash.as_str(),
            match &path {
                Some(decoded) => Some(decoded.as_str()),
                None => None,
            },
        )
    }
}

/// Whether a workspace meets the filter: its hash or its project path holds
/// `filter_lower`, without regard to case. The filter is taken in lower case.
pub fn workspace_meets_filter(hash: &str, project_path: Option<&str>, filter_lower: &str) -> (r:
    bool)
    ensures
        r == meets_filter(hash@, option_str_view(project_path), filter_lower@),
{
    if contains_lowercased(hash, filter_lower) {
        return true;
    }
    match project_path {
        Some(path) => contains_lowercased(path, filter_lower),
        None => false,
    }
}

/// The label under which a workspace is shown.
pub fn workspace_label(hash: &str, project_path: Option<&str>) -> (r: String)
    ensures
        r@ == label_of(hash@, option_str_view(project_path)),
{
    match project_path {
        Some(path) => match path_last_segment(path) {
            Some(segment) => segment,
            None => leading_chars(hash, LABEL_HASH_CHARS),
        },
        None => leading_chars(hash, LABEL_HASH_CHARS),
    }
}

/// Where the extension of a file name starts, as `extension_dot` says.
fn find_extension_dot(name: &Vec<char>) -> (r: Option<usize>)
    ensures
        match r {
            Some(dot) => extension_dot(name@, name.len() as int) == Some(dot as int) && 0 < dot
                < name.len(),
            None => extension_dot(name@, name.len() as int) is None,
        },
{
    let mut upto: usize = name.len();
    while upto > 1
        invariant
            upto <= name.len(),
            extension_dot(name@, name.len() as int) == extension_dot(name@, upto as int),
        decreases upto,
    {
        if name[upto - 1] == '.' {
            return Some(upto - 1);
        }
        upto -= 1;
    }
    None
}

/// Whether a file of the sessions directory is a session file.
pub fn is_session_file(name: &str) -> (r: bool)
    ensures
        r == is_session_file_name(name@),
{
    let chars = to_chars(name);
    let extension = to_chars(SESSION_EXTENSION);
    match find_extension_dot(&chars) {
        Some(dot) => {
            let same = chars.len() - (dot + 1) == extension.len() && matches_at(
                &chars,
                &extension,
                dot + 1,
            );
            assert(same == (chars@.subrange(dot + 1, chars.len() as int) =~= SESSION_EXTENSION@));
            same
        },
        None => false,
    }
}

/// The id of the session kept in the file `name`: the name without its
/// extension.
pub fn session_id_of(name: &str) -> (r: String)
    ensures
        r@ == file_stem(name@),
{
    let chars = to_chars(name);
    match find_extension_dot(&chars) {
        Some(dot) => name.substring_char(0, dot).to_owned(),
        None => name.to_owned(),
    }
}

/// The flat list of candidates: the session files of every workspace that has
/// a sessions directory and meets the filter, each with the label of its
/// workspace, in the order of the workspaces and of their files. The length
/// of the list is the total that a scan reports.
pub fn index_candidates(workspaces: &Vec<StoredWorkspace>, filter_lower: Option<&str>) -> (r: Vec<
    Candidate,
>)
    ensures
        r.deep_view() == candidates_of(
            workspaces@,
            option_str_view(filter_lower),
            workspaces.len() as int,
        ),
        forall|i: int|
            0 <= i < r.len() ==> candidate_in(
                (#[trigger] r[i])@,
                workspaces@,
                option_str_view(filter_lower),
            ),
{
    let ghost filter = option_str_view(filter_lower);
    let mut out: Vec<Candidate> = Vec::new();
    let mut w: usize = 0;
    while w < workspaces.len()
        invariant
            w <= workspaces.len(),
            filter == option_str_view(filter_lower),
            out.deep_view() == candidates_of(workspaces@, filter, w as int),
        decreases workspaces.len() - w,
    {
        let ws = &workspaces[w];
        let ghost before = out.deep_view();
        if ws.is_searched(filter_lower) {
            let label = ws.display_label();
            let mut f: usize = 0;
            while f < ws.files.len()
                invariant
                    f <= ws.files.len(),
                    label@ == ws.label(),
                    out.deep_view() == before + file_candidates(*ws, w as int, f as int),
                decreases ws.files.len() - f,
            {
                let file = &ws.files[f];
                if is_session_file(file.name.as_str()) {
                    let ghost prior = out.deep_view();
                    let candidate = Candidate {
                        workspace_index: w,
                        file_index: f,
                        workspace_label: label.clone(),
                        session_id: session_id_of(file.name.as_str()),
                    };
                    out.push(candidate);
                    assert(out.deep_view() =~= prior.push(candidate_of(*ws, w as int, f as int)));
                }
                f += 1;
            }
        }
        w += 1;
    }
    proof {
        lemma_candidates_in(workspaces@, filter, workspaces.len() as int);
        assert forall|i: int| 0 <= i < out.len() implies candidate_in(
            (#[trigger] out[i])@,
            workspaces@,
            filter,
        ) by {
            assert(out.deep_view()[i] == out[i]@);
        }
    }
    out
}

/// The number of workspaces that a search looks into.
pub fn count_searched(workspaces: &Vec<StoredWorkspace>, filter_lower: Option<&str>) -> (n: usize)
    ensures
        n as nat == searched_count(
            workspaces@,
            option_str_view(filter_lower),
            workspaces.len() as int,
        ),
{
    let mut n: usize = 0;
    let mut w: usize = 0;
    while w < workspaces.len()
        invariant
            w <= workspaces.len(),
            n <= w,
            n as nat == searched_count(workspaces@, option_str_view(filter_lower), w as int),
        decreases workspaces.len() - w,
    {
        if workspaces[w].is_searched(filter_lower) {
            n += 1;
        }
        w += 1;
    }
    n
}

} // verus!
