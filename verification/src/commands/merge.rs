//! Merge orchestration: fail-fast preconditions, ordering of finished
//! downloads by submission index, the concat manifest, and the mapping of the
//! remux collaborator's exit status to a typed error.

use vstd::prelude::*;
use vstd::multiset::Multiset;
use vstd::seq_lib::lemma_multiset_commutative;
use crate::commands::batch::{DownloadTask, TaskStatus};
use crate::error::Error;
use crate::text;

verus! {

/// The merge precondition: the remuxer must be present and at least two URLs
/// must have been collected, checked before any task starts.
pub fn merge_precheck(remuxer_available: bool, url_count: usize) -> (r: Result<(), Error>)
    ensures
        (remuxer_available && url_count >= 2) == (r is Ok),
        !remuxer_available ==> (r matches Err(e) ==> (e matches Error::CommandExecution {
            command,
            reason,
        } && command@ == "ffmpeg"@ && reason@
            == "ffmpeg is required for merging videos. Please install it first."@)),
        remuxer_available && url_count < 2 ==> (r matches Err(e) ==> (e
            matches Error::InvalidArgument(m) && m@
            == "At least two URLs are required for download-merge"@)),
{
    if !remuxer_available {
        Err(
            Error::CommandExecution {
                command: "ffmpeg".to_owned(),
                reason: "ffmpeg is required for merging videos. Please install it first.".to_owned(),
            },
        )
    } else if url_count < 2 {
        Err(Error::InvalidArgument("At least two URLs are required for download-merge".to_owned()))
    } else {
        Ok(())
    }
}

/// The merge-of-files precondition: at least two input files must have been
/// collected.
pub fn require_merge_files(file_count: usize) -> (r: Result<(), Error>)
    ensures
        (file_count >= 2) == (r is Ok),
        file_count < 2 ==> (r matches Err(e) ==> (e matches Error::InvalidArgument(m) && m@
            == "At least two input files are required for merging"@)),
{
    if file_count < 2 {
        Err(Error::InvalidArgument("At least two input files are required for merging".to_owned()))
    } else {
        Ok(())
    }
}

/// The failure text reported when fewer than two downloads finished.
pub open spec fn too_few_message_spec(n: int) -> Seq<char> {
    "Not enough videos were successfully downloaded. Only got "@ + text::dec_seq(n)
        + " out of minimum 2 required."@
}

/// At least two downloads must have succeeded for a merge to proceed; the
/// error names how many succeeded versus the minimum of two.
pub fn check_enough_succeeded(n_succeeded: usize) -> (r: Result<(), Error>)
    ensures
        (n_succeeded >= 2) == (r is Ok),
        n_succeeded < 2 ==> (r matches Err(e) ==> (e matches Error::DownloadFailed { reason }
            && reason@ == too_few_message_spec(n_succeeded as int))),
{
    if n_succeeded < 2 {
        let mut v: Vec<char> = Vec::new();
        text::append_str(&mut v, "Not enough videos were successfully downloaded. Only got ");
        let digits = text::u64_dec_chars(n_succeeded as u64);
        text::append_chars(&mut v, &digits);
        text::append_str(&mut v, " out of minimum 2 required.");
        let reason = text::chars_string(&v);
        Err(Error::DownloadFailed { reason })
    } else {
        Ok(())
    }
}

/// The succeeded tasks' (submission index, output path) pairs, in the order
/// the tasks stand in the list.
pub open spec fn succeeded_entries_spec(s: Seq<DownloadTask>) -> Seq<(usize, Seq<char>)> {
    s.filter(|t: DownloadTask| t.status is Succeeded).map_values(
        |t: DownloadTask| (t.submission_index, t.status->Succeeded_0@),
    )
}

/// Collect each succeeded task's submission index and output path.
pub fn collect_succeeded(tasks: &Vec<DownloadTask>) -> (r: Vec<(usize, String)>)
    ensures
        Seq::new(r@.len(), |i: int| (r@[i].0, r@[i].1@)) == succeeded_entries_spec(tasks@),
{
    let n = tasks.len();
    let mut r: Vec<(usize, String)> = Vec::new();
    let mut i: usize = 0;
    proof {
        reveal(Seq::filter);
        assert(tasks@.take(0) =~= Seq::<DownloadTask>::empty());
        assert(Seq::new(r@.len(), |j: int| (r@[j].0, r@[j].1@)) =~= succeeded_entries_spec(
            tasks@.take(0),
        ));
    }
    while i < n
        invariant
            i <= n,
            n == tasks@.len(),
            Seq::new(r@.len(), |j: int| (r@[j].0, r@[j].1@)) == succeeded_entries_spec(
                tasks@.take(i as int),
            ),
        decreases n - i,
    {
        proof {
            reveal(Seq::filter);
            let taken = tasks@.take(i as int + 1);
            assert(taken.drop_last() =~= tasks@.take(i as int));
            assert(taken.last() == tasks@[i as int]);
        }
        let ghost r0 = Seq::new(r@.len(), |j: int| (r@[j].0, r@[j].1@));
        match &tasks[i].status {
            TaskStatus::Succeeded(path) => {
                let entry = (tasks[i].submission_index, path.clone());
                r.push(entry);
                proof {
                    let t = tasks@[i as int];
                    assert(Seq::new(r@.len(), |j: int| (r@[j].0, r@[j].1@)) =~= r0 + seq![
                        (t.submission_index, t.status->Succeeded_0@),
                    ]);
                    assert(succeeded_entries_spec(tasks@.take(i as int + 1)) =~= succeeded_entries_spec(
                        tasks@.take(i as int),
                    ) + seq![(t.submission_index, t.status->Succeeded_0@)]);
                }
            },
            _ => {
                proof {
                    assert(succeeded_entries_spec(tasks@.take(i as int + 1)) =~= succeeded_entries_spec(
                        tasks@.take(i as int),
                    ));
                }
            },
        }
        i = i + 1;
    }
    proof {
        assert(tasks@.take(n as int) =~= tasks@);
    }
    r
}

/// Entries stand in submission order.
pub open spec fn sorted_by_index(s: Seq<(usize, String)>) -> bool {
    forall|i: int, j: int| 0 <= i < j < s.len() ==> (#[trigger] s[i]).0 <= (#[trigger] s[j]).0
}

/// Order download outputs by submission index, not completion time: the
/// result is the same entries, sorted ascending by their index.
pub fn order_by_index(entries: Vec<(usize, String)>) -> (r: Vec<(usize, String)>)
    ensures
        sorted_by_index(r@),
        r@.to_multiset() == entries@.to_multiset(),
        r@.len() == entries@.len(),
{
    let n = entries.len();
    let mut r: Vec<(usize, String)> = Vec::new();
    let mut i: usize = 0;
    proof {
        broadcast use vstd::seq_lib::group_to_multiset_ensures;

        assert(entries@.take(0) =~= Seq::<(usize, String)>::empty());
        assert(r@.to_multiset() =~= entries@.take(0).to_multiset());
    }
    while i < n
        invariant
            i <= n,
            n == entries@.len(),
            r@.len() == i,
            sorted_by_index(r@),
            r@.to_multiset() == entries@.take(i as int).to_multiset(),
        decreases n - i,
    {
        let e = (entries[i].0, entries[i].1.clone());
        let ghost eg = entries@[i as int];
        assert(e == eg);
        let m = r.len();
        let mut p: usize = 0;
        while p < m && r[p].0 <= e.0
            invariant
                p <= m,
                m == r@.len(),
                forall|j: int| 0 <= j < p ==> (#[trigger] r@[j]).0 <= e.0,
            decreases m - p,
        {
            p = p + 1;
        }
        let ghost r0 = r@;
        r.insert(p, e);
        proof {
            broadcast use vstd::seq_lib::group_to_multiset_ensures;

            // Sortedness: entries before p are <= e.0, entries after are > e.0.
            assert(forall|j: int| p < j < r@.len() ==> r@[j] == r0[j - 1]);
            assert(forall|j: int| 0 <= j < p ==> r@[j] == r0[j]);
            assert(r@[p as int].0 == eg.0);
            // Multiset: inserting in the middle adds one occurrence.
            assert(r0 =~= r0.take(p as int) + r0.skip(p as int));
            lemma_multiset_commutative(r0.take(p as int), r0.skip(p as int));
            assert(r@ =~= r0.take(p as int) + (seq![eg] + r0.skip(p as int)));
            lemma_multiset_commutative(r0.take(p as int), seq![eg] + r0.skip(p as int));
            lemma_multiset_commutative(seq![eg], r0.skip(p as int));
            assert(seq![eg].to_multiset() =~= Multiset::<(usize, String)>::empty().insert(eg)) by {
                assert(seq![eg] =~= Seq::<(usize, String)>::empty().push(eg));
                assert(Seq::<(usize, String)>::empty().to_multiset() =~= Multiset::<(
                    usize,
                    String,
                )>::empty());
            };
            let taken = entries@.take(i as int + 1);
            assert(taken.drop_last() =~= entries@.take(i as int));
            assert(taken =~= entries@.take(i as int).push(eg));
            assert(r@.to_multiset() =~= entries@.take(i as int + 1).to_multiset());
        }
        i = i + 1;
    }
    proof {
        assert(entries@.take(n as int) =~= entries@);
    }
    r
}

/// Entries up the list carry indexes at least as large as their position.
proof fn lemma_sorted_distinct_lower(s: Seq<(usize, String)>, i: int)
    requires
        sorted_by_index(s),
        forall|p: int, q: int| 0 <= p < q < s.len() ==> (#[trigger] s[p]).0 != (#[trigger] s[q]).0,
        0 <= i < s.len(),
    ensures
        s[i].0 >= i,
    decreases i,
{
    if i > 0 {
        lemma_sorted_distinct_lower(s, i - 1);
        assert(s[i - 1].0 <= s[i].0);
        assert(s[i - 1].0 != s[i].0);
    }
}

/// Sorted entries with distinct indexes all drawn from `[0, N)` stand each
/// at its own index: after ordering, position `k` holds exactly the
/// submission with index `k`, so a manifest built from the ordered outputs
/// lists them in submission order, whatever order the downloads finished in.
pub proof fn lemma_ordered_by_submission(s: Seq<(usize, String)>)
    requires
        sorted_by_index(s),
        forall|i: int| 0 <= i < s.len() ==> (#[trigger] s[i]).0 < s.len(),
        forall|p: int, q: int| 0 <= p < q < s.len() ==> (#[trigger] s[p]).0 != (#[trigger] s[q]).0,
    ensures
        forall|i: int| 0 <= i < s.len() ==> (#[trigger] s[i]).0 == i,
{
    assert forall|i: int| 0 <= i < s.len() implies (#[trigger] s[i]).0 == i by {
        lemma_sorted_distinct_lower(s, i);
        if s[i].0 > i {
            // The last entry's index would then overshoot the range.
            lemma_sorted_distinct_gap(s, i, s.len() - 1);
            assert(s[s.len() - 1].0 >= s[i].0 + (s.len() - 1 - i));
        }
    };
}

/// Between two positions, distinct sorted indexes grow at least as fast as
/// the positions.
proof fn lemma_sorted_distinct_gap(s: Seq<(usize, String)>, i: int, j: int)
    requires
        sorted_by_index(s),
        forall|p: int, q: int| 0 <= p < q < s.len() ==> (#[trigger] s[p]).0 != (#[trigger] s[q]).0,
        0 <= i <= j < s.len(),
    ensures
        s[j].0 >= s[i].0 + (j - i),
    decreases j - i,
{
    if j > i {
        lemma_sorted_distinct_gap(s, i, j - 1);
        assert(s[j - 1].0 <= s[j].0);
        assert(s[j - 1].0 != s[j].0);
    }
}

/// One manifest line: the path with each single quote escaped for the
/// manifest's quoting convention, wrapped as `file '...'`.
pub open spec fn manifest_line_spec(p: Seq<char>) -> Seq<char> {
    "file '"@ + text::replace_spec(p, "'"@, "'\\''"@) + "'\n"@
}

/// The whole newline-delimited manifest, one line per path, in order.
pub open spec fn manifest_spec(paths: Seq<Seq<char>>) -> Seq<char>
    decreases paths.len(),
{
    if paths.len() == 0 {
        Seq::<char>::empty()
    } else {
        manifest_line_spec(paths[0]) + manifest_spec(paths.skip(1))
    }
}

/// Render the concat manifest for the ordered output paths.
pub fn build_concat_manifest(paths: &Vec<String>) -> (r: String)
    ensures
        r@ == manifest_spec(paths.deep_view()),
{
    let n = paths.len();
    let mut out: Vec<char> = Vec::new();
    let mut i: usize = 0;
    proof {
        assert(paths.deep_view().skip(0) =~= paths.deep_view());
    }
    while i < n
        invariant
            i <= n,
            n == paths@.len(),
            paths.deep_view().len() == n,
            manifest_spec(paths.deep_view()) == out@ + manifest_spec(
                paths.deep_view().skip(i as int),
            ),
        decreases n - i,
    {
        let ghost rest = paths.deep_view().skip(i as int);
        proof {
            assert(rest[0] == paths.deep_view()[i as int]);
            assert(rest.skip(1) =~= paths.deep_view().skip(i as int + 1));
            assert(paths.deep_view()[i as int] == paths@[i as int]@);
        }
        text::append_str(&mut out, "file '");
        let pv = text::str_chars(paths[i].as_str());
        let escaped = text::replace_str(&pv, "'", "'\\''");
        text::append_chars(&mut out, &escaped);
        text::append_str(&mut out, "'\n");
        i = i + 1;
    }
    proof {
        assert(paths.deep_view().skip(n as int) =~= Seq::<Seq<char>>::empty());
    }
    text::chars_string(&out)
}

/// The model of a per-merge temporary workspace: created once, owning every
/// intermediate file of the invocation, and deleted on every path out of the
/// workflow. The final outcome can only be released through `finish`, which
/// demands that the deletion already happened, so no exit path can skip it.
pub struct TempWorkspace {
    path: String,
    deleted: bool,
}

impl TempWorkspace {
    /// Has the workspace directory been deleted?
    pub closed spec fn is_deleted(&self) -> bool {
        self.deleted
    }

    /// The workspace directory's path.
    pub closed spec fn path_spec(&self) -> Seq<char> {
        self.path@
    }

    /// Record a freshly created workspace directory.
    pub fn create(path: String) -> (r: Self)
        ensures
            !r.is_deleted(),
            r.path_spec() == path@,
    {
        TempWorkspace { path, deleted: false }
    }

    /// The directory every intermediate file goes into.
    pub fn path(&self) -> (r: &String)
        ensures
            r@ == self.path_spec(),
    {
        &self.path
    }

    /// Record that the workspace directory has been removed. The caller
    /// performs the removal itself, after the whole batch has completed,
    /// never concurrently with it.
    pub fn mark_deleted(&mut self)
        ensures
            final(self).is_deleted(),
            final(self).path_spec() == old(self).path_spec(),
    {
        self.deleted = true;
    }

    /// Release the workflow's outcome. Demanding a deleted workspace here
    /// makes cleanup unavoidable on every exit path, success and failure
    /// alike.
    pub fn finish(self, outcome: Result<(), Error>) -> (r: Result<(), Error>)
        requires
            self.is_deleted(),
        ensures
            r == outcome,
    {
        outcome
    }
}

/// The uniquely-named workspace directory for one merge invocation.
pub fn workspace_dir_name(unique: &str) -> (r: String)
    ensures
        r@ == "video_dl_merge_"@ + unique@,
{
    let mut v: Vec<char> = Vec::new();
    text::append_str(&mut v, "video_dl_merge_");
    text::append_str(&mut v, unique);
    text::chars_string(&v)
}

/// The uniquely-named concat manifest file for one merge invocation.
pub fn concat_list_name(unique: &str) -> (r: String)
    ensures
        r@ == "concat_list_"@ + unique@ + ".txt"@,
{
    let mut v: Vec<char> = Vec::new();
    text::append_str(&mut v, "concat_list_");
    text::append_str(&mut v, unique);
    text::append_str(&mut v, ".txt");
    text::chars_string(&v)
}

/// Map the remux collaborator's exit to the library's result: success on exit
/// code zero, else a command error carrying the collaborator's words
/// verbatim.
pub fn remux_outcome(exit_ok: bool, stderr: &str) -> (r: Result<(), Error>)
    ensures
        exit_ok == (r is Ok),
        !exit_ok ==> (r matches Err(e) ==> (e matches Error::CommandExecution { command, reason }
            && command@ == "ffmpeg"@ && reason@ == stderr@)),
{
    if exit_ok {
        Ok(())
    } else {
        Err(Error::CommandExecution { command: "ffmpeg".to_owned(), reason: stderr.to_owned() })
    }
}

} // verus!
