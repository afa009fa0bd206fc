//! Batch download orchestration: task slots keyed by submission order, the
//! per-task state machine, URL collection, and the end-of-batch report.

use vstd::prelude::*;
use crate::error::Error;
use crate::text;

verus! {

/// Lifecycle of one download task: `Pending` then `Running`, then exactly one
/// of the terminal states. A task never re-enters `Pending`.
#[derive(Debug, Clone)]
pub enum TaskStatus {
    Pending,
    Running,
    Succeeded(String),
    Failed(Error),
}

/// One URL's slot in a batch. `submission_index` is assigned when the URL
/// enters the batch and never changes: it is the sole ordering key for a
/// later merge.
#[derive(Debug, Clone)]
pub struct DownloadTask {
    pub submission_index: usize,
    pub url: String,
    pub status: TaskStatus,
}

/// Submission indexes are the contiguous range `[0, N)`, in order.
pub open spec fn tasks_well_formed(s: Seq<DownloadTask>) -> bool {
    forall|i: int| 0 <= i < s.len() ==> (#[trigger] s[i]).submission_index == i
}

/// One pending task per URL, indexed in the order the URLs were collected.
pub fn make_tasks(urls: &Vec<String>) -> (r: Vec<DownloadTask>)
    ensures
        r@.len() == urls@.len(),
        tasks_well_formed(r@),
        forall|i: int|
            0 <= i < r@.len() ==> (#[trigger] r@[i]).url == urls@[i] && r@[i].status is Pending,
{
    let n = urls.len();
    let mut r: Vec<DownloadTask> = Vec::new();
    let mut i: usize = 0;
    while i < n
        invariant
            i <= n,
            n == urls@.len(),
            r@.len() == i,
            forall|j: int| 0 <= j < i ==> (#[trigger] r@[j]).submission_index == j,
            forall|j: int|
                0 <= j < i ==> (#[trigger] r@[j]).url == urls@[j] && r@[j].status is Pending,
        decreases n - i,
    {
        r.push(DownloadTask { submission_index: i, url: urls[i].clone(), status: TaskStatus::Pending });
        i = i + 1;
    }
    r
}

/// Move a pending task to `Running`.
pub fn task_start(t: &mut DownloadTask)
    requires
        old(t).status is Pending,
    ensures
        final(t).status is Running,
        final(t).submission_index == old(t).submission_index,
        final(t).url == old(t).url,
{
    t.status = TaskStatus::Running;
}

/// Move a running task to the terminal `Succeeded` state.
pub fn task_succeed(t: &mut DownloadTask, path: String)
    requires
        old(t).status is Running,
    ensures
        final(t).status == TaskStatus::Succeeded(path),
        final(t).submission_index == old(t).submission_index,
        final(t).url == old(t).url,
{
    t.status = TaskStatus::Succeeded(path);
}

/// Move a running task to the terminal `Failed` state.
pub fn task_fail(t: &mut DownloadTask, err: Error)
    requires
        old(t).status is Running,
    ensures
        final(t).status == TaskStatus::Failed(err),
        final(t).submission_index == old(t).submission_index,
        final(t).url == old(t).url,
{
    t.status = TaskStatus::Failed(err);
}

/// The tasks that ended in `Succeeded`.
pub open spec fn succeeded_of(s: Seq<DownloadTask>) -> Seq<DownloadTask> {
    s.filter(|t: DownloadTask| t.status is Succeeded)
}

/// The tasks that ended in `Failed`.
pub open spec fn failed_of(s: Seq<DownloadTask>) -> Seq<DownloadTask> {
    s.filter(|t: DownloadTask| t.status is Failed)
}

/// The end-of-batch report: how many tasks succeeded and how many failed.
pub fn summarize(tasks: &Vec<DownloadTask>) -> (r: (usize, usize))
    ensures
        r.0 as int == succeeded_of(tasks@).len(),
        r.1 as int == failed_of(tasks@).len(),
{
    let ghost s_pred = |t: DownloadTask| t.status is Succeeded;
    let ghost f_pred = |t: DownloadTask| t.status is Failed;
    let n = tasks.len();
    let mut ok: usize = 0;
    let mut bad: usize = 0;
    let mut i: usize = 0;
    proof {
        reveal(Seq::filter);
        assert(tasks@.take(0) =~= Seq::<DownloadTask>::empty());
    }
    while i < n
        invariant
            i <= n,
            n == tasks@.len(),
            ok as int == tasks@.take(i as int).filter(|t: DownloadTask| t.status is Succeeded).len(),
            bad as int == tasks@.take(i as int).filter(|t: DownloadTask| t.status is Failed).len(),
            ok + bad <= i,
        decreases n - i,
    {
        proof {
            reveal(Seq::filter);
            let taken = tasks@.take(i as int + 1);
            assert(taken.drop_last() =~= tasks@.take(i as int));
            assert(taken.last() == tasks@[i as int]);
        }
        match &tasks[i].status {
            TaskStatus::Succeeded(_) => {
                ok = ok + 1;
            },
            TaskStatus::Failed(_) => {
                bad = bad + 1;
            },
            _ => {},
        }
        i = i + 1;
    }
    proof {
        assert(tasks@.take(n as int) =~= tasks@);
    }
    (ok, bad)
}

/// File lines trimmed of surrounding blanks, blank lines dropped.
pub open spec fn cleaned_lines_spec(lines: Seq<Seq<char>>) -> Seq<Seq<char>> {
    lines.map_values(|l: Seq<char>| text::trim_spec(l)).filter(|l: Seq<char>| l.len() != 0)
}

/// The batch's URL list: command-line URLs as given, then the file's lines,
/// each trimmed, with blank lines dropped.
pub fn collect_urls(args: &Vec<String>, file_lines: &Option<Vec<String>>) -> (r: Vec<String>)
    ensures
        r.deep_view() == args.deep_view() + (match file_lines {
            Some(ls) => cleaned_lines_spec(ls.deep_view()),
            None => Seq::<Seq<char>>::empty(),
        }),
{
    let mut r: Vec<String> = Vec::new();
    let n = args.len();
    let mut i: usize = 0;
    while i < n
        invariant
            i <= n,
            n == args@.len(),
            r@.len() == i,
            forall|j: int| 0 <= j < i ==> (#[trigger] r@[j])@ == args@[j]@,
        decreases n - i,
    {
        r.push(args[i].clone());
        i = i + 1;
    }
    assert(r.deep_view() =~~= args.deep_view());
    match file_lines {
        Some(lines) => {
            let ghost mapped = lines.deep_view().map_values(|l: Seq<char>| text::trim_spec(l));
            let m = lines.len();
            let mut k: usize = 0;
            proof {
                reveal(Seq::filter);
                assert(mapped.take(0) =~= Seq::<Seq<char>>::empty());
                assert(r.deep_view() =~~= args.deep_view() + mapped.take(0).filter(
                    |l: Seq<char>| l.len() != 0,
                ));
            }
            while k < m
                invariant
                    k <= m,
                    m == lines@.len(),
                    lines.deep_view().len() == m,
                    mapped == lines.deep_view().map_values(|l: Seq<char>| text::trim_spec(l)),
                    r.deep_view() == args.deep_view() + mapped.take(k as int).filter(
                        |l: Seq<char>| l.len() != 0,
                    ),
                decreases m - k,
            {
                proof {
                    reveal(Seq::filter);
                    let taken = mapped.take(k as int + 1);
                    assert(taken.drop_last() =~= mapped.take(k as int));
                    assert(taken.last() == mapped[k as int]);
                    assert(mapped[k as int] == text::trim_spec(lines.deep_view()[k as int]));
                    assert(lines.deep_view()[k as int] == lines@[k as int]@);
                }
                let lv = text::str_chars(lines[k].as_str());
                let trimmed = text::trim_chars(&lv);
                if trimmed.len() > 0 {
                    let ghost r0 = r.deep_view();
                    let s = text::chars_string(&trimmed);
                    r.push(s);
                    assert(r.deep_view() =~~= r0 + seq![trimmed@]);
                    assert(r.deep_view() =~~= args.deep_view() + mapped.take(k as int + 1).filter(
                        |l: Seq<char>| l.len() != 0,
                    ));
                } else {
                    assert(r.deep_view() =~~= args.deep_view() + mapped.take(k as int + 1).filter(
                        |l: Seq<char>| l.len() != 0,
                    ));
                }
                k = k + 1;
            }
            proof {
                assert(mapped.take(m as int) =~= mapped);
            }
        },
        None => {},
    }
    r
}

/// The batch-level precondition: at least one URL must have been collected.
pub fn require_urls(urls: &Vec<String>) -> (r: Result<(), Error>)
    ensures
        (urls@.len() > 0) == (r is Ok),
        urls@.len() == 0 ==> (r matches Err(e) ==> (e matches Error::InvalidArgument(m)
            && m@ == "No URLs provided for download"@)),
{
    if urls.len() == 0 {
        Err(Error::InvalidArgument("No URLs provided for download".to_owned()))
    } else {
        Ok(())
    }
}

} // verus!
