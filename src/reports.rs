//! Report data and how it is put together from the rows the database
//! returns: tasks grouped by their Jira key, and per-day statistics for a week.
use vstd::prelude::*;

verus! {

/// A completed interval as listed in a daily report.
pub struct IntervalSummary {
    pub id: i64,
    pub interval_type: String,
    pub start_time: String,
    pub end_time: Option<String>,
    pub duration_seconds: i64,
    pub planned_duration_seconds: i64,
    pub status: String,
}

/// A top-level task as listed in a report.
pub struct TaskSummary {
    pub id: i64,
    pub title: String,
    pub status: String,
    pub jira_key: Option<String>,
    pub tag: Option<String>,
    pub completed_in_pomodoro: Option<i64>,
}

/// The tasks of a report that share one Jira key (or have none).
pub struct TaskGroup {
    pub jira_key: Option<String>,
    pub tasks: Vec<TaskSummary>,
}

/// The report of one day.
pub struct DailySummary {
    pub date: String,
    pub pomodoro_count: i64,
    pub total_focus_minutes: i64,
    pub tasks_completed: i64,
    pub tasks_total: i64,
    pub intervals: Vec<IntervalSummary>,
    pub task_groups: Vec<TaskGroup>,
}

/// The statistics of one day within a weekly report.
pub struct DailyStat {
    pub date: String,
    pub pomodoro_count: i64,
    pub focus_minutes: i64,
    pub tasks_completed: i64,
}

/// The report of one week.
pub struct WeeklySummary {
    pub week_start: String,
    pub week_end: String,
    pub daily_stats: Vec<DailyStat>,
    pub total_pomodoros: i64,
    pub total_focus_minutes: i64,
    pub total_tasks_completed: i64,
    pub task_groups: Vec<TaskGroup>,
}

/// A Jira key as characters.
pub open spec fn key_of(k: Option<String>) -> Option<Seq<char>> {
    match k {
        Some(s) => Some(s@),
        None => None,
    }
}

/// A group as its key and its tasks.
pub open spec fn group_view(g: TaskGroup) -> (Option<Seq<char>>, Seq<TaskSummary>) {
    (key_of(g.jira_key), g.tasks@)
}

/// The groups as keys and tasks.
pub open spec fn groups_view(gs: Seq<TaskGroup>) -> Seq<(Option<Seq<char>>, Seq<TaskSummary>)> {
    gs.map_values(|g: TaskGroup| group_view(g))
}

/// The first index at or after `i` of a group with key `k`, or -1.
pub open spec fn find_key(gs: Seq<(Option<Seq<char>>, Seq<TaskSummary>)>, k: Option<Seq<char>>, i: int) -> int
    decreases gs.len() - i,
{
    if i < 0 || i >= gs.len() {
        -1
    } else if gs[i].0 == k {
        i
    } else {
        find_key(gs, k, i + 1)
    }
}

/// The groups after one more task: appended to the group of its key, or to a
/// new group at the end when no group has that key yet.
pub open spec fn add_task(gs: Seq<(Option<Seq<char>>, Seq<TaskSummary>)>, t: TaskSummary) -> Seq<(Option<Seq<char>>, Seq<TaskSummary>)> {
    let k = key_of(t.jira_key);
    let j = find_key(gs, k, 0);
    if j < 0 {
        gs.push((k, seq![t]))
    } else {
        gs.update(j, (k, gs[j].1.push(t)))
    }
}

/// Tasks grouped by Jira key: groups in the order their keys first appear,
/// tasks within a group in the order they came in.
pub open spec fn grouped(ts: Seq<TaskSummary>) -> Seq<(Option<Seq<char>>, Seq<TaskSummary>)>
    decreases ts.len(),
{
    if ts.len() == 0 {
        seq![]
    } else {
        add_task(grouped(ts.drop_last()), ts.last())
    }
}

proof fn lemma_find_key_skips(gs: Seq<(Option<Seq<char>>, Seq<TaskSummary>)>, k: Option<Seq<char>>, i: int, j: int)
    requires
        0 <= i <= j <= gs.len(),
        forall|m: int| i <= m < j ==> gs[m].0 != k,
    ensures
        find_key(gs, k, i) == find_key(gs, k, j),
    decreases j - i,
{
    if i < j {
        lemma_find_key_skips(gs, k, i + 1, j);
    }
}

/// Whether two Jira keys are the same.
pub fn same_key(a: &Option<String>, b: &Option<String>) -> (r: bool)
    ensures
        r == (key_of(*a) == key_of(*b)),
{
    match (a, b) {
        (Some(x), Some(y)) => *x == *y,
        (None, None) => true,
        _ => false,
    }
}

/// A copy of a Jira key.
fn copy_key(k: &Option<String>) -> (r: Option<String>)
    ensures
        key_of(r) == key_of(*k),
{
    match k {
        Some(s) => Some(s.clone()),
        None => None,
    }
}

/// Groups tasks by Jira key, in the order their keys first appear, keeping
/// the tasks' order within each group. Tasks without a key form one group.
pub fn group_tasks_by_jira_key(tasks: Vec<TaskSummary>) -> (r: Vec<TaskGroup>)
    ensures
        groups_view(r@) == grouped(tasks@),
{
    let ghost all = tasks@;
    let n = tasks.len();
    let mut rest = tasks;
    let mut groups: Vec<TaskGroup> = Vec::new();
    let mut i: usize = 0;
    while rest.len() > 0
        invariant
            i + rest@.len() == all.len(),
            all.len() == n,
            rest@ == all.skip(i as int),
            groups_view(groups@) == grouped(all.take(i as int)),
        decreases rest@.len(),
    {
        let task = rest.remove(0);
        proof {
            assert(all.take(i + 1).drop_last() =~= all.take(i as int));
            assert(all.take(i + 1).last() == task);
        }
        let mut j: usize = 0;
        while j < groups.len() && !same_key(&groups[j].jira_key, &task.jira_key)
            invariant
                j <= groups@.len(),
                forall|m: int| 0 <= m < j ==> groups_view(groups@)[m].0 != key_of(task.jira_key),
            decreases groups@.len() - j,
        {
            j = j + 1;
        }
        let found = j < groups.len();
        let ghost gv = groups_view(groups@);
        proof {
            lemma_find_key_skips(gv, key_of(task.jira_key), 0, j as int);
        }
        if found {
            let mut group = groups.remove(j);
            group.tasks.push(task);
            groups.insert(j, group);
            proof {
                assert(groups_view(groups@) =~= gv.update(j as int, (key_of(task.jira_key), gv[j as int].1.push(task))));
            }
        } else {
            let key = copy_key(&task.jira_key);
            let mut members: Vec<TaskSummary> = Vec::new();
            members.push(task);
            groups.push(TaskGroup { jira_key: key, tasks: members });
            proof {
                assert(members@ =~= seq![task]);
                assert(groups_view(groups@) =~= gv.push((key_of(task.jira_key), seq![task])));
            }
        }
        i = i + 1;
        proof {
            assert(rest@ =~= all.skip(i as int));
        }
    }
    proof {
        assert(all.take(i as int) =~= all);
    }
    groups
}

/// Whole minutes in `secs` seconds, rounded toward zero.
pub open spec fn whole_minutes(secs: i64) -> int {
    if secs >= 0 {
        secs / 60
    } else {
        -((-secs) / 60)
    }
}

/// The first index at or after `i` whose date is `d`, or -1.
pub open spec fn first_date(ds: Seq<Seq<char>>, d: Seq<char>, i: int) -> int
    decreases ds.len() - i,
{
    if i < 0 || i >= ds.len() {
        -1
    } else if ds[i] == d {
        i
    } else {
        first_date(ds, d, i + 1)
    }
}

proof fn lemma_first_date_skips(ds: Seq<Seq<char>>, d: Seq<char>, i: int, j: int)
    requires
        0 <= i <= j <= ds.len(),
        forall|m: int| i <= m < j ==> ds[m] != d,
    ensures
        first_date(ds, d, i) == first_date(ds, d, j),
    decreases j - i,
{
    if i < j {
        lemma_first_date_skips(ds, d, i + 1, j);
    }
}

/// The dates of per-day pomodoro rows `(date, count, focus seconds)`.
pub open spec fn pomodoro_dates(rows: Seq<(String, i64, i64)>) -> Seq<Seq<char>> {
    rows.map_values(|r: (String, i64, i64)| r.0@)
}

/// The dates of per-day task rows `(date, completed count)`.
pub open spec fn task_dates(rows: Seq<(String, i64)>) -> Seq<Seq<char>> {
    rows.map_values(|r: (String, i64)| r.0@)
}

/// The statistics of `date`: the first pomodoro row and the first task row
/// of that date give its counts and focus minutes, and a date without a row
/// counts zero.
pub open spec fn stat_matches(
    st: DailyStat,
    date: Seq<char>,
    pomodoros: Seq<(String, i64, i64)>,
    tasks: Seq<(String, i64)>,
) -> bool {
    let p = first_date(pomodoro_dates(pomodoros), date, 0);
    let t = first_date(task_dates(tasks), date, 0);
    &&& st.date@ == date
    &&& st.pomodoro_count == (if p < 0 { 0 } else { pomodoros[p].1 })
    &&& st.focus_minutes == (if p < 0 { 0 } else { whole_minutes(pomodoros[p].2) })
    &&& st.tasks_completed == (if t < 0 { 0 } else { tasks[t].1 })
}

/// The index of the first pomodoro row of `date`.
fn find_pomodoro_row(rows: &Vec<(String, i64, i64)>, date: &String) -> (r: Option<usize>)
    ensures
        match r {
            Some(i) => i as int == first_date(pomodoro_dates(rows@), date@, 0) && i < rows@.len(),
            None => first_date(pomodoro_dates(rows@), date@, 0) == -1,
        },
{
    let ghost ds = pomodoro_dates(rows@);
    let mut i: usize = 0;
    while i < rows.len() && !(rows[i].0 == *date)
        invariant
            i <= rows@.len(),
            ds == pomodoro_dates(rows@),
            forall|m: int| 0 <= m < i ==> ds[m] != date@,
        decreases rows@.len() - i,
    {
        i = i + 1;
    }
    proof {
        lemma_first_date_skips(ds, date@, 0, i as int);
    }
    if i < rows.len() {
        Some(i)
    } else {
        None
    }
}

/// The index of the first task row of `date`.
fn find_task_row(rows: &Vec<(String, i64)>, date: &String) -> (r: Option<usize>)
    ensures
        match r {
            Some(i) => i as int == first_date(task_dates(rows@), date@, 0) && i < rows@.len(),
            None => first_date(task_dates(rows@), date@, 0) == -1,
        },
{
    let ghost ds = task_dates(rows@);
    let mut i: usize = 0;
    while i < rows.len() && !(rows[i].0 == *date)
        invariant
            i <= rows@.len(),
            ds == task_dates(rows@),
            forall|m: int| 0 <= m < i ==> ds[m] != date@,
        decreases rows@.len() - i,
    {
        i = i + 1;
    }
    proof {
        lemma_first_date_skips(ds, date@, 0, i as int);
    }
    if i < rows.len() {
        Some(i)
    } else {
        None
    }
}

/// Whole minutes in `secs` seconds, rounded toward zero.
pub fn minutes_of(secs: i64) -> (r: i64)
    ensures
        r == whole_minutes(secs),
{
    secs / 60
}

/// One statistic per date, in the order of `dates`, from the per-day rows
/// of completed work intervals `(date, count, focus seconds)` and of
/// completed top-level tasks `(date, count)`. A date without a row counts
/// zero.
pub fn daily_stats(
    dates: &Vec<String>,
    pomodoro_rows: &Vec<(String, i64, i64)>,
    task_rows: &Vec<(String, i64)>,
) -> (r: Vec<DailyStat>)
    ensures
        r@.len() == dates@.len(),
        forall|k: int|
            0 <= k < dates@.len() ==> stat_matches(
                #[trigger] r@[k],
                dates@[k]@,
                pomodoro_rows@,
                task_rows@,
            ),
{
    let mut stats: Vec<DailyStat> = Vec::new();
    let mut k: usize = 0;
    while k < dates.len()
        invariant
            k <= dates@.len(),
            stats@.len() == k,
            forall|m: int|
                0 <= m < k ==> stat_matches(
                    #[trigger] stats@[m],
                    dates@[m]@,
                    pomodoro_rows@,
                    task_rows@,
                ),
        decreases dates@.len() - k,
    {
        let date = &dates[k];
        let (pomodoro_count, focus_minutes) = match find_pomodoro_row(pomodoro_rows, date) {
            Some(i) => (pomodoro_rows[i].1, minutes_of(pomodoro_rows[i].2)),
            None => (0, 0),
        };
        let tasks_completed = match find_task_row(task_rows, date) {
            Some(i) => task_rows[i].1,
            None => 0,
        };
        stats.push(DailyStat { date: date.clone(), pomodoro_count, focus_minutes, tasks_completed });
        k = k + 1;
    }
    stats
}

/// The sum of a sequence of numbers.
pub open spec fn sum_of(xs: Seq<i64>) -> int
    decreases xs.len(),
{
    if xs.len() == 0 {
        0
    } else {
        sum_of(xs.drop_last()) + xs.last()
    }
}

/// Whether a number fits in an `i64`.
pub open spec fn fits_i64(x: int) -> bool {
    i64::MIN <= x <= i64::MAX
}

/// The pomodoro counts of the days.
pub open spec fn pomodoro_counts(stats: Seq<DailyStat>) -> Seq<i64> {
    stats.map_values(|s: DailyStat| s.pomodoro_count)
}

/// The focus minutes of the days.
pub open spec fn focus_minutes(stats: Seq<DailyStat>) -> Seq<i64> {
    stats.map_values(|s: DailyStat| s.focus_minutes)
}

/// The completed-task counts of the days.
pub open spec fn tasks_completed(stats: Seq<DailyStat>) -> Seq<i64> {
    stats.map_values(|s: DailyStat| s.tasks_completed)
}

/// The sum of `xs`, when it fits in an `i64`.
pub fn checked_sum(xs: &Vec<i64>) -> (r: Option<i64>)
    ensures
        fits_i64(sum_of(xs@)) ==> r == Some(sum_of(xs@) as i64),
        !fits_i64(sum_of(xs@)) ==> r.is_none(),
{
    let mut acc: i128 = 0;
    let mut i: usize = 0;
    while i < xs.len()
        invariant
            i <= xs@.len(),
            acc == sum_of(xs@.take(i as int)),
            -(i as int) * 0x8000_0000_0000_0000 <= acc <= (i as int) * 0x7FFF_FFFF_FFFF_FFFF,
        decreases xs@.len() - i,
    {
        proof {
            assert(xs@.take(i + 1).drop_last() =~= xs@.take(i as int));
        }
        acc = acc + xs[i] as i128;
        i = i + 1;
    }
    proof {
        assert(xs@.take(i as int) =~= xs@);
    }
    if acc < i64::MIN as i128 || acc > i64::MAX as i128 {
        None
    } else {
        Some(acc as i64)
    }
}

impl WeeklySummary {
    /// The weekly report with the totals of the days' statistics, or `None`
    /// when one of the totals does not fit in an `i64`.
    pub fn assemble(
        week_start: String,
        week_end: String,
        daily_stats: Vec<DailyStat>,
        task_groups: Vec<TaskGroup>,
    ) -> (r: Option<WeeklySummary>)
        ensures
            r.is_some() <==> (fits_i64(sum_of(pomodoro_counts(daily_stats@))) && fits_i64(
                sum_of(focus_minutes(daily_stats@)),
            ) && fits_i64(sum_of(tasks_completed(daily_stats@)))),
            r.is_some() ==> ({
                let w = r.unwrap();
                &&& w.week_start == week_start
                &&& w.week_end == week_end
                &&& w.daily_stats@ == daily_stats@
                &&& w.total_pomodoros == sum_of(pomodoro_counts(daily_stats@))
                &&& w.total_focus_minutes == sum_of(focus_minutes(daily_stats@))
                &&& w.total_tasks_completed == sum_of(tasks_completed(daily_stats@))
                &&& w.task_groups@ == task_groups@
            }),
    {
        let mut pomodoros: Vec<i64> = Vec::new();
        let mut minutes: Vec<i64> = Vec::new();
        let mut completed: Vec<i64> = Vec::new();
        let mut k: usize = 0;
        while k < daily_stats.len()
            invariant
                k <= daily_stats@.len(),
                pomodoros@ == pomodoro_counts(daily_stats@).take(k as int),
                minutes@ == focus_minutes(daily_stats@).take(k as int),
                completed@ == tasks_completed(daily_stats@).take(k as int),
            decreases daily_stats@.len() - k,
        {
            pomodoros.push(daily_stats[k].pomodoro_count);
            minutes.push(daily_stats[k].focus_minutes);
            completed.push(daily_stats[k].tasks_completed);
            k = k + 1;
            proof {
                assert(pomodoros@ =~= pomodoro_counts(daily_stats@).take(k as int));
                assert(minutes@ =~= focus_minutes(daily_stats@).take(k as int));
                assert(completed@ =~= tasks_completed(daily_stats@).take(k as int));
            }
        }
        proof {
            assert(pomodoros@ =~= pomodoro_counts(daily_stats@));
            assert(minutes@ =~= focus_minutes(daily_stats@));
            assert(completed@ =~= tasks_completed(daily_stats@));
        }
        let total_pomodoros = checked_sum(&pomodoros)?;
        let total_focus_minutes = checked_sum(&minutes)?;
        let total_tasks_completed = checked_sum(&completed)?;
        Some(
            WeeklySummary {
                week_start,
                week_end,
                daily_stats,
                total_pomodoros,
                total_focus_minutes,
                total_tasks_completed,
                task_groups,
            },
        )
    }
}

impl DailySummary {
    /// The daily report, with the focus time turned into whole minutes.
    pub fn assemble(
        date: String,
        pomodoro_count: i64,
        total_focus_seconds: i64,
        tasks_completed: i64,
        tasks_total: i64,
        intervals: Vec<IntervalSummary>,
        task_groups: Vec<TaskGroup>,
    ) -> (r: DailySummary)
        ensures
            r.date == date,
            r.pomodoro_count == pomodoro_count,
            r.total_focus_minutes == whole_minutes(total_focus_seconds),
            r.tasks_completed == tasks_completed,
            r.tasks_total == tasks_total,
            r.intervals@ == intervals@,
            r.task_groups@ == task_groups@,
    {
        DailySummary {
            date,
            pomodoro_count,
            total_focus_minutes: minutes_of(total_focus_seconds),
            tasks_completed,
            tasks_total,
            intervals,
            task_groups,
        }
    }
}

} // verus!
