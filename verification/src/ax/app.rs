//! Running applications: their description, their order in `ax list`, and
//! choosing one by name or process ID.

use vstd::prelude::*;
use crate::ax::tree::opt_view;
use crate::cli::TargetArgs;
use crate::error::AxError;
use crate::text::{
    contains, has_substring, i64_text, int_text, join, join_strings, lowercase, push_str, str_eq,
    to_lower, views,
};

verus! {

/// A running application visible to accessibility.
#[derive(Debug, Clone, PartialEq, Eq)]
pub struct AppInfo {
    pub pid: i32,
    pub name: String,
    pub bundle_id: String,
}

// ---------------------------------------------------------------------------
// Order of `ax list`
// ---------------------------------------------------------------------------

/// Strict lexicographic order of strings by character (the order of `str`).
pub open spec fn text_lt(a: Seq<char>, b: Seq<char>) -> bool
    decreases a.len(),
{
    if a.len() == 0 {
        b.len() > 0
    } else if b.len() == 0 {
        false
    } else if a[0] != b[0] {
        (a[0] as u32) < (b[0] as u32)
    } else {
        text_lt(a.drop_first(), b.drop_first())
    }
}

/// The key by which `ax list` orders applications: the lower-cased name.
pub open spec fn app_key(a: AppInfo) -> Seq<char> {
    lowercase(a.name@)
}

/// The position at which a stable insertion places an application with key
/// `k`: after every application whose key is not greater.
pub open spec fn insert_pos(r: Seq<AppInfo>, k: Seq<char>) -> int
    decreases r.len(),
{
    if r.len() == 0 {
        0
    } else if text_lt(k, app_key(r[0])) {
        0
    } else {
        1 + insert_pos(r.drop_first(), k)
    }
}

/// The applications sorted by lower-cased name, equal names kept in their
/// original order (what a stable sort by that key gives).
pub open spec fn sorted_apps(s: Seq<AppInfo>) -> Seq<AppInfo>
    decreases s.len(),
{
    if s.len() == 0 {
        Seq::empty()
    } else {
        let r = sorted_apps(s.drop_last());
        r.insert(insert_pos(r, app_key(s.last())), s.last())
    }
}

/// Character order is transitive.
pub proof fn lemma_text_lt_transitive(a: Seq<char>, b: Seq<char>, c: Seq<char>)
    requires
        text_lt(a, b),
        text_lt(b, c),
    ensures
        text_lt(a, c),
    decreases a.len(),
{
    if a.len() > 0 && b.len() > 0 && c.len() > 0 && a[0] == b[0] && b[0] == c[0] {
        lemma_text_lt_transitive(a.drop_first(), b.drop_first(), c.drop_first());
    }
}

/// Character order is asymmetric.
pub proof fn lemma_text_lt_asymmetric(a: Seq<char>, b: Seq<char>)
    requires
        text_lt(a, b),
    ensures
        !text_lt(b, a),
    decreases a.len(),
{
    if a.len() > 0 && b.len() > 0 && a[0] == b[0] {
        lemma_text_lt_asymmetric(a.drop_first(), b.drop_first());
    }
}

/// The applications are in non-decreasing order of key.
pub open spec fn apps_sorted(r: Seq<AppInfo>) -> bool {
    forall|i: int, j: int| 0 <= i < j < r.len() ==> !text_lt(app_key(r[j]), app_key(r[i]))
}

proof fn lemma_insert_pos_bounds(r: Seq<AppInfo>, k: Seq<char>)
    ensures
        0 <= insert_pos(r, k) <= r.len(),
        forall|j: int| 0 <= j < insert_pos(r, k) ==> !text_lt(k, #[trigger] app_key(r[j])),
        insert_pos(r, k) < r.len() ==> text_lt(k, app_key(r[insert_pos(r, k)])),
    decreases r.len(),
{
    if r.len() > 0 && !text_lt(k, app_key(r[0])) {
        let t = r.drop_first();
        lemma_insert_pos_bounds(t, k);
        assert forall|j: int| 0 <= j < insert_pos(r, k) implies !text_lt(k, #[trigger] app_key(r[j])) by {
            if j > 0 {
                assert(r[j] == t[j - 1]);
            }
        }
        if insert_pos(r, k) < r.len() {
            assert(r[insert_pos(r, k)] == t[insert_pos(t, k)]);
        }
    }
}

proof fn lemma_insert_keeps_sorted(r: Seq<AppInfo>, x: AppInfo)
    requires
        apps_sorted(r),
    ensures
        apps_sorted(r.insert(insert_pos(r, app_key(x)), x)),
{
    let p = insert_pos(r, app_key(x));
    lemma_insert_pos_bounds(r, app_key(x));
    let q = r.insert(p, x);
    assert forall|i: int, j: int| 0 <= i < j < q.len() implies !text_lt(app_key(q[j]), app_key(q[i])) by {
        if j < p {
            assert(q[i] == r[i] && q[j] == r[j]);
        } else if j == p {
            assert(q[i] == r[i]);
        } else if i > p {
            assert(q[i] == r[i - 1] && q[j] == r[j - 1]);
        } else if i == p {
            assert(q[j] == r[j - 1]);
            // x < r[p] <= r[j - 1]
            if text_lt(app_key(r[j - 1]), app_key(x)) {
                if j - 1 > p {
                    lemma_text_lt_transitive(app_key(r[j - 1]), app_key(x), app_key(r[p]));
                } else {
                    lemma_text_lt_asymmetric(app_key(x), app_key(r[p]));
                }
            }
        } else {
            assert(q[i] == r[i] && q[j] == r[j - 1]);
        }
    }
}

/// `ax list` shows the applications in order of lower-cased name, and shows
/// each application it was given exactly as often as it was given.
pub proof fn lemma_sorted_apps_ordered_permutation(s: Seq<AppInfo>)
    ensures
        apps_sorted(sorted_apps(s)),
        sorted_apps(s).to_multiset() == s.to_multiset(),
    decreases s.len(),
{
    broadcast use vstd::seq_lib::group_to_multiset_ensures;

    if s.len() > 0 {
        let r = sorted_apps(s.drop_last());
        lemma_sorted_apps_ordered_permutation(s.drop_last());
        lemma_insert_keeps_sorted(r, s.last());
        lemma_insert_pos_bounds(r, app_key(s.last()));
        vstd::seq_lib::to_multiset_insert(r, insert_pos(r, app_key(s.last())), s.last());
        vstd::seq_lib::to_multiset_build(s.drop_last(), s.last());
        assert(s.drop_last().push(s.last()) =~= s);
    } else {
        assert(s.to_multiset() =~= vstd::multiset::Multiset::empty());
        assert(sorted_apps(s).to_multiset() =~= vstd::multiset::Multiset::empty());
    }
}

/// Whether `a` comes strictly before `b` in character order.
pub fn text_less(a: &str, b: &str) -> (r: bool)
    ensures
        r == text_lt(a@, b@),
{
    let x = crate::text::chars_of(a);
    let y = crate::text::chars_of(b);
    let mut i: usize = 0;
    assert(a@.subrange(0, a@.len() as int) =~= a@);
    assert(b@.subrange(0, b@.len() as int) =~= b@);
    while i < x.len() && i < y.len() && x[i] == y[i]
        invariant
            i <= x@.len(),
            i <= y@.len(),
            x@ == a@,
            y@ == b@,
            text_lt(a@, b@) == text_lt(a@.subrange(i as int, a@.len() as int), b@.subrange(
                i as int,
                b@.len() as int,
            )),
        decreases x.len() - i,
    {
        let ghost sa = a@.subrange(i as int, a@.len() as int);
        let ghost sb = b@.subrange(i as int, b@.len() as int);
        assert(sa.drop_first() =~= a@.subrange(i + 1, a@.len() as int));
        assert(sb.drop_first() =~= b@.subrange(i + 1, b@.len() as int));
        i = i + 1;
    }
    let ghost sa = a@.subrange(i as int, a@.len() as int);
    let ghost sb = b@.subrange(i as int, b@.len() as int);
    if i == x.len() {
        i < y.len()
    } else if i == y.len() {
        false
    } else {
        assert(sa[0] == x@[i as int]);
        assert(sb[0] == y@[i as int]);
        (x[i] as u32) < (y[i] as u32)
    }
}

/// Sort applications by lower-cased name, keeping the order of equal names.
pub fn sort_apps(apps: Vec<AppInfo>) -> (r: Vec<AppInfo>)
    ensures
        r@ == sorted_apps(apps@),
{
    let ghost orig = apps@;
    let n = apps.len();
    let mut rest = apps;
    let mut out: Vec<AppInfo> = Vec::new();
    let mut keys: Vec<String> = Vec::new();
    let mut i: usize = 0;
    assert(orig.subrange(0, 0) =~= Seq::<AppInfo>::empty());
    while i < n
        invariant
            n == orig.len(),
            i <= n,
            rest@ == orig.subrange(i as int, n as int),
            out@ == sorted_apps(orig.subrange(0, i as int)),
            keys@.len() == out@.len(),
            forall|k: int| 0 <= k < keys@.len() ==> #[trigger] keys@[k]@ == app_key(out@[k]),
        decreases n - i,
    {
        let a = rest.remove(0);
        assert(a == orig[i as int]);
        let key = to_lower(a.name.as_str());
        let mut p: usize = 0;
        assert(out@.subrange(0, out@.len() as int) =~= out@);
        while p < out.len() && !text_less(key.as_str(), keys[p].as_str())
            invariant
                p <= out@.len(),
                keys@.len() == out@.len(),
                forall|k: int| 0 <= k < keys@.len() ==> #[trigger] keys@[k]@ == app_key(out@[k]),
                insert_pos(out@, key@) == p + insert_pos(out@.subrange(p as int, out@.len() as int), key@),
            decreases out.len() - p,
        {
            let ghost t = out@.subrange(p as int, out@.len() as int);
            assert(t.drop_first() =~= out@.subrange(p + 1, out@.len() as int));
            assert(t[0] == out@[p as int]);
            p = p + 1;
        }
        proof {
            let t = out@.subrange(p as int, out@.len() as int);
            if p < out@.len() {
                assert(t[0] == out@[p as int]);
            }
            assert(orig.subrange(0, i + 1).drop_last() =~= orig.subrange(0, i as int));
            assert(orig.subrange(0, i + 1).last() == a);
        }
        let ghost keys0 = keys@;
        let ghost out0 = out@;
        out.insert(p, a);
        keys.insert(p, key);
        assert forall|k: int| 0 <= k < keys@.len() implies #[trigger] keys@[k]@ == app_key(out@[k]) by {
            if k < p {
                assert(keys@[k] == keys0[k]);
                assert(out@[k] == out0[k]);
            } else if k > p {
                assert(keys@[k] == keys0[k - 1]);
                assert(out@[k] == out0[k - 1]);
            }
        }
        assert(rest@ =~= orig.subrange(i + 1, n as int));
        i = i + 1;
    }
    assert(orig.subrange(0, n as int) =~= orig);
    out
}


// ---------------------------------------------------------------------------
// The list of running applications
// ---------------------------------------------------------------------------

/// What the workspace reports of one running application: its process ID,
/// its name when it has one, its bundle identifier (empty when it has none)
/// and its activation policy (0 regular, 1 accessory, 2 background-only).
#[derive(Debug, Clone, PartialEq, Eq)]
pub struct RunningApp {
    pub pid: i32,
    pub name: Option<String>,
    pub bundle_id: String,
    pub activation_policy: i64,
}

/// Whether `ax list` shows an application: a real process, with a name,
/// that is not background-only.
pub open spec fn is_listed(r: RunningApp) -> bool {
    r.pid > 0 && r.name is Some && r.activation_policy <= 1
}

/// The applications `ax list` shows, in the order reported.
pub open spec fn listed_apps(rs: Seq<RunningApp>) -> Seq<AppInfo>
    decreases rs.len(),
{
    if rs.len() == 0 {
        Seq::empty()
    } else {
        let before = listed_apps(rs.drop_last());
        let r = rs.last();
        if is_listed(r) {
            before.push(AppInfo { pid: r.pid, name: r.name->0, bundle_id: r.bundle_id })
        } else {
            before
        }
    }
}

/// The applications `ax list` shows, from what the workspace reports:
/// background-only processes, processes without a name and invalid process
/// IDs are left out, and the rest are sorted by lower-cased name.
pub fn list_running_apps(found: &Vec<RunningApp>) -> (r: Vec<AppInfo>)
    ensures
        r@ == sorted_apps(listed_apps(found@)),
{
    let mut apps: Vec<AppInfo> = Vec::new();
    let mut i: usize = 0;
    while i < found.len()
        invariant
            i <= found@.len(),
            apps@ == listed_apps(found@.take(i as int)),
        decreases found.len() - i,
    {
        let r = &found[i];
        assert(found@.take(i + 1).drop_last() =~= found@.take(i as int));
        assert(found@.take(i + 1).last() == found@[i as int]);
        if r.pid > 0 && r.activation_policy <= 1 {
            match &r.name {
                Some(n) => {
                    apps.push(AppInfo { pid: r.pid, name: n.clone(), bundle_id: r.bundle_id.clone() });
                },
                None => {},
            }
        }
        i = i + 1;
    }
    assert(found@.take(found@.len() as int) =~= found@);
    sort_apps(apps)
}

// ---------------------------------------------------------------------------
// Choosing an application
// ---------------------------------------------------------------------------

/// The index of the first application whose lower-cased name is `l`.
pub open spec fn first_exact(apps: Seq<AppInfo>, l: Seq<char>) -> Option<int>
    decreases apps.len(),
{
    if apps.len() == 0 {
        None
    } else {
        match first_exact(apps.drop_last(), l) {
            Some(j) => Some(j),
            None => if app_key(apps.last()) == l {
                Some(apps.len() - 1)
            } else {
                None
            },
        }
    }
}

/// The applications whose lower-cased name contains `l`, in order.
pub open spec fn name_matches(apps: Seq<AppInfo>, l: Seq<char>) -> Seq<AppInfo>
    decreases apps.len(),
{
    if apps.len() == 0 {
        Seq::empty()
    } else {
        let before = name_matches(apps.drop_last(), l);
        if has_substring(app_key(apps.last()), l) {
            before.push(apps.last())
        } else {
            before
        }
    }
}

/// The names of the applications.
pub open spec fn app_names(apps: Seq<AppInfo>) -> Seq<Seq<char>> {
    apps.map_values(|a: AppInfo| a.name@)
}

/// `name (pid: N)` for each application.
pub open spec fn app_labels(apps: Seq<AppInfo>) -> Seq<Seq<char>> {
    apps.map_values(|a: AppInfo| a.name@ + " (pid: "@ + int_text(a.pid as int) + ")"@)
}

/// What choosing the application `name` among `apps` gives: the first
/// exact (case-insensitive) name match; otherwise the single application
/// whose name contains it; otherwise an error that lists the candidates.
pub open spec fn app_choice(apps: Seq<AppInfo>, name: Seq<char>, r: Result<i32, AxError>) -> bool {
    let l = lowercase(name);
    match first_exact(apps, l) {
        Some(j) => r == Ok::<i32, AxError>(apps[j].pid),
        None => {
            let m = name_matches(apps, l);
            if m.len() == 0 {
                r matches Err(AxError::AppNotFound(msg)) && msg@ == "'"@ + name
                    + "'. Available apps: "@ + join(app_names(apps), ", "@)
            } else if m.len() == 1 {
                r == Ok::<i32, AxError>(m[0].pid)
            } else {
                r matches Err(AxError::AppNotFound(msg)) && msg@ == "'"@ + name
                    + "' is ambiguous. Matches: "@ + join(app_labels(m), ", "@)
            }
        },
    }
}

/// Find an application by name (case-insensitive; an exact name wins, then
/// a unique substring match), giving its process ID.
pub fn select_app_pid(apps: &Vec<AppInfo>, name: &str) -> (r: Result<i32, AxError>)
    ensures
        app_choice(apps@, name@, r),
{
    let lower = to_lower(name);
    let n = apps.len();
    let mut i: usize = 0;
    while i < n
        invariant
            n == apps@.len(),
            i <= n,
            lower@ == lowercase(name@),
            first_exact(apps@.subrange(0, i as int), lower@) is None,
        decreases n - i,
    {
        assert(apps@.subrange(0, i + 1).drop_last() =~= apps@.subrange(0, i as int));
        let key = to_lower(apps[i].name.as_str());
        if str_eq(key.as_str(), lower.as_str()) {
            proof {
                lemma_first_exact_prefix(apps@, lower@, i + 1);
            }
            return Ok(apps[i].pid);
        }
        i = i + 1;
    }
    assert(apps@.subrange(0, n as int) =~= apps@);
    let mut matches: Vec<usize> = Vec::new();
    let ghost mut m: Seq<AppInfo> = Seq::empty();
    let mut i: usize = 0;
    while i < n
        invariant
            n == apps@.len(),
            i <= n,
            lower@ == lowercase(name@),
            m == name_matches(apps@.subrange(0, i as int), lower@),
            matches@.len() == m.len(),
            forall|k: int| 0 <= k < m.len() ==> (#[trigger] matches@[k]) < n && m[k] == apps@[matches@[k] as int],
        decreases n - i,
    {
        assert(apps@.subrange(0, i + 1).drop_last() =~= apps@.subrange(0, i as int));
        let key = to_lower(apps[i].name.as_str());
        if contains(key.as_str(), lower.as_str()) {
            matches.push(i);
            proof {
                m = m.push(apps@[i as int]);
            }
        }
        i = i + 1;
    }
    assert(apps@.subrange(0, n as int) =~= apps@);
    if matches.len() == 0 {
        let mut names: Vec<String> = Vec::new();
        let mut k: usize = 0;
        while k < n
            invariant
                n == apps@.len(),
                k <= n,
                names@.len() == k,
                views(names@) == app_names(apps@.subrange(0, k as int)),
            decreases n - k,
        {
            let ghost before = names@;
            names.push(apps[k].name.clone());
            assert forall|j: int| 0 <= j < k implies views(names@)[j] == app_names(
                apps@.subrange(0, k + 1),
            )[j] by {
                assert(views(before)[j] == app_names(apps@.subrange(0, k as int))[j]);
                assert(names@[j] == before[j]);
            }
            assert(views(names@) =~= app_names(apps@.subrange(0, k + 1)));
            k = k + 1;
        }
        assert(apps@.subrange(0, n as int) =~= apps@);
        let mut msg = "'".to_string();
        push_str(&mut msg, name);
        push_str(&mut msg, "'. Available apps: ");
        let joined = join_strings(&names, ", ");
        push_str(&mut msg, joined.as_str());
        Err(AxError::AppNotFound(msg))
    } else if matches.len() == 1 {
        Ok(apps[matches[0]].pid)
    } else {
        let mut labels: Vec<String> = Vec::new();
        let mut k: usize = 0;
        while k < matches.len()
            invariant
                n == apps@.len(),
                k <= matches@.len(),
                matches@.len() == m.len(),
                forall|j: int| 0 <= j < m.len() ==> (#[trigger] matches@[j]) < n && m[j] == apps@[matches@[j] as int],
                labels@.len() == k,
                views(labels@) == app_labels(m.subrange(0, k as int)),
            decreases matches.len() - k,
        {
            let a = &apps[matches[k]];
            let mut label = a.name.clone();
            push_str(&mut label, " (pid: ");
            let pid_text = i64_text(a.pid as i64);
            push_str(&mut label, pid_text.as_str());
            push_str(&mut label, ")");
            let ghost before = labels@;
            labels.push(label);
            assert forall|j: int| 0 <= j < k implies views(labels@)[j] == app_labels(
                m.subrange(0, k + 1),
            )[j] by {
                assert(views(before)[j] == app_labels(m.subrange(0, k as int))[j]);
                assert(labels@[j] == before[j]);
            }
            assert(views(labels@) =~= app_labels(m.subrange(0, k + 1)));
            k = k + 1;
        }
        assert(m.subrange(0, m.len() as int) =~= m);
        let mut msg = "'".to_string();
        push_str(&mut msg, name);
        push_str(&mut msg, "' is ambiguous. Matches: ");
        let joined = join_strings(&labels, ", ");
        push_str(&mut msg, joined.as_str());
        Err(AxError::AppNotFound(msg))
    }
}

/// A prefix with an exact match decides the first exact match.
proof fn lemma_first_exact_prefix(apps: Seq<AppInfo>, l: Seq<char>, k: int)
    requires
        1 <= k <= apps.len(),
        first_exact(apps.subrange(0, k - 1), l) is None,
        app_key(apps[k - 1]) == l,
    ensures
        first_exact(apps, l) == Some(k - 1),
    decreases apps.len() - k,
{
    assert(apps.subrange(0, k).drop_last() =~= apps.subrange(0, k - 1));
    if k < apps.len() {
        lemma_first_exact_extend(apps, l, k);
    } else {
        assert(apps.subrange(0, k) =~= apps);
    }
}

proof fn lemma_first_exact_extend(apps: Seq<AppInfo>, l: Seq<char>, k: int)
    requires
        1 <= k <= apps.len(),
        first_exact(apps.subrange(0, k), l) is Some,
    ensures
        first_exact(apps, l) == first_exact(apps.subrange(0, k), l),
    decreases apps.len() - k,
{
    if k < apps.len() {
        assert(apps.subrange(0, k + 1).drop_last() =~= apps.subrange(0, k));
        lemma_first_exact_extend(apps, l, k + 1);
    } else {
        assert(apps.subrange(0, k) =~= apps);
    }
}

/// How the tool reaches an application: by process ID, or by name.
#[derive(Debug, Clone, PartialEq, Eq)]
pub enum AppTarget {
    Pid(i32),
    Name(String),
}

/// Resolve an application target from `--app` and `--pid`: the process ID
/// wins; one of the two is needed.
pub fn choose_app_target(app: Option<&str>, pid: Option<i32>) -> (r: Result<AppTarget, AxError>)
    ensures
        match pid {
            Some(p) => r == Ok::<AppTarget, AxError>(AppTarget::Pid(p)),
            None => match app {
                Some(a) => r matches Ok(AppTarget::Name(n)) && n@ == a@,
                None => r matches Err(AxError::InvalidArgument(m)) && m@
                    == "Either --app or --pid must be specified"@,
            },
        },
{
    if let Some(p) = pid {
        return Ok(AppTarget::Pid(p));
    }
    if let Some(name) = app {
        return Ok(AppTarget::Name(name.to_string()));
    }
    Err(AxError::InvalidArgument("Either --app or --pid must be specified".to_string()))
}
/// `t` is the application that `--app` and `--pid` select: the process ID
/// when one is given, else the name.
pub open spec fn selects_app(app: Option<Seq<char>>, pid: Option<i32>, t: AppTarget) -> bool {
    match pid {
        Some(p) => t == AppTarget::Pid(p),
        None => match app {
            Some(a) => t matches AppTarget::Name(n) && n@ == a,
            None => false,
        },
    }
}

/// The element a command's target arguments select.
#[derive(Debug, Clone, PartialEq, Eq)]
pub enum ElementTarget {
    /// The element at a screen point, given as its `x,y` text.
    AtPoint(String),
    /// The focused element of an application.
    Focused(AppTarget),
    /// An application's own element.
    App(AppTarget),
}

/// Resolve an element target from `--point`, `--focused` and `--app`/`--pid`:
/// a point wins; otherwise an application is needed, and `--focused` asks
/// for its focused element rather than the application itself.
pub fn plan_element_target(target: &TargetArgs, focused: bool, point: Option<&str>) -> (r: Result<
    ElementTarget,
    AxError,
>)
    ensures
        match point {
            Some(p) => r matches Ok(ElementTarget::AtPoint(s)) && s@ == p@,
            None => if target.pid is None && target.app is None {
                r matches Err(AxError::InvalidArgument(m)) && m@
                    == "Either --app or --pid must be specified"@
            } else {
                r matches Ok(x) && match x {
                    ElementTarget::Focused(t) => focused && selects_app(
                        opt_view(target.app),
                        target.pid,
                        t,
                    ),
                    ElementTarget::App(t) => !focused && selects_app(
                        opt_view(target.app),
                        target.pid,
                        t,
                    ),
                    ElementTarget::AtPoint(_) => false,
                }
            },
        },
{
    if let Some(p) = point {
        return Ok(ElementTarget::AtPoint(p.to_string()));
    }
    let app = match &target.app {
        Some(a) => Some(a.as_str()),
        None => None,
    };
    let t = choose_app_target(app, target.pid)?;
    if focused {
        Ok(ElementTarget::Focused(t))
    } else {
        Ok(ElementTarget::App(t))
    }
}

} // verus!
