//! The registry of paths to watch.
//!
//! A registry is pure data. It holds at most one target per path; adding a
//! path again overwrites its flag in place, a new path goes last, and the
//! targets come out in that order.

use vstd::prelude::*;

verus! {

/// A path to watch and whether its subdirectories are watched with it.
#[derive(Debug, PartialEq, Eq)]
pub struct WatchTarget {
    pub path: String,
    pub recursive: bool,
}

/// The mathematical value of a [`WatchTarget`].
pub struct WatchTargetView {
    pub path: Seq<char>,
    pub recursive: bool,
}

impl View for WatchTarget {
    type V = WatchTargetView;

    open spec fn view(&self) -> WatchTargetView {
        WatchTargetView { path: self.path@, recursive: self.recursive }
    }
}

/// The values of a list of targets, in order.
pub open spec fn target_views(targets: Seq<WatchTarget>) -> Seq<WatchTargetView> {
    Seq::new(targets.len(), |i: int| targets[i]@)
}

/// True if some target is for `path`.
pub open spec fn has_path(targets: Seq<WatchTargetView>, path: Seq<char>) -> bool {
    exists|i: int| 0 <= i < targets.len() && (#[trigger] targets[i]).path == path
}

/// True if no two targets are for the same path.
pub open spec fn distinct_paths(targets: Seq<WatchTargetView>) -> bool {
    forall|i: int, j: int|
        0 <= i < j < targets.len() ==> (#[trigger] targets[i]).path != (#[trigger] targets[j]).path
}

/// The test "is for another path than `path`".
pub open spec fn other_than(path: Seq<char>) -> spec_fn(WatchTargetView) -> bool {
    |target: WatchTargetView| target.path != path
}

/// The rewriting "if for `path`, take the flag `recursive`".
pub open spec fn with_flag(path: Seq<char>, recursive: bool) -> spec_fn(
    WatchTargetView,
) -> WatchTargetView {
    |target: WatchTargetView|
        if target.path == path {
            WatchTargetView { path, recursive }
        } else {
            target
        }
}

/// The targets after `path` was added with `recursive`: a target for
/// `path` takes the new flag where it stands; if there is none, a new
/// target goes last.
pub open spec fn upsert(
    targets: Seq<WatchTargetView>,
    path: Seq<char>,
    recursive: bool,
) -> Seq<WatchTargetView> {
    if has_path(targets, path) {
        targets.map_values(with_flag(path, recursive))
    } else {
        targets.push(WatchTargetView { path, recursive })
    }
}

/// The targets after `path` was removed: those for other paths, in order.
pub open spec fn without(targets: Seq<WatchTargetView>, path: Seq<char>) -> Seq<WatchTargetView> {
    targets.filter(other_than(path))
}

/// The flag registered for `path`, if there is one.
pub open spec fn flag_of(targets: Seq<WatchTargetView>, path: Seq<char>) -> Option<bool> {
    if has_path(targets, path) {
        let i = choose|i: int| 0 <= i < targets.len() && (#[trigger] targets[i]).path == path;
        Some(targets[i].recursive)
    } else {
        None
    }
}

/// The targets as a map from path to flag.
pub open spec fn as_map(targets: Seq<WatchTargetView>) -> Map<Seq<char>, bool> {
    Map::new(
        |path: Seq<char>| has_path(targets, path),
        |path: Seq<char>| flag_of(targets, path)->Some_0,
    )
}

/// Where no two targets share a path, two targets at different places are
/// for different paths.
proof fn lemma_apart(targets: Seq<WatchTargetView>, i: int, j: int)
    requires
        distinct_paths(targets),
        0 <= i < targets.len(),
        0 <= j < targets.len(),
        i != j,
    ensures
        targets[i].path != targets[j].path,
{
    if i < j {
        assert(targets[i].path != targets[j].path);
    } else {
        assert(targets[j].path != targets[i].path);
    }
}

/// Filtering by a test that every element passes changes nothing.
proof fn lemma_filter_keeps_all<A>(s: Seq<A>, pred: spec_fn(A) -> bool)
    requires
        forall|i: int| 0 <= i < s.len() ==> pred(#[trigger] s[i]),
    ensures
        s.filter(pred) == s,
    decreases s.len(),
{
    reveal(Seq::filter);
    if s.len() > 0 {
        lemma_filter_keeps_all(s.drop_last(), pred);
        assert(s.drop_last().push(s.last()) =~= s);
    }
}

/// Filtering by a test that one element alone fails removes that element.
proof fn lemma_filter_drops_one<A>(s: Seq<A>, pred: spec_fn(A) -> bool, at: int)
    requires
        0 <= at < s.len(),
        !pred(s[at]),
        forall|i: int| 0 <= i < s.len() && i != at ==> pred(#[trigger] s[i]),
    ensures
        s.filter(pred) == s.remove(at),
{
    let front = s.subrange(0, at);
    let one = seq![s[at]];
    let back = s.subrange(at + 1, s.len() as int);
    assert(s =~= front + one + back);
    Seq::filter_distributes_over_add(front + one, back, pred);
    Seq::filter_distributes_over_add(front, one, pred);
    lemma_filter_keeps_all(front, pred);
    lemma_filter_keeps_all(back, pred);
    assert(one.filter(pred) =~= Seq::<A>::empty()) by {
        reveal_with_fuel(Seq::filter, 2);
        assert(one.drop_last() =~= Seq::<A>::empty());
    }
    assert(front + Seq::<A>::empty() + back =~= s.remove(at));
}

/// True if the two texts are the same.
fn same_text(a: &str, b: &str) -> (same: bool)
    ensures
        same == (a@ == b@),
{
    broadcast use vstd::utf8::encode_utf8_decode_utf8;

    let x = a.as_bytes();
    let y = b.as_bytes();
    if x.len() != y.len() {
        return false;
    }
    let mut i: usize = 0;
    while i < x.len()
        invariant
            i <= x.len(),
            x.len() == y.len(),
            x@ == vstd::utf8::encode_utf8(a@),
            y@ == vstd::utf8::encode_utf8(b@),
            forall|j: int| 0 <= j < i ==> x@[j] == y@[j],
        decreases x.len() - i,
    {
        if x[i] != y[i] {
            return false;
        }
        i += 1;
    }
    assert(x@ =~= y@);
    assert(vstd::utf8::decode_utf8(vstd::utf8::encode_utf8(a@)) == a@);
    assert(vstd::utf8::decode_utf8(vstd::utf8::encode_utf8(b@)) == b@);
    true
}

/// Where the target for `path` stands, if there is one.
fn find(targets: &Vec<WatchTarget>, path: &str) -> (found: Option<usize>)
    ensures
        match found {
            Some(i) => i < targets.len() && targets[i as int]@.path == path@,
            None => !has_path(target_views(targets@), path@),
        },
{
    let mut i: usize = 0;
    while i < targets.len()
        invariant
            i <= targets.len(),
            forall|j: int| 0 <= j < i ==> targets[j]@.path != path@,
        decreases targets.len() - i,
    {
        if same_text(targets[i].path.as_str(), path) {
            return Some(i);
        }
        i += 1;
    }
    None
}

/// The flag of a target that is added without one: subdirectories are
/// watched.
pub const DEFAULT_RECURSIVE: bool = true;

/// The flag to add a target with, where the caller may have given none.
pub fn flag_or_default(flag: Option<bool>) -> (recursive: bool)
    ensures
        recursive == match flag {
            Some(given) => given,
            None => DEFAULT_RECURSIVE,
        },
{
    match flag {
        Some(given) => given,
        None => DEFAULT_RECURSIVE,
    }
}

/// The set of paths to watch, each with its flag.
#[derive(Debug)]
pub struct PathRegistry {
    targets: Vec<WatchTarget>,
}

impl View for PathRegistry {
    type V = Seq<WatchTargetView>;

    closed spec fn view(&self) -> Seq<WatchTargetView> {
        target_views(self.targets@)
    }
}

impl PathRegistry {
    #[verifier::type_invariant]
    spec fn one_target_per_path(self) -> bool {
        distinct_paths(target_views(self.targets@))
    }

    /// An empty registry.
    pub fn new() -> (registry: Self)
        ensures
            registry@ == Seq::<WatchTargetView>::empty(),
    {
        let registry = PathRegistry { targets: Vec::new() };
        assert(registry@ =~= Seq::<WatchTargetView>::empty());
        registry
    }

    /// Registers `path` with the given flag. Never fails: whether the path
    /// exists is found out when the watch starts. A path that is registered
    /// already keeps its place and takes the new flag.
    pub fn add(&mut self, path: String, recursive: bool)
        ensures
            final(self)@ == upsert(old(self)@, path@, recursive),
            distinct_paths(final(self)@),
    {
        proof {
            use_type_invariant(&*self);
        }
        let mut targets: Vec<WatchTarget> = Vec::new();
        std::mem::swap(&mut targets, &mut self.targets);
        let ghost before = target_views(targets@);
        match find(&targets, path.as_str()) {
            Some(i) => {
                targets.set(i, WatchTarget { path, recursive });
                proof {
                    let after = before.map_values(with_flag(path@, recursive));
                    assert(before[i as int].path == path@);
                    assert forall|j: int| 0 <= j < before.len() implies target_views(targets@)[j]
                        == after[j] by {
                        if j != i {
                            lemma_apart(before, j, i as int);
                        }
                    }
                    assert(target_views(targets@) =~= after);
                }
            },
            None => {
                targets.push(WatchTarget { path, recursive });
                assert(target_views(targets@) =~= before.push(
                    WatchTargetView { path: path@, recursive },
                ));
            },
        }
        self.targets = targets;
    }

    /// Takes `path` out of the registry. Removing a path that is not
    /// registered changes nothing and is no error.
    pub fn remove(&mut self, path: &str)
        ensures
            final(self)@ == without(old(self)@, path@),
            distinct_paths(final(self)@),
    {
        proof {
            use_type_invariant(&*self);
        }
        let mut targets: Vec<WatchTarget> = Vec::new();
        std::mem::swap(&mut targets, &mut self.targets);
        let ghost before = target_views(targets@);
        match find(&targets, path) {
            Some(i) => {
                targets.remove(i);
                proof {
                    lemma_filter_drops_one(before, other_than(path@), i as int);
                    assert(target_views(targets@) =~= before.remove(i as int));
                }
            },
            None => {
                proof {
                    lemma_filter_keeps_all(before, other_than(path@));
                }
            },
        }
        self.targets = targets;
    }

    /// A snapshot of the targets, in registry order.
    pub fn entries(&self) -> (entries: Vec<WatchTarget>)
        ensures
            target_views(entries@) == self@,
            distinct_paths(self@),
    {
        proof {
            use_type_invariant(self);
        }
        let mut entries: Vec<WatchTarget> = Vec::new();
        let mut i: usize = 0;
        while i < self.targets.len()
            invariant
                i <= self.targets.len(),
                entries.len() == i,
                forall|j: int| 0 <= j < i ==> entries[j]@ == self.targets[j]@,
            decreases self.targets.len() - i,
        {
            let target = &self.targets[i];
            entries.push(WatchTarget { path: target.path.clone(), recursive: target.recursive });
            i += 1;
        }
        assert(target_views(entries@) =~= self@);
        entries
    }
}

/// True if exactly one of the targets is for `path`, and it has the flag
/// `recursive`.
pub open spec fn one_target_for(
    targets: Seq<WatchTargetView>,
    path: Seq<char>,
    recursive: bool,
) -> bool {
    exists|i: int|
        0 <= i < targets.len() && #[trigger] targets[i] == (WatchTargetView { path, recursive })
            && forall|j: int|
            0 <= j < targets.len() && (#[trigger] targets[j]).path == path ==> j == i
}

/// Removing a path that is not registered changes nothing.
pub proof fn lemma_remove_absent_changes_nothing(targets: Seq<WatchTargetView>, path: Seq<char>)
    requires
        !has_path(targets, path),
    ensures
        without(targets, path) == targets,
{
    assert forall|i: int| 0 <= i < targets.len() implies other_than(path)(
        #[trigger] targets[i],
    ) by {
        if targets[i].path == path {
            assert(has_path(targets, path));
        }
    }
    lemma_filter_keeps_all(targets, other_than(path));
}

/// After a removal the path is not registered, and removing it once more
/// changes nothing.
pub proof fn lemma_remove_is_idempotent(targets: Seq<WatchTargetView>, path: Seq<char>)
    ensures
        !has_path(without(targets, path), path),
        without(without(targets, path), path) == without(targets, path),
{
    let removed = without(targets, path);
    assert forall|i: int| 0 <= i < removed.len() implies other_than(path)(
        #[trigger] removed[i],
    ) by {
        targets.lemma_filter_pred(other_than(path), i);
    }
    lemma_filter_keeps_all(removed, other_than(path));
}

/// Adding keeps one target per path, registers the path with the flag
/// given, and leaves the flag of every other path as it was.
pub proof fn lemma_add_registers(targets: Seq<WatchTargetView>, path: Seq<char>, recursive: bool)
    requires
        distinct_paths(targets),
    ensures
        distinct_paths(upsert(targets, path, recursive)),
        one_target_for(upsert(targets, path, recursive), path, recursive),
        as_map(upsert(targets, path, recursive)) == as_map(targets).insert(path, recursive),
{
    let after = upsert(targets, path, recursive);
    let added = WatchTargetView { path, recursive };
    if has_path(targets, path) {
        let at = choose|i: int| 0 <= i < targets.len() && (#[trigger] targets[i]).path == path;
        assert(after[at] == added);
        assert forall|j: int| 0 <= j < after.len() && (#[trigger] after[j]).path == path implies j
            == at by {
            if j != at {
                lemma_apart(targets, j, at);
            }
        }
        assert forall|i: int, j: int| 0 <= i < j < after.len() implies (#[trigger] after[i]).path
            != (#[trigger] after[j]).path by {
            assert(targets[i].path != targets[j].path);
        }
    } else {
        let at = targets.len() as int;
        assert(after[at] == added);
        assert forall|j: int| 0 <= j < after.len() && (#[trigger] after[j]).path == path implies j
            == at by {
            if j != at {
                assert(targets[j].path == path);
            }
        }
        assert forall|i: int, j: int| 0 <= i < j < after.len() implies (#[trigger] after[i]).path
            != (#[trigger] after[j]).path by {
            if j == at {
                assert(targets[i].path != path);
            } else {
                assert(targets[i].path != targets[j].path);
            }
        }
    }
    assert(one_target_for(after, path, recursive));
    assert forall|other: Seq<char>| has_path(after, other) <==> (other == path || has_path(
        targets,
        other,
    )) by {
        if has_path(after, other) && other != path {
            let i = choose|i: int| 0 <= i < after.len() && (#[trigger] after[i]).path == other;
            assert(targets[i].path == other);
        }
        if has_path(targets, other) {
            let i = choose|i: int| 0 <= i < targets.len() && (#[trigger] targets[i]).path == other;
            assert(after[i].path == other);
        }
        if other == path {
            assert(has_path(after, other));
        }
    }
    assert forall|other: Seq<char>| has_path(after, other) implies flag_of(after, other)
        == Some(as_map(targets).insert(path, recursive)[other]) by {
        let i = choose|i: int| 0 <= i < after.len() && (#[trigger] after[i]).path == other;
        if other != path {
            let k = choose|k: int| 0 <= k < targets.len() && (#[trigger] targets[k]).path == other;
            assert(targets[i].path == other);
            if i != k {
                lemma_apart(targets, i, k);
            }
        }
    }
    assert(as_map(after) =~= as_map(targets).insert(path, recursive));
}

/// Where the one target for `path` stands at `at`, removing the path takes
/// out that target and moves the later ones up by one.
proof fn lemma_without_at(targets: Seq<WatchTargetView>, path: Seq<char>, at: int)
    requires
        distinct_paths(targets),
        0 <= at < targets.len(),
        targets[at].path == path,
    ensures
        without(targets, path) == targets.remove(at),
        without(targets, path).len() == targets.len() - 1,
        forall|i: int| 0 <= i < at ==> (#[trigger] without(targets, path)[i]) == targets[i],
        forall|i: int|
            at <= i < targets.len() - 1 ==> (#[trigger] without(targets, path)[i]) == targets[i
                + 1],
{
    assert forall|i: int| 0 <= i < targets.len() && i != at implies other_than(path)(
        #[trigger] targets[i],
    ) by {
        lemma_apart(targets, i, at);
    }
    lemma_filter_drops_one(targets, other_than(path), at);
    targets.remove_ensures(at);
}

/// Removing keeps one target per path and forgets the path, and leaves the
/// flag of every other path as it was.
pub proof fn lemma_remove_forgets(targets: Seq<WatchTargetView>, path: Seq<char>)
    requires
        distinct_paths(targets),
    ensures
        distinct_paths(without(targets, path)),
        as_map(without(targets, path)) == as_map(targets).remove(path),
{
    let after = without(targets, path);
    if has_path(targets, path) {
        let at = choose|i: int| 0 <= i < targets.len() && (#[trigger] targets[i]).path == path;
        lemma_without_at(targets, path, at);
        assert forall|i: int, j: int| 0 <= i < j < after.len() implies (#[trigger] after[i]).path
            != (#[trigger] after[j]).path by {
            let a = if i < at { i } else { i + 1 };
            let b = if j < at { j } else { j + 1 };
            assert(after[i] == targets[a] && after[j] == targets[b]);
            assert(targets[a].path != targets[b].path);
        }
        assert forall|other: Seq<char>|
            has_path(after, other) == (other != path && has_path(targets, other)) && (has_path(
                after,
                other,
            ) ==> flag_of(after, other) == flag_of(targets, other)) by {
            if has_path(after, other) {
                let i = choose|i: int| 0 <= i < after.len() && (#[trigger] after[i]).path == other;
                let a = if i < at { i } else { i + 1 };
                assert(after[i] == targets[a]);
                assert(targets[a].path == other);
                if other == path {
                    lemma_apart(targets, a, at);
                }
                let k = choose|k: int|
                    0 <= k < targets.len() && (#[trigger] targets[k]).path == other;
                if a != k {
                    lemma_apart(targets, a, k);
                }
            }
            if other != path && has_path(targets, other) {
                let k = choose|k: int|
                    0 <= k < targets.len() && (#[trigger] targets[k]).path == other;
                let i = if k < at { k } else { k - 1 };
                assert(after[i] == targets[k]);
                assert(after[i].path == other);
            }
        }
    } else {
        lemma_remove_absent_changes_nothing(targets, path);
    }
    assert(as_map(after) =~= as_map(targets).remove(path));
}

/// The last write wins. Adding a path twice in a row comes to the same as
/// adding it once with the second flag.
pub proof fn lemma_last_add_wins(
    targets: Seq<WatchTargetView>,
    path: Seq<char>,
    first: bool,
    second: bool,
)
    ensures
        upsert(upsert(targets, path, first), path, second) == upsert(targets, path, second),
{
    let once = upsert(targets, path, first);
    let twice = upsert(once, path, second);
    if has_path(targets, path) {
        let at = choose|i: int| 0 <= i < targets.len() && (#[trigger] targets[i]).path == path;
        assert(once[at].path == path);
        assert(twice =~= upsert(targets, path, second));
    } else {
        assert(once[targets.len() as int].path == path);
        assert forall|i: int| 0 <= i < targets.len() implies twice[i] == targets[i] by {
            if targets[i].path == path {
                assert(has_path(targets, path));
            }
        }
        assert(twice =~= upsert(targets, path, second));
    }
}

/// Adding a path with one flag and then with another leaves exactly one
/// target for the path, and it has the second flag.
pub proof fn lemma_readd_leaves_one_target(
    targets: Seq<WatchTargetView>,
    path: Seq<char>,
    first: bool,
    second: bool,
)
    requires
        distinct_paths(targets),
    ensures
        distinct_paths(upsert(upsert(targets, path, first), path, second)),
        one_target_for(upsert(upsert(targets, path, first), path, second), path, second),
{
    lemma_last_add_wins(targets, path, first, second);
    lemma_add_registers(targets, path, second);
}

} // verus!
