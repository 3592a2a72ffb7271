//! What the editor does when it cannot create its data directories at launch: it groups
//! the failures by error kind and explains each group in one paragraph.

use vstd::prelude::*;

use crate::panel::string_views;
use crate::plugin::FailToOpenWindowPlugin;

verus! {

/// A directory that could not be created: the path as `{:?}` writes it, and the error kind
/// as its `Display` writes it, with whether it is `PermissionDenied`.
pub struct CreateDirFailure {
    pub path: String,
    pub kind: String,
    pub permission_denied: bool,
}

/// The directories that failed with one error kind, in the order they were tried.
pub struct CreateDirErrors {
    pub kind: String,
    pub permission_denied: bool,
    pub paths: Vec<String>,
}

/// Whether `failure` is of the error kind `kind` / `permission_denied`.
pub open spec fn of_kind(failure: CreateDirFailure, kind: Seq<char>, permission_denied: bool) -> bool {
    failure.kind@ == kind && failure.permission_denied == permission_denied
}

/// The paths of the failures of one kind, in order.
pub open spec fn paths_of_kind(
    failures: Seq<CreateDirFailure>,
    kind: Seq<char>,
    permission_denied: bool,
) -> Seq<Seq<char>>
    decreases failures.len(),
{
    if failures.len() == 0 {
        Seq::empty()
    } else {
        let earlier = paths_of_kind(failures.drop_last(), kind, permission_denied);
        if of_kind(failures.last(), kind, permission_denied) {
            earlier.push(failures.last().path@)
        } else {
            earlier
        }
    }
}

/// `groups` sorts `failures` by kind: one group per kind that occurs, none for a kind that
/// does not, each with the paths of its kind in order.
pub open spec fn groups_by_kind(groups: Seq<CreateDirErrors>, failures: Seq<CreateDirFailure>) -> bool {
    &&& forall|i: int, j: int|
        0 <= i < groups.len() && 0 <= j < groups.len() && i != j ==> !(
        (#[trigger] groups[i]).kind@ == (#[trigger] groups[j]).kind@
            && groups[i].permission_denied == groups[j].permission_denied)
    &&& forall|i: int|
        0 <= i < groups.len() ==> string_views((#[trigger] groups[i]).paths@) == paths_of_kind(
            failures,
            groups[i].kind@,
            groups[i].permission_denied,
        )
    &&& forall|i: int| 0 <= i < groups.len() ==> (#[trigger] groups[i]).paths@.len() > 0
    &&& forall|m: int|
        0 <= m < failures.len() ==> exists|i: int|
            0 <= i < groups.len() && of_kind(
                #[trigger] failures[m],
                (#[trigger] groups[i]).kind@,
                groups[i].permission_denied,
            )
}

proof fn lemma_paths_of_kind_empty(failures: Seq<CreateDirFailure>, kind: Seq<char>, pd: bool)
    requires
        forall|m: int| 0 <= m < failures.len() ==> !of_kind(#[trigger] failures[m], kind, pd),
    ensures
        paths_of_kind(failures, kind, pd) == Seq::<Seq<char>>::empty(),
    decreases failures.len(),
{
    if failures.len() > 0 {
        assert(!of_kind(failures[failures.len() - 1], kind, pd));
        lemma_paths_of_kind_empty(failures.drop_last(), kind, pd);
    }
}

/// Sorts the failed directories by error kind, keeping each kind's paths in the order they
/// were tried. The order of the kinds is left open.
pub fn group_creation_errors(failures: Vec<CreateDirFailure>) -> (groups: Vec<CreateDirErrors>)
    ensures
        groups_by_kind(groups@, failures@),
{
    let mut groups: Vec<CreateDirErrors> = Vec::new();
    let n = failures.len();
    for k in 0..n
        invariant
            n == failures.len(),
            groups_by_kind(groups@, failures@.take(k as int)),
    {
        let ghost done = failures@.take(k as int);
        let ghost next = failures@.take(k + 1);
        assert(next.drop_last() =~= done);
        assert(next.last() == failures@[k as int]);
        let failure = &failures[k];
        let mut found: Option<usize> = None;
        let g = groups.len();
        for i in 0..g
            invariant
                g == groups.len(),
                found matches Some(x) ==> x < g && of_kind(
                    *failure,
                    groups@[x as int].kind@,
                    groups@[x as int].permission_denied,
                ),
                found is None ==> forall|j: int| 0 <= j < i ==> !of_kind(
                    *failure,
                    (#[trigger] groups@[j]).kind@,
                    groups@[j].permission_denied,
                ),
        {
            if found.is_none() && groups[i].kind == failure.kind
                && groups[i].permission_denied == failure.permission_denied {
                found = Some(i);
            }
        }
        let ghost before = groups@;
        match found {
            Some(x) => {
                let path = failure.path.clone();
                groups[x].paths.push(path);
                proof {
                    assert forall|i: int| 0 <= i < groups.len() implies string_views(
                        (#[trigger] groups@[i]).paths@,
                    ) == paths_of_kind(next, groups@[i].kind@, groups@[i].permission_denied) by {
                        if i == x {
                            assert(string_views(groups@[i].paths@) =~= string_views(
                                before[i].paths@,
                            ).push(failure.path@));
                        } else {
                            assert(groups@[i] == before[i]);
                        }
                    }
                    assert forall|m: int| 0 <= m < next.len() implies exists|i: int|
                        0 <= i < groups.len() && of_kind(
                            #[trigger] next[m],
                            (#[trigger] groups@[i]).kind@,
                            groups@[i].permission_denied,
                        ) by {
                        if m < k {
                            assert(next[m] == done[m]);
                            let i = choose|i: int|
                                0 <= i < before.len() && of_kind(
                                    #[trigger] done[m],
                                    (#[trigger] before[i]).kind@,
                                    before[i].permission_denied,
                                );
                            assert(groups@[i].kind == before[i].kind);
                        } else {
                            assert(groups@[x as int].kind == before[x as int].kind);
                        }
                    }
                }
            },
            None => {
                let mut paths: Vec<String> = Vec::new();
                paths.push(failure.path.clone());
                groups.push(CreateDirErrors {
                    kind: failure.kind.clone(),
                    permission_denied: failure.permission_denied,
                    paths,
                });
                proof {
                    let last = groups.len() - 1;
                    lemma_paths_of_kind_empty(done, failure.kind@, failure.permission_denied);
                    assert forall|i: int| 0 <= i < groups.len() implies string_views(
                        (#[trigger] groups@[i]).paths@,
                    ) == paths_of_kind(next, groups@[i].kind@, groups@[i].permission_denied) by {
                        if i == last {
                            assert(string_views(groups@[i].paths@) =~= seq![failure.path@]);
                            assert(paths_of_kind(next, failure.kind@, failure.permission_denied)
                                =~= seq![failure.path@]);
                        } else {
                            assert(groups@[i] == before[i]);
                        }
                    }
                    assert forall|m: int| 0 <= m < next.len() implies exists|i: int|
                        0 <= i < groups.len() && of_kind(
                            #[trigger] next[m],
                            (#[trigger] groups@[i]).kind@,
                            groups@[i].permission_denied,
                        ) by {
                        if m < k {
                            assert(next[m] == done[m]);
                            let i = choose|i: int|
                                0 <= i < before.len() && of_kind(
                                    #[trigger] done[m],
                                    (#[trigger] before[i]).kind@,
                                    before[i].permission_denied,
                                );
                            assert(groups@[i] == before[i]);
                        } else {
                            assert(of_kind(next[m], groups@[last].kind@, groups@[last].permission_denied));
                        }
                    }
                }
            },
        }
    }
    assert(failures@.take(n as int) =~= failures@);
    groups
}


/// The pieces joined by `separator`, as `[..].join(separator)` writes them.
pub open spec fn join(pieces: Seq<Seq<char>>, separator: Seq<char>) -> Seq<char>
    decreases pieces.len(),
{
    if pieces.len() == 0 {
        Seq::empty()
    } else if pieces.len() == 1 {
        pieces[0]
    } else {
        join(pieces.drop_last(), separator) + separator + pieces.last()
    }
}

/// A list as `{:?}` writes it, from the `{:?}` texts of its items: `[a, b, c]`.
pub open spec fn debug_list(items: Seq<Seq<char>>) -> Seq<char> {
    "["@ + join(items, ", "@) + "]"@
}

/// The advice added, on Unix, to a paragraph about directories that could not be created
/// for lack of permission.
pub open spec fn permission_hint() -> Seq<char> {
    "\n\nConsider using chown and chmod tools for altering the directories permissions if your user has corresponding rights.\nFor example, `sudo chown $(whoami):staff ~/.config` and `chmod +uwrx ~/.config`"@
}

/// The paragraph about the directories that failed with one error kind; none where no
/// directory failed with it.
pub open spec fn dir_error_detail(
    kind: Seq<char>,
    permission_denied: bool,
    paths: Seq<Seq<char>>,
    on_unix: bool,
) -> Option<Seq<char>> {
    if paths.len() == 0 {
        None
    } else {
        let base = if paths.len() == 1 {
            kind + " when creating directory "@ + paths[0]
        } else {
            kind + " when creating directories "@ + debug_list(paths)
        };
        Some(if on_unix && permission_denied { base + permission_hint() } else { base })
    }
}

/// The paragraphs of the groups that have any, in order.
pub open spec fn error_paragraphs(groups: Seq<CreateDirErrors>, on_unix: bool) -> Seq<Seq<char>>
    decreases groups.len(),
{
    if groups.len() == 0 {
        Seq::empty()
    } else {
        let earlier = error_paragraphs(groups.drop_last(), on_unix);
        let g = groups.last();
        match dir_error_detail(g.kind@, g.permission_denied, string_views(g.paths@), on_unix) {
            Some(p) => earlier.push(p),
            None => earlier,
        }
    }
}

/// All paragraphs, separated by blank lines.
pub open spec fn error_details(groups: Seq<CreateDirErrors>, on_unix: bool) -> Seq<char> {
    join(error_paragraphs(groups, on_unix), "\n\n"@)
}

/// The headline of a failed launch.
pub open spec fn launch_failure_message() -> Seq<char> {
    "Zed failed to launch"@
}

proof fn lemma_join_push(pieces: Seq<Seq<char>>, separator: Seq<char>, piece: Seq<char>)
    ensures
        join(pieces.push(piece), separator) == if pieces.len() == 0 {
            piece
        } else {
            join(pieces, separator) + separator + piece
        },
{
    assert(pieces.push(piece).drop_last() =~= pieces);
    if pieces.len() == 0 {
        assert(pieces.push(piece)[0] == piece);
    }
}

/// Joins strings with a separator.
pub fn join_strings(pieces: &Vec<String>, separator: &str) -> (joined: String)
    ensures
        joined@ == join(string_views(pieces@), separator@),
{
    let mut joined = String::new();
    let n = pieces.len();
    for i in 0..n
        invariant
            n == pieces.len(),
            joined@ == join(string_views(pieces@.take(i as int)), separator@),
    {
        proof {
            assert(string_views(pieces@.take(i + 1)) =~= string_views(pieces@.take(i as int)).push(
                pieces@[i as int]@,
            ));
            lemma_join_push(string_views(pieces@.take(i as int)), separator@, pieces@[i as int]@);
        }
        if i > 0 {
            joined.append(separator);
        }
        joined.append(pieces[i].as_str());
    }
    assert(pieces@.take(n as int) =~= pieces@);
    joined
}

/// The paragraph about one group of failed directories, if it has any path.
pub fn describe_errors(errors: &CreateDirErrors, on_unix: bool) -> (detail: Option<String>)
    ensures
        detail matches Some(d) ==> dir_error_detail(
            errors.kind@,
            errors.permission_denied,
            string_views(errors.paths@),
            on_unix,
        ) == Some(d@),
        detail is None ==> dir_error_detail(
            errors.kind@,
            errors.permission_denied,
            string_views(errors.paths@),
            on_unix,
        ) is None,
{
    let n = errors.paths.len();
    if n == 0 {
        return None;
    }
    let mut detail = errors.kind.clone();
    if n == 1 {
        detail.append(" when creating directory ");
        detail.append(errors.paths[0].as_str());
    } else {
        detail.append(" when creating directories [");
        let list = join_strings(&errors.paths, ", ");
        detail.append(list.as_str());
        detail.append("]");
        proof {
            reveal_strlit(" when creating directories [");
            reveal_strlit(" when creating directories ");
            reveal_strlit("[");
            assert(" when creating directories ["@ =~= " when creating directories "@ + "["@);
        }
    }
    if on_unix && errors.permission_denied {
        detail.append(
            "\n\nConsider using chown and chmod tools for altering the directories permissions if your user has corresponding rights.\nFor example, `sudo chown $(whoami):staff ~/.config` and `chmod +uwrx ~/.config`",
        );
    }
    assert(string_views(errors.paths@).len() == n);
    Some(detail)
}

/// The report of a launch that could not create its directories: the line written to
/// standard error, and the plugin that shows the same failure in a window.
pub struct LaunchFailure {
    pub stderr_line: String,
    pub plugin: FailToOpenWindowPlugin,
}

/// Explains the directories that could not be created: one paragraph per error kind that
/// has any, separated by blank lines, after the headline `Zed failed to launch`.
pub fn files_not_created_on_launch(errors: &Vec<CreateDirErrors>, on_unix: bool) -> (failure: LaunchFailure)
    ensures
        failure.stderr_line@ == launch_failure_message() + ": "@ + error_details(errors@, on_unix),
        failure.plugin.message() == launch_failure_message(),
        failure.plugin.error_details() == error_details(errors@, on_unix),
{
    let mut paragraphs: Vec<String> = Vec::new();
    let n = errors.len();
    for i in 0..n
        invariant
            n == errors.len(),
            string_views(paragraphs@) == error_paragraphs(errors@.take(i as int), on_unix),
    {
        proof {
            assert(errors@.take(i + 1).drop_last() =~= errors@.take(i as int));
            assert(errors@.take(i + 1).last() == errors@[i as int]);
        }
        let detail = describe_errors(&errors[i], on_unix);
        match detail {
            Some(d) => {
                paragraphs.push(d);
                assert(string_views(paragraphs@) =~= error_paragraphs(errors@.take(i + 1), on_unix));
            },
            None => {},
        }
    }
    assert(errors@.take(n as int) =~= errors@);
    let details = join_strings(&paragraphs, "\n\n");
    let message = String::from_str("Zed failed to launch");
    let mut stderr_line = message.clone();
    stderr_line.append(": ");
    stderr_line.append(details.as_str());
    LaunchFailure { stderr_line, plugin: FailToOpenWindowPlugin::new(message, details) }
}

} // verus!
