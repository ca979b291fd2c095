use vstd::prelude::*;

verus! {

/// A request to the file-system provider to add a directory to its
/// allow-list: the directory itself, and either its direct children or,
/// when `recursive`, everything below it.
pub struct ScopeGrant {
    pub directory: String,
    pub recursive: bool,
}

impl View for ScopeGrant {
    type V = (Seq<char>, bool);

    open spec fn view(&self) -> (Seq<char>, bool) {
        (self.directory@, self.recursive)
    }
}

/// `path` lies strictly below `directory`: it starts with the directory,
/// then a separator, then at least one more character.
pub open spec fn is_descendant(directory: Seq<char>, path: Seq<char>) -> bool {
    &&& directory.len() + 1 < path.len()
    &&& path.subrange(0, directory.len() as int) == directory
    &&& path[directory.len() as int] == '/'
}

/// `path` lies directly inside `directory`: no separator follows the one
/// after the directory.
pub open spec fn is_direct_child(directory: Seq<char>, path: Seq<char>) -> bool {
    &&& is_descendant(directory, path)
    &&& forall|i: int| directory.len() < i < path.len() ==> path[i] != '/'
}

/// What a granted directory lets the front-end reach.
pub open spec fn grant_permits(grant: (Seq<char>, bool), path: Seq<char>) -> bool {
    ||| path == grant.0
    ||| (grant.1 && is_descendant(grant.0, path))
    ||| (!grant.1 && is_direct_child(grant.0, path))
}

/// What an allow-list, as the sequence of grants added to it, lets the
/// front-end reach.
pub open spec fn allow_list_permits(grants: Seq<(Seq<char>, bool)>, path: Seq<char>) -> bool {
    exists|i: int| 0 <= i < grants.len() && grant_permits(#[trigger] grants[i], path)
}

/// The grant that opening a project asks for: the project directory and all
/// of its descendants.
pub open spec fn project_grant(project_path: Seq<char>) -> (Seq<char>, bool) {
    (project_path, true)
}

/// The text of a failed scope extension, given the provider's reason.
pub open spec fn scope_failure_text(reason: Seq<char>) -> Seq<char> {
    "Failed to add directory to scope: "@ + reason
}

/// The grant to request for a project the user opened.
pub fn project_scope_grant(project_path: String) -> (r: ScopeGrant)
    ensures
        r@ == project_grant(project_path@),
{
    ScopeGrant { directory: project_path, recursive: true }
}

/// The diagnostic returned to the front-end when the provider rejects a
/// grant for `reason`.
pub fn scope_failure_message(reason: &str) -> (r: String)
    ensures
        r@ == scope_failure_text(reason@),
{
    let r = String::from_str("Failed to add directory to scope: ");
    let r = r.concat(reason);
    proof {
        reveal_strlit("Failed to add directory to scope: ");
    }
    r
}

/// The answer of the add-project-to-scope command, given what the provider
/// answered: an acknowledgment when it accepted the grant, else the
/// diagnostic that carries its reason.
pub fn scope_extension_result(provider: Result<(), String>) -> (r: Result<(), String>)
    ensures
        provider is Ok <==> r is Ok,
        provider is Err ==> r is Err && r->Err_0@ == scope_failure_text(provider->Err_0@),
{
    match provider {
        Ok(()) => Ok(()),
        Err(reason) => Err(scope_failure_message(reason.as_str())),
    }
}

/// Granting a project keeps everything the allow-list permitted, and
/// permits the project directory and every path at any depth below it.
pub proof fn lemma_project_grant_is_recursive(
    before: Seq<(Seq<char>, bool)>,
    project_path: Seq<char>,
    path: Seq<char>,
)
    requires
        path == project_path || is_descendant(project_path, path) || allow_list_permits(
            before,
            path,
        ),
    ensures
        allow_list_permits(before.push(project_grant(project_path)), path),
{
    let after = before.push(project_grant(project_path));
    if allow_list_permits(before, path) {
        let i = choose|i: int| 0 <= i < before.len() && grant_permits(#[trigger] before[i], path);
        assert(after[i] == before[i]);
    } else {
        assert(after[before.len() as int] == project_grant(project_path));
    }
}

/// Granting the same project twice permits exactly what granting it once
/// does.
pub proof fn lemma_project_grant_is_idempotent(
    before: Seq<(Seq<char>, bool)>,
    project_path: Seq<char>,
)
    ensures
        forall|path: Seq<char>|
            allow_list_permits(
                before.push(project_grant(project_path)).push(project_grant(project_path)),
                path,
            ) == allow_list_permits(before.push(project_grant(project_path)), path),
{
    let g = project_grant(project_path);
    let once = before.push(g);
    let twice = once.push(g);
    assert forall|path: Seq<char>| allow_list_permits(twice, path) == allow_list_permits(
        once,
        path,
    ) by {
        if allow_list_permits(twice, path) {
            let i = choose|i: int| 0 <= i < twice.len() && grant_permits(#[trigger] twice[i], path);
            if i == once.len() {
                assert(once[before.len() as int] == g);
            } else {
                assert(once[i] == twice[i]);
            }
        }
        if allow_list_permits(once, path) {
            let i = choose|i: int| 0 <= i < once.len() && grant_permits(#[trigger] once[i], path);
            assert(twice[i] == once[i]);
        }
    }
}

/// A rejected grant is reported with the fixed prefix followed by the
/// provider's reason, which therefore appears whole in the diagnostic.
pub proof fn lemma_failure_carries_reason(reason: Seq<char>)
    ensures
        ({
            let text = scope_failure_text(reason);
            let k: int = "Failed to add directory to scope: "@.len() as int;
            &&& text.subrange(0, k) == "Failed to add directory to scope: "@
            &&& text.subrange(k, k + reason.len() as int) == reason
        }),
{
    let p = "Failed to add directory to scope: "@;
    let text = p + reason;
    assert(text.subrange(0, p.len() as int) =~= p);
    assert(text.subrange(p.len() as int, (p.len() + reason.len()) as int) =~= reason);
}

} // verus!
